//! Core of the daemon's v2 setup HTTP surface and of the OpenAPI
//! document audit.
//!
//! - [`setup`]: request-to-operation and answer-to-response mapping of the
//!   `/v2/setup/*` endpoints, and the mapping of engine failures onto the
//!   daemon-wide error surface.
//! - [`openapi`]: the `$ref`-integrity and cardinality audit of the API document.
//! - [`engine`], [`dto`], [`error`]: the values crossing the engine boundary,
//!   the wire DTOs and the HTTP error type.
//! - [`constants`]: wire-protocol string constants (topics, events, routes).

pub mod constants;
pub mod dto;
pub mod engine;
pub mod error;
pub mod openapi;
pub mod setup;
