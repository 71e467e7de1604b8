//! Daemon wire-protocol string constants shared between the daemon server and its clients.

/// WebSocket topic names used to subscribe to event streams.
pub mod ws_topic;

/// WebSocket event type names emitted within topics.
pub mod ws_event;

/// Pairing stage labels used in pairing session state payloads.
pub mod pairing_stage;

/// Reasons emitted when a pairing request is rejected because the host is busy.
pub mod pairing_busy_reason;

/// HTTP/JSON error codes returned by the daemon pairing API endpoints.
pub mod pairing_error_code;

/// HTTP route path prefixes for daemon REST endpoints.
pub mod http_route;

/// HTTP route paths for the v2 daemon REST endpoints (Slice4 P3 T3.2).
///
/// Stateless setup pairing endpoints under `/v2/setup/*`. Each route
/// maps to a `SpaceSetupFacade` method; legacy `/setup/*` paths in
/// [`http_route`] above stay live until T3.4 deletes them in one shot.
pub mod http_route_v2;

/// HTTP route paths for daemon auth endpoints.
pub mod auth_route;
