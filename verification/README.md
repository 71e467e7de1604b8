# uc_webserver

The daemon's v2 setup HTTP surface (`/v2/setup/*`) and the OpenAPI document
audit, written in Verus.

- `src/setup.rs` — for each endpoint: the engine operation a request becomes,
  the response an engine answer becomes, and the HTTP error each engine
  failure is mapped onto; laws of that mapping (unnamed codes are redacted,
  statuses stay on the 400/404/409/500/503 surface, unavailability stays 503,
  a sponsor that must upgrade is the same stable conflict on join and switch).
- `src/openapi.rs` — a plain JSON tree, `$ref` collection and the audit of the
  materialized API document (`$ref` integrity, no bare `ApiEnvelope`, frozen
  path/operation counts), with the law that it accepts exactly the sound
  documents.
- `src/engine.rs`, `src/dto.rs`, `src/error.rs` — values crossing the engine
  boundary, wire DTOs, and the HTTP error type.
- `src/constants/` — wire-protocol string constants.
- `app/` — axum handlers and router, serde/utoipa copies of the wire types,
  the utoipa `ApiDoc` and the document writer.
