use vstd::prelude::*;

verus! {

pub const ACTIVE_SESSION_EXISTS: &'static str = "active_session_exists";
pub const HOST_NOT_DISCOVERABLE: &'static str = "host_not_discoverable";
pub const NO_LOCAL_PARTICIPANT: &'static str = "no_local_participant";
pub const SESSION_NOT_FOUND: &'static str = "session_not_found";
pub const INTERNAL: &'static str = "internal";
pub const BAD_REQUEST: &'static str = "bad_request";
pub const RUNTIME_UNAVAILABLE: &'static str = "runtime_unavailable";

} // verus!
