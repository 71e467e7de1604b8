use vstd::prelude::*;

verus! {

/// POST /auth/connect — exchange bearer token for JWT session token
pub const AUTH_CONNECT: &'static str = "/auth/connect";

} // verus!
