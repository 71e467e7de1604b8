use vstd::prelude::*;

verus! {

pub const HOST_NOT_DISCOVERABLE: &'static str = "host_not_discoverable";
pub const NO_LOCAL_PAIRING_PARTICIPANT_READY: &'static str = "no_local_pairing_participant_ready";
pub const BUSY: &'static str = "busy";

} // verus!
