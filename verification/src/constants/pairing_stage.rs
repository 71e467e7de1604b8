use vstd::prelude::*;

verus! {

pub const REQUEST: &'static str = "request";
pub const VERIFICATION: &'static str = "verification";
pub const VERIFYING: &'static str = "verifying";
pub const COMPLETE: &'static str = "complete";
pub const FAILED: &'static str = "failed";

} // verus!
