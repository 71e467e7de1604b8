use vstd::prelude::*;

verus! {

/// POST /v2/setup/initialize — A1 initialise space.
pub const SETUP_INITIALIZE: &'static str = "/v2/setup/initialize";
/// POST /v2/setup/issue-invitation — B1 sponsor mints an invitation.
pub const SETUP_ISSUE_INVITATION: &'static str = "/v2/setup/issue-invitation";
/// POST /v2/setup/redeem — B2 joiner redeems an invitation.
pub const SETUP_REDEEM: &'static str = "/v2/setup/redeem";
/// POST /v2/setup/cancel — drop in-flight invitation; 409 when none.
pub const SETUP_CANCEL: &'static str = "/v2/setup/cancel";
/// POST /v2/setup/reset — clear setup status + pending invitations.
pub const SETUP_RESET: &'static str = "/v2/setup/reset";
/// GET /v2/setup/state — read-only snapshot for the v2 UI.
pub const SETUP_STATE: &'static str = "/v2/setup/state";
/// POST /v2/setup/switch-space — already-setup device joins another sponsor's
/// space, running the 4-phase clipboard re-encryption migration.
pub const SETUP_SWITCH_SPACE: &'static str = "/v2/setup/switch-space";
/// POST /v2/setup/cancel-join — cancel one durable admission attempt.
pub const SETUP_CANCEL_JOIN: &'static str = "/v2/setup/cancel-join";
/// POST /v2/setup/clear-stale-admission — clear pending (non-terminal)
/// admission attempts left behind by an interrupted pairing, without
/// touching the intact space.
pub const SETUP_CLEAR_STALE_ADMISSION: &'static str = "/v2/setup/clear-stale-admission";

} // verus!
