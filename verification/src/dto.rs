//! Wire DTOs of the v2 setup endpoints (request bodies and response payloads).

use vstd::prelude::*;

verus! {

/// Body of `POST /v2/setup/initialize`.
#[derive(Clone, Debug, PartialEq, Eq)]
pub struct InitializeSpaceRequest {
    pub passphrase: String,
    pub passphrase_confirm: String,
    pub device_name: String,
}

/// Payload answered by `POST /v2/setup/initialize`.
#[derive(Clone, Debug, PartialEq, Eq)]
pub struct InitializeSpaceResponse {
    pub space_id: String,
    pub self_device_id: String,
    pub fingerprint: String,
}

/// Payload answered by `POST /v2/setup/issue-invitation`.
#[derive(Clone, Debug, PartialEq, Eq)]
pub struct IssueInvitationResponse {
    pub code: String,
    pub expires_at_ms: i64,
}

/// Body of `POST /v2/setup/redeem`.
#[derive(Clone, Debug, PartialEq, Eq)]
pub struct RedeemRequest {
    pub code: String,
    pub passphrase: String,
}

/// Body of `POST /v2/setup/switch-space`.
#[derive(Clone, Debug, PartialEq, Eq)]
pub struct SwitchSpaceRequest {
    pub code: String,
    pub new_passphrase: String,
    pub preserve_unreadable_history: bool,
}

/// Body of `POST /v2/setup/cancel-join`.
#[derive(Clone, Debug, PartialEq, Eq)]
pub struct CancelJoinSpaceRequest {
    pub join_id: String,
}

/// The space a completed join landed in, as shown to clients.
#[derive(Clone, Debug, PartialEq, Eq)]
pub struct JoinedSpaceResponse {
    pub sponsor_device_id: String,
    pub sponsor_identity_fingerprint: String,
    pub space_id: String,
    pub self_device_id: String,
    pub self_identity_fingerprint: String,
    pub migrated_records: u64,
    pub preserved_unreadable_records: u64,
}

/// Why a join attempt was turned down, as shown to clients.
#[derive(Clone, Copy, Debug, PartialEq, Eq, Structural)]
pub enum JoinSpaceRejectionReason {
    InvitationUnavailable,
    AuthenticationRejected,
    IdentityConflict,
    BaseHistoryChanged,
    JoinerHistoryAhead,
    HistoryConflict,
    PeerUpgradeRequired,
    Cancelled,
    RemovedBeforeActivation,
}

/// The state of one join attempt, as shown to clients.
#[derive(Clone, Debug, PartialEq, Eq)]
pub enum JoinSpaceResponse {
    Active { join_id: String, joined_space: JoinedSpaceResponse },
    Pending {
        join_id: String,
        target_space_id: String,
        sponsor_device_id: String,
        sponsor_identity_fingerprint: String,
        cancel_requested: bool,
    },
    Rejected { join_id: String, reason: JoinSpaceRejectionReason },
}

/// The invitation currently in flight, as shown to clients.
#[derive(Clone, Debug, PartialEq, Eq)]
pub struct CurrentInvitation {
    pub code: String,
    pub expires_at_ms: i64,
}

/// Payload answered by `GET /v2/setup/state`.
#[derive(Clone, Debug, PartialEq, Eq)]
pub struct SetupStateResponse {
    pub has_completed: bool,
    pub current_invitation: Option<CurrentInvitation>,
    pub device_name: Option<String>,
    pub re_pairing_required: bool,
}

} // verus!
