//! The setup engine's side of the boundary: the operations the HTTP layer asks
//! it to run, what it answers, and how it fails.
//!
//! The engine itself runs outside this library; these are the plain values
//! that cross the boundary in both directions.

use vstd::prelude::*;

pub mod error_codes;

verus! {

/// Coarse classification of an engine failure.
#[derive(Debug, Clone, Copy, PartialEq, Eq, Structural)]
pub enum EngineErrorCategory {
    InvalidInput,
    InvalidState,
    NotFound,
    Conflict,
    Unauthorized,
    Unavailable,
    DeadlineExceeded,
    Internal,
}

/// A failure reported by the engine: a stable numeric code, its category and
/// whether a retry may succeed.
#[derive(Debug, Clone, Copy, PartialEq, Eq, Structural)]
pub struct EngineError {
    pub code: u32,
    pub category: EngineErrorCategory,
    pub retryable: bool,
}

impl EngineError {
    pub fn new(code: u32, category: EngineErrorCategory, retryable: bool) -> (err: EngineError)
        ensures
            err.code == code,
            err.category == category,
            err.retryable == retryable,
    {
        EngineError { code, category, retryable }
    }

    pub fn code(&self) -> (c: u32)
        ensures
            c == self.code,
    {
        self.code
    }

    pub fn category(&self) -> (c: EngineErrorCategory)
        ensures
            c == self.category,
    {
        self.category
    }

    pub fn retryable(&self) -> (r: bool)
        ensures
            r == self.retryable,
    {
        self.retryable
    }
}

/// A secret (a passphrase) handed to the engine.
#[derive(Clone, PartialEq, Eq)]
pub struct SecretString {
    secret: String,
}

impl View for SecretString {
    type V = Seq<char>;

    closed spec fn view(&self) -> Seq<char> {
        self.secret@
    }
}

impl SecretString {
    pub fn new(secret: String) -> (s: SecretString)
        ensures
            s@ == secret@,
    {
        SecretString { secret }
    }

    pub fn expose_secret(&self) -> (s: &str)
        ensures
            s@ == self@,
    {
        self.secret.as_str()
    }
}

/// Input of [`Operation::CreateSpace`].
#[derive(Clone, PartialEq, Eq)]
pub struct CreateSpaceInput {
    pub passphrase: SecretString,
    pub passphrase_confirmation: SecretString,
    pub device_name: String,
}

/// Input of [`Operation::JoinSpace`]: a fresh join or a switch of space.
#[derive(Clone, PartialEq, Eq)]
pub struct JoinSpaceInput {
    pub invitation_code: String,
    pub device_name: Option<String>,
    pub passphrase: SecretString,
    pub preserve_unreadable_history: bool,
}

/// Input of [`Operation::CancelJoinSpace`].
#[derive(Clone, Debug, PartialEq, Eq)]
pub struct CancelJoinSpaceInput {
    pub join_id: String,
}

/// The setup operations the HTTP layer submits to the engine.
#[derive(Clone, PartialEq, Eq)]
pub enum Operation {
    CreateSpace(CreateSpaceInput),
    IssueInvitation,
    JoinSpace(JoinSpaceInput),
    CancelInvitation,
    ResetSpace,
    QuerySetupState,
    CancelJoinSpace(CancelJoinSpaceInput),
    ClearStaleAdmission,
}

/// The space a completed join landed in.
#[derive(Clone, Debug, PartialEq, Eq)]
pub struct JoinedSpaceSummary {
    pub sponsor_device_id: String,
    pub sponsor_identity_fingerprint: String,
    pub space_id: String,
    pub self_device_id: String,
    pub self_identity_fingerprint: String,
    pub migrated_records: u64,
    pub preserved_unreadable_records: u64,
}

/// Why the sponsor or the engine turned a join attempt down.
#[derive(Clone, Copy, Debug, PartialEq, Eq, Structural)]
pub enum JoinSpaceRejectionReasonSummary {
    InvitationUnavailable,
    AuthenticationRejected,
    IdentityConflict,
    BaseHistoryChanged,
    JoinerHistoryAhead,
    HistoryConflict,
    PeerUpgradeRequired,
    Cancelled,
    RemovedBeforeActivation,
}

/// The durable state of one join attempt.
#[derive(Clone, Debug, PartialEq, Eq)]
pub enum JoinSpaceStatusSummary {
    Active { join_id: String, joined_space: JoinedSpaceSummary },
    Pending {
        join_id: String,
        target_space_id: String,
        sponsor_device_id: String,
        sponsor_identity_fingerprint: String,
        cancel_requested: bool,
    },
    Rejected { join_id: String, reason: JoinSpaceRejectionReasonSummary },
}

/// An invitation that is currently in flight.
#[derive(Clone, Debug, PartialEq, Eq)]
pub struct InvitationView {
    pub invitation_code: String,
    pub expires_at_ms: i64,
}

/// Read-only snapshot of the setup state.
#[derive(Clone, Debug, PartialEq, Eq)]
pub struct SetupStateView {
    pub has_completed: bool,
    pub current_invitation: Option<InvitationView>,
    pub device_name: Option<String>,
    pub re_pairing_required: bool,
}

/// What the engine answers to a setup operation.
#[derive(Clone, Debug, PartialEq, Eq)]
pub enum OperationResult {
    SpaceCreated { space_id: String, self_device_id: String, identity_fingerprint: String },
    InvitationIssued { invitation_code: String, expires_at_ms: i64 },
    JoinSpace(JoinSpaceStatusSummary),
    InvitationCancelled,
    SpaceReset,
    SetupState(SetupStateView),
    StaleAdmissionCleared,
}

} // verus!
