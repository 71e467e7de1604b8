//! The v2 setup endpoints (`/v2/setup/*`): how each request becomes an engine
//! operation, how the engine's answer becomes the response payload, and how
//! each engine failure is mapped onto the daemon-wide error surface
//! (400 / 404 / 409 / 500 / 503).
//!
//! An engine code that an endpoint does not name is never echoed back: the
//! answer then depends on the error's category alone.

use vstd::prelude::*;

use crate::dto::{
    CancelJoinSpaceRequest, CurrentInvitation, InitializeSpaceRequest, InitializeSpaceResponse,
    IssueInvitationResponse, JoinSpaceRejectionReason, JoinSpaceResponse, JoinedSpaceResponse,
    RedeemRequest, SetupStateResponse, SwitchSpaceRequest,
};
use crate::engine::error_codes::{
    CANCEL_INVITATION_NOT_ISSUED_CODE, CANCEL_JOIN_SPACE_NOT_FOUND_CODE,
    CREATE_SPACE_ALREADY_INITIALIZED_CODE, CREATE_SPACE_ALREADY_SETUP_CODE,
    CREATE_SPACE_DEVICE_NAME_REQUIRED_CODE, CREATE_SPACE_PASSPHRASE_MISMATCH_CODE,
    JOIN_SPACE_CONNECTION_LOST_CODE, JOIN_SPACE_CORRUPTED_KEY_CODE,
    JOIN_SPACE_DEVICE_NAME_REQUIRED_CODE, JOIN_SPACE_INVALID_CIPHERTEXT_CODE,
    JOIN_SPACE_INVITATION_EXPIRED_CODE, JOIN_SPACE_INVITATION_NOT_FOUND_CODE,
    JOIN_SPACE_NOT_SETUP_CODE, JOIN_SPACE_NOT_UNLOCKED_CODE, JOIN_SPACE_PASSPHRASE_MISMATCH_CODE,
    JOIN_SPACE_PENDING_MIGRATION_CODE, JOIN_SPACE_SERVICE_UNAVAILABLE_CODE,
    JOIN_SPACE_SPONSOR_DECLINED_CODE, JOIN_SPACE_SPONSOR_REJECTED_CODE,
    JOIN_SPACE_SPONSOR_TIMEOUT_CODE, JOIN_SPACE_SPONSOR_UNREACHABLE_CODE,
    JOIN_SPACE_SPONSOR_UPGRADE_REQUIRED_CODE, JOIN_SPACE_STORAGE_CODE, JOIN_SPACE_TIMEOUT_CODE,
    JOIN_SPACE_UNREADABLE_HISTORY_REQUIRES_CONFIRMATION_CODE,
};
use crate::engine::{
    CancelJoinSpaceInput, CreateSpaceInput, EngineError, EngineErrorCategory, JoinSpaceInput,
    JoinSpaceRejectionReasonSummary, JoinSpaceStatusSummary, Operation, OperationResult,
    SecretString,
};
use crate::error::{
    StatusCode, bad_request_view, conflict_view, internal_view, not_found_view, service_unavailable_view,
    with_code_view, ApiError, ApiErrorView,
};

verus! {

// ---------------------------------------------------------------------------
// Error mapping: what each endpoint answers to each engine failure
// ---------------------------------------------------------------------------

/// The codes that `POST /v2/setup/initialize` maps by name.
pub open spec fn create_names(code: u32) -> bool {
    ||| code == CREATE_SPACE_PASSPHRASE_MISMATCH_CODE
    ||| code == CREATE_SPACE_DEVICE_NAME_REQUIRED_CODE
    ||| code == CREATE_SPACE_ALREADY_INITIALIZED_CODE
    ||| code == CREATE_SPACE_ALREADY_SETUP_CODE
}

/// What `POST /v2/setup/initialize` answers to an engine failure.
pub open spec fn create_error(code: u32, category: EngineErrorCategory) -> ApiErrorView {
    if code == CREATE_SPACE_PASSPHRASE_MISMATCH_CODE {
        bad_request_view("passphrase and confirmation do not match"@)
    } else if code == CREATE_SPACE_DEVICE_NAME_REQUIRED_CODE {
        bad_request_view("device name is required"@)
    } else if code == CREATE_SPACE_ALREADY_INITIALIZED_CODE {
        conflict_view("space is already initialised"@)
    } else if code == CREATE_SPACE_ALREADY_SETUP_CODE {
        conflict_view("setup has already been completed on this device"@)
    } else if category == EngineErrorCategory::Unavailable {
        service_unavailable_view("create-space service unavailable"@)
    } else {
        internal_view("failed to create space"@)
    }
}

/// What `POST /v2/setup/issue-invitation` answers to an engine failure.
pub open spec fn issue_error(category: EngineErrorCategory) -> ApiErrorView {
    match category {
        EngineErrorCategory::InvalidState => service_unavailable_view("network is not started"@),
        EngineErrorCategory::Unavailable => service_unavailable_view(
            "pairing invitation service unavailable"@,
        ),
        EngineErrorCategory::InvalidInput => internal_view(
            "unexpected invalid invitation input on default path"@,
        ),
        _ => internal_view("failed to issue pairing invitation"@),
    }
}

/// The codes that `POST /v2/setup/redeem` maps by name.
pub open spec fn join_names(code: u32) -> bool {
    ||| code == JOIN_SPACE_INVITATION_NOT_FOUND_CODE
    ||| code == JOIN_SPACE_INVITATION_EXPIRED_CODE
    ||| code == JOIN_SPACE_SPONSOR_UNREACHABLE_CODE
    ||| code == JOIN_SPACE_SPONSOR_UPGRADE_REQUIRED_CODE
    ||| code == JOIN_SPACE_SERVICE_UNAVAILABLE_CODE
    ||| code == JOIN_SPACE_PASSPHRASE_MISMATCH_CODE
    ||| code == JOIN_SPACE_CORRUPTED_KEY_CODE
    ||| code == JOIN_SPACE_DEVICE_NAME_REQUIRED_CODE
    ||| code == JOIN_SPACE_SPONSOR_REJECTED_CODE
    ||| code == JOIN_SPACE_SPONSOR_DECLINED_CODE
    ||| code == JOIN_SPACE_SPONSOR_TIMEOUT_CODE
    ||| code == JOIN_SPACE_TIMEOUT_CODE
    ||| code == JOIN_SPACE_CONNECTION_LOST_CODE
}

/// The answer to a sponsor that must upgrade before pairing: a conflict under
/// its own stable code.
pub open spec fn sponsor_upgrade_required_error() -> ApiErrorView {
    with_code_view(
        conflict_view("sponsor must upgrade before pairing"@),
        "sponsor_upgrade_required"@,
    )
}

/// What `POST /v2/setup/redeem` answers to an engine failure.
pub open spec fn join_error(code: u32, category: EngineErrorCategory) -> ApiErrorView {
    if code == JOIN_SPACE_INVITATION_NOT_FOUND_CODE {
        not_found_view("invitation not found"@)
    } else if code == JOIN_SPACE_INVITATION_EXPIRED_CODE {
        not_found_view("invitation has expired"@)
    } else if code == JOIN_SPACE_SPONSOR_UNREACHABLE_CODE {
        service_unavailable_view("sponsor is not reachable"@)
    } else if code == JOIN_SPACE_SPONSOR_UPGRADE_REQUIRED_CODE {
        sponsor_upgrade_required_error()
    } else if code == JOIN_SPACE_SERVICE_UNAVAILABLE_CODE {
        service_unavailable_view("pairing invitation service unavailable"@)
    } else if code == JOIN_SPACE_PASSPHRASE_MISMATCH_CODE {
        bad_request_view("wrong passphrase"@)
    } else if code == JOIN_SPACE_CORRUPTED_KEY_CODE {
        internal_view("space key material corrupted"@)
    } else if code == JOIN_SPACE_DEVICE_NAME_REQUIRED_CODE {
        bad_request_view("device name is required"@)
    } else if code == JOIN_SPACE_SPONSOR_REJECTED_CODE {
        conflict_view("sponsor did not recognise the invitation code"@)
    } else if code == JOIN_SPACE_SPONSOR_DECLINED_CODE {
        conflict_view("sponsor declined the pairing request"@)
    } else if code == JOIN_SPACE_SPONSOR_TIMEOUT_CODE {
        service_unavailable_view("sponsor timed out the handshake"@)
    } else if code == JOIN_SPACE_TIMEOUT_CODE {
        service_unavailable_view("pairing handshake timed out"@)
    } else if code == JOIN_SPACE_CONNECTION_LOST_CODE {
        service_unavailable_view("connection lost mid-handshake"@)
    } else if category == EngineErrorCategory::Unavailable {
        service_unavailable_view("join-space service unavailable"@)
    } else {
        internal_view("failed to join space"@)
    }
}

/// The codes that `POST /v2/setup/cancel` maps by name.
pub open spec fn cancel_names(code: u32) -> bool {
    code == CANCEL_INVITATION_NOT_ISSUED_CODE
}

/// What `POST /v2/setup/cancel` answers to an engine failure.
pub open spec fn cancel_error(code: u32, category: EngineErrorCategory) -> ApiErrorView {
    if code == CANCEL_INVITATION_NOT_ISSUED_CODE {
        conflict_view("no in-flight invitation to cancel"@)
    } else if category == EngineErrorCategory::Unavailable {
        service_unavailable_view("invitation service unavailable"@)
    } else {
        internal_view("failed to cancel invitation"@)
    }
}

/// What `POST /v2/setup/reset` answers to an engine failure.
pub open spec fn reset_error(category: EngineErrorCategory) -> ApiErrorView {
    if category == EngineErrorCategory::Unavailable {
        service_unavailable_view("space reset service unavailable"@)
    } else {
        internal_view("failed to reset space"@)
    }
}

/// What `POST /v2/setup/clear-stale-admission` answers to an engine failure.
pub open spec fn clear_stale_admission_error(category: EngineErrorCategory) -> ApiErrorView {
    if category == EngineErrorCategory::Unavailable {
        service_unavailable_view("clear stale admission service unavailable"@)
    } else {
        internal_view("failed to clear stale admission state"@)
    }
}

/// What `GET /v2/setup/state` answers to an engine failure.
pub open spec fn query_setup_state_error(category: EngineErrorCategory) -> ApiErrorView {
    if category == EngineErrorCategory::Unavailable {
        service_unavailable_view("setup-state service unavailable"@)
    } else {
        internal_view("failed to query setup state"@)
    }
}

/// The codes that `POST /v2/setup/switch-space` maps by name.
pub open spec fn switch_names(code: u32) -> bool {
    ||| code == JOIN_SPACE_NOT_SETUP_CODE
    ||| code == JOIN_SPACE_PENDING_MIGRATION_CODE
    ||| code == JOIN_SPACE_NOT_UNLOCKED_CODE
    ||| code == JOIN_SPACE_UNREADABLE_HISTORY_REQUIRES_CONFIRMATION_CODE
    ||| code == JOIN_SPACE_INVITATION_NOT_FOUND_CODE
    ||| code == JOIN_SPACE_INVITATION_EXPIRED_CODE
    ||| code == JOIN_SPACE_SPONSOR_UNREACHABLE_CODE
    ||| code == JOIN_SPACE_SPONSOR_UPGRADE_REQUIRED_CODE
    ||| code == JOIN_SPACE_SERVICE_UNAVAILABLE_CODE
    ||| code == JOIN_SPACE_PASSPHRASE_MISMATCH_CODE
    ||| code == JOIN_SPACE_CORRUPTED_KEY_CODE
    ||| code == JOIN_SPACE_DEVICE_NAME_REQUIRED_CODE
    ||| code == JOIN_SPACE_SPONSOR_REJECTED_CODE
    ||| code == JOIN_SPACE_SPONSOR_DECLINED_CODE
    ||| code == JOIN_SPACE_TIMEOUT_CODE
    ||| code == JOIN_SPACE_CONNECTION_LOST_CODE
    ||| code == JOIN_SPACE_INVALID_CIPHERTEXT_CODE
    ||| code == JOIN_SPACE_STORAGE_CODE
}

/// What `POST /v2/setup/switch-space` answers to an engine failure.
pub open spec fn switch_error(code: u32, category: EngineErrorCategory) -> ApiErrorView {
    if code == JOIN_SPACE_NOT_SETUP_CODE {
        conflict_view(
            "this device has not completed first-time setup yet; use /v2/setup/initialize or /v2/setup/redeem first"@,
        )
    } else if code == JOIN_SPACE_PENDING_MIGRATION_CODE {
        conflict_view(
            "a previous switch-space migration is still in flight; restart the daemon to auto-resume, or call /v2/setup/reset to abandon"@,
        )
    } else if code == JOIN_SPACE_NOT_UNLOCKED_CODE {
        conflict_view("space session is locked; unlock the current space before switching"@)
    } else if code == JOIN_SPACE_UNREADABLE_HISTORY_REQUIRES_CONFIRMATION_CODE {
        with_code_view(
            conflict_view(
                "some local history cannot be read; explicitly confirm preserving those records before switching"@,
            ),
            "unreadable_history_confirmation_required"@,
        )
    } else if code == JOIN_SPACE_INVITATION_NOT_FOUND_CODE {
        not_found_view("invitation not found"@)
    } else if code == JOIN_SPACE_INVITATION_EXPIRED_CODE {
        not_found_view("invitation has expired"@)
    } else if code == JOIN_SPACE_SPONSOR_UNREACHABLE_CODE {
        service_unavailable_view("sponsor is not reachable"@)
    } else if code == JOIN_SPACE_SPONSOR_UPGRADE_REQUIRED_CODE {
        sponsor_upgrade_required_error()
    } else if code == JOIN_SPACE_SERVICE_UNAVAILABLE_CODE {
        service_unavailable_view("pairing invitation service unavailable"@)
    } else if code == JOIN_SPACE_PASSPHRASE_MISMATCH_CODE {
        bad_request_view("wrong passphrase"@)
    } else if code == JOIN_SPACE_CORRUPTED_KEY_CODE {
        internal_view("space key material corrupted"@)
    } else if code == JOIN_SPACE_DEVICE_NAME_REQUIRED_CODE {
        bad_request_view("device name is required"@)
    } else if code == JOIN_SPACE_SPONSOR_REJECTED_CODE {
        conflict_view("sponsor did not recognise the invitation code"@)
    } else if code == JOIN_SPACE_SPONSOR_DECLINED_CODE {
        conflict_view("sponsor declined the pairing request"@)
    } else if code == JOIN_SPACE_TIMEOUT_CODE {
        service_unavailable_view("handshake timed out"@)
    } else if code == JOIN_SPACE_CONNECTION_LOST_CODE {
        service_unavailable_view("connection lost mid-handshake"@)
    } else if code == JOIN_SPACE_INVALID_CIPHERTEXT_CODE {
        internal_view("backup record decryption failed (corrupted ciphertext)"@)
    } else if code == JOIN_SPACE_STORAGE_CODE {
        internal_view("storage failure while switching space"@)
    } else if category == EngineErrorCategory::Unavailable {
        service_unavailable_view("switch-space service unavailable"@)
    } else {
        internal_view("failed to switch space"@)
    }
}

/// What `POST /v2/setup/cancel-join` answers to an engine failure.
pub open spec fn cancel_join_error(code: u32) -> ApiErrorView {
    if code == CANCEL_JOIN_SPACE_NOT_FOUND_CODE {
        not_found_view("join attempt not found"@)
    } else {
        internal_view("failed to cancel join attempt"@)
    }
}

fn is_unavailable(category: EngineErrorCategory) -> (b: bool)
    ensures
        b == (category == EngineErrorCategory::Unavailable),
{
    match category {
        EngineErrorCategory::Unavailable => true,
        _ => false,
    }
}

/// Maps a create-space failure onto its HTTP error.
pub fn map_create_engine_err(err: EngineError) -> (api: ApiError)
    ensures
        api@ == create_error(err.code, err.category),
{
    let code = err.code();
    if code == CREATE_SPACE_PASSPHRASE_MISMATCH_CODE {
        ApiError::bad_request("passphrase and confirmation do not match")
    } else if code == CREATE_SPACE_DEVICE_NAME_REQUIRED_CODE {
        ApiError::bad_request("device name is required")
    } else if code == CREATE_SPACE_ALREADY_INITIALIZED_CODE {
        ApiError::conflict("space is already initialised")
    } else if code == CREATE_SPACE_ALREADY_SETUP_CODE {
        ApiError::conflict("setup has already been completed on this device")
    } else if is_unavailable(err.category()) {
        ApiError::service_unavailable("create-space service unavailable")
    } else {
        ApiError::internal("failed to create space")
    }
}

/// Maps an issue-invitation failure onto its HTTP error.
pub fn map_issue_engine_err(err: EngineError) -> (api: ApiError)
    ensures
        api@ == issue_error(err.category),
{
    match err.category() {
        EngineErrorCategory::InvalidState => ApiError::service_unavailable("network is not started"),
        EngineErrorCategory::Unavailable => ApiError::service_unavailable(
            "pairing invitation service unavailable",
        ),
        EngineErrorCategory::InvalidInput => ApiError::internal(
            "unexpected invalid invitation input on default path",
        ),
        _ => ApiError::internal("failed to issue pairing invitation"),
    }
}

/// Maps a redeem (fresh join) failure onto its HTTP error.
pub fn map_join_engine_err(err: EngineError) -> (api: ApiError)
    ensures
        api@ == join_error(err.code, err.category),
{
    let code = err.code();
    if code == JOIN_SPACE_INVITATION_NOT_FOUND_CODE {
        ApiError::not_found("invitation not found")
    } else if code == JOIN_SPACE_INVITATION_EXPIRED_CODE {
        ApiError::not_found("invitation has expired")
    } else if code == JOIN_SPACE_SPONSOR_UNREACHABLE_CODE {
        ApiError::service_unavailable("sponsor is not reachable")
    } else if code == JOIN_SPACE_SPONSOR_UPGRADE_REQUIRED_CODE {
        ApiError::conflict("sponsor must upgrade before pairing").with_code(
            "sponsor_upgrade_required",
        )
    } else if code == JOIN_SPACE_SERVICE_UNAVAILABLE_CODE {
        ApiError::service_unavailable("pairing invitation service unavailable")
    } else if code == JOIN_SPACE_PASSPHRASE_MISMATCH_CODE {
        ApiError::bad_request("wrong passphrase")
    } else if code == JOIN_SPACE_CORRUPTED_KEY_CODE {
        ApiError::internal("space key material corrupted")
    } else if code == JOIN_SPACE_DEVICE_NAME_REQUIRED_CODE {
        ApiError::bad_request("device name is required")
    } else if code == JOIN_SPACE_SPONSOR_REJECTED_CODE {
        ApiError::conflict("sponsor did not recognise the invitation code")
    } else if code == JOIN_SPACE_SPONSOR_DECLINED_CODE {
        ApiError::conflict("sponsor declined the pairing request")
    } else if code == JOIN_SPACE_SPONSOR_TIMEOUT_CODE {
        ApiError::service_unavailable("sponsor timed out the handshake")
    } else if code == JOIN_SPACE_TIMEOUT_CODE {
        ApiError::service_unavailable("pairing handshake timed out")
    } else if code == JOIN_SPACE_CONNECTION_LOST_CODE {
        ApiError::service_unavailable("connection lost mid-handshake")
    } else if is_unavailable(err.category()) {
        ApiError::service_unavailable("join-space service unavailable")
    } else {
        ApiError::internal("failed to join space")
    }
}

/// Maps a cancel-invitation failure onto its HTTP error.
pub fn map_cancel_engine_err(err: EngineError) -> (api: ApiError)
    ensures
        api@ == cancel_error(err.code, err.category),
{
    if err.code() == CANCEL_INVITATION_NOT_ISSUED_CODE {
        ApiError::conflict("no in-flight invitation to cancel")
    } else if is_unavailable(err.category()) {
        ApiError::service_unavailable("invitation service unavailable")
    } else {
        ApiError::internal("failed to cancel invitation")
    }
}

/// Maps a reset failure onto its HTTP error.
pub fn map_reset_engine_err(err: EngineError) -> (api: ApiError)
    ensures
        api@ == reset_error(err.category),
{
    if is_unavailable(err.category()) {
        ApiError::service_unavailable("space reset service unavailable")
    } else {
        ApiError::internal("failed to reset space")
    }
}

/// Maps a clear-stale-admission failure onto its HTTP error.
pub fn map_clear_stale_admission_engine_err(err: EngineError) -> (api: ApiError)
    ensures
        api@ == clear_stale_admission_error(err.category),
{
    if is_unavailable(err.category()) {
        ApiError::service_unavailable("clear stale admission service unavailable")
    } else {
        ApiError::internal("failed to clear stale admission state")
    }
}

/// Maps a setup-state query failure onto its HTTP error.
pub fn map_query_setup_state_engine_err(err: EngineError) -> (api: ApiError)
    ensures
        api@ == query_setup_state_error(err.category),
{
    if is_unavailable(err.category()) {
        ApiError::service_unavailable("setup-state service unavailable")
    } else {
        ApiError::internal("failed to query setup state")
    }
}

/// Maps a switch-space failure onto its HTTP error.
pub fn map_switch_engine_err(err: EngineError) -> (api: ApiError)
    ensures
        api@ == switch_error(err.code, err.category),
{
    let code = err.code();
    if code == JOIN_SPACE_NOT_SETUP_CODE {
        ApiError::conflict(
            "this device has not completed first-time setup yet; use /v2/setup/initialize or /v2/setup/redeem first",
        )
    } else if code == JOIN_SPACE_PENDING_MIGRATION_CODE {
        ApiError::conflict(
            "a previous switch-space migration is still in flight; restart the daemon to auto-resume, or call /v2/setup/reset to abandon",
        )
    } else if code == JOIN_SPACE_NOT_UNLOCKED_CODE {
        ApiError::conflict("space session is locked; unlock the current space before switching")
    } else if code == JOIN_SPACE_UNREADABLE_HISTORY_REQUIRES_CONFIRMATION_CODE {
        ApiError::conflict(
            "some local history cannot be read; explicitly confirm preserving those records before switching",
        ).with_code("unreadable_history_confirmation_required")
    } else if code == JOIN_SPACE_INVITATION_NOT_FOUND_CODE {
        ApiError::not_found("invitation not found")
    } else if code == JOIN_SPACE_INVITATION_EXPIRED_CODE {
        ApiError::not_found("invitation has expired")
    } else if code == JOIN_SPACE_SPONSOR_UNREACHABLE_CODE {
        ApiError::service_unavailable("sponsor is not reachable")
    } else if code == JOIN_SPACE_SPONSOR_UPGRADE_REQUIRED_CODE {
        ApiError::conflict("sponsor must upgrade before pairing").with_code(
            "sponsor_upgrade_required",
        )
    } else if code == JOIN_SPACE_SERVICE_UNAVAILABLE_CODE {
        ApiError::service_unavailable("pairing invitation service unavailable")
    } else if code == JOIN_SPACE_PASSPHRASE_MISMATCH_CODE {
        ApiError::bad_request("wrong passphrase")
    } else if code == JOIN_SPACE_CORRUPTED_KEY_CODE {
        ApiError::internal("space key material corrupted")
    } else if code == JOIN_SPACE_DEVICE_NAME_REQUIRED_CODE {
        ApiError::bad_request("device name is required")
    } else if code == JOIN_SPACE_SPONSOR_REJECTED_CODE {
        ApiError::conflict("sponsor did not recognise the invitation code")
    } else if code == JOIN_SPACE_SPONSOR_DECLINED_CODE {
        ApiError::conflict("sponsor declined the pairing request")
    } else if code == JOIN_SPACE_TIMEOUT_CODE {
        ApiError::service_unavailable("handshake timed out")
    } else if code == JOIN_SPACE_CONNECTION_LOST_CODE {
        ApiError::service_unavailable("connection lost mid-handshake")
    } else if code == JOIN_SPACE_INVALID_CIPHERTEXT_CODE {
        ApiError::internal("backup record decryption failed (corrupted ciphertext)")
    } else if code == JOIN_SPACE_STORAGE_CODE {
        ApiError::internal("storage failure while switching space")
    } else if is_unavailable(err.category()) {
        ApiError::service_unavailable("switch-space service unavailable")
    } else {
        ApiError::internal("failed to switch space")
    }
}

/// Maps a cancel-join failure onto its HTTP error.
pub fn map_cancel_join_engine_err(err: EngineError) -> (api: ApiError)
    ensures
        api@ == cancel_join_error(err.code),
{
    if err.code() == CANCEL_JOIN_SPACE_NOT_FOUND_CODE {
        ApiError::not_found("join attempt not found")
    } else {
        ApiError::internal("failed to cancel join attempt")
    }
}

// ---------------------------------------------------------------------------
// Join status: engine summary to wire DTO
// ---------------------------------------------------------------------------

/// The wire form of an engine rejection reason.
pub open spec fn rejection_reason(r: JoinSpaceRejectionReasonSummary) -> JoinSpaceRejectionReason {
    match r {
        JoinSpaceRejectionReasonSummary::InvitationUnavailable => JoinSpaceRejectionReason::InvitationUnavailable,
        JoinSpaceRejectionReasonSummary::AuthenticationRejected => JoinSpaceRejectionReason::AuthenticationRejected,
        JoinSpaceRejectionReasonSummary::IdentityConflict => JoinSpaceRejectionReason::IdentityConflict,
        JoinSpaceRejectionReasonSummary::BaseHistoryChanged => JoinSpaceRejectionReason::BaseHistoryChanged,
        JoinSpaceRejectionReasonSummary::JoinerHistoryAhead => JoinSpaceRejectionReason::JoinerHistoryAhead,
        JoinSpaceRejectionReasonSummary::HistoryConflict => JoinSpaceRejectionReason::HistoryConflict,
        JoinSpaceRejectionReasonSummary::PeerUpgradeRequired => JoinSpaceRejectionReason::PeerUpgradeRequired,
        JoinSpaceRejectionReasonSummary::Cancelled => JoinSpaceRejectionReason::Cancelled,
        JoinSpaceRejectionReasonSummary::RemovedBeforeActivation => JoinSpaceRejectionReason::RemovedBeforeActivation,
    }
}

/// The wire form of a join status: the same variant, every field carried over
/// unchanged, the rejection reason mapped variant for variant.
pub open spec fn join_space_response_spec(status: JoinSpaceStatusSummary) -> JoinSpaceResponse {
    match status {
        JoinSpaceStatusSummary::Active { join_id, joined_space } => JoinSpaceResponse::Active {
            join_id,
            joined_space: JoinedSpaceResponse {
                sponsor_device_id: joined_space.sponsor_device_id,
                sponsor_identity_fingerprint: joined_space.sponsor_identity_fingerprint,
                space_id: joined_space.space_id,
                self_device_id: joined_space.self_device_id,
                self_identity_fingerprint: joined_space.self_identity_fingerprint,
                migrated_records: joined_space.migrated_records,
                preserved_unreadable_records: joined_space.preserved_unreadable_records,
            },
        },
        JoinSpaceStatusSummary::Pending {
            join_id,
            target_space_id,
            sponsor_device_id,
            sponsor_identity_fingerprint,
            cancel_requested,
        } => JoinSpaceResponse::Pending {
            join_id,
            target_space_id,
            sponsor_device_id,
            sponsor_identity_fingerprint,
            cancel_requested,
        },
        JoinSpaceStatusSummary::Rejected { join_id, reason } => JoinSpaceResponse::Rejected {
            join_id,
            reason: rejection_reason(reason),
        },
    }
}

fn map_rejection_reason(r: JoinSpaceRejectionReasonSummary) -> (w: JoinSpaceRejectionReason)
    ensures
        w == rejection_reason(r),
{
    match r {
        JoinSpaceRejectionReasonSummary::InvitationUnavailable => JoinSpaceRejectionReason::InvitationUnavailable,
        JoinSpaceRejectionReasonSummary::AuthenticationRejected => JoinSpaceRejectionReason::AuthenticationRejected,
        JoinSpaceRejectionReasonSummary::IdentityConflict => JoinSpaceRejectionReason::IdentityConflict,
        JoinSpaceRejectionReasonSummary::BaseHistoryChanged => JoinSpaceRejectionReason::BaseHistoryChanged,
        JoinSpaceRejectionReasonSummary::JoinerHistoryAhead => JoinSpaceRejectionReason::JoinerHistoryAhead,
        JoinSpaceRejectionReasonSummary::HistoryConflict => JoinSpaceRejectionReason::HistoryConflict,
        JoinSpaceRejectionReasonSummary::PeerUpgradeRequired => JoinSpaceRejectionReason::PeerUpgradeRequired,
        JoinSpaceRejectionReasonSummary::Cancelled => JoinSpaceRejectionReason::Cancelled,
        JoinSpaceRejectionReasonSummary::RemovedBeforeActivation => JoinSpaceRejectionReason::RemovedBeforeActivation,
    }
}

/// The wire join status carries the engine's status over: the same variant,
/// and every field equal to the status's field.
pub open spec fn carries_join_status(status: JoinSpaceStatusSummary, r: JoinSpaceResponse) -> bool {
    match status {
        JoinSpaceStatusSummary::Active { join_id, joined_space } => r matches JoinSpaceResponse::Active {
            join_id: rj,
            joined_space: rs,
        } && rj == join_id && rs.sponsor_device_id == joined_space.sponsor_device_id
            && rs.sponsor_identity_fingerprint == joined_space.sponsor_identity_fingerprint
            && rs.space_id == joined_space.space_id && rs.self_device_id
            == joined_space.self_device_id && rs.self_identity_fingerprint
            == joined_space.self_identity_fingerprint && rs.migrated_records
            == joined_space.migrated_records && rs.preserved_unreadable_records
            == joined_space.preserved_unreadable_records,
        JoinSpaceStatusSummary::Pending {
            join_id,
            target_space_id,
            sponsor_device_id,
            sponsor_identity_fingerprint,
            cancel_requested,
        } => r matches JoinSpaceResponse::Pending {
            join_id: rj,
            target_space_id: rt,
            sponsor_device_id: rd,
            sponsor_identity_fingerprint: rf,
            cancel_requested: rc,
        } && rj == join_id && rt == target_space_id && rd == sponsor_device_id && rf
            == sponsor_identity_fingerprint && rc == cancel_requested,
        JoinSpaceStatusSummary::Rejected { join_id, reason } => r matches JoinSpaceResponse::Rejected {
            join_id: rj,
            reason: rr,
        } && rj == join_id && same_reason(reason, rr),
    }
}

/// An engine rejection reason and the wire reason of the same name.
pub open spec fn same_reason(s: JoinSpaceRejectionReasonSummary, w: JoinSpaceRejectionReason) -> bool {
    ||| s == JoinSpaceRejectionReasonSummary::InvitationUnavailable && w == JoinSpaceRejectionReason::InvitationUnavailable
    ||| s == JoinSpaceRejectionReasonSummary::AuthenticationRejected && w == JoinSpaceRejectionReason::AuthenticationRejected
    ||| s == JoinSpaceRejectionReasonSummary::IdentityConflict && w == JoinSpaceRejectionReason::IdentityConflict
    ||| s == JoinSpaceRejectionReasonSummary::BaseHistoryChanged && w == JoinSpaceRejectionReason::BaseHistoryChanged
    ||| s == JoinSpaceRejectionReasonSummary::JoinerHistoryAhead && w == JoinSpaceRejectionReason::JoinerHistoryAhead
    ||| s == JoinSpaceRejectionReasonSummary::HistoryConflict && w == JoinSpaceRejectionReason::HistoryConflict
    ||| s == JoinSpaceRejectionReasonSummary::PeerUpgradeRequired && w == JoinSpaceRejectionReason::PeerUpgradeRequired
    ||| s == JoinSpaceRejectionReasonSummary::Cancelled && w == JoinSpaceRejectionReason::Cancelled
    ||| s == JoinSpaceRejectionReasonSummary::RemovedBeforeActivation && w == JoinSpaceRejectionReason::RemovedBeforeActivation
}

/// Converts the engine's join status into the wire DTO.
pub fn join_space_response(status: JoinSpaceStatusSummary) -> (r: JoinSpaceResponse)
    ensures
        r == join_space_response_spec(status),
        carries_join_status(status, r),
{
    match status {
        JoinSpaceStatusSummary::Active { join_id, joined_space } => JoinSpaceResponse::Active {
            join_id,
            joined_space: JoinedSpaceResponse {
                sponsor_device_id: joined_space.sponsor_device_id,
                sponsor_identity_fingerprint: joined_space.sponsor_identity_fingerprint,
                space_id: joined_space.space_id,
                self_device_id: joined_space.self_device_id,
                self_identity_fingerprint: joined_space.self_identity_fingerprint,
                migrated_records: joined_space.migrated_records,
                preserved_unreadable_records: joined_space.preserved_unreadable_records,
            },
        },
        JoinSpaceStatusSummary::Pending {
            join_id,
            target_space_id,
            sponsor_device_id,
            sponsor_identity_fingerprint,
            cancel_requested,
        } => JoinSpaceResponse::Pending {
            join_id,
            target_space_id,
            sponsor_device_id,
            sponsor_identity_fingerprint,
            cancel_requested,
        },
        JoinSpaceStatusSummary::Rejected { join_id, reason } => JoinSpaceResponse::Rejected {
            join_id,
            reason: map_rejection_reason(reason),
        },
    }
}

// ---------------------------------------------------------------------------
// Requests to engine operations
// ---------------------------------------------------------------------------

/// The operation behind `POST /v2/setup/initialize`.
pub fn initialize_operation(req: InitializeSpaceRequest) -> (op: Operation)
    ensures
        op matches Operation::CreateSpace(input) && {
            &&& input.passphrase@ == req.passphrase@
            &&& input.passphrase_confirmation@ == req.passphrase_confirm@
            &&& input.device_name == req.device_name
        },
{
    Operation::CreateSpace(
        CreateSpaceInput {
            passphrase: SecretString::new(req.passphrase),
            passphrase_confirmation: SecretString::new(req.passphrase_confirm),
            device_name: req.device_name,
        },
    )
}

/// The operation behind `POST /v2/setup/redeem`: a fresh join that never
/// preserves unreadable history and names no device.
pub fn redeem_operation(req: RedeemRequest) -> (op: Operation)
    ensures
        op matches Operation::JoinSpace(input) && {
            &&& input.invitation_code == req.code
            &&& input.device_name is None
            &&& input.passphrase@ == req.passphrase@
            &&& !input.preserve_unreadable_history
        },
{
    Operation::JoinSpace(
        JoinSpaceInput {
            invitation_code: req.code,
            device_name: None,
            passphrase: SecretString::new(req.passphrase),
            preserve_unreadable_history: false,
        },
    )
}

/// The operation behind `POST /v2/setup/switch-space`: a join under the new
/// passphrase that preserves unreadable history exactly when asked to.
pub fn switch_space_operation(req: SwitchSpaceRequest) -> (op: Operation)
    ensures
        op matches Operation::JoinSpace(input) && {
            &&& input.invitation_code == req.code
            &&& input.device_name is None
            &&& input.passphrase@ == req.new_passphrase@
            &&& input.preserve_unreadable_history == req.preserve_unreadable_history
        },
{
    Operation::JoinSpace(
        JoinSpaceInput {
            invitation_code: req.code,
            device_name: None,
            passphrase: SecretString::new(req.new_passphrase),
            preserve_unreadable_history: req.preserve_unreadable_history,
        },
    )
}

/// The operation behind `POST /v2/setup/cancel-join`.
pub fn cancel_join_operation(req: CancelJoinSpaceRequest) -> (op: Operation)
    ensures
        op == Operation::CancelJoinSpace(CancelJoinSpaceInput { join_id: req.join_id }),
{
    Operation::CancelJoinSpace(CancelJoinSpaceInput { join_id: req.join_id })
}

// ---------------------------------------------------------------------------
// Engine answers to endpoint results
// ---------------------------------------------------------------------------

/// What `POST /v2/setup/initialize` answers once the engine has run
/// [`initialize_operation`].
pub fn initialize_outcome(result: Result<OperationResult, EngineError>) -> (r: Result<
    InitializeSpaceResponse,
    ApiError,
>)
    ensures
        match result {
            Err(e) => r matches Err(api) && api@ == create_error(e.code, e.category),
            Ok(OperationResult::SpaceCreated { space_id, self_device_id, identity_fingerprint }) => r
                matches Ok(resp) && resp == (InitializeSpaceResponse {
                space_id,
                self_device_id,
                fingerprint: identity_fingerprint,
            }),
            Ok(_) => r matches Err(api) && api@ == internal_view(
                "engine returned an unexpected create-space result"@,
            ),
        },
{
    match result {
        Err(e) => Err(map_create_engine_err(e)),
        Ok(OperationResult::SpaceCreated { space_id, self_device_id, identity_fingerprint }) => Ok(
            InitializeSpaceResponse { space_id, self_device_id, fingerprint: identity_fingerprint },
        ),
        Ok(_) => Err(ApiError::internal("engine returned an unexpected create-space result")),
    }
}

/// What `POST /v2/setup/issue-invitation` answers once the engine has run
/// `Operation::IssueInvitation`.
pub fn issue_invitation_outcome(result: Result<OperationResult, EngineError>) -> (r: Result<
    IssueInvitationResponse,
    ApiError,
>)
    ensures
        match result {
            Err(e) => r matches Err(api) && api@ == issue_error(e.category),
            Ok(OperationResult::InvitationIssued { invitation_code, expires_at_ms }) => r matches Ok(
                resp,
            ) && resp == (IssueInvitationResponse { code: invitation_code, expires_at_ms }),
            Ok(_) => r matches Err(api) && api@ == internal_view(
                "engine returned an unexpected invitation result"@,
            ),
        },
{
    match result {
        Err(e) => Err(map_issue_engine_err(e)),
        Ok(OperationResult::InvitationIssued { invitation_code, expires_at_ms }) => Ok(
            IssueInvitationResponse { code: invitation_code, expires_at_ms },
        ),
        Ok(_) => Err(ApiError::internal("engine returned an unexpected invitation result")),
    }
}

/// What `POST /v2/setup/redeem` answers once the engine has run
/// [`redeem_operation`].
pub fn redeem_outcome(result: Result<OperationResult, EngineError>) -> (r: Result<
    JoinSpaceResponse,
    ApiError,
>)
    ensures
        match result {
            Err(e) => r matches Err(api) && api@ == join_error(e.code, e.category),
            Ok(OperationResult::JoinSpace(status)) => r matches Ok(resp) && resp
                == join_space_response_spec(status) && carries_join_status(status, resp),
            Ok(_) => r matches Err(api) && api@ == internal_view(
                "engine returned an unexpected fresh-join result"@,
            ),
        },
{
    match result {
        Err(e) => Err(map_join_engine_err(e)),
        Ok(OperationResult::JoinSpace(status)) => Ok(join_space_response(status)),
        Ok(_) => Err(ApiError::internal("engine returned an unexpected fresh-join result")),
    }
}

/// What `POST /v2/setup/cancel` answers once the engine has run
/// `Operation::CancelInvitation`: 204 on success.
pub fn cancel_outcome(result: Result<OperationResult, EngineError>) -> (r: Result<
    StatusCode,
    ApiError,
>)
    ensures
        match result {
            Err(e) => r matches Err(api) && api@ == cancel_error(e.code, e.category),
            Ok(OperationResult::InvitationCancelled) => r matches Ok(s) && s@ == 204,
            Ok(_) => r matches Err(api) && api@ == internal_view(
                "engine returned an unexpected cancel-invitation result"@,
            ),
        },
{
    match result {
        Err(e) => Err(map_cancel_engine_err(e)),
        Ok(OperationResult::InvitationCancelled) => Ok(StatusCode::no_content()),
        Ok(_) => Err(ApiError::internal("engine returned an unexpected cancel-invitation result")),
    }
}

/// What `POST /v2/setup/reset` answers once the engine has run
/// `Operation::ResetSpace`: 204 on success.
pub fn reset_outcome(result: Result<OperationResult, EngineError>) -> (r: Result<
    StatusCode,
    ApiError,
>)
    ensures
        match result {
            Err(e) => r matches Err(api) && api@ == reset_error(e.category),
            Ok(OperationResult::SpaceReset) => r matches Ok(s) && s@ == 204,
            Ok(_) => r matches Err(api) && api@ == internal_view(
                "engine returned an unexpected reset-space result"@,
            ),
        },
{
    match result {
        Err(e) => Err(map_reset_engine_err(e)),
        Ok(OperationResult::SpaceReset) => Ok(StatusCode::no_content()),
        Ok(_) => Err(ApiError::internal("engine returned an unexpected reset-space result")),
    }
}

/// What `POST /v2/setup/clear-stale-admission` answers once the engine has run
/// `Operation::ClearStaleAdmission`: 204 on success.
pub fn clear_stale_admission_outcome(result: Result<OperationResult, EngineError>) -> (r: Result<
    StatusCode,
    ApiError,
>)
    ensures
        match result {
            Err(e) => r matches Err(api) && api@ == clear_stale_admission_error(e.category),
            Ok(OperationResult::StaleAdmissionCleared) => r matches Ok(s) && s@ == 204,
            Ok(_) => r matches Err(api) && api@ == internal_view(
                "engine returned an unexpected clear-stale-admission result"@,
            ),
        },
{
    match result {
        Err(e) => Err(map_clear_stale_admission_engine_err(e)),
        Ok(OperationResult::StaleAdmissionCleared) => Ok(StatusCode::no_content()),
        Ok(_) => Err(
            ApiError::internal("engine returned an unexpected clear-stale-admission result"),
        ),
    }
}

/// The wire form of the invitation currently in flight.
pub open spec fn current_invitation_spec(i: crate::engine::InvitationView) -> CurrentInvitation {
    CurrentInvitation { code: i.invitation_code, expires_at_ms: i.expires_at_ms }
}

/// What `GET /v2/setup/state` answers once the engine has run
/// `Operation::QuerySetupState`.
pub fn get_state_outcome(result: Result<OperationResult, EngineError>) -> (r: Result<
    SetupStateResponse,
    ApiError,
>)
    ensures
        match result {
            Err(e) => r matches Err(api) && api@ == query_setup_state_error(e.category),
            Ok(OperationResult::SetupState(view)) => r matches Ok(resp) && resp == (
            SetupStateResponse {
                has_completed: view.has_completed,
                current_invitation: match view.current_invitation {
                    Some(i) => Some(current_invitation_spec(i)),
                    None => None,
                },
                device_name: view.device_name,
                re_pairing_required: view.re_pairing_required,
            }),
            Ok(_) => r matches Err(api) && api@ == internal_view(
                "engine returned an unexpected setup-state result"@,
            ),
        },
{
    match result {
        Err(e) => Err(map_query_setup_state_engine_err(e)),
        Ok(OperationResult::SetupState(view)) => {
            let current_invitation = match view.current_invitation {
                Some(invitation) => Some(
                    CurrentInvitation {
                        code: invitation.invitation_code,
                        expires_at_ms: invitation.expires_at_ms,
                    },
                ),
                None => None,
            };
            Ok(
                SetupStateResponse {
                    has_completed: view.has_completed,
                    current_invitation,
                    device_name: view.device_name,
                    re_pairing_required: view.re_pairing_required,
                },
            )
        },
        Ok(_) => Err(ApiError::internal("engine returned an unexpected setup-state result")),
    }
}

/// What `POST /v2/setup/switch-space` answers once the engine has run
/// [`switch_space_operation`].
pub fn switch_space_outcome(result: Result<OperationResult, EngineError>) -> (r: Result<
    JoinSpaceResponse,
    ApiError,
>)
    ensures
        match result {
            Err(e) => r matches Err(api) && api@ == switch_error(e.code, e.category),
            Ok(OperationResult::JoinSpace(status)) => r matches Ok(resp) && resp
                == join_space_response_spec(status) && carries_join_status(status, resp),
            Ok(_) => r matches Err(api) && api@ == internal_view(
                "engine returned an unexpected switch-space result"@,
            ),
        },
{
    match result {
        Err(e) => Err(map_switch_engine_err(e)),
        Ok(OperationResult::JoinSpace(status)) => Ok(join_space_response(status)),
        Ok(_) => Err(ApiError::internal("engine returned an unexpected switch-space result")),
    }
}

/// What `POST /v2/setup/cancel-join` answers once the engine has run
/// [`cancel_join_operation`].
pub fn cancel_join_outcome(result: Result<OperationResult, EngineError>) -> (r: Result<
    JoinSpaceResponse,
    ApiError,
>)
    ensures
        match result {
            Err(e) => r matches Err(api) && api@ == cancel_join_error(e.code),
            Ok(OperationResult::JoinSpace(status)) => r matches Ok(resp) && resp
                == join_space_response_spec(status) && carries_join_status(status, resp),
            Ok(_) => r matches Err(api) && api@ == internal_view(
                "engine returned an unexpected cancel-join result"@,
            ),
        },
{
    match result {
        Err(e) => Err(map_cancel_join_engine_err(e)),
        Ok(OperationResult::JoinSpace(status)) => Ok(join_space_response(status)),
        Ok(_) => Err(ApiError::internal("engine returned an unexpected cancel-join result")),
    }
}

// ---------------------------------------------------------------------------
// Laws of the error mapping
// ---------------------------------------------------------------------------

/// The statuses of the daemon-wide error surface.
pub open spec fn documented_status(status: u16) -> bool {
    status == 400 || status == 404 || status == 409 || status == 500 || status == 503
}

/// A failure whose code an endpoint does not name is redacted: the answer
/// does not depend on the code at all, only on the category, so no unknown
/// engine code ever reaches the client.
pub proof fn law_unnamed_engine_codes_are_redacted(
    c1: u32,
    c2: u32,
    category: EngineErrorCategory,
)
    ensures
        !create_names(c1) && !create_names(c2) ==> create_error(c1, category) == create_error(
            c2,
            category,
        ),
        !join_names(c1) && !join_names(c2) ==> join_error(c1, category) == join_error(c2, category),
        !cancel_names(c1) && !cancel_names(c2) ==> cancel_error(c1, category) == cancel_error(
            c2,
            category,
        ),
        !switch_names(c1) && !switch_names(c2) ==> switch_error(c1, category) == switch_error(
            c2,
            category,
        ),
        c1 != CANCEL_JOIN_SPACE_NOT_FOUND_CODE && c2 != CANCEL_JOIN_SPACE_NOT_FOUND_CODE
            ==> cancel_join_error(c1) == cancel_join_error(c2),
{
}

/// A sponsor that must upgrade is the same stable conflict whether the device
/// joins a first space or switches space: status 409 under the code
/// `sponsor_upgrade_required`, whatever the failure's category.
pub proof fn law_sponsor_upgrade_required_is_stable_conflict(category: EngineErrorCategory)
    ensures
        join_error(JOIN_SPACE_SPONSOR_UPGRADE_REQUIRED_CODE, category) == switch_error(
            JOIN_SPACE_SPONSOR_UPGRADE_REQUIRED_CODE,
            category,
        ),
        join_error(JOIN_SPACE_SPONSOR_UPGRADE_REQUIRED_CODE, category).status == 409,
        join_error(JOIN_SPACE_SPONSOR_UPGRADE_REQUIRED_CODE, category).code
            == "sponsor_upgrade_required"@,
{
}

/// Every engine failure, on every setup endpoint, is answered with one of the
/// statuses of the daemon-wide error surface (400, 404, 409, 500, 503).
pub proof fn law_errors_stay_on_the_documented_surface(code: u32, category: EngineErrorCategory)
    ensures
        documented_status(create_error(code, category).status),
        documented_status(issue_error(category).status),
        documented_status(join_error(code, category).status),
        documented_status(cancel_error(code, category).status),
        documented_status(reset_error(category).status),
        documented_status(clear_stale_admission_error(category).status),
        documented_status(query_setup_state_error(category).status),
        documented_status(switch_error(code, category).status),
        documented_status(cancel_join_error(code).status),
{
}

/// An unavailable engine is answered 503, never 500, by every endpoint that
/// falls back on the category, whenever the code is not one it names.
pub proof fn law_unavailability_is_preserved(code: u32)
    ensures
        !create_names(code) ==> create_error(code, EngineErrorCategory::Unavailable).status == 503,
        issue_error(EngineErrorCategory::Unavailable).status == 503,
        !join_names(code) ==> join_error(code, EngineErrorCategory::Unavailable).status == 503,
        !cancel_names(code) ==> cancel_error(code, EngineErrorCategory::Unavailable).status == 503,
        reset_error(EngineErrorCategory::Unavailable).status == 503,
        clear_stale_admission_error(EngineErrorCategory::Unavailable).status == 503,
        query_setup_state_error(EngineErrorCategory::Unavailable).status == 503,
        !switch_names(code) ==> switch_error(code, EngineErrorCategory::Unavailable).status == 503,
{
}

/// The wire status of a join attempt is carried over from the engine, field
/// for field, whatever the engine's status.
pub proof fn law_join_status_fields_are_carried_over(status: JoinSpaceStatusSummary)
    ensures
        carries_join_status(status, join_space_response_spec(status)),
{
}

/// The machine-readable code that goes with a status of the error surface.
pub open spec fn code_for_status(status: u16) -> Seq<char> {
    if status == 400 {
        "bad_request"@
    } else if status == 404 {
        "not_found"@
    } else if status == 409 {
        "conflict"@
    } else if status == 503 {
        "service_unavailable"@
    } else {
        "internal"@
    }
}

/// The status each named engine failure is answered with, on every endpoint
/// and whatever the failure's category: invitations not found or expired
/// are 404, a wrong passphrase or a missing device name 400, a refused or
/// conflicting state 409, an unreachable or timed-out peer or an unavailable
/// service 503, corrupted or unreadable data and storage failures 500.
pub proof fn law_named_failures_have_their_documented_status(category: EngineErrorCategory)
    ensures
        create_error(CREATE_SPACE_PASSPHRASE_MISMATCH_CODE, category).status == 400,
        create_error(CREATE_SPACE_DEVICE_NAME_REQUIRED_CODE, category).status == 400,
        create_error(CREATE_SPACE_ALREADY_INITIALIZED_CODE, category).status == 409,
        create_error(CREATE_SPACE_ALREADY_SETUP_CODE, category).status == 409,
        cancel_error(CANCEL_INVITATION_NOT_ISSUED_CODE, category).status == 409,
        cancel_join_error(CANCEL_JOIN_SPACE_NOT_FOUND_CODE).status == 404,
        join_error(JOIN_SPACE_INVITATION_NOT_FOUND_CODE, category).status == 404,
        join_error(JOIN_SPACE_INVITATION_EXPIRED_CODE, category).status == 404,
        join_error(JOIN_SPACE_SPONSOR_UNREACHABLE_CODE, category).status == 503,
        join_error(JOIN_SPACE_SPONSOR_UPGRADE_REQUIRED_CODE, category).status == 409,
        join_error(JOIN_SPACE_SERVICE_UNAVAILABLE_CODE, category).status == 503,
        join_error(JOIN_SPACE_PASSPHRASE_MISMATCH_CODE, category).status == 400,
        join_error(JOIN_SPACE_CORRUPTED_KEY_CODE, category).status == 500,
        join_error(JOIN_SPACE_DEVICE_NAME_REQUIRED_CODE, category).status == 400,
        join_error(JOIN_SPACE_SPONSOR_REJECTED_CODE, category).status == 409,
        join_error(JOIN_SPACE_SPONSOR_DECLINED_CODE, category).status == 409,
        join_error(JOIN_SPACE_SPONSOR_TIMEOUT_CODE, category).status == 503,
        join_error(JOIN_SPACE_TIMEOUT_CODE, category).status == 503,
        join_error(JOIN_SPACE_CONNECTION_LOST_CODE, category).status == 503,
        switch_error(JOIN_SPACE_NOT_SETUP_CODE, category).status == 409,
        switch_error(JOIN_SPACE_PENDING_MIGRATION_CODE, category).status == 409,
        switch_error(JOIN_SPACE_NOT_UNLOCKED_CODE, category).status == 409,
        switch_error(JOIN_SPACE_UNREADABLE_HISTORY_REQUIRES_CONFIRMATION_CODE, category).status
            == 409,
        switch_error(JOIN_SPACE_UNREADABLE_HISTORY_REQUIRES_CONFIRMATION_CODE, category).code
            == "unreadable_history_confirmation_required"@,
        switch_error(JOIN_SPACE_INVITATION_NOT_FOUND_CODE, category).status == 404,
        switch_error(JOIN_SPACE_INVITATION_EXPIRED_CODE, category).status == 404,
        switch_error(JOIN_SPACE_SPONSOR_UNREACHABLE_CODE, category).status == 503,
        switch_error(JOIN_SPACE_SPONSOR_UPGRADE_REQUIRED_CODE, category).status == 409,
        switch_error(JOIN_SPACE_SERVICE_UNAVAILABLE_CODE, category).status == 503,
        switch_error(JOIN_SPACE_PASSPHRASE_MISMATCH_CODE, category).status == 400,
        switch_error(JOIN_SPACE_CORRUPTED_KEY_CODE, category).status == 500,
        switch_error(JOIN_SPACE_DEVICE_NAME_REQUIRED_CODE, category).status == 400,
        switch_error(JOIN_SPACE_SPONSOR_REJECTED_CODE, category).status == 409,
        switch_error(JOIN_SPACE_SPONSOR_DECLINED_CODE, category).status == 409,
        switch_error(JOIN_SPACE_TIMEOUT_CODE, category).status == 503,
        switch_error(JOIN_SPACE_CONNECTION_LOST_CODE, category).status == 503,
        switch_error(JOIN_SPACE_INVALID_CIPHERTEXT_CODE, category).status == 500,
        switch_error(JOIN_SPACE_STORAGE_CODE, category).status == 500,
{
}

/// The category fallbacks: an invitation service whose network is not started
/// or that is unavailable is 503; on reset, setup state, clear-stale-admission
/// and for unnamed codes everywhere, only unavailability is 503 and every
/// other category is 500.
pub proof fn law_category_fallbacks(code: u32, category: EngineErrorCategory)
    ensures
        issue_error(category).status == (if category == EngineErrorCategory::InvalidState
            || category == EngineErrorCategory::Unavailable {
            503u16
        } else {
            500u16
        }),
        reset_error(category).status == (if category == EngineErrorCategory::Unavailable {
            503u16
        } else {
            500u16
        }),
        query_setup_state_error(category).status == (if category
            == EngineErrorCategory::Unavailable {
            503u16
        } else {
            500u16
        }),
        clear_stale_admission_error(category).status == (if category
            == EngineErrorCategory::Unavailable {
            503u16
        } else {
            500u16
        }),
        !create_names(code) ==> create_error(code, category).status == (if category
            == EngineErrorCategory::Unavailable {
            503u16
        } else {
            500u16
        }),
        !join_names(code) ==> join_error(code, category).status == (if category
            == EngineErrorCategory::Unavailable {
            503u16
        } else {
            500u16
        }),
        !cancel_names(code) ==> cancel_error(code, category).status == (if category
            == EngineErrorCategory::Unavailable {
            503u16
        } else {
            500u16
        }),
        !switch_names(code) ==> switch_error(code, category).status == (if category
            == EngineErrorCategory::Unavailable {
            503u16
        } else {
            500u16
        }),
        code != CANCEL_JOIN_SPACE_NOT_FOUND_CODE ==> cancel_join_error(code).status == 500,
{
}

/// Redeem and switch-space answer a failure they both name identically
/// (status, code and message), except the local handshake timeout, which is
/// 503 on both under different wording.
pub proof fn law_redeem_and_switch_agree(code: u32, category: EngineErrorCategory)
    ensures
        join_names(code) && switch_names(code) && code != JOIN_SPACE_TIMEOUT_CODE ==> join_error(
            code,
            category,
        ) == switch_error(code, category),
        join_error(JOIN_SPACE_TIMEOUT_CODE, category).status == switch_error(
            JOIN_SPACE_TIMEOUT_CODE,
            category,
        ).status,
{
}

/// Every answer's machine-readable code is the one that goes with its status,
/// except the two failures that carry a stable code of their own.
pub proof fn law_codes_follow_statuses(code: u32, category: EngineErrorCategory)
    ensures
        create_error(code, category).code == code_for_status(create_error(code, category).status),
        issue_error(category).code == code_for_status(issue_error(category).status),
        code != JOIN_SPACE_SPONSOR_UPGRADE_REQUIRED_CODE ==> join_error(code, category).code
            == code_for_status(join_error(code, category).status),
        cancel_error(code, category).code == code_for_status(cancel_error(code, category).status),
        reset_error(category).code == code_for_status(reset_error(category).status),
        query_setup_state_error(category).code == code_for_status(
            query_setup_state_error(category).status,
        ),
        clear_stale_admission_error(category).code == code_for_status(
            clear_stale_admission_error(category).status,
        ),
        code != JOIN_SPACE_SPONSOR_UPGRADE_REQUIRED_CODE && code
            != JOIN_SPACE_UNREADABLE_HISTORY_REQUIRES_CONFIRMATION_CODE ==> switch_error(
            code,
            category,
        ).code == code_for_status(switch_error(code, category).status),
        cancel_join_error(code).code == code_for_status(cancel_join_error(code).status),
{
}

/// What each failure tells the client: the message of every named failure and
/// of every fallback, on every endpoint and whatever the category.
pub proof fn law_failure_messages(code: u32, category: EngineErrorCategory)
    ensures
        create_error(CREATE_SPACE_PASSPHRASE_MISMATCH_CODE, category).message
            == "passphrase and confirmation do not match"@,
        create_error(CREATE_SPACE_DEVICE_NAME_REQUIRED_CODE, category).message
            == "device name is required"@,
        create_error(CREATE_SPACE_ALREADY_INITIALIZED_CODE, category).message
            == "space is already initialised"@,
        create_error(CREATE_SPACE_ALREADY_SETUP_CODE, category).message
            == "setup has already been completed on this device"@,
        !create_names(code) ==> create_error(code, category).message == (if category
            == EngineErrorCategory::Unavailable {
            "create-space service unavailable"@
        } else {
            "failed to create space"@
        }),
        cancel_error(CANCEL_INVITATION_NOT_ISSUED_CODE, category).message
            == "no in-flight invitation to cancel"@,
        !cancel_names(code) ==> cancel_error(code, category).message == (if category
            == EngineErrorCategory::Unavailable {
            "invitation service unavailable"@
        } else {
            "failed to cancel invitation"@
        }),
        cancel_join_error(CANCEL_JOIN_SPACE_NOT_FOUND_CODE).message == "join attempt not found"@,
        code != CANCEL_JOIN_SPACE_NOT_FOUND_CODE ==> cancel_join_error(code).message
            == "failed to cancel join attempt"@,
        reset_error(category).message == (if category == EngineErrorCategory::Unavailable {
            "space reset service unavailable"@
        } else {
            "failed to reset space"@
        }),
        query_setup_state_error(category).message == (if category
            == EngineErrorCategory::Unavailable {
            "setup-state service unavailable"@
        } else {
            "failed to query setup state"@
        }),
        clear_stale_admission_error(category).message == (if category
            == EngineErrorCategory::Unavailable {
            "clear stale admission service unavailable"@
        } else {
            "failed to clear stale admission state"@
        }),
        join_error(JOIN_SPACE_INVITATION_NOT_FOUND_CODE, category).message == "invitation not found"@,
        join_error(JOIN_SPACE_INVITATION_EXPIRED_CODE, category).message
            == "invitation has expired"@,
        join_error(JOIN_SPACE_SPONSOR_UNREACHABLE_CODE, category).message
            == "sponsor is not reachable"@,
        join_error(JOIN_SPACE_SPONSOR_UPGRADE_REQUIRED_CODE, category).message
            == "sponsor must upgrade before pairing"@,
        join_error(JOIN_SPACE_SERVICE_UNAVAILABLE_CODE, category).message
            == "pairing invitation service unavailable"@,
        join_error(JOIN_SPACE_PASSPHRASE_MISMATCH_CODE, category).message == "wrong passphrase"@,
        join_error(JOIN_SPACE_CORRUPTED_KEY_CODE, category).message
            == "space key material corrupted"@,
        join_error(JOIN_SPACE_DEVICE_NAME_REQUIRED_CODE, category).message
            == "device name is required"@,
        join_error(JOIN_SPACE_SPONSOR_REJECTED_CODE, category).message
            == "sponsor did not recognise the invitation code"@,
        join_error(JOIN_SPACE_SPONSOR_DECLINED_CODE, category).message
            == "sponsor declined the pairing request"@,
        join_error(JOIN_SPACE_SPONSOR_TIMEOUT_CODE, category).message
            == "sponsor timed out the handshake"@,
        join_error(JOIN_SPACE_TIMEOUT_CODE, category).message == "pairing handshake timed out"@,
        join_error(JOIN_SPACE_CONNECTION_LOST_CODE, category).message
            == "connection lost mid-handshake"@,
        !join_names(code) ==> join_error(code, category).message == (if category
            == EngineErrorCategory::Unavailable {
            "join-space service unavailable"@
        } else {
            "failed to join space"@
        }),
        switch_error(JOIN_SPACE_NOT_SETUP_CODE, category).message
            == "this device has not completed first-time setup yet; use /v2/setup/initialize or /v2/setup/redeem first"@,
        switch_error(JOIN_SPACE_PENDING_MIGRATION_CODE, category).message
            == "a previous switch-space migration is still in flight; restart the daemon to auto-resume, or call /v2/setup/reset to abandon"@,
        switch_error(JOIN_SPACE_NOT_UNLOCKED_CODE, category).message
            == "space session is locked; unlock the current space before switching"@,
        switch_error(JOIN_SPACE_UNREADABLE_HISTORY_REQUIRES_CONFIRMATION_CODE, category).message
            == "some local history cannot be read; explicitly confirm preserving those records before switching"@,
        switch_error(JOIN_SPACE_TIMEOUT_CODE, category).message == "handshake timed out"@,
        switch_error(JOIN_SPACE_INVALID_CIPHERTEXT_CODE, category).message
            == "backup record decryption failed (corrupted ciphertext)"@,
        switch_error(JOIN_SPACE_STORAGE_CODE, category).message
            == "storage failure while switching space"@,
        !switch_names(code) ==> switch_error(code, category).message == (if category
            == EngineErrorCategory::Unavailable {
            "switch-space service unavailable"@
        } else {
            "failed to switch space"@
        }),
        issue_error(category).message == (if category == EngineErrorCategory::InvalidState {
            "network is not started"@
        } else if category == EngineErrorCategory::Unavailable {
            "pairing invitation service unavailable"@
        } else if category == EngineErrorCategory::InvalidInput {
            "unexpected invalid invitation input on default path"@
        } else {
            "failed to issue pairing invitation"@
        }),
{
}

/// Distinct engine rejection reasons stay distinct on the wire.
pub proof fn law_rejection_reasons_stay_distinct(
    r1: JoinSpaceRejectionReasonSummary,
    r2: JoinSpaceRejectionReasonSummary,
)
    ensures
        rejection_reason(r1) == rejection_reason(r2) ==> r1 == r2,
        same_reason(r1, rejection_reason(r1)),
{
}

} // verus!
