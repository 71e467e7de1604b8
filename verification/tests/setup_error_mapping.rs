use uc_webserver::engine::error_codes::{
    CANCEL_INVITATION_NOT_ISSUED_CODE, CREATE_SPACE_ALREADY_INITIALIZED_CODE,
    CREATE_SPACE_ALREADY_SETUP_CODE, CREATE_SPACE_DEVICE_NAME_REQUIRED_CODE,
    CREATE_SPACE_PASSPHRASE_MISMATCH_CODE, JOIN_SPACE_DEVICE_NAME_REQUIRED_CODE,
    JOIN_SPACE_INVALID_CIPHERTEXT_CODE, JOIN_SPACE_INVITATION_EXPIRED_CODE,
    JOIN_SPACE_INVITATION_NOT_FOUND_CODE, JOIN_SPACE_NOT_SETUP_CODE, JOIN_SPACE_NOT_UNLOCKED_CODE,
    JOIN_SPACE_PASSPHRASE_MISMATCH_CODE, JOIN_SPACE_PENDING_MIGRATION_CODE,
    JOIN_SPACE_SERVICE_UNAVAILABLE_CODE, JOIN_SPACE_SPONSOR_REJECTED_CODE,
    JOIN_SPACE_SPONSOR_UNREACHABLE_CODE, JOIN_SPACE_SPONSOR_UPGRADE_REQUIRED_CODE,
    JOIN_SPACE_STORAGE_CODE, JOIN_SPACE_TIMEOUT_CODE,
    JOIN_SPACE_UNREADABLE_HISTORY_REQUIRES_CONFIRMATION_CODE,
};
use uc_webserver::engine::{EngineError, EngineErrorCategory};
use uc_webserver::setup::{
    map_cancel_engine_err, map_create_engine_err, map_join_engine_err,
    map_query_setup_state_engine_err, map_reset_engine_err, map_switch_engine_err,
};

#[test]
fn map_create_engine_err_branches() {
    let err = map_create_engine_err(EngineError::new(
        CREATE_SPACE_PASSPHRASE_MISMATCH_CODE,
        EngineErrorCategory::InvalidInput,
        false,
    ));
    assert_eq!(err.status.as_u16(), 400);
    let err = map_create_engine_err(EngineError::new(
        CREATE_SPACE_ALREADY_INITIALIZED_CODE,
        EngineErrorCategory::Conflict,
        false,
    ));
    assert_eq!(err.status.as_u16(), 409);
    let err = map_create_engine_err(EngineError::new(
        CREATE_SPACE_ALREADY_SETUP_CODE,
        EngineErrorCategory::Conflict,
        false,
    ));
    assert_eq!(err.status.as_u16(), 409);
    let err = map_create_engine_err(EngineError::new(
        CREATE_SPACE_DEVICE_NAME_REQUIRED_CODE,
        EngineErrorCategory::InvalidInput,
        false,
    ));
    assert_eq!(err.status.as_u16(), 400);
    let err =
        map_create_engine_err(EngineError::new(1299, EngineErrorCategory::Internal, false));
    assert_eq!(err.status.as_u16(), 500);
    let err = map_create_engine_err(EngineError::new(
        1299,
        EngineErrorCategory::Unavailable,
        true,
    ));
    assert_eq!(err.status.as_u16(), 503);
}

#[test]
fn map_cancel_engine_err_preserves_conflict_and_redacts_internal_failure() {
    let conflict = map_cancel_engine_err(EngineError::new(
        CANCEL_INVITATION_NOT_ISSUED_CODE,
        EngineErrorCategory::Conflict,
        false,
    ));
    assert_eq!(conflict.status.as_u16(), 409);

    let internal =
        map_cancel_engine_err(EngineError::new(1399, EngineErrorCategory::Internal, false));
    assert_eq!(internal.status.as_u16(), 500);
    assert!(!internal.message.contains("1399"));
}

#[test]
fn map_reset_engine_err_preserves_unavailable_and_redacts_internal_failure() {
    let unavailable = map_reset_engine_err(EngineError::new(
        1311,
        EngineErrorCategory::Unavailable,
        true,
    ));
    assert_eq!(unavailable.status.as_u16(), 503);

    let internal =
        map_reset_engine_err(EngineError::new(1312, EngineErrorCategory::Internal, false));
    assert_eq!(internal.status.as_u16(), 500);
    assert!(!internal.message.contains("1312"));
}

#[test]
fn map_setup_state_engine_err_preserves_unavailable_and_redacts_internal_failure() {
    let unavailable = map_query_setup_state_engine_err(EngineError::new(
        1321,
        EngineErrorCategory::Unavailable,
        true,
    ));
    assert_eq!(unavailable.status.as_u16(), 503);

    let internal = map_query_setup_state_engine_err(EngineError::new(
        1322,
        EngineErrorCategory::Internal,
        false,
    ));
    assert_eq!(internal.status.as_u16(), 500);
    assert!(!internal.message.contains("1322"));
}

#[test]
fn map_join_engine_err_branches() {
    let cases = [
        (
            JOIN_SPACE_INVITATION_NOT_FOUND_CODE,
            EngineErrorCategory::NotFound,
            404,
        ),
        (
            JOIN_SPACE_INVITATION_EXPIRED_CODE,
            EngineErrorCategory::NotFound,
            404,
        ),
        (
            JOIN_SPACE_PASSPHRASE_MISMATCH_CODE,
            EngineErrorCategory::Unauthorized,
            400,
        ),
        (
            JOIN_SPACE_SPONSOR_REJECTED_CODE,
            EngineErrorCategory::Conflict,
            409,
        ),
        (
            JOIN_SPACE_SPONSOR_UNREACHABLE_CODE,
            EngineErrorCategory::Unavailable,
            503,
        ),
        (1299, EngineErrorCategory::Internal, 500),
    ];
    for (code, category, expected) in cases {
        assert_eq!(
            map_join_engine_err(EngineError::new(code, category, false))
                .status
                .as_u16(),
            expected
        );
    }
}

#[test]
fn sponsor_upgrade_required_is_a_stable_conflict_for_join_and_switch() {
    for api in [
        map_join_engine_err(EngineError::new(
            JOIN_SPACE_SPONSOR_UPGRADE_REQUIRED_CODE,
            EngineErrorCategory::Conflict,
            false,
        )),
        map_switch_engine_err(EngineError::new(
            JOIN_SPACE_SPONSOR_UPGRADE_REQUIRED_CODE,
            EngineErrorCategory::Conflict,
            false,
        )),
    ] {
        assert_eq!(api.status.as_u16(), 409);
        assert_eq!(api.code, "sponsor_upgrade_required");
    }
}

#[test]
fn map_switch_engine_err_branches() {
    let cases = [
        (
            JOIN_SPACE_NOT_SETUP_CODE,
            EngineErrorCategory::InvalidState,
            409,
        ),
        (
            JOIN_SPACE_PENDING_MIGRATION_CODE,
            EngineErrorCategory::Conflict,
            409,
        ),
        (
            JOIN_SPACE_NOT_UNLOCKED_CODE,
            EngineErrorCategory::InvalidState,
            409,
        ),
        (
            JOIN_SPACE_UNREADABLE_HISTORY_REQUIRES_CONFIRMATION_CODE,
            EngineErrorCategory::Conflict,
            409,
        ),
        (
            JOIN_SPACE_SPONSOR_REJECTED_CODE,
            EngineErrorCategory::Conflict,
            409,
        ),
        (
            JOIN_SPACE_INVITATION_NOT_FOUND_CODE,
            EngineErrorCategory::NotFound,
            404,
        ),
        (
            JOIN_SPACE_PASSPHRASE_MISMATCH_CODE,
            EngineErrorCategory::Unauthorized,
            400,
        ),
        (
            JOIN_SPACE_DEVICE_NAME_REQUIRED_CODE,
            EngineErrorCategory::InvalidInput,
            400,
        ),
        (
            JOIN_SPACE_SERVICE_UNAVAILABLE_CODE,
            EngineErrorCategory::Unavailable,
            503,
        ),
        (
            JOIN_SPACE_TIMEOUT_CODE,
            EngineErrorCategory::DeadlineExceeded,
            503,
        ),
        (
            JOIN_SPACE_INVALID_CIPHERTEXT_CODE,
            EngineErrorCategory::Internal,
            500,
        ),
        (JOIN_SPACE_STORAGE_CODE, EngineErrorCategory::Internal, 500),
        (1299, EngineErrorCategory::Internal, 500),
    ];
    for (code, category, expected) in cases {
        assert_eq!(
            map_switch_engine_err(EngineError::new(code, category, false))
                .status
                .as_u16(),
            expected
        );
    }

    let api = map_switch_engine_err(EngineError::new(
        JOIN_SPACE_UNREADABLE_HISTORY_REQUIRES_CONFIRMATION_CODE,
        EngineErrorCategory::Conflict,
        false,
    ));
    assert_eq!(api.code, "unreadable_history_confirmation_required");
}
