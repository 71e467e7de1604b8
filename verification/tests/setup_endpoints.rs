use uc_webserver::dto::{
    CancelJoinSpaceRequest, CurrentInvitation, InitializeSpaceRequest, JoinSpaceRejectionReason,
    JoinSpaceResponse, RedeemRequest, SwitchSpaceRequest,
};
use uc_webserver::engine::error_codes::{
    CANCEL_JOIN_SPACE_NOT_FOUND_CODE, JOIN_SPACE_CONNECTION_LOST_CODE,
    JOIN_SPACE_CORRUPTED_KEY_CODE, JOIN_SPACE_SPONSOR_DECLINED_CODE,
    JOIN_SPACE_SPONSOR_TIMEOUT_CODE, JOIN_SPACE_TIMEOUT_CODE,
};
use uc_webserver::engine::{
    EngineError, EngineErrorCategory, InvitationView, JoinSpaceRejectionReasonSummary,
    JoinSpaceStatusSummary, JoinedSpaceSummary, Operation, OperationResult, SetupStateView,
};
use uc_webserver::error::{ApiError, StatusCode};
use uc_webserver::setup::{
    cancel_join_operation, cancel_join_outcome, cancel_outcome, clear_stale_admission_outcome,
    get_state_outcome, initialize_operation, initialize_outcome, issue_invitation_outcome,
    join_space_response, map_cancel_join_engine_err, map_clear_stale_admission_engine_err,
    map_create_engine_err, map_issue_engine_err, map_join_engine_err,
    map_query_setup_state_engine_err, map_reset_engine_err, map_switch_engine_err,
    redeem_operation, redeem_outcome, reset_outcome, switch_space_operation, switch_space_outcome,
};

const ALL_CATEGORIES: [EngineErrorCategory; 8] = [
    EngineErrorCategory::InvalidInput,
    EngineErrorCategory::InvalidState,
    EngineErrorCategory::NotFound,
    EngineErrorCategory::Conflict,
    EngineErrorCategory::Unauthorized,
    EngineErrorCategory::Unavailable,
    EngineErrorCategory::DeadlineExceeded,
    EngineErrorCategory::Internal,
];

fn err(code: u32, category: EngineErrorCategory) -> EngineError {
    EngineError::new(code, category, false)
}

fn same(a: &ApiError, b: &ApiError) -> bool {
    a.status == b.status && a.code == b.code && a.message == b.message
}

#[test]
fn unnamed_codes_are_redacted_on_every_endpoint() {
    for category in ALL_CATEGORIES {
        assert!(same(&map_create_engine_err(err(1299, category)), &map_create_engine_err(err(9, category))));
        assert!(same(&map_join_engine_err(err(1299, category)), &map_join_engine_err(err(77_777, category))));
        assert!(same(&map_switch_engine_err(err(1299, category)), &map_switch_engine_err(err(0, category))));
        let a = map_cancel_join_engine_err(err(1399, category));
        assert_eq!(a.status.as_u16(), 500);
        assert_eq!(a.message, "failed to cancel join attempt");
        assert!(!a.message.contains("1399"));
    }
}

#[test]
fn every_status_is_on_the_documented_surface() {
    let documented = [400u16, 404, 409, 500, 503];
    for category in ALL_CATEGORIES {
        for code in 0u32..2000 {
            for api in [
                map_create_engine_err(err(code, category)),
                map_issue_engine_err(err(code, category)),
                map_join_engine_err(err(code, category)),
                map_reset_engine_err(err(code, category)),
                map_clear_stale_admission_engine_err(err(code, category)),
                map_query_setup_state_engine_err(err(code, category)),
                map_switch_engine_err(err(code, category)),
                map_cancel_join_engine_err(err(code, category)),
            ] {
                assert!(documented.contains(&api.status.as_u16()));
            }
        }
    }
}

#[test]
fn issue_invitation_mapping_by_category() {
    let a = map_issue_engine_err(err(1, EngineErrorCategory::InvalidState));
    assert_eq!((a.status.as_u16(), a.code.as_str(), a.message.as_str()), (503, "service_unavailable", "network is not started"));
    let a = map_issue_engine_err(err(1, EngineErrorCategory::Unavailable));
    assert_eq!((a.status.as_u16(), a.message.as_str()), (503, "pairing invitation service unavailable"));
    let a = map_issue_engine_err(err(1, EngineErrorCategory::InvalidInput));
    assert_eq!((a.status.as_u16(), a.code.as_str(), a.message.as_str()), (500, "internal", "unexpected invalid invitation input on default path"));
    let a = map_issue_engine_err(err(1, EngineErrorCategory::Conflict));
    assert_eq!((a.status.as_u16(), a.message.as_str()), (500, "failed to issue pairing invitation"));
}

#[test]
fn clear_stale_admission_mapping_by_category() {
    let a = map_clear_stale_admission_engine_err(err(5, EngineErrorCategory::Unavailable));
    assert_eq!((a.status.as_u16(), a.message.as_str()), (503, "clear stale admission service unavailable"));
    let a = map_clear_stale_admission_engine_err(err(5, EngineErrorCategory::Internal));
    assert_eq!((a.status.as_u16(), a.message.as_str()), (500, "failed to clear stale admission state"));
}

#[test]
fn cancel_join_not_found_is_404() {
    let a = map_cancel_join_engine_err(err(CANCEL_JOIN_SPACE_NOT_FOUND_CODE, EngineErrorCategory::Internal));
    assert_eq!((a.status.as_u16(), a.code.as_str(), a.message.as_str()), (404, "not_found", "join attempt not found"));
}

#[test]
fn join_and_switch_differ_where_the_endpoints_differ() {
    let j = map_join_engine_err(err(JOIN_SPACE_SPONSOR_TIMEOUT_CODE, EngineErrorCategory::Internal));
    assert_eq!((j.status.as_u16(), j.message.as_str()), (503, "sponsor timed out the handshake"));
    let s = map_switch_engine_err(err(JOIN_SPACE_SPONSOR_TIMEOUT_CODE, EngineErrorCategory::Internal));
    assert_eq!((s.status.as_u16(), s.message.as_str()), (500, "failed to switch space"));
    let j = map_join_engine_err(err(JOIN_SPACE_TIMEOUT_CODE, EngineErrorCategory::DeadlineExceeded));
    assert_eq!(j.message, "pairing handshake timed out");
    let s = map_switch_engine_err(err(JOIN_SPACE_TIMEOUT_CODE, EngineErrorCategory::DeadlineExceeded));
    assert_eq!(s.message, "handshake timed out");
    let j = map_join_engine_err(err(JOIN_SPACE_CORRUPTED_KEY_CODE, EngineErrorCategory::Internal));
    assert_eq!((j.status.as_u16(), j.message.as_str()), (500, "space key material corrupted"));
    let j = map_join_engine_err(err(JOIN_SPACE_SPONSOR_DECLINED_CODE, EngineErrorCategory::Conflict));
    assert_eq!((j.status.as_u16(), j.code.as_str()), (409, "conflict"));
    let s = map_switch_engine_err(err(JOIN_SPACE_CONNECTION_LOST_CODE, EngineErrorCategory::Unavailable));
    assert_eq!((s.status.as_u16(), s.message.as_str()), (503, "connection lost mid-handshake"));
    let j = map_join_engine_err(err(4242, EngineErrorCategory::Unavailable));
    assert_eq!((j.status.as_u16(), j.message.as_str()), (503, "join-space service unavailable"));
}

#[test]
fn api_error_constructors_and_with_code() {
    let e = ApiError::conflict("x").with_code("custom");
    assert_eq!((e.status.as_u16(), e.code.as_str(), e.message.as_str()), (409, "custom", "x"));
    assert_eq!(ApiError::bad_request("m").code, "bad_request");
    assert_eq!(ApiError::not_found("m").status.as_u16(), 404);
    assert_eq!(ApiError::service_unavailable("m").status.as_u16(), 503);
    assert_eq!(ApiError::internal("m").code, "internal");
    assert!(StatusCode::from_u16(99).is_none());
    assert!(StatusCode::from_u16(1000).is_none());
    assert_eq!(StatusCode::from_u16(418).unwrap().as_u16(), 418);
    assert_eq!(StatusCode::no_content().as_u16(), 204);
}

fn joined() -> JoinedSpaceSummary {
    JoinedSpaceSummary {
        sponsor_device_id: "sponsor".to_string(),
        sponsor_identity_fingerprint: "sfp".to_string(),
        space_id: "space".to_string(),
        self_device_id: "me".to_string(),
        self_identity_fingerprint: "mfp".to_string(),
        migrated_records: 12,
        preserved_unreadable_records: 3,
    }
}

#[test]
fn join_space_response_carries_every_field() {
    match join_space_response(JoinSpaceStatusSummary::Active { join_id: "j1".to_string(), joined_space: joined() }) {
        JoinSpaceResponse::Active { join_id, joined_space } => {
            assert_eq!(join_id, "j1");
            assert_eq!(joined_space.sponsor_device_id, "sponsor");
            assert_eq!(joined_space.sponsor_identity_fingerprint, "sfp");
            assert_eq!(joined_space.space_id, "space");
            assert_eq!(joined_space.self_device_id, "me");
            assert_eq!(joined_space.self_identity_fingerprint, "mfp");
            assert_eq!(joined_space.migrated_records, 12);
            assert_eq!(joined_space.preserved_unreadable_records, 3);
        }
        other => panic!("unexpected {other:?}"),
    }
    let pending = join_space_response(JoinSpaceStatusSummary::Pending {
        join_id: "j2".to_string(),
        target_space_id: "t".to_string(),
        sponsor_device_id: "s".to_string(),
        sponsor_identity_fingerprint: "f".to_string(),
        cancel_requested: true,
    });
    assert_eq!(
        pending,
        JoinSpaceResponse::Pending {
            join_id: "j2".to_string(),
            target_space_id: "t".to_string(),
            sponsor_device_id: "s".to_string(),
            sponsor_identity_fingerprint: "f".to_string(),
            cancel_requested: true,
        }
    );
}

#[test]
fn rejection_reasons_map_one_to_one() {
    let pairs = [
        (JoinSpaceRejectionReasonSummary::InvitationUnavailable, JoinSpaceRejectionReason::InvitationUnavailable),
        (JoinSpaceRejectionReasonSummary::AuthenticationRejected, JoinSpaceRejectionReason::AuthenticationRejected),
        (JoinSpaceRejectionReasonSummary::IdentityConflict, JoinSpaceRejectionReason::IdentityConflict),
        (JoinSpaceRejectionReasonSummary::BaseHistoryChanged, JoinSpaceRejectionReason::BaseHistoryChanged),
        (JoinSpaceRejectionReasonSummary::JoinerHistoryAhead, JoinSpaceRejectionReason::JoinerHistoryAhead),
        (JoinSpaceRejectionReasonSummary::HistoryConflict, JoinSpaceRejectionReason::HistoryConflict),
        (JoinSpaceRejectionReasonSummary::PeerUpgradeRequired, JoinSpaceRejectionReason::PeerUpgradeRequired),
        (JoinSpaceRejectionReasonSummary::Cancelled, JoinSpaceRejectionReason::Cancelled),
        (JoinSpaceRejectionReasonSummary::RemovedBeforeActivation, JoinSpaceRejectionReason::RemovedBeforeActivation),
    ];
    for (summary, wire) in pairs {
        let r = join_space_response(JoinSpaceStatusSummary::Rejected { join_id: "j".to_string(), reason: summary });
        assert_eq!(r, JoinSpaceResponse::Rejected { join_id: "j".to_string(), reason: wire });
    }
}

#[test]
fn requests_become_the_documented_operations() {
    match initialize_operation(InitializeSpaceRequest {
        passphrase: "pw".to_string(),
        passphrase_confirm: "pw2".to_string(),
        device_name: "laptop".to_string(),
    }) {
        Operation::CreateSpace(input) => {
            assert_eq!(input.passphrase.expose_secret(), "pw");
            assert_eq!(input.passphrase_confirmation.expose_secret(), "pw2");
            assert_eq!(input.device_name, "laptop");
        }
        _ => panic!("expected CreateSpace"),
    }
    match redeem_operation(RedeemRequest { code: "ABC".to_string(), passphrase: "pw".to_string() }) {
        Operation::JoinSpace(input) => {
            assert_eq!(input.invitation_code, "ABC");
            assert!(input.device_name.is_none());
            assert_eq!(input.passphrase.expose_secret(), "pw");
            assert!(!input.preserve_unreadable_history);
        }
        _ => panic!("expected JoinSpace"),
    }
    match switch_space_operation(SwitchSpaceRequest {
        code: "XYZ".to_string(),
        new_passphrase: "new".to_string(),
        preserve_unreadable_history: true,
    }) {
        Operation::JoinSpace(input) => {
            assert_eq!(input.invitation_code, "XYZ");
            assert!(input.device_name.is_none());
            assert_eq!(input.passphrase.expose_secret(), "new");
            assert!(input.preserve_unreadable_history);
        }
        _ => panic!("expected JoinSpace"),
    }
    match cancel_join_operation(CancelJoinSpaceRequest { join_id: "j9".to_string() }) {
        Operation::CancelJoinSpace(input) => assert_eq!(input.join_id, "j9"),
        _ => panic!("expected CancelJoinSpace"),
    }
}

#[test]
fn outcomes_on_success() {
    let r = initialize_outcome(Ok(OperationResult::SpaceCreated {
        space_id: "s".to_string(),
        self_device_id: "d".to_string(),
        identity_fingerprint: "f".to_string(),
    }))
    .unwrap();
    assert_eq!((r.space_id.as_str(), r.self_device_id.as_str(), r.fingerprint.as_str()), ("s", "d", "f"));
    let r = issue_invitation_outcome(Ok(OperationResult::InvitationIssued {
        invitation_code: "CODE".to_string(),
        expires_at_ms: 1_700_000_000_000,
    }))
    .unwrap();
    assert_eq!((r.code.as_str(), r.expires_at_ms), ("CODE", 1_700_000_000_000));
    assert_eq!(cancel_outcome(Ok(OperationResult::InvitationCancelled)).unwrap().as_u16(), 204);
    assert_eq!(reset_outcome(Ok(OperationResult::SpaceReset)).unwrap().as_u16(), 204);
    assert_eq!(clear_stale_admission_outcome(Ok(OperationResult::StaleAdmissionCleared)).unwrap().as_u16(), 204);
    let r = get_state_outcome(Ok(OperationResult::SetupState(SetupStateView {
        has_completed: true,
        current_invitation: Some(InvitationView { invitation_code: "INV".to_string(), expires_at_ms: 5 }),
        device_name: Some("box".to_string()),
        re_pairing_required: false,
    })))
    .unwrap();
    assert!(r.has_completed);
    assert_eq!(r.current_invitation, Some(CurrentInvitation { code: "INV".to_string(), expires_at_ms: 5 }));
    assert_eq!(r.device_name.as_deref(), Some("box"));
    assert!(!r.re_pairing_required);
    let status = JoinSpaceStatusSummary::Rejected {
        join_id: "j".to_string(),
        reason: JoinSpaceRejectionReasonSummary::Cancelled,
    };
    for r in [
        redeem_outcome(Ok(OperationResult::JoinSpace(status.clone()))),
        switch_space_outcome(Ok(OperationResult::JoinSpace(status.clone()))),
        cancel_join_outcome(Ok(OperationResult::JoinSpace(status.clone()))),
    ] {
        assert_eq!(
            r.unwrap(),
            JoinSpaceResponse::Rejected { join_id: "j".to_string(), reason: JoinSpaceRejectionReason::Cancelled }
        );
    }
}

#[test]
fn outcomes_on_an_unexpected_engine_answer_are_internal() {
    let e = initialize_outcome(Ok(OperationResult::SpaceReset)).unwrap_err();
    assert_eq!((e.status.as_u16(), e.message.as_str()), (500, "engine returned an unexpected create-space result"));
    let e = issue_invitation_outcome(Ok(OperationResult::SpaceReset)).unwrap_err();
    assert_eq!(e.message, "engine returned an unexpected invitation result");
    let e = redeem_outcome(Ok(OperationResult::SpaceReset)).unwrap_err();
    assert_eq!(e.message, "engine returned an unexpected fresh-join result");
    let e = cancel_outcome(Ok(OperationResult::SpaceReset)).unwrap_err();
    assert_eq!(e.message, "engine returned an unexpected cancel-invitation result");
    let e = reset_outcome(Ok(OperationResult::InvitationCancelled)).unwrap_err();
    assert_eq!(e.message, "engine returned an unexpected reset-space result");
    let e = clear_stale_admission_outcome(Ok(OperationResult::SpaceReset)).unwrap_err();
    assert_eq!(e.message, "engine returned an unexpected clear-stale-admission result");
    let e = get_state_outcome(Ok(OperationResult::SpaceReset)).unwrap_err();
    assert_eq!(e.message, "engine returned an unexpected setup-state result");
    let e = switch_space_outcome(Ok(OperationResult::SpaceReset)).unwrap_err();
    assert_eq!(e.message, "engine returned an unexpected switch-space result");
    let e = cancel_join_outcome(Ok(OperationResult::SpaceReset)).unwrap_err();
    assert_eq!((e.status.as_u16(), e.code.as_str(), e.message.as_str()), (500, "internal", "engine returned an unexpected cancel-join result"));
}

#[test]
fn outcomes_on_engine_failure_use_the_endpoint_mapping() {
    let e = initialize_outcome(Err(err(1, EngineErrorCategory::Unavailable))).unwrap_err();
    assert_eq!(e.message, "create-space service unavailable");
    let e = issue_invitation_outcome(Err(err(1, EngineErrorCategory::InvalidState))).unwrap_err();
    assert_eq!(e.message, "network is not started");
    let e = redeem_outcome(Err(err(1, EngineErrorCategory::Internal))).unwrap_err();
    assert_eq!(e.message, "failed to join space");
    let e = cancel_outcome(Err(err(1, EngineErrorCategory::Internal))).unwrap_err();
    assert_eq!(e.message, "failed to cancel invitation");
    let e = reset_outcome(Err(err(1, EngineErrorCategory::Internal))).unwrap_err();
    assert_eq!(e.message, "failed to reset space");
    let e = clear_stale_admission_outcome(Err(err(1, EngineErrorCategory::Unavailable))).unwrap_err();
    assert_eq!(e.status.as_u16(), 503);
    let e = get_state_outcome(Err(err(1, EngineErrorCategory::Unavailable))).unwrap_err();
    assert_eq!(e.message, "setup-state service unavailable");
    let e = switch_space_outcome(Err(err(1, EngineErrorCategory::Unavailable))).unwrap_err();
    assert_eq!(e.message, "switch-space service unavailable");
    let e = cancel_join_outcome(Err(err(CANCEL_JOIN_SPACE_NOT_FOUND_CODE, EngineErrorCategory::NotFound))).unwrap_err();
    assert_eq!(e.status.as_u16(), 404);
}
