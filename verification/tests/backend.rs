use unetic_core::backend::{FailurePlan, MemoryBackend, RouterBackend};
use unetic_core::errors::ErrorCode;
use unetic_core::sync::{
    SyncNext, SyncStep, all_targets_carry, finish_sync, force_wan_state_sync, read_back_check, stage_and_apply,
    sync_next,
};
use unetic_core::wan::{WanDesired, WanProtocol};

fn targets(names: &[&str]) -> Vec<String> {
    names.iter().map(|n| n.to_string()).collect()
}

fn committed(backend: &MemoryBackend) -> Vec<(String, String)> {
    backend.committed_ssids()
}

#[test]
fn new_backend_commits_the_ssid_on_every_radio_in_order() {
    let backend = MemoryBackend::new("Home", &["radio1", "radio0"]);
    assert_eq!(
        committed(&backend),
        vec![
            ("radio0".to_string(), "Home".to_string()),
            ("radio1".to_string(), "Home".to_string())
        ]
    );
    let wifi = backend.discover_primary_wifi().unwrap();
    assert_eq!(wifi.ssid, "Home");
    assert_eq!(wifi.targets, targets(&["radio0", "radio1"]));
    let wan = backend.discover_primary_wan().unwrap();
    assert!(wan.present);
    assert_eq!(wan.proto, WanProtocol::Dhcp);
    assert_eq!(wan.device.as_deref(), Some("eth1"));
    let runtime = backend.read_wan_runtime_status().unwrap();
    assert_eq!(runtime.ip_address.as_deref(), Some("203.0.113.10"));
    assert_eq!(runtime.dns, targets(&["1.1.1.1", "1.0.0.1"]));
    assert_eq!(runtime.uptime_secs, 1200);
}

#[test]
fn discovery_fails_without_radios_or_with_two_ssids() {
    let empty = MemoryBackend::new("Home", &[]);
    let err = empty.discover_primary_wifi().unwrap_err();
    assert_eq!(err.code, ErrorCode::AmbiguousWifiConfig);
    assert_eq!(err.message, "no AP targets found");

    let mut split = MemoryBackend::new("Home", &["radio0", "radio1"]);
    split.external_set("radio1", "Other");
    let err = split.discover_primary_wifi().unwrap_err();
    assert_eq!(err.message, "managed APs do not share one SSID");
}

#[test]
fn sessions_are_numbered_from_one() {
    let mut backend = MemoryBackend::new("Home", &["radio0"]);
    assert_eq!(backend.create_session().unwrap(), "memory-session-1");
    assert_eq!(backend.create_session().unwrap(), "memory-session-2");
    backend.next_session = 1234567;
    assert_eq!(backend.create_session().unwrap(), "memory-session-1234567");
}

#[test]
fn staged_ssid_is_seen_in_the_session_only_until_applied() {
    let mut backend = MemoryBackend::new("Home", &["radio0", "radio1"]);
    let sid = backend.create_session().unwrap();
    backend.stage_ssid(&sid, &targets(&["radio0"]), "Guest").unwrap();
    let staged = backend.read_ssids(&targets(&["radio0", "radio1"]), Some(&sid)).unwrap();
    assert_eq!(
        staged,
        vec![
            ("radio0".to_string(), "Guest".to_string()),
            ("radio1".to_string(), "Home".to_string())
        ]
    );
    let live = backend.read_ssids(&targets(&["radio0"]), None).unwrap();
    assert_eq!(live, vec![("radio0".to_string(), "Home".to_string())]);

    backend.apply(&sid, 120).unwrap();
    let live = backend.read_ssids(&targets(&["radio0"]), None).unwrap();
    assert_eq!(live, vec![("radio0".to_string(), "Guest".to_string())]);
}

#[test]
fn rollback_after_apply_restores_the_committed_configuration() {
    let mut backend = MemoryBackend::new("Home", &["radio0", "radio1"]);
    let before = committed(&backend);
    let sid = backend.create_session().unwrap();
    backend.stage_ssid(&sid, &targets(&["radio0", "radio1"]), "New").unwrap();
    let mut wan = WanDesired::default();
    wan.present = true;
    wan.proto = WanProtocol::Pppoe;
    backend.stage_wan_config(&sid, &wan).unwrap();
    backend.apply(&sid, 120).unwrap();
    assert_eq!(backend.read_wan_config(None).unwrap().proto, WanProtocol::Pppoe);
    backend.rollback(&sid).unwrap();
    assert_eq!(committed(&backend), before);
    assert_eq!(backend.read_wan_config(None).unwrap().proto, WanProtocol::Dhcp);
    let staged = backend.read_ssids(&targets(&["radio0"]), Some(&sid)).unwrap();
    assert_eq!(staged[0].1, "Home");
}

#[test]
fn confirm_keeps_the_applied_configuration() {
    let mut backend = MemoryBackend::new("Home", &["radio0"]);
    let sid = backend.create_session().unwrap();
    backend.stage_ssid(&sid, &targets(&["radio0"]), "New").unwrap();
    backend.apply(&sid, 120).unwrap();
    backend.confirm(&sid).unwrap();
    backend.rollback(&sid).unwrap();
    assert_eq!(committed(&backend), vec![("radio0".to_string(), "New".to_string())]);
}

#[test]
fn staging_stops_at_the_first_missing_target() {
    let mut backend = MemoryBackend::new("Home", &["radio0", "radio1"]);
    let sid = backend.create_session().unwrap();
    let err = backend
        .stage_ssid(&sid, &targets(&["radio0", "radio9", "radio1"]), "New")
        .unwrap_err();
    assert_eq!(err.code, ErrorCode::TargetMissing);
    assert_eq!(err.message, "missing target radio9");
    let staged = backend.read_ssids(&targets(&["radio0", "radio1"]), Some(&sid)).unwrap();
    assert_eq!(staged[0].1, "New");
    assert_eq!(staged[1].1, "Home");
}

#[test]
fn unknown_sessions_and_targets_are_reported() {
    let mut backend = MemoryBackend::new("Home", &["radio0"]);
    let err = backend.stage_ssid("nope", &targets(&["radio0"]), "X").unwrap_err();
    assert_eq!(err.code, ErrorCode::RpcdSessionLost);
    let err = backend.apply("nope", 10).unwrap_err();
    assert_eq!(err.code, ErrorCode::RpcdSessionLost);
    let err = backend.read_ssids(&targets(&["radio7"]), None).unwrap_err();
    assert_eq!(err.message, "missing target radio7");
}

#[test]
fn injected_failures_leave_the_backend_unchanged() {
    let mut backend = MemoryBackend::new("Home", &["radio0"]);
    let sid = backend.create_session().unwrap();
    backend.set_failure_plan(FailurePlan {
        fail_stage: true,
        fail_apply: true,
        fail_confirm: true,
        fail_rollback: true,
        fail_candidate_verify: false,
        runtime_unhealthy: true,
    });
    assert_eq!(
        backend.stage_ssid(&sid, &targets(&["radio0"]), "X").unwrap_err().code,
        ErrorCode::UciStageFailed
    );
    assert_eq!(backend.apply(&sid, 1).unwrap_err().code, ErrorCode::UciApplyFailed);
    assert_eq!(backend.confirm(&sid).unwrap_err().code, ErrorCode::ConfirmFailed);
    assert_eq!(backend.rollback(&sid).unwrap_err().code, ErrorCode::RollbackFailed);
    assert_eq!(backend.runtime_healthy(&targets(&["radio0"]), "Home").unwrap(), false);
    backend.reload_wireless_runtime().unwrap();
    assert_eq!(backend.runtime_healthy(&targets(&["radio0"]), "Home").unwrap(), true);
    assert_eq!(committed(&backend), vec![("radio0".to_string(), "Home".to_string())]);
}

#[test]
fn candidate_verification_fails_while_a_rollback_is_pending() {
    let mut backend = MemoryBackend::new("Home", &["radio0"]);
    let mut plan = FailurePlan::default();
    plan.fail_candidate_verify = true;
    backend.set_failure_plan(plan);
    let sid = backend.create_session().unwrap();
    assert!(backend.runtime_healthy(&targets(&["radio0"]), "Home").unwrap());
    backend.apply(&sid, 1).unwrap();
    assert!(!backend.runtime_healthy(&targets(&["radio0"]), "Home").unwrap());
    backend.confirm(&sid).unwrap();
    assert!(backend.runtime_healthy(&targets(&["radio0"]), "Home").unwrap());
}

#[test]
fn revert_stages_the_committed_configuration_again() {
    let mut backend = MemoryBackend::new("Home", &["radio0"]);
    let sid = backend.create_session().unwrap();
    backend.stage_ssid(&sid, &targets(&["radio0"]), "X").unwrap();
    backend.revert_staged(&sid).unwrap();
    let staged = backend.read_ssids(&targets(&["radio0"]), Some(&sid)).unwrap();
    assert_eq!(staged[0].1, "Home");
}

#[test]
fn a_full_sync_commits_the_ssid() {
    let mut backend = MemoryBackend::new("Home", &["radio0", "radio1"]);
    let sid = backend.create_session().unwrap();
    let t = targets(&["radio0", "radio1"]);
    stage_and_apply(&mut backend, &sid, &t, "Office", 120).unwrap();
    finish_sync(&mut backend, &sid, Ok(())).unwrap();
    let live = backend.read_ssids(&t, None).unwrap();
    assert!(all_targets_carry(&live, &t, "Office"));
}

#[test]
fn a_sync_that_does_not_converge_is_rolled_back() {
    let mut backend = MemoryBackend::new("Home", &["radio0"]);
    let sid = backend.create_session().unwrap();
    let t = targets(&["radio0"]);
    stage_and_apply(&mut backend, &sid, &t, "Office", 120).unwrap();
    let err = unetic_core::errors::DomainError::from_message(
        ErrorCode::VerifyTimeout,
        unetic_core::errors::ErrorStage::Verify,
        "late",
    );
    let r = finish_sync(&mut backend, &sid, Err(err));
    assert_eq!(r.unwrap_err().message, "late");
    assert_eq!(committed(&backend), vec![("radio0".to_string(), "Home".to_string())]);
}

#[test]
fn a_sync_without_targets_is_refused() {
    let mut backend = MemoryBackend::new("Home", &["radio0"]);
    let err = stage_and_apply(&mut backend, "s", &[], "X", 1).unwrap_err();
    assert_eq!(err.code, ErrorCode::TargetMissing);
}

#[test]
fn a_wan_sync_commits_the_wan_configuration() {
    let mut backend = MemoryBackend::new("Home", &["radio0"]);
    let sid = backend.create_session().unwrap();
    let mut wan = WanDesired::default();
    wan.present = true;
    wan.proto = WanProtocol::Static;
    force_wan_state_sync(&mut backend, &sid, &wan, 60).unwrap();
    assert_eq!(backend.read_wan_config(None).unwrap(), wan);
}

#[test]
fn sync_steps_follow_each_other_and_failures_undo_the_session() {
    let failure = || {
        unetic_core::errors::DomainError::from_message(
            ErrorCode::UciApplyFailed,
            unetic_core::errors::ErrorStage::Apply,
            "boom",
        )
    };
    assert!(matches!(sync_next(SyncStep::Stage, Ok(())), SyncNext::Run(SyncStep::ReadBack)));
    assert!(matches!(sync_next(SyncStep::ReadBack, Ok(())), SyncNext::Run(SyncStep::Apply)));
    assert!(matches!(sync_next(SyncStep::Apply, Ok(())), SyncNext::Applied));
    match sync_next(SyncStep::Stage, Err(failure())) {
        SyncNext::Revert(e) => assert_eq!(e.message, "boom"),
        other => panic!("unexpected {:?}", other),
    }
    match sync_next(SyncStep::ReadBack, Err(failure())) {
        SyncNext::Revert(e) => assert_eq!(e.code, ErrorCode::UciApplyFailed),
        other => panic!("unexpected {:?}", other),
    }
    match sync_next(SyncStep::Apply, Err(failure())) {
        SyncNext::RollBackAndRevert(e) => assert_eq!(e.message, "boom"),
        other => panic!("unexpected {:?}", other),
    }
}

#[test]
fn read_back_needs_every_target_to_carry_the_ssid() {
    let t = targets(&["radio0", "radio1"]);
    let both = vec![
        ("radio0".to_string(), "Office".to_string()),
        ("radio1".to_string(), "Office".to_string()),
    ];
    assert!(read_back_check(Ok(both), &t, "Office").is_ok());
    let one = vec![
        ("radio0".to_string(), "Office".to_string()),
        ("radio1".to_string(), "Home".to_string()),
    ];
    let err = read_back_check(Ok(one), &t, "Office").unwrap_err();
    assert_eq!(err.code, ErrorCode::UciStageMismatch);
    assert_eq!(err.message, "recovery stage did not match desired state");
    let lost = unetic_core::errors::DomainError::from_message(
        ErrorCode::RpcdSessionLost,
        unetic_core::errors::ErrorStage::Stage,
        "session not found",
    );
    assert_eq!(read_back_check(Err(lost), &t, "Office").unwrap_err().code, ErrorCode::RpcdSessionLost);
}

#[test]
fn a_failed_stage_is_returned_and_the_session_reverted() {
    let mut backend = MemoryBackend::new("Home", &["radio0"]);
    let sid = backend.create_session().unwrap();
    let mut plan = FailurePlan::default();
    plan.fail_stage = true;
    backend.set_failure_plan(plan);
    let t = targets(&["radio0"]);
    let err = stage_and_apply(&mut backend, &sid, &t, "Office", 120).unwrap_err();
    assert_eq!(err.code, ErrorCode::UciStageFailed);
    assert_eq!(committed(&backend), vec![("radio0".to_string(), "Home".to_string())]);
    let staged = backend.read_ssids(&t, Some(&sid)).unwrap();
    assert_eq!(staged[0].1, "Home");
}

#[test]
fn a_stage_on_a_missing_target_is_returned_and_nothing_committed() {
    let mut backend = MemoryBackend::new("Home", &["radio0"]);
    let sid = backend.create_session().unwrap();
    let t = targets(&["radio0", "radio9"]);
    let err = stage_and_apply(&mut backend, &sid, &t, "Office", 120).unwrap_err();
    assert_eq!(err.message, "missing target radio9");
    assert_eq!(committed(&backend), vec![("radio0".to_string(), "Home".to_string())]);
}

#[test]
fn a_failed_apply_is_returned_and_the_session_rolled_back() {
    let mut backend = MemoryBackend::new("Home", &["radio0", "radio1"]);
    let sid = backend.create_session().unwrap();
    let mut plan = FailurePlan::default();
    plan.fail_apply = true;
    backend.set_failure_plan(plan);
    let t = targets(&["radio0", "radio1"]);
    let err = stage_and_apply(&mut backend, &sid, &t, "Office", 120).unwrap_err();
    assert_eq!(err.code, ErrorCode::UciApplyFailed);
    assert_eq!(
        committed(&backend),
        vec![("radio0".to_string(), "Home".to_string()), ("radio1".to_string(), "Home".to_string())]
    );
    let staged = backend.read_ssids(&t, Some(&sid)).unwrap();
    assert!(all_targets_carry(&staged, &t, "Home"));
}

#[test]
fn a_failed_rollback_after_a_missed_convergence_keeps_the_new_ssid() {
    let mut backend = MemoryBackend::new("Home", &["radio0"]);
    let sid = backend.create_session().unwrap();
    let t = targets(&["radio0"]);
    stage_and_apply(&mut backend, &sid, &t, "Office", 120).unwrap();
    let mut plan = FailurePlan::default();
    plan.fail_rollback = true;
    backend.set_failure_plan(plan);
    let err = unetic_core::errors::DomainError::from_message(
        ErrorCode::VerifyTimeout,
        unetic_core::errors::ErrorStage::Verify,
        "late",
    );
    assert_eq!(finish_sync(&mut backend, &sid, Err(err)).unwrap_err().code, ErrorCode::VerifyTimeout);
    assert_eq!(committed(&backend), vec![("radio0".to_string(), "Office".to_string())]);
}

#[test]
fn a_failed_confirm_is_returned() {
    let mut backend = MemoryBackend::new("Home", &["radio0"]);
    let sid = backend.create_session().unwrap();
    let t = targets(&["radio0"]);
    stage_and_apply(&mut backend, &sid, &t, "Office", 120).unwrap();
    let mut plan = FailurePlan::default();
    plan.fail_confirm = true;
    backend.set_failure_plan(plan);
    assert_eq!(finish_sync(&mut backend, &sid, Ok(())).unwrap_err().code, ErrorCode::ConfirmFailed);
    assert_eq!(committed(&backend), vec![("radio0".to_string(), "Office".to_string())]);
}

#[test]
fn a_failed_wan_stage_or_apply_leaves_the_wan_configuration() {
    let mut backend = MemoryBackend::new("Home", &["radio0"]);
    let before = backend.read_wan_config(None).unwrap();
    let sid = backend.create_session().unwrap();
    let mut wan = WanDesired::default();
    wan.present = true;
    wan.proto = WanProtocol::Static;
    let mut plan = FailurePlan::default();
    plan.fail_stage = true;
    backend.set_failure_plan(plan);
    assert_eq!(force_wan_state_sync(&mut backend, &sid, &wan, 60).unwrap_err().code, ErrorCode::UciStageFailed);
    assert_eq!(backend.read_wan_config(None).unwrap(), before);
    let mut plan = FailurePlan::default();
    plan.fail_apply = true;
    backend.set_failure_plan(plan);
    assert_eq!(force_wan_state_sync(&mut backend, &sid, &wan, 60).unwrap_err().code, ErrorCode::UciApplyFailed);
    assert_eq!(backend.read_wan_config(None).unwrap(), before);
}

#[test]
fn a_second_rollback_changes_nothing() {
    let mut backend = MemoryBackend::new("Home", &["radio0"]);
    let sid = backend.create_session().unwrap();
    backend.stage_ssid(&sid, &targets(&["radio0"]), "X").unwrap();
    backend.apply(&sid, 1).unwrap();
    backend.rollback(&sid).unwrap();
    backend.rollback(&sid).unwrap();
    assert_eq!(committed(&backend), vec![("radio0".to_string(), "Home".to_string())]);
    let staged = backend.read_ssids(&targets(&["radio0"]), Some(&sid)).unwrap();
    assert_eq!(staged[0].1, "Home");
}

#[test]
fn a_sync_commits_the_ssid_on_its_targets_only() {
    let mut backend = MemoryBackend::new("Home", &["radio0", "radio1"]);
    let sid = backend.create_session().unwrap();
    stage_and_apply(&mut backend, &sid, &targets(&["radio1"]), "Office", 120).unwrap();
    assert_eq!(
        committed(&backend),
        vec![("radio0".to_string(), "Home".to_string()), ("radio1".to_string(), "Office".to_string())]
    );
    backend.rollback(&sid).unwrap();
    assert_eq!(
        committed(&backend),
        vec![("radio0".to_string(), "Home".to_string()), ("radio1".to_string(), "Home".to_string())]
    );
}
