use unetic_core::completion::{
    apply_wifi_failure_state, apply_wifi_success_state, config_with_wifi_change, make_wifi_last_op,
};
use unetic_core::errors::{DomainError, ErrorCode, ErrorStage};
use unetic_core::net::{is_ip_addr, parse_ipv4};
use unetic_core::operation::{Lifecycle, OperationSource, OperationStatus, TransactionKind};
use unetic_core::reconcile::{HealthySamples, Repair, plan_reconcile};
use unetic_core::recovery::{RecoveryPlan, plan_recovery};
use unetic_core::state::{CoreState, DesiredConfig, HealthLevel, WanPublicState};
use unetic_core::snapshot::{WifiStatus, snapshot};
use unetic_core::sync::{Convergence, WanNext, WanStep, wan_next};
use unetic_core::wan::WanDesired;
use unetic_core::wan_ops::{SetWanRequest, WanChangeStart, begin_wan_change, validate_wan_request};
use unetic_core::wifi::WifiNetworkConfig;
use unetic_core::wifi_ops::{SetWifiConfigRequest, WifiChangeStart, begin_wifi_change};

fn network(ssid: &str) -> WifiNetworkConfig {
    WifiNetworkConfig {
        ssid: ssid.into(),
        encryption: "none".into(),
        key: None,
        targets: vec!["radio0".into()],
    }
}

fn ready_state() -> CoreState {
    let config = DesiredConfig::new(network("Home"), WanDesired::default());
    CoreState::initial(config, Lifecycle::Ready, None, "boot".into(), WanPublicState::unknown())
}

fn start_change(state: &mut CoreState, ssid: &str) -> unetic_core::operation::ChangeContext {
    let request = SetWifiConfigRequest {
        request_id: "req-1".into(),
        ssid: ssid.into(),
        encryption: "none".into(),
        key: None,
        expected_revision: state.config.revision,
    };
    match begin_wifi_change(state, &request, "op-1".into()).unwrap() {
        WifiChangeStart::Start(c) => c,
        _ => panic!("expected a change"),
    }
}

#[test]
fn a_successful_change_is_recorded_and_committed() {
    let mut state = ready_state();
    let context = start_change(&mut state, "Office");
    let last = make_wifi_last_op(&context, OperationStatus::Succeeded, 2, None, 42);
    apply_wifi_success_state(&mut state, &context, last, None);
    assert!(state.active_operation.is_none());
    let last = state.last_user_operation.as_ref().unwrap();
    assert_eq!(last.status, OperationStatus::Succeeded);
    assert_eq!(last.requested_ssid, "Office");
    assert_eq!(last.finished_at_ms, 42);
    assert!(state.runtime_healthy);
    let config = config_with_wifi_change(state.config.clone(), &context);
    assert_eq!(config.revision, 2);
    assert_eq!(config.wifi.primary.ssid, "Office");
}

#[test]
fn a_committed_successful_change_shows_no_drift() {
    let mut state = ready_state();
    let context = start_change(&mut state, "Office");
    state.config = config_with_wifi_change(state.config.clone(), &context);
    let last = make_wifi_last_op(&context, OperationStatus::Succeeded, 2, None, 42);
    apply_wifi_success_state(&mut state, &context, last, None);
    let published = snapshot(&state, "v");
    assert!(!published.drift.detected);
    assert_eq!(published.wifi.status, WifiStatus::Synced);
    assert_eq!(published.wifi.ssid, "Office");
}

#[test]
fn a_failed_change_keeps_the_desired_configuration() {
    let mut state = ready_state();
    let before = state.config.clone();
    let context = start_change(&mut state, "Office");
    let error = DomainError::from_message(ErrorCode::UciApplyFailed, ErrorStage::Apply, "apply");
    let last = make_wifi_last_op(&context, OperationStatus::Failed, 1, Some(error.clone()), 7);
    apply_wifi_failure_state(&mut state, &context, last, error, false, false);
    assert_eq!(state.config.revision, before.revision);
    assert_eq!(state.config.wifi.primary.ssid, "Home");
    assert!(state.active_operation.is_none());
}

#[test]
fn a_failed_change_is_recorded_with_its_error() {
    let mut state = ready_state();
    let context = start_change(&mut state, "Office");
    let error = DomainError::from_message(ErrorCode::UciApplyFailed, ErrorStage::Apply, "apply");
    let last = make_wifi_last_op(&context, OperationStatus::Failed, 1, Some(error.clone()), 7);
    apply_wifi_failure_state(&mut state, &context, last, error, false, false);
    assert!(state.active_operation.is_none());
    assert_eq!(state.last_user_operation.as_ref().unwrap().status, OperationStatus::Failed);
    assert_eq!(state.health.wireless, HealthLevel::Failing);
}

#[test]
fn recovery_rolls_back_an_uncommitted_change_and_confirms_a_committed_one() {
    let mut state = ready_state();
    let context = start_change(&mut state, "Office");
    let journal = context.to_journal(OperationStatus::Applying);
    assert_eq!(journal.kind, TransactionKind::Wifi);
    match plan_recovery(&state.config, &journal).unwrap() {
        RecoveryPlan::RollBackWifi(w) => assert_eq!(w.ssid, "Home"),
        _ => panic!("expected a rollback"),
    }
    let committed = config_with_wifi_change(state.config.clone(), &context);
    match plan_recovery(&committed, &journal).unwrap() {
        RecoveryPlan::ConfirmWifi(w) => assert_eq!(w.ssid, "Office"),
        _ => panic!("expected a confirmation"),
    }
    let mut other = committed.clone();
    other.revision = 9;
    assert!(matches!(plan_recovery(&other, &journal).unwrap(), RecoveryPlan::Discard));
}

#[test]
fn reconcile_repairs_drift_and_leaves_a_synced_state_alone() {
    let mut state = ready_state();
    let (repair, _) = plan_reconcile(&mut state, "op-r".into(), None, false);
    match repair {
        Some(Repair::Config(c)) => {
            assert_eq!(c.source, OperationSource::Reconcile);
            assert_eq!(c.new_wifi.ssid, "Home");
        }
        _ => panic!("expected a configuration repair"),
    }
    assert!(state.active_operation.is_some());
}

#[test]
fn two_healthy_samples_in_a_row_mean_recovery() {
    let mut samples = HealthySamples::new();
    assert!(!samples.record(true));
    assert!(!samples.record(false));
    assert!(!samples.record(true));
    assert!(samples.record(true));
}

#[test]
fn convergence_needs_two_healthy_samples_and_reports_why_not() {
    let mut c = Convergence::new();
    assert!(!c.runtime_sample(Ok(true)));
    c.differs();
    assert_eq!(c.successful_samples, 0);
    assert!(!c.runtime_sample(Ok(false)));
    assert_eq!(c.last_reason, "wireless runtime is not healthy");
    assert!(!c.runtime_sample(Ok(true)));
    assert!(c.runtime_sample(Ok(true)));
    let err = c.timeout_error();
    assert_eq!(err.code, ErrorCode::VerifyTimeout);
    assert_eq!(
        err.message,
        "Wi-Fi configuration did not converge before timeout: wireless runtime is not healthy"
    );
}

#[test]
fn a_wan_change_starts_and_is_validated() {
    let mut state = ready_state();
    let mut wan = WanDesired::default();
    wan.present = true;
    wan.proto = unetic_core::wan::WanProtocol::Dhcp;
    let request = SetWanRequest { request_id: "w1".into(), wan, expected_revision: 1 };
    assert!(validate_wan_request(&request).is_ok());
    match begin_wan_change(&mut state, request, "op-w".into(), 5).unwrap() {
        WanChangeStart::Start(c) => assert_eq!(c.target_revision, 2),
        _ => panic!("expected a WAN change"),
    }
    let bad = SetWanRequest { request_id: " ".into(), wan: WanDesired::default(), expected_revision: 1 };
    assert_eq!(validate_wan_request(&bad).unwrap_err().code, ErrorCode::InvalidArgument);
}

#[test]
fn addresses_parse_as_std_does() {
    assert_eq!(parse_ipv4("192.168.1.1"), Some(0xC0A8_0101));
    assert_eq!(parse_ipv4("256.1.1.1"), None);
    for text in ["::1", "fe80::1", "2001:db8::8a2e:370:7334", "1.2.3.4", "::ffff:1.2.3.4"] {
        assert!(is_ip_addr(text), "{text}");
    }
    for text in ["", "1.2.3", "01.2.3.4", ":::", "1::2::3", "g::1"] {
        assert!(!is_ip_addr(text), "{text}");
    }
}

#[test]
fn wan_change_steps_run_in_order_and_fail_with_rollback() {
    let ok: Result<(), DomainError> = Ok(());
    assert_eq!(wan_next(WanStep::StageAndApply, &ok, OperationSource::User), WanNext::Run(WanStep::Verify));
    assert_eq!(wan_next(WanStep::Verify, &ok, OperationSource::User), WanNext::Run(WanStep::PersistAndConfirm));
    assert_eq!(wan_next(WanStep::PersistAndConfirm, &ok, OperationSource::User), WanNext::Succeed);
    let staged: Result<(), DomainError> =
        Err(DomainError::from_message(ErrorCode::UciStageFailed, ErrorStage::Stage, "stage"));
    assert_eq!(wan_next(WanStep::StageAndApply, &staged, OperationSource::User), WanNext::Fail { revert: true });
    let confirm: Result<(), DomainError> =
        Err(DomainError::from_message(ErrorCode::ConfirmFailed, ErrorStage::Confirm, "confirm"));
    assert_eq!(wan_next(WanStep::PersistAndConfirm, &confirm, OperationSource::User), WanNext::Uncertain);
    assert_eq!(
        wan_next(WanStep::PersistAndConfirm, &confirm, OperationSource::Reconcile),
        WanNext::Fail { revert: false }
    );
}
