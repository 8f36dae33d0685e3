use unetic_core::api::{ApiMethod, route};
use unetic_core::errors::{DomainError, ErrorCode, ErrorStage};
use unetic_core::maintenance::{
    MaintenanceExit, begin_maintenance_exit, maintenance_enter, maintenance_exit_succeeded,
    maintenance_exit_sync_failed,
};
use unetic_core::observe::{
    WifiReading, apply_wan_observation, apply_wifi_observation, refresh_observations, same_observations,
};
use unetic_core::operation::{Lifecycle, OperationStatus};
use unetic_core::snapshot::{WifiStatus, drift_fields, snapshot};
use unetic_core::state::{CoreState, DesiredConfig, HealthLevel, ObservedConfigs, WanPublicState};
use unetic_core::startup::{StoredConfig, after_discovery, finish_startup, from_stored_config};
use unetic_core::wan::WanDesired;
use unetic_core::wifi::WifiNetworkConfig;
use unetic_core::wifi_ops::{
    SetWifiConfigRequest, WifiChangeStart, WifiSetError, begin_wifi_change, check_app_ready,
};

fn network(ssid: &str, targets: &[&str]) -> WifiNetworkConfig {
    WifiNetworkConfig {
        ssid: ssid.into(),
        encryption: "psk2".into(),
        key: Some("secret-key".into()),
        targets: targets.iter().map(|t| t.to_string()).collect(),
    }
}

fn ready_state() -> CoreState {
    let config = DesiredConfig::new(network("Home", &["radio0", "radio1"]), WanDesired::default());
    CoreState::initial(config, Lifecycle::Ready, None, "boot-1".into(), WanPublicState::unknown())
}

fn request(id: &str, ssid: &str, revision: u64) -> SetWifiConfigRequest {
    SetWifiConfigRequest {
        request_id: id.into(),
        ssid: ssid.into(),
        encryption: "psk2".into(),
        key: Some("secret-key".into()),
        expected_revision: revision,
    }
}

#[test]
fn a_new_ssid_starts_a_change_and_a_repeat_gets_the_same_answer() {
    let mut state = ready_state();
    let started = begin_wifi_change(&mut state, &request("r1", "Office", 1), "op-1".into()).unwrap();
    let context = match started {
        WifiChangeStart::Start(c) => c,
        _ => panic!("expected a change to start"),
    };
    assert_eq!(context.base_revision, 1);
    assert_eq!(context.target_revision, 2);
    assert_eq!(context.new_wifi.ssid, "Office");
    assert_eq!(state.active_operation.as_ref().unwrap().status, OperationStatus::Accepted);

    let again = begin_wifi_change(&mut state, &request("r1", "Office", 1), "op-2".into()).unwrap();
    match again {
        WifiChangeStart::Repeat(a) => assert_eq!(a.operation_id, "op-1"),
        _ => panic!("expected the earlier answer"),
    }
    let other_revision = begin_wifi_change(&mut state, &request("r1", "Office", 7), "op-5".into()).unwrap();
    match other_revision {
        WifiChangeStart::Repeat(a) => {
            assert_eq!(a.operation_id, "op-1");
            assert_eq!(a.status, OperationStatus::Accepted);
            assert!(!a.noop);
        },
        _ => panic!("expected the earlier answer whatever the revision"),
    }
    assert_eq!(state.active_operation.as_ref().unwrap().id, "op-1");
    let err = begin_wifi_change(&mut state, &request("r2", "Other", 1), "op-3".into()).unwrap_err();
    assert_eq!(err.code, ErrorCode::Busy);
    let err = begin_wifi_change(&mut state, &request("r1", "Other", 1), "op-4".into()).unwrap_err();
    assert_eq!(err.code, ErrorCode::IdempotencyConflict);
    assert_eq!(WifiSetError::from(err), WifiSetError::ApplyFailed);
}

#[test]
fn a_repeat_is_answered_even_at_the_last_revision() {
    let mut state = ready_state();
    let started = begin_wifi_change(&mut state, &request("r1", "Office", 1), "op-1".into()).unwrap();
    assert!(matches!(started, WifiChangeStart::Start(_)));
    state.config.revision = u64::MAX;
    match begin_wifi_change(&mut state, &request("r1", "Office", u64::MAX), "op-2".into()).unwrap() {
        WifiChangeStart::Repeat(a) => {
            assert_eq!(a.operation_id, "op-1");
            assert_eq!(a.status, OperationStatus::Accepted);
        }
        _ => panic!("expected the earlier answer"),
    }
    assert_eq!(state.config.revision, u64::MAX);
}

#[test]
fn a_repeat_after_the_change_failed_gets_the_failed_operation() {
    let mut state = ready_state();
    let context = match begin_wifi_change(&mut state, &request("r1", "Office", 1), "op-1".into()).unwrap() {
        WifiChangeStart::Start(c) => c,
        _ => panic!("expected a change to start"),
    };
    let error = DomainError::from_message(ErrorCode::UciApplyFailed, ErrorStage::Apply, "boom");
    let last = unetic_core::completion::make_wifi_last_op(
        &context,
        OperationStatus::Failed,
        state.config.revision,
        Some(error.clone()),
        5,
    );
    unetic_core::completion::apply_wifi_failure_state(&mut state, &context, last, error, false, false);
    assert!(state.active_operation.is_none());
    match begin_wifi_change(&mut state, &request("r1", "Office", 9), "op-2".into()).unwrap() {
        WifiChangeStart::Repeat(a) => {
            assert_eq!(a.operation_id, "op-1");
            assert_eq!(a.status, OperationStatus::Failed);
            assert!(!a.noop);
        }
        _ => panic!("expected the earlier answer"),
    }
}

#[test]
fn unchanged_settings_are_a_noop_and_stale_revisions_conflict() {
    let mut state = ready_state();
    match begin_wifi_change(&mut state, &request("r1", "Home", 1), "op-1".into()).unwrap() {
        WifiChangeStart::Noop(a) => {
            assert!(a.noop);
            assert_eq!(a.status, OperationStatus::Succeeded);
        }
        _ => panic!("expected a no-op"),
    }
    assert!(state.active_operation.is_none());
    let err = begin_wifi_change(&mut state, &request("r2", "Office", 7), "op-2".into()).unwrap_err();
    assert_eq!(err.code, ErrorCode::RevisionConflict);
    let err = begin_wifi_change(&mut state, &request("r3", "", 1), "op-3".into()).unwrap_err();
    assert_eq!(err.code, ErrorCode::InvalidArgument);
    assert_eq!(WifiSetError::from(err).code(), 1);
}

#[test]
fn maintenance_refuses_changes_until_it_is_left() {
    let mut state = ready_state();
    maintenance_enter(&mut state, Some("firmware".into())).unwrap();
    assert_eq!(state.lifecycle, Lifecycle::Maintenance);
    let err = check_app_ready(&state).unwrap_err();
    assert_eq!(err.code, ErrorCode::MaintenanceMode);
    assert_eq!(WifiSetError::from(err), WifiSetError::NotReady);

    assert_eq!(begin_maintenance_exit(&mut state).unwrap(), MaintenanceExit::Started);
    assert_eq!(begin_maintenance_exit(&mut state).unwrap(), MaintenanceExit::AlreadyExiting);
    let err = maintenance_enter(&mut state, None).unwrap_err();
    assert_eq!(err.code, ErrorCode::Busy);
    maintenance_exit_succeeded(&mut state);
    assert!(check_app_ready(&state).is_ok());
    assert_eq!(begin_maintenance_exit(&mut state).unwrap(), MaintenanceExit::NotInMaintenance);
}

#[test]
fn a_failed_maintenance_exit_degrades_the_core() {
    let mut state = ready_state();
    maintenance_enter(&mut state, None).unwrap();
    begin_maintenance_exit(&mut state).unwrap();
    let cause = DomainError::from_message(ErrorCode::UciApplyFailed, ErrorStage::Apply, "boom");
    maintenance_exit_sync_failed(&mut state, &cause);
    assert_eq!(state.lifecycle, Lifecycle::Degraded);
    assert!(!state.maintenance);
    assert_eq!(state.repair_failures, 1);
    let error = state.last_system_error.unwrap();
    assert_eq!(error.code, ErrorCode::ReconcileFailed);
    assert_eq!(error.message, "failed to leave maintenance: boom");
    assert!(error.retryable);
}

#[test]
fn maintenance_is_unavailable_before_initialisation() {
    let config = DesiredConfig::empty();
    let mut state =
        CoreState::initial(config, Lifecycle::NeedsSetup, None, "b".into(), WanPublicState::unknown());
    let err = maintenance_enter(&mut state, None).unwrap_err();
    assert_eq!(err.code, ErrorCode::NotReady);
}

#[test]
fn drift_lists_each_differing_field_and_missing_radio() {
    let mut state = ready_state();
    let mut observed = ObservedConfigs::new();
    let mut other = network("Other", &["radio0"]);
    other.key = Some("another-key".into());
    observed.insert("radio0".into(), other);
    apply_wifi_observation(&mut state, false, observed, Ok(false));
    let fields = drift_fields(&state);
    assert_eq!(
        fields,
        vec![
            "wifi.primary.targets.radio0.ssid".to_string(),
            "wifi.primary.targets.radio0.key".to_string(),
            "wifi.primary.targets.radio1.ssid".to_string(),
            "wifi.primary.runtime".to_string(),
        ]
    );
    let published = snapshot(&state, "1.2.3");
    assert_eq!(published.wifi.status, WifiStatus::Drifted);
    assert!(published.drift.detected);
    assert_eq!(published.core_version, "1.2.3");
    assert_eq!(published.wifi.observed, vec![("radio0".to_string(), "Other".to_string())]);
    assert_eq!(state.health.wireless, HealthLevel::Failing);
}

#[test]
fn a_state_in_sync_shows_no_drift() {
    let mut state = ready_state();
    let published = snapshot(&state, "v");
    assert_eq!(published.wifi.status, WifiStatus::Drifted);
    let mut observed = ObservedConfigs::new();
    observed.insert("radio0".into(), network("Home", &["radio0"]));
    observed.insert("radio1".into(), network("Home", &["radio1"]));
    let changed = apply_wifi_observation(&mut state, false, observed, Ok(true));
    assert!(changed);
    let published = snapshot(&state, "v");
    assert!(!published.drift.detected);
    assert_eq!(published.wifi.status, WifiStatus::Synced);

    let mut again = ObservedConfigs::new();
    again.insert("radio1".into(), network("Home", &["radio1"]));
    again.insert("radio0".into(), network("Home", &["radio0"]));
    assert!(same_observations(&state.observed_configs, &again));
    assert!(!apply_wifi_observation(&mut state, false, again, Ok(true)));
}

#[test]
fn a_round_of_observations_folds_the_wan_then_the_radios() {
    let mut state = ready_state();
    let mut observed = ObservedConfigs::new();
    observed.insert("radio0".into(), network("Home", &["radio0"]));
    observed.insert("radio1".into(), network("Home", &["radio1"]));
    let wan = WanPublicState::unknown();
    assert!(refresh_observations(&mut state, Ok(wan.clone()), WifiReading::Read(observed, Ok(true))));
    assert_eq!(state.health.wan, HealthLevel::Healthy);
    assert_eq!(state.health.wireless, HealthLevel::Healthy);
    assert!(!drift_fields(&state).iter().any(|f| f.contains("radio")));

    let mut again = ObservedConfigs::new();
    again.insert("radio0".into(), network("Home", &["radio0"]));
    again.insert("radio1".into(), network("Home", &["radio1"]));
    assert!(!refresh_observations(&mut state, Ok(wan.clone()), WifiReading::Read(again, Ok(true))));

    let err = DomainError::from_message(ErrorCode::Internal, ErrorStage::Transport, "radios away");
    assert!(refresh_observations(&mut state, Ok(wan.clone()), WifiReading::Failed(err.clone())));
    assert_eq!(state.health.wireless, HealthLevel::Failing);
    assert_eq!(state.health.wan, HealthLevel::Healthy);
    assert_eq!(state.last_system_error.as_ref().unwrap().message, "radios away");
    assert!(!refresh_observations(&mut state, Ok(wan), WifiReading::Failed(err)));
}

#[test]
fn without_managed_radios_only_the_wan_is_observed() {
    let config = DesiredConfig::new(network("Home", &[]), WanDesired::default());
    let mut state =
        CoreState::initial(config, Lifecycle::Ready, None, "boot-1".into(), WanPublicState::unknown());
    let before = state.health.wireless;
    let err = DomainError::from_message(ErrorCode::Internal, ErrorStage::Transport, "down");
    assert!(refresh_observations(&mut state, Err(err), WifiReading::Skipped));
    assert_eq!(state.health.wan, HealthLevel::Failing);
    assert_eq!(state.health.wireless, before);
}

#[test]
fn wan_observation_reports_changes_and_errors() {
    let mut state = ready_state();
    let mut wan = WanPublicState::unknown();
    wan.uptime_secs = 10;
    assert!(apply_wan_observation(&mut state, Ok(wan.clone())));
    assert!(!apply_wan_observation(&mut state, Ok(wan)));
    let err = DomainError::from_message(ErrorCode::Internal, ErrorStage::Transport, "down");
    assert!(apply_wan_observation(&mut state, Err(err.clone())));
    assert_eq!(state.health.wan, HealthLevel::Failing);
    assert!(!apply_wan_observation(&mut state, Err(err)));
}

#[test]
fn startup_uses_current_configs_and_discovers_missing_ones() {
    let config = DesiredConfig::new(network("Home", &["radio0"]), WanDesired::default());
    match from_stored_config(Ok(Some(config))) {
        StoredConfig::Use(s) => {
            assert_eq!(s.lifecycle, Lifecycle::Booting);
            assert!(s.error.is_none());
        }
        StoredConfig::Discover => panic!("expected the stored config"),
    }
    let mut old = DesiredConfig::new(network("Home", &["radio0"]), WanDesired::default());
    old.schema_version = 7;
    match from_stored_config(Ok(Some(old))) {
        StoredConfig::Use(s) => {
            assert_eq!(s.lifecycle, Lifecycle::Degraded);
            assert_eq!(s.error.unwrap().code, ErrorCode::StateCorrupt);
        }
        StoredConfig::Discover => panic!("expected a degraded start"),
    }
    assert!(matches!(from_stored_config(Ok(None)), StoredConfig::Discover));
    let failed = after_discovery(
        Err(DomainError::from_message(ErrorCode::AmbiguousWifiConfig, ErrorStage::Bootstrap, "x")),
        Ok(()),
    );
    assert_eq!(failed.lifecycle, Lifecycle::NeedsSetup);

    let mut state = ready_state();
    state.lifecycle = Lifecycle::Booting;
    finish_startup(&mut state);
    assert_eq!(state.lifecycle, Lifecycle::Ready);
}

#[test]
fn api_routes_known_methods_and_refuses_others() {
    assert_eq!(route("state").unwrap(), ApiMethod::State);
    assert_eq!(route("wan.set_config").unwrap(), ApiMethod::WanSet);
    assert_eq!(route("wan.set").unwrap(), ApiMethod::WanSet);
    assert_eq!(route("tools.ping").unwrap(), ApiMethod::ToolsPing);
    let err = route("reboot").unwrap_err();
    assert_eq!(err.code, ErrorCode::InvalidArgument);
    assert_eq!(err.message, "unknown Unetic method: reboot");
}

#[test]
fn published_state_carries_configuration_sections() {
    let mut state = ready_state();
    state.config.registered_devices.push(unetic_core::devices::RegisteredDevice {
        uuid: "phone".into(),
        mac: "00:11:22:33:44:55".into(),
        name: "Phone".into(),
        is_static_ip: false,
        port_forwards: Vec::new(),
    });
    state.config.wifi.radio_channels.push(unetic_core::wifi::RadioChannelConfig {
        target: "radio0".into(),
        channel: 6,
        band: None,
    });
    state.ddns_status.last_ip = Some("203.0.113.7".into());
    state.pending_extenders.push(unetic_core::mesh::PendingExtender {
        mac: "aa".into(),
        model: "X1".into(),
        pairing_key: "k".into(),
    });
    let published = snapshot(&state, "v");
    assert_eq!(published.registered_devices, state.config.registered_devices);
    assert_eq!(published.wifi.radio_channels[0].channel, 6);
    assert!(published.wifi.backhaul.is_none());
    assert_eq!(published.dns.local_domain.as_deref(), Some("lan"));
    assert_eq!(published.ddns_status.last_ip.as_deref(), Some("203.0.113.7"));
    assert!(!published.ddns_config.enabled);
    assert_eq!(published.pending_extenders.len(), 1);
    assert_eq!(published.extender_pairing_status, "idle");
    assert!(published.traffic.wan.charts.one_minute.is_empty());
}
