use unetic_core::ddns::{DdnsConfig, DdnsProvider, validate_ddns_config};
use unetic_core::dns::is_valid_hostname;
use unetic_core::errors::ErrorCode;
use unetic_core::tools::ping_target;
use unetic_core::traffic::{TrafficBytes, TrafficCounters, TrafficSampler, TrafficState};
use unetic_core::wan::{
    WanDesired, WanProtocol, normalize_wan_desired, validate_wan_desired, wan_config_matches,
};
use unetic_core::wifi::{MeshBackhaulConfig, RadioChannelConfig, validate_mesh_backhaul_config};

#[test]
fn rejects_enabled_ddns_without_provider() {
    let config = DdnsConfig {
        enabled: true,
        provider: DdnsProvider::Disabled,
        ..DdnsConfig::default()
    };

    assert!(validate_ddns_config(&config).is_err());
}

#[test]
fn validates_each_hostname_label() {
    assert!(is_valid_hostname("printer.home"));
    assert!(!is_valid_hostname("-printer.home"));
    assert!(!is_valid_hostname("printer..home"));
}

#[test]
fn test_validate_backhaul_disabled_succeeds() {
    let backhaul = MeshBackhaulConfig {
        enabled: false,
        backhaul_target: "radio0".into(),
        client_target: "radio0".into(),
        hidden: true,
    };
    let targets = vec!["radio0".into()];
    assert!(validate_mesh_backhaul_config(&backhaul, &targets, &vec![]).is_ok());
}

#[test]
fn test_validate_backhaul_rejects_single_radio() {
    let backhaul = MeshBackhaulConfig {
        enabled: true,
        backhaul_target: "radio0".into(),
        client_target: "radio1".into(),
        hidden: true,
    };
    let targets = vec!["radio0".into()];
    let err = validate_mesh_backhaul_config(&backhaul, &targets, &vec![]).unwrap_err();
    assert_eq!(err.code, ErrorCode::InvalidArgument);
    assert!(err.message.contains("Dual-radio hardware"));
}

#[test]
fn test_validate_backhaul_rejects_same_target() {
    let backhaul = MeshBackhaulConfig {
        enabled: true,
        backhaul_target: "radio0".into(),
        client_target: "radio0".into(),
        hidden: true,
    };
    let targets = vec!["radio0".into(), "radio1".into()];
    let err = validate_mesh_backhaul_config(&backhaul, &targets, &vec![]).unwrap_err();
    assert_eq!(err.code, ErrorCode::InvalidArgument);
    assert!(err.message.contains("must be different"));
}

#[test]
fn test_validate_backhaul_rejects_same_channel() {
    let backhaul = MeshBackhaulConfig {
        enabled: true,
        backhaul_target: "radio1".into(),
        client_target: "radio0".into(),
        hidden: true,
    };
    let targets = vec!["radio0".into(), "radio1".into()];
    let channels = vec![
        RadioChannelConfig {
            target: "radio0".into(),
            channel: 6,
            band: Some("2.4g".into()),
        },
        RadioChannelConfig {
            target: "radio1".into(),
            channel: 6,
            band: Some("2.4g".into()),
        },
    ];
    let err = validate_mesh_backhaul_config(&backhaul, &targets, &channels).unwrap_err();
    assert_eq!(err.code, ErrorCode::InvalidArgument);
    assert!(err.message.contains("different channels"));
}

#[test]
fn test_validate_backhaul_success_with_different_channels() {
    let backhaul = MeshBackhaulConfig {
        enabled: true,
        backhaul_target: "radio1".into(),
        client_target: "radio0".into(),
        hidden: true,
    };
    let targets = vec!["radio0".into(), "radio1".into()];
    let channels = vec![
        RadioChannelConfig {
            target: "radio0".into(),
            channel: 6,
            band: Some("2.4g".into()),
        },
        RadioChannelConfig {
            target: "radio1".into(),
            channel: 36,
            band: Some("5g".into()),
        },
    ];
    assert!(validate_mesh_backhaul_config(&backhaul, &targets, &channels).is_ok());
}

#[test]
fn all_is_derived_from_wan_and_lan_deltas() {
    let mut sampler = TrafficSampler::new();
    let mut state = TrafficState::new();
    sampler.sample(
        TrafficCounters {
            wan: TrafficBytes {
                rx: 1_000,
                tx: 2_000,
            },
            lan: TrafficBytes {
                rx: 3_000,
                tx: 4_000,
            },
        },
        false,
        &mut state,
        5_000,
        1_700_000_000_000,
    );
    sampler.sample(
        TrafficCounters {
            wan: TrafficBytes {
                rx: 2_024,
                tx: 3_024,
            },
            lan: TrafficBytes {
                rx: 5_048,
                tx: 6_048,
            },
        },
        true,
        &mut state,
        6_000,
        1_700_000_001_000,
    );
    assert_eq!(state.wan.realtime.rx_kbps, 1);
    assert_eq!(state.lan.source.realtime.rx_kbps, 2);
    assert_eq!(state.all.realtime.rx_kbps, 3);
    assert!(state.lan.hw_offload_enabled);
}

#[test]
fn disabled_wan_drops_stale_protocol_settings() {
    let normalized = normalize_wan_desired(WanDesired {
        present: false,
        device: Some("eth1".into()),
        proto: WanProtocol::Dhcp,
        custom_dns: vec!["1.1.1.1".into()],
        ..WanDesired::default()
    });

    assert_eq!(
        normalized,
        WanDesired {
            present: false,
            proto: WanProtocol::Disabled,
            ..WanDesired::default()
        }
    );
}

#[test]
fn extender_matches_its_dhcp_uci_representation() {
    let extender = WanDesired {
        present: true,
        proto: WanProtocol::Extender,
        ..WanDesired::default()
    };
    let dhcp = WanDesired {
        present: true,
        proto: WanProtocol::Dhcp,
        ..WanDesired::default()
    };

    assert!(wan_config_matches(&dhcp, &extender));
}

#[test]
fn test_validate_extender_protocol() {
    let desired = WanDesired {
        present: true,
        proto: WanProtocol::Extender,
        ..Default::default()
    };
    assert!(validate_wan_desired(&desired).is_ok());
}

#[test]
fn test_validate_extender_protocol_mtu() {
    let desired_ok = WanDesired {
        present: true,
        proto: WanProtocol::Extender,
        custom_mtu: Some(1500),
        ..Default::default()
    };
    assert!(validate_wan_desired(&desired_ok).is_ok());

    let desired_err = WanDesired {
        present: true,
        proto: WanProtocol::Extender,
        custom_mtu: Some(1501),
        ..Default::default()
    };
    assert!(validate_wan_desired(&desired_err).is_err());
}

#[test]
fn test_execute_ping_empty_host() {
    let err = ping_target("   ").expect_err("empty host must fail");
    assert_eq!(err.code, ErrorCode::InvalidArgument);
}
