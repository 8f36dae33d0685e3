use unetic_core::config_edit::config_with_extender_token;
use unetic_core::mesh::{runs_as_extender, token_from_pair_status, wifi_to_broadcast};
use unetic_core::state::{DesiredConfig, WifiDesired};
use unetic_core::wan::{WanDesired, WanProtocol};
use unetic_core::wifi::{MeshBackhaulConfig, RadioChannelConfig, WifiNetworkConfig};

fn network(ssid: &str) -> WifiNetworkConfig {
    WifiNetworkConfig {
        ssid: ssid.to_string(),
        encryption: "psk2".to_string(),
        key: Some("password1".to_string()),
        targets: vec!["radio0".to_string(), "radio1".to_string()],
    }
}

fn wifi(ssid: &str, channel: u32) -> WifiDesired {
    WifiDesired {
        primary: network(ssid),
        backhaul: Some(MeshBackhaulConfig {
            enabled: true,
            backhaul_target: "radio1".to_string(),
            client_target: "radio0".to_string(),
            hidden: true,
        }),
        radio_channels: vec![RadioChannelConfig { target: "radio0".to_string(), channel, band: None }],
    }
}

#[test]
fn extender_role_follows_wan_protocol() {
    assert!(runs_as_extender(WanProtocol::Extender));
    assert!(!runs_as_extender(WanProtocol::Dhcp));
    assert!(!runs_as_extender(WanProtocol::Disabled));
}

#[test]
fn only_accepted_pairing_keeps_token() {
    assert_eq!(token_from_pair_status("accepted", Some("t".to_string())), Some("t".to_string()));
    assert_eq!(token_from_pair_status("accepted", None), None);
    assert_eq!(token_from_pair_status("pending", Some("t".to_string())), None);
}

#[test]
fn master_passes_on_changed_wifi_once() {
    let mut last = None;
    assert!(wifi_to_broadcast(&mut last, &wifi("home", 6)));
    assert_eq!(last.as_ref().unwrap().primary.ssid, "home");
    assert!(!wifi_to_broadcast(&mut last, &wifi("home", 6)));
    assert!(wifi_to_broadcast(&mut last, &wifi("home", 11)));
    assert_eq!(last.as_ref().unwrap().radio_channels[0].channel, 11);
    assert!(wifi_to_broadcast(&mut last, &wifi("office", 11)));
    let mut changed = wifi("office", 11);
    changed.backhaul = None;
    assert!(wifi_to_broadcast(&mut last, &changed));
    assert!(last.as_ref().unwrap().backhaul.is_none());
}

#[test]
fn extender_token_is_set_and_cleared_without_revision_change() {
    let config = DesiredConfig::new(network("home"), WanDesired::disabled());
    let with = config_with_extender_token(config, Some("token".to_string()));
    assert_eq!(with.extender_auth_token.as_deref(), Some("token"));
    assert_eq!(with.revision, 1);
    let cleared = config_with_extender_token(with, None);
    assert_eq!(cleared.extender_auth_token, None);
    assert_eq!(cleared.revision, 1);
}
