use unetic_core::devices::{
    PortForward, RegisteredDevice, UciAction, add_port_forward, delete_device, devices_sync_ip,
    is_known_protocol, register_device, remove_port_forward, update_device,
};
use unetic_core::errors::ErrorCode;
use unetic_core::state::DesiredConfig;
use unetic_core::wan::WanDesired;
use unetic_core::wifi::WifiNetworkConfig;

fn config() -> DesiredConfig {
    DesiredConfig::new(
        WifiNetworkConfig {
            ssid: "Home".into(),
            encryption: "none".into(),
            key: None,
            targets: vec!["radio0".into()],
        },
        WanDesired::default(),
    )
}

fn device() -> RegisteredDevice {
    RegisteredDevice {
        uuid: "phone_1".to_owned(),
        mac: "00:11:22:33:44:55".to_owned(),
        name: "Phone".to_owned(),
        is_static_ip: false,
        port_forwards: Vec::new(),
    }
}

fn forward(id: &str, protocol: &str) -> PortForward {
    PortForward { id: id.into(), protocol: protocol.into(), external_port: 8080, internal_port: 80 }
}

fn set(key: &str, value: &str) -> UciAction {
    UciAction::SetOption { key: key.into(), value: value.into() }
}

#[test]
fn register_device_updates_state_without_deadlocking() {
    let config = config();
    let revision = config.revision;

    let config = register_device(config, device());

    assert_eq!(config.revision, revision + 1);
    assert_eq!(config.registered_devices, vec![device()]);
}

#[test]
fn update_rejects_uuid_changes() {
    let config = register_device(config(), device());
    let mut changed = device();
    changed.uuid = "different".to_owned();

    let error = update_device(config, "phone_1", changed).expect_err("UUID change rejected");

    assert_eq!(error.code, ErrorCode::InvalidArgument);
}

#[test]
fn update_rejects_mac_changes() {
    let config = register_device(config(), device());
    let mut changed = device();
    changed.mac = "66:77:88:99:aa:bb".to_owned();

    let error = update_device(config, "phone_1", changed).expect_err("MAC change rejected");

    assert_eq!(error.code, ErrorCode::InvalidArgument);
}

#[test]
fn remove_missing_port_forward_does_not_change_revision() {
    let mut state = register_device(config(), device());
    let revision = state.revision;

    let result = remove_port_forward(state.clone(), "phone_1", "missing");
    if let Ok((next, _)) = &result {
        state = next.clone();
    }
    let error = result.expect_err("missing rule rejected");

    assert_eq!(error.code, ErrorCode::NotFound);
    assert_eq!(state.revision, revision);
}

#[test]
fn registering_again_replaces_the_device() {
    let config = register_device(config(), device());
    let mut renamed = device();
    renamed.name = "Phone 2".into();
    let config = register_device(config, renamed.clone());
    assert_eq!(config.registered_devices, vec![renamed]);
    assert_eq!(config.revision, 3);
    let mut renamed_again = device();
    renamed_again.name = "Phone 3".into();
    let config = update_device(config, "phone_1", renamed_again.clone()).unwrap();
    assert_eq!(config.registered_devices, vec![renamed_again]);
    assert_eq!(update_device(config, "nobody", device()).unwrap_err().code, ErrorCode::NotFound);
}

#[test]
fn a_port_forward_is_validated_stored_and_written_to_uci() {
    let config = register_device(config(), device());
    assert_eq!(
        add_port_forward(config.clone(), "phone_1", forward("web", "icmp")).unwrap_err().message,
        "Invalid protocol"
    );
    let mut bad = forward("web", "tcp");
    bad.external_port = 70000;
    assert_eq!(add_port_forward(config.clone(), "phone_1", bad).unwrap_err().message, "Invalid port");
    assert_eq!(
        add_port_forward(config.clone(), "ghost", forward("web", "tcp")).unwrap_err().code,
        ErrorCode::NotFound
    );
    let (config, actions) = add_port_forward(config, "phone_1", forward("web", "TCP")).unwrap();
    assert_eq!(config.registered_devices[0].port_forwards, vec![forward("web", "TCP")]);
    assert_eq!(
        actions,
        vec![
            set("firewall.pf_web", "redirect"),
            set("firewall.pf_web.target", "DNAT"),
            set("firewall.pf_web.src", "wan"),
            set("firewall.pf_web.dest", "lan"),
            set("firewall.pf_web.proto", "TCP"),
            set("firewall.pf_web.src_dport", "8080"),
            set("firewall.pf_web.dest_port", "80"),
            set("firewall.pf_web.name", "web"),
            UciAction::Commit { config: Some("firewall".into()) },
        ]
    );
    let (config, _) = add_port_forward(config, "phone_1", forward("web", "udp")).unwrap();
    assert_eq!(config.registered_devices[0].port_forwards, vec![forward("web", "udp")]);

    let (config, actions) = remove_port_forward(config, "phone_1", "web").unwrap();
    assert!(config.registered_devices[0].port_forwards.is_empty());
    assert_eq!(
        actions,
        vec![
            UciAction::Delete { key: "firewall.pf_web".into() },
            UciAction::Commit { config: Some("firewall".into()) },
            UciAction::ReloadFirewall,
        ]
    );
}

#[test]
fn deleting_a_device_removes_its_lease_and_forwards() {
    let mut d = device();
    d.is_static_ip = true;
    d.port_forwards = vec![forward("a", "tcp"), forward("b", "udp")];
    let config = register_device(config(), d);
    let (config, actions) = delete_device(config, "phone_1");
    assert!(config.registered_devices.is_empty());
    assert_eq!(
        actions,
        vec![
            UciAction::Delete { key: "dhcp.host_phone_1".into() },
            UciAction::Delete { key: "firewall.pf_a".into() },
            UciAction::Delete { key: "firewall.pf_b".into() },
            UciAction::Commit { config: None },
            UciAction::ReloadConfig,
            UciAction::ReloadFirewall,
        ]
    );
    let (_, actions) = delete_device(config, "phone_1");
    assert!(actions.is_empty());
}

#[test]
fn a_new_address_is_written_to_the_device_forwards() {
    let mut d = device();
    d.port_forwards = vec![forward("a", "tcp")];
    let config = register_device(config(), d);
    let actions = devices_sync_ip(&config, "00:11:22:33:44:55".to_uppercase().as_str(), None, Some("fd00::5"));
    assert_eq!(
        actions,
        vec![
            set("firewall.pf_a.dest_ip", "fd00::5"),
            UciAction::Commit { config: Some("firewall".into()) },
            UciAction::ReloadFirewall,
        ]
    );
    assert!(devices_sync_ip(&config, "00:11:22:33:44:55", None, None).is_empty());
    assert!(devices_sync_ip(&config, "ff:ff:ff:ff:ff:ff", Some("192.168.1.9"), None).is_empty());
}

#[test]
fn registering_again_replaces_and_deleting_restores_the_others() {
    let mut other = device();
    other.uuid = "laptop".to_owned();
    other.mac = "00:11:22:33:44:66".to_owned();
    let base = register_device(config(), other.clone());

    let mut renamed = device();
    renamed.name = "Work phone".to_owned();
    let twice = register_device(register_device(base.clone(), device()), renamed.clone());
    assert_eq!(twice.registered_devices, vec![other.clone(), renamed]);

    let (deleted, _) = delete_device(register_device(base, device()), "phone_1");
    assert_eq!(deleted.registered_devices, vec![other]);
}

#[test]
fn known_protocols_are_tcp_udp_or_both() {
    assert!(is_known_protocol("tcp"));
    assert!(is_known_protocol("udp"));
    assert!(is_known_protocol("tcp udp"));
    assert!(is_known_protocol("tcp,udp"));
    assert!(!is_known_protocol("TCP"));
    assert!(!is_known_protocol("icmp"));
    assert!(!is_known_protocol(""));
}
