//! Registered devices and their port forwards, and the UCI changes that keep the firewall and
//! DHCP settings in step with them.

use vstd::prelude::*;
use vstd::string::*;

use crate::config_edit::next_revision;
use crate::errors::{DomainError, ErrorCode, ErrorStage, is_plain_error};
use crate::state::DesiredConfig;
use crate::text::{concat, decimal, decimal_spec, str_eq};

verus! {

/// A port forward from the WAN to a registered device.
#[derive(Debug, Clone, PartialEq, Eq)]
pub struct PortForward {
    pub id: String,
    pub protocol: String,
    pub external_port: u32,
    pub internal_port: u32,
}

/// A device the user registered, with its port forwards.
#[derive(Debug, Clone, PartialEq, Eq)]
pub struct RegisteredDevice {
    pub uuid: String,
    pub mac: String,
    pub name: String,
    pub is_static_ip: bool,
    pub port_forwards: Vec<PortForward>,
}

/// A change to the router's UCI configuration or a reload it calls for.
#[derive(Debug, Clone, PartialEq, Eq)]
pub enum UciAction {
    /// `uci set key=value`
    SetOption { key: String, value: String },
    /// `uci delete key`
    Delete { key: String },
    /// `uci commit`, of one configuration when named
    Commit { config: Option<String> },
    /// `reload_config`
    ReloadConfig,
    /// `fw4 reload`
    ReloadFirewall,
}

pub enum UciView {
    SetOption { key: Seq<char>, value: Seq<char> },
    Delete { key: Seq<char> },
    Commit { config: Option<Seq<char>> },
    ReloadConfig,
    ReloadFirewall,
}

impl View for UciAction {
    type V = UciView;

    open spec fn view(&self) -> UciView {
        match self {
            UciAction::SetOption { key, value } => UciView::SetOption { key: key@, value: value@ },
            UciAction::Delete { key } => UciView::Delete { key: key@ },
            UciAction::Commit { config } => UciView::Commit {
                config: match config {
                    Some(c) => Some(c@),
                    None => None,
                },
            },
            UciAction::ReloadConfig => UciView::ReloadConfig,
            UciAction::ReloadFirewall => UciView::ReloadFirewall,
        }
    }
}

/// The views of a list of actions.
pub open spec fn actions_view(v: Seq<UciAction>) -> Seq<UciView> {
    v.map_values(|a: UciAction| a@)
}

/// The name of a Unicode lower-casing of a text, as `str::to_lowercase` computes it.
pub uninterp spec fn unicode_lowercase(s: Seq<char>) -> Seq<char>;

/// `str::to_lowercase`: the Unicode lower case of the text. Its result is named, not spelled
/// out: it follows the Unicode case tables of the standard library.
#[verifier::external_body]
fn to_lowercase(s: &str) -> (r: String)
    ensures
        r@ == unicode_lowercase(s@),
{
    s.to_lowercase()
}

/// The protocols a port forward may use, compared in lower case.
pub open spec fn protocol_ok(p: Seq<char>) -> bool {
    known_protocol(unicode_lowercase(p))
}

/// The lower-case protocol names a port forward accepts: TCP, UDP, or both.
pub open spec fn known_protocol(lower: Seq<char>) -> bool {
    lower == "tcp"@ || lower == "udp"@ || lower == "tcp udp"@ || lower == "tcp,udp"@
}

/// Whether a lower-cased protocol name is one a port forward accepts.
pub fn is_known_protocol(lower: &str) -> (r: bool)
    ensures
        r == known_protocol(lower@),
{
    str_eq(lower, "tcp") || str_eq(lower, "udp") || str_eq(lower, "tcp udp") || str_eq(lower, "tcp,udp")
}

/// A port is a number from 1 to 65535.
pub open spec fn port_ok(p: u32) -> bool {
    1 <= p <= 65535
}

/// The firewall section of a port forward.
pub open spec fn pf_section(id: Seq<char>) -> Seq<char> {
    "firewall.pf_"@ + id
}

fn section_of(id: &str) -> (r: String)
    ensures
        r@ == pf_section(id@),
{
    concat("firewall.pf_", id)
}

/// The devices without those registered under `uuid`.
pub open spec fn without_uuid(ds: Seq<RegisteredDevice>, uuid: Seq<char>) -> Seq<RegisteredDevice> {
    ds.filter(|d: RegisteredDevice| d.uuid@ != uuid)
}

proof fn lemma_filter_step<A>(s: Seq<A>, p: spec_fn(A) -> bool, x: A)
    ensures
        s.push(x).filter(p) == if p(x) {
            s.filter(p).push(x)
        } else {
            s.filter(p)
        },
{
    reveal(Seq::filter);
    assert(s.push(x).drop_last() =~= s);
}

/// The devices that are not registered under `uuid`, in order.
fn drop_uuid(devices: Vec<RegisteredDevice>, uuid: &str) -> (r: Vec<RegisteredDevice>)
    ensures
        r@ == without_uuid(devices@, uuid@),
{
    let ghost all = devices@;
    let mut rest = devices;
    let mut kept: Vec<RegisteredDevice> = Vec::new();
    let n = rest.len();
    let mut i: usize = 0;
    while rest.len() > 0
        invariant
            n == all.len(),
            i <= n,
            i + rest@.len() == n,
            rest@ == all.subrange(i as int, n as int),
            kept@ == without_uuid(all.take(i as int), uuid@),
        decreases rest@.len(),
    {
        let d = rest.remove(0);
        proof {
            assert(all.take(i + 1) =~= all.take(i as int).push(d));
            lemma_filter_step(all.take(i as int), |x: RegisteredDevice| x.uuid@ != uuid@, d);
        }
        if !str_eq(d.uuid.as_str(), uuid) {
            kept.push(d);
        }
        i += 1;
        proof {
            assert(rest@ =~= all.subrange(i as int, n as int));
        }
    }
    proof {
        assert(all.take(n as int) =~= all);
    }
    kept
}

/// Registers a device, replacing any registered under the same UUID; the revision advances.
pub fn register_device(config: DesiredConfig, device: RegisteredDevice) -> (r: DesiredConfig)
    ensures
        r.registered_devices@ == without_uuid(config.registered_devices@, device.uuid@).push(device),
        r == (DesiredConfig {
            registered_devices: r.registered_devices,
            revision: next_revision(config.revision),
            ..config
        }),
{
    let mut config = config;
    let mut devices = Vec::new();
    std::mem::swap(&mut devices, &mut config.registered_devices);
    let mut kept = drop_uuid(devices, device.uuid.as_str());
    kept.push(device);
    config.registered_devices = kept;
    config.revision = config.revision.saturating_add(1);
    config
}

/// The index of the first device registered under `uuid`, or -1.
pub open spec fn device_index(ds: Seq<RegisteredDevice>, uuid: Seq<char>) -> int
    decreases ds.len(),
{
    if ds.len() == 0 {
        -1
    } else {
        let i = device_index(ds.drop_last(), uuid);
        if i >= 0 {
            i
        } else if ds.last().uuid@ == uuid {
            ds.len() - 1
        } else {
            -1
        }
    }
}

proof fn lemma_device_index(ds: Seq<RegisteredDevice>, uuid: Seq<char>, k: int)
    requires
        0 <= k <= ds.len(),
        forall|j: int| 0 <= j < k ==> #[trigger] ds[j].uuid@ != uuid,
        k == ds.len() || ds[k].uuid@ == uuid,
    ensures
        device_index(ds, uuid) == if k == ds.len() {
            -1
        } else {
            k
        },
    decreases ds.len(),
{
    if ds.len() > 0 {
        let p = ds.drop_last();
        if k < ds.len() - 1 {
            assert forall|j: int| 0 <= j < k implies #[trigger] p[j].uuid@ != uuid by {
                assert(p[j] == ds[j]);
            }
            assert(p[k] == ds[k]);
            lemma_device_index(p, uuid, k);
        } else {
            assert forall|j: int| 0 <= j < p.len() implies #[trigger] p[j].uuid@ != uuid by {
                assert(p[j] == ds[j]);
            }
            lemma_device_index(p, uuid, p.len() as int);
        }
    }
}

fn find_device(devices: &Vec<RegisteredDevice>, uuid: &str) -> (r: Option<usize>)
    ensures
        match r {
            Some(i) => i < devices@.len() && i == device_index(devices@, uuid@),
            None => device_index(devices@, uuid@) == -1,
        },
{
    let mut i: usize = 0;
    while i < devices.len()
        invariant
            i <= devices@.len(),
            forall|j: int| 0 <= j < i ==> #[trigger] devices@[j].uuid@ != uuid@,
        decreases devices@.len() - i,
    {
        if str_eq(devices[i].uuid.as_str(), uuid) {
            proof {
                lemma_device_index(devices@, uuid@, i as int);
            }
            return Some(i);
        }
        i += 1;
    }
    proof {
        lemma_device_index(devices@, uuid@, i as int);
    }
    None
}

/// Why an update of the device registered under `uuid` is refused, if it is.
pub open spec fn update_rejection(ds: Seq<RegisteredDevice>, uuid: Seq<char>, d: RegisteredDevice) -> Option<
    (ErrorCode, Seq<char>),
> {
    let i = device_index(ds, uuid);
    if i < 0 {
        Some((ErrorCode::NotFound, "Device not found"@))
    } else if d.uuid@ != uuid {
        Some((ErrorCode::InvalidArgument, "device UUID cannot change"@))
    } else if d.mac@ != ds[i].mac@ {
        Some((ErrorCode::InvalidArgument, "device MAC address cannot change"@))
    } else {
        None
    }
}

/// Replaces the device registered under `uuid`. An unknown device is not found; an update may
/// change neither the UUID nor the MAC address. The revision advances.
pub fn update_device(config: DesiredConfig, uuid: &str, device: RegisteredDevice) -> (r: Result<
    DesiredConfig,
    DomainError,
>)
    ensures
        match update_rejection(config.registered_devices@, uuid@, device) {
            Some((code, message)) => r matches Err(e) && is_plain_error(e, code, ErrorStage::Validate, message),
            None => r matches Ok(c) && c.registered_devices@ == config.registered_devices@.update(
                device_index(config.registered_devices@, uuid@),
                device,
            ) && c == (DesiredConfig {
                registered_devices: c.registered_devices,
                revision: next_revision(config.revision),
                ..config
            }),
        },
{
    let pos = match find_device(&config.registered_devices, uuid) {
        Some(i) => i,
        None => {
            return Err(DomainError::from_message(ErrorCode::NotFound, ErrorStage::Validate, "Device not found"));
        },
    };
    if !str_eq(device.uuid.as_str(), uuid) {
        return Err(DomainError::from_message(ErrorCode::InvalidArgument, ErrorStage::Validate, "device UUID cannot change"));
    }
    if !str_eq(device.mac.as_str(), config.registered_devices[pos].mac.as_str()) {
        return Err(
            DomainError::from_message(ErrorCode::InvalidArgument, ErrorStage::Validate, "device MAC address cannot change"),
        );
    }
    let mut config = config;
    config.registered_devices.set(pos, device);
    config.revision = config.revision.saturating_add(1);
    Ok(config)
}

/// The UCI changes that remove what a deleted device had: its static lease and its port
/// forwards, committed and reloaded when there was any.
pub open spec fn delete_actions(d: RegisteredDevice, uuid: Seq<char>) -> Seq<UciView> {
    let host = if d.is_static_ip {
        seq![UciView::Delete { key: "dhcp.host_"@ + uuid }]
    } else {
        Seq::empty()
    };
    let forwards = Seq::new(
        d.port_forwards@.len(),
        |i: int| UciView::Delete { key: pf_section(d.port_forwards@[i].id@) },
    );
    let finish = if d.is_static_ip || d.port_forwards@.len() > 0 {
        seq![UciView::Commit { config: None }, UciView::ReloadConfig] + if d.port_forwards@.len() > 0 {
            seq![UciView::ReloadFirewall]
        } else {
            Seq::empty()
        }
    } else {
        Seq::empty()
    };
    host + forwards + finish
}

/// Removes every device registered under `uuid`; the revision advances. Returns the UCI changes
/// that undo the first such device's static lease and port forwards.
pub fn delete_device(config: DesiredConfig, uuid: &str) -> (r: (DesiredConfig, Vec<UciAction>))
    ensures
        r.0.registered_devices@ == without_uuid(config.registered_devices@, uuid@),
        r.0 == (DesiredConfig {
            registered_devices: r.0.registered_devices,
            revision: next_revision(config.revision),
            ..config
        }),
        ({
            let i = device_index(config.registered_devices@, uuid@);
            actions_view(r.1@) == if i >= 0 {
                delete_actions(config.registered_devices@[i], uuid@)
            } else {
                Seq::empty()
            }
        }),
{
    let mut actions: Vec<UciAction> = Vec::new();
    let ghost i = device_index(config.registered_devices@, uuid@);
    if let Some(pos) = find_device(&config.registered_devices, uuid) {
        let d = &config.registered_devices[pos];
        let ghost dv = config.registered_devices@[i];
        assert(*d == dv);
        if d.is_static_ip {
            let a = UciAction::Delete { key: concat("dhcp.host_", uuid) };
            let ghost ga = a;
            actions.push(a);
            proof {
                assert(actions_view(actions@) =~= seq![ga@]);
            }
        } else {
            proof {
                assert(actions_view(actions@) =~= Seq::<UciView>::empty());
            }
        }
        let ghost host = actions_view(actions@);
        let mut k: usize = 0;
        while k < d.port_forwards.len()
            invariant
                *d == dv,
                k <= dv.port_forwards@.len(),
                actions_view(actions@) == host + Seq::new(
                    k as nat,
                    |j: int| UciView::Delete { key: pf_section(dv.port_forwards@[j].id@) },
                ),
            decreases dv.port_forwards@.len() - k,
        {
            let ghost prev = actions@;
            let a = UciAction::Delete { key: section_of(d.port_forwards[k].id.as_str()) };
            let ghost ga = a;
            actions.push(a);
            proof {
                assert(actions_view(actions@) =~= actions_view(prev).push(ga@));
                assert(actions_view(actions@) =~= host + Seq::new(
                    (k + 1) as nat,
                    |j: int| UciView::Delete { key: pf_section(dv.port_forwards@[j].id@) },
                ));
            }
            k += 1;
        }
        let ghost body = actions_view(actions@);
        let has_forwards = d.port_forwards.len() > 0;
        if d.is_static_ip || has_forwards {
            actions.push(UciAction::Commit { config: None });
            actions.push(UciAction::ReloadConfig);
            if has_forwards {
                actions.push(UciAction::ReloadFirewall);
            }
        }
        proof {
            let forwards = Seq::new(
                dv.port_forwards@.len(),
                |j: int| UciView::Delete { key: pf_section(dv.port_forwards@[j].id@) },
            );
            assert(body == host + forwards);
            let finish = if dv.is_static_ip || dv.port_forwards@.len() > 0 {
                seq![UciView::Commit { config: None }, UciView::ReloadConfig] + if dv.port_forwards@.len() > 0 {
                    seq![UciView::ReloadFirewall]
                } else {
                    Seq::empty()
                }
            } else {
                Seq::empty()
            };
            assert(actions_view(actions@) =~= body + finish);
            assert(delete_actions(dv, uuid@) == host + forwards + finish);
        }
    } else {
        proof {
            assert(actions_view(actions@) =~= Seq::<UciView>::empty());
        }
    }
    let mut config = config;
    let mut devices = Vec::new();
    std::mem::swap(&mut devices, &mut config.registered_devices);
    config.registered_devices = drop_uuid(devices, uuid);
    config.revision = config.revision.saturating_add(1);
    (config, actions)
}


/// The port forwards without those with identifier `id`.
pub open spec fn without_forward(pfs: Seq<PortForward>, id: Seq<char>) -> Seq<PortForward> {
    pfs.filter(|p: PortForward| p.id@ != id)
}

fn drop_forward(forwards: Vec<PortForward>, id: &str) -> (r: Vec<PortForward>)
    ensures
        r@ == without_forward(forwards@, id@),
{
    let ghost all = forwards@;
    let mut rest = forwards;
    let mut kept: Vec<PortForward> = Vec::new();
    let n = rest.len();
    let mut i: usize = 0;
    while rest.len() > 0
        invariant
            n == all.len(),
            i <= n,
            i + rest@.len() == n,
            rest@ == all.subrange(i as int, n as int),
            kept@ == without_forward(all.take(i as int), id@),
        decreases rest@.len(),
    {
        let p = rest.remove(0);
        proof {
            assert(all.take(i + 1) =~= all.take(i as int).push(p));
            lemma_filter_step(all.take(i as int), |x: PortForward| x.id@ != id@, p);
        }
        if !str_eq(p.id.as_str(), id) {
            kept.push(p);
        }
        i += 1;
        proof {
            assert(rest@ =~= all.subrange(i as int, n as int));
        }
    }
    proof {
        assert(all.take(n as int) =~= all);
    }
    kept
}

/// The UCI changes that create a port forward.
pub open spec fn forward_actions(pf: PortForward) -> Seq<UciView> {
    let sec = pf_section(pf.id@);
    seq![
        UciView::SetOption { key: sec, value: "redirect"@ },
        UciView::SetOption { key: sec + ".target"@, value: "DNAT"@ },
        UciView::SetOption { key: sec + ".src"@, value: "wan"@ },
        UciView::SetOption { key: sec + ".dest"@, value: "lan"@ },
        UciView::SetOption { key: sec + ".proto"@, value: pf.protocol@ },
        UciView::SetOption { key: sec + ".src_dport"@, value: decimal_spec(pf.external_port as nat) },
        UciView::SetOption { key: sec + ".dest_port"@, value: decimal_spec(pf.internal_port as nat) },
        UciView::SetOption { key: sec + ".name"@, value: pf.id@ },
        UciView::Commit { config: Some("firewall"@) },
    ]
}

fn set_option(section: &String, suffix: &str, value: String) -> (a: UciAction)
    ensures
        a@ == (UciView::SetOption { key: section@ + suffix@, value: value@ }),
{
    UciAction::SetOption { key: concat(section.as_str(), suffix), value }
}

/// Why a new port forward is refused, if it is.
pub open spec fn forward_rejection(ds: Seq<RegisteredDevice>, uuid: Seq<char>, pf: PortForward) -> Option<
    (ErrorCode, Seq<char>),
> {
    if !protocol_ok(pf.protocol@) {
        Some((ErrorCode::InvalidArgument, "Invalid protocol"@))
    } else if !port_ok(pf.external_port) || !port_ok(pf.internal_port) {
        Some((ErrorCode::InvalidArgument, "Invalid port"@))
    } else if device_index(ds, uuid) < 0 {
        Some((ErrorCode::NotFound, "Device not found"@))
    } else {
        None
    }
}

/// Adds a port forward to the device registered under `uuid`, replacing one with the same
/// identifier; the protocol must be TCP, UDP or both and the ports in range. The revision
/// advances, and the UCI changes that create the forward are returned.
pub fn add_port_forward(config: DesiredConfig, uuid: &str, pf: PortForward) -> (r: Result<
    (DesiredConfig, Vec<UciAction>),
    DomainError,
>)
    ensures
        match forward_rejection(config.registered_devices@, uuid@, pf) {
            Some((code, message)) => r matches Err(e) && is_plain_error(e, code, ErrorStage::Validate, message),
            None => r matches Ok((c, actions)) && ({
                let i = device_index(config.registered_devices@, uuid@);
                let d = config.registered_devices@[i];
                &&& c.registered_devices@ == config.registered_devices@.update(
                    i,
                    RegisteredDevice {
                        port_forwards: c.registered_devices@[i].port_forwards,
                        ..d
                    },
                )
                &&& c.registered_devices@[i].port_forwards@ == without_forward(d.port_forwards@, pf.id@).push(pf)
                &&& c == (DesiredConfig {
                    registered_devices: c.registered_devices,
                    revision: next_revision(config.revision),
                    ..config
                })
                &&& actions_view(actions@) == forward_actions(pf)
            }),
        },
{
    let protocol = to_lowercase(pf.protocol.as_str());
    if !is_known_protocol(protocol.as_str()) {
        return Err(DomainError::from_message(ErrorCode::InvalidArgument, ErrorStage::Validate, "Invalid protocol"));
    }
    if pf.external_port == 0 || pf.internal_port == 0 || pf.external_port > 65535 || pf.internal_port > 65535 {
        return Err(DomainError::from_message(ErrorCode::InvalidArgument, ErrorStage::Validate, "Invalid port"));
    }
    let pos = match find_device(&config.registered_devices, uuid) {
        Some(i) => i,
        None => {
            return Err(DomainError::from_message(ErrorCode::NotFound, ErrorStage::Validate, "Device not found"));
        },
    };
    let sec = section_of(pf.id.as_str());
    let mut actions: Vec<UciAction> = Vec::new();
    actions.push(UciAction::SetOption { key: sec.clone(), value: String::from_str("redirect") });
    actions.push(set_option(&sec, ".target", String::from_str("DNAT")));
    actions.push(set_option(&sec, ".src", String::from_str("wan")));
    actions.push(set_option(&sec, ".dest", String::from_str("lan")));
    actions.push(set_option(&sec, ".proto", pf.protocol.clone()));
    actions.push(set_option(&sec, ".src_dport", decimal(pf.external_port as u64)));
    actions.push(set_option(&sec, ".dest_port", decimal(pf.internal_port as u64)));
    actions.push(set_option(&sec, ".name", pf.id.clone()));
    actions.push(UciAction::Commit { config: Some(String::from_str("firewall")) });
    proof {
        reveal_strlit("redirect");
        reveal_strlit("DNAT");
        reveal_strlit("wan");
        reveal_strlit("lan");
        reveal_strlit("firewall");
        assert(actions_view(actions@) =~= forward_actions(pf));
    }
    let mut config = config;
    let mut devices = Vec::new();
    std::mem::swap(&mut devices, &mut config.registered_devices);
    let ghost before = devices@;
    let mut device = devices.remove(pos);
    let ghost d = device;
    let mut forwards = Vec::new();
    std::mem::swap(&mut forwards, &mut device.port_forwards);
    let mut kept = drop_forward(forwards, pf.id.as_str());
    kept.push(pf);
    device.port_forwards = kept;
    devices.insert(pos, device);
    proof {
        assert(devices@ =~= before.update(pos as int, RegisteredDevice { port_forwards: devices@[pos as int].port_forwards, ..d }));
    }
    config.registered_devices = devices;
    config.revision = config.revision.saturating_add(1);
    Ok((config, actions))
}

/// Why removing a port forward is refused, if it is: an unknown device, or a device without a
/// forward with that identifier.
pub open spec fn unforward_rejection(ds: Seq<RegisteredDevice>, uuid: Seq<char>, id: Seq<char>) -> Option<Seq<char>> {
    let i = device_index(ds, uuid);
    if i < 0 {
        Some("Device not found"@)
    } else if without_forward(ds[i].port_forwards@, id) == ds[i].port_forwards@ {
        Some("Port forward not found"@)
    } else {
        None
    }
}

/// The UCI changes that delete a port forward.
pub open spec fn unforward_actions(id: Seq<char>) -> Seq<UciView> {
    seq![UciView::Delete { key: pf_section(id) }, UciView::Commit { config: Some("firewall"@) }, UciView::ReloadFirewall]
}

/// Removes the port forwards with identifier `pf_id` from the device registered under `uuid`.
/// An unknown device or forward is not found and changes nothing; otherwise the revision
/// advances and the UCI changes that delete the forward are returned.
pub fn remove_port_forward(config: DesiredConfig, uuid: &str, pf_id: &str) -> (r: Result<
    (DesiredConfig, Vec<UciAction>),
    DomainError,
>)
    ensures
        match unforward_rejection(config.registered_devices@, uuid@, pf_id@) {
            Some(message) => r matches Err(e) && is_plain_error(e, ErrorCode::NotFound, ErrorStage::Validate, message),
            None => r matches Ok((c, actions)) && ({
                let i = device_index(config.registered_devices@, uuid@);
                let d = config.registered_devices@[i];
                &&& c.registered_devices@ == config.registered_devices@.update(
                    i,
                    RegisteredDevice {
                        port_forwards: c.registered_devices@[i].port_forwards,
                        ..d
                    },
                )
                &&& c.registered_devices@[i].port_forwards@ == without_forward(d.port_forwards@, pf_id@)
                &&& c == (DesiredConfig {
                    registered_devices: c.registered_devices,
                    revision: next_revision(config.revision),
                    ..config
                })
                &&& actions_view(actions@) == unforward_actions(pf_id@)
            }),
        },
{
    let pos = match find_device(&config.registered_devices, uuid) {
        Some(i) => i,
        None => {
            return Err(DomainError::from_message(ErrorCode::NotFound, ErrorStage::Validate, "Device not found"));
        },
    };
    let mut config = config;
    let mut devices = Vec::new();
    std::mem::swap(&mut devices, &mut config.registered_devices);
    let ghost before = devices@;
    let mut device = devices.remove(pos);
    let ghost d = device;
    let mut forwards = Vec::new();
    std::mem::swap(&mut forwards, &mut device.port_forwards);
    let old_len = forwards.len();
    let kept = drop_forward(forwards, pf_id);
    if kept.len() == old_len {
        proof {
            lemma_filter_same_len(d.port_forwards@, |p: PortForward| p.id@ != pf_id@);
        }
        return Err(DomainError::from_message(ErrorCode::NotFound, ErrorStage::Validate, "Port forward not found"));
    }
    device.port_forwards = kept;
    devices.insert(pos, device);
    proof {
        assert(devices@ =~= before.update(pos as int, RegisteredDevice { port_forwards: devices@[pos as int].port_forwards, ..d }));
    }
    config.registered_devices = devices;
    config.revision = config.revision.saturating_add(1);
    let mut actions: Vec<UciAction> = Vec::new();
    actions.push(UciAction::Delete { key: section_of(pf_id) });
    actions.push(UciAction::Commit { config: Some(String::from_str("firewall")) });
    actions.push(UciAction::ReloadFirewall);
    proof {
        reveal_strlit("firewall");
        assert(actions_view(actions@) =~= unforward_actions(pf_id@));
    }
    Ok((config, actions))
}

/// A filter that keeps every element keeps the sequence; one that drops any shortens it.
proof fn lemma_filter_same_len<A>(s: Seq<A>, p: spec_fn(A) -> bool)
    ensures
        s.filter(p).len() == s.len() <==> s.filter(p) == s,
    decreases s.len(),
{
    reveal(Seq::filter);
    if s.len() > 0 {
        lemma_filter_same_len(s.drop_last(), p);
        s.drop_last().lemma_filter_len(p);
        if s.filter(p).len() == s.len() {
            assert(s =~= s.drop_last().push(s.last()));
        }
    }
}


/// The index of the first device whose MAC address matches `mac` in lower case, or -1.
pub open spec fn device_by_mac(ds: Seq<RegisteredDevice>, mac: Seq<char>) -> int
    decreases ds.len(),
{
    if ds.len() == 0 {
        -1
    } else {
        let i = device_by_mac(ds.drop_last(), mac);
        if i >= 0 {
            i
        } else if unicode_lowercase(ds.last().mac@) == unicode_lowercase(mac) {
            ds.len() - 1
        } else {
            -1
        }
    }
}

proof fn lemma_device_by_mac(ds: Seq<RegisteredDevice>, mac: Seq<char>, k: int)
    requires
        0 <= k <= ds.len(),
        forall|j: int| 0 <= j < k ==> unicode_lowercase(#[trigger] ds[j].mac@) != unicode_lowercase(mac),
        k == ds.len() || unicode_lowercase(ds[k].mac@) == unicode_lowercase(mac),
    ensures
        device_by_mac(ds, mac) == if k == ds.len() {
            -1
        } else {
            k
        },
    decreases ds.len(),
{
    if ds.len() > 0 {
        let p = ds.drop_last();
        if k < ds.len() - 1 {
            assert forall|j: int| 0 <= j < k implies unicode_lowercase(#[trigger] p[j].mac@) != unicode_lowercase(mac) by {
                assert(p[j] == ds[j]);
            }
            assert(p[k] == ds[k]);
            lemma_device_by_mac(p, mac, k);
        } else {
            assert forall|j: int| 0 <= j < p.len() implies unicode_lowercase(#[trigger] p[j].mac@) != unicode_lowercase(mac) by {
                assert(p[j] == ds[j]);
            }
            lemma_device_by_mac(p, mac, p.len() as int);
        }
    }
}

fn find_by_mac(devices: &Vec<RegisteredDevice>, mac: &str) -> (r: Option<usize>)
    ensures
        match r {
            Some(i) => i < devices@.len() && i == device_by_mac(devices@, mac@),
            None => device_by_mac(devices@, mac@) == -1,
        },
{
    let wanted = to_lowercase(mac);
    let mut i: usize = 0;
    while i < devices.len()
        invariant
            i <= devices@.len(),
            wanted@ == unicode_lowercase(mac@),
            forall|j: int| 0 <= j < i ==> unicode_lowercase(#[trigger] devices@[j].mac@) != unicode_lowercase(mac@),
        decreases devices@.len() - i,
    {
        let lower = to_lowercase(devices[i].mac.as_str());
        if str_eq(lower.as_str(), wanted.as_str()) {
            proof {
                lemma_device_by_mac(devices@, mac@, i as int);
            }
            return Some(i);
        }
        i += 1;
    }
    proof {
        lemma_device_by_mac(devices@, mac@, i as int);
    }
    None
}

/// The UCI changes that point a device's port forwards at its new address.
pub open spec fn sync_ip_actions(pfs: Seq<PortForward>, addr: Seq<char>) -> Seq<UciView> {
    Seq::new(pfs.len(), |j: int| UciView::SetOption { key: pf_section(pfs[j].id@) + ".dest_ip"@, value: addr })
        + seq![UciView::Commit { config: Some("firewall"@) }, UciView::ReloadFirewall]
}

/// The UCI changes after a device with this MAC address got an address: its port forwards are
/// pointed at the IPv4 address, or the IPv6 one when it has no IPv4 address. Nothing changes for
/// an unknown device, one without port forwards, or without any address.
pub fn devices_sync_ip(config: &DesiredConfig, mac: &str, ip: Option<&str>, ip6: Option<&str>) -> (r: Vec<UciAction>)
    ensures
        ({
            let i = device_by_mac(config.registered_devices@, mac@);
            let dest = match ip {
                Some(a) => Some(a@),
                None => match ip6 {
                    Some(a) => Some(a@),
                    None => None,
                },
            };
            actions_view(r@) == if i >= 0 && config.registered_devices@[i].port_forwards@.len() > 0 && dest is Some {
                sync_ip_actions(config.registered_devices@[i].port_forwards@, dest->0)
            } else {
                Seq::empty()
            }
        }),
{
    let devices = &config.registered_devices;
    let found = find_by_mac(devices, mac);
    let mut actions: Vec<UciAction> = Vec::new();
    let pos = match found {
        Some(p) => p,
        None => {
            assert(actions_view(actions@) =~= Seq::<UciView>::empty());
            return actions;
        },
    };
    let pfs = &devices[pos].port_forwards;
    let addr = match ip {
        Some(a) => a,
        None => match ip6 {
            Some(a) => a,
            None => {
                assert(actions_view(actions@) =~= Seq::<UciView>::empty());
                return actions;
            },
        },
    };
    if pfs.len() == 0 {
        assert(actions_view(actions@) =~= Seq::<UciView>::empty());
        return actions;
    }
    let mut k: usize = 0;
    while k < pfs.len()
        invariant
            k <= pfs@.len(),
            actions_view(actions@) == Seq::new(
                k as nat,
                |j: int| UciView::SetOption { key: pf_section(pfs@[j].id@) + ".dest_ip"@, value: addr@ },
            ),
        decreases pfs@.len() - k,
    {
        let ghost prev = actions@;
        let sec = section_of(pfs[k].id.as_str());
        let a = set_option(&sec, ".dest_ip", String::from_str(addr));
        let ghost ga = a;
        actions.push(a);
        proof {
            assert(actions_view(actions@) =~= actions_view(prev).push(ga@));
            assert(actions_view(actions@) =~= Seq::new(
                (k + 1) as nat,
                |j: int| UciView::SetOption { key: pf_section(pfs@[j].id@) + ".dest_ip"@, value: addr@ },
            ));
        }
        k += 1;
    }
    let ghost body = actions_view(actions@);
    actions.push(UciAction::Commit { config: Some(String::from_str("firewall")) });
    actions.push(UciAction::ReloadFirewall);
    proof {
        reveal_strlit("firewall");
        assert(actions_view(actions@) =~= sync_ip_actions(pfs@, addr@));
    }
    actions
}

proof fn lemma_without_uuid_push(t: Seq<RegisteredDevice>, x: RegisteredDevice, u: Seq<char>)
    ensures
        without_uuid(t.push(x), u) == if x.uuid@ != u {
            without_uuid(t, u).push(x)
        } else {
            without_uuid(t, u)
        },
{
    reveal(Seq::filter);
    assert(t.push(x).drop_last() =~= t);
}

proof fn lemma_without_uuid_twice(s: Seq<RegisteredDevice>, u: Seq<char>)
    ensures
        without_uuid(without_uuid(s, u), u) == without_uuid(s, u),
    decreases s.len(),
{
    if s.len() == 0 {
        reveal(Seq::filter);
        assert(without_uuid(s, u) =~= Seq::<RegisteredDevice>::empty());
        assert(without_uuid(without_uuid(s, u), u) =~= Seq::<RegisteredDevice>::empty());
    } else {
        let t = s.drop_last();
        let x = s.last();
        assert(s =~= t.push(x));
        lemma_without_uuid_push(t, x, u);
        lemma_without_uuid_twice(t, u);
        if x.uuid@ != u {
            lemma_without_uuid_push(without_uuid(t, u), x, u);
        }
    }
}

/// Registering a device replaces whatever was registered under its UUID: deleting it right
/// afterwards leaves exactly the other devices, and registering again under the same UUID keeps
/// a single entry for it, the newer one.
pub proof fn lemma_register_replaces(s: Seq<RegisteredDevice>, d: RegisteredDevice, e: RegisteredDevice)
    requires
        e.uuid@ == d.uuid@,
    ensures
        without_uuid(without_uuid(s, d.uuid@).push(d), d.uuid@) == without_uuid(s, d.uuid@),
        without_uuid(without_uuid(s, d.uuid@).push(d), e.uuid@).push(e) == without_uuid(s, d.uuid@).push(e),
{
    let u = d.uuid@;
    lemma_without_uuid_push(without_uuid(s, u), d, u);
    lemma_without_uuid_twice(s, u);
}


/// Two registered devices hold the same values.
pub open spec fn same_device(a: RegisteredDevice, b: RegisteredDevice) -> bool {
    &&& a.uuid == b.uuid
    &&& a.mac == b.mac
    &&& a.name == b.name
    &&& a.is_static_ip == b.is_static_ip
    &&& a.port_forwards@ == b.port_forwards@
}

fn copy_forwards(v: &Vec<PortForward>) -> (r: Vec<PortForward>)
    ensures
        r@ == v@,
{
    let mut out: Vec<PortForward> = Vec::new();
    let mut i: usize = 0;
    while i < v.len()
        invariant
            i <= v@.len(),
            out@ == v@.take(i as int),
        decreases v@.len() - i,
    {
        let p = &v[i];
        out.push(
            PortForward {
                id: p.id.clone(),
                protocol: p.protocol.clone(),
                external_port: p.external_port,
                internal_port: p.internal_port,
            },
        );
        assert(out@ =~= v@.take(i + 1));
        i += 1;
    }
    assert(v@.take(v@.len() as int) =~= v@);
    out
}

/// A copy of a list of registered devices.
pub fn copy_devices(v: &Vec<RegisteredDevice>) -> (r: Vec<RegisteredDevice>)
    ensures
        r@.len() == v@.len(),
        forall|i: int| 0 <= i < v@.len() ==> same_device(#[trigger] r@[i], v@[i]),
{
    let mut out: Vec<RegisteredDevice> = Vec::new();
    let mut i: usize = 0;
    while i < v.len()
        invariant
            i <= v@.len(),
            out@.len() == i,
            forall|j: int| 0 <= j < i ==> same_device(#[trigger] out@[j], v@[j]),
        decreases v@.len() - i,
    {
        let d = &v[i];
        out.push(
            RegisteredDevice {
                uuid: d.uuid.clone(),
                mac: d.mac.clone(),
                name: d.name.clone(),
                is_static_ip: d.is_static_ip,
                port_forwards: copy_forwards(&d.port_forwards),
            },
        );
        i += 1;
    }
    out
}

} // verus!
