//! The state of the control plane: desired configuration, observations and health.

use vstd::prelude::*;
use vstd::string::*;

use crate::ddns::{DdnsConfig, DdnsStatus};
use crate::dns::DnsConfig;
use crate::errors::{DomainError, opt_str_view};
use crate::operation::{LastOperation, Lifecycle, PublicOperation, STATE_SCHEMA_VERSION};
use crate::text::{clone_opt_str, clone_strs, opt_str_eq, strs_eq, strs_view};
use crate::wan::{WanDesired, WanProtocol};
use crate::wifi::{MeshBackhaulConfig, RadioChannelConfig, WifiNetworkConfig, WifiView};

verus! {

/// The health of one component.
#[derive(Debug, Clone, Copy, PartialEq, Eq, Structural)]
pub enum HealthLevel {
    Healthy,
    Failing,
    Unknown,
}

/// The health of the core and the services it depends on.
#[derive(Debug, Clone, Copy, PartialEq, Eq, Structural)]
pub struct HealthState {
    pub core: HealthLevel,
    pub ubus: HealthLevel,
    pub rpcd: HealthLevel,
    pub wireless: HealthLevel,
    pub wan: HealthLevel,
}

/// The link state of the WAN interface.
#[derive(Debug, Clone, Copy, PartialEq, Eq, Structural)]
pub enum WanStatus {
    Connected,
    Connecting,
    Disconnected,
    NotConfigured,
}

/// The observed state of the WAN interface.
#[derive(Debug, Clone)]
pub struct WanPublicState {
    pub present: bool,
    pub proto: WanProtocol,
    pub status: WanStatus,
    pub device: Option<String>,
    pub ip_address: Option<String>,
    pub netmask: Option<String>,
    pub gateway: Option<String>,
    pub dns: Vec<String>,
    pub mac_address: Option<String>,
    pub uptime_secs: u64,
    pub error_reason: Option<String>,
}

pub struct WanPublicView {
    pub present: bool,
    pub proto: WanProtocol,
    pub status: WanStatus,
    pub device: Option<Seq<char>>,
    pub ip_address: Option<Seq<char>>,
    pub netmask: Option<Seq<char>>,
    pub gateway: Option<Seq<char>>,
    pub dns: Seq<Seq<char>>,
    pub mac_address: Option<Seq<char>>,
    pub uptime_secs: u64,
    pub error_reason: Option<Seq<char>>,
}

impl View for WanPublicState {
    type V = WanPublicView;

    open spec fn view(&self) -> WanPublicView {
        WanPublicView {
            present: self.present,
            proto: self.proto,
            status: self.status,
            device: opt_str_view(self.device),
            ip_address: opt_str_view(self.ip_address),
            netmask: opt_str_view(self.netmask),
            gateway: opt_str_view(self.gateway),
            dns: strs_view(self.dns@),
            mac_address: opt_str_view(self.mac_address),
            uptime_secs: self.uptime_secs,
            error_reason: opt_str_view(self.error_reason),
        }
    }
}

impl WanPublicState {
    /// Nothing observed: no WAN configured.
    pub fn unknown() -> (r: WanPublicState)
        ensures
            !r.present,
            r.proto == WanProtocol::Disabled,
            r.status == WanStatus::NotConfigured,
            r.device is None && r.ip_address is None && r.netmask is None && r.gateway is None,
            r.dns@.len() == 0,
            r.mac_address is None,
            r.uptime_secs == 0,
            r.error_reason is None,
    {
        WanPublicState {
            present: false,
            proto: WanProtocol::Disabled,
            status: WanStatus::NotConfigured,
            device: None,
            ip_address: None,
            netmask: None,
            gateway: None,
            dns: Vec::new(),
            mac_address: None,
            uptime_secs: 0,
            error_reason: None,
        }
    }

    pub fn copy(&self) -> (r: WanPublicState)
        ensures
            r@ == self@,
    {
        WanPublicState {
            present: self.present,
            proto: self.proto,
            status: self.status,
            device: clone_opt_str(&self.device),
            ip_address: clone_opt_str(&self.ip_address),
            netmask: clone_opt_str(&self.netmask),
            gateway: clone_opt_str(&self.gateway),
            dns: clone_strs(&self.dns),
            mac_address: clone_opt_str(&self.mac_address),
            uptime_secs: self.uptime_secs,
            error_reason: clone_opt_str(&self.error_reason),
        }
    }

    /// Equality by content.
    pub fn same_as(&self, other: &WanPublicState) -> (r: bool)
        ensures
            r == (self@ == other@),
    {
        self.present == other.present && self.proto == other.proto && self.status == other.status
            && opt_str_eq(&self.device, &other.device) && opt_str_eq(
            &self.ip_address,
            &other.ip_address,
        ) && opt_str_eq(&self.netmask, &other.netmask) && opt_str_eq(&self.gateway, &other.gateway)
            && strs_eq(&self.dns, &other.dns) && opt_str_eq(&self.mac_address, &other.mac_address)
            && self.uptime_secs == other.uptime_secs && opt_str_eq(
            &self.error_reason,
            &other.error_reason,
        )
    }
}

/// The configuration observed on one radio.
#[derive(Debug, Clone)]
pub struct ObservedEntry {
    pub target: String,
    pub config: WifiNetworkConfig,
}

/// The Wi-Fi configuration observed per radio. Later entries for a radio replace earlier ones.
#[derive(Debug, Clone)]
pub struct ObservedConfigs {
    pub entries: Vec<ObservedEntry>,
}

/// The map from radio to observed configuration that a list of entries denotes.
pub open spec fn entries_map(es: Seq<ObservedEntry>) -> Map<Seq<char>, WifiView>
    decreases es.len(),
{
    if es.len() == 0 {
        Map::empty()
    } else {
        entries_map(es.drop_last()).insert(es.last().target@, es.last().config@)
    }
}

impl View for ObservedConfigs {
    type V = Map<Seq<char>, WifiView>;

    open spec fn view(&self) -> Map<Seq<char>, WifiView> {
        entries_map(self.entries@)
    }
}

pub proof fn lemma_entries_map_empty(es: Seq<ObservedEntry>)
    ensures
        entries_map(es).dom().len() == 0 <==> es.len() == 0,
        entries_map(es).dom().finite(),
    decreases es.len(),
{
    if es.len() > 0 {
        lemma_entries_map_empty(es.drop_last());
        assert(entries_map(es).dom().contains(es.last().target@));
        vstd::set::axiom_set_contains_len(entries_map(es).dom(), es.last().target@);
    }
}

impl ObservedConfigs {
    pub fn new() -> (r: ObservedConfigs)
        ensures
            r@ == Map::<Seq<char>, WifiView>::empty(),
            r.entries@.len() == 0,
    {
        ObservedConfigs { entries: Vec::new() }
    }

    /// Records the configuration observed on `target`.
    pub fn insert(&mut self, target: String, config: WifiNetworkConfig)
        ensures
            final(self)@ == old(self)@.insert(target@, config@),
    {
        self.entries.push(ObservedEntry { target, config });
        assert(self.entries@.drop_last() =~= old(self).entries@);
    }

    pub fn is_empty(&self) -> (r: bool)
        ensures
            r == (self@.dom().len() == 0),
    {
        proof {
            lemma_entries_map_empty(self.entries@);
        }
        self.entries.len() == 0
    }

    /// The configuration observed on `target`.
    pub fn get(&self, target: &String) -> (r: Option<&WifiNetworkConfig>)
        ensures
            match r {
                Some(c) => self@.contains_key(target@) && self@[target@] == c@,
                None => !self@.contains_key(target@),
            },
    {
        let mut i = self.entries.len();
        while i > 0
            invariant
                i <= self.entries.len(),
                forall|j: int| i <= j < self.entries@.len() ==> #[trigger] self.entries@[j].target@ != target@,
            decreases i,
        {
            let e = &self.entries[i - 1];
            if e.target == *target {
                proof {
                    lemma_map_skip_suffix(self.entries@, i as int, target@);
                    assert(self.entries@.take(i as int).drop_last() =~= self.entries@.take(i - 1));
                }
                return Some(&e.config);
            }
            i -= 1;
        }
        proof {
            lemma_map_skip_suffix(self.entries@, 0, target@);
            assert(self.entries@.take(0) =~= Seq::<ObservedEntry>::empty());
        }
        None
    }
}

/// Entries after position `i` that are about other radios do not change what `k` maps to.
proof fn lemma_map_skip_suffix(es: Seq<ObservedEntry>, i: int, k: Seq<char>)
    requires
        0 <= i <= es.len(),
        forall|j: int| i <= j < es.len() ==> #[trigger] es[j].target@ != k,
    ensures
        entries_map(es).contains_key(k) == entries_map(es.take(i)).contains_key(k),
        entries_map(es).contains_key(k) ==> entries_map(es)[k] == entries_map(es.take(i))[k],
    decreases es.len() - i,
{
    if i < es.len() {
        let p = es.drop_last();
        assert forall|j: int| i <= j < p.len() implies #[trigger] p[j].target@ != k by {
            assert(p[j] == es[j]);
        }
        lemma_map_skip_suffix(p, i, k);
        assert(p.take(i) =~= es.take(i));
    } else {
        assert(es.take(i) =~= es);
    }
}

} // verus!

verus! {

/// The Wi-Fi part of the desired configuration.
#[derive(Debug, Clone)]
pub struct WifiDesired {
    pub primary: WifiNetworkConfig,
    pub backhaul: Option<MeshBackhaulConfig>,
    pub radio_channels: Vec<RadioChannelConfig>,
}

/// The durable desired configuration of the router.
#[derive(Debug, Clone)]
pub struct DesiredConfig {
    pub schema_version: u32,
    pub revision: u64,
    pub wifi: WifiDesired,
    pub wan: WanDesired,
    pub dns: DnsConfig,
    pub ddns: DdnsConfig,
    pub extenders: Vec<crate::mesh::KnownExtender>,
    pub extender_auth_token: Option<String>,
    pub registered_devices: Vec<crate::devices::RegisteredDevice>,
}

impl DesiredConfig {
    /// The configuration discovered on first boot: the current primary network and WAN.
    pub fn new(primary: WifiNetworkConfig, wan: WanDesired) -> (r: DesiredConfig)
        ensures
            r.schema_version == STATE_SCHEMA_VERSION,
            r.revision == 1,
            r.wifi.primary == primary,
            r.wifi.backhaul is None,
            r.wifi.radio_channels@.len() == 0,
            r.wan == wan,
            !r.ddns.enabled,
            r.extenders@.len() == 0,
            r.extender_auth_token is None,
            r.registered_devices@.len() == 0,
    {
        DesiredConfig {
            schema_version: STATE_SCHEMA_VERSION,
            revision: 1,
            wifi: WifiDesired { primary, backhaul: None, radio_channels: Vec::new() },
            wan,
            dns: DnsConfig::stock(),
            ddns: DdnsConfig::default(),
            extenders: Vec::new(),
            extender_auth_token: None,
            registered_devices: Vec::new(),
        }
    }

    /// The configuration held while nothing is known: no network, no WAN, revision 0.
    pub fn empty() -> (r: DesiredConfig)
        ensures
            r.schema_version == STATE_SCHEMA_VERSION,
            r.revision == 0,
            r.wifi.primary.ssid@.len() == 0,
            r.wifi.primary.encryption@ == "none"@,
            r.wifi.primary.key is None,
            r.wifi.primary.targets@.len() == 0,
            !r.wan.present,
    {
        let primary = WifiNetworkConfig {
            ssid: String::new(),
            encryption: String::from_str("none"),
            key: None,
            targets: Vec::new(),
        };
        let mut config = DesiredConfig::new(primary, WanDesired::disabled());
        config.revision = 0;
        config
    }
}

/// The whole mutable state of the core.
#[derive(Debug)]
pub struct CoreState {
    pub config: DesiredConfig,
    pub lifecycle: Lifecycle,
    pub maintenance: bool,
    pub maintenance_exiting: bool,
    pub maintenance_reason: Option<String>,
    pub observed_configs: ObservedConfigs,
    pub runtime_healthy: bool,
    pub wan: WanPublicState,
    pub active_operation: Option<PublicOperation>,
    pub last_user_operation: Option<LastOperation>,
    pub last_system_error: Option<DomainError>,
    pub event_seq: u64,
    pub boot_id: String,
    pub health: HealthState,
    pub repair_failures: u8,
    pub ddns_status: DdnsStatus,
    pub pending_extenders: Vec<crate::mesh::PendingExtender>,
    pub extender_pairing_status: String,
    pub traffic: crate::traffic::TrafficState,
}

/// How many failed repairs in a row put the core into `Degraded`.
pub const MAX_REPAIR_FAILURES: u8 = 3;

impl CoreState {
    /// The state right after start-up, before the first observation.
    pub fn initial(
        config: DesiredConfig,
        lifecycle: Lifecycle,
        startup_error: Option<DomainError>,
        boot_id: String,
        wan: WanPublicState,
    ) -> (r: CoreState)
        ensures
            r.config == config,
            r.lifecycle == lifecycle,
            !r.maintenance,
            !r.maintenance_exiting,
            r.maintenance_reason is None,
            r.observed_configs@ == Map::<Seq<char>, WifiView>::empty(),
            !r.runtime_healthy,
            r.wan == wan,
            r.active_operation is None,
            r.last_user_operation is None,
            r.last_system_error == startup_error,
            r.event_seq == 0,
            r.boot_id == boot_id,
            r.health == (HealthState {
                core: if lifecycle == Lifecycle::Degraded {
                    HealthLevel::Failing
                } else {
                    HealthLevel::Healthy
                },
                ubus: HealthLevel::Healthy,
                rpcd: HealthLevel::Healthy,
                wireless: HealthLevel::Unknown,
                wan: HealthLevel::Healthy,
            }),
            r.repair_failures == 0,
            r.pending_extenders@.len() == 0,
            r.extender_pairing_status@ == "idle"@,
            crate::traffic::is_fresh_source(r.traffic.wan),
            crate::traffic::is_fresh_source(r.traffic.lan.source),
            crate::traffic::is_fresh_source(r.traffic.all),
            !r.traffic.lan.hw_offload_enabled,
    {
        let core = if lifecycle == Lifecycle::Degraded {
            HealthLevel::Failing
        } else {
            HealthLevel::Healthy
        };
        CoreState {
            config,
            lifecycle,
            maintenance: false,
            maintenance_exiting: false,
            maintenance_reason: None,
            observed_configs: ObservedConfigs::new(),
            runtime_healthy: false,
            wan,
            active_operation: None,
            last_user_operation: None,
            last_system_error: startup_error,
            event_seq: 0,
            boot_id,
            health: HealthState {
                core,
                ubus: HealthLevel::Healthy,
                rpcd: HealthLevel::Healthy,
                wireless: HealthLevel::Unknown,
                wan: HealthLevel::Healthy,
            },
            repair_failures: 0,
            ddns_status: DdnsStatus::default(),
            pending_extenders: Vec::new(),
            extender_pairing_status: String::from_str("idle"),
            traffic: crate::traffic::TrafficState::new(),
        }
    }
}

} // verus!
