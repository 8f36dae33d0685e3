//! The published view of the core's state: what drifted from the desired configuration and the
//! resulting Wi-Fi status.

use vstd::prelude::*;
use vstd::string::*;

use crate::errors::{DomainError, ErrorView, copy_opt_err, opt_err_view, opt_str_view};
use crate::operation::{
    IntentView, LastOperation, Lifecycle, OperationSource, OperationStatus, PublicOperation,
    opt_intent_view,
};
use crate::state::{CoreState, HealthState, WanPublicState};
use crate::text::{clone_opt_str, clone_strs, concat3, strs_view};
use crate::wifi::WifiView;

verus! {

/// How the Wi-Fi network stands against the desired configuration.
#[derive(Debug, Clone, Copy, PartialEq, Eq, Structural)]
pub enum WifiStatus {
    /// A change is in progress.
    Applying,
    /// Some radio differs from the desired configuration.
    Drifted,
    /// Nothing has been observed yet.
    Unknown,
    /// Every radio carries the desired configuration.
    Synced,
}

/// The fields that differ from the desired configuration.
#[derive(Debug, Clone)]
pub struct DriftState {
    pub detected: bool,
    pub fields: Vec<String>,
}

/// Whether the core is in maintenance mode.
#[derive(Debug, Clone)]
pub struct MaintenanceState {
    pub enabled: bool,
    pub exiting: bool,
    pub reason: Option<String>,
}

/// The published Wi-Fi state.
#[derive(Debug, Clone)]
pub struct WifiPublicState {
    pub ssid: String,
    pub encryption: String,
    pub key: Option<String>,
    pub targets: Vec<String>,
    /// The SSID observed on each managed radio that reported one.
    pub observed: Vec<(String, String)>,
    pub status: WifiStatus,
    pub backhaul: Option<crate::wifi::MeshBackhaulConfig>,
    pub radio_channels: Vec<crate::wifi::RadioChannelConfig>,
}

/// The state the core publishes to its clients.
#[derive(Debug)]
pub struct PublicState {
    pub core_version: String,
    pub boot_id: String,
    pub event_seq: u64,
    pub revision: u64,
    pub lifecycle: Lifecycle,
    pub maintenance: MaintenanceState,
    pub wifi: WifiPublicState,
    pub wan: WanPublicState,
    pub active_operation: Option<PublicOperation>,
    pub last_user_operation: Option<LastOperation>,
    pub last_system_error: Option<DomainError>,
    pub drift: DriftState,
    pub health: HealthState,
    pub registered_devices: Vec<crate::devices::RegisteredDevice>,
    pub dns: crate::dns::DnsConfig,
    pub traffic: crate::traffic::TrafficState,
    pub ddns_config: crate::ddns::DdnsConfig,
    pub ddns_status: crate::ddns::DdnsStatus,
    pub pending_extenders: Vec<crate::mesh::PendingExtender>,
    pub extender_pairing_status: String,
}

/// The name of a drifted field of a radio.
pub open spec fn target_field(t: Seq<char>, field: Seq<char>) -> Seq<char> {
    "wifi.primary.targets."@ + t + field
}

/// The drifted fields of one radio: the SSID alone when nothing was observed on it, otherwise
/// each of SSID, encryption and key that differs.
pub open spec fn target_drift(t: Seq<char>, obs: Map<Seq<char>, WifiView>, d: WifiView) -> Seq<Seq<char>> {
    if obs.contains_key(t) {
        (if obs[t].ssid != d.ssid {
            seq![target_field(t, ".ssid"@)]
        } else {
            Seq::empty()
        }) + (if obs[t].encryption != d.encryption {
            seq![target_field(t, ".encryption"@)]
        } else {
            Seq::empty()
        }) + (if obs[t].key != d.key {
            seq![target_field(t, ".key"@)]
        } else {
            Seq::empty()
        })
    } else {
        seq![target_field(t, ".ssid"@)]
    }
}

/// The drifted fields of the radios, in radio order.
pub open spec fn targets_drift(ts: Seq<Seq<char>>, obs: Map<Seq<char>, WifiView>, d: WifiView) -> Seq<Seq<char>>
    decreases ts.len(),
{
    if ts.len() == 0 {
        Seq::empty()
    } else {
        targets_drift(ts.drop_last(), obs, d) + target_drift(ts.last(), obs, d)
    }
}

/// All drifted fields: those of the radios, then the runtime when it is unhealthy while radios
/// are managed.
pub open spec fn drift_spec(s: CoreState) -> Seq<Seq<char>> {
    let d = s.config.wifi.primary@;
    targets_drift(d.targets, s.observed_configs@, d) + if !s.runtime_healthy && d.targets.len() > 0 {
        seq!["wifi.primary.runtime"@]
    } else {
        Seq::empty()
    }
}

/// The Wi-Fi status: applying while an operation runs, then drifted, unknown before any
/// observation, synced otherwise.
pub open spec fn wifi_status_spec(s: CoreState) -> WifiStatus {
    if s.active_operation is Some {
        WifiStatus::Applying
    } else if drift_spec(s).len() > 0 {
        WifiStatus::Drifted
    } else if s.observed_configs@.dom().len() == 0 {
        WifiStatus::Unknown
    } else {
        WifiStatus::Synced
    }
}

fn push_field(out: &mut Vec<String>, t: &str, field: &str)
    ensures
        final(out)@.len() == old(out)@.len() + 1,
        strs_view(final(out)@) == strs_view(old(out)@).push(target_field(t@, field@)),
{
    out.push(concat3("wifi.primary.targets.", t, field));
    assert(strs_view(out@) =~= strs_view(old(out)@).push(target_field(t@, field@)));
}

/// The drifted fields of the state, in the published order.
pub fn drift_fields(state: &CoreState) -> (r: Vec<String>)
    ensures
        strs_view(r@) == drift_spec(*state),
{
    let desired = &state.config.wifi.primary;
    let ghost d = desired@;
    let ghost obs = state.observed_configs@;
    let mut out: Vec<String> = Vec::new();
    let mut i: usize = 0;
    while i < desired.targets.len()
        invariant
            i <= desired.targets@.len(),
            d == desired@,
            obs == state.observed_configs@,
            desired == &state.config.wifi.primary,
            strs_view(out@) == targets_drift(d.targets.take(i as int), obs, d),
        decreases desired.targets@.len() - i,
    {
        let t = &desired.targets[i];
        let ghost before = strs_view(out@);
        proof {
            assert(d.targets.take(i + 1).drop_last() =~= d.targets.take(i as int));
            assert(d.targets.take(i + 1).last() == t@);
        }
        match state.observed_configs.get(t) {
            Some(obs_cfg) => {
                if obs_cfg.ssid != desired.ssid {
                    push_field(&mut out, t.as_str(), ".ssid");
                }
                let ghost after_ssid = strs_view(out@);
                if obs_cfg.encryption != desired.encryption {
                    push_field(&mut out, t.as_str(), ".encryption");
                }
                let ghost after_enc = strs_view(out@);
                if !crate::text::opt_str_eq(&obs_cfg.key, &desired.key) {
                    push_field(&mut out, t.as_str(), ".key");
                }
                proof {
                    reveal_strlit(".ssid");
                    reveal_strlit(".encryption");
                    reveal_strlit(".key");
                    assert(strs_view(out@) =~= before + target_drift(t@, obs, d));
                }
            },
            None => {
                push_field(&mut out, t.as_str(), ".ssid");
                proof {
                    assert(strs_view(out@) =~= before + target_drift(t@, obs, d));
                }
            },
        }
        i += 1;
    }
    proof {
        assert(d.targets.take(desired.targets@.len() as int) =~= d.targets);
    }
    if !state.runtime_healthy && desired.targets.len() > 0 {
        out.push(String::from_str("wifi.primary.runtime"));
    }
    proof {
        assert(strs_view(out@) =~= drift_spec(*state));
    }
    out
}

/// The Wi-Fi status given the drifted fields.
pub fn wifi_status(state: &CoreState, drifted: bool) -> (r: WifiStatus)
    requires
        drifted == (drift_spec(*state).len() > 0),
    ensures
        r == wifi_status_spec(*state),
{
    if state.active_operation.is_some() {
        WifiStatus::Applying
    } else if drifted {
        WifiStatus::Drifted
    } else if state.observed_configs.is_empty() {
        WifiStatus::Unknown
    } else {
        WifiStatus::Synced
    }
}


/// The SSID observed on each managed radio that reported one, in radio order.
pub open spec fn observed_ssids(ts: Seq<Seq<char>>, obs: Map<Seq<char>, WifiView>) -> Seq<(Seq<char>, Seq<char>)>
    decreases ts.len(),
{
    if ts.len() == 0 {
        Seq::empty()
    } else {
        observed_ssids(ts.drop_last(), obs) + if obs.contains_key(ts.last()) {
            seq![(ts.last(), obs[ts.last()].ssid)]
        } else {
            Seq::empty()
        }
    }
}

/// The views of a list of string pairs.
pub open spec fn pairs_view(v: Seq<(String, String)>) -> Seq<(Seq<char>, Seq<char>)> {
    v.map_values(|p: (String, String)| (p.0@, p.1@))
}

fn observed_list(state: &CoreState) -> (r: Vec<(String, String)>)
    ensures
        pairs_view(r@) == observed_ssids(state.config.wifi.primary@.targets, state.observed_configs@),
{
    let targets = &state.config.wifi.primary.targets;
    let ghost ts = state.config.wifi.primary@.targets;
    let mut out: Vec<(String, String)> = Vec::new();
    let mut i: usize = 0;
    while i < targets.len()
        invariant
            i <= targets@.len(),
            targets == &state.config.wifi.primary.targets,
            ts == strs_view(targets@),
            pairs_view(out@) == observed_ssids(ts.take(i as int), state.observed_configs@),
        decreases targets@.len() - i,
    {
        proof {
            assert(ts.take(i + 1).drop_last() =~= ts.take(i as int));
            assert(ts.take(i + 1).last() == targets@[i as int]@);
        }
        let ghost before = pairs_view(out@);
        match state.observed_configs.get(&targets[i]) {
            Some(c) => {
                out.push((targets[i].clone(), c.ssid.clone()));
            },
            None => {},
        }
        proof {
            assert(pairs_view(out@) =~= observed_ssids(ts.take(i + 1), state.observed_configs@));
        }
        i += 1;
    }
    proof {
        assert(ts.take(targets@.len() as int) =~= ts);
    }
    out
}

/// The state published to clients: the desired Wi-Fi settings with what was observed, the drift
/// and the resulting status, and the rest of the core's state as it stands.
pub fn snapshot(state: &CoreState, core_version: &str) -> (r: PublicState)
    ensures
        r.core_version@ == core_version@,
        r.boot_id@ == state.boot_id@,
        r.event_seq == state.event_seq,
        r.revision == state.config.revision,
        r.lifecycle == state.lifecycle,
        r.maintenance.enabled == state.maintenance,
        r.maintenance.exiting == state.maintenance_exiting,
        opt_str_view(r.maintenance.reason) == opt_str_view(state.maintenance_reason),
        r.wifi.ssid@ == state.config.wifi.primary.ssid@,
        r.wifi.encryption@ == state.config.wifi.primary.encryption@,
        opt_str_view(r.wifi.key) == opt_str_view(state.config.wifi.primary.key),
        strs_view(r.wifi.targets@) == state.config.wifi.primary@.targets,
        pairs_view(r.wifi.observed@) == observed_ssids(state.config.wifi.primary@.targets, state.observed_configs@),
        r.wifi.status == wifi_status_spec(*state),
        r.wan@ == state.wan@,
        r.active_operation is Some == state.active_operation is Some,
        r.active_operation matches Some(a) ==> crate::operation::same_public_op(a, state.active_operation->0),
        r.last_user_operation is Some == state.last_user_operation is Some,
        r.last_user_operation matches Some(l) ==> crate::operation::same_last_op(l, state.last_user_operation->0),
        opt_err_view(r.last_system_error) == opt_err_view(state.last_system_error),
        strs_view(r.drift.fields@) == drift_spec(*state),
        r.drift.detected == (drift_spec(*state).len() > 0),
        r.health == state.health,
        r.wifi.backhaul == state.config.wifi.backhaul,
        r.wifi.radio_channels@ == state.config.wifi.radio_channels@,
        r.registered_devices@.len() == state.config.registered_devices@.len(),
        forall|i: int|
            0 <= i < state.config.registered_devices@.len() ==> crate::devices::same_device(
                #[trigger] r.registered_devices@[i],
                state.config.registered_devices@[i],
            ),
        crate::dns::same_dns(r.dns, state.config.dns),
        crate::traffic::same_traffic(r.traffic, state.traffic),
        crate::ddns::ddns_view(r.ddns_config) == crate::ddns::ddns_view(state.config.ddns),
        r.ddns_status == state.ddns_status,
        r.pending_extenders@ == state.pending_extenders@,
        r.extender_pairing_status == state.extender_pairing_status,
{
    let fields = drift_fields(state);
    let drifted = fields.len() > 0;
    let status = wifi_status(state, drifted);
    let desired = &state.config.wifi.primary;
    PublicState {
        core_version: String::from_str(core_version),
        boot_id: state.boot_id.clone(),
        event_seq: state.event_seq,
        revision: state.config.revision,
        lifecycle: state.lifecycle,
        maintenance: MaintenanceState {
            enabled: state.maintenance,
            exiting: state.maintenance_exiting,
            reason: clone_opt_str(&state.maintenance_reason),
        },
        wifi: WifiPublicState {
            ssid: desired.ssid.clone(),
            encryption: desired.encryption.clone(),
            key: clone_opt_str(&desired.key),
            targets: clone_strs(&desired.targets),
            observed: observed_list(state),
            status,
            backhaul: match &state.config.wifi.backhaul {
                Some(b) => Some(
                    crate::wifi::MeshBackhaulConfig {
                        enabled: b.enabled,
                        backhaul_target: b.backhaul_target.clone(),
                        client_target: b.client_target.clone(),
                        hidden: b.hidden,
                    },
                ),
                None => None,
            },
            radio_channels: crate::reconcile::copy_channels(&state.config.wifi.radio_channels),
        },
        wan: state.wan.copy(),
        active_operation: match &state.active_operation {
            Some(a) => Some(a.copy()),
            None => None,
        },
        last_user_operation: match &state.last_user_operation {
            Some(l) => Some(l.copy()),
            None => None,
        },
        last_system_error: copy_opt_err(&state.last_system_error),
        drift: DriftState { detected: drifted, fields },
        health: state.health,
        registered_devices: crate::devices::copy_devices(&state.config.registered_devices),
        dns: crate::dns::copy_dns_config(&state.config.dns),
        traffic: crate::traffic::copy_traffic(&state.traffic),
        ddns_config: crate::ddns::copy_ddns_config(&state.config.ddns),
        ddns_status: crate::ddns::copy_ddns_status(&state.ddns_status),
        pending_extenders: crate::mesh::copy_pending(&state.pending_extenders),
        extender_pairing_status: state.extender_pairing_status.clone(),
    }
}


proof fn lemma_target_drift_empty(t: Seq<char>, obs: Map<Seq<char>, WifiView>, d: WifiView)
    ensures
        target_drift(t, obs, d).len() == 0 <==> obs.contains_key(t) && crate::wifi::same_settings(obs[t], d),
{
}

proof fn lemma_targets_drift_empty(ts: Seq<Seq<char>>, obs: Map<Seq<char>, WifiView>, d: WifiView)
    ensures
        targets_drift(ts, obs, d).len() == 0 <==> (forall|i: int| 0 <= i < ts.len() ==> obs.contains_key(#[trigger] ts[i])
            && crate::wifi::same_settings(obs[ts[i]], d)),
    decreases ts.len(),
{
    if ts.len() > 0 {
        let p = ts.drop_last();
        lemma_targets_drift_empty(p, obs, d);
        lemma_target_drift_empty(ts.last(), obs, d);
        assert forall|i: int| 0 <= i < p.len() implies #[trigger] p[i] == ts[i] by {}
        if targets_drift(ts, obs, d).len() == 0 {
            assert forall|i: int| 0 <= i < ts.len() implies obs.contains_key(#[trigger] ts[i])
                && crate::wifi::same_settings(obs[ts[i]], d) by {
                if i < p.len() {
                    assert(p[i] == ts[i]);
                }
            }
        }
    }
}

/// No drift is reported exactly when every managed radio reports the desired SSID, encryption
/// and key and the wireless runtime is healthy; with radios managed and no operation running,
/// the network is then shown as synced.
pub proof fn lemma_no_drift_iff_in_sync(s: CoreState)
    requires
        s.config.wifi.primary@.targets.len() > 0,
    ensures
        drift_spec(s).len() == 0 <==> crate::reconcile::all_equal_spec(
            s.observed_configs@,
            s.config.wifi.primary@.targets,
            s.config.wifi.primary@,
        ) && s.runtime_healthy,
        drift_spec(s).len() == 0 && s.active_operation is None ==> wifi_status_spec(s) == WifiStatus::Synced,
{
    let d = s.config.wifi.primary@;
    lemma_targets_drift_empty(d.targets, s.observed_configs@, d);
    if drift_spec(s).len() == 0 && s.active_operation is None {
        let t = d.targets[0];
        assert(s.observed_configs@.contains_key(t));
        crate::state::lemma_entries_map_empty(s.observed_configs.entries@);
        assert(s.observed_configs@.dom().contains(t));
        vstd::set::axiom_set_contains_len(s.observed_configs@.dom(), t);
    }
}

/// The observation recorded after a change was applied reports, on each of its radios, the
/// settings the change applied.
proof fn lemma_applied_observation(ts: Seq<Seq<char>>, w: WifiView, i: int)
    requires
        0 <= i < ts.len(),
    ensures
        crate::completion::applied_observation(ts, w).contains_key(ts[i]),
        crate::wifi::same_settings(crate::completion::applied_observation(ts, w)[ts[i]], w),
    decreases ts.len(),
{
    if i < ts.len() - 1 {
        lemma_applied_observation(ts.drop_last(), w, i);
        assert(ts.drop_last()[i] == ts[i]);
    }
}

/// A Wi-Fi change that succeeds leaves the network in sync: once the new settings are the desired
/// ones, recording the success leaves no drift, and the network is shown as synced.
pub proof fn lemma_success_leaves_no_drift(
    after: CoreState,
    before: CoreState,
    c: crate::operation::ChangeContext,
    last: LastOperation,
    store_error: Option<DomainError>,
)
    requires
        crate::completion::wifi_success_spec(after, before, c, last, store_error),
        before.config.wifi.primary@ == c.new_wifi@,
        strs_view(c.targets@) == c.new_wifi@.targets,
        c.new_wifi@.targets.len() > 0,
    ensures
        drift_spec(after).len() == 0,
        wifi_status_spec(after) == WifiStatus::Synced,
{
    let d = after.config.wifi.primary@;
    assert forall|i: int| 0 <= i < d.targets.len() implies after.observed_configs@.contains_key(
        #[trigger] d.targets[i],
    ) && crate::wifi::same_settings(after.observed_configs@[d.targets[i]], d) by {
        lemma_applied_observation(d.targets, d, i);
    }
    lemma_no_drift_iff_in_sync(after);
}

} // verus!
