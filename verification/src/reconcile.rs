//! The reconciliation decision: compare the desired state with what the router reports and
//! choose the repair to run, and the bookkeeping when a repair cannot start or finishes.

use vstd::prelude::*;
use vstd::string::*;

use crate::errors::{DomainError, ErrorCode, ErrorStage, opt_str_view};
use crate::operation::{
    ChangeContext, Lifecycle, OperationSource, OperationStatus, WanChangeContext, opt_intent_view,
    wifi_intent,
};
use crate::state::{CoreState, HealthLevel, HealthState, MAX_REPAIR_FAILURES, ObservedConfigs};
use crate::text::{clone_opt_str, clone_strs, strs_view};
use crate::wan::{WanDesired, wan_config_matches, wan_matches_spec};
use crate::wifi::{WifiNetworkConfig, WifiView, same_settings, same_wifi_settings};
use crate::completion::bumped;

verus! {

/// Every target radio reports the expected SSID, encryption and key; false without targets.
pub open spec fn all_equal_spec(
    observed: Map<Seq<char>, WifiView>,
    targets: Seq<Seq<char>>,
    expected: WifiView,
) -> bool {
    &&& targets.len() > 0
    &&& forall|i: int|
        0 <= i < targets.len() ==> observed.contains_key(#[trigger] targets[i]) && same_settings(
            observed[targets[i]],
            expected,
        )
}

pub fn all_equal_config(
    observed: &ObservedConfigs,
    targets: &Vec<String>,
    expected: &WifiNetworkConfig,
) -> (r: bool)
    ensures
        r == all_equal_spec(observed@, strs_view(targets@), expected@),
{
    if targets.len() == 0 {
        return false;
    }
    let ghost ts = strs_view(targets@);
    let mut i: usize = 0;
    while i < targets.len()
        invariant
            ts == strs_view(targets@),
            i <= targets.len(),
            forall|j: int|
                0 <= j < i ==> observed@.contains_key(#[trigger] ts[j]) && same_settings(
                    observed@[ts[j]],
                    expected@,
                ),
        decreases targets.len() - i,
    {
        assert(ts[i as int] == targets@[i as int]@);
        match observed.get(&targets[i]) {
            Some(cfg) => {
                if !same_wifi_settings(cfg, expected) {
                    return false;
                }
            },
            None => {
                return false;
            },
        }
        i += 1;
    }
    true
}

/// Reconciliation does nothing in maintenance, after repeated failures in a degraded core,
/// while an operation runs, without managed radios, or before the core is set up.
pub open spec fn skips_reconcile(s: CoreState) -> bool {
    ||| s.maintenance
    ||| (s.lifecycle == Lifecycle::Degraded && s.repair_failures >= MAX_REPAIR_FAILURES)
    ||| s.active_operation is Some
    ||| s.config.wifi.primary.targets@.len() == 0
    ||| s.lifecycle == Lifecycle::NeedsSetup
    ||| s.lifecycle == Lifecycle::Booting
}

pub fn should_skip_reconcile(state: &CoreState) -> (r: bool)
    ensures
        r == skips_reconcile(*state),
{
    state.maintenance || (state.lifecycle == Lifecycle::Degraded && state.repair_failures
        >= MAX_REPAIR_FAILURES) || state.active_operation.is_some()
        || state.config.wifi.primary.targets.len() == 0 || state.lifecycle == Lifecycle::NeedsSetup
        || state.lifecycle == Lifecycle::Booting
}

/// The state once everything is in sync again: a recovered core forgets its failures and
/// the error they left; a ready core forgets a stale error. Reports whether anything changed.
pub open spec fn cleared_spec(after: CoreState, before: CoreState, changed: bool) -> bool {
    if before.repair_failures > 0 {
        &&& changed
        &&& after == (CoreState {
            repair_failures: 0,
            lifecycle: if before.lifecycle == Lifecycle::Degraded {
                Lifecycle::Ready
            } else {
                before.lifecycle
            },
            health: HealthState { core: HealthLevel::Healthy, ..before.health },
            last_system_error: None,
            ..before
        })
    } else if before.lifecycle == Lifecycle::Ready && before.last_system_error is Some {
        &&& changed
        &&& after == (CoreState { last_system_error: None, ..before })
    } else {
        !changed && after == before
    }
}

pub fn clear_recovered_errors(state: &mut CoreState) -> (changed: bool)
    ensures
        cleared_spec(*final(state), *old(state), changed),
{
    if state.repair_failures > 0 {
        state.repair_failures = 0;
        if state.lifecycle == Lifecycle::Degraded {
            state.lifecycle = Lifecycle::Ready;
        }
        state.health.core = HealthLevel::Healthy;
        state.last_system_error = None;
        true
    } else if state.lifecycle == Lifecycle::Ready && state.last_system_error.is_some() {
        state.last_system_error = None;
        true
    } else {
        false
    }
}

/// A repair that re-applies the desired Wi-Fi configuration unchanged.
pub open spec fn is_wifi_repair_context(c: ChangeContext, s: CoreState, operation_id: Seq<char>) -> bool {
    &&& c.operation_id@ == operation_id
    &&& c.request_id is None
    &&& c.source == OperationSource::Reconcile
    &&& c.base_revision == s.config.revision
    &&& c.target_revision == s.config.revision
    &&& c.old_wifi@ == s.config.wifi.primary@
    &&& c.new_wifi@ == s.config.wifi.primary@
    &&& strs_view(c.targets@) == s.config.wifi.primary@.targets
    &&& c.backhaul == s.config.wifi.backhaul
    &&& c.radio_channels@ == s.config.wifi.radio_channels@
}

/// A copy of a list of radio channel settings.
pub fn copy_channels(v: &Vec<crate::wifi::RadioChannelConfig>) -> (r: Vec<crate::wifi::RadioChannelConfig>)
    ensures
        r@ == v@,
{
    let mut out: Vec<crate::wifi::RadioChannelConfig> = Vec::new();
    let mut i: usize = 0;
    while i < v.len()
        invariant
            i <= v.len(),
            out@ == v@.take(i as int),
        decreases v.len() - i,
    {
        out.push(
            crate::wifi::RadioChannelConfig {
                target: v[i].target.clone(),
                channel: v[i].channel,
                band: clone_opt_str(&v[i].band),
            },
        );
        assert(out@ =~= v@.take(i + 1));
        i += 1;
    }
    assert(v@.take(v.len() as int) =~= v@);
    out
}

pub fn build_wifi_reconcile_context(state: &CoreState, operation_id: String) -> (c: ChangeContext)
    ensures
        is_wifi_repair_context(c, *state, operation_id@),
{
    let backhaul = match &state.config.wifi.backhaul {
        Some(b) => Some(
            crate::wifi::MeshBackhaulConfig {
                enabled: b.enabled,
                backhaul_target: b.backhaul_target.clone(),
                client_target: b.client_target.clone(),
                hidden: b.hidden,
            },
        ),
        None => None,
    };
    ChangeContext {
        operation_id,
        request_id: None,
        source: OperationSource::Reconcile,
        base_revision: state.config.revision,
        target_revision: state.config.revision,
        old_wifi: state.config.wifi.primary.copy(),
        new_wifi: state.config.wifi.primary.copy(),
        targets: clone_strs(&state.config.wifi.primary.targets),
        backhaul,
        radio_channels: copy_channels(&state.config.wifi.radio_channels),
    }
}

/// A repair that re-applies the desired WAN configuration unchanged.
pub open spec fn is_wan_repair_context(c: WanChangeContext, s: CoreState, operation_id: Seq<char>) -> bool {
    &&& c.operation_id@ == operation_id
    &&& c.request_id is None
    &&& c.source == OperationSource::Reconcile
    &&& c.base_revision == s.config.revision
    &&& c.target_revision == s.config.revision
    &&& c.old_wan@ == s.config.wan@
    &&& c.new_wan@ == s.config.wan@
}

pub fn build_wan_reconcile_context(state: &CoreState, operation_id: String) -> (c: WanChangeContext)
    ensures
        is_wan_repair_context(c, *state, operation_id@),
{
    WanChangeContext {
        operation_id,
        request_id: None,
        source: OperationSource::Reconcile,
        base_revision: state.config.revision,
        target_revision: state.config.revision,
        old_wan: state.config.wan.copy(),
        new_wan: state.config.wan.copy(),
    }
}

/// The repair reconciliation starts.
#[derive(Debug)]
pub enum Repair {
    /// Re-apply the Wi-Fi configuration.
    Config(ChangeContext),
    /// Re-apply the WAN configuration.
    WanConfig(WanChangeContext),
    /// Reload the wireless runtime for these radios and SSID.
    Runtime { targets: Vec<String>, ssid: String },
}

/// The radios disagree with the desired Wi-Fi settings.
pub open spec fn config_drift(s: CoreState) -> bool {
    !all_equal_spec(s.observed_configs@, s.config.wifi.primary@.targets, s.config.wifi.primary@)
}

/// The router's WAN configuration, when it could be read, does not realise the desired one.
pub open spec fn wan_drift(s: CoreState, observed_wan: Option<crate::wan::WanView>) -> bool {
    observed_wan matches Some(w) && !wan_matches_spec(w, s.config.wan@)
}

/// The active operation a repair publishes.
pub open spec fn repair_announced(after: CoreState, before: CoreState, id: Seq<char>) -> bool {
    &&& after.active_operation matches Some(op) && op.id@ == id && op.status
        == OperationStatus::Accepted && op.source == OperationSource::Reconcile && op.request_id is None
    &&& after == (CoreState { active_operation: after.active_operation, ..before })
}

/// `reconcile_once` after observing: skip when reconciliation is suspended; when everything is
/// in sync, clear recovered errors; otherwise announce and return one repair, preferring the
/// Wi-Fi configuration, then the WAN configuration, then the wireless runtime. The flag asks for
/// a publication of the state.
pub fn plan_reconcile(
    state: &mut CoreState,
    operation_id: String,
    observed_wan: Option<&WanDesired>,
    observation_changed: bool,
) -> (r: (Option<Repair>, bool))
    ensures
        ({
            let ow = match observed_wan {
                Some(w) => Some(w@),
                None => None,
            };
            if skips_reconcile(*old(state)) {
                r.0 is None && r.1 == observation_changed && *final(state) == *old(state)
            } else if !config_drift(*old(state)) && !wan_drift(*old(state), ow)
                && old(state).runtime_healthy {
                r.0 is None && exists|c: bool|
                    cleared_spec(*final(state), *old(state), c) && r.1 == (c || observation_changed)
            } else if config_drift(*old(state)) {
                &&& !r.1
                &&& r.0 matches Some(Repair::Config(c)) && is_wifi_repair_context(
                    c,
                    *old(state),
                    operation_id@,
                )
                &&& repair_announced(*final(state), *old(state), operation_id@)
            } else if wan_drift(*old(state), ow) {
                &&& !r.1
                &&& r.0 matches Some(Repair::WanConfig(c)) && is_wan_repair_context(
                    c,
                    *old(state),
                    operation_id@,
                )
                &&& repair_announced(*final(state), *old(state), operation_id@)
            } else {
                &&& !r.1
                &&& r.0 matches Some(Repair::Runtime { targets, ssid }) && strs_view(targets@)
                    == old(state).config.wifi.primary@.targets && ssid@
                    == old(state).config.wifi.primary.ssid@
                &&& repair_announced(*final(state), *old(state), operation_id@)
            }
        }),
{
    if should_skip_reconcile(state) {
        return (None, observation_changed);
    }
    let config_drifted = !all_equal_config(
        &state.observed_configs,
        &state.config.wifi.primary.targets,
        &state.config.wifi.primary,
    );
    let wan_drifted = match observed_wan {
        Some(w) => !wan_config_matches(w, &state.config.wan),
        None => false,
    };
    let runtime_drifted = !state.runtime_healthy;
    if !config_drifted && !wan_drifted && !runtime_drifted {
        let cleared = clear_recovered_errors(state);
        return (None, cleared || observation_changed);
    }
    if config_drifted {
        let context = build_wifi_reconcile_context(state, operation_id);
        state.active_operation = Some(context.public(OperationStatus::Accepted, None));
        (Some(Repair::Config(context)), false)
    } else if wan_drifted {
        let context = build_wan_reconcile_context(state, operation_id);
        state.active_operation = Some(context.public(OperationStatus::Accepted, None));
        (Some(Repair::WanConfig(context)), false)
    } else {
        let targets = clone_strs(&state.config.wifi.primary.targets);
        let ssid = state.config.wifi.primary.ssid.clone();
        let context = build_wifi_reconcile_context(state, operation_id);
        state.active_operation = Some(context.public(OperationStatus::Accepted, None));
        (Some(Repair::Runtime { targets, ssid }), false)
    }
}

/// The state after a repair worker could not be started.
pub open spec fn spawn_failure_spec(after: CoreState, before: CoreState, message: Seq<char>) -> bool {
    let n = bumped(before.repair_failures);
    &&& after.active_operation is None
    &&& after.repair_failures == n
    &&& after.last_system_error matches Some(e) && e.code == ErrorCode::ReconcileFailed && e.stage
        == ErrorStage::Reconcile && e.message@ == message && e.retryable && e.operation_id is None
        && e.request_id is None && e.details is None
    &&& if n >= MAX_REPAIR_FAILURES {
        after.lifecycle == Lifecycle::Degraded && after.health == (HealthState {
            core: HealthLevel::Failing,
            ..before.health
        })
    } else {
        after.lifecycle == before.lifecycle && after.health == before.health
    }
    &&& after == (CoreState {
        active_operation: after.active_operation,
        repair_failures: after.repair_failures,
        last_system_error: after.last_system_error,
        lifecycle: after.lifecycle,
        health: after.health,
        ..before
    })
}

pub fn handle_reconcile_spawn_error(state: &mut CoreState, message: &str)
    ensures
        spawn_failure_spec(*final(state), *old(state), message@),
{
    state.active_operation = None;
    state.repair_failures = state.repair_failures.saturating_add(1);
    state.last_system_error = Some(
        DomainError::from_message(ErrorCode::ReconcileFailed, ErrorStage::Reconcile, message).retryable(
            true,
        ),
    );
    if state.repair_failures >= MAX_REPAIR_FAILURES {
        state.lifecycle = Lifecycle::Degraded;
        state.health.core = HealthLevel::Failing;
    }
}

/// The state after a runtime-only repair finished.
pub fn record_runtime_repair(state: &mut CoreState, outcome: Result<(), DomainError>)
    ensures
        final(state).active_operation is None,
        match outcome {
            Err(e) => {
                let n = bumped(old(state).repair_failures);
                &&& *final(state) == (CoreState {
                    active_operation: None,
                    repair_failures: n,
                    last_system_error: Some(e),
                    lifecycle: if n >= MAX_REPAIR_FAILURES {
                        Lifecycle::Degraded
                    } else {
                        old(state).lifecycle
                    },
                    health: HealthState {
                        core: if n >= MAX_REPAIR_FAILURES {
                            HealthLevel::Failing
                        } else {
                            old(state).health.core
                        },
                        wireless: HealthLevel::Failing,
                        ..old(state).health
                    },
                    ..*old(state)
                })
            },
            Ok(()) => *final(state) == (CoreState {
                active_operation: None,
                repair_failures: 0,
                lifecycle: if old(state).lifecycle == Lifecycle::Degraded {
                    Lifecycle::Ready
                } else {
                    old(state).lifecycle
                },
                health: HealthState {
                    core: HealthLevel::Healthy,
                    wireless: HealthLevel::Healthy,
                    ..old(state).health
                },
                runtime_healthy: true,
                last_system_error: None,
                ..*old(state)
            }),
        },
{
    state.active_operation = None;
    match outcome {
        Err(error) => {
            state.repair_failures = state.repair_failures.saturating_add(1);
            state.last_system_error = Some(error);
            if state.repair_failures >= MAX_REPAIR_FAILURES {
                state.lifecycle = Lifecycle::Degraded;
                state.health.core = HealthLevel::Failing;
            }
            state.health.wireless = HealthLevel::Failing;
        },
        Ok(()) => {
            state.repair_failures = 0;
            if state.lifecycle == Lifecycle::Degraded {
                state.lifecycle = Lifecycle::Ready;
            }
            state.health.core = HealthLevel::Healthy;
            state.health.wireless = HealthLevel::Healthy;
            state.runtime_healthy = true;
            state.last_system_error = None;
        },
    }
}

/// The error a runtime repair reports when the radios did not recover in time.
pub fn runtime_not_recovered() -> (e: DomainError)
    ensures
        e.code == ErrorCode::ReconcileFailed,
        e.stage == ErrorStage::Reconcile,
        e.message@ == "wireless runtime did not recover after reload"@,
        e.retryable,
        e.operation_id is None && e.request_id is None && e.details is None,
{
    DomainError::from_message(
        ErrorCode::ReconcileFailed,
        ErrorStage::Reconcile,
        "wireless runtime did not recover after reload",
    ).retryable(true)
}

/// Counts consecutive healthy samples; the radios count as recovered after two.
#[derive(Debug)]
pub struct HealthySamples {
    pub count: u8,
}

impl HealthySamples {
    pub fn new() -> (r: HealthySamples)
        ensures
            r.count == 0,
    {
        HealthySamples { count: 0 }
    }

    /// Records one sample; true once two healthy samples came in a row.
    pub fn record(&mut self, healthy: bool) -> (done: bool)
        ensures
            final(self).count == if healthy {
                bumped(old(self).count)
            } else {
                0
            },
            done == (final(self).count >= 2),
    {
        if healthy {
            self.count = self.count.saturating_add(1);
        } else {
            self.count = 0;
        }
        self.count >= 2
    }
}

/// In sync means no repair: when neither configuration drifted and the runtime is healthy,
/// reconciliation starts nothing and leaves no operation active.
pub proof fn lemma_in_sync_starts_nothing(before: CoreState, after: CoreState, changed: bool)
    requires
        before.active_operation is None,
        cleared_spec(after, before, changed),
    ensures
        after.active_operation is None,
        after.config == before.config,
{
}

} // verus!
