//! Folding fresh observations of the router into the core's state.

use vstd::prelude::*;
use vstd::string::*;

use crate::errors::{DomainError, opt_err_same, opt_err_view};
use crate::state::{CoreState, HealthLevel, HealthState, ObservedConfigs, ObservedEntry, WanPublicState, entries_map};
use crate::wifi::{WifiNetworkConfig, WifiView};

verus! {

/// A radio has an observation exactly when some entry is about it.
pub proof fn lemma_entries_map_dom(es: Seq<ObservedEntry>, k: Seq<char>)
    ensures
        entries_map(es).contains_key(k) <==> exists|i: int| 0 <= i < es.len() && #[trigger] es[i].target@ == k,
    decreases es.len(),
{
    if es.len() > 0 {
        let p = es.drop_last();
        lemma_entries_map_dom(p, k);
        if entries_map(es).contains_key(k) && es.last().target@ != k {
            let i = choose|i: int| 0 <= i < p.len() && #[trigger] p[i].target@ == k;
            assert(es[i] == p[i]);
        }
        if exists|i: int| 0 <= i < es.len() && #[trigger] es[i].target@ == k {
            let i = choose|i: int| 0 <= i < es.len() && #[trigger] es[i].target@ == k;
            if i < es.len() - 1 {
                assert(p[i] == es[i]);
            }
        }
    }
}

/// `b` holds every observation of `a`, with the same settings and radios.
pub open spec fn covers_spec(a: Map<Seq<char>, WifiView>, b: Map<Seq<char>, WifiView>) -> bool {
    forall|k: Seq<char>| #![trigger a.dom().contains(k)] #![trigger b[k]] a.contains_key(k) ==> b.contains_key(k) && b[k] =~= a[k]
}

fn covers(a: &ObservedConfigs, b: &ObservedConfigs) -> (r: bool)
    ensures
        r == covers_spec(a@, b@),
{
    let mut i: usize = 0;
    while i < a.entries.len()
        invariant
            i <= a.entries@.len(),
            forall|j: int| 0 <= j < i ==> b@.contains_key(#[trigger] a.entries@[j].target@)
                && b@[a.entries@[j].target@] == a@[a.entries@[j].target@],
        decreases a.entries@.len() - i,
    {
        let t = &a.entries[i].target;
        proof {
            lemma_entries_map_dom(a.entries@, t@);
        }
        let x = a.get(t);
        let y = b.get(t);
        match (x, y) {
            (Some(cx), Some(cy)) => {
                if !(cx.ssid == cy.ssid && cx.encryption == cy.encryption && crate::text::opt_str_eq(&cx.key, &cy.key)
                    && crate::text::strs_eq(&cx.targets, &cy.targets)) {
                    proof {
                        assert(a@.contains_key(t@) && b@[t@] != a@[t@]);
                        assert(!(b@.contains_key(t@) && b@[t@] == a@[t@]));
                        assert(!covers_spec(a@, b@));
                    }
                    return false;
                }
                proof {
                    assert(cx@ == cy@);
                }
            },
            _ => {
                proof {
                    assert(a.entries@[i as int].target@ == t@);
                    assert(a@.contains_key(t@));
                    assert(!(b@.contains_key(t@) && b@[t@] == a@[t@]));
                    assert(!covers_spec(a@, b@));
                }
                return false;
            },
        }
        i += 1;
    }
    proof {
        assert forall|k: Seq<char>| #![trigger a@.dom().contains(k)] a@.contains_key(k) implies b@.contains_key(k) && b@[k] == a@[k] by {
            lemma_entries_map_dom(a.entries@, k);
            let j = choose|j: int| 0 <= j < a.entries@.len() && #[trigger] a.entries@[j].target@ == k;
            assert(a.entries@[j].target@ == k);
            assert(b@.contains_key(k));
            assert(b@[k] == a@[k]);
        }
        assert(covers_spec(a@, b@));
    }
    true
}

/// Whether two observations agree.
pub fn same_observations(a: &ObservedConfigs, b: &ObservedConfigs) -> (r: bool)
    ensures
        r == (a@ == b@),
{
    let ab = covers(a, b);
    let ba = covers(b, a);
    proof {
        if ab && ba {
            assert forall|k: Seq<char>| #[trigger] a@.contains_key(k) == b@.contains_key(k) by {
                if a@.contains_key(k) {
                    assert(b@[k] == a@[k]);
                }
                if b@.contains_key(k) {
                    assert(a@[k] == b@[k]);
                }
            }
            assert(a@.dom() =~= b@.dom());
            assert(a@ =~= b@);
        }
    }
    ab && ba
}

/// Folds an observation of the WAN runtime into the state and tells whether anything changed.
/// A reading replaces the published WAN state and marks the WAN healthy; a failure marks it
/// failing and becomes the last system error.
pub fn apply_wan_observation(state: &mut CoreState, observation: Result<WanPublicState, DomainError>) -> (changed: bool)
    ensures
        match observation {
            Ok(w) => {
                &&& changed == (old(state).wan@ != w@ || old(state).health.wan != HealthLevel::Healthy)
                &&& *final(state) == (CoreState {
                    wan: w,
                    health: HealthState { wan: HealthLevel::Healthy, ..old(state).health },
                    ..*old(state)
                })
            },
            Err(e) => {
                &&& changed == (old(state).health.wan != HealthLevel::Failing || opt_err_view(old(state).last_system_error)
                    != Some(e@))
                &&& *final(state) == (CoreState {
                    health: HealthState { wan: HealthLevel::Failing, ..old(state).health },
                    last_system_error: Some(e),
                    ..*old(state)
                })
            },
        },
{
    match observation {
        Ok(w) => {
            let changed = !state.wan.same_as(&w) || state.health.wan != HealthLevel::Healthy;
            state.wan = w;
            state.health.wan = HealthLevel::Healthy;
            changed
        },
        Err(e) => {
            let same = match &state.last_system_error {
                Some(last) => last.same_as(&e),
                None => false,
            };
            let changed = state.health.wan != HealthLevel::Failing || !same;
            state.health.wan = HealthLevel::Failing;
            state.last_system_error = Some(e);
            changed
        },
    }
}

/// Wi-Fi is observed only while radios are managed.
pub fn observes_wifi(state: &CoreState) -> (r: bool)
    ensures
        r == (state.config.wifi.primary.targets@.len() > 0),
{
    state.config.wifi.primary.targets.len() > 0
}

/// Folds a reading of the radios and of the wireless runtime into the state and tells whether
/// anything changed, counting a change of the WAN observation made just before. A runtime that
/// cannot be read counts as unhealthy and its error becomes the last system error.
pub fn apply_wifi_observation(
    state: &mut CoreState,
    wan_changed: bool,
    observed: ObservedConfigs,
    runtime: Result<bool, DomainError>,
) -> (changed: bool)
    ensures
        ({
            let healthy = match runtime {
                Ok(v) => v,
                Err(_) => false,
            };
            let level = if healthy {
                HealthLevel::Healthy
            } else {
                HealthLevel::Failing
            };
            &&& changed == (old(state).observed_configs@ != observed@ || old(state).runtime_healthy != healthy
                || old(state).health.wireless != level || wan_changed || (runtime matches Err(e)
                && opt_err_view(old(state).last_system_error) != Some(e@)))
            &&& *final(state) == (CoreState {
                observed_configs: observed,
                runtime_healthy: healthy,
                health: HealthState { wireless: level, ..old(state).health },
                last_system_error: match runtime {
                    Ok(_) => old(state).last_system_error,
                    Err(e) => Some(e),
                },
                ..*old(state)
            })
        }),
{
    let (healthy, runtime_error) = match runtime {
        Ok(v) => (v, None),
        Err(e) => (false, Some(e)),
    };
    let level = if healthy {
        HealthLevel::Healthy
    } else {
        HealthLevel::Failing
    };
    let error_changed = match &runtime_error {
        Some(e) => match &state.last_system_error {
            Some(last) => !last.same_as(e),
            None => true,
        },
        None => false,
    };
    let changed = !same_observations(&state.observed_configs, &observed) || state.runtime_healthy != healthy
        || state.health.wireless != level || wan_changed || error_changed;
    state.observed_configs = observed;
    state.runtime_healthy = healthy;
    state.health.wireless = level;
    if let Some(e) = runtime_error {
        state.last_system_error = Some(e);
    }
    changed
}

/// Folds a failed reading of the radios into the state: the wireless health fails and the
/// error becomes the last system error. Tells whether anything changed.
pub fn apply_wifi_observation_failure(state: &mut CoreState, wan_changed: bool, error: DomainError) -> (changed: bool)
    ensures
        changed == (old(state).health.wireless != HealthLevel::Failing || wan_changed || opt_err_view(
            old(state).last_system_error,
        ) != Some(error@)),
        *final(state) == (CoreState {
            health: HealthState { wireless: HealthLevel::Failing, ..old(state).health },
            last_system_error: Some(error),
            ..*old(state)
        }),
{
    let same = match &state.last_system_error {
        Some(last) => last.same_as(&error),
        None => false,
    };
    let changed = state.health.wireless != HealthLevel::Failing || wan_changed || !same;
    state.health.wireless = HealthLevel::Failing;
    state.last_system_error = Some(error);
    changed
}

/// The state after a WAN reading, and whether anything changed (see `apply_wan_observation`).
pub open spec fn wan_observed(s: CoreState, observation: Result<WanPublicState, DomainError>) -> (CoreState, bool) {
    match observation {
        Ok(w) => (
            CoreState { wan: w, health: HealthState { wan: HealthLevel::Healthy, ..s.health }, ..s },
            s.wan@ != w@ || s.health.wan != HealthLevel::Healthy,
        ),
        Err(e) => (
            CoreState {
                health: HealthState { wan: HealthLevel::Failing, ..s.health },
                last_system_error: Some(e),
                ..s
            },
            s.health.wan != HealthLevel::Failing || opt_err_view(s.last_system_error) != Some(e@),
        ),
    }
}

/// The state after a reading of the radios and the wireless runtime, and whether anything
/// changed, counting `wan_changed` (see `apply_wifi_observation`).
pub open spec fn wifi_observed(
    s: CoreState,
    wan_changed: bool,
    observed: ObservedConfigs,
    runtime: Result<bool, DomainError>,
) -> (CoreState, bool) {
    let healthy = match runtime {
        Ok(v) => v,
        Err(_) => false,
    };
    let level = if healthy {
        HealthLevel::Healthy
    } else {
        HealthLevel::Failing
    };
    (
        CoreState {
            observed_configs: observed,
            runtime_healthy: healthy,
            health: HealthState { wireless: level, ..s.health },
            last_system_error: match runtime {
                Ok(_) => s.last_system_error,
                Err(e) => Some(e),
            },
            ..s
        },
        s.observed_configs@ != observed@ || s.runtime_healthy != healthy || s.health.wireless != level
            || wan_changed || (runtime matches Err(e) && opt_err_view(s.last_system_error) != Some(e@)),
    )
}

/// The state after the radios could not be read, and whether anything changed (see
/// `apply_wifi_observation_failure`).
pub open spec fn wifi_failure_observed(s: CoreState, wan_changed: bool, error: DomainError) -> (CoreState, bool) {
    (
        CoreState {
            health: HealthState { wireless: HealthLevel::Failing, ..s.health },
            last_system_error: Some(error),
            ..s
        },
        s.health.wireless != HealthLevel::Failing || wan_changed || opt_err_view(s.last_system_error) != Some(
            error@,
        ),
    )
}

/// What reading the radios gave: nothing read (no radio is managed), their settings with the
/// health of the wireless runtime, or the error reading them.
#[derive(Debug)]
pub enum WifiReading {
    Skipped,
    Read(ObservedConfigs, Result<bool, DomainError>),
    Failed(DomainError),
}

/// Folds one round of observations into the state: the WAN reading first, then, while radios
/// are managed, the reading of the radios, and tells whether anything changed. The radios are
/// read exactly when radios are managed.
pub fn refresh_observations(
    state: &mut CoreState,
    wan: Result<WanPublicState, DomainError>,
    wifi: WifiReading,
) -> (changed: bool)
    requires
        (wifi is Skipped) <==> old(state).config.wifi.primary.targets@.len() == 0,
    ensures
        ({
            let (mid, wan_changed) = wan_observed(*old(state), wan);
            (*final(state), changed) == match wifi {
                WifiReading::Skipped => (mid, wan_changed),
                WifiReading::Read(observed, runtime) => wifi_observed(mid, wan_changed, observed, runtime),
                WifiReading::Failed(e) => wifi_failure_observed(mid, wan_changed, e),
            }
        }),
{
    let wan_changed = apply_wan_observation(state, wan);
    if !observes_wifi(state) {
        return wan_changed;
    }
    match wifi {
        WifiReading::Skipped => wan_changed,
        WifiReading::Read(observed, runtime) => apply_wifi_observation(state, wan_changed, observed, runtime),
        WifiReading::Failed(error) => apply_wifi_observation_failure(state, wan_changed, error),
    }
}

/// Observing the same WAN state twice reports a change at most the first time: after a reading
/// was folded in, an equal reading changes nothing.
pub proof fn lemma_wan_observation_settles(before: CoreState, after: CoreState, w: WanPublicState, again: WanPublicState)
    requires
        after == (CoreState {
            wan: w,
            health: HealthState { wan: HealthLevel::Healthy, ..before.health },
            ..before
        }),
        again@ == w@,
    ensures
        !(after.wan@ != again@ || after.health.wan != HealthLevel::Healthy),
{
}

} // verus!
