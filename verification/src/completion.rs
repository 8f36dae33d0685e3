//! The state changes when a configuration operation finishes: success, failure, an uncertain
//! commit, or a fault that degrades the core.

use vstd::prelude::*;
use vstd::string::*;

use crate::errors::{DomainError, ErrorCode, ErrorStage, is_plain_error, opt_err_view, opt_str_view};
use crate::operation::{
    ChangeContext, LastOperation, Lifecycle, OperationIntent, OperationSource, OperationStatus,
    WanChangeContext, opt_intent_view, wifi_intent, IntentView,
};
use crate::state::{
    CoreState, DesiredConfig, HealthLevel, MAX_REPAIR_FAILURES, ObservedConfigs, WanPublicState,
    WifiDesired,
};
use crate::text::{clone_opt_str, concat, strs_view};
use crate::wifi::{WifiNetworkConfig, WifiView};

verus! {

/// The record of a finished Wi-Fi operation.
pub open spec fn is_wifi_last_op(
    l: LastOperation,
    c: ChangeContext,
    status: OperationStatus,
    revision: u64,
    error: Option<DomainError>,
    finished_at_ms: u64,
) -> bool {
    &&& l.id@ == c.operation_id@
    &&& opt_str_view(l.request_id) == opt_str_view(c.request_id)
    &&& l.source == c.source
    &&& l.kind@ == "wifi.set_config"@
    &&& l.status == status
    &&& l.revision == revision
    &&& l.requested_ssid@ == c.new_wifi.ssid@
    &&& opt_intent_view(l.intent) == Some(wifi_intent(c.new_wifi@))
    &&& l.error == error
    &&& l.finished_at_ms == finished_at_ms
}

pub fn make_wifi_last_op(
    context: &ChangeContext,
    status: OperationStatus,
    revision: u64,
    error: Option<DomainError>,
    finished_at_ms: u64,
) -> (l: LastOperation)
    ensures
        is_wifi_last_op(l, *context, status, revision, error, finished_at_ms),
{
    LastOperation {
        id: context.operation_id.clone(),
        request_id: clone_opt_str(&context.request_id),
        source: context.source,
        kind: String::from_str("wifi.set_config"),
        status,
        revision,
        requested_ssid: context.new_wifi.ssid.clone(),
        intent: Some(
            OperationIntent::Wifi {
                ssid: context.new_wifi.ssid.clone(),
                encryption: context.new_wifi.encryption.clone(),
                key: clone_opt_str(&context.new_wifi.key),
            },
        ),
        error,
        finished_at_ms,
    }
}

/// What every radio reports once a change is applied: the new settings, each radio listing
/// only itself as target.
pub open spec fn applied_observation(targets: Seq<Seq<char>>, w: WifiView) -> Map<Seq<char>, WifiView>
    decreases targets.len(),
{
    if targets.len() == 0 {
        Map::empty()
    } else {
        applied_observation(targets.drop_last(), w).insert(
            targets.last(),
            WifiView { targets: seq![targets.last()], ..w },
        )
    }
}

fn observation_after_apply(targets: &Vec<String>, w: &WifiNetworkConfig) -> (r: ObservedConfigs)
    ensures
        r@ == applied_observation(strs_view(targets@), w@),
{
    let mut out = ObservedConfigs::new();
    let mut i: usize = 0;
    while i < targets.len()
        invariant
            i <= targets.len(),
            out@ == applied_observation(strs_view(targets@).take(i as int), w@),
        decreases targets.len() - i,
    {
        let mut cfg = w.copy();
        let mut single: Vec<String> = Vec::new();
        single.push(targets[i].clone());
        cfg.targets = single;
        assert(strs_view(cfg.targets@) =~= seq![targets@[i as int]@]);
        out.insert(targets[i].clone(), cfg);
        assert(strs_view(targets@).take(i + 1).drop_last() =~= strs_view(targets@).take(i as int));
        i += 1;
    }
    assert(strs_view(targets@).take(targets.len() as int) =~= strs_view(targets@));
    out
}

/// The state after a Wi-Fi change succeeded. A failure to clear the journal is reported and
/// degrades the core; otherwise the core is healthy again and ready unless in maintenance.
pub open spec fn wifi_success_spec(
    after: CoreState,
    before: CoreState,
    c: ChangeContext,
    last: LastOperation,
    store_error: Option<DomainError>,
) -> bool {
    let user = c.source == OperationSource::User;
    &&& after.last_user_operation == if user {
        Some(last)
    } else {
        before.last_user_operation
    }
    &&& after.active_operation is None
    &&& after.observed_configs@ == applied_observation(strs_view(c.targets@), c.new_wifi@)
    &&& after.runtime_healthy
    &&& after.repair_failures == 0
    &&& after.health.wireless == HealthLevel::Healthy
    &&& after.health.ubus == before.health.ubus
    &&& after.health.rpcd == before.health.rpcd
    &&& after.health.wan == before.health.wan
    &&& match store_error {
        Some(err) => {
            &&& after.lifecycle == Lifecycle::Degraded
            &&& after.health.core == HealthLevel::Failing
            &&& after.last_system_error == Some(err)
        },
        None => {
            &&& after.lifecycle == if before.maintenance {
                before.lifecycle
            } else {
                Lifecycle::Ready
            }
            &&& after.health.core == HealthLevel::Healthy
            &&& after.last_system_error == if user {
                before.last_system_error
            } else {
                None
            }
        },
    }
    &&& after == (CoreState {
        last_user_operation: after.last_user_operation,
        active_operation: after.active_operation,
        observed_configs: after.observed_configs,
        runtime_healthy: after.runtime_healthy,
        repair_failures: after.repair_failures,
        health: after.health,
        lifecycle: after.lifecycle,
        last_system_error: after.last_system_error,
        ..before
    })
}

pub fn apply_wifi_success_state(
    state: &mut CoreState,
    context: &ChangeContext,
    last: LastOperation,
    store_error: Option<DomainError>,
)
    ensures
        wifi_success_spec(*final(state), *old(state), *context, last, store_error),
{
    if context.source == OperationSource::User {
        state.last_user_operation = Some(last);
    }
    state.active_operation = None;
    state.observed_configs = observation_after_apply(&context.targets, &context.new_wifi);
    state.runtime_healthy = true;
    state.repair_failures = 0;
    state.health.wireless = HealthLevel::Healthy;
    match store_error {
        Some(err) => {
            state.lifecycle = Lifecycle::Degraded;
            state.health.core = HealthLevel::Failing;
            state.last_system_error = Some(err);
        },
        None => {
            if !state.maintenance {
                state.lifecycle = Lifecycle::Ready;
            }
            state.health.core = HealthLevel::Healthy;
            if context.source != OperationSource::User {
                state.last_system_error = None;
            }
        },
    }
}

/// The error recorded when the result of a user operation could not be made durable.
pub open spec fn is_store_failure(e: DomainError) -> bool {
    is_plain_error(
        e,
        ErrorCode::StateStoreFailed,
        ErrorStage::Persist,
        "failed to clear transaction journal"@,
    )
}

/// The repair-failure count after a failed repair.
pub open spec fn bumped(n: u8) -> u8 {
    if n == u8::MAX {
        n
    } else {
        (n + 1) as u8
    }
}

/// The state after an operation failed. A user operation records its outcome; a repair
/// counts one more failure and reports its error. The core degrades when the rollback failed,
/// the journal could not be cleared, or repairs failed three times in a row.
pub open spec fn failure_spec(
    after: CoreState,
    before: CoreState,
    source: OperationSource,
    last: LastOperation,
    error: DomainError,
    rollback_failed: bool,
    store_failed: bool,
) -> bool {
    let user = source == OperationSource::User;
    &&& if user {
        &&& after.last_user_operation == Some(last)
        &&& after.repair_failures == before.repair_failures
        &&& if store_failed {
            after.last_system_error matches Some(e) && is_store_failure(e)
        } else {
            after.last_system_error == before.last_system_error
        }
    } else {
        &&& after.last_user_operation == before.last_user_operation
        &&& after.repair_failures == bumped(before.repair_failures)
        &&& after.last_system_error == Some(error)
    }
    &&& after.active_operation is None
    &&& if rollback_failed || store_failed || after.repair_failures >= MAX_REPAIR_FAILURES {
        after.lifecycle == Lifecycle::Degraded && after.health.core == HealthLevel::Failing
    } else {
        after.lifecycle == before.lifecycle && after.health.core == before.health.core
    }
    &&& after == (CoreState {
        last_user_operation: after.last_user_operation,
        repair_failures: after.repair_failures,
        last_system_error: after.last_system_error,
        active_operation: after.active_operation,
        lifecycle: after.lifecycle,
        health: after.health,
        ..before
    })
}

/// The failure bookkeeping shared by Wi-Fi and WAN operations.
fn record_failure(
    state: &mut CoreState,
    source: OperationSource,
    last: LastOperation,
    error: DomainError,
    rollback_failed: bool,
    store_failed: bool,
)
    ensures
        failure_spec(*final(state), *old(state), source, last, error, rollback_failed, store_failed),
        final(state).health == (crate::state::HealthState {
            core: final(state).health.core,
            ..old(state).health
        }),
{
    if source == OperationSource::User {
        state.last_user_operation = Some(last);
        if store_failed {
            state.last_system_error = Some(
                DomainError::from_message(
                    ErrorCode::StateStoreFailed,
                    ErrorStage::Persist,
                    "failed to clear transaction journal",
                ),
            );
        }
    } else {
        state.repair_failures = state.repair_failures.saturating_add(1);
        state.last_system_error = Some(error);
    }
    state.active_operation = None;
    if rollback_failed || store_failed || state.repair_failures >= MAX_REPAIR_FAILURES {
        state.lifecycle = Lifecycle::Degraded;
        state.health.core = HealthLevel::Failing;
    }
}

/// The state after a Wi-Fi change failed: the failure bookkeeping, and the radios are
/// reported failing.
pub fn apply_wifi_failure_state(
    state: &mut CoreState,
    context: &ChangeContext,
    last: LastOperation,
    error: DomainError,
    rollback_failed: bool,
    store_failed: bool,
)
    ensures
        failure_spec(
            *final(state),
            *old(state),
            context.source,
            last,
            error,
            rollback_failed,
            store_failed,
        ),
        final(state).health == (crate::state::HealthState {
            core: final(state).health.core,
            wireless: HealthLevel::Failing,
            ..old(state).health
        }),
{
    record_failure(state, context.source, last, error, rollback_failed, store_failed);
    state.health.wireless = HealthLevel::Failing;
}

} // verus!

verus! {

/// The record of a finished WAN operation.
pub open spec fn is_wan_last_op(
    l: LastOperation,
    c: WanChangeContext,
    status: OperationStatus,
    revision: u64,
    error: Option<DomainError>,
    finished_at_ms: u64,
) -> bool {
    &&& l.id@ == c.operation_id@
    &&& opt_str_view(l.request_id) == opt_str_view(c.request_id)
    &&& l.source == c.source
    &&& l.kind@ == "wan.set_config"@
    &&& l.status == status
    &&& l.revision == revision
    &&& l.requested_ssid@ == Seq::<char>::empty()
    &&& opt_intent_view(l.intent) == Some(IntentView::Wan(c.new_wan@))
    &&& l.error == error
    &&& l.finished_at_ms == finished_at_ms
}

pub fn make_wan_last_op(
    context: &WanChangeContext,
    status: OperationStatus,
    revision: u64,
    error: Option<DomainError>,
    finished_at_ms: u64,
) -> (l: LastOperation)
    ensures
        is_wan_last_op(l, *context, status, revision, error, finished_at_ms),
{
    LastOperation {
        id: context.operation_id.clone(),
        request_id: clone_opt_str(&context.request_id),
        source: context.source,
        kind: String::from_str("wan.set_config"),
        status,
        revision,
        requested_ssid: String::new(),
        intent: Some(OperationIntent::Wan(context.new_wan.copy())),
        error,
        finished_at_ms,
    }
}

/// The state after a WAN change succeeded.
pub open spec fn wan_success_spec(
    after: CoreState,
    before: CoreState,
    c: WanChangeContext,
    last: LastOperation,
    wan_status: WanPublicState,
    store_error: Option<DomainError>,
) -> bool {
    let user = c.source == OperationSource::User;
    &&& after.last_user_operation == if user {
        Some(last)
    } else {
        before.last_user_operation
    }
    &&& after.active_operation is None
    &&& after.wan == wan_status
    &&& after.repair_failures == 0
    &&& after.health.wan == HealthLevel::Healthy
    &&& after.health.ubus == before.health.ubus
    &&& after.health.rpcd == before.health.rpcd
    &&& after.health.wireless == before.health.wireless
    &&& match store_error {
        Some(err) => {
            &&& after.lifecycle == Lifecycle::Degraded
            &&& after.health.core == HealthLevel::Failing
            &&& after.last_system_error == Some(err)
        },
        None => {
            &&& after.lifecycle == if before.maintenance {
                before.lifecycle
            } else {
                Lifecycle::Ready
            }
            &&& after.health.core == HealthLevel::Healthy
            &&& after.last_system_error == if user {
                before.last_system_error
            } else {
                None
            }
        },
    }
    &&& after == (CoreState {
        last_user_operation: after.last_user_operation,
        active_operation: after.active_operation,
        wan: after.wan,
        repair_failures: after.repair_failures,
        health: after.health,
        lifecycle: after.lifecycle,
        last_system_error: after.last_system_error,
        ..before
    })
}

pub fn apply_wan_success_state(
    state: &mut CoreState,
    context: &WanChangeContext,
    last: LastOperation,
    wan_status: WanPublicState,
    store_error: Option<DomainError>,
)
    ensures
        wan_success_spec(*final(state), *old(state), *context, last, wan_status, store_error),
{
    if context.source == OperationSource::User {
        state.last_user_operation = Some(last);
    }
    state.active_operation = None;
    state.wan = wan_status;
    state.repair_failures = 0;
    state.health.wan = HealthLevel::Healthy;
    match store_error {
        Some(err) => {
            state.lifecycle = Lifecycle::Degraded;
            state.health.core = HealthLevel::Failing;
            state.last_system_error = Some(err);
        },
        None => {
            if !state.maintenance {
                state.lifecycle = Lifecycle::Ready;
            }
            state.health.core = HealthLevel::Healthy;
            if context.source != OperationSource::User {
                state.last_system_error = None;
            }
        },
    }
}

/// The state after a WAN change failed: the failure bookkeeping, the WAN status observed
/// afterwards, and the uplink reported failing.
pub fn apply_wan_failure_state(
    state: &mut CoreState,
    context: &WanChangeContext,
    last: LastOperation,
    wan_status: WanPublicState,
    error: DomainError,
    rollback_failed: bool,
    store_failed: bool,
)
    ensures
        failure_spec(
            CoreState { wan: old(state).wan, ..*final(state) },
            *old(state),
            context.source,
            last,
            error,
            rollback_failed,
            store_failed,
        ),
        final(state).wan == wan_status,
        final(state).health == (crate::state::HealthState {
            core: final(state).health.core,
            wan: HealthLevel::Failing,
            ..old(state).health
        }),
{
    let ghost before = *old(state);
    record_failure(state, context.source, last, error, rollback_failed, store_failed);
    let ghost mid = *state;
    state.wan = wan_status;
    state.health.wan = HealthLevel::Failing;
    assert(CoreState { wan: before.wan, ..*state } == CoreState { health: state.health, ..mid });
}

/// The error recorded when the desired state was persisted but the UCI confirm failed.
pub open spec fn is_commit_uncertain(
    e: DomainError,
    cause: DomainError,
    operation_id: Seq<char>,
    request_id: Option<Seq<char>>,
) -> bool {
    &&& e.code == ErrorCode::CommitUncertain
    &&& e.stage == ErrorStage::Confirm
    &&& e.message@ == "desired state is durable, but UCI confirm failed: "@ + cause.message@
    &&& e.retryable
    &&& opt_str_view(e.operation_id) == Some(operation_id)
    &&& opt_str_view(e.request_id) == request_id
    &&& e.details is None
}

pub fn commit_uncertain_error(operation_id: &str, request_id: Option<&str>, error: &DomainError) -> (e:
    DomainError)
    ensures
        is_commit_uncertain(
            e,
            *error,
            operation_id@,
            match request_id {
                Some(r) => Some(r@),
                None => None,
            },
        ),
{
    let message = concat("desired state is durable, but UCI confirm failed: ", error.message.as_str());
    DomainError::new(ErrorCode::CommitUncertain, ErrorStage::Confirm, message).retryable(
        true,
    ).with_operation(operation_id, request_id)
}

/// The state after a commit became uncertain: the user is told, the core degrades and reports
/// the uncertainty.
pub fn record_commit_uncertain(
    state: &mut CoreState,
    source: OperationSource,
    last: LastOperation,
    uncertain: DomainError,
)
    ensures
        *final(state) == (CoreState {
            last_user_operation: if source == OperationSource::User {
                Some(last)
            } else {
                old(state).last_user_operation
            },
            active_operation: None,
            lifecycle: Lifecycle::Degraded,
            health: crate::state::HealthState { core: HealthLevel::Failing, ..old(state).health },
            last_system_error: Some(uncertain),
            ..*old(state)
        }),
{
    if source == OperationSource::User {
        state.last_user_operation = Some(last);
    }
    state.active_operation = None;
    state.lifecycle = Lifecycle::Degraded;
    state.health.core = HealthLevel::Failing;
    state.last_system_error = Some(uncertain);
}

/// The state after a fault the core cannot repair by itself.
pub fn mark_degraded(state: &mut CoreState, error: DomainError)
    ensures
        *final(state) == (CoreState {
            lifecycle: Lifecycle::Degraded,
            health: crate::state::HealthState { core: HealthLevel::Failing, ..old(state).health },
            last_system_error: Some(error),
            ..*old(state)
        }),
{
    state.lifecycle = Lifecycle::Degraded;
    state.health.core = HealthLevel::Failing;
    state.last_system_error = Some(error);
}

/// Records the progress of the active operation, when it is the one named.
pub fn set_operation_status(
    state: &mut CoreState,
    operation_id: &str,
    status: OperationStatus,
    error: Option<DomainError>,
)
    ensures
        match old(state).active_operation {
            Some(a) => if a.id@ == operation_id@ {
                *final(state) == (CoreState {
                    active_operation: Some(
                        crate::operation::PublicOperation { status, error, ..a },
                    ),
                    ..*old(state)
                })
            } else {
                *final(state) == *old(state)
            },
            None => *final(state) == *old(state),
        },
{
    let matches = match &state.active_operation {
        Some(a) => crate::text::str_eq(a.id.as_str(), operation_id),
        None => false,
    };
    if matches {
        let active = state.active_operation.take();
        match active {
            Some(mut a) => {
                a.status = status;
                a.error = error;
                state.active_operation = Some(a);
            },
            None => {},
        }
    }
}

/// The desired configuration once a Wi-Fi change is committed: the new network at the target
/// revision, and the backhaul and radio channels the change carries, if any.
pub fn config_with_wifi_change(config: DesiredConfig, context: &ChangeContext) -> (r: DesiredConfig)
    ensures
        r == (DesiredConfig {
            revision: context.target_revision,
            wifi: WifiDesired {
                primary: r.wifi.primary,
                backhaul: if context.backhaul is Some {
                    r.wifi.backhaul
                } else {
                    config.wifi.backhaul
                },
                radio_channels: if context.radio_channels@.len() > 0 {
                    r.wifi.radio_channels
                } else {
                    config.wifi.radio_channels
                },
            },
            ..config
        }),
        r.wifi.primary@ == context.new_wifi@,
        context.backhaul is Some ==> (r.wifi.backhaul matches Some(b) && b == context.backhaul->0),
        context.radio_channels@.len() > 0 ==> r.wifi.radio_channels@ == context.radio_channels@,
{
    let mut config = config;
    config.revision = context.target_revision;
    config.wifi.primary = context.new_wifi.copy();
    match &context.backhaul {
        Some(b) => {
            config.wifi.backhaul = Some(
                crate::wifi::MeshBackhaulConfig {
                    enabled: b.enabled,
                    backhaul_target: b.backhaul_target.clone(),
                    client_target: b.client_target.clone(),
                    hidden: b.hidden,
                },
            );
        },
        None => {},
    }
    if context.radio_channels.len() > 0 {
        let mut channels: Vec<crate::wifi::RadioChannelConfig> = Vec::new();
        let mut i: usize = 0;
        while i < context.radio_channels.len()
            invariant
                i <= context.radio_channels.len(),
                channels@ == context.radio_channels@.take(i as int),
            decreases context.radio_channels.len() - i,
        {
            let rc = &context.radio_channels[i];
            channels.push(
                crate::wifi::RadioChannelConfig {
                    target: rc.target.clone(),
                    channel: rc.channel,
                    band: clone_opt_str(&rc.band),
                },
            );
            assert(channels@ =~= context.radio_channels@.take(i + 1));
            i += 1;
        }
        assert(context.radio_channels@.take(context.radio_channels.len() as int) =~= context.radio_channels@);
        config.wifi.radio_channels = channels;
    }
    config
}

/// The desired configuration once a WAN change is committed.
pub fn config_with_wan_change(config: DesiredConfig, context: &WanChangeContext) -> (r: DesiredConfig)
    ensures
        r == (DesiredConfig { revision: context.target_revision, wan: r.wan, ..config }),
        r.wan@ == context.new_wan@,
{
    let mut config = config;
    config.revision = context.target_revision;
    config.wan = context.new_wan.copy();
    config
}

/// Repairs that keep failing degrade the core: after three failed repairs in a row, whatever
/// the state before them, the core is degraded and reports failing health.
pub proof fn lemma_three_failed_repairs_degrade(
    s0: CoreState,
    s1: CoreState,
    s2: CoreState,
    s3: CoreState,
    src: Seq<OperationSource>,
    lasts: Seq<LastOperation>,
    errs: Seq<DomainError>,
    rollback: Seq<bool>,
    store: Seq<bool>,
)
    requires
        src.len() == 3 && lasts.len() == 3 && errs.len() == 3 && rollback.len() == 3 && store.len() == 3,
        forall|i: int| 0 <= i < 3 ==> #[trigger] src[i] != OperationSource::User,
        failure_spec(s1, s0, src[0], lasts[0], errs[0], rollback[0], store[0]),
        failure_spec(s2, s1, src[1], lasts[1], errs[1], rollback[1], store[1]),
        failure_spec(s3, s2, src[2], lasts[2], errs[2], rollback[2], store[2]),
    ensures
        s3.repair_failures >= MAX_REPAIR_FAILURES,
        s3.lifecycle == Lifecycle::Degraded,
        s3.health.core == HealthLevel::Failing,
        s3.last_system_error == Some(errs[2]),
{
    assert(src[0] != OperationSource::User);
    assert(src[1] != OperationSource::User);
    assert(src[2] != OperationSource::User);
}

/// A failed change leaves the desired configuration and the observations as they were, and no
/// operation active; a user's failure is remembered as their last operation.
pub proof fn lemma_failure_keeps_config(
    after: CoreState,
    before: CoreState,
    source: OperationSource,
    last: LastOperation,
    error: DomainError,
    rollback_failed: bool,
    store_failed: bool,
)
    requires
        failure_spec(after, before, source, last, error, rollback_failed, store_failed),
    ensures
        after.config == before.config,
        after.observed_configs == before.observed_configs,
        after.wan == before.wan,
        after.active_operation is None,
        source == OperationSource::User ==> after.last_user_operation == Some(last),
{
}

} // verus!
