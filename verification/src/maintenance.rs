//! Maintenance mode: entering it, and the steps of leaving it.

use vstd::prelude::*;
use vstd::string::*;

use crate::completion::bumped;
use crate::errors::{DomainError, ErrorCode, ErrorStage, is_plain_error};
use crate::operation::Lifecycle;
use crate::state::{CoreState, HealthLevel, HealthState};
use crate::text::concat;
use crate::wifi_ops::{accepts_requests, readiness_error};

verus! {

/// Enters maintenance: refused while an operation or a maintenance exit runs, and before the
/// core has initialised.
pub fn maintenance_enter(state: &mut CoreState, reason: Option<String>) -> (r: Result<(), DomainError>)
    ensures
        old(state).active_operation is Some || old(state).maintenance_exiting ==> *final(state) == *old(state)
            && (r matches Err(e) && is_plain_error(
            e,
            ErrorCode::Busy,
            ErrorStage::Validate,
            "cannot enter maintenance while another transition is active"@,
        )),
        old(state).active_operation is None && !old(state).maintenance_exiting && (old(state).lifecycle
            == Lifecycle::Booting || old(state).lifecycle == Lifecycle::NeedsSetup) ==> *final(state) == *old(state)
            && (r matches Err(e) && is_plain_error(
            e,
            ErrorCode::NotReady,
            ErrorStage::Validate,
            "maintenance is unavailable before Unetic has initialized"@,
        )),
        old(state).active_operation is None && !old(state).maintenance_exiting && old(state).lifecycle
            != Lifecycle::Booting && old(state).lifecycle != Lifecycle::NeedsSetup ==> r is Ok && *final(state) == (
        CoreState {
            maintenance: true,
            maintenance_exiting: false,
            maintenance_reason: reason,
            lifecycle: Lifecycle::Maintenance,
            ..*old(state)
        }),
{
    if state.active_operation.is_some() || state.maintenance_exiting {
        return Err(
            DomainError::from_message(
                ErrorCode::Busy,
                ErrorStage::Validate,
                "cannot enter maintenance while another transition is active",
            ),
        );
    }
    if state.lifecycle == Lifecycle::Booting || state.lifecycle == Lifecycle::NeedsSetup {
        return Err(
            DomainError::from_message(
                ErrorCode::NotReady,
                ErrorStage::Validate,
                "maintenance is unavailable before Unetic has initialized",
            ),
        );
    }
    state.maintenance = true;
    state.maintenance_exiting = false;
    state.maintenance_reason = reason;
    state.lifecycle = Lifecycle::Maintenance;
    Ok(())
}

/// How a request to leave maintenance is answered.
#[derive(Debug, Clone, Copy, PartialEq, Eq, Structural)]
pub enum MaintenanceExit {
    /// The core is not in maintenance: nothing to do.
    NotInMaintenance,
    /// An exit is already running.
    AlreadyExiting,
    /// The exit starts: the desired state must now be restored.
    Started,
}

/// Starts leaving maintenance: refused while an operation runs.
pub fn begin_maintenance_exit(state: &mut CoreState) -> (r: Result<MaintenanceExit, DomainError>)
    ensures
        old(state).active_operation is Some ==> *final(state) == *old(state) && (r matches Err(e) && is_plain_error(
            e,
            ErrorCode::Busy,
            ErrorStage::Validate,
            "cannot exit maintenance while an operation is active"@,
        )),
        old(state).active_operation is None && !old(state).maintenance ==> *final(state) == *old(state) && r
            == Ok::<MaintenanceExit, DomainError>(MaintenanceExit::NotInMaintenance),
        old(state).active_operation is None && old(state).maintenance && old(state).maintenance_exiting
            ==> *final(state) == *old(state) && r == Ok::<MaintenanceExit, DomainError>(MaintenanceExit::AlreadyExiting),
        old(state).active_operation is None && old(state).maintenance && !old(state).maintenance_exiting
            ==> *final(state) == (CoreState { maintenance_exiting: true, ..*old(state) }) && r == Ok::<
            MaintenanceExit,
            DomainError,
        >(MaintenanceExit::Started),
{
    if state.active_operation.is_some() {
        return Err(
            DomainError::from_message(
                ErrorCode::Busy,
                ErrorStage::Validate,
                "cannot exit maintenance while an operation is active",
            ),
        );
    }
    if !state.maintenance {
        return Ok(MaintenanceExit::NotInMaintenance);
    }
    if state.maintenance_exiting {
        return Ok(MaintenanceExit::AlreadyExiting);
    }
    state.maintenance_exiting = true;
    Ok(MaintenanceExit::Started)
}

/// The exit worker could not be started: the exit is abandoned and its error returned.
pub fn maintenance_exit_spawn_failed(state: &mut CoreState, reason: &str) -> (e: DomainError)
    ensures
        *final(state) == (CoreState { maintenance_exiting: false, ..*old(state) }),
        is_plain_error(e, ErrorCode::Internal, ErrorStage::Internal, "failed to start maintenance reconciliation: "@ + reason@),
{
    state.maintenance_exiting = false;
    DomainError::new(ErrorCode::Internal, ErrorStage::Internal, concat("failed to start maintenance reconciliation: ", reason))
}

/// The error recorded when restoring the desired state failed on the way out of maintenance.
pub open spec fn is_exit_failure(e: DomainError, cause: DomainError) -> bool {
    &&& e.code == ErrorCode::ReconcileFailed
    &&& e.stage == ErrorStage::Reconcile
    &&& e.message@ == "failed to leave maintenance: "@ + cause.message@
    &&& e.retryable
    &&& e.operation_id is None
    &&& e.request_id is None
    &&& e.details is None
}

/// Restoring the desired state failed: the core leaves maintenance degraded and counts a failed
/// repair.
pub fn maintenance_exit_sync_failed(state: &mut CoreState, error: &DomainError)
    ensures
        final(state).last_system_error matches Some(e) && is_exit_failure(e, *error),
        *final(state) == (CoreState {
            maintenance: false,
            maintenance_exiting: false,
            maintenance_reason: None,
            lifecycle: Lifecycle::Degraded,
            health: HealthState { core: HealthLevel::Failing, ..old(state).health },
            last_system_error: final(state).last_system_error,
            repair_failures: bumped(old(state).repair_failures),
            ..*old(state)
        }),
{
    state.maintenance = false;
    state.maintenance_exiting = false;
    state.maintenance_reason = None;
    state.lifecycle = Lifecycle::Degraded;
    state.health.core = HealthLevel::Failing;
    state.last_system_error = Some(
        DomainError::new(
            ErrorCode::ReconcileFailed,
            ErrorStage::Reconcile,
            concat("failed to leave maintenance: ", error.message.as_str()),
        ).retryable(true),
    );
    state.repair_failures = state.repair_failures.saturating_add(1);
}

/// Saving the desired state failed on the way out of maintenance: the core leaves maintenance
/// degraded with that error.
pub fn maintenance_exit_persist_failed(state: &mut CoreState, error: DomainError)
    ensures
        *final(state) == (CoreState {
            maintenance: false,
            maintenance_exiting: false,
            maintenance_reason: None,
            lifecycle: Lifecycle::Degraded,
            health: HealthState { core: HealthLevel::Failing, ..old(state).health },
            last_system_error: Some(error),
            ..*old(state)
        }),
{
    state.maintenance = false;
    state.maintenance_exiting = false;
    state.maintenance_reason = None;
    state.lifecycle = Lifecycle::Degraded;
    state.health.core = HealthLevel::Failing;
    state.last_system_error = Some(error);
}

/// The desired state was restored and saved: the core is ready again, with no error and no
/// failed repair counted.
pub fn maintenance_exit_succeeded(state: &mut CoreState)
    ensures
        *final(state) == (CoreState {
            maintenance: false,
            maintenance_exiting: false,
            maintenance_reason: None,
            lifecycle: Lifecycle::Ready,
            repair_failures: 0,
            health: HealthState { core: HealthLevel::Healthy, ..old(state).health },
            last_system_error: None,
            ..*old(state)
        }),
{
    state.maintenance = false;
    state.maintenance_exiting = false;
    state.maintenance_reason = None;
    state.lifecycle = Lifecycle::Ready;
    state.repair_failures = 0;
    state.health.core = HealthLevel::Healthy;
    state.last_system_error = None;
}

/// In maintenance the core refuses configuration requests, answering that it is in maintenance
/// mode.
pub proof fn lemma_maintenance_refuses_requests(s: CoreState, e: DomainError)
    requires
        s.maintenance,
        readiness_error(s.maintenance, s.lifecycle, e),
    ensures
        !accepts_requests(s),
        e.code == ErrorCode::MaintenanceMode,
{
}

/// A completed maintenance exit makes the core accept requests again.
pub proof fn lemma_exit_restores_service(before: CoreState, after: CoreState)
    requires
        after == (CoreState {
            maintenance: false,
            maintenance_exiting: false,
            maintenance_reason: None,
            lifecycle: Lifecycle::Ready,
            repair_failures: 0,
            health: HealthState { core: HealthLevel::Healthy, ..before.health },
            last_system_error: None,
            ..before
        }),
    ensures
        accepts_requests(after),
{
}

} // verus!
