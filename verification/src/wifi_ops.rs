//! Wi-Fi configuration requests: admission, idempotency, and the state changes when an
//! operation starts, succeeds or fails.

use vstd::prelude::*;
use vstd::string::*;

use crate::errors::{
    DomainError, ErrorCode, ErrorDetails, ErrorStage, ErrorView, is_plain_error, opt_err_view,
    opt_str_view,
};
use crate::operation::{
    ChangeContext, IntentView, LastOperation, Lifecycle, OperationAccepted, OperationIntent,
    OperationSource, OperationStatus, opt_intent_view, wifi_intent,
};
use crate::state::{CoreState, HealthLevel, MAX_REPAIR_FAILURES, ObservedConfigs};
use crate::text::{byte_len, clone_opt_str, clone_strs, concat, is_blank, is_blank_spec, strs_view, utf8_len};
use crate::wifi::{
    WifiNetworkConfig, WifiView, key_rejection, same_settings, ssid_error_ok, ssid_valid,
    validate_wifi_config,
};

verus! {

/// A request to change the primary Wi-Fi network.
#[derive(Debug, Clone)]
pub struct SetWifiConfigRequest {
    pub request_id: String,
    pub ssid: String,
    pub encryption: String,
    pub key: Option<String>,
    pub expected_revision: u64,
}

/// A request id: present after trimming and at most 128 bytes.
pub open spec fn request_id_ok(id: Seq<char>) -> bool {
    !is_blank_spec(id) && byte_len(id) <= 128
}

pub fn validate_request_id(request_id: &str) -> (r: Result<(), DomainError>)
    ensures
        r is Ok <==> request_id_ok(request_id@),
        r matches Err(e) ==> is_plain_error(
            e,
            ErrorCode::InvalidArgument,
            ErrorStage::Validate,
            "request_id must be between 1 and 128 bytes"@,
        ),
{
    if is_blank(request_id) || utf8_len(request_id) > 128 {
        return Err(
            DomainError::from_message(
                ErrorCode::InvalidArgument,
                ErrorStage::Validate,
                "request_id must be between 1 and 128 bytes",
            ),
        );
    }
    Ok(())
}

/// The `Debug` name of a life-cycle state.
pub open spec fn lifecycle_name(l: Lifecycle) -> Seq<char> {
    match l {
        Lifecycle::Booting => "Booting"@,
        Lifecycle::Ready => "Ready"@,
        Lifecycle::Maintenance => "Maintenance"@,
        Lifecycle::Degraded => "Degraded"@,
        Lifecycle::NeedsSetup => "NeedsSetup"@,
    }
}

pub fn lifecycle_label(l: Lifecycle) -> (r: &'static str)
    ensures
        r@ == lifecycle_name(l),
{
    match l {
        Lifecycle::Booting => "Booting",
        Lifecycle::Ready => "Ready",
        Lifecycle::Maintenance => "Maintenance",
        Lifecycle::Degraded => "Degraded",
        Lifecycle::NeedsSetup => "NeedsSetup",
    }
}

/// The error a configuration request meets when the core cannot take it, if any.
pub open spec fn readiness_error(maintenance: bool, lifecycle: Lifecycle, e: DomainError) -> bool {
    if maintenance {
        is_plain_error(e, ErrorCode::MaintenanceMode, ErrorStage::Validate, "Unetic is in maintenance mode"@)
    } else {
        is_plain_error(
            e,
            ErrorCode::NotReady,
            ErrorStage::Validate,
            "core is not ready: "@ + lifecycle_name(lifecycle),
        )
    }
}

/// The core takes configuration requests only when ready and outside maintenance.
pub open spec fn accepts_requests(s: CoreState) -> bool {
    !s.maintenance && s.lifecycle == Lifecycle::Ready
}

pub fn check_app_ready(state: &CoreState) -> (r: Result<(), DomainError>)
    ensures
        r is Ok <==> accepts_requests(*state),
        r matches Err(e) ==> readiness_error(state.maintenance, state.lifecycle, e),
{
    if state.maintenance {
        return Err(
            DomainError::from_message(
                ErrorCode::MaintenanceMode,
                ErrorStage::Validate,
                "Unetic is in maintenance mode",
            ),
        );
    }
    if state.lifecycle != Lifecycle::Ready {
        let message = concat("core is not ready: ", lifecycle_label(state.lifecycle));
        return Err(DomainError::new(ErrorCode::NotReady, ErrorStage::Validate, message));
    }
    Ok(())
}

/// How a request id relates to the active and the last operation.
pub enum Replay {
    /// The request id is new.
    Fresh,
    /// The request repeats the operation with this id and status.
    Repeat { id: Seq<char>, status: OperationStatus },
    /// The request id was used for something else; the earlier requested SSID.
    Conflict { previous_ssid: Seq<char> },
    /// Another operation is running.
    Busy,
}

/// How a Wi-Fi request with `request_id` for `ssid` relates to earlier operations: the active
/// one decides first, then the last finished user operation.
pub open spec fn wifi_replay(s: CoreState, request_id: Seq<char>, ssid: Seq<char>) -> Replay {
    match s.active_operation {
        Some(a) => if opt_str_view(a.request_id) == Some(request_id) {
            if a.requested_ssid@ != ssid {
                Replay::Conflict { previous_ssid: a.requested_ssid@ }
            } else {
                Replay::Repeat { id: a.id@, status: a.status }
            }
        } else {
            Replay::Busy
        },
        None => match s.last_user_operation {
            Some(l) => if opt_str_view(l.request_id) == Some(request_id) {
                if l.requested_ssid@ != ssid {
                    Replay::Conflict { previous_ssid: l.requested_ssid@ }
                } else {
                    Replay::Repeat { id: l.id@, status: l.status }
                }
            } else {
                Replay::Fresh
            },
            None => Replay::Fresh,
        },
    }
}

/// The error reporting that a request id was already used for another SSID.
pub open spec fn is_ssid_conflict(e: DomainError, previous: Seq<char>, requested: Seq<char>) -> bool {
    &&& e.code == ErrorCode::IdempotencyConflict
    &&& e.stage == ErrorStage::Validate
    &&& e.message@ == "request_id was already used for a different SSID"@
    &&& !e.retryable && e.operation_id is None && e.request_id is None
    &&& e.details matches Some(ErrorDetails::SsidConflict { previous_ssid, requested_ssid })
        && previous_ssid@ == previous && requested_ssid@ == requested
}

pub fn idempotency_conflict(previous_ssid: &str, requested_ssid: &str) -> (e: DomainError)
    ensures
        is_ssid_conflict(e, previous_ssid@, requested_ssid@),
{
    DomainError::from_message(
        ErrorCode::IdempotencyConflict,
        ErrorStage::Validate,
        "request_id was already used for a different SSID",
    ).details(
        ErrorDetails::SsidConflict {
            previous_ssid: String::from_str(previous_ssid),
            requested_ssid: String::from_str(requested_ssid),
        },
    )
}

/// The result of checking a request against earlier operations.
pub open spec fn replay_result(
    rp: Replay,
    requested: Seq<char>,
    r: Result<Option<OperationAccepted>, DomainError>,
) -> bool {
    match rp {
        Replay::Fresh => r matches Ok(None),
        Replay::Repeat { id, status } => r matches Ok(Some(a)) && a.operation_id@ == id
            && a.status == status && !a.noop,
        Replay::Conflict { previous_ssid } => r matches Err(e) && is_ssid_conflict(
            e,
            previous_ssid,
            requested,
        ),
        Replay::Busy => r matches Err(e) && is_plain_error(
            e,
            ErrorCode::Busy,
            ErrorStage::Validate,
            "another configuration operation is active"@,
        ),
    }
}

fn same_request_id(id: &Option<String>, request_id: &str) -> (r: bool)
    ensures
        r == (opt_str_view(*id) == Some(request_id@)),
{
    match id {
        Some(x) => crate::text::str_eq(x.as_str(), request_id),
        None => false,
    }
}

/// Recognises a repeated request: answers a repeat with the first operation, refuses a
/// reused request id or a second concurrent operation.
pub fn check_idempotency(state: &CoreState, request_id: &str, requested_ssid: &str) -> (r: Result<
    Option<OperationAccepted>,
    DomainError,
>)
    ensures
        replay_result(wifi_replay(*state, request_id@, requested_ssid@), requested_ssid@, r),
{
    if let Some(active) = &state.active_operation {
        if same_request_id(&active.request_id, request_id) {
            if !crate::text::str_eq(active.requested_ssid.as_str(), requested_ssid) {
                return Err(idempotency_conflict(active.requested_ssid.as_str(), requested_ssid));
            }
            return Ok(
                Some(
                    OperationAccepted {
                        operation_id: active.id.clone(),
                        status: active.status,
                        noop: false,
                    },
                ),
            );
        }
        return Err(
            DomainError::from_message(
                ErrorCode::Busy,
                ErrorStage::Validate,
                "another configuration operation is active",
            ),
        );
    }
    if let Some(last) = &state.last_user_operation {
        if same_request_id(&last.request_id, request_id) {
            if !crate::text::str_eq(last.requested_ssid.as_str(), requested_ssid) {
                return Err(idempotency_conflict(last.requested_ssid.as_str(), requested_ssid));
            }
            return Ok(
                Some(
                    OperationAccepted { operation_id: last.id.clone(), status: last.status, noop: false },
                ),
            );
        }
    }
    Ok(None)
}

/// The error reporting that the client's view of the configuration is stale.
pub open spec fn is_revision_conflict(e: DomainError, expected: u64, current: u64) -> bool {
    &&& e.code == ErrorCode::RevisionConflict
    &&& e.stage == ErrorStage::Validate
    &&& e.message@ == "configuration changed since this client last synchronized"@
    &&& !e.retryable && e.operation_id is None && e.request_id is None
    &&& e.details matches Some(ErrorDetails::Revisions { expected_revision, current_revision })
        && expected_revision == expected && current_revision == current
}

pub fn check_revision(current_revision: u64, expected_revision: u64) -> (r: Result<(), DomainError>)
    ensures
        r is Ok <==> expected_revision == current_revision,
        r matches Err(e) ==> is_revision_conflict(e, expected_revision, current_revision),
{
    if expected_revision != current_revision {
        return Err(
            DomainError::from_message(
                ErrorCode::RevisionConflict,
                ErrorStage::Validate,
                "configuration changed since this client last synchronized",
            ).details(ErrorDetails::Revisions { expected_revision, current_revision }),
        );
    }
    Ok(())
}

/// The key a request stores: none when the network is open.
pub open spec fn normalized_key(req: SetWifiConfigRequest) -> Option<Seq<char>> {
    if req.encryption@ == "none"@ {
        None
    } else {
        opt_str_view(req.key)
    }
}

fn normalize_key(request: &SetWifiConfigRequest) -> (r: Option<String>)
    ensures
        opt_str_view(r) == normalized_key(*request),
{
    proof {
        reveal_strlit("none");
    }
    if crate::text::str_eq(request.encryption.as_str(), "none") {
        None
    } else {
        clone_opt_str(&request.key)
    }
}

/// A request that asks for the settings already in place.
pub open spec fn wifi_noop_spec(current: WifiView, req: SetWifiConfigRequest) -> bool {
    current.ssid == req.ssid@ && current.encryption == req.encryption@ && current.key
        == normalized_key(req)
}

pub fn is_wifi_noop(current: &WifiNetworkConfig, request: &SetWifiConfigRequest) -> (r: bool)
    ensures
        r == wifi_noop_spec(current@, *request),
{
    let key = normalize_key(request);
    current.ssid == request.ssid && current.encryption == request.encryption
        && crate::text::opt_str_eq(&current.key, &key)
}

/// The change a user request starts from the current state.
pub open spec fn is_user_wifi_context(
    c: ChangeContext,
    s: CoreState,
    operation_id: Seq<char>,
    req: SetWifiConfigRequest,
) -> bool {
    &&& c.operation_id@ == operation_id
    &&& opt_str_view(c.request_id) == Some(req.request_id@)
    &&& c.source == OperationSource::User
    &&& c.base_revision == s.config.revision
    &&& c.target_revision == s.config.revision + 1
    &&& c.old_wifi@ == s.config.wifi.primary@
    &&& c.new_wifi@ == (WifiView {
        ssid: req.ssid@,
        encryption: req.encryption@,
        key: normalized_key(req),
        targets: s.config.wifi.primary@.targets,
    })
    &&& strs_view(c.targets@) == s.config.wifi.primary@.targets
    &&& c.backhaul is None
    &&& c.radio_channels@.len() == 0
}

pub fn build_wifi_change_context(
    state: &CoreState,
    operation_id: String,
    request: &SetWifiConfigRequest,
) -> (c: ChangeContext)
    requires
        state.config.revision < u64::MAX,
    ensures
        is_user_wifi_context(c, *state, operation_id@, *request),
{
    let new_wifi = WifiNetworkConfig {
        ssid: request.ssid.clone(),
        encryption: request.encryption.clone(),
        key: normalize_key(request),
        targets: clone_strs(&state.config.wifi.primary.targets),
    };
    ChangeContext {
        operation_id,
        request_id: Some(request.request_id.clone()),
        source: OperationSource::User,
        base_revision: state.config.revision,
        target_revision: state.config.revision + 1,
        old_wifi: state.config.wifi.primary.copy(),
        new_wifi,
        targets: clone_strs(&state.config.wifi.primary.targets),
        backhaul: None,
        radio_channels: Vec::new(),
    }
}

/// The state after a change starts: the change is the active operation, nothing else moved.
pub open spec fn wifi_start_recorded(after: CoreState, before: CoreState, c: ChangeContext) -> bool {
    &&& after.active_operation matches Some(op) && op.id@ == c.operation_id@ && op.status
        == OperationStatus::Accepted && op.source == c.source && opt_str_view(op.request_id)
        == opt_str_view(c.request_id) && op.requested_ssid@ == c.new_wifi.ssid@ && op.error is None
        && opt_intent_view(op.intent) == Some(wifi_intent(c.new_wifi@))
    &&& after == (CoreState { active_operation: after.active_operation, ..before })
}

/// How a Wi-Fi request is answered when it is admitted.
#[derive(Debug)]
pub enum WifiChangeStart {
    /// The request repeats an earlier one; its answer.
    Repeat(OperationAccepted),
    /// The settings are already in place; nothing runs.
    Noop(OperationAccepted),
    /// A change must run.
    Start(ChangeContext),
}

/// The request passes the checks that need no state: valid settings and request id.
pub open spec fn wifi_request_well_formed(req: SetWifiConfigRequest) -> bool {
    ssid_valid(req.ssid@) && key_rejection(req.encryption@, opt_str_view(req.key)) is None
        && request_id_ok(req.request_id@)
}

/// The request passes every check and asks for other settings than those in place, so a
/// change starts, numbered with the next revision.
pub open spec fn wifi_change_starts(s: CoreState, req: SetWifiConfigRequest) -> bool {
    &&& wifi_request_well_formed(req)
    &&& accepts_requests(s)
    &&& wifi_replay(s, req.request_id@, req.ssid@) is Fresh
    &&& req.expected_revision == s.config.revision
    &&& !wifi_noop_spec(s.config.wifi.primary@, req)
}

/// `set_wifi_config` up to the point where the change is journalled: validation, readiness,
/// idempotency, revision check, then either a no-op answer or the start of a change, which
/// becomes the active operation. A change needs a next revision number.
pub fn begin_wifi_change(
    state: &mut CoreState,
    request: &SetWifiConfigRequest,
    operation_id: String,
) -> (r: Result<WifiChangeStart, DomainError>)
    requires
        wifi_change_starts(*old(state), *request) ==> old(state).config.revision < u64::MAX,
    ensures
        !wifi_request_well_formed(*request) ==> {
            &&& r is Err
            &&& *final(state) == *old(state)
            &&& !(ssid_valid(request.ssid@) && key_rejection(request.encryption@, opt_str_view(request.key)) is None) ==> {
                r matches Err(e) && if !ssid_valid(request.ssid@) {
                    ssid_error_ok(request.ssid@, e)
                } else {
                    is_plain_error(
                        e,
                        ErrorCode::InvalidArgument,
                        ErrorStage::Validate,
                        key_rejection(request.encryption@, opt_str_view(request.key))->0,
                    )
                }
            }
            &&& (ssid_valid(request.ssid@) && key_rejection(request.encryption@, opt_str_view(request.key)) is None) ==> {
                r matches Err(e) && is_plain_error(
                    e,
                    ErrorCode::InvalidArgument,
                    ErrorStage::Validate,
                    "request_id must be between 1 and 128 bytes"@,
                )
            }
        },
        wifi_request_well_formed(*request) && !accepts_requests(*old(state)) ==> {
            &&& r matches Err(e) && readiness_error(old(state).maintenance, old(state).lifecycle, e)
            &&& *final(state) == *old(state)
        },
        wifi_request_well_formed(*request) && accepts_requests(*old(state)) ==> {
            let rp = wifi_replay(*old(state), request.request_id@, request.ssid@);
            match rp {
                Replay::Fresh => if request.expected_revision != old(state).config.revision {
                    &&& r matches Err(e) && is_revision_conflict(
                        e,
                        request.expected_revision,
                        old(state).config.revision,
                    )
                    &&& *final(state) == *old(state)
                } else if wifi_noop_spec(old(state).config.wifi.primary@, *request) {
                    &&& r matches Ok(WifiChangeStart::Noop(a)) && a.operation_id == operation_id
                        && a.status == OperationStatus::Succeeded && a.noop
                    &&& *final(state) == *old(state)
                } else {
                    r matches Ok(WifiChangeStart::Start(c)) && is_user_wifi_context(
                        c,
                        *old(state),
                        operation_id@,
                        *request,
                    ) && wifi_start_recorded(*final(state), *old(state), c)
                },
                Replay::Repeat { id, status } => {
                    &&& r matches Ok(WifiChangeStart::Repeat(a)) && a.operation_id@ == id
                        && a.status == status && !a.noop
                    &&& *final(state) == *old(state)
                },
                _ => {
                    &&& r is Err
                    &&& replay_result(
                        rp,
                        request.ssid@,
                        match r {
                            Ok(_) => Ok(None),
                            Err(e) => Err(e),
                        },
                    )
                    &&& *final(state) == *old(state)
                },
            }
        },
{
    let key = match &request.key {
        Some(k) => Some(k.as_str()),
        None => None,
    };
    assert(crate::wifi::opt_slice_view(key) == opt_str_view(request.key));
    validate_wifi_config(request.ssid.as_str(), request.encryption.as_str(), key)?;
    validate_request_id(request.request_id.as_str())?;
    check_app_ready(state)?;
    match check_idempotency(state, request.request_id.as_str(), request.ssid.as_str()) {
        Err(e) => {
            return Err(e);
        },
        Ok(Some(accepted)) => {
            return Ok(WifiChangeStart::Repeat(accepted));
        },
        Ok(None) => {},
    }
    check_revision(state.config.revision, request.expected_revision)?;
    if is_wifi_noop(&state.config.wifi.primary, request) {
        return Ok(
            WifiChangeStart::Noop(
                OperationAccepted { operation_id, status: OperationStatus::Succeeded, noop: true },
            ),
        );
    }
    let context = build_wifi_change_context(state, operation_id, request);
    state.active_operation = Some(context.public(OperationStatus::Accepted, None));
    Ok(WifiChangeStart::Start(context))
}


/// The outcome code of a Wi-Fi change request.
#[derive(Debug, Clone, Copy, PartialEq, Eq, Structural)]
pub enum WifiSetError {
    Success,
    InvalidWifiConfig,
    ApplyFailed,
    NotReady,
}

impl WifiSetError {
    /// The numeric code clients see.
    pub fn code(&self) -> (r: u32)
        ensures
            r == match *self {
                WifiSetError::Success => 0u32,
                WifiSetError::InvalidWifiConfig => 1u32,
                WifiSetError::ApplyFailed => 2u32,
                WifiSetError::NotReady => 3u32,
            },
    {
        match self {
            WifiSetError::Success => 0,
            WifiSetError::InvalidWifiConfig => 1,
            WifiSetError::ApplyFailed => 2,
            WifiSetError::NotReady => 3,
        }
    }
}

/// The outcome code of a refusal: the core cannot take the request now, the request conflicts
/// with the state, or it is invalid.
pub open spec fn wifi_set_error_of(code: ErrorCode) -> WifiSetError {
    match code {
        ErrorCode::Busy | ErrorCode::NotReady | ErrorCode::MaintenanceMode => WifiSetError::NotReady,
        ErrorCode::RevisionConflict | ErrorCode::IdempotencyConflict => WifiSetError::ApplyFailed,
        _ => WifiSetError::InvalidWifiConfig,
    }
}

impl From<DomainError> for WifiSetError {
    fn from(err: DomainError) -> (r: WifiSetError) {
        match err.code {
            ErrorCode::Busy | ErrorCode::NotReady | ErrorCode::MaintenanceMode => WifiSetError::NotReady,
            ErrorCode::RevisionConflict | ErrorCode::IdempotencyConflict => WifiSetError::ApplyFailed,
            _ => WifiSetError::InvalidWifiConfig,
        }
    }
}

impl vstd::std_specs::convert::FromSpecImpl<DomainError> for WifiSetError {
    open spec fn obeys_from_spec() -> bool {
        true
    }

    open spec fn from_spec(err: DomainError) -> WifiSetError {
        wifi_set_error_of(err.code)
    }
}


/// The error recorded when the worker that runs an accepted change could not be started.
pub fn worker_spawn_error(reason: &str, operation_id: &str, request_id: Option<&str>) -> (e: DomainError)
    ensures
        e.code == ErrorCode::Internal,
        e.stage == ErrorStage::Internal,
        e.message@ == "failed to start transaction worker: "@ + reason@,
        !e.retryable,
        opt_str_view(e.operation_id) == Some(operation_id@),
        opt_str_view(e.request_id) == crate::wifi::opt_slice_view(request_id),
        e.details is None,
{
    DomainError::new(ErrorCode::Internal, ErrorStage::Internal, concat("failed to start transaction worker: ", reason))
        .with_operation(operation_id, request_id)
}

/// The state still knows operation `id`, started for `request_id` and `ssid`: it is the active
/// operation, or, with none active, the last finished user operation.
pub open spec fn knows_request(s: CoreState, id: Seq<char>, request_id: Seq<char>, ssid: Seq<char>) -> bool {
    match s.active_operation {
        Some(a) => a.id@ == id && opt_str_view(a.request_id) == Some(request_id) && a.requested_ssid@ == ssid,
        None => s.last_user_operation matches Some(l) && l.id@ == id && opt_str_view(l.request_id) == Some(
            request_id,
        ) && l.requested_ssid@ == ssid,
    }
}

/// The status the state holds for the operation it knows.
pub open spec fn known_status(s: CoreState) -> OperationStatus {
    match s.active_operation {
        Some(a) => a.status,
        None => s.last_user_operation->0.status,
    }
}

/// Repeating a request answers with the operation it started: a change started by a request is
/// then known under that request; while the state still knows it, the same request id and SSID,
/// whatever revision they name, are answered with that operation and its current status, and
/// no new operation starts.
pub proof fn lemma_repeat_answers_same_operation(
    first_before: CoreState,
    first_after: CoreState,
    c: ChangeContext,
    operation_id: Seq<char>,
    request: SetWifiConfigRequest,
    later: CoreState,
)
    requires
        is_user_wifi_context(c, first_before, operation_id, request),
        wifi_start_recorded(first_after, first_before, c),
    ensures
        knows_request(first_after, operation_id, request.request_id@, request.ssid@),
        knows_request(later, operation_id, request.request_id@, request.ssid@) ==> wifi_replay(
            later,
            request.request_id@,
            request.ssid@,
        ) == (Replay::Repeat { id: operation_id, status: known_status(later) }),
{
}

} // verus!

verus! {

/// A status update leaves the request known: updating the status or error of the active
/// operation keeps its id, request id and SSID.
pub proof fn lemma_status_update_keeps_request(
    before: CoreState,
    after: CoreState,
    operation_id: Seq<char>,
    status: OperationStatus,
    error: Option<DomainError>,
    id: Seq<char>,
    request_id: Seq<char>,
    ssid: Seq<char>,
)
    requires
        knows_request(before, id, request_id, ssid),
        match before.active_operation {
            Some(a) => if a.id@ == operation_id {
                after == (CoreState {
                    active_operation: Some(crate::operation::PublicOperation { status, error, ..a }),
                    ..before
                })
            } else {
                after == before
            },
            None => after == before,
        },
    ensures
        knows_request(after, id, request_id, ssid),
{
}

/// A finished user change leaves its request known: whether it succeeded or failed, the
/// operation becomes the last user operation, under the id, request id and SSID it started
/// with, so the same request is still answered with it.
pub proof fn lemma_finished_change_keeps_request(
    c: ChangeContext,
    started_from: CoreState,
    operation_id: Seq<char>,
    request: SetWifiConfigRequest,
    before: CoreState,
    after: CoreState,
    last: LastOperation,
    status: OperationStatus,
    revision: u64,
    last_error: Option<DomainError>,
    finished_at_ms: u64,
    store_error: Option<DomainError>,
    error: DomainError,
    rollback_failed: bool,
    store_failed: bool,
)
    requires
        is_user_wifi_context(c, started_from, operation_id, request),
        crate::completion::is_wifi_last_op(last, c, status, revision, last_error, finished_at_ms),
        crate::completion::wifi_success_spec(after, before, c, last, store_error) || crate::completion::failure_spec(
            after,
            before,
            c.source,
            last,
            error,
            rollback_failed,
            store_failed,
        ),
    ensures
        knows_request(after, operation_id, request.request_id@, request.ssid@),
        known_status(after) == status,
        wifi_replay(after, request.request_id@, request.ssid@) == (Replay::Repeat { id: operation_id, status }),
{
}

} // verus!
