//! WAN configuration requests: admission, idempotency and the start of a change.

use vstd::prelude::*;
use vstd::string::*;

use crate::errors::{DomainError, ErrorCode, ErrorStage, is_plain_error, opt_str_view};
use crate::operation::{
    IntentView, LastOperation, OperationAccepted, OperationIntent, OperationSource,
    OperationStatus, WanChangeContext, opt_intent_view,
};
use crate::state::CoreState;
use crate::wan::{
    WanDesired, WanView, normalize_spec, normalize_wan_desired, rejected_as, validate_wan_desired,
    wan_desired_eq, wan_rejection,
};
use crate::wifi_ops::{
    Replay, accepts_requests, check_app_ready, check_revision, is_revision_conflict,
    readiness_error, request_id_ok, validate_request_id,
};

verus! {

/// A request to change the WAN configuration.
#[derive(Debug, Clone)]
pub struct SetWanRequest {
    pub request_id: String,
    pub wan: WanDesired,
    pub expected_revision: u64,
}

/// Why `validate_wan_request` rejects a request.
pub open spec fn wan_request_rejection(request_id: Seq<char>, wan: WanView) -> Option<Seq<char>> {
    if !request_id_ok(request_id) {
        Some("request_id must be between 1 and 128 characters"@)
    } else {
        wan_rejection(wan)
    }
}

/// Validates a WAN request: its request id, then the configuration.
pub fn validate_wan_request(request: &SetWanRequest) -> (r: Result<(), DomainError>)
    ensures
        rejected_as(r, wan_request_rejection(request.request_id@, request.wan@)),
{
    if crate::text::is_blank(request.request_id.as_str()) || crate::text::utf8_len(
        request.request_id.as_str(),
    ) > 128 {
        return Err(
            DomainError::from_message(
                ErrorCode::InvalidArgument,
                ErrorStage::Validate,
                "request_id must be between 1 and 128 characters",
            ),
        );
    }
    validate_wan_desired(&request.wan)
}

/// How a WAN request relates to earlier operations: the active one decides first, then the
/// last finished user operation; a repeat must ask for the same configuration.
pub open spec fn wan_replay(s: CoreState, request_id: Seq<char>, intent: IntentView) -> Replay {
    match s.active_operation {
        Some(a) => if opt_str_view(a.request_id) == Some(request_id) {
            if opt_intent_view(a.intent) != Some(intent) {
                Replay::Conflict { previous_ssid: Seq::empty() }
            } else {
                Replay::Repeat { id: a.id@, status: a.status }
            }
        } else {
            Replay::Busy
        },
        None => match s.last_user_operation {
            Some(l) => if opt_str_view(l.request_id) == Some(request_id) {
                if opt_intent_view(l.intent) != Some(intent) {
                    Replay::Conflict { previous_ssid: Seq::empty() }
                } else {
                    Replay::Repeat { id: l.id@, status: l.status }
                }
            } else {
                Replay::Fresh
            },
            None => Replay::Fresh,
        },
    }
}

pub open spec fn wan_replay_result(rp: Replay, r: Result<Option<OperationAccepted>, DomainError>) -> bool {
    match rp {
        Replay::Fresh => r matches Ok(None),
        Replay::Repeat { id, status } => r matches Ok(Some(a)) && a.operation_id@ == id
            && a.status == status && !a.noop,
        Replay::Conflict { .. } => r matches Err(e) && is_plain_error(
            e,
            ErrorCode::IdempotencyConflict,
            ErrorStage::Validate,
            "request_id was already used for a different WAN configuration"@,
        ),
        Replay::Busy => r matches Err(e) && is_plain_error(
            e,
            ErrorCode::Busy,
            ErrorStage::Validate,
            "another configuration operation is active"@,
        ),
    }
}

fn same_intent(i: &Option<OperationIntent>, wan: &WanDesired) -> (r: bool)
    ensures
        r == (opt_intent_view(*i) == Some(IntentView::Wan(wan@))),
{
    match i {
        Some(OperationIntent::Wan(w)) => wan_desired_eq(w, wan),
        _ => false,
    }
}

fn same_request_id(id: &Option<String>, request_id: &str) -> (r: bool)
    ensures
        r == (opt_str_view(*id) == Some(request_id@)),
{
    match id {
        Some(x) => crate::text::str_eq(x.as_str(), request_id),
        None => false,
    }
}

fn wan_idempotency_conflict() -> (e: DomainError)
    ensures
        is_plain_error(
            e,
            ErrorCode::IdempotencyConflict,
            ErrorStage::Validate,
            "request_id was already used for a different WAN configuration"@,
        ),
{
    DomainError::from_message(
        ErrorCode::IdempotencyConflict,
        ErrorStage::Validate,
        "request_id was already used for a different WAN configuration",
    )
}

pub fn check_wan_idempotency(state: &CoreState, request: &SetWanRequest) -> (r: Result<
    Option<OperationAccepted>,
    DomainError,
>)
    ensures
        wan_replay_result(
            wan_replay(*state, request.request_id@, IntentView::Wan(request.wan@)),
            r,
        ),
{
    if let Some(active) = &state.active_operation {
        if same_request_id(&active.request_id, request.request_id.as_str()) {
            if !same_intent(&active.intent, &request.wan) {
                return Err(wan_idempotency_conflict());
            }
            return Ok(
                Some(
                    OperationAccepted {
                        operation_id: active.id.clone(),
                        status: active.status,
                        noop: false,
                    },
                ),
            );
        }
        return Err(
            DomainError::from_message(
                ErrorCode::Busy,
                ErrorStage::Validate,
                "another configuration operation is active",
            ),
        );
    }
    if let Some(last) = &state.last_user_operation {
        if same_request_id(&last.request_id, request.request_id.as_str()) {
            if !same_intent(&last.intent, &request.wan) {
                return Err(wan_idempotency_conflict());
            }
            return Ok(
                Some(
                    OperationAccepted { operation_id: last.id.clone(), status: last.status, noop: false },
                ),
            );
        }
    }
    Ok(None)
}

/// The record of a WAN request that needed no change.
pub open spec fn is_wan_noop_record(
    l: LastOperation,
    operation_id: Seq<char>,
    revision: u64,
    request_id: Seq<char>,
    wan: WanView,
    finished_at_ms: u64,
) -> bool {
    &&& l.id@ == operation_id
    &&& opt_str_view(l.request_id) == Some(request_id)
    &&& l.source == OperationSource::User
    &&& l.kind@ == "wan.set_config"@
    &&& l.status == OperationStatus::Succeeded
    &&& l.revision == revision
    &&& l.requested_ssid@ == Seq::<char>::empty()
    &&& opt_intent_view(l.intent) == Some(IntentView::Wan(wan))
    &&& l.error is None
    &&& l.finished_at_ms == finished_at_ms
}

pub fn noop_last_operation(
    accepted: &OperationAccepted,
    revision: u64,
    request: &SetWanRequest,
    finished_at_ms: u64,
) -> (l: LastOperation)
    ensures
        is_wan_noop_record(
            l,
            accepted.operation_id@,
            revision,
            request.request_id@,
            request.wan@,
            finished_at_ms,
        ),
{
    LastOperation {
        id: accepted.operation_id.clone(),
        request_id: Some(request.request_id.clone()),
        source: OperationSource::User,
        kind: String::from_str("wan.set_config"),
        status: OperationStatus::Succeeded,
        revision,
        requested_ssid: String::new(),
        intent: Some(OperationIntent::Wan(request.wan.copy())),
        error: None,
        finished_at_ms,
    }
}

/// The change a user WAN request starts from the current state.
pub open spec fn is_user_wan_context(
    c: WanChangeContext,
    s: CoreState,
    operation_id: Seq<char>,
    req: SetWanRequest,
) -> bool {
    &&& c.operation_id@ == operation_id
    &&& opt_str_view(c.request_id) == Some(req.request_id@)
    &&& c.source == OperationSource::User
    &&& c.base_revision == s.config.revision
    &&& c.target_revision == s.config.revision + 1
    &&& c.old_wan@ == s.config.wan@
    &&& c.new_wan@ == req.wan@
}

pub fn build_wan_change_context(
    state: &CoreState,
    operation_id: String,
    request: &SetWanRequest,
) -> (c: WanChangeContext)
    requires
        state.config.revision < u64::MAX,
    ensures
        is_user_wan_context(c, *state, operation_id@, *request),
{
    WanChangeContext {
        operation_id,
        request_id: Some(request.request_id.clone()),
        source: OperationSource::User,
        base_revision: state.config.revision,
        target_revision: state.config.revision + 1,
        old_wan: state.config.wan.copy(),
        new_wan: request.wan.copy(),
    }
}

/// A started WAN change and the state it leaves: the change is the active operation.
pub open spec fn wan_start_ok(
    c: WanChangeContext,
    after: CoreState,
    before: CoreState,
    operation_id: Seq<char>,
    request_id: Seq<char>,
    wan: WanView,
) -> bool {
    &&& c.operation_id@ == operation_id
    &&& c.source == OperationSource::User
    &&& opt_str_view(c.request_id) == Some(request_id)
    &&& c.base_revision == before.config.revision
    &&& c.target_revision == before.config.revision + 1
    &&& c.old_wan@ == before.config.wan@
    &&& c.new_wan@ == wan
    &&& after.active_operation matches Some(op) && op.id@ == operation_id && op.status
        == OperationStatus::Accepted && opt_intent_view(op.intent) == Some(IntentView::Wan(wan))
    &&& after == (CoreState { active_operation: after.active_operation, ..before })
}

/// How a WAN request is answered when it is admitted.
#[derive(Debug)]
pub enum WanChangeStart {
    Repeat(OperationAccepted),
    /// The configuration is already in place; the request is recorded as done.
    Noop(OperationAccepted),
    Start(WanChangeContext),
}

/// The request with its configuration normalised.
pub open spec fn normalized_request(req: SetWanRequest, wan: WanView) -> bool {
    wan == normalize_spec(req.wan@)
}

/// The request passes every check and asks for another configuration than the one in place,
/// so a change starts, numbered with the next revision.
pub open spec fn wan_change_starts(s: CoreState, req: SetWanRequest) -> bool {
    &&& wan_request_rejection(req.request_id@, req.wan@) is None
    &&& accepts_requests(s)
    &&& wan_replay(s, req.request_id@, IntentView::Wan(normalize_spec(req.wan@))) is Fresh
    &&& req.expected_revision == s.config.revision
    &&& s.config.wan@ != normalize_spec(req.wan@)
}

/// `set_wan` up to the point where the change is journalled: validation, normalisation,
/// readiness, idempotency on the normalised configuration, revision check, then a no-op that
/// is recorded as the last user operation, or a change that becomes the active operation. A
/// change needs a next revision number.
pub fn begin_wan_change(
    state: &mut CoreState,
    request: SetWanRequest,
    operation_id: String,
    now_ms: u64,
) -> (r: Result<WanChangeStart, DomainError>)
    requires
        wan_change_starts(*old(state), request) ==> old(state).config.revision < u64::MAX,
    ensures
        wan_request_rejection(request.request_id@, request.wan@) is Some ==> {
            &&& rejected_as(r, wan_request_rejection(request.request_id@, request.wan@))
            &&& *final(state) == *old(state)
        },
        wan_request_rejection(request.request_id@, request.wan@) is None && !accepts_requests(
            *old(state),
        ) ==> {
            &&& r matches Err(e) && readiness_error(old(state).maintenance, old(state).lifecycle, e)
            &&& *final(state) == *old(state)
        },
        wan_request_rejection(request.request_id@, request.wan@) is None && accepts_requests(
            *old(state),
        ) ==> {
            let wan = normalize_spec(request.wan@);
            let rp = wan_replay(*old(state), request.request_id@, IntentView::Wan(wan));
            match rp {
                Replay::Fresh => if request.expected_revision != old(state).config.revision {
                    &&& r matches Err(e) && is_revision_conflict(
                        e,
                        request.expected_revision,
                        old(state).config.revision,
                    )
                    &&& *final(state) == *old(state)
                } else if old(state).config.wan@ == wan {
                    &&& r matches Ok(WanChangeStart::Noop(a)) && a.operation_id == operation_id
                        && a.status == OperationStatus::Succeeded && a.noop
                    &&& final(state).last_user_operation matches Some(l) && is_wan_noop_record(
                        l,
                        operation_id@,
                        old(state).config.revision,
                        request.request_id@,
                        wan,
                        now_ms,
                    )
                    &&& *final(state) == (CoreState {
                        last_user_operation: final(state).last_user_operation,
                        ..*old(state)
                    })
                } else {
                    r matches Ok(WanChangeStart::Start(c)) && wan_start_ok(
                        c,
                        *final(state),
                        *old(state),
                        operation_id@,
                        request.request_id@,
                        wan,
                    )
                },
                Replay::Repeat { id, status } => {
                    &&& r matches Ok(WanChangeStart::Repeat(a)) && a.operation_id@ == id
                        && a.status == status && !a.noop
                    &&& *final(state) == *old(state)
                },
                _ => {
                    &&& r is Err
                    &&& wan_replay_result(
                        rp,
                        match r {
                            Ok(_) => Ok(None),
                            Err(e) => Err(e),
                        },
                    )
                    &&& *final(state) == *old(state)
                },
            }
        },
{
    validate_wan_request(&request)?;
    let mut request = request;
    request.wan = normalize_wan_desired(request.wan);
    check_app_ready(state)?;
    match check_wan_idempotency(state, &request) {
        Err(e) => {
            return Err(e);
        },
        Ok(Some(accepted)) => {
            return Ok(WanChangeStart::Repeat(accepted));
        },
        Ok(None) => {},
    }
    check_revision(state.config.revision, request.expected_revision)?;
    if wan_desired_eq(&state.config.wan, &request.wan) {
        let accepted = OperationAccepted {
            operation_id,
            status: OperationStatus::Succeeded,
            noop: true,
        };
        state.last_user_operation = Some(
            noop_last_operation(&accepted, state.config.revision, &request, now_ms),
        );
        return Ok(WanChangeStart::Noop(accepted));
    }
    let context = build_wan_change_context(state, operation_id, &request);
    state.active_operation = Some(context.public(OperationStatus::Accepted, None));
    Ok(WanChangeStart::Start(context))
}

} // verus!
