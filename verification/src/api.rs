//! The methods of the ubus API, how a call names them, how its request text is read, and the
//! envelope of its response.

use vstd::prelude::*;
use vstd::string::*;

use crate::errors::{DomainError, ErrorCode, ErrorStage, is_plain_error};
use crate::json::{Json, JsonView, distinct_keys, has_key, json_view, json_wf, key_index, lemma_key_at};
use crate::text::{concat, concat3, decimal, decimal_spec, str_eq};

verus! {

/// The version of the API envelope.
pub const API_VERSION: u32 = 1;

/// A method of the API.
#[derive(Debug, Clone, Copy, PartialEq, Eq, Structural)]
pub enum ApiMethod {
    State,
    WifiGet,
    WanGet,
    SwitchGet,
    SystemInfo,
    OperationGet,
    MaintenanceGet,
    HealthGet,
    WifiSetSsid,
    WanSet,
    MaintenanceEnter,
    MaintenanceExit,
    ToolsPing,
}

/// The method a call names, if any; `wan.set_config` is another name of `wan.set`.
pub open spec fn method_named(name: Seq<char>) -> Option<ApiMethod> {
    if name == "state"@ {
        Some(ApiMethod::State)
    } else if name == "wifi.get"@ {
        Some(ApiMethod::WifiGet)
    } else if name == "wan.get"@ {
        Some(ApiMethod::WanGet)
    } else if name == "switch.get"@ {
        Some(ApiMethod::SwitchGet)
    } else if name == "system.info"@ {
        Some(ApiMethod::SystemInfo)
    } else if name == "operation.get"@ {
        Some(ApiMethod::OperationGet)
    } else if name == "maintenance.get"@ {
        Some(ApiMethod::MaintenanceGet)
    } else if name == "health.get"@ {
        Some(ApiMethod::HealthGet)
    } else if name == "wifi.set_ssid"@ {
        Some(ApiMethod::WifiSetSsid)
    } else if name == "wan.set"@ || name == "wan.set_config"@ {
        Some(ApiMethod::WanSet)
    } else if name == "maintenance.enter"@ {
        Some(ApiMethod::MaintenanceEnter)
    } else if name == "maintenance.exit"@ {
        Some(ApiMethod::MaintenanceExit)
    } else if name == "tools.ping"@ {
        Some(ApiMethod::ToolsPing)
    } else {
        None
    }
}

/// The method a call names; an unknown name is refused.
pub fn route(method: &str) -> (r: Result<ApiMethod, DomainError>)
    ensures
        match method_named(method@) {
            Some(m) => r == Ok::<ApiMethod, DomainError>(m),
            None => r matches Err(e) && is_plain_error(
                e,
                ErrorCode::InvalidArgument,
                ErrorStage::Validate,
                "unknown Unetic method: "@ + method@,
            ),
        },
{
    if str_eq(method, "state") {
        Ok(ApiMethod::State)
    } else if str_eq(method, "wifi.get") {
        Ok(ApiMethod::WifiGet)
    } else if str_eq(method, "wan.get") {
        Ok(ApiMethod::WanGet)
    } else if str_eq(method, "switch.get") {
        Ok(ApiMethod::SwitchGet)
    } else if str_eq(method, "system.info") {
        Ok(ApiMethod::SystemInfo)
    } else if str_eq(method, "operation.get") {
        Ok(ApiMethod::OperationGet)
    } else if str_eq(method, "maintenance.get") {
        Ok(ApiMethod::MaintenanceGet)
    } else if str_eq(method, "health.get") {
        Ok(ApiMethod::HealthGet)
    } else if str_eq(method, "wifi.set_ssid") {
        Ok(ApiMethod::WifiSetSsid)
    } else if str_eq(method, "wan.set") || str_eq(method, "wan.set_config") {
        Ok(ApiMethod::WanSet)
    } else if str_eq(method, "maintenance.enter") {
        Ok(ApiMethod::MaintenanceEnter)
    } else if str_eq(method, "maintenance.exit") {
        Ok(ApiMethod::MaintenanceExit)
    } else if str_eq(method, "tools.ping") {
        Ok(ApiMethod::ToolsPing)
    } else {
        Err(DomainError::new(ErrorCode::InvalidArgument, ErrorStage::Validate, concat("unknown Unetic method: ", method)))
    }
}

/// The JSON value a request text denotes, as `serde_json` reads it; none when the text is not
/// JSON.
pub uninterp spec fn json_text_value(text: Seq<char>) -> Option<JsonView>;

/// The reason `serde_json` gives for a text it cannot read as JSON.
pub uninterp spec fn json_text_error(text: Seq<char>) -> Seq<char>;

#[verifier::external_type_specification]
#[verifier::external_body]
pub struct ExJsonValue(serde_json::Value);

/// Turns a `serde_json::Value` into the library's form, variant for variant; a number keeps the
/// text `serde_json` writes for it. The claim is that the result has each object key at most
/// once: an object of `serde_json` is a map from keys.
#[verifier::external_body]
fn json_of_value(v: serde_json::Value) -> (r: Json)
    ensures
        json_wf(r),
{
    match v {
        serde_json::Value::Null => Json::Null,
        serde_json::Value::Bool(b) => Json::Bool(b),
        serde_json::Value::Number(n) => Json::Number(n.to_string()),
        serde_json::Value::String(s) => Json::Text(s),
        serde_json::Value::Array(items) => Json::Array(items.into_iter().map(json_of_value).collect()),
        serde_json::Value::Object(map) => Json::Object(map.into_iter().map(|(k, v)| (k, json_of_value(v))).collect()),
    }
}

/// Reads `text` as JSON with `serde_json::from_str::<serde_json::Value>`. The claim is that the
/// read is a function of the text: its value, in the library's form, is `json_text_value` of
/// the text, and a text it refuses has no value and gives the reason `json_text_error` (the
/// `Display` of `serde_json::Error`).
#[verifier::external_body]
pub fn parse_json(text: &str) -> (r: Result<Json, String>)
    ensures
        match r {
            Ok(j) => json_wf(j) && json_text_value(text@) == Some(json_view(j)),
            Err(reason) => json_text_value(text@) is None && reason@ == json_text_error(text@),
        },
{
    match serde_json::from_str::<serde_json::Value>(text) {
        Ok(value) => Ok(json_of_value(value)),
        Err(error) => Err(error.to_string()),
    }
}

/// What a call of `method` dispatches to once its request text was read as `parsed`: a text
/// that is not JSON is refused first, whatever the method; then the method is routed and the
/// request value handed on with it.
pub fn dispatch_parsed(method: &str, parsed: Result<Json, String>) -> (r: Result<(ApiMethod, Json), DomainError>)
    ensures
        match parsed {
            Err(reason) => r matches Err(e) && is_plain_error(
                e,
                ErrorCode::InvalidArgument,
                ErrorStage::Validate,
                "invalid JSON request: "@ + reason@,
            ),
            Ok(j) => match method_named(method@) {
                Some(m) => r == Ok::<(ApiMethod, Json), DomainError>((m, j)),
                None => r matches Err(e) && is_plain_error(
                    e,
                    ErrorCode::InvalidArgument,
                    ErrorStage::Validate,
                    "unknown Unetic method: "@ + method@,
                ),
            },
        },
{
    match parsed {
        Err(reason) => Err(invalid_json(reason.as_str())),
        Ok(request) => match route(method) {
            Ok(m) => Ok((m, request)),
            Err(e) => Err(e),
        },
    }
}

/// Reads the request text of a call of `method` and routes it: a text that is not JSON gives
/// the invalid-JSON error whatever the method; otherwise a known method comes back with the
/// request's value, and an unknown one is refused.
pub fn dispatch_request(method: &str, request_text: &str) -> (r: Result<(ApiMethod, Json), DomainError>)
    ensures
        match json_text_value(request_text@) {
            None => r matches Err(e) && is_plain_error(
                e,
                ErrorCode::InvalidArgument,
                ErrorStage::Validate,
                "invalid JSON request: "@ + json_text_error(request_text@),
            ),
            Some(v) => match method_named(method@) {
                Some(m) => r matches Ok((m2, j)) && m2 == m && json_wf(j) && json_view(j) == v,
                None => r matches Err(e) && is_plain_error(
                    e,
                    ErrorCode::InvalidArgument,
                    ErrorStage::Validate,
                    "unknown Unetic method: "@ + method@,
                ),
            },
        },
{
    dispatch_parsed(method, parse_json(request_text))
}

/// The text the request object holds under `key`, if it holds text there.
pub open spec fn text_field_spec(request: JsonView, key: Seq<char>) -> Option<Seq<char>> {
    match request {
        JsonView::Object(m) => if m.contains_key(key) {
            match m[key] {
                JsonView::Text(s) => Some(s),
                _ => None,
            }
        } else {
            None
        },
        _ => None,
    }
}

/// The text the request object holds under `key` (the reason of `maintenance.enter`, the host
/// of `tools.ping`); none when the request is not an object, lacks the key, or holds something
/// else than text there.
pub fn text_field(request: &Json, key: &str) -> (r: Option<String>)
    requires
        json_wf(*request),
    ensures
        match r {
            Some(s) => text_field_spec(json_view(*request), key@) == Some(s@),
            None => text_field_spec(json_view(*request), key@) is None,
        },
{
    match request {
        Json::Object(es) => {
            let mut i: usize = 0;
            while i < es.len()
                invariant
                    i <= es@.len(),
                    *request == Json::Object(*es),
                    distinct_keys(es@),
                    forall|t: int| 0 <= t < i ==> (#[trigger] es@[t]).0@ != key@,
                decreases es@.len() - i,
            {
                if str_eq(es[i].0.as_str(), key) {
                    proof {
                        lemma_key_at(es@, i as int);
                        let m = json_view(*request)->Object_0;
                        assert(m.contains_key(key@));
                        assert(m[key@] == json_view(es@[i as int].1));
                    }
                    return match &es[i].1 {
                        Json::Text(s) => Some(s.clone()),
                        _ => None,
                    };
                }
                i += 1;
            }
            proof {
                if has_key(es@, key@) {
                    let t = key_index(es@, key@);
                    assert(es@[t].0@ == key@);
                }
            }
            None
        },
        _ => None,
    }
}

/// The error for a request body that is not JSON.
pub fn invalid_json(reason: &str) -> (e: DomainError)
    ensures
        is_plain_error(e, ErrorCode::InvalidArgument, ErrorStage::Validate, "invalid JSON request: "@ + reason@),
{
    DomainError::new(ErrorCode::InvalidArgument, ErrorStage::Validate, concat("invalid JSON request: ", reason))
}

/// The error for a request body that does not fit the method.
pub fn invalid_request(method: &str, reason: &str) -> (e: DomainError)
    ensures
        is_plain_error(e, ErrorCode::InvalidArgument, ErrorStage::Validate, "invalid "@ + method@ + " request: "@ + reason@),
{
    let head = concat3("invalid ", method, " request: ");
    DomainError::new(ErrorCode::InvalidArgument, ErrorStage::Validate, concat(head.as_str(), reason))
}

/// What an API response holds: the API version, whether the call succeeded, its result (under
/// `"result"`) or its error (under `"error"`), and the state after the call.
pub open spec fn envelope_view(ok: bool, payload: JsonView, state: JsonView) -> JsonView {
    JsonView::Object(
        Map::<Seq<char>, JsonView>::empty().insert("api_version"@, JsonView::Number(decimal_spec(API_VERSION as nat)))
            .insert("ok"@, JsonView::Bool(ok))
            .insert(if ok { "result"@ } else { "error"@ }, payload)
            .insert("state"@, state),
    )
}

fn envelope(ok: bool, payload: Json, state: Json) -> (r: Json)
    requires
        json_wf(payload),
        json_wf(state),
    ensures
        json_wf(r),
        json_view(r) == envelope_view(ok, json_view(payload), json_view(state)),
{
    let key = if ok {
        String::from_str("result")
    } else {
        String::from_str("error")
    };
    let ghost vp = json_view(payload);
    let ghost vs = json_view(state);
    let mut es: Vec<(String, Json)> = Vec::new();
    es.push((String::from_str("api_version"), Json::Number(decimal(API_VERSION as u64))));
    es.push((String::from_str("ok"), Json::Bool(ok)));
    es.push((key, payload));
    es.push((String::from_str("state"), state));
    proof {
        reveal_strlit("api_version");
        reveal_strlit("ok");
        reveal_strlit("result");
        reveal_strlit("error");
        reveal_strlit("state");
        assert(es@[0].0@[0] == 'a' && es@[1].0@[0] == 'o' && es@[3].0@[0] == 's');
        assert(es@[2].0@[0] == 'r' || es@[2].0@[0] == 'e');
        assert(distinct_keys(es@));
        assert(json_view(es@[0].1) == JsonView::Number(decimal_spec(API_VERSION as nat)));
        assert(json_view(es@[1].1) == JsonView::Bool(ok));
    }
    let r = Json::Object(es);
    proof {
        let m = json_view(r)->Object_0;
        let e = envelope_view(ok, vp, vs)->Object_0;
        assert forall|k: Seq<char>| #[trigger] m.contains_key(k) == e.contains_key(k) by {
            if has_key(es@, k) {
                let t = key_index(es@, k);
                assert(0 <= t < 4);
            }
            if e.contains_key(k) {
                if k == es@[0].0@ {
                    assert(has_key(es@, es@[0].0@));
                } else if k == es@[1].0@ {
                    assert(has_key(es@, es@[1].0@));
                } else if k == es@[2].0@ {
                    assert(has_key(es@, es@[2].0@));
                } else {
                    assert(has_key(es@, es@[3].0@));
                }
            }
        }
        assert forall|k: Seq<char>| #[trigger] m.contains_key(k) implies m[k] == e[k] by {
            let t = key_index(es@, k);
            lemma_key_at(es@, t);
        }
        assert(m =~= e);
        assert forall|t: int| 0 <= t < es@.len() implies json_wf((#[trigger] es@[t]).1) by {}
    }
    r
}

/// The response to a call that succeeded: ok, with its result and the state.
pub fn ok_response(result: Json, state: Json) -> (r: Json)
    requires
        json_wf(result),
        json_wf(state),
    ensures
        json_wf(r),
        json_view(r) == envelope_view(true, json_view(result), json_view(state)),
{
    envelope(true, result, state)
}

/// The response to a call that failed, an unknown method or a body that is not JSON among
/// them: not ok, with the error and the state, and no result.
pub fn error_response(error: Json, state: Json) -> (r: Json)
    requires
        json_wf(error),
        json_wf(state),
    ensures
        json_wf(r),
        json_view(r) == envelope_view(false, json_view(error), json_view(state)),
{
    envelope(false, error, state)
}

} // verus!
