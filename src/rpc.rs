//! The JSON-RPC request contract: validation, notifications, routing by
//! method, and the success and error envelopes.
//!
//! `handle_request` takes the parsed body (`None` where it was not valid
//! JSON) and either answers at once or asks the caller to run a tool call,
//! whose outcome `finish_call` turns into the answer. What it decides is
//! `decide`, stated over the request alone.

use vstd::prelude::*;
use vstd::string::StringExecFns;
use crate::command::opt_view;
use crate::json::{field, JsonValue};
use crate::text::str_eq;
use crate::tools::owned_str;
use crate::AppState;

verus! {

pub const PARSE_ERROR: i64 = -32700;

pub const INVALID_REQUEST: i64 = -32600;

pub const METHOD_NOT_FOUND: i64 = -32601;

pub const INVALID_PARAMS: i64 = -32602;

/// The members of a request object that the protocol reads.
#[derive(Debug)]
pub struct RpcRequest {
    pub jsonrpc: Option<String>,
    pub id: Option<JsonValue>,
    pub method: Option<String>,
    pub params: Option<JsonValue>,
}

/// A success envelope.
#[derive(Debug)]
pub struct RpcResponse {
    pub jsonrpc: &'static str,
    pub id: JsonValue,
    pub result: JsonValue,
}

/// The error member of an error envelope.
#[derive(Debug)]
pub struct RpcErrorBody {
    pub code: i64,
    pub message: String,
}

/// An error envelope.
#[derive(Debug)]
pub struct RpcErrorResponse {
    pub jsonrpc: &'static str,
    pub id: JsonValue,
    pub error: RpcErrorBody,
}

/// The answer to one request: no body (a notification), a result, or an error.
#[derive(Debug)]
pub enum RpcReply {
    Empty,
    Success(RpcResponse),
    Failure(RpcErrorResponse),
}

/// What the handler does next.
#[derive(Debug)]
pub enum RpcStep {
    /// Answer now.
    Reply(RpcReply),
    /// Run the tool call with `params`, then answer with `finish_call(id, ..)`.
    CallTool { id: JsonValue, params: JsonValue },
}

/// What the protocol decides for a request, before any tool runs.
pub enum Decision {
    Fail { id: JsonValue, code: i64, message: Seq<char> },
    Notify,
    Initialize { id: JsonValue },
    ListTools { id: JsonValue },
    Call { id: JsonValue, params: Option<JsonValue> },
}

/// The request's id; null when it has none.
pub open spec fn request_id(entries: Seq<(String, JsonValue)>) -> JsonValue {
    match field(entries, "id"@) {
        Some(v) => v,
        None => JsonValue::Null,
    }
}

/// A member that is absent or a string.
pub open spec fn absent_or_str(v: Option<JsonValue>) -> bool {
    match v {
        Some(JsonValue::Str(_)) => true,
        None => true,
        _ => false,
    }
}

pub open spec fn str_of(v: Option<JsonValue>) -> Option<Seq<char>> {
    match v {
        Some(JsonValue::Str(s)) => Some(s@),
        _ => None,
    }
}

/// The protocol's decision for a parsed body; `None` is a body that is not JSON.
pub open spec fn decide(parsed: Option<JsonValue>) -> Decision {
    match parsed {
        None => Decision::Fail {
            id: JsonValue::Null,
            code: PARSE_ERROR,
            message: "Parse error: invalid JSON"@,
        },
        Some(JsonValue::Object(entries)) => {
            let e = entries@;
            let id = request_id(e);
            let version = str_of(field(e, "jsonrpc"@));
            let method = str_of(field(e, "method"@));
            if !absent_or_str(field(e, "jsonrpc"@)) {
                Decision::Fail {
                    id: JsonValue::Null,
                    code: INVALID_REQUEST,
                    message: "Invalid Request: 'jsonrpc' must be a string"@,
                }
            } else if !absent_or_str(field(e, "method"@)) {
                Decision::Fail {
                    id: JsonValue::Null,
                    code: INVALID_REQUEST,
                    message: "Invalid Request: 'method' must be a string"@,
                }
            } else if version is Some && version->0 != "2.0"@ {
                Decision::Fail {
                    id,
                    code: INVALID_REQUEST,
                    message: "Invalid jsonrpc version '"@ + version->0 + "'"@,
                }
            } else if method is None {
                Decision::Fail {
                    id,
                    code: INVALID_REQUEST,
                    message: "Invalid Request: missing 'method'"@,
                }
            } else if id is Null {
                Decision::Notify
            } else if method->0 == "initialize"@ {
                Decision::Initialize { id }
            } else if method->0 == "tools/list"@ {
                Decision::ListTools { id }
            } else if method->0 == "tools/call"@ {
                Decision::Call { id, params: field(e, "params"@) }
            } else {
                Decision::Fail {
                    id,
                    code: METHOD_NOT_FOUND,
                    message: "Method '"@ + method->0 + "' not found"@,
                }
            }
        },
        Some(_) => Decision::Fail {
            id: JsonValue::Null,
            code: INVALID_REQUEST,
            message: "Invalid Request: expected a JSON object"@,
        },
    }
}

/// An error envelope with this id, code and message.
pub open spec fn is_failure(r: RpcReply, id: JsonValue, code: i64, message: Seq<char>) -> bool {
    r is Failure && r->Failure_0.jsonrpc@ == "2.0"@ && r->Failure_0.id == id
        && r->Failure_0.error.code == code && r->Failure_0.error.message@ == message
}

/// A success envelope with this id.
pub open spec fn is_success(r: RpcReply, id: JsonValue) -> bool {
    r is Success && r->Success_0.jsonrpc@ == "2.0"@ && r->Success_0.id == id
}

/// The string member `key` of an object value.
pub open spec fn str_at(v: JsonValue, key: Seq<char>) -> Option<Seq<char>> {
    str_of(v.spec_get(key))
}

/// The result of `initialize`: protocol version, server identity, and a tools capability.
pub open spec fn is_initialize_result(v: JsonValue, state: AppState) -> bool {
    &&& str_at(v, "protocolVersion"@) == Some("2025-03-26"@)
    &&& v.spec_get("serverInfo"@) is Some
    &&& str_at(v.spec_get("serverInfo"@)->0, "name"@) == Some(state.server_name@)
    &&& str_at(v.spec_get("serverInfo"@)->0, "version"@) == Some(state.server_version@)
    &&& v.spec_get("capabilities"@) is Some
    &&& v.spec_get("capabilities"@)->0.spec_get("tools"@) is Some
    &&& v.spec_get("capabilities"@)->0.spec_get("tools"@)->0 is Object
}

/// The result of `tools/list`: `{"tools": [...]}` with the given catalogue.
pub open spec fn is_tool_list_result(v: JsonValue, tools: Vec<JsonValue>) -> bool {
    v is Object && v->Object_0@.len() == 1 && v->Object_0@[0].0@ == "tools"@
        && v->Object_0@[0].1 == JsonValue::Array(tools)
}

/// An empty object.
pub open spec fn is_empty_object(v: JsonValue) -> bool {
    v is Object && v->Object_0@.len() == 0
}

/// Whether a step carries out a decision.
pub open spec fn follows(r: RpcStep, d: Decision, state: AppState, tools: Vec<JsonValue>) -> bool {
    match d {
        Decision::Fail { id, code, message } => r is Reply && is_failure(r->Reply_0, id, code, message),
        Decision::Notify => r is Reply && r->Reply_0 is Empty,
        Decision::Initialize { id } => r is Reply && is_success(r->Reply_0, id)
            && is_initialize_result(r->Reply_0->Success_0.result, state),
        Decision::ListTools { id } => r is Reply && is_success(r->Reply_0, id) && is_tool_list_result(
            r->Reply_0->Success_0.result,
            tools,
        ),
        Decision::Call { id, params } => r is CallTool && r->CallTool_id == id && match params {
            Some(p) => r->CallTool_params == p,
            None => is_empty_object(r->CallTool_params),
        },
    }
}

/// A success envelope.
pub fn json_ok(id: JsonValue, result: JsonValue) -> (r: RpcResponse)
    ensures
        r.jsonrpc@ == "2.0"@,
        r.id == id,
        r.result == result,
{
    RpcResponse { jsonrpc: "2.0", id, result }
}

/// An error envelope.
pub fn json_error(id: JsonValue, code: i64, message: String) -> (r: RpcErrorResponse)
    ensures
        r.jsonrpc@ == "2.0"@,
        r.id == id,
        r.error.code == code,
        r.error.message == message,
{
    RpcErrorResponse { jsonrpc: "2.0", id, error: RpcErrorBody { code, message } }
}

/// The members that the protocol reads, taken out of an object's entries.
fn take_members(entries: Vec<(String, JsonValue)>) -> (r: (
    Option<JsonValue>,
    Option<JsonValue>,
    Option<JsonValue>,
    Option<JsonValue>,
))
    ensures
        r.0 == field(entries@, "jsonrpc"@),
        r.1 == field(entries@, "id"@),
        r.2 == field(entries@, "method"@),
        r.3 == field(entries@, "params"@),
{
    let ghost all = entries@;
    let mut rest = entries;
    let mut jsonrpc: Option<JsonValue> = None;
    let mut id: Option<JsonValue> = None;
    let mut method: Option<JsonValue> = None;
    let mut params: Option<JsonValue> = None;
    while rest.len() > 0
        invariant
            field(all, "jsonrpc"@) == if jsonrpc is Some { jsonrpc } else { field(rest@, "jsonrpc"@) },
            field(all, "id"@) == if id is Some { id } else { field(rest@, "id"@) },
            field(all, "method"@) == if method is Some { method } else { field(rest@, "method"@) },
            field(all, "params"@) == if params is Some { params } else { field(rest@, "params"@) },
        decreases rest@.len(),
    {
        let ghost before = rest@;
        proof {
            reveal_strlit("jsonrpc");
            reveal_strlit("id");
            reveal_strlit("method");
            reveal_strlit("params");
            assert("id"@.len() == 2);
            assert("jsonrpc"@.len() == 7);
            assert("method"@.len() == 6);
            assert("params"@.len() == 6);
            assert("method"@[0] != "params"@[0]);
        }
        let (k, v) = rest.pop().unwrap();
        let key = k.as_str();
        if jsonrpc.is_none() && str_eq(key, "jsonrpc") {
            jsonrpc = Some(v);
        } else if id.is_none() && str_eq(key, "id") {
            id = Some(v);
        } else if method.is_none() && str_eq(key, "method") {
            method = Some(v);
        } else if params.is_none() && str_eq(key, "params") {
            params = Some(v);
        }
        assert(before.drop_last() == rest@);
    }
    (jsonrpc, id, method, params)
}

fn into_str(v: Option<JsonValue>) -> (r: Result<Option<String>, ()>)
    ensures
        r is Ok <==> absent_or_str(v),
        r matches Ok(s) ==> opt_view(s) == str_of(v),
{
    match v {
        Some(JsonValue::Str(s)) => Ok(Some(s)),
        None => Ok(None),
        _ => Err(()),
    }
}

/// Reads the members of a request; fails when it is not an object or when
/// `jsonrpc` or `method` is there but not a string.
pub fn parse_rpc_request(value: JsonValue) -> (r: Result<RpcRequest, String>)
    ensures
        match value {
            JsonValue::Object(entries) => {
                let e = entries@;
                if !absent_or_str(field(e, "jsonrpc"@)) {
                    r is Err && r->Err_0@ == "Invalid Request: 'jsonrpc' must be a string"@
                } else if !absent_or_str(field(e, "method"@)) {
                    r is Err && r->Err_0@ == "Invalid Request: 'method' must be a string"@
                } else {
                    r is Ok && opt_view(r->Ok_0.jsonrpc) == str_of(field(e, "jsonrpc"@))
                        && r->Ok_0.id == field(e, "id"@) && opt_view(r->Ok_0.method) == str_of(
                        field(e, "method"@),
                    ) && r->Ok_0.params == field(e, "params"@)
                }
            },
            _ => r is Err && r->Err_0@ == "Invalid Request: expected a JSON object"@,
        },
{
    let entries = match value {
        JsonValue::Object(entries) => entries,
        _ => return Err(owned_str("Invalid Request: expected a JSON object")),
    };
    let (jsonrpc, id, method, params) = take_members(entries);
    let jsonrpc = match into_str(jsonrpc) {
        Ok(s) => s,
        Err(()) => return Err(owned_str("Invalid Request: 'jsonrpc' must be a string")),
    };
    let method = match into_str(method) {
        Ok(s) => s,
        Err(()) => return Err(owned_str("Invalid Request: 'method' must be a string")),
    };
    Ok(RpcRequest { jsonrpc, id, method, params })
}

fn fail(id: JsonValue, code: i64, message: String) -> (r: RpcStep)
    ensures
        r is Reply && is_failure(r->Reply_0, id, code, message@),
{
    RpcStep::Reply(RpcReply::Failure(json_error(id, code, message)))
}

fn member(key: &str, value: JsonValue) -> (r: (String, JsonValue))
    ensures
        r.0@ == key@,
        r.1 == value,
{
    (owned_str(key), value)
}

/// The result of `initialize`.
pub fn initialize_result(state: &AppState) -> (r: JsonValue)
    ensures
        is_initialize_result(r, *state),
{
    let info = JsonValue::Object(
        vec![
            member("name", JsonValue::Str(state.server_name.clone())),
            member("version", JsonValue::Str(state.server_version.clone())),
        ],
    );
    let capabilities = JsonValue::Object(vec![member("tools", JsonValue::Object(Vec::new()))]);
    let r = JsonValue::Object(
        vec![
            member("protocolVersion", JsonValue::Str(owned_str("2025-03-26"))),
            member("serverInfo", info),
            member("capabilities", capabilities),
        ],
    );
    proof {
        reveal_strlit("protocolVersion");
        reveal_strlit("serverInfo");
        reveal_strlit("capabilities");
        reveal_strlit("name");
        reveal_strlit("version");
        reveal_strlit("tools");
        reveal_with_fuel(field, 4);
        assert("protocolVersion"@.len() == 15);
        assert("serverInfo"@.len() == 10);
        assert("capabilities"@.len() == 12);
        assert("name"@.len() == 4);
        assert("version"@.len() == 7);
        let e = r->Object_0@;
        assert(e.len() == 3);
        assert(e.drop_last().drop_last().last() == e[0]);
        assert(e.drop_last().last() == e[1]);
        assert(field(e, "capabilities"@) == Some(capabilities));
        assert(field(e, "serverInfo"@) == Some(info));
        assert(field(e, "protocolVersion"@) == Some(e[0].1));
        let ie = info->Object_0@;
        assert(ie.drop_last().last() == ie[0]);
        assert(field(ie, "version"@) == Some(ie[1].1));
        assert(field(ie, "name"@) == Some(ie[0].1));
        let ce = capabilities->Object_0@;
        assert(field(ce, "tools"@) == Some(ce[0].1));
    }
    r
}

/// Handles one request body: `parsed` is the body as JSON, or `None` where it
/// is not valid JSON; `tools` is the catalogue that `tools/list` returns.
pub fn handle_request(parsed: Option<JsonValue>, state: &AppState, tools: Vec<JsonValue>) -> (r:
    RpcStep)
    ensures
        follows(r, decide(parsed), *state, tools),
{
    let value = match parsed {
        Some(v) => v,
        None => return fail(JsonValue::Null, PARSE_ERROR, owned_str("Parse error: invalid JSON")),
    };
    let request = match parse_rpc_request(value) {
        Ok(request) => request,
        Err(message) => return fail(JsonValue::Null, INVALID_REQUEST, message),
    };
    let RpcRequest { jsonrpc, id, method, params } = request;
    let id = match id {
        Some(v) => v,
        None => JsonValue::Null,
    };
    if let Some(version) = &jsonrpc {
        if !str_eq(version.as_str(), "2.0") {
            let mut out = String::new();
            out.append("Invalid jsonrpc version '");
            out.append(version.as_str());
            out.append("'");
            return fail(id, INVALID_REQUEST, out);
        }
    }
    let method = match method {
        Some(m) => m,
        None => return fail(id, INVALID_REQUEST, owned_str("Invalid Request: missing 'method'")),
    };
    if id.is_null() {
        return RpcStep::Reply(RpcReply::Empty);
    }
    let m = method.as_str();
    if str_eq(m, "initialize") {
        let result = initialize_result(state);
        RpcStep::Reply(RpcReply::Success(json_ok(id, result)))
    } else if str_eq(m, "tools/list") {
        let result = JsonValue::Object(vec![member("tools", JsonValue::Array(tools))]);
        RpcStep::Reply(RpcReply::Success(json_ok(id, result)))
    } else if str_eq(m, "tools/call") {
        let params = match params {
            Some(p) => p,
            None => JsonValue::Object(Vec::new()),
        };
        RpcStep::CallTool { id, params }
    } else {
        let mut out = String::new();
        out.append("Method '");
        out.append(m);
        out.append("' not found");
        fail(id, METHOD_NOT_FOUND, out)
    }
}

/// The answer to a tool call: its result, or its failure as invalid params.
pub fn finish_call(id: JsonValue, result: Result<JsonValue, String>) -> (r: RpcReply)
    ensures
        match result {
            Ok(v) => is_success(r, id) && r->Success_0.result == v,
            Err(m) => is_failure(r, id, INVALID_PARAMS, m@),
        },
{
    match result {
        Ok(v) => RpcReply::Success(json_ok(id, v)),
        Err(m) => RpcReply::Failure(json_error(id, INVALID_PARAMS, m)),
    }
}

/// A body that is not valid JSON is answered with a parse error and a null id.
pub proof fn lemma_malformed_body_is_parse_error()
    ensures
        decide(None) is Fail,
        decide(None)->Fail_code == PARSE_ERROR,
        decide(None)->Fail_id == JsonValue::Null,
{
}

/// A request whose `jsonrpc` member is a string other than `"2.0"` is answered
/// with an invalid-request error.
pub proof fn lemma_wrong_version_is_invalid_request(entries: Vec<(String, JsonValue)>, version: String)
    requires
        field(entries@, "jsonrpc"@) == Some(JsonValue::Str(version)),
        version@ != "2.0"@,
    ensures
        decide(Some(JsonValue::Object(entries))) is Fail,
        decide(Some(JsonValue::Object(entries)))->Fail_code == INVALID_REQUEST,
{
}

/// A request with an id that is present and not null always gets a body,
/// which is a success or an error envelope and never both: the handler
/// either answers with an envelope at once or runs a tool call, whose
/// outcome `finish_call` turns into one.
pub proof fn lemma_request_with_id_is_answered(
    parsed: JsonValue,
    state: AppState,
    tools: Vec<JsonValue>,
    step: RpcStep,
)
    requires
        parsed is Object,
        field(parsed->Object_0@, "id"@) is Some,
        !(field(parsed->Object_0@, "id"@)->0 is Null),
        follows(step, decide(Some(parsed)), state, tools),
    ensures
        !(decide(Some(parsed)) is Notify),
        step is Reply ==> (step->Reply_0 is Success || step->Reply_0 is Failure),
{
}

/// A well-formed request without an id, or with a null one, is a
/// notification: it gets no body, whatever its method.
pub proof fn lemma_notification_has_no_body(entries: Vec<(String, JsonValue)>, method: String)
    requires
        field(entries@, "id"@) is None || field(entries@, "id"@) == Some(JsonValue::Null),
        field(entries@, "jsonrpc"@) is None || str_of(field(entries@, "jsonrpc"@)) == Some(
            "2.0"@,
        ),
        field(entries@, "method"@) == Some(JsonValue::Str(method)),
    ensures
        decide(Some(JsonValue::Object(entries))) is Notify,
{
}

} // verus!
