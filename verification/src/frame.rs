//! Frames of the duplex JSON-RPC protocol.
//!
//! A request frame is an object `{jsonrpc, method, params, id}`; a
//! response frame is `{jsonrpc, result, error, id}`. The `id` correlates
//! a response with its request on a shared connection and is preserved on
//! success and failure alike; when a frame is malformed, the gateway
//! still recovers the id from the document on a best-effort basis and
//! defaults it to 0.

use vstd::prelude::*;

use crate::error::GatewayError;
use crate::error::spec_status_code;
use crate::json::JsonValue;
use crate::methods::JsonRpcMethod;
use crate::methods::spec_method_from_name;

verus! {

/// Protocol version tag carried by every frame.
pub const JSONRPC_VERSION: &'static str = "2.0";

/// Error code of a frame that is not a valid request.
pub const JSONRPC_ERROR_INVALID_REQUEST: i16 = -32600;

/// A parsed request frame.
#[derive(Debug)]
pub struct JsonRpcRequest {
    pub jsonrpc: String,
    pub method: JsonRpcMethod,
    pub params: JsonValue,
    pub id: u64,
}

/// The error half of a response frame: a code and a message.
#[derive(Debug)]
pub struct JsonRpcError {
    pub code: i16,
    pub message: String,
}

/// A response frame; exactly one of `result` and `error` is set.
#[derive(Debug)]
pub struct JsonRpcResponse {
    pub jsonrpc: String,
    pub result: Option<JsonValue>,
    pub error: Option<JsonRpcError>,
    pub id: u64,
}

/// The id to answer with when `v` is not a valid request frame: its
/// `id` field if that is an unsigned integer, 0 otherwise.
pub open spec fn spec_recover_id(v: JsonValue) -> u64 {
    match v.spec_get("id"@) {
        Some(JsonValue::UInt(id)) => id,
        _ => 0,
    }
}

/// What a document parses to: the request frame, or the recovered id to
/// report the invalid frame under.
///
/// A valid frame is an object carrying a text `jsonrpc` version, the wire
/// name of a known method, a `params` document and an unsigned `id`.
pub open spec fn spec_parse_request(v: JsonValue) -> Result<JsonRpcRequest, u64> {
    match (
        v.spec_get("jsonrpc"@),
        v.spec_get("method"@),
        v.spec_get("params"@),
        v.spec_get("id"@),
    ) {
        (
            Some(JsonValue::Text(ver)),
            Some(JsonValue::Text(name)),
            Some(params),
            Some(JsonValue::UInt(id)),
        ) => match spec_method_from_name(name@) {
            Some(m) => Ok(JsonRpcRequest { jsonrpc: ver, method: m, params, id }),
            None => Err(spec_recover_id(v)),
        },
        _ => Err(spec_recover_id(v)),
    }
}

/// Best-effort id recovery from an arbitrary document.
pub fn recover_id(v: &JsonValue) -> (r: u64)
    ensures
        r == spec_recover_id(*v),
{
    match v.get("id") {
        Some(idv) => match idv.as_u64() {
            Some(id) => id,
            None => 0,
        },
        None => 0,
    }
}

/// Parse a document as a request frame; a document that is not one
/// yields the id to report the failure under.
pub fn parse_request(v: JsonValue) -> (r: Result<JsonRpcRequest, u64>)
    ensures
        r == spec_parse_request(v),
{
    let ghost orig = v;
    let recovered = recover_id(&v);
    let fields = match v {
        JsonValue::Object(fields) => fields,
        _ => {
            return Err(recovered);
        },
    };
    let mut fields = fields;
    proof {
        assert(orig.spec_get("jsonrpc"@) == crate::json::spec_obj_get(fields@, "jsonrpc"@));
        assert(orig.spec_get("method"@) == crate::json::spec_obj_get(fields@, "method"@));
        assert(orig.spec_get("params"@) == crate::json::spec_obj_get(fields@, "params"@));
        assert(orig.spec_get("id"@) == crate::json::spec_obj_get(fields@, "id"@));
    }
    let mut ver: Option<String> = None;
    let mut name: Option<String> = None;
    let mut params: Option<JsonValue> = None;
    let mut id: Option<u64> = None;
    while fields.len() > 0
        invariant
            orig == v,
            recovered == spec_recover_id(orig),
            match ver {
                Some(s) => orig.spec_get("jsonrpc"@) == Some(JsonValue::Text(s)),
                None => orig.spec_get("jsonrpc"@) == crate::json::spec_obj_get(
                    fields@,
                    "jsonrpc"@,
                ),
            },
            match name {
                Some(s) => orig.spec_get("method"@) == Some(JsonValue::Text(s)),
                None => orig.spec_get("method"@) == crate::json::spec_obj_get(
                    fields@,
                    "method"@,
                ),
            },
            match params {
                Some(p) => orig.spec_get("params"@) == Some(p),
                None => orig.spec_get("params"@) == crate::json::spec_obj_get(
                    fields@,
                    "params"@,
                ),
            },
            match id {
                Some(u) => orig.spec_get("id"@) == Some(JsonValue::UInt(u)),
                None => orig.spec_get("id"@) == crate::json::spec_obj_get(fields@, "id"@),
            },
        decreases fields@.len(),
    {
        let ghost pre = fields@;
        let (key, val) = fields.remove(0);
        proof {
            reveal_strlit("jsonrpc");
            reveal_strlit("method");
            reveal_strlit("params");
            reveal_strlit("id");
            assert("jsonrpc"@.len() == 7 && "method"@.len() == 6 && "params"@.len() == 6
                && "id"@.len() == 2);
            assert("method"@[0] == 'm' && "params"@[0] == 'p');
            assert("jsonrpc"@ != "method"@ && "jsonrpc"@ != "params"@ && "jsonrpc"@ != "id"@);
            assert("method"@ != "params"@ && "method"@ != "id"@ && "params"@ != "id"@);
            assert(fields@ =~= pre.drop_first());
            assert(key == pre[0].0 && val == pre[0].1);
        }
        if crate::json::str_eq(key.as_str(), "jsonrpc") {
            if ver.is_none() {
                match val {
                    JsonValue::Text(s) => {
                        ver = Some(s);
                    },
                    _ => {
                        return Err(recovered);
                    },
                }
            }
        } else if crate::json::str_eq(key.as_str(), "method") {
            if name.is_none() {
                match val {
                    JsonValue::Text(s) => {
                        name = Some(s);
                    },
                    _ => {
                        return Err(recovered);
                    },
                }
            }
        } else if crate::json::str_eq(key.as_str(), "params") {
            if params.is_none() {
                params = Some(val);
            }
        } else if crate::json::str_eq(key.as_str(), "id") {
            if id.is_none() {
                match val {
                    JsonValue::UInt(u) => {
                        id = Some(u);
                    },
                    _ => {
                        return Err(recovered);
                    },
                }
            }
        }
    }
    match (ver, name, params, id) {
        (Some(ver), Some(name), Some(params), Some(id)) => {
            match JsonRpcMethod::from_name(name.as_str()) {
                Some(method) => Ok(JsonRpcRequest { jsonrpc: ver, method, params, id }),
                None => Err(recovered),
            }
        },
        _ => Err(recovered),
    }
}

/// A response carrying `result` under the request's id.
pub fn success_response(result: JsonValue, id: u64) -> (r: JsonRpcResponse)
    ensures
        r.jsonrpc@ == "2.0"@,
        r.result == Some(result),
        r.error is None,
        r.id == id,
{
    JsonRpcResponse { jsonrpc: JSONRPC_VERSION.to_owned(), result: Some(result), error: None, id }
}

/// A response carrying an error under the request's id.
pub fn error_response(code: i16, message: String, id: u64) -> (r: JsonRpcResponse)
    ensures
        r.jsonrpc@ == "2.0"@,
        r.result is None,
        match r.error {
            Some(e) => e.code == code && e.message == message,
            None => false,
        },
        r.id == id,
{
    JsonRpcResponse {
        jsonrpc: JSONRPC_VERSION.to_owned(),
        result: None,
        error: Some(JsonRpcError { code, message }),
        id,
    }
}

/// The one response of a single exchange: the handler's result or error,
/// always under the request's own id.
pub fn response_for(res: Result<JsonValue, GatewayError>, req_id: u64) -> (r: JsonRpcResponse)
    ensures
        r.jsonrpc@ == "2.0"@,
        r.id == req_id,
        match res {
            Ok(v) => r.result == Some(v) && r.error is None,
            Err(e) => r.result is None && match r.error {
                Some(err) => err.code == spec_status_code(e.kind) as i16 && err.message
                    == e.message,
                None => false,
            },
        },
{
    match res {
        Ok(v) => success_response(v, req_id),
        Err(e) => {
            let code = e.status_code() as i16;
            error_response(code, e.message, req_id)
        },
    }
}

/// The invalid-request response for a frame that did not parse, under
/// the best-effort recovered id.
pub fn invalid_request_response(message: String, recovered_id: u64) -> (r: JsonRpcResponse)
    ensures
        r.jsonrpc@ == "2.0"@,
        r.result is None,
        match r.error {
            Some(e) => e.code == JSONRPC_ERROR_INVALID_REQUEST && e.message == message,
            None => false,
        },
        r.id == recovered_id,
{
    error_response(JSONRPC_ERROR_INVALID_REQUEST, message, recovered_id)
}

/// The document form of a response frame: an object with exactly the
/// fields `jsonrpc`, `result`, `error`, `id`, in that order, with the
/// unset half of `result`/`error` as `null`.
pub fn response_to_json(resp: JsonRpcResponse) -> (r: JsonValue)
    ensures
        match r {
            JsonValue::Object(fields) => {
                &&& fields@.len() == 4
                &&& fields@[0].0@ == "jsonrpc"@
                &&& fields@[0].1 == JsonValue::Text(resp.jsonrpc)
                &&& fields@[1].0@ == "result"@
                &&& fields@[1].1 == match resp.result {
                    Some(v) => v,
                    None => JsonValue::Null,
                }
                &&& fields@[2].0@ == "error"@
                &&& match resp.error {
                    Some(e) => match fields@[2].1 {
                        JsonValue::Object(ef) => {
                            &&& ef@.len() == 2
                            &&& ef@[0].0@ == "code"@
                            &&& ef@[0].1 == spec_code_json(e.code)
                            &&& ef@[1].0@ == "message"@
                            &&& ef@[1].1 == JsonValue::Text(e.message)
                        },
                        _ => false,
                    },
                    None => fields@[2].1 == JsonValue::Null,
                }
                &&& fields@[3].0@ == "id"@
                &&& fields@[3].1 == JsonValue::UInt(resp.id)
            },
            _ => false,
        },
{
    let result_json = match resp.result {
        Some(v) => v,
        None => JsonValue::Null,
    };
    let error_json = match resp.error {
        Some(e) => {
            let mut ef: Vec<(String, JsonValue)> = Vec::new();
            ef.push(("code".to_owned(), code_json(e.code)));
            ef.push(("message".to_owned(), JsonValue::Text(e.message)));
            JsonValue::Object(ef)
        },
        None => JsonValue::Null,
    };
    let mut fields: Vec<(String, JsonValue)> = Vec::new();
    fields.push(("jsonrpc".to_owned(), JsonValue::Text(resp.jsonrpc)));
    fields.push(("result".to_owned(), result_json));
    fields.push(("error".to_owned(), error_json));
    fields.push(("id".to_owned(), JsonValue::UInt(resp.id)));
    JsonValue::Object(fields)
}

/// The document form of an error code, signed only when negative.
pub open spec fn spec_code_json(code: i16) -> JsonValue {
    if code >= 0 {
        JsonValue::UInt(code as u64)
    } else {
        JsonValue::Int(code as i64)
    }
}

fn code_json(code: i16) -> (r: JsonValue)
    ensures
        r == spec_code_json(code),
{
    if code >= 0 {
        JsonValue::UInt(code as u64)
    } else {
        JsonValue::Int(code as i64)
    }
}

} // verus!
