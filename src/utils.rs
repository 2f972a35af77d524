//! JSON-RPC 2.0 helpers and message hygiene for the detector service.
use vstd::prelude::*;

use crate::json::{field, owned, str_eq, str_of, Json, JsonValue};
use crate::platform::{parse_url, replace_all, replaced, url_accepts};

verus! {

/// Why a JSON-RPC request was refused.
#[derive(Debug, PartialEq, Eq)]
pub enum RpcError {
    /// `jsonrpc` is missing or not a string.
    MissingVersion,
    /// `jsonrpc` is a string other than `2.0`; it is kept.
    WrongVersion(String),
    /// `method` is missing or not a string.
    MissingMethod,
}

/// Accepts a request whose `jsonrpc` is the string `2.0` and whose `method`
/// is a string; the id may be absent, as in a notification.
pub fn validate_jsonrpc_request(request: &Json) -> (r: Result<(), RpcError>)
    ensures
        match str_of(field(request@, "jsonrpc"@)) {
            None => r == Err::<(), RpcError>(RpcError::MissingVersion),
            Some(v) => if v != "2.0"@ {
                r matches Err(RpcError::WrongVersion(w)) && w@ == v
            } else if str_of(field(request@, "method"@)) is None {
                r == Err::<(), RpcError>(RpcError::MissingMethod)
            } else {
                r is Ok
            },
        },
{
    let version = match request.get("jsonrpc") {
        Some(v) => v.as_str(),
        None => None,
    };
    let version = match version {
        Some(v) => v,
        None => {
            return Err(RpcError::MissingVersion);
        },
    };
    if !str_eq(version, "2.0") {
        return Err(RpcError::WrongVersion(owned(version)));
    }
    let method = match request.get("method") {
        Some(m) => m.as_str(),
        None => None,
    };
    match method {
        Some(_) => Ok(()),
        None => Err(RpcError::MissingMethod),
    }
}

/// The error response with `code` and `message`, and `data` when given.
pub open spec fn error_response(code: Seq<char>, message: Seq<char>, data: Option<JsonValue>) -> JsonValue {
    let base = seq![("code"@, JsonValue::Str(code)), ("message"@, JsonValue::Str(message))];
    let error = match data {
        Some(d) => base.push(("data"@, d)),
        None => base,
    };
    JsonValue::Object(
        seq![("jsonrpc"@, JsonValue::Str("2.0"@)), ("error"@, JsonValue::Object(error))],
    )
}

/// An error response.
pub fn format_error(code: &str, message: &str, data: Option<Json>) -> (r: Json)
    ensures
        r@ == error_response(
            code@,
            message@,
            match data {
                Some(d) => Some(d@),
                None => None,
            },
        ),
{
    let mut error = Json::empty_object().with_member("code", Json::string(code)).with_member(
        "message",
        Json::string(message),
    );
    if let Some(d) = data {
        error = error.with_member("data", d);
    }
    let r = Json::empty_object().with_member("jsonrpc", Json::string("2.0")).with_member(
        "error",
        error,
    );
    assert(r@->Object_0[1].1->Object_0 =~= error_response(
        code@,
        message@,
        match data {
            Some(d) => Some(d@),
            None => None,
        },
    )->Object_0[1].1->Object_0);
    assert(r@->Object_0 =~= error_response(
        code@,
        message@,
        match data {
            Some(d) => Some(d@),
            None => None,
        },
    )->Object_0);
    r
}

/// The success response with `result`, and `id` when given.
pub open spec fn success_response(id: Option<JsonValue>, result: JsonValue) -> JsonValue {
    let base = seq![("jsonrpc"@, JsonValue::Str("2.0"@)), ("result"@, result)];
    JsonValue::Object(
        match id {
            Some(i) => base.push(("id"@, i)),
            None => base,
        },
    )
}

/// A success response.
pub fn format_success(id: Option<&Json>, result: Json) -> (r: Json)
    ensures
        r@ == success_response(
            match id {
                Some(i) => Some(i@),
                None => None,
            },
            result@,
        ),
{
    let ghost result_value = result@;
    let mut response = Json::empty_object().with_member("jsonrpc", Json::string("2.0")).with_member(
        "result",
        result,
    );
    if let Some(i) = id {
        response = response.with_member("id", i.copy());
    }
    assert(response@->Object_0 =~= success_response(
        match id {
            Some(i) => Some(i@),
            None => None,
        },
        result_value,
    )->Object_0);
    response
}

/// The request's `method`, if it is a string.
pub fn extract_method(request: &Json) -> (r: Option<&str>)
    ensures
        match r {
            Some(m) => str_of(field(request@, "method"@)) == Some(m@),
            None => str_of(field(request@, "method"@)) is None,
        },
{
    match request.get("method") {
        Some(m) => m.as_str(),
        None => None,
    }
}

/// The request's `params`, or an empty object when it has none.
pub fn extract_params(request: &Json) -> (r: Json)
    ensures
        r@ == match field(request@, "params"@) {
            Some(p) => p,
            None => JsonValue::Object(seq![]),
        },
{
    match request.get("params") {
        Some(p) => p.copy(),
        None => {
            let r = Json::empty_object();
            assert(r@->Object_0 =~= seq![]);
            r
        },
    }
}

/// The request's `id`, if it has one.
pub fn extract_id(request: &Json) -> (r: Option<&Json>)
    ensures
        match r {
            Some(i) => field(request@, "id"@) == Some(i@),
            None => field(request@, "id"@) is None,
        },
{
    request.get("id")
}

/// Whether the request is a notification: it has no `id`.
pub fn is_notification(request: &Json) -> (r: bool)
    ensures
        r == field(request@, "id"@) is None,
{
    request.get("id").is_none()
}

/// `msg` with each of `password`, `token`, `secret` and `api_key` replaced
/// by `***`, in that order.
pub open spec fn sanitized(msg: Seq<char>) -> Seq<char> {
    replaced(
        replaced(replaced(replaced(msg, "password"@, "***"@), "token"@, "***"@), "secret"@, "***"@),
        "api_key"@,
        "***"@,
    )
}

/// Masks words that may introduce sensitive data, for logging.
pub fn sanitize_error_message(msg: &str) -> (r: String)
    ensures
        r@ == sanitized(msg@),
{
    proof {
        reveal_strlit("password");
        reveal_strlit("token");
        reveal_strlit("secret");
        reveal_strlit("api_key");
    }
    let a = replace_all(msg, "password", "***");
    let b = replace_all(a.as_str(), "token", "***");
    let c = replace_all(b.as_str(), "secret", "***");
    replace_all(c.as_str(), "api_key", "***")
}

/// Accepts `url` when it parses as an absolute URL; otherwise fails with
/// `Invalid URL: ` and the parser's reason.
pub fn validate_url(url: &str) -> (r: Result<(), String>)
    ensures
        r is Ok <==> url_accepts(url@),
        r matches Err(m) ==> m@.len() >= 13 && m@.subrange(0, 13) == "Invalid URL: "@,
{
    match parse_url(url) {
        Ok(()) => Ok(()),
        Err(reason) => {
            let mut m = owned("Invalid URL: ");
            m.append(reason.as_str());
            proof {
                reveal_strlit("Invalid URL: ");
            }
            assert(m@.subrange(0, 13) =~= "Invalid URL: "@);
            Err(m)
        },
    }
}

} // verus!
