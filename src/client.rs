//! The pieces of the client handle that decide: the `$/cancelRequest` notification for a
//! request given up on, and what the caller of a request is handed.
use vstd::prelude::*;

use crate::jsonrpc::{Error, ErrorCode, Response, response_body};

verus! {

/// Whether a JSON value is `null`.
pub uninterp spec fn json_is_null(v: serde_json::Value) -> bool;

/// Whether a JSON value is an array.
pub uninterp spec fn json_is_array(v: serde_json::Value) -> bool;

/// Whether a JSON value is an object.
pub uninterp spec fn json_is_object(v: serde_json::Value) -> bool;

/// The JSON array holding just the given value.
pub uninterp spec fn json_singleton(v: serde_json::Value) -> serde_json::Value;

/// Relies on `serde_json::Value::is_null`, which looks at the value alone.
pub assume_specification[ serde_json::Value::is_null ](v: &serde_json::Value) -> (r: bool)
    ensures
        r == json_is_null(*v),
;

/// Relies on `serde_json::Value::is_array`, which looks at the value alone.
pub assume_specification[ serde_json::Value::is_array ](v: &serde_json::Value) -> (r: bool)
    ensures
        r == json_is_array(*v),
;

/// Relies on `serde_json::Value::is_object`, which looks at the value alone.
pub assume_specification[ serde_json::Value::is_object ](v: &serde_json::Value) -> (r: bool)
    ensures
        r == json_is_object(*v),
;

/// Relies on the `serde_json::Value::Array` constructor: an array of the one value.
#[verifier::external_body]
fn singleton(v: serde_json::Value) -> (r: serde_json::Value)
    ensures
        r == json_singleton(v),
{
    serde_json::Value::Array(vec![v])
}

/// The parameters of a `telemetry/event` notification for `value`: a JSON scalar is
/// wrapped in a one-element array; `null`, an array or an object is sent as it is.
pub fn telemetry_params(value: serde_json::Value) -> (r: serde_json::Value)
    ensures
        r == if !json_is_null(value) && !json_is_array(value) && !json_is_object(value) {
            json_singleton(value)
        } else {
            value
        },
{
    if !value.is_null() && !value.is_array() && !value.is_object() {
        singleton(value)
    } else {
        value
    }
}

/// The parameters of a `$/cancelRequest` notification naming the request `id`: a number
/// when `id` is `Ok`, else a string.
pub uninterp spec fn cancel_params_json(id: Result<i32, Seq<char>>) -> serde_json::Value;

/// Relies on `serde_json::to_value` applied to `lsp_types::CancelParams`, whose result
/// depends on the ID alone.
#[verifier::external_body]
fn cancel_params(id: Result<i32, String>) -> (r: serde_json::Value)
    ensures
        r == cancel_params_json(
            match id {
                Ok(n) => Ok(n),
                Err(s) => Err(s@),
            },
        ),
{
    let id = match id {
        Ok(n) => lsp_types::NumberOrString::Number(n),
        Err(s) => lsp_types::NumberOrString::String(s),
    };
    serde_json::to_value(lsp_types::CancelParams { id }).unwrap_or_default()
}

/// How a `$/cancelRequest` notification names the request `id`: as a number where it fits
/// in an `i32`, else as its decimal text.
pub open spec fn cancel_target(id: u64) -> Result<i32, Seq<char>> {
    if id <= i32::MAX as u64 {
        Ok(id as i32)
    } else {
        Err(crate::codec::decimal(id as nat))
    }
}

/// The parameters of the `$/cancelRequest` notification for the request `id`.
pub fn cancel_params_for(id: u64) -> (r: serde_json::Value)
    ensures
        r == cancel_params_json(cancel_target(id)),
{
    if id <= i32::MAX as u64 {
        cancel_params(Ok(id as i32))
    } else {
        cancel_params(Err(crate::codec::format_unsigned(id)))
    }
}

/// What the caller of a request is handed when the response arrives: its result, or the
/// error that the peer sent.
pub fn response_outcome(response: Response) -> (r: Result<serde_json::Value, Error>)
    ensures
        r == response_body(response),
{
    let (_, body) = response.into_parts();
    body
}

/// The error handed to the caller of a request whose result could not be read as the
/// expected type, with the reader's description.
pub fn parse_failure(message: String) -> (r: Error)
    ensures
        r.code == ErrorCode::ParseError,
        r.message@ == message@,
        r.data is None,
{
    Error { code: ErrorCode::ParseError, message, data: None }
}

} // verus!
