use lspower::jsonrpc::error::{Error, ErrorCode};
use lspower::jsonrpc::{not_initialized_error, ClientMethod, ClientRequest, Id, Response};
use serde_json::Value;

fn json(text: &str) -> Value {
    serde_json::from_str(text).unwrap()
}

#[test]
fn number_display() {
    let id = Id::Number(42);
    assert_eq!("42", id.to_text());
}

#[test]
fn string_display() {
    let id = Id::String("foo".into());
    assert_eq!("\"foo\"", id.to_text());
}

#[test]
fn string_display_escapes() {
    let id = Id::String("a\"b".into());
    assert_eq!("\"a\\\"b\"", id.to_text());
}

#[test]
fn from_parts_ok() {
    let id = Id::Number(1);
    let value = Value::Null;
    let body = Ok(value.clone());
    let response = Response::from_parts(id.clone(), body.clone());
    assert_eq!(response, Response::ok(id.clone(), value));
    assert_eq!(response.into_parts(), (Some(id), body));
}

#[test]
fn from_parts_err() {
    let id = Id::Number(1);
    let error = Error::internal_error();
    let body = Err(error.clone());
    let response = Response::from_parts(id.clone(), body.clone());
    assert_eq!(response, Response::error(Some(id.clone()), error));
    assert_eq!(response.into_parts(), (Some(id), body));
}

#[test]
fn id_ok() {
    let id = Id::Number(1);
    let response = Response::ok(id.clone(), json("{}"));
    assert_eq!(response.id(), Some(&id));
}

#[test]
fn id_err() {
    let id = Id::Number(1);
    let response = Response::error(Some(id.clone()), Error::internal_error());
    assert_eq!(response.id(), Some(&id));
    let response = Response::error(None, Error::internal_error());
    assert_eq!(response.id(), None);
}

#[test]
fn id_same_and_duplicate() {
    let a = Id::String("x".into());
    assert!(a.same(&a.duplicate()));
    assert!(!a.same(&Id::String("y".into())));
    assert!(!Id::Number(1).same(&Id::String("1".into())));
    assert!(Id::Number(7).same(&Id::Number(7)));
}

#[test]
fn client_request_forms() {
    let request = ClientRequest::request(3, "window/showMessageRequest".to_string(), json("{}"));
    assert_eq!(request.method, "window/showMessageRequest");
    assert_eq!(request.kind, ClientMethod::Request { params: json("{}"), id: Id::Number(3) });
    let note = ClientRequest::notification("window/logMessage".to_string(), Value::Null);
    assert_eq!(note.kind, ClientMethod::Notification { params: Value::Null });
}

#[test]
fn display_error() {
    let error = Error::parse_error();
    assert_eq!("Parse error: Parse error", error.to_text());
}

#[test]
fn display_error_code() {
    let code = ErrorCode::ParseError;
    assert_eq!("-32700", code.to_text());
}

#[test]
fn display_server_error_code() {
    assert_eq!("42", ErrorCode::ServerError(42).to_text());
    assert_eq!("-9223372036854775808", ErrorCode::ServerError(i64::MIN).to_text());
    assert_eq!("0", ErrorCode::ServerError(0).to_text());
}

#[test]
fn parse_error() {
    let code = ErrorCode::ParseError;
    assert_eq!(code, code.code().into());
    let error = Error::parse_error();
    assert_eq!(code, error.code);
    assert_eq!(code.description(), error.message);
}

#[test]
fn invalid_request() {
    let code = ErrorCode::InvalidRequest;
    assert_eq!(code, code.code().into());
    let error = Error::invalid_request();
    assert_eq!(code, error.code);
    assert_eq!(code.description(), error.message);
}

#[test]
fn method_not_found() {
    let code = ErrorCode::MethodNotFound;
    assert_eq!(code, code.code().into());
    let error = Error::method_not_found();
    assert_eq!(code, error.code);
    assert_eq!(code.description(), error.message);
}

#[test]
fn invalid_params() {
    let code = ErrorCode::InvalidParams;
    assert_eq!(code, code.code().into());
    let error = Error::invalid_params(code.description().to_string());
    assert_eq!(code, error.code);
    assert_eq!(code.description(), error.message);
}

#[test]
fn internal_error() {
    let code = ErrorCode::InternalError;
    assert_eq!(code, code.code().into());
    let error = Error::internal_error();
    assert_eq!(code, error.code);
    assert_eq!(code.description(), error.message);
}

#[test]
fn request_cancelled() {
    let code = ErrorCode::RequestCancelled;
    assert_eq!(code, code.code().into());
    let error = Error::request_cancelled();
    assert_eq!(code, error.code);
    assert_eq!(code.description(), error.message);
}

#[test]
fn content_modified() {
    let code = ErrorCode::ContentModified;
    assert_eq!(code, code.code().into());
    let error = Error::content_modified();
    assert_eq!(code, error.code);
    assert_eq!(code.description(), error.message);
}

#[test]
fn server_error() {
    let code = ErrorCode::ServerError(42);
    assert_eq!(code, code.code().into());
    let error = Error::new(code);
    assert_eq!(code, error.code);
    assert_eq!(code.description(), error.message);
}

#[test]
fn server_not_initialized() {
    let code = ErrorCode::ServerError(-32002);
    let error = not_initialized_error();
    assert_eq!(code, error.code);
    assert_eq!("Server not initialized", error.message);
}

#[test]
fn standard_codes_have_their_values() {
    assert_eq!(ErrorCode::ParseError.code(), -32700);
    assert_eq!(ErrorCode::InvalidRequest.code(), -32600);
    assert_eq!(ErrorCode::MethodNotFound.code(), -32601);
    assert_eq!(ErrorCode::InvalidParams.code(), -32602);
    assert_eq!(ErrorCode::InternalError.code(), -32603);
    assert_eq!(ErrorCode::RequestCancelled.code(), -32800);
    assert_eq!(ErrorCode::ContentModified.code(), -32801);
    assert_eq!(ErrorCode::from_code(-32002), ErrorCode::ServerError(-32002));
    assert_eq!(ErrorCode::RequestCancelled.description(), "Canceled");
}
