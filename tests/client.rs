use futures::channel::oneshot;
use futures::executor::block_on;
use lspower::client::{cancel_params_for, parse_failure, response_outcome, telemetry_params};
use lspower::jsonrpc::{not_initialized_error, ClientMethod, Error, ErrorCode, Id, Incoming, Response, ServerRequest};
use lspower::server::StateKind;
use lspower::service::{LspService, Route};
use serde_json::Value;

fn json(text: &str) -> Value {
    serde_json::from_str(text).unwrap()
}

fn service(initialize: bool) -> LspService {
    let mut service = LspService::new();
    if initialize {
        let req = ServerRequest { method: "initialize".to_string(), params: None, id: Some(Id::Number(1)) };
        assert_eq!(service.call(Incoming::Request(req.clone())).unwrap(), Route::Handle(req));
        service.complete(&"initialize".to_string(), Id::Number(1), Some(Ok(json("{}"))));
    }
    service
}

#[test]
fn new() {
    let service = service(false);
    assert_eq!(service.state(), StateKind::Uninitialized);
}

#[test]
fn apply_edit() {
    let mut service = service(false);
    let (tx, _rx) = oneshot::channel();
    let result = service.begin_request("workspace/applyEdit".to_string(), json("{}"), tx);
    assert_eq!(result, Err(not_initialized_error()));
}

#[test]
fn configuration() {
    let mut service = service(false);
    let (tx, _rx) = oneshot::channel();
    let result = service.begin_request("workspace/configuration".to_string(), json("{}"), tx);
    assert_eq!(result, Err(not_initialized_error()));
}

#[test]
fn log_message() {
    let service = service(true);
    let params = json(r#"{"type":3,"message":""}"#);
    let message = service.notification("window/logMessage".to_string(), params.clone()).unwrap();
    assert_eq!(message.method, "window/logMessage");
    assert_eq!(message.kind, ClientMethod::Notification { params });
}

#[test]
fn send_notification_initialized_when_uninitialized() {
    let service = service(false);
    assert!(service.notification("textDocument/publishDiagnostics".to_string(), Value::Null).is_none());
}

#[test]
fn send_custom_request() {
    let mut service = service(true);
    let (tx, rx) = oneshot::channel();
    let request = service.begin_request("custom/request".to_string(), json("{}"), tx).unwrap();
    assert_eq!(request.kind, ClientMethod::Request { params: json("{}"), id: Id::Number(0) });
    assert!(service.call(Incoming::Response(Response::ok(Id::Number(0), Value::Null))).is_ok());
    let result = response_outcome(block_on(rx).unwrap());
    assert_eq!(result, Ok(Value::Null));
}

#[test]
fn send_custom_request_with_invalid_response() {
    let mut service = service(true);
    let (tx, rx) = oneshot::channel();
    service.begin_request("custom/request".to_string(), json("{}"), tx).unwrap();
    let reply = Response::ok(Id::Number(0), json("18446744073709551615"));
    assert!(service.call(Incoming::Response(reply)).is_ok());
    let value = response_outcome(block_on(rx).unwrap()).unwrap();
    let result: Result<(), Error> = serde_json::from_value::<()>(value).map_err(|e| parse_failure(e.to_string()));
    assert!(matches!(result, Err(Error { code: ErrorCode::ParseError, .. })));
    assert!(!service.is_waiting(&Id::Number(0)));
    let (tx, _rx) = oneshot::channel();
    assert_eq!(service.begin_request("custom/request".to_string(), Value::Null, tx).unwrap().kind,
        ClientMethod::Request { params: Value::Null, id: Id::Number(1) });
}

#[test]
fn send_custom_request_and_cancel() {
    let mut service = service(true);
    let (tx, _rx) = oneshot::channel();
    service.begin_request("custom/request".to_string(), json("{}"), tx).unwrap();
    assert!(service.is_waiting(&Id::Number(0)));
    let (error, note) = service.cancel_request(0);
    assert!(!service.is_waiting(&Id::Number(0)));
    assert_eq!(error, Error::request_cancelled());
    assert_eq!(note.method, "$/cancelRequest");
    assert_eq!(note.kind, ClientMethod::Notification { params: json(r#"{"id":0}"#) });
    assert!(!service.call(Incoming::Response(Response::ok(Id::Number(0), Value::Null))).is_err());
}

#[test]
fn cancel_params_forms() {
    assert_eq!(cancel_params_for(42), json(r#"{"id":42}"#));
    assert_eq!(cancel_params_for(2147483647), json(r#"{"id":2147483647}"#));
    assert_eq!(cancel_params_for(2147483648), json(r#"{"id":"2147483648"}"#));
}

#[test]
fn failed_send_gives_internal_error() {
    let mut service = service(true);
    let (tx, _rx) = oneshot::channel();
    service.begin_request("custom/request".to_string(), json("{}"), tx).unwrap();
    let error = service.abandon_request(0);
    assert_eq!(error.code, ErrorCode::InternalError);
}

#[test]
fn outbound_after_shutdown_still_flows() {
    let mut service = service(true);
    let req = ServerRequest { method: "shutdown".to_string(), params: None, id: Some(Id::Number(2)) };
    service.call(Incoming::Request(req)).unwrap();
    service.complete(&"shutdown".to_string(), Id::Number(2), Some(Ok(Value::Null)));
    assert_eq!(service.state(), StateKind::ShutDown);
    assert!(service.notification("window/showMessage".to_string(), Value::Null).is_some());
}

#[test]
fn telemetry_wrapping() {
    use_telemetry(json("42"), json("[42]"));
    use_telemetry(json(r#"{"a":1}"#), json(r#"{"a":1}"#));
    use_telemetry(Value::Null, Value::Null);
    use_telemetry(json("[1,2]"), json("[1,2]"));
    use_telemetry(json(r#""text""#), json(r#"["text"]"#));
}

fn use_telemetry(data: Value, expected: Value) {
    assert_eq!(telemetry_params(data), expected);
}
