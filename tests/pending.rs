use futures::channel::oneshot;
use futures::executor::block_on;
use futures::future::{abortable, pending as never};
use lspower::jsonrpc::{ClientRequests, Error, Id, Response, ServerRequests};
use serde_json::Value;

fn json(text: &str) -> Value {
    serde_json::from_str(text).unwrap()
}

#[test]
fn execute() {
    let mut pending = ServerRequests::new();
    let id = Id::Number(1);
    let (fut, handle) = abortable(async { Ok(json("{}")) });
    assert!(pending.execute(id.clone(), handle).is_none());
    let outcome = block_on(fut).ok();
    let response = pending.complete(id.clone(), outcome);
    assert_eq!(response, Response::ok(id, json("{}")));
}

#[test]
fn execute_concurrent() {
    let mut pending = ServerRequests::new();
    let id = Id::Number(1);
    let (fut0, handle0) = abortable(async { Ok(json("{}")) });
    let (_fut1, handle1) = abortable(async { Ok::<Value, Error>(json("{}")) });
    assert!(pending.execute(id.clone(), handle0).is_none());
    let second = pending.execute(id.clone(), handle1);
    let first = pending.complete(id.clone(), block_on(fut0).ok());
    assert_eq!(first, Response::ok(id.clone(), json("{}")));
    assert_eq!(second, Some(Response::error(Some(id.clone()), Error::invalid_request())));
}

#[test]
fn cancel() {
    let mut pending = ServerRequests::new();
    let id = Id::Number(1);
    let (fut, handle) = abortable(never::<Result<Value, Error>>());
    assert!(pending.execute(id.clone(), handle).is_none());
    assert!(pending.cancel(&id));
    let outcome = block_on(fut).ok();
    let res = pending.complete(id.clone(), outcome);
    assert_eq!(res, Response::error(Some(id), Error::request_cancelled()));
}

#[test]
fn cancel_non_existent() {
    let mut pending = ServerRequests::new();
    let id = Id::Number(1);
    assert!(!pending.cancel(&id));
}

#[test]
fn cancel_all() {
    let mut pending = ServerRequests::new();
    let id1 = Id::Number(1);
    let id2 = Id::Number(2);
    let (fut1, handle1) = abortable(never::<Result<Value, Error>>());
    let (fut2, handle2) = abortable(never::<Result<Value, Error>>());
    assert!(pending.execute(id1.clone(), handle1).is_none());
    assert!(pending.execute(id2.clone(), handle2).is_none());
    pending.cancel_all();
    assert!(!pending.contains(&id1));
    assert!(!pending.contains(&id2));

    let res1 = pending.complete(id1.clone(), block_on(fut1).ok());
    assert_eq!(res1, Response::error(Some(id1), Error::request_cancelled()));
    let res2 = pending.complete(id2.clone(), block_on(fut2).ok());
    assert_eq!(res2, Response::error(Some(id2), Error::request_cancelled()));
}

#[test]
fn wait_insert() {
    let mut pending = ClientRequests::new();
    let id = Id::Number(1);
    let (tx, rx) = oneshot::channel();
    pending.wait(id.clone(), tx);
    let expected = Response::ok(id.clone(), json("{}"));
    assert!(pending.insert(expected.clone()));
    let actual = block_on(rx).expect("task panicked");
    assert_eq!(expected, actual);
    assert!(!pending.contains(&id));
}

#[test]
fn unbalanced_insert() {
    let mut pending = ClientRequests::new();
    let id = Id::Number(1);
    let expected = Response::ok(id, json("{}"));
    assert!(!pending.insert(expected));
}

#[test]
fn insert_without_id_is_dropped() {
    let mut pending = ClientRequests::new();
    let (tx, _rx) = oneshot::channel();
    pending.wait(Id::Number(0), tx);
    assert!(!pending.insert(Response::error(None, Error::internal_error())));
    assert!(pending.contains(&Id::Number(0)));
}

#[test]
fn correlation_resolves_one_waiter_once() {
    let mut pending = ClientRequests::new();
    let (tx, rx) = oneshot::channel();
    pending.wait(Id::Number(5), tx);
    let (tx_other, _rx_other) = oneshot::channel();
    pending.wait(Id::Number(6), tx_other);
    assert!(pending.insert(Response::ok(Id::Number(5), Value::Null)));
    assert!(!pending.insert(Response::ok(Id::Number(5), Value::Null)));
    assert_eq!(block_on(rx).unwrap(), Response::ok(Id::Number(5), Value::Null));
    assert!(pending.contains(&Id::Number(6)));
    assert!(pending.remove(&Id::Number(6)));
    assert!(!pending.remove(&Id::Number(6)));
}
