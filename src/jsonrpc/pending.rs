//! Tables of pending JSON-RPC requests.
use vstd::prelude::*;

use super::{Error, Id, IdView, Response, response_body, response_id};
use dashmap::DashMap;
use futures::channel::oneshot::Sender;
use futures::future::AbortHandle;

verus! {

/// A concurrent hash map, used here with exclusive access.
#[verifier::external_type_specification]
#[verifier::external_body]
#[verifier::reject_recursive_types(K)]
#[verifier::reject_recursive_types(V)]
#[verifier::reject_recursive_types(S)]
pub struct ExDashMap<K, V, S>(DashMap<K, V, S>);

/// A handle that stops a running future.
#[verifier::external_type_specification]
#[verifier::external_body]
pub struct ExAbortHandle(AbortHandle);

/// The sending half of a one-shot channel.
#[verifier::external_type_specification]
#[verifier::external_body]
#[verifier::reject_recursive_types(T)]
pub struct ExSender<T>(Sender<T>);

/// Relies on `AbortHandle::abort`, which marks the future as aborted and wakes it.
pub assume_specification[ AbortHandle::abort ](h: &AbortHandle);

/// Relies on `oneshot::Sender::send`, which hands the value to the receiver, or back
/// when the receiver is gone.
pub assume_specification<T>[ Sender::<T>::send ](s: Sender<T>, t: T) -> Result<(), T>;

/// The IDs that a table of running handlers holds.
pub uninterp spec fn handle_ids(m: DashMap<Id, AbortHandle>) -> Set<IdView>;

/// The IDs that a table of response slots holds.
pub uninterp spec fn slot_ids(m: DashMap<Id, Sender<Response>>) -> Set<IdView>;

/// Relies on `DashMap::new`: a new map is empty.
#[verifier::external_body]
fn handles_new() -> (r: DashMap<Id, AbortHandle>)
    ensures
        handle_ids(r) == Set::<IdView>::empty(),
{
    DashMap::new()
}

/// Relies on `DashMap::contains_key`.
#[verifier::external_body]
fn handles_contain(m: &DashMap<Id, AbortHandle>, id: &Id) -> (r: bool)
    ensures
        r == handle_ids(*m).contains(id@),
{
    m.contains_key(id)
}

/// Relies on `DashMap::insert`: the key is present afterwards, the others stay.
#[verifier::external_body]
fn handles_insert(m: &mut DashMap<Id, AbortHandle>, id: Id, h: AbortHandle)
    ensures
        handle_ids(*final(m)) == handle_ids(*old(m)).insert(id@),
{
    m.insert(id, h);
}

/// Relies on `DashMap::remove`: the entry is handed out when it was present, and the key
/// is absent afterwards.
#[verifier::external_body]
fn handles_remove(m: &mut DashMap<Id, AbortHandle>, id: &Id) -> (r: Option<AbortHandle>)
    ensures
        handle_ids(*final(m)) == handle_ids(*old(m)).remove(id@),
        r is Some <==> handle_ids(*old(m)).contains(id@),
{
    m.remove(id).map(|e| e.1)
}

/// Relies on `DashMap::iter`: each key of the map once.
#[verifier::external_body]
fn handles_keys(m: &DashMap<Id, AbortHandle>) -> (r: Vec<Id>)
    ensures
        r@.map_values(|i: Id| i@).to_set() == handle_ids(*m),
{
    m.iter().map(|e| e.key().clone()).collect()
}

/// Relies on `DashMap::new`: a new map is empty.
#[verifier::external_body]
fn slots_new() -> (r: DashMap<Id, Sender<Response>>)
    ensures
        slot_ids(r) == Set::<IdView>::empty(),
{
    DashMap::new()
}

/// Relies on `DashMap::contains_key`.
#[verifier::external_body]
fn slots_contain(m: &DashMap<Id, Sender<Response>>, id: &Id) -> (r: bool)
    ensures
        r == slot_ids(*m).contains(id@),
{
    m.contains_key(id)
}

/// Relies on `DashMap::insert`: the key is present afterwards, the others stay.
#[verifier::external_body]
fn slots_insert(m: &mut DashMap<Id, Sender<Response>>, id: Id, tx: Sender<Response>)
    ensures
        slot_ids(*final(m)) == slot_ids(*old(m)).insert(id@),
{
    m.insert(id, tx);
}

/// Relies on `DashMap::remove`: the entry is handed out when it was present, and the key
/// is absent afterwards.
#[verifier::external_body]
fn slots_remove(m: &mut DashMap<Id, Sender<Response>>, id: &Id) -> (r: Option<Sender<Response>>)
    ensures
        slot_ids(*final(m)) == slot_ids(*old(m)).remove(id@),
        r is Some <==> slot_ids(*old(m)).contains(id@),
{
    m.remove(id).map(|e| e.1)
}

/// The response that a handler for `id` resolves to: its own result when it ran to the
/// end (`Some`), else a "request cancelled" error.
pub open spec fn completion_of(
    id: Id,
    outcome: Option<Result<serde_json::Value, Error>>,
    r: Response,
) -> bool {
    &&& response_id(r) == Some(id)
    &&& match outcome {
        Some(body) => response_body(r) == body,
        None => response_body(r) is Err && response_body(r)->Err_0.code
            == super::ErrorCode::RequestCancelled && response_body(r)->Err_0.message@
            == "Canceled"@ && response_body(r)->Err_0.data is None,
    }
}

/// Whether a response is the "invalid request" error for `id`.
pub open spec fn is_duplicate_reply(id: Id, r: Response) -> bool {
    &&& response_id(r) == Some(id)
    &&& response_body(r) is Err
    &&& response_body(r)->Err_0.code == super::ErrorCode::InvalidRequest
    &&& response_body(r)->Err_0.message@ == "Invalid request"@
    &&& response_body(r)->Err_0.data is None
}

/// Pending server requests: the handlers that are running, keyed by request ID.
#[derive(Debug)]
pub struct ServerRequests {
    handles: DashMap<Id, AbortHandle>,
}

impl View for ServerRequests {
    type V = Set<IdView>;

    closed spec fn view(&self) -> Set<IdView> {
        handle_ids(self.handles)
    }
}

impl ServerRequests {
    /// Creates a new table with no running handler.
    pub fn new() -> (r: ServerRequests)
        ensures
            r@ == Set::<IdView>::empty(),
    {
        ServerRequests { handles: handles_new() }
    }

    /// Whether a handler for `id` is running.
    pub fn contains(&self, id: &Id) -> (r: bool)
        ensures
            r == self@.contains(id@),
    {
        handles_contain(&self.handles, id)
    }

    /// Registers the handler for `id`, which `handle` stops. When one is already running
    /// for that ID, nothing changes and the "invalid request" response for the new request
    /// is returned; the running handler is not touched.
    pub fn execute(&mut self, id: Id, handle: AbortHandle) -> (r: Option<Response>)
        ensures
            old(self)@.contains(id@) ==> r is Some && is_duplicate_reply(id, r->Some_0)
                && final(self)@ == old(self)@,
            !old(self)@.contains(id@) ==> r is None && final(self)@ == old(self)@.insert(id@),
    {
        if handles_contain(&self.handles, &id) {
            Some(Response::error(Some(id), Error::invalid_request()))
        } else {
            handles_insert(&mut self.handles, id, handle);
            None
        }
    }

    /// Ends the handler for `id`: the entry is removed and the response is built, from the
    /// handler's result when it ran to the end (`Some`), else as "request cancelled".
    pub fn complete(&mut self, id: Id, outcome: Option<Result<serde_json::Value, Error>>) -> (r:
        Response)
        ensures
            final(self)@ == old(self)@.remove(id@),
            completion_of(id, outcome, r),
    {
        let _ = handles_remove(&mut self.handles, &id);
        match outcome {
            Some(body) => Response::from_parts(id, body),
            None => Response::error(Some(id), Error::request_cancelled()),
        }
    }

    /// Cancels the handler for `id`, if one is running: it is removed and aborted.
    /// Returns whether one was.
    pub fn cancel(&mut self, id: &Id) -> (r: bool)
        ensures
            final(self)@ == old(self)@.remove(id@),
            r == old(self)@.contains(id@),
    {
        match handles_remove(&mut self.handles, id) {
            Some(handle) => {
                handle.abort();
                true
            },
            None => false,
        }
    }

    /// Cancels every running handler.
    pub fn cancel_all(&mut self)
        ensures
            final(self)@ == Set::<IdView>::empty(),
    {
        let keys = handles_keys(&self.handles);
        let ghost start = self@;
        let mut i: usize = 0;
        while i < keys.len()
            invariant
                i <= keys@.len(),
                keys@.map_values(|k: Id| k@).to_set() == start,
                self@ == start.difference(keys@.subrange(0, i as int).map_values(|k: Id| k@).to_set()),
            decreases keys@.len() - i,
        {
            let _ = self.cancel(&keys[i]);
            proof {
                let before = keys@.subrange(0, i as int).map_values(|k: Id| k@);
                let after = keys@.subrange(0, i + 1).map_values(|k: Id| k@);
                assert(after == before.push(keys@[i as int]@));
                assert(after.to_set() == before.to_set().insert(keys@[i as int]@)) by {
                    before.lemma_push_to_set_commute(keys@[i as int]@);
                }
            }
            i = i + 1;
        }
        assert(keys@.subrange(0, i as int) == keys@);
        assert(self@ =~= Set::<IdView>::empty());
    }
}

/// Whether `insert` delivers a response: it carries an ID that a waiter holds.
pub open spec fn delivers(pending: Set<IdView>, r: Response) -> bool {
    response_id(r) is Some && pending.contains(response_id(r)->Some_0@)
}

/// A response with the ID of a waiting request is handed to that waiter, which then
/// leaves the table: a second response with the same ID, and any response whose ID
/// nobody waits for, is dropped.
pub proof fn lemma_correlation(pending: Set<IdView>, r: Response, other: Response)
    requires
        response_id(r) is Some,
        pending.contains(response_id(r)->Some_0@),
        response_id(other) is Some ==> response_id(other)->Some_0@ == response_id(r)->Some_0@,
    ensures
        delivers(pending, r),
        !delivers(pending.remove(response_id(r)->Some_0@), other),
{
}

/// Pending client requests: the slots that wait for a response, keyed by request ID.
#[derive(Debug)]
pub struct ClientRequests {
    slots: DashMap<Id, Sender<Response>>,
}

impl View for ClientRequests {
    type V = Set<IdView>;

    closed spec fn view(&self) -> Set<IdView> {
        slot_ids(self.slots)
    }
}

impl ClientRequests {
    /// Creates a new table with no waiting request.
    pub fn new() -> (r: ClientRequests)
        ensures
            r@ == Set::<IdView>::empty(),
    {
        ClientRequests { slots: slots_new() }
    }

    /// Whether a request with `id` waits for its response.
    pub fn contains(&self, id: &Id) -> (r: bool)
        ensures
            r == self@.contains(id@),
    {
        slots_contain(&self.slots, id)
    }

    /// Hands the response to the waiter of its ID, which leaves the table. A response
    /// without an ID, or with one that nobody waits for, is dropped. Returns whether it
    /// was handed on.
    pub fn insert(&mut self, r: Response) -> (delivered: bool)
        ensures
            delivered == delivers(old(self)@, r),
            delivered ==> final(self)@ == old(self)@.remove(response_id(r)->Some_0@),
            !delivered ==> final(self)@ == old(self)@,
    {
        let id = match r.id() {
            Some(id) => id.duplicate(),
            None => return false,
        };
        match slots_remove(&mut self.slots, &id) {
            Some(tx) => {
                let _ = tx.send(r);
                true
            },
            None => false,
        }
    }

    /// Marks `id` as waiting for a response, which will be handed to `tx`.
    pub fn wait(&mut self, id: Id, tx: Sender<Response>)
        requires
            !old(self)@.contains(id@),
        ensures
            final(self)@ == old(self)@.insert(id@),
    {
        slots_insert(&mut self.slots, id, tx);
    }

    /// Gives up waiting for `id`. Returns whether it was waiting.
    pub fn remove(&mut self, id: &Id) -> (r: bool)
        ensures
            final(self)@ == old(self)@.remove(id@),
            r == old(self)@.contains(id@),
    {
        slots_remove(&mut self.slots, id).is_some()
    }
}

} // verus!
