//! The session core of a language server: lifecycle gates, dispatch decisions, and the
//! registries of pending requests in both directions.
use vstd::prelude::*;

use crate::jsonrpc::pending::{completion_of, delivers, is_duplicate_reply};
use crate::client::{cancel_params_for, cancel_params_json, cancel_target};
use crate::jsonrpc::{
    ClientMethod,
    ClientRequest,
    ClientRequests,
    Error,
    ErrorCode,
    Id,
    IdView,
    Incoming,
    Response,
    ServerRequest,
    ServerRequests,
    not_initialized_error,
    response_body,
    response_id,
};
use crate::server::{State, StateKind};
use futures::channel::oneshot::Sender;
use futures::future::AbortHandle;

verus! {

/// Error that occurs when attempting to call the language server after it has already exited.
#[derive(Clone, Copy, Debug, PartialEq, Eq, Structural)]
pub struct ExitedError;

impl ExitedError {
    /// The text shown for this error.
    pub fn to_text(&self) -> (r: String)
        ensures
            r@ == "language server has exited"@,
    {
        String::from_str("language server has exited")
    }
}

/// How the session treats an incoming request or notification.
#[derive(Clone, Copy, Debug, PartialEq, Eq, Structural)]
pub enum RouteKind {
    /// Answered at once with "server not initialized" (`-32002`).
    NotInitialized,
    /// Answered at once with "invalid request" (`-32600`).
    InvalidRequest,
    /// A request handed to the backend; its handler is tracked under the request ID.
    Handle,
    /// A notification handed to the backend.
    Notify,
    /// A `$/cancelRequest` notification: the handler it names is to be cancelled.
    Cancel,
    /// The `exit` notification: every handler is cancelled and the session ends.
    Exit,
    /// Dropped without effect.
    Ignore,
}

/// Whether a method name is `initialize`.
pub open spec fn is_initialize(m: Seq<char>) -> bool {
    m == "initialize"@
}

/// Whether a method name is `shutdown`.
pub open spec fn is_shutdown(m: Seq<char>) -> bool {
    m == "shutdown"@
}

/// Whether a method name is `exit`.
pub open spec fn is_exit(m: Seq<char>) -> bool {
    m == "exit"@
}

/// Whether a method name is `$/cancelRequest`.
pub open spec fn is_cancel_request(m: Seq<char>) -> bool {
    m == "$/cancelRequest"@
}

/// How a message with method `m`, sent as a request (`is_request`) or as a notification,
/// is treated in a state other than `Exited`.
pub open spec fn route_kind(state: StateKind, m: Seq<char>, is_request: bool) -> RouteKind {
    if is_request && is_initialize(m) {
        if state == StateKind::Uninitialized {
            RouteKind::Handle
        } else {
            RouteKind::InvalidRequest
        }
    } else if !is_request && is_exit(m) {
        RouteKind::Exit
    } else if state == StateKind::Uninitialized || state == StateKind::Initializing {
        if is_request {
            RouteKind::NotInitialized
        } else {
            RouteKind::Ignore
        }
    } else if state == StateKind::ShutDown {
        if is_request {
            RouteKind::InvalidRequest
        } else {
            RouteKind::Ignore
        }
    } else if is_request {
        RouteKind::Handle
    } else if is_cancel_request(m) {
        RouteKind::Cancel
    } else {
        RouteKind::Notify
    }
}

/// The state right after a message has been routed.
pub open spec fn state_after_route(state: StateKind, m: Seq<char>, is_request: bool) -> StateKind {
    let k = route_kind(state, m, is_request);
    if k == RouteKind::Exit {
        StateKind::Exited
    } else if k == RouteKind::Handle && is_initialize(m) {
        StateKind::Initializing
    } else {
        state
    }
}

/// The state after the handler of a request with method `m` has ended; `succeeded` when
/// it ran to the end with a result.
pub open spec fn state_after_completion(state: StateKind, m: Seq<char>, succeeded: bool) -> StateKind {
    if is_initialize(m) && state == StateKind::Initializing {
        if succeeded {
            StateKind::Initialized
        } else {
            StateKind::Uninitialized
        }
    } else if is_shutdown(m) && state == StateKind::Initialized && succeeded {
        StateKind::ShutDown
    } else {
        state
    }
}

/// Before initialization, every request other than `initialize` is answered with
/// "server not initialized" and leaves the state as it is.
pub proof fn lemma_requests_before_initialization(state: StateKind, m: Seq<char>)
    requires
        state == StateKind::Uninitialized || state == StateKind::Initializing,
        !is_initialize(m),
    ensures
        route_kind(state, m, true) == RouteKind::NotInitialized,
        state_after_route(state, m, true) == state,
{
}

/// Once `initialize` has succeeded the session is initialized, it never goes back to
/// uninitialized, and every further `initialize` is answered with "invalid request".
pub proof fn lemma_initialize_only_once(state: StateKind, m: Seq<char>, is_request: bool, succeeded: bool)
    requires
        state != StateKind::Uninitialized,
        state != StateKind::Initializing,
    ensures
        state_after_completion(StateKind::Initializing, "initialize"@, true) == StateKind::Initialized,
        route_kind(state, "initialize"@, true) == RouteKind::InvalidRequest,
        state_after_route(state, m, is_request) != StateKind::Uninitialized,
        state_after_route(state, m, is_request) != StateKind::Initializing,
        state_after_completion(state, m, succeeded) != StateKind::Uninitialized,
        state_after_completion(state, m, succeeded) != StateKind::Initializing,
{
}

/// Once `shutdown` has succeeded the session stays shut down until it exits, and every
/// further `shutdown` is answered with "invalid request".
pub proof fn lemma_shutdown_only_once(m: Seq<char>, is_request: bool, succeeded: bool)
    ensures
        state_after_completion(StateKind::Initialized, "shutdown"@, true) == StateKind::ShutDown,
        route_kind(StateKind::ShutDown, "shutdown"@, true) == RouteKind::InvalidRequest,
        state_after_completion(StateKind::ShutDown, m, succeeded) == StateKind::ShutDown,
        state_after_route(StateKind::ShutDown, m, is_request) == StateKind::ShutDown
            || state_after_route(StateKind::ShutDown, m, is_request) == StateKind::Exited,
{
}

/// The `exit` notification ends the session from any state, and no handler that ends
/// afterwards moves an exited session on (`poll_ready` and `call` refuse an exited session).
pub proof fn lemma_exit_is_final(state: StateKind, m: Seq<char>, succeeded: bool)
    ensures
        route_kind(state, "exit"@, false) == RouteKind::Exit,
        state_after_route(state, "exit"@, false) == StateKind::Exited,
        state_after_completion(StateKind::Exited, m, succeeded) == StateKind::Exited,
{
}

/// A handler that was cancelled before it ended resolves to the "request cancelled"
/// error (`-32800`) carrying the ID of its request.
pub proof fn lemma_cancelled_response(id: Id, r: Response)
    requires
        crate::jsonrpc::pending::completion_of(id, None, r),
    ensures
        response_id(r) == Some(id),
        response_body(r) is Err,
        crate::jsonrpc::error::code_value(response_body(r)->Err_0.code) == -32800,
{
}

/// The request that `$/cancelRequest` parameters name, as the reader of
/// `lsp_types::CancelParams` sees them: a number, a string, or nothing when they do not
/// have that shape.
pub uninterp spec fn cancel_params_target(params: serde_json::Value) -> Option<Result<i32, Seq<char>>>;

/// Relies on `serde_json::from_value` into `lsp_types::CancelParams`, whose result depends
/// on the value alone.
#[verifier::external_body]
fn read_cancel_params(params: serde_json::Value) -> (r: Option<Result<i32, String>>)
    ensures
        match cancel_params_target(params) {
            None => r is None,
            Some(Ok(n)) => r == Some(Ok::<i32, String>(n)),
            Some(Err(t)) => r is Some && r->Some_0 is Err && r->Some_0->Err_0@ == t,
        },
{
    match serde_json::from_value::<lsp_types::CancelParams>(params) {
        Ok(p) => Some(match p.id {
            lsp_types::NumberOrString::Number(n) => Ok(n),
            lsp_types::NumberOrString::String(s) => Err(s),
        }),
        Err(_) => None,
    }
}

/// The ID of the request that a `$/cancelRequest` with these parameters names. A negative
/// number names no request, since numeric request IDs are unsigned.
pub open spec fn cancelled_id_of(params: Option<serde_json::Value>) -> Option<IdView> {
    match params {
        None => None,
        Some(v) => match cancel_params_target(v) {
            None => None,
            Some(Ok(n)) => if n >= 0 {
                Some(IdView::Number(n as u64))
            } else {
                None
            },
            Some(Err(t)) => Some(IdView::Text(t)),
        },
    }
}

/// Reads the ID of the request that a `$/cancelRequest` with these parameters names.
pub fn cancelled_id(params: Option<serde_json::Value>) -> (r: Option<Id>)
    ensures
        match cancelled_id_of(params) {
            None => r is None,
            Some(v) => r is Some && r->Some_0@ == v,
        },
{
    match params {
        None => None,
        Some(v) => match read_cancel_params(v) {
            None => None,
            Some(Ok(n)) => if n >= 0 {
                Some(Id::Number(n as u64))
            } else {
                None
            },
            Some(Err(t)) => Some(Id::String(t)),
        },
    }
}

/// What the caller of `call` is to do next.
#[derive(Debug, PartialEq)]
pub enum Route {
    /// Send this response; nothing else is to be done.
    Reply(Response),
    /// Run the backend handler of this request, register it with `execute`, and end it
    /// with `complete`.
    Handle(ServerRequest),
    /// Run the backend handler of this notification.
    Notify(ServerRequest),
    /// Read the ID that this `$/cancelRequest` names with `cancelled_id` and call `cancel`
    /// with it.
    Cancel(ServerRequest),
    /// Nothing is to be done.
    Done,
}

/// Whether `r` is the error response with `error`'s code and message for the request `req`.
pub open spec fn is_error_reply(req: ServerRequest, r: Route, code: ErrorCode, message: Seq<char>) -> bool {
    &&& r is Reply
    &&& response_id(r->Reply_0) == req.id
    &&& response_body(r->Reply_0) is Err
    &&& response_body(r->Reply_0)->Err_0.code == code
    &&& response_body(r->Reply_0)->Err_0.message@ == message
    &&& response_body(r->Reply_0)->Err_0.data is None
}

/// What `call` hands back for a request or notification routed as `k`.
pub open spec fn route_matches(k: RouteKind, req: ServerRequest, r: Route) -> bool {
    match k {
        RouteKind::NotInitialized => is_error_reply(
            req,
            r,
            ErrorCode::ServerError(-32002i64),
            "Server not initialized"@,
        ),
        RouteKind::InvalidRequest => is_error_reply(
            req,
            r,
            ErrorCode::InvalidRequest,
            "Invalid request"@,
        ),
        RouteKind::Handle => r == Route::Handle(req),
        RouteKind::Notify => r == Route::Notify(req),
        RouteKind::Cancel => r == Route::Cancel(req),
        RouteKind::Exit => r is Done,
        RouteKind::Ignore => r is Done,
    }
}

/// What a session is: its lifecycle state, the IDs of the handlers that run, the IDs of
/// the requests to the client that wait for a response, and the next such request's ID.
pub struct SessionView {
    pub state: StateKind,
    pub running: Set<IdView>,
    pub waiting: Set<IdView>,
    pub next_id: u64,
}

/// The session core of the Language Server Protocol service.
///
/// It takes each incoming message and says what is to be done with it; the backend's
/// handlers run outside, and their ends come back through `complete`. The service stops
/// serving after the `exit` notification.
#[derive(Debug)]
pub struct LspService {
    state: State,
    pending_server: ServerRequests,
    pending_client: ClientRequests,
    request_id: u64,
}

impl View for LspService {
    type V = SessionView;

    closed spec fn view(&self) -> SessionView {
        SessionView {
            state: self.state@,
            running: self.pending_server@,
            waiting: self.pending_client@,
            next_id: self.request_id,
        }
    }
}

/// Whether two method names are equal.
fn method_is(m: &String, name: &str) -> (r: bool)
    ensures
        r == (m@ == name@),
{
    m.eq(&String::from_str(name))
}

impl LspService {
    /// The session's invariant: every request to the client that waits carries a numeric
    /// ID below the next one, so a new request never meets a waiting one.
    pub closed spec fn wf(&self) -> bool {
        forall|v: IdView| #[trigger]
            self.pending_client@.contains(v) ==> v is Number && v->Number_0 < self.request_id
    }

    /// Creates a new session, not yet initialized, with nothing pending.
    pub fn new() -> (r: LspService)
        ensures
            r@.state == StateKind::Uninitialized,
            r@.running == Set::<IdView>::empty(),
            r@.waiting == Set::<IdView>::empty(),
            r@.next_id == 0,
            r.wf(),
    {
        LspService {
            state: State::new(),
            pending_server: ServerRequests::new(),
            pending_client: ClientRequests::new(),
            request_id: 0,
        }
    }

    /// The current lifecycle state.
    pub fn state(&self) -> (r: StateKind)
        ensures
            r == self@.state,
    {
        self.state.get()
    }

    /// Whether the handler of the request `id` is running.
    pub fn is_running(&self, id: &Id) -> (r: bool)
        ensures
            r == self@.running.contains(id@),
    {
        self.pending_server.contains(id)
    }

    /// Whether the request `id` to the client waits for its response.
    pub fn is_waiting(&self, id: &Id) -> (r: bool)
        ensures
            r == self@.waiting.contains(id@),
    {
        self.pending_client.contains(id)
    }

    /// Succeeds until the session has exited.
    pub fn poll_ready(&self) -> (r: Result<(), ExitedError>)
        ensures
            r is Err <==> self@.state == StateKind::Exited,
    {
        if self.state.get() == StateKind::Exited {
            Err(ExitedError)
        } else {
            Ok(())
        }
    }

    /// Takes one incoming message. A response from the client goes to the request that
    /// waits for it; a request or notification is routed by the session's state.
    pub fn call(&mut self, incoming: Incoming) -> (r: Result<Route, ExitedError>)
        requires
            old(self).wf(),
        ensures
            final(self).wf(),
            old(self)@.state == StateKind::Exited ==> r is Err && final(self)@ == old(self)@,
            old(self)@.state != StateKind::Exited ==> r is Ok && match incoming {
                Incoming::Response(res) => {
                    &&& r->Ok_0 is Done
                    &&& final(self)@.state == old(self)@.state
                    &&& final(self)@.running == old(self)@.running
                    &&& final(self)@.next_id == old(self)@.next_id
                    &&& delivers(old(self)@.waiting, res) ==> final(self)@.waiting
                        == old(self)@.waiting.remove(response_id(res)->Some_0@)
                    &&& !delivers(old(self)@.waiting, res) ==> final(self)@.waiting
                        == old(self)@.waiting
                },
                Incoming::Request(req) => {
                    let k = route_kind(old(self)@.state, req.method@, req.id is Some);
                    &&& route_matches(k, req, r->Ok_0)
                    &&& final(self)@.state == state_after_route(
                        old(self)@.state,
                        req.method@,
                        req.id is Some,
                    )
                    &&& final(self)@.running == if k == RouteKind::Exit {
                        Set::<IdView>::empty()
                    } else {
                        old(self)@.running
                    }
                    &&& final(self)@.waiting == old(self)@.waiting
                    &&& final(self)@.next_id == old(self)@.next_id
                },
            },
    {
        if self.state.get() == StateKind::Exited {
            return Err(ExitedError);
        }
        match incoming {
            Incoming::Response(res) => {
                let _ = self.pending_client.insert(res);
                Ok(Route::Done)
            },
            Incoming::Request(req) => Ok(self.route(req)),
        }
    }

    fn route(&mut self, req: ServerRequest) -> (r: Route)
        requires
            old(self).wf(),
            old(self)@.state != StateKind::Exited,
        ensures
            final(self).wf(),
            ({
                let k = route_kind(old(self)@.state, req.method@, req.id is Some);
                &&& route_matches(k, req, r)
                &&& final(self)@.state == state_after_route(
                    old(self)@.state,
                    req.method@,
                    req.id is Some,
                )
                &&& final(self)@.running == if k == RouteKind::Exit {
                    Set::<IdView>::empty()
                } else {
                    old(self)@.running
                }
                &&& final(self)@.waiting == old(self)@.waiting
                &&& final(self)@.next_id == old(self)@.next_id
            }),
    {
        let state = self.state.get();
        let is_request = req.id.is_some();
        if is_request && method_is(&req.method, "initialize") {
            if state == StateKind::Uninitialized {
                self.state.set(StateKind::Initializing);
                Route::Handle(req)
            } else {
                Route::Reply(Response::error(req.id, Error::invalid_request()))
            }
        } else if !is_request && method_is(&req.method, "exit") {
            self.pending_server.cancel_all();
            self.state.set(StateKind::Exited);
            Route::Done
        } else if state == StateKind::Uninitialized || state == StateKind::Initializing {
            if is_request {
                Route::Reply(Response::error(req.id, not_initialized_error()))
            } else {
                Route::Done
            }
        } else if state == StateKind::ShutDown {
            if is_request {
                Route::Reply(Response::error(req.id, Error::invalid_request()))
            } else {
                Route::Done
            }
        } else if is_request {
            Route::Handle(req)
        } else if method_is(&req.method, "$/cancelRequest") {
            Route::Cancel(req)
        } else {
            Route::Notify(req)
        }
    }

    /// Registers the running handler of a request routed to `Handle`, which `handle` stops.
    /// When a handler with the same ID runs already, nothing changes and the "invalid
    /// request" response for the new request is returned.
    pub fn execute(&mut self, id: Id, handle: AbortHandle) -> (r: Option<Response>)
        requires
            old(self).wf(),
        ensures
            final(self).wf(),
            final(self)@.state == old(self)@.state,
            final(self)@.waiting == old(self)@.waiting,
            final(self)@.next_id == old(self)@.next_id,
            old(self)@.running.contains(id@) ==> r is Some && is_duplicate_reply(id, r->Some_0)
                && final(self)@.running == old(self)@.running,
            !old(self)@.running.contains(id@) ==> r is None && final(self)@.running
                == old(self)@.running.insert(id@),
    {
        self.pending_server.execute(id, handle)
    }

    /// Ends the handler of the request `id` with method `method`: `Some` with its result
    /// when it ran to the end, `None` when it was aborted. Returns the response to send;
    /// a successful `initialize` or `shutdown` moves the lifecycle on, a failed
    /// `initialize` moves it back.
    pub fn complete(
        &mut self,
        method: &String,
        id: Id,
        outcome: Option<Result<serde_json::Value, Error>>,
    ) -> (r: Response)
        requires
            old(self).wf(),
        ensures
            final(self).wf(),
            completion_of(id, outcome, r),
            final(self)@.state == state_after_completion(
                old(self)@.state,
                method@,
                outcome is Some && outcome->Some_0 is Ok,
            ),
            final(self)@.running == old(self)@.running.remove(id@),
            final(self)@.waiting == old(self)@.waiting,
            final(self)@.next_id == old(self)@.next_id,
    {
        let succeeded = match &outcome {
            Some(Ok(_)) => true,
            _ => false,
        };
        let state = self.state.get();
        if method_is(method, "initialize") && state == StateKind::Initializing {
            if succeeded {
                self.state.set(StateKind::Initialized);
            } else {
                self.state.set(StateKind::Uninitialized);
            }
        } else if method_is(method, "shutdown") && state == StateKind::Initialized && succeeded {
            self.state.set(StateKind::ShutDown);
        }
        self.pending_server.complete(id, outcome)
    }

    /// Cancels the running handler of the request `id`, if any; its response becomes
    /// "request cancelled". Returns whether one was running.
    pub fn cancel(&mut self, id: &Id) -> (r: bool)
        requires
            old(self).wf(),
        ensures
            final(self).wf(),
            r == old(self)@.running.contains(id@),
            final(self)@.running == old(self)@.running.remove(id@),
            final(self)@.state == old(self)@.state,
            final(self)@.waiting == old(self)@.waiting,
            final(self)@.next_id == old(self)@.next_id,
    {
        self.pending_server.cancel(id)
    }

    /// Cancels every running handler.
    pub fn cancel_all(&mut self)
        requires
            old(self).wf(),
        ensures
            final(self).wf(),
            final(self)@.running == Set::<IdView>::empty(),
            final(self)@.state == old(self)@.state,
            final(self)@.waiting == old(self)@.waiting,
            final(self)@.next_id == old(self)@.next_id,
    {
        self.pending_server.cancel_all()
    }

    /// Starts a request to the client with method `method`: it gets the next ID, and its
    /// response will be handed to `tx`. Before initialization (and after exit) nothing is
    /// started and "server not initialized" is returned; when the IDs are used up,
    /// "internal error".
    pub fn begin_request(
        &mut self,
        method: String,
        params: serde_json::Value,
        tx: Sender<Response>,
    ) -> (r: Result<ClientRequest, Error>)
        requires
            old(self).wf(),
        ensures
            final(self).wf(),
            final(self)@.state == old(self)@.state,
            final(self)@.running == old(self)@.running,
            !old(self)@.state.spec_allows_outbound() ==> r is Err && r->Err_0.code
                == ErrorCode::ServerError(-32002i64) && r->Err_0.message@
                == "Server not initialized"@ && final(self)@ == old(self)@,
            old(self)@.state.spec_allows_outbound() && old(self)@.next_id == u64::MAX ==> r is Err
                && r->Err_0.code == ErrorCode::InternalError && final(self)@ == old(self)@,
            old(self)@.state.spec_allows_outbound() && old(self)@.next_id < u64::MAX ==> {
                &&& r is Ok
                &&& r->Ok_0.method@ == method@
                &&& r->Ok_0.kind == (ClientMethod::Request {
                    params,
                    id: Id::Number(old(self)@.next_id),
                })
                &&& final(self)@.next_id == old(self)@.next_id + 1
                &&& final(self)@.waiting == old(self)@.waiting.insert(
                    IdView::Number(old(self)@.next_id),
                )
            },
    {
        if !self.state.get().allows_outbound() {
            return Err(not_initialized_error());
        }
        if self.request_id == u64::MAX {
            return Err(Error::internal_error());
        }
        let id = self.request_id;
        self.request_id = id + 1;
        self.pending_client.wait(Id::Number(id), tx);
        Ok(ClientRequest::request(id, method, params))
    }

    /// Gives up the request `id` because it could not be sent: it stops waiting, and the
    /// caller is handed "internal error".
    pub fn abandon_request(&mut self, id: u64) -> (r: Error)
        requires
            old(self).wf(),
        ensures
            final(self).wf(),
            r.code == ErrorCode::InternalError,
            final(self)@.waiting == old(self)@.waiting.remove(IdView::Number(id)),
            final(self)@.state == old(self)@.state,
            final(self)@.running == old(self)@.running,
            final(self)@.next_id == old(self)@.next_id,
    {
        let _ = self.pending_client.remove(&Id::Number(id));
        Error::internal_error()
    }

    /// Gives up the request `id` on its caller's cancellation: it stops waiting, the
    /// caller is handed "request cancelled" (`-32800`), and the returned `$/cancelRequest`
    /// notification, naming `id`, is to be sent to the client.
    pub fn cancel_request(&mut self, id: u64) -> (r: (Error, ClientRequest))
        requires
            old(self).wf(),
        ensures
            final(self).wf(),
            r.0.code == ErrorCode::RequestCancelled,
            r.0.message@ == "Canceled"@,
            r.1.method@ == "$/cancelRequest"@,
            r.1.kind == (ClientMethod::Notification { params: cancel_params_json(cancel_target(id)) }),
            final(self)@.waiting == old(self)@.waiting.remove(IdView::Number(id)),
            final(self)@.state == old(self)@.state,
            final(self)@.running == old(self)@.running,
            final(self)@.next_id == old(self)@.next_id,
    {
        let _ = self.pending_client.remove(&Id::Number(id));
        let params = cancel_params_for(id);
        let note = ClientRequest::notification(String::from_str("$/cancelRequest"), params);
        (Error::request_cancelled(), note)
    }

    /// A notification to the client with method `method`; `None` when the session's
    /// state holds messages to the client back (before initialization, after exit).
    pub fn notification(&self, method: String, params: serde_json::Value) -> (r: Option<ClientRequest>)
        ensures
            self@.state.spec_allows_outbound() ==> r is Some && r->Some_0.method@ == method@
                && r->Some_0.kind == (ClientMethod::Notification { params }),
            !self@.state.spec_allows_outbound() ==> r is None,
    {
        if self.state.get().allows_outbound() {
            Some(ClientRequest::notification(method, params))
        } else {
            None
        }
    }
}

/// A request to the client (started by `begin_request`) whose response arrives first:
/// `call` hands that response to it, and afterwards nothing waits under its ID any more,
/// so the waiting table is back to what it was before the request, and a later
/// cancellation or second response finds nothing.
pub proof fn lemma_response_before_cancellation(svc: LspService, r: Response)
    requires
        svc.wf(),
        svc@.state.spec_allows_outbound(),
        svc@.next_id < u64::MAX,
        response_id(r) == Some(Id::Number(svc@.next_id)),
    ensures
        ({
            let w = svc@.waiting.insert(IdView::Number(svc@.next_id));
            &&& delivers(w, r)
            &&& w.remove(response_id(r)->Some_0@) == svc@.waiting
            &&& !delivers(w.remove(response_id(r)->Some_0@), r)
        }),
{
    let w = svc@.waiting.insert(IdView::Number(svc@.next_id));
    assert(!svc.pending_client@.contains(IdView::Number(svc@.next_id)));
    assert(w.remove(IdView::Number(svc@.next_id)) =~= svc@.waiting);
}

/// A request to the client (started by `begin_request`) whose caller cancels it first:
/// `cancel_request` leaves the waiting table as it was before the request, a response
/// that arrives later is dropped, and the `$/cancelRequest` notification names the
/// request by its number.
pub proof fn lemma_cancellation_before_response(svc: LspService, late: Response)
    requires
        svc.wf(),
        svc@.state.spec_allows_outbound(),
        svc@.next_id <= i32::MAX as u64,
        response_id(late) == Some(Id::Number(svc@.next_id)),
    ensures
        ({
            let n = svc@.next_id;
            let w = svc@.waiting.insert(IdView::Number(n));
            &&& w.remove(IdView::Number(n)) == svc@.waiting
            &&& !delivers(w.remove(IdView::Number(n)), late)
            &&& cancel_target(n) == Ok::<i32, Seq<char>>(n as i32)
        }),
{
    let w = svc@.waiting.insert(IdView::Number(svc@.next_id));
    assert(!svc.pending_client@.contains(IdView::Number(svc@.next_id)));
    assert(w.remove(IdView::Number(svc@.next_id)) =~= svc@.waiting);
}

} // verus!
