//! A subset of JSON-RPC types used by the Language Server Protocol.
use vstd::prelude::*;

pub mod error;
pub mod pending;

pub use self::error::{Error, ErrorCode};
pub use self::pending::{ClientRequests, ServerRequests};

verus! {

/// A unique ID used to correlate requests and responses together.
#[derive(Clone, Debug, PartialEq, Eq, Hash)]
pub enum Id {
    /// Numeric ID.
    Number(u64),
    /// String ID.
    String(String),
}

/// What an ID is: a number or a text.
pub enum IdView {
    Number(u64),
    Text(Seq<char>),
}

impl View for Id {
    type V = IdView;

    open spec fn view(&self) -> IdView {
        match self {
            Id::Number(n) => IdView::Number(*n),
            Id::String(s) => IdView::Text(s@),
        }
    }
}

/// The text of a string as Rust's debug formatting writes it: quoted, with escapes.
pub uninterp spec fn debug_text(s: Seq<char>) -> Seq<char>;

/// Relies on the `Debug` formatting of `str`, which depends on the characters alone.
#[verifier::external_body]
fn debug_quoted(s: &str) -> (r: String)
    ensures
        r@ == debug_text(s@),
{
    format!("{:?}", s)
}

/// The text an ID is displayed as.
pub open spec fn id_text(id: IdView) -> Seq<char> {
    match id {
        IdView::Number(n) => crate::codec::decimal(n as nat),
        IdView::Text(s) => debug_text(s),
    }
}

impl Id {
    /// Returns the text this ID is displayed as: a number in decimal, a string quoted.
    pub fn to_text(&self) -> (r: String)
        ensures
            r@ == id_text(self@),
    {
        match self {
            Id::Number(n) => crate::codec::format_unsigned(*n),
            Id::String(s) => debug_quoted(s.as_str()),
        }
    }

    /// Clones the ID.
    pub fn duplicate(&self) -> (r: Id)
        ensures
            r@ == self@,
    {
        match self {
            Id::Number(n) => Id::Number(*n),
            Id::String(s) => Id::String(s.clone()),
        }
    }

    /// Whether two IDs are equal.
    pub fn same(&self, other: &Id) -> (r: bool)
        ensures
            r == (self@ == other@),
    {
        match self {
            Id::Number(a) => match other {
                Id::Number(b) => *a == *b,
                Id::String(_) => false,
            },
            Id::String(a) => match other {
                Id::Number(_) => false,
                Id::String(b) => a.eq(b),
            },
        }
    }
}

/// The two forms of a response: a result, or an error.
#[derive(Clone, Debug, PartialEq)]
pub enum ResponseKind {
    /// A successful response, which always carries an ID.
    Success { result: serde_json::Value, id: Id },
    /// A failed response, whose ID may be missing.
    Failure { error: Error, id: Option<Id> },
}

/// A successful or failed JSON-RPC response.
#[derive(Clone, Debug, PartialEq)]
pub struct Response {
    /// What the response carries.
    pub kind: ResponseKind,
}

/// The ID that a response carries, if any.
pub open spec fn response_id(r: Response) -> Option<Id> {
    match r.kind {
        ResponseKind::Success { id, .. } => Some(id),
        ResponseKind::Failure { id, .. } => id,
    }
}

/// The body of a response: its result or its error.
pub open spec fn response_body(r: Response) -> Result<serde_json::Value, Error> {
    match r.kind {
        ResponseKind::Success { result, .. } => Ok(result),
        ResponseKind::Failure { error, .. } => Err(error),
    }
}

impl Response {
    /// Creates a new successful response from a request ID and a result.
    pub fn ok(id: Id, result: serde_json::Value) -> (r: Response)
        ensures
            r.kind == (ResponseKind::Success { result, id }),
    {
        Response { kind: ResponseKind::Success { result, id } }
    }

    /// Creates a new error response from a request ID and `Error` object.
    pub fn error(id: Option<Id>, error: Error) -> (r: Response)
        ensures
            r.kind == (ResponseKind::Failure { error, id }),
    {
        Response { kind: ResponseKind::Failure { error, id } }
    }

    /// Creates a new response from a request ID and either a result or an error.
    pub fn from_parts(id: Id, body: Result<serde_json::Value, Error>) -> (r: Response)
        ensures
            response_id(r) == Some(id),
            response_body(r) == body,
    {
        match body {
            Ok(result) => Response::ok(id, result),
            Err(error) => Response::error(Some(id), error),
        }
    }

    /// Splits the response into its request ID and its result or error.
    pub fn into_parts(self) -> (r: (Option<Id>, Result<serde_json::Value, Error>))
        ensures
            r == (response_id(self), response_body(self)),
    {
        match self.kind {
            ResponseKind::Success { id, result } => (Some(id), Ok(result)),
            ResponseKind::Failure { id, error } => (id, Err(error)),
        }
    }

    /// Returns the corresponding request ID, if any.
    pub fn id(&self) -> (r: Option<&Id>)
        ensures
            r == match response_id(*self) {
                Some(i) => Some(&i),
                None => None::<&Id>,
            },
    {
        match &self.kind {
            ResponseKind::Success { id, .. } => Some(id),
            ResponseKind::Failure { id, .. } => id.as_ref(),
        }
    }
}

/// A request or notification intended for the language server.
#[derive(Clone, Debug, PartialEq)]
pub struct ServerRequest {
    /// The method name.
    pub method: String,
    /// The parameters, if any.
    pub params: Option<serde_json::Value>,
    /// The request ID; a notification has none.
    pub id: Option<Id>,
}

/// An incoming JSON-RPC message.
#[derive(Clone, Debug, PartialEq)]
pub enum Incoming {
    /// Request intended for the language server.
    Request(ServerRequest),
    /// Response to a server-to-client request.
    Response(Response),
}

/// The two forms of a server-to-client message: a request, which carries an ID, or a
/// notification.
#[derive(Clone, Debug, PartialEq)]
pub enum ClientMethod {
    /// A request expecting a response.
    Request { params: serde_json::Value, id: Id },
    /// A notification.
    Notification { params: serde_json::Value },
}

/// A server-to-client LSP request or notification.
#[derive(Clone, Debug, PartialEq)]
pub struct ClientRequest {
    /// The method name.
    pub method: String,
    /// Its parameters, and its ID where it is a request.
    pub kind: ClientMethod,
}

impl ClientRequest {
    /// Constructs a request with a numeric ID.
    pub fn request(id: u64, method: String, params: serde_json::Value) -> (r: ClientRequest)
        ensures
            r.method@ == method@,
            r.kind == (ClientMethod::Request { params, id: Id::Number(id) }),
    {
        ClientRequest { method, kind: ClientMethod::Request { params, id: Id::Number(id) } }
    }

    /// Constructs a notification.
    pub fn notification(method: String, params: serde_json::Value) -> (r: ClientRequest)
        ensures
            r.method@ == method@,
            r.kind == (ClientMethod::Notification { params }),
    {
        ClientRequest { method, kind: ClientMethod::Notification { params } }
    }
}

/// An outgoing JSON-RPC message.
#[derive(Clone, Debug, PartialEq)]
pub enum Outgoing {
    /// Response to a client-to-server request.
    Response(Response),
    /// Request intended for the language client.
    Request(ClientRequest),
}

/// Error response returned for every request received before the server is initialized.
pub fn not_initialized_error() -> (r: Error)
    ensures
        r.code == ErrorCode::ServerError(-32002i64),
        r.message@ == "Server not initialized"@,
        r.data is None,
{
    Error {
        code: ErrorCode::ServerError(-32002),
        message: String::from_str("Server not initialized"),
        data: None,
    }
}

} // verus!
