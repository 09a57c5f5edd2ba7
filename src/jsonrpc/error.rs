//! Error types defined by the JSON-RPC specification.
use vstd::prelude::*;

verus! {

/// A list of numeric error codes used in JSON-RPC responses.
#[derive(Clone, Copy, Debug, PartialEq, Eq, Structural)]
pub enum ErrorCode {
    /// Invalid JSON was received by the server.
    ParseError,
    /// The JSON sent is not a valid Request object.
    InvalidRequest,
    /// The method does not exist / is not available.
    MethodNotFound,
    /// Invalid method parameter(s).
    InvalidParams,
    /// Internal JSON-RPC error.
    InternalError,
    /// Reserved for implementation-defined server errors.
    ServerError(i64),
    /// The request was cancelled by the client (defined by the Language Server Protocol).
    RequestCancelled,
    /// The request was invalidated by another incoming request (Language Server Protocol).
    ContentModified,
}

/// The integer value of a code.
pub open spec fn code_value(c: ErrorCode) -> i64 {
    match c {
        ErrorCode::ParseError => -32700i64,
        ErrorCode::InvalidRequest => -32600i64,
        ErrorCode::MethodNotFound => -32601i64,
        ErrorCode::InvalidParams => -32602i64,
        ErrorCode::InternalError => -32603i64,
        ErrorCode::RequestCancelled => -32800i64,
        ErrorCode::ContentModified => -32801i64,
        ErrorCode::ServerError(code) => code,
    }
}

/// The code that an integer stands for: a standard code where one has that value,
/// else a server error carrying the integer.
pub open spec fn code_of_value(v: i64) -> ErrorCode {
    if v == -32700 {
        ErrorCode::ParseError
    } else if v == -32600 {
        ErrorCode::InvalidRequest
    } else if v == -32601 {
        ErrorCode::MethodNotFound
    } else if v == -32602 {
        ErrorCode::InvalidParams
    } else if v == -32603 {
        ErrorCode::InternalError
    } else if v == -32800 {
        ErrorCode::RequestCancelled
    } else if v == -32801 {
        ErrorCode::ContentModified
    } else {
        ErrorCode::ServerError(v)
    }
}

/// The human-readable description of a code.
pub open spec fn description_of(c: ErrorCode) -> Seq<char> {
    match c {
        ErrorCode::ParseError => "Parse error"@,
        ErrorCode::InvalidRequest => "Invalid request"@,
        ErrorCode::MethodNotFound => "Method not found"@,
        ErrorCode::InvalidParams => "Invalid params"@,
        ErrorCode::InternalError => "Internal error"@,
        ErrorCode::RequestCancelled => "Canceled"@,
        ErrorCode::ContentModified => "Content modified"@,
        ErrorCode::ServerError(_) => "Server error"@,
    }
}

/// The values that the standard codes stand for.
pub open spec fn is_standard_value(v: i64) -> bool {
    v == -32700 || v == -32600 || v == -32601 || v == -32602 || v == -32603 || v == -32800
        || v == -32801
}

/// Reading back the integer value of a code gives the code itself, unless it is a
/// server error that carries one of the standard values.
pub proof fn lemma_code_round_trip(c: ErrorCode)
    requires
        c is ServerError ==> !is_standard_value(c->ServerError_0),
    ensures
        code_of_value(code_value(c)) == c,
{
}

/// Every integer comes back unchanged through its code.
pub proof fn lemma_value_round_trip(v: i64)
    ensures
        code_value(code_of_value(v)) == v,
{
}

impl ErrorCode {
    /// Returns the integer error code value.
    pub fn code(&self) -> (r: i64)
        ensures
            r == code_value(*self),
    {
        match *self {
            ErrorCode::ParseError => -32700,
            ErrorCode::InvalidRequest => -32600,
            ErrorCode::MethodNotFound => -32601,
            ErrorCode::InvalidParams => -32602,
            ErrorCode::InternalError => -32603,
            ErrorCode::RequestCancelled => -32800,
            ErrorCode::ContentModified => -32801,
            ErrorCode::ServerError(code) => code,
        }
    }

    /// Returns a human-readable description of the error.
    pub fn description(&self) -> (r: &'static str)
        ensures
            r@ == description_of(*self),
    {
        match *self {
            ErrorCode::ParseError => "Parse error",
            ErrorCode::InvalidRequest => "Invalid request",
            ErrorCode::MethodNotFound => "Method not found",
            ErrorCode::InvalidParams => "Invalid params",
            ErrorCode::InternalError => "Internal error",
            ErrorCode::RequestCancelled => "Canceled",
            ErrorCode::ContentModified => "Content modified",
            ErrorCode::ServerError(_) => "Server error",
        }
    }

    /// Returns the code that the given integer stands for.
    pub fn from_code(code: i64) -> (r: ErrorCode)
        ensures
            r == code_of_value(code),
    {
        if code == -32700 {
            ErrorCode::ParseError
        } else if code == -32600 {
            ErrorCode::InvalidRequest
        } else if code == -32601 {
            ErrorCode::MethodNotFound
        } else if code == -32602 {
            ErrorCode::InvalidParams
        } else if code == -32603 {
            ErrorCode::InternalError
        } else if code == -32800 {
            ErrorCode::RequestCancelled
        } else if code == -32801 {
            ErrorCode::ContentModified
        } else {
            ErrorCode::ServerError(code)
        }
    }

    /// Returns the decimal text of the integer code, as it is displayed.
    pub fn to_text(&self) -> (r: String)
        ensures
            r@ == crate::codec::signed_decimal(code_value(*self) as int),
    {
        crate::codec::format_signed(self.code())
    }
}

impl From<i64> for ErrorCode {
    fn from(code: i64) -> (r: ErrorCode) {
        ErrorCode::from_code(code)
    }
}

impl vstd::std_specs::convert::FromSpecImpl<i64> for ErrorCode {
    open spec fn obeys_from_spec() -> bool {
        true
    }

    open spec fn from_spec(code: i64) -> ErrorCode {
        code_of_value(code)
    }
}

/// A JSON-RPC error object.
#[derive(Clone, Debug, PartialEq)]
pub struct Error {
    /// A number indicating the error type that occurred.
    pub code: ErrorCode,
    /// A short description of the error.
    pub message: String,
    /// Additional information about the error, if any.
    pub data: Option<serde_json::Value>,
}

impl Error {
    /// Creates a new error from the given `ErrorCode`, described by the code's description.
    pub fn new(code: ErrorCode) -> (r: Error)
        ensures
            r.code == code,
            r.message@ == description_of(code),
            r.data is None,
    {
        Error { code, message: String::from_str(code.description()), data: None }
    }

    /// Creates a new parse error (`-32700`).
    pub fn parse_error() -> (r: Error)
        ensures
            r.code == ErrorCode::ParseError,
            r.message@ == "Parse error"@,
            r.data is None,
    {
        Error::new(ErrorCode::ParseError)
    }

    /// Creates a new "invalid request" error (`-32600`).
    pub fn invalid_request() -> (r: Error)
        ensures
            r.code == ErrorCode::InvalidRequest,
            r.message@ == "Invalid request"@,
            r.data is None,
    {
        Error::new(ErrorCode::InvalidRequest)
    }

    /// Creates a new "method not found" error (`-32601`).
    pub fn method_not_found() -> (r: Error)
        ensures
            r.code == ErrorCode::MethodNotFound,
            r.message@ == "Method not found"@,
            r.data is None,
    {
        Error::new(ErrorCode::MethodNotFound)
    }

    /// Creates a new "invalid params" error (`-32602`) with the given message.
    pub fn invalid_params(message: String) -> (r: Error)
        ensures
            r.code == ErrorCode::InvalidParams,
            r.message@ == message@,
            r.data is None,
    {
        Error { code: ErrorCode::InvalidParams, message, data: None }
    }

    /// Creates a new internal error (`-32603`).
    pub fn internal_error() -> (r: Error)
        ensures
            r.code == ErrorCode::InternalError,
            r.message@ == "Internal error"@,
            r.data is None,
    {
        Error::new(ErrorCode::InternalError)
    }

    /// Creates a new "request cancelled" error (`-32800`).
    pub fn request_cancelled() -> (r: Error)
        ensures
            r.code == ErrorCode::RequestCancelled,
            r.message@ == "Canceled"@,
            r.data is None,
    {
        Error::new(ErrorCode::RequestCancelled)
    }

    /// Creates a new "content modified" error (`-32801`).
    pub fn content_modified() -> (r: Error)
        ensures
            r.code == ErrorCode::ContentModified,
            r.message@ == "Content modified"@,
            r.data is None,
    {
        Error::new(ErrorCode::ContentModified)
    }

    /// Returns the text shown for this error: the code's description, a colon and the message.
    pub fn to_text(&self) -> (r: String)
        ensures
            r@ == description_of(self.code) + ": "@ + self.message@,
    {
        let s = String::from_str(self.code.description());
        let s = s.concat(": ");
        s.concat(self.message.as_str())
    }
}

} // verus!
