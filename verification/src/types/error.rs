//! The ways a request can fail.

use vstd::prelude::*;

verus! {

/// Why a request was not answered with a result.
#[derive(Debug, Clone, Copy, PartialEq, Eq, Structural)]
pub enum ErrorKind {
    /// No handler is registered under the request's method.
    MethodNotFound,
    /// The frame is JSON but not a request.
    InvalidRequest,
    /// The peer went away in the middle of a frame.
    RemoteDisconnect,
    /// The parameters have a shape that cannot be used.
    InvalidParams,
    /// The frame is not UTF-8 or not JSON.
    ParseError,
    /// The server was told to shut down.
    ServerShutDown,
}

/// A failed request: its kind, a message for people, and optional details.
#[derive(Debug, PartialEq)]
pub struct Error {
    pub kind: ErrorKind,
    pub message: String,
    pub data: Option<serde_json::Value>,
}

/// The mathematical counterpart of [`Error`].
pub struct ErrorView {
    pub kind: ErrorKind,
    pub message: Seq<char>,
    pub data: Option<serde_json::Value>,
}

impl View for Error {
    type V = ErrorView;

    open spec fn view(&self) -> ErrorView {
        ErrorView { kind: self.kind, message: self.message@, data: self.data }
    }
}

/// The name under which a kind travels.
pub open spec fn kind_name(kind: ErrorKind) -> Seq<char> {
    match kind {
        ErrorKind::MethodNotFound => "MethodNotFound"@,
        ErrorKind::InvalidRequest => "InvalidRequest"@,
        ErrorKind::RemoteDisconnect => "RemoteDisconnect"@,
        ErrorKind::InvalidParams => "InvalidParams"@,
        ErrorKind::ParseError => "ParseError"@,
        ErrorKind::ServerShutDown => "ServerShutDown"@,
    }
}

/// The kind that travels under a name, if the name is that of a kind.
pub open spec fn named_kind(name: Seq<char>) -> Option<ErrorKind> {
    if name == kind_name(ErrorKind::MethodNotFound) {
        Some(ErrorKind::MethodNotFound)
    } else if name == kind_name(ErrorKind::InvalidRequest) {
        Some(ErrorKind::InvalidRequest)
    } else if name == kind_name(ErrorKind::RemoteDisconnect) {
        Some(ErrorKind::RemoteDisconnect)
    } else if name == kind_name(ErrorKind::InvalidParams) {
        Some(ErrorKind::InvalidParams)
    } else if name == kind_name(ErrorKind::ParseError) {
        Some(ErrorKind::ParseError)
    } else if name == kind_name(ErrorKind::ServerShutDown) {
        Some(ErrorKind::ServerShutDown)
    } else {
        None
    }
}

/// No two kinds share a name: the name of a kind leads back to the kind.
pub proof fn names_tell_kinds_apart(kind: ErrorKind)
    ensures
        named_kind(kind_name(kind)) == Some(kind),
{
    reveal_strlit("MethodNotFound");
    reveal_strlit("InvalidRequest");
    reveal_strlit("RemoteDisconnect");
    reveal_strlit("InvalidParams");
    reveal_strlit("ParseError");
    reveal_strlit("ServerShutDown");
    assert("MethodNotFound"@[0] == 'M');
    assert("InvalidRequest"@[0] == 'I');
    assert("RemoteDisconnect"@[0] == 'R');
    assert("InvalidParams"@[0] == 'I');
    assert("ParseError"@[0] == 'P');
    assert("ServerShutDown"@[0] == 'S');
    assert("InvalidRequest"@.len() == 14);
    assert("InvalidParams"@.len() == 13);
}

/// The message that goes with a kind when nothing more specific is known.
pub open spec fn default_message(kind: ErrorKind) -> Seq<char> {
    match kind {
        ErrorKind::MethodNotFound => "Method not found!"@,
        ErrorKind::InvalidRequest => "Invalid Request!"@,
        ErrorKind::RemoteDisconnect => "Remote disconnected!"@,
        ErrorKind::InvalidParams => "Invalid params!"@,
        ErrorKind::ParseError => "Parse error!"@,
        ErrorKind::ServerShutDown => "Server shut down!"@,
    }
}

/// The error of a kind with its default message and no details.
pub open spec fn plain_error(kind: ErrorKind) -> ErrorView {
    ErrorView { kind, message: default_message(kind), data: None }
}

impl ErrorKind {
    /// The name under which the kind travels.
    pub fn name(self) -> (s: String)
        ensures
            s@ == kind_name(self),
    {
        match self {
            ErrorKind::MethodNotFound => "MethodNotFound".to_owned(),
            ErrorKind::InvalidRequest => "InvalidRequest".to_owned(),
            ErrorKind::RemoteDisconnect => "RemoteDisconnect".to_owned(),
            ErrorKind::InvalidParams => "InvalidParams".to_owned(),
            ErrorKind::ParseError => "ParseError".to_owned(),
            ErrorKind::ServerShutDown => "ServerShutDown".to_owned(),
        }
    }
}

impl ErrorKind {
    /// The kind that travels under `name`, if the name is that of a kind.
    pub fn from_name(name: &String) -> (r: Option<ErrorKind>)
        ensures
            r == named_kind(name@),
    {
        if *name == ErrorKind::MethodNotFound.name() {
            Some(ErrorKind::MethodNotFound)
        } else if *name == ErrorKind::InvalidRequest.name() {
            Some(ErrorKind::InvalidRequest)
        } else if *name == ErrorKind::RemoteDisconnect.name() {
            Some(ErrorKind::RemoteDisconnect)
        } else if *name == ErrorKind::InvalidParams.name() {
            Some(ErrorKind::InvalidParams)
        } else if *name == ErrorKind::ParseError.name() {
            Some(ErrorKind::ParseError)
        } else if *name == ErrorKind::ServerShutDown.name() {
            Some(ErrorKind::ServerShutDown)
        } else {
            None
        }
    }
}

impl Error {
    /// An error without details.
    pub fn new(kind: ErrorKind, message: String) -> (e: Self)
        ensures
            e@ == (ErrorView { kind, message: message@, data: None }),
    {
        Self { kind, message, data: None }
    }

    /// An error with whatever details the caller has.
    pub fn with_data(kind: ErrorKind, message: String, data: Option<serde_json::Value>) -> (e: Self)
        ensures
            e@ == (ErrorView { kind, message: message@, data }),
    {
        Self { kind, message, data }
    }

    /// The error of a kind with its default message.
    pub fn of_kind(kind: ErrorKind) -> (e: Self)
        ensures
            e@ == plain_error(kind),
    {
        let message = match kind {
            ErrorKind::MethodNotFound => "Method not found!".to_owned(),
            ErrorKind::InvalidRequest => "Invalid Request!".to_owned(),
            ErrorKind::RemoteDisconnect => "Remote disconnected!".to_owned(),
            ErrorKind::InvalidParams => "Invalid params!".to_owned(),
            ErrorKind::ParseError => "Parse error!".to_owned(),
            ErrorKind::ServerShutDown => "Server shut down!".to_owned(),
        };
        Self::new(kind, message)
    }

    /// No handler is registered under the method.
    pub fn method_not_found() -> (e: Self)
        ensures
            e@ == plain_error(ErrorKind::MethodNotFound),
    {
        Self::of_kind(ErrorKind::MethodNotFound)
    }

    /// The frame is JSON but not a request.
    pub fn invalid_request() -> (e: Self)
        ensures
            e@ == plain_error(ErrorKind::InvalidRequest),
    {
        Self::of_kind(ErrorKind::InvalidRequest)
    }

    /// The parameters have a shape that cannot be used.
    pub fn invalid_params() -> (e: Self)
        ensures
            e@ == plain_error(ErrorKind::InvalidParams),
    {
        Self::of_kind(ErrorKind::InvalidParams)
    }

    /// The frame is not UTF-8 or not JSON.
    pub fn parse_error() -> (e: Self)
        ensures
            e@ == plain_error(ErrorKind::ParseError),
    {
        Self::of_kind(ErrorKind::ParseError)
    }
}

} // verus!
