//! The response envelope and its JSON form.

use vstd::prelude::*;
use crate::json::{
    close_node, is_line, is_null, json_parse, line_of, lines_are_lines, lookup, map_entries,
    map_insert, map_new, map_remove, open_value, parse, take_text, text_member, to_line,
    value_node, Node, NodeView,
};
use crate::text::{as_utf8, utf8_text};
use crate::types::error::{
    kind_name, named_kind, names_tell_kinds_apart, Error, ErrorKind, ErrorView,
};

verus! {

/// The answer to one request: a result or an error, never both and never
/// neither.
#[derive(Debug, PartialEq)]
pub struct Response {
    outcome: Result<serde_json::Value, Error>,
}

/// The mathematical counterpart of [`Response`].
pub enum ResponseView {
    /// The handler's result.
    Success(serde_json::Value),
    /// Why there is no result.
    Failure(ErrorView),
}

impl View for Response {
    type V = ResponseView;

    closed spec fn view(&self) -> ResponseView {
        match self.outcome {
            Ok(value) => ResponseView::Success(value),
            Err(error) => ResponseView::Failure(error@),
        }
    }
}

pub open spec fn result_key() -> Seq<char> {
    "result"@
}

pub open spec fn error_key() -> Seq<char> {
    "error"@
}

pub open spec fn kind_key() -> Seq<char> {
    "kind"@
}

pub open spec fn message_key() -> Seq<char> {
    "message"@
}

pub open spec fn data_key() -> Seq<char> {
    "data"@
}

/// Whether the JSON value `v` stands for the optional value `x`: the value
/// itself where there is one, null where there is none.
pub open spec fn encodes_optional(v: serde_json::Value, x: Option<serde_json::Value>) -> bool {
    match x {
        Some(d) => v == d,
        None => value_node(v) == NodeView::Null,
    }
}

/// Whether the JSON value `v` stands for the error `e`: an object with the
/// kind's name under `kind`, the message under `message` and the details, or
/// null, under `data`.
pub open spec fn encodes_error(v: serde_json::Value, e: ErrorView) -> bool {
    &&& value_node(v) matches NodeView::Object(m)
    &&& map_entries(m).dom() =~= set![kind_key(), message_key(), data_key()]
    &&& value_node(map_entries(m)[kind_key()]) == NodeView::Text(kind_name(e.kind))
    &&& value_node(map_entries(m)[message_key()]) == NodeView::Text(e.message)
    &&& encodes_optional(map_entries(m)[data_key()], e.data)
}

/// Whether the JSON value `v` is the envelope of `resp`: an object with the
/// members `result` and `error`, of which exactly the one that `resp` lacks
/// is null (a result may itself be null).
pub open spec fn encodes_response(v: serde_json::Value, resp: ResponseView) -> bool {
    &&& value_node(v) matches NodeView::Object(m)
    &&& map_entries(m).dom() =~= set![result_key(), error_key()]
    &&& match resp {
        ResponseView::Success(x) => {
            &&& map_entries(m)[result_key()] == x
            &&& value_node(map_entries(m)[error_key()]) == NodeView::Null
        },
        ResponseView::Failure(e) => {
            &&& value_node(map_entries(m)[result_key()]) == NodeView::Null
            &&& encodes_error(map_entries(m)[error_key()], e)
        },
    }
}

/// The optional value that a member stands for: none where the member is
/// missing or null, the member's value otherwise.
pub open spec fn decoded_optional(member: Option<serde_json::Value>) -> Option<serde_json::Value> {
    match member {
        Some(v) => if value_node(v) == NodeView::Null {
            None
        } else {
            Some(v)
        },
        None => None,
    }
}

/// The error that a JSON value stands for, if it stands for one: an object
/// with the name of a kind under `kind` and a string under `message`.
pub open spec fn decoded_error(v: serde_json::Value) -> Option<ErrorView> {
    match value_node(v) {
        NodeView::Object(m) => match text_member(map_entries(m), kind_key()) {
            Some(name) => match (named_kind(name), text_member(map_entries(m), message_key())) {
                (Some(kind), Some(message)) => Some(
                    ErrorView {
                        kind,
                        message,
                        data: decoded_optional(lookup(map_entries(m), data_key())),
                    },
                ),
                _ => None,
            },
            None => None,
        },
        _ => None,
    }
}

/// The response that the members of an envelope stand for, if they stand
/// for one. Where `error` is missing or null the response is the result, which
/// has to be there; otherwise it is the error, and the result has to be
/// missing or null.
pub open spec fn decoded_members(entries: Map<Seq<char>, serde_json::Value>) -> Option<
    ResponseView,
> {
    match decoded_optional(lookup(entries, error_key())) {
        None => match lookup(entries, result_key()) {
            Some(x) => Some(ResponseView::Success(x)),
            None => None,
        },
        Some(ev) => match (decoded_error(ev), decoded_optional(lookup(entries, result_key()))) {
            (Some(e), None) => Some(ResponseView::Failure(e)),
            _ => None,
        },
    }
}

/// The response that a JSON value is the envelope of, if it is one.
pub open spec fn decoded_response(v: serde_json::Value) -> Option<ResponseView> {
    match value_node(v) {
        NodeView::Object(m) => decoded_members(map_entries(m)),
        _ => None,
    }
}

/// The response that a frame carries, if it carries one.
pub open spec fn decoded_frame(frame: Seq<u8>) -> Option<ResponseView> {
    match utf8_text(frame) {
        Some(text) => match json_parse(text) {
            Some(v) => decoded_response(v),
            None => None,
        },
        None => None,
    }
}

/// Whether `line` is a line that carries `resp`: the JSON text of its
/// envelope, closed by a newline.
pub open spec fn response_line(resp: ResponseView, line: Seq<char>) -> bool {
    exists|v: serde_json::Value| encodes_response(v, resp) && #[trigger] line_of(v) == Some(line)
}

/// The member names of the two envelopes differ from one another.
pub proof fn distinct_keys()
    ensures
        result_key() != error_key(),
        kind_key() != message_key(),
        kind_key() != data_key(),
        message_key() != data_key(),
{
    reveal_strlit("result");
    reveal_strlit("error");
    reveal_strlit("kind");
    reveal_strlit("message");
    reveal_strlit("data");
    assert("result"@[0] == 'r');
    assert("error"@[0] == 'e');
    assert("kind"@[0] == 'k');
    assert("message"@[0] == 'm');
    assert("data"@[0] == 'd');
}

impl Error {
    /// The JSON form of the error.
    pub fn to_value(self) -> (v: serde_json::Value)
        ensures
            encodes_error(v, self@),
    {
        let Error { kind, message, data } = self;
        let mut members = map_new();
        map_insert(&mut members, "kind".to_owned(), close_node(Node::Text(kind.name())));
        map_insert(&mut members, "message".to_owned(), close_node(Node::Text(message)));
        let details = match data {
            Some(d) => d,
            None => close_node(Node::Null),
        };
        map_insert(&mut members, "data".to_owned(), details);
        proof {
            distinct_keys();
        }
        close_node(Node::Object(members))
    }
}

/// Takes the member under `key` out of an object, unless it is null.
fn take_optional(members: &mut serde_json::Map<String, serde_json::Value>, key: &str) -> (r: Option<
    serde_json::Value,
>)
    ensures
        map_entries(*final(members)) == map_entries(*old(members)).remove(key@),
        r == decoded_optional(lookup(map_entries(*old(members)), key@)),
{
    match map_remove(members, key) {
        Some(v) => if is_null(&v) {
            None
        } else {
            Some(v)
        },
        None => None,
    }
}

impl Error {
    /// Reads an error out of its JSON form.
    pub fn from_value(v: serde_json::Value) -> (r: Option<Error>)
        ensures
            match r {
                Some(e) => decoded_error(v) == Some(e@),
                None => decoded_error(v) is None,
            },
    {
        let mut members = match open_value(v) {
            Node::Object(members) => members,
            _ => {
                return None;
            },
        };
        proof {
            distinct_keys();
        }
        let name = take_text(&mut members, "kind");
        let message = take_text(&mut members, "message");
        let data = take_optional(&mut members, "data");
        match name {
            Some(name) => match (ErrorKind::from_name(&name), message) {
                (Some(kind), Some(message)) => Some(Error::with_data(kind, message, data)),
                _ => None,
            },
            None => None,
        }
    }
}

impl Response {
    /// The response that carries a handler's result.
    pub fn success(value: serde_json::Value) -> (resp: Self)
        ensures
            resp@ == ResponseView::Success(value),
    {
        Self { outcome: Ok(value) }
    }

    /// The response that reports an error.
    pub fn failure(error: Error) -> (resp: Self)
        ensures
            resp@ == ResponseView::Failure(error@),
    {
        Self { outcome: Err(error) }
    }

    /// Whether the response carries a result.
    pub fn is_success(&self) -> (b: bool)
        ensures
            b == (self@ is Success),
    {
        self.outcome.is_ok()
    }

    /// The result, where there is one.
    pub fn result(&self) -> (r: Option<&serde_json::Value>)
        ensures
            match self@ {
                ResponseView::Success(x) => r == Some(&x),
                ResponseView::Failure(_) => r is None,
            },
    {
        match &self.outcome {
            Ok(value) => Some(value),
            Err(_) => None,
        }
    }

    /// The error, where there is one.
    pub fn error(&self) -> (r: Option<&Error>)
        ensures
            match self@ {
                ResponseView::Success(_) => r is None,
                ResponseView::Failure(e) => r matches Some(error) && error@ == e,
            },
    {
        match &self.outcome {
            Ok(_) => None,
            Err(error) => Some(error),
        }
    }

    /// Takes the response apart.
    pub fn into_result(self) -> (r: Result<serde_json::Value, Error>)
        ensures
            match self@ {
                ResponseView::Success(x) => r == Ok::<serde_json::Value, Error>(x),
                ResponseView::Failure(e) => r matches Err(error) && error@ == e,
            },
    {
        self.outcome
    }

    /// The line that carries the response, if its envelope has a JSON text.
    pub fn to_line(self) -> (line: Option<String>)
        ensures
            line matches Some(l) ==> response_line(self@, l@) && is_line(l@),
            line is None ==> exists|v: serde_json::Value|
                encodes_response(v, self@) && #[trigger] line_of(v) is None,
    {
        let v = self.to_value();
        proof {
            lines_are_lines(v);
        }
        to_line(&v)
    }

    /// Reads a response out of its envelope. A value that is no envelope of
    /// a response gives none.
    pub fn from_value(v: serde_json::Value) -> (r: Option<Response>)
        ensures
            match r {
                Some(resp) => decoded_response(v) == Some(resp@),
                None => decoded_response(v) is None,
            },
    {
        let mut members = match open_value(v) {
            Node::Object(members) => members,
            _ => {
                return None;
            },
        };
        proof {
            distinct_keys();
        }
        let error = take_optional(&mut members, "error");
        match error {
            None => match map_remove(&mut members, "result") {
                Some(x) => Some(Response::success(x)),
                None => None,
            },
            Some(ev) => {
                let result = take_optional(&mut members, "result");
                match (Error::from_value(ev), result) {
                    (Some(e), None) => Some(Response::failure(e)),
                    _ => None,
                }
            },
        }
    }

    /// Reads a response out of what parsing a frame's text gave.
    pub fn from_parsed(parsed: Option<serde_json::Value>) -> (r: Option<Response>)
        ensures
            match r {
                Some(resp) => parsed matches Some(v) && decoded_response(v) == Some(resp@),
                None => parsed matches Some(v) ==> decoded_response(v) is None,
            },
    {
        match parsed {
            Some(v) => Self::from_value(v),
            None => None,
        }
    }

    /// Reads a response out of a frame: the bytes of one line, without the
    /// newline that ends it.
    pub fn from_frame(frame: &[u8]) -> (r: Option<Response>)
        ensures
            match r {
                Some(resp) => decoded_frame(frame@) == Some(resp@),
                None => decoded_frame(frame@) is None,
            },
    {
        match as_utf8(frame) {
            Some(text) => Self::from_parsed(parse(text)),
            None => None,
        }
    }

    /// The envelope of the response as a JSON value.
    pub fn to_value(self) -> (v: serde_json::Value)
        ensures
            encodes_response(v, self@),
    {
        let (result, error) = match self.outcome {
            Ok(value) => (value, close_node(Node::Null)),
            Err(error) => (close_node(Node::Null), error.to_value()),
        };
        let mut members = map_new();
        map_insert(&mut members, "result".to_owned(), result);
        map_insert(&mut members, "error".to_owned(), error);
        proof {
            distinct_keys();
        }
        close_node(Node::Object(members))
    }
}

/// Whether an error loses nothing on the way: its details, where it has
/// any, are not the null value, which stands for having none.
pub open spec fn travels_whole(resp: ResponseView) -> bool {
    resp matches ResponseView::Failure(e) ==> (e.data matches Some(d) ==> value_node(d)
        != NodeView::Null)
}

/// Encoding a response and decoding the result gives the response back.
pub proof fn round_trip(resp: ResponseView, v: serde_json::Value)
    requires
        travels_whole(resp),
        encodes_response(v, resp),
    ensures
        decoded_response(v) == Some(resp),
{
    distinct_keys();
    let entries = map_entries(value_node(v)->Object_0);
    assert(entries.dom().contains(result_key()));
    assert(entries.dom().contains(error_key()));
    match resp {
        ResponseView::Success(x) => {},
        ResponseView::Failure(e) => {
            let ev = entries[error_key()];
            let members = map_entries(value_node(ev)->Object_0);
            assert(members.dom().contains(kind_key()));
            assert(members.dom().contains(message_key()));
            assert(members.dom().contains(data_key()));
            names_tell_kinds_apart(e.kind);
            assert(decoded_error(ev) == Some(e));
        },
    }
}

} // verus!
