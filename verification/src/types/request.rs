//! The request envelope and its JSON form.

use vstd::prelude::*;
use vstd::utf8::{encode_utf8, encode_utf8_decode_utf8, encode_utf8_valid_utf8};
use crate::json::{
    close_node, is_line, is_object_of, json_parse, json_print, line_of, lines_are_lines, lookup,
    map_entries, map_insert, map_new, map_remove, open_value, parse, to_line, value_node, Node,
    NodeView,
};
use crate::text::{as_utf8, utf8_text};
use crate::types::error::{plain_error, Error, ErrorKind};
use crate::types::params::{Params, ParamsView};

verus! {

/// One call: the method's name and, where given, its parameters.
///
/// On the wire a request without parameters leaves the member `params` out,
/// and one with [`Params::Absent`] sends it as null; a handler is given
/// [`Params::Absent`] in both cases.
#[derive(Debug, PartialEq)]
pub struct Request {
    pub method: String,
    pub params: Option<Params>,
}

/// The mathematical counterpart of [`Request`].
pub struct RequestView {
    pub method: Seq<char>,
    pub params: Option<ParamsView>,
}

impl View for Request {
    type V = RequestView;

    open spec fn view(&self) -> RequestView {
        RequestView {
            method: self.method@,
            params: match self.params {
                Some(p) => Some(p@),
                None => None,
            },
        }
    }
}

/// The member that holds the method's name.
pub open spec fn method_key() -> Seq<char> {
    "method"@
}

/// The member that holds the parameters.
pub open spec fn params_key() -> Seq<char> {
    "params"@
}

/// A request is valid when its method has a name.
pub open spec fn valid_request(req: RequestView) -> bool {
    req.method.len() > 0
}

/// Whether the JSON value `v` stands for the parameters `p`: null for none,
/// an array for values by position, an object for values by name.
pub open spec fn encodes_params(v: serde_json::Value, p: ParamsView) -> bool {
    match p {
        ParamsView::Absent => value_node(v) == NodeView::Null,
        ParamsView::Positional(items) => value_node(v) == NodeView::List(items),
        ParamsView::Named(members) => is_object_of(v, members),
    }
}

/// Whether the JSON value `v` is the envelope of `req`: an object with the
/// method's name under `method` and, where the request has parameters, their
/// JSON form under `params`; it has no other member.
pub open spec fn encodes_request(v: serde_json::Value, req: RequestView) -> bool {
    &&& value_node(v) matches NodeView::Object(m)
    &&& map_entries(m).contains_key(method_key())
    &&& value_node(map_entries(m)[method_key()]) == NodeView::Text(req.method)
    &&& match req.params {
        Some(p) => {
            &&& map_entries(m).dom() =~= set![method_key(), params_key()]
            &&& encodes_params(map_entries(m)[params_key()], p)
        },
        None => map_entries(m).dom() =~= set![method_key()],
    }
}

/// The parameters that a JSON value stands for, if it stands for any.
pub open spec fn decoded_params(v: serde_json::Value) -> Option<ParamsView> {
    match value_node(v) {
        NodeView::Null => Some(ParamsView::Absent),
        NodeView::List(items) => Some(ParamsView::Positional(items)),
        NodeView::Object(m) => Some(ParamsView::Named(map_entries(m))),
        _ => None,
    }
}

/// What the members of an envelope decode to. A missing or empty method, or
/// one that is no string, makes an invalid request; a `params` member that is
/// neither null nor an array nor an object makes invalid parameters. Members
/// under other names are ignored.
pub open spec fn decoded_members(entries: Map<Seq<char>, serde_json::Value>) -> Result<
    RequestView,
    ErrorKind,
> {
    match lookup(entries, method_key()) {
        Some(name) => match value_node(name) {
            NodeView::Text(method) => if method.len() == 0 {
                Err(ErrorKind::InvalidRequest)
            } else {
                match lookup(entries, params_key()) {
                    None => Ok(RequestView { method, params: None }),
                    Some(pv) => match decoded_params(pv) {
                        Some(p) => Ok(RequestView { method, params: Some(p) }),
                        None => Err(ErrorKind::InvalidParams),
                    },
                }
            },
            _ => Err(ErrorKind::InvalidRequest),
        },
        None => Err(ErrorKind::InvalidRequest),
    }
}

/// What a JSON value decodes to: the request it is the envelope of, or the
/// kind of error that says why it is none.
pub open spec fn decoded_request(v: serde_json::Value) -> Result<RequestView, ErrorKind> {
    match value_node(v) {
        NodeView::Object(m) => decoded_members(map_entries(m)),
        _ => Err(ErrorKind::InvalidRequest),
    }
}

/// What the outcome of parsing a frame's text decodes to: a text that is no
/// JSON is a parse error.
pub open spec fn decoded_parsed(parsed: Option<serde_json::Value>) -> Result<
    RequestView,
    ErrorKind,
> {
    match parsed {
        Some(v) => decoded_request(v),
        None => Err(ErrorKind::ParseError),
    }
}

/// What a frame decodes to: bytes that are no UTF-8 are a parse error, and
/// so is a text that is no JSON.
pub open spec fn decoded_frame(frame: Seq<u8>) -> Result<RequestView, ErrorKind> {
    match utf8_text(frame) {
        Some(text) => decoded_parsed(json_parse(text)),
        None => Err(ErrorKind::ParseError),
    }
}

/// Whether `line` is a line that carries `req`: the JSON text of its
/// envelope, closed by a newline.
pub open spec fn request_line(req: RequestView, line: Seq<char>) -> bool {
    exists|v: serde_json::Value| encodes_request(v, req) && #[trigger] line_of(v) == Some(line)
}

/// Whether `result` is what decoding gives where it should give `expected`:
/// the request itself, or the plain error of the kind that says why not.
pub open spec fn decodes_as(result: Result<Request, Error>, expected: Result<RequestView, ErrorKind>) -> bool {
    match result {
        Ok(req) => expected == Ok::<RequestView, ErrorKind>(req@),
        Err(e) => expected == Err::<RequestView, ErrorKind>(e.kind) && e@ == plain_error(e.kind),
    }
}

impl Params {
    /// The JSON form of the parameters.
    pub fn to_value(self) -> (v: serde_json::Value)
        ensures
            encodes_params(v, self@),
    {
        match self {
            Params::Absent => close_node(Node::Null),
            Params::Positional(items) => close_node(Node::List(items)),
            Params::Named(members) => close_node(Node::Object(members)),
        }
    }

    /// The parameters that a JSON value stands for: none for null, values by
    /// position for an array, values by name for an object. Any other value
    /// is handed back.
    pub fn from_value(v: serde_json::Value) -> (r: Result<Params, Error>)
        ensures
            match r {
                Ok(p) => decoded_params(v) == Some(p@),
                Err(e) => decoded_params(v) is None && e@ == plain_error(ErrorKind::InvalidParams),
            },
    {
        match open_value(v) {
            Node::Null => Ok(Params::Absent),
            Node::List(items) => Ok(Params::Positional(items)),
            Node::Object(members) => Ok(Params::Named(members)),
            _ => Err(Error::invalid_params()),
        }
    }
}

impl Request {
    /// A request for `method` with the given parameters.
    pub fn new(method: String, params: Option<Params>) -> (req: Self)
        ensures
            req.method == method,
            req.params == params,
    {
        Self { method, params }
    }

    /// The envelope of the request as a JSON value.
    pub fn to_value(self) -> (v: serde_json::Value)
        ensures
            encodes_request(v, self@),
    {
        let Request { method, params } = self;
        let mut members = map_new();
        map_insert(&mut members, "method".to_owned(), close_node(Node::Text(method)));
        match params {
            Some(p) => {
                let pv = p.to_value();
                map_insert(&mut members, "params".to_owned(), pv);
                proof {
                    distinct_keys();
                }
            },
            None => {},
        }
        close_node(Node::Object(members))
    }

    /// The line that carries the request, if its envelope has a JSON text.
    pub fn to_line(self) -> (line: Option<String>)
        ensures
            line matches Some(l) ==> request_line(self@, l@) && is_line(l@),
            line is None ==> exists|v: serde_json::Value|
                encodes_request(v, self@) && #[trigger] line_of(v) is None,
    {
        let v = self.to_value();
        proof {
            lines_are_lines(v);
        }
        to_line(&v)
    }

    /// Reads a request out of a frame: the bytes of one line, without the
    /// newline that ends it.
    pub fn from_frame(frame: &[u8]) -> (r: Result<Request, Error>)
        ensures
            decodes_as(r, decoded_frame(frame@)),
    {
        match as_utf8(frame) {
            Some(text) => Self::from_parsed(parse(text)),
            None => Err(Error::parse_error()),
        }
    }

    /// Reads a request out of what parsing a frame's text gave.
    pub fn from_parsed(parsed: Option<serde_json::Value>) -> (r: Result<Request, Error>)
        ensures
            decodes_as(r, decoded_parsed(parsed)),
    {
        match parsed {
            Some(v) => Self::from_value(v),
            None => Err(Error::parse_error()),
        }
    }

    /// Reads a request out of its envelope.
    pub fn from_value(v: serde_json::Value) -> (r: Result<Request, Error>)
        ensures
            decodes_as(r, decoded_request(v)),
    {
        let mut members = match open_value(v) {
            Node::Object(members) => members,
            _ => {
                return Err(Error::invalid_request());
            },
        };
        let ghost entries = map_entries(members);
        let method = match map_remove(&mut members, "method") {
            Some(name) => match open_value(name) {
                Node::Text(method) => method,
                _ => {
                    return Err(Error::invalid_request());
                },
            },
            None => {
                return Err(Error::invalid_request());
            },
        };
        if method.as_str().is_empty() {
            return Err(Error::invalid_request());
        }
        proof {
            distinct_keys();
        }
        let params = match map_remove(&mut members, "params") {
            Some(pv) => match Params::from_value(pv) {
                Ok(p) => Some(p),
                Err(e) => {
                    return Err(e);
                },
            },
            None => None,
        };
        Ok(Request { method, params })
    }
}

/// The two member names of an envelope differ.
pub proof fn distinct_keys()
    ensures
        method_key() != params_key(),
{
    reveal_strlit("method");
    reveal_strlit("params");
    assert("method"@[0] == 'm');
    assert("params"@[0] == 'p');
}

/// Encoding a valid request and decoding the result gives the request back:
/// its method and its parameters, whichever of the three kinds they are.
pub proof fn round_trip(req: RequestView, v: serde_json::Value)
    requires
        valid_request(req),
        encodes_request(v, req),
    ensures
        decoded_request(v) == Ok::<RequestView, ErrorKind>(req),
{
    distinct_keys();
    let m = value_node(v)->Object_0;
    let entries = map_entries(m);
    match req.params {
        Some(p) => {
            assert(entries.dom().contains(params_key()));
            assert(decoded_params(entries[params_key()]) == Some(p));
        },
        None => {
            assert(!entries.dom().contains(params_key()));
        },
    }
}

/// The same over the wire, as far as it rests on this crate: where the JSON
/// parser reads back the value whose text the printer wrote, the frame of a
/// valid request's line decodes to the request.
pub proof fn line_round_trip(req: RequestView, v: serde_json::Value, text: Seq<char>)
    requires
        valid_request(req),
        encodes_request(v, req),
        json_print(v) == Some(text),
        json_parse(text) == Some(v),
    ensures
        decoded_frame(encode_utf8(text)) == Ok::<RequestView, ErrorKind>(req),
{
    round_trip(req, v);
    encode_utf8_valid_utf8(text);
    encode_utf8_decode_utf8(text);
}

/// Parameters keep their shape: an array decodes to values by position and
/// to nothing else, an object to values by name and to nothing else, and
/// the two results are never equal.
pub proof fn shapes_stay_apart(a: serde_json::Value, b: serde_json::Value)
    requires
        value_node(a) is List,
        value_node(b) is Object,
    ensures
        decoded_params(a) matches Some(ParamsView::Positional(items)) && value_node(a)
            == NodeView::List(items),
        decoded_params(b) matches Some(ParamsView::Named(members)) && is_object_of(b, members),
        decoded_params(a) != decoded_params(b),
{
}

} // verus!
