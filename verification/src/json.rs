//! JSON values, as far as the engine looks into them.
//!
//! Payloads are `serde_json` values. The engine never looks deeper than one
//! level: it opens a value into a [`Node`], reads or fills the members of an
//! object, and closes a node into a value again. Everything in this file that
//! touches `serde_json` is taken on trust; each such item says so.

use vstd::prelude::*;
use vstd::string::StringExecFns;

verus! {

/// `serde_json::Value`. Nothing of its inside is visible here; what is known
/// of a value is what the functions below say of it.
#[verifier::external_type_specification]
#[verifier::external_body]
pub struct ExValue(serde_json::Value);

/// `serde_json::Number`. A number is carried through and never looked into.
#[verifier::external_type_specification]
#[verifier::external_body]
pub struct ExNumber(serde_json::Number);

/// `serde_json::Map`, the members of a JSON object. It is known by its
/// entries alone, see [`map_entries`].
#[verifier::external_type_specification]
#[verifier::external_body]
#[verifier::reject_recursive_types(K)]
#[verifier::reject_recursive_types(V)]
pub struct ExMap<K, V>(serde_json::Map<K, V>);

/// One level of a JSON value: its kind and what it directly holds.
pub enum Node {
    Null,
    Bool(bool),
    Number(serde_json::Number),
    Text(String),
    List(Vec<serde_json::Value>),
    Object(serde_json::Map<String, serde_json::Value>),
}

/// The mathematical counterpart of [`Node`].
pub enum NodeView {
    Null,
    Bool(bool),
    Number(serde_json::Number),
    Text(Seq<char>),
    List(Seq<serde_json::Value>),
    Object(serde_json::Map<String, serde_json::Value>),
}

impl View for Node {
    type V = NodeView;

    open spec fn view(&self) -> NodeView {
        match *self {
            Node::Null => NodeView::Null,
            Node::Bool(b) => NodeView::Bool(b),
            Node::Number(n) => NodeView::Number(n),
            Node::Text(s) => NodeView::Text(s@),
            Node::List(items) => NodeView::List(items@),
            Node::Object(members) => NodeView::Object(members),
        }
    }
}

/// The variant of a `serde_json::Value` and the fields of that variant.
pub uninterp spec fn value_node(v: serde_json::Value) -> NodeView;

/// The members of a JSON object: which keys it holds, and the value under each.
pub uninterp spec fn map_entries(m: serde_json::Map<String, serde_json::Value>) -> Map<
    Seq<char>,
    serde_json::Value,
>;

/// The value that `serde_json::from_str` reads from a text, where it reads one.
pub uninterp spec fn json_parse(text: Seq<char>) -> Option<serde_json::Value>;

/// The text that `serde_json::to_string` writes for a value, where it writes one.
pub uninterp spec fn json_print(v: serde_json::Value) -> Option<Seq<char>>;

/// A text closed by the newline that ends a frame.
pub open spec fn framed(text: Seq<char>) -> Seq<char> {
    text + "\n"@
}

/// Whether a text holds no newline, so that it fits on one line.
pub open spec fn fits_a_line(text: Seq<char>) -> bool {
    forall|i: int| 0 <= i < text.len() ==> text[i] != '\n'
}

/// Whether a text is one line: it ends with a newline and holds no other.
pub open spec fn is_line(line: Seq<char>) -> bool {
    line.len() > 0 && line.last() == '\n' && fits_a_line(line.drop_last())
}

/// The line that carries a value: its JSON text and a newline. A value
/// without a JSON text has no line, and neither has one whose text would
/// not fit on one line.
pub open spec fn line_of(v: serde_json::Value) -> Option<Seq<char>> {
    match json_print(v) {
        Some(text) => if fits_a_line(text) {
            Some(framed(text))
        } else {
            None
        },
        None => None,
    }
}

/// The line that carries a value is one line.
pub proof fn lines_are_lines(v: serde_json::Value)
    ensures
        line_of(v) matches Some(line) ==> is_line(line),
{
    reveal_strlit("\n");
    match json_print(v) {
        Some(text) => {
            assert(framed(text).drop_last() =~= text);
        },
        None => {},
    }
}

/// The members of an object that has none.
pub open spec fn no_entries() -> Map<Seq<char>, serde_json::Value> {
    Map::empty()
}

/// Whether `v` is a JSON object whose members are exactly `entries`.
pub open spec fn is_object_of(v: serde_json::Value, entries: Map<Seq<char>, serde_json::Value>) -> bool {
    value_node(v) matches NodeView::Object(m) && map_entries(m) == entries
}

/// What is stored under `key`, if anything is.
pub open spec fn lookup(entries: Map<Seq<char>, serde_json::Value>, key: Seq<char>) -> Option<
    serde_json::Value,
> {
    if entries.contains_key(key) {
        Some(entries[key])
    } else {
        None
    }
}

/// The text stored under `key`, where the member is there and is a string.
pub open spec fn text_member(entries: Map<Seq<char>, serde_json::Value>, key: Seq<char>) -> Option<
    Seq<char>,
> {
    match lookup(entries, key) {
        Some(v) => match value_node(v) {
            NodeView::Text(t) => Some(t),
            _ => None,
        },
        None => None,
    }
}

/// Trusted: takes a `serde_json::Value` apart by matching on its six variants
/// and moving the field of the variant into the node of the same kind.
/// Nothing is computed; [`value_node`] is the name of this unfolding.
#[verifier::external_body]
pub(crate) fn open_value(v: serde_json::Value) -> (n: Node)
    ensures
        n@ == value_node(v),
{
    match v {
        serde_json::Value::Null => Node::Null,
        serde_json::Value::Bool(b) => Node::Bool(b),
        serde_json::Value::Number(x) => Node::Number(x),
        serde_json::Value::String(s) => Node::Text(s),
        serde_json::Value::Array(items) => Node::List(items),
        serde_json::Value::Object(members) => Node::Object(members),
    }
}

/// Trusted: builds the `serde_json::Value` of the variant that matches the
/// node, moving the node's field into it. It is the inverse of
/// [`open_value`]: opening the result gives the node back.
#[verifier::external_body]
pub(crate) fn close_node(n: Node) -> (v: serde_json::Value)
    ensures
        value_node(v) == n@,
{
    match n {
        Node::Null => serde_json::Value::Null,
        Node::Bool(b) => serde_json::Value::Bool(b),
        Node::Number(x) => serde_json::Value::Number(x),
        Node::Text(s) => serde_json::Value::String(s),
        Node::List(items) => serde_json::Value::Array(items),
        Node::Object(members) => serde_json::Value::Object(members),
    }
}

/// Trusted: `serde_json::Value::is_null` says whether the value is the null
/// variant.
#[verifier::external_body]
pub(crate) fn is_null(v: &serde_json::Value) -> (b: bool)
    ensures
        b == (value_node(*v) == NodeView::Null),
{
    v.is_null()
}

/// Trusted: `serde_json::Map::new` makes a map without members.
#[verifier::external_body]
pub(crate) fn map_new() -> (members: serde_json::Map<String, serde_json::Value>)
    ensures
        map_entries(members) == no_entries(),
{
    serde_json::Map::new()
}

/// Trusted: `serde_json::Map::insert` stores `value` under `key`, replacing
/// what was stored there, and returns what it replaced.
#[verifier::external_body]
pub(crate) fn map_insert(
    m: &mut serde_json::Map<String, serde_json::Value>,
    key: String,
    value: serde_json::Value,
) -> (previous: Option<serde_json::Value>)
    ensures
        map_entries(*final(m)) == map_entries(*old(m)).insert(key@, value),
        previous == lookup(map_entries(*old(m)), key@),
{
    m.insert(key, value)
}

/// Trusted: `serde_json::Map::remove` takes the member under `key` out of the
/// map and returns its value; a map without that key is left as it is.
#[verifier::external_body]
pub(crate) fn map_remove(m: &mut serde_json::Map<String, serde_json::Value>, key: &str) -> (taken:
    Option<serde_json::Value>)
    ensures
        map_entries(*final(m)) == map_entries(*old(m)).remove(key@),
        taken == lookup(map_entries(*old(m)), key@),
{
    m.remove(key)
}

/// Trusted: `serde_json::from_str` at type `serde_json::Value`, with its
/// error dropped. Whether a text is JSON, and which value it denotes, depends
/// on the text alone; [`json_parse`] is the name of that result.
#[verifier::external_body]
pub(crate) fn parse(text: &str) -> (r: Option<serde_json::Value>)
    ensures
        r == json_parse(text@),
{
    serde_json::from_str::<serde_json::Value>(text).ok()
}

/// Trusted: `serde_json::to_string` at type `serde_json::Value`, with its
/// error dropped. The text depends on the value alone; [`json_print`] is the
/// name of that result.
#[verifier::external_body]
pub(crate) fn print(v: &serde_json::Value) -> (r: Option<String>)
    ensures
        r is Some <==> json_print(*v) is Some,
        r matches Some(text) ==> json_print(*v) == Some(text@),
{
    serde_json::to_string(v).ok()
}

/// Takes the string under `key` out of the members of an object.
pub fn take_text(members: &mut serde_json::Map<String, serde_json::Value>, key: &str) -> (r: Option<
    String,
>)
    ensures
        map_entries(*final(members)) == map_entries(*old(members)).remove(key@),
        match r {
            Some(s) => text_member(map_entries(*old(members)), key@) == Some(s@),
            None => text_member(map_entries(*old(members)), key@) is None,
        },
{
    match map_remove(members, key) {
        Some(v) => match open_value(v) {
            Node::Text(s) => Some(s),
            _ => None,
        },
        None => None,
    }
}

/// Whether a text holds no newline.
pub fn has_no_newline(text: &str) -> (b: bool)
    ensures
        b == fits_a_line(text@),
{
    for c in it: text.chars()
        invariant
            it.seq() == text@,
            fits_a_line(text@.subrange(0, it.index() as int)),
    {
        if c == '\n' {
            return false;
        }
        let ghost seen = text@.subrange(0, it.index() + 1);
        assert forall|i: int| 0 <= i < seen.len() implies seen[i] != '\n' by {
            if i < it.index() {
                assert(text@.subrange(0, it.index() as int)[i] != '\n');
            }
        }
    }
    assert(text@.subrange(0, text@.len() as int) =~= text@);
    true
}

/// The line that carries a value, if the value has one.
pub fn to_line(v: &serde_json::Value) -> (line: Option<String>)
    ensures
        match line {
            Some(l) => line_of(*v) == Some(l@),
            None => line_of(*v) is None,
        },
{
    match print(v) {
        Some(text) => {
            if has_no_newline(text.as_str()) {
                let mut line = text;
                line.append("\n");
                Some(line)
            } else {
                None
            }
        },
        None => None,
    }
}

} // verus!
