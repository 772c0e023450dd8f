//! The parameters of a request.

use vstd::prelude::*;
use crate::json::map_entries;

verus! {

/// What a request hands to its handler: nothing, values by position, or
/// values by name. The variant says which; no variant stands in for another.
#[derive(Debug, PartialEq)]
pub enum Params {
    /// No parameters.
    Absent,
    /// Values in the order in which they were given.
    Positional(Vec<serde_json::Value>),
    /// Values under their names; each name occurs once.
    Named(serde_json::Map<String, serde_json::Value>),
}

/// The mathematical counterpart of [`Params`].
pub enum ParamsView {
    Absent,
    Positional(Seq<serde_json::Value>),
    Named(Map<Seq<char>, serde_json::Value>),
}

impl View for Params {
    type V = ParamsView;

    open spec fn view(&self) -> ParamsView {
        match *self {
            Params::Absent => ParamsView::Absent,
            Params::Positional(items) => ParamsView::Positional(items@),
            Params::Named(members) => ParamsView::Named(map_entries(members)),
        }
    }
}

} // verus!
