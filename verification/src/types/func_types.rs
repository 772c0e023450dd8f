//! Handlers: the functions that methods are bound to.

use vstd::prelude::*;
use crate::types::params::Params;
use crate::types::response::Response;

verus! {

/// A handler of one of two kinds. A mutating handler needs exclusive access
/// while it runs; a pure one can be called through a shared reference. Both
/// take the parameters of a request and return its response.
pub enum FuncTypes<M, P> {
    MutingFunction(M),
    ImmutingFunction(P),
}

impl<M: FnMut(Params) -> Response, P: Fn(Params) -> Response> FuncTypes<M, P> {
    /// Whether the handler is a mutating one.
    pub fn is_muting(&self) -> (b: bool)
        ensures
            b == (*self is MutingFunction),
    {
        match self {
            FuncTypes::MutingFunction(_) => true,
            FuncTypes::ImmutingFunction(_) => false,
        }
    }

    /// Whether the handler is a pure one.
    pub fn is_immuting(&self) -> (b: bool)
        ensures
            b == (*self is ImmutingFunction),
    {
        match self {
            FuncTypes::MutingFunction(_) => false,
            FuncTypes::ImmutingFunction(_) => true,
        }
    }

    /// Whether the handler can be called with every parameters.
    pub open spec fn total(self) -> bool {
        match self {
            FuncTypes::MutingFunction(m) => forall|p: Params| #[trigger] call_requires(m, (p,)),
            FuncTypes::ImmutingFunction(g) => forall|p: Params| #[trigger] call_requires(g, (p,)),
        }
    }

    /// Whether `r` is a response that the handler may give to `p`.
    pub open spec fn answers(self, p: Params, r: Response) -> bool {
        match self {
            FuncTypes::MutingFunction(m) => call_ensures(m, (p,), r),
            FuncTypes::ImmutingFunction(g) => call_ensures(g, (p,), r),
        }
    }

    /// Calls the handler and returns when it has returned. The handler stays
    /// bound as it is; what a mutating handler keeps from call to call is its
    /// own, and shows only in what it answers.
    pub fn call(&mut self, params: Params) -> (r: Response)
        requires
            old(self).total(),
        ensures
            old(self).answers(params, r),
            *final(self) == *old(self),
    {
        match self {
            FuncTypes::MutingFunction(m) => m(params),
            FuncTypes::ImmutingFunction(g) => g(params),
        }
    }
}

} // verus!
