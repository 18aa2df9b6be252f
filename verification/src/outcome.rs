//! What a plugin hands back, and how outcomes are chained.
use vstd::prelude::*;
use crate::request::{Request, RequestView};

verus! {

/// The result of running a plugin, or a chain of plugins, on a request.
///
/// Only `Continue` lets the chain go on. The other three are terminal: once a
/// plugin has produced one of them, no later plugin of the chain runs.
#[derive(Debug, PartialEq, Eq)]
pub enum Outcome {
    /// Resolution goes on with this request.
    Continue(Request),
    /// Resolution ended at this path.
    Resolved(String),
    /// Resolution ended, and the import stands for an empty module.
    ResolvedIgnored,
    /// Resolution failed with this message, on this request.
    Failed(String, Request),
}

/// The mathematical value of an [`Outcome`].
pub enum OutcomeView {
    Continue(RequestView),
    Resolved(Seq<char>),
    ResolvedIgnored,
    Failed(Seq<char>, RequestView),
}

impl View for Outcome {
    type V = OutcomeView;

    open spec fn view(&self) -> OutcomeView {
        match self {
            Outcome::Continue(request) => OutcomeView::Continue(request@),
            Outcome::Resolved(path) => OutcomeView::Resolved(path@),
            Outcome::ResolvedIgnored => OutcomeView::ResolvedIgnored,
            Outcome::Failed(message, request) => OutcomeView::Failed(message@, request@),
        }
    }
}

impl Clone for Outcome {
    fn clone(&self) -> (copy: Self)
        ensures
            copy == *self,
    {
        match self {
            Outcome::Continue(request) => Outcome::Continue(request.clone()),
            Outcome::Resolved(path) => Outcome::Resolved(path.clone()),
            Outcome::ResolvedIgnored => Outcome::ResolvedIgnored,
            Outcome::Failed(message, request) => Outcome::Failed(message.clone(), request.clone()),
        }
    }
}

impl OutcomeView {
    /// The outcome ends the chain.
    pub open spec fn is_terminal(self) -> bool {
        !(self is Continue)
    }
}

impl Outcome {
    /// Whether the outcome ends the chain.
    pub fn is_terminal(&self) -> (yes: bool)
        ensures
            yes == self@.is_terminal(),
    {
        match self {
            Outcome::Continue(_) => false,
            _ => true,
        }
    }

    /// Runs `next` on the request of a `Continue`; hands a terminal outcome
    /// back as it is, without running `next`.
    pub fn and_then<F: FnOnce(Request) -> Outcome>(self, next: F) -> (out: Outcome)
        requires
            self matches Outcome::Continue(request) ==> next.requires((request,)),
        ensures
            self matches Outcome::Continue(request) ==> next.ensures((request,), out),
            self@.is_terminal() ==> out == self,
    {
        match self {
            Outcome::Continue(request) => next(request),
            terminal => terminal,
        }
    }
}

} // verus!
