//! The collaborator interfaces the dispatch core invokes: a handler factory
//! and the handler it constructs, together with the outcomes an invocation
//! can end in.

use vstd::prelude::*;

use crate::context::Context;
use crate::wire::{Response, ResponseView};

verus! {

/// A handler factory failed to construct a handler.
#[derive(Clone, Copy, PartialEq, Eq, Structural, Debug)]
pub struct ConstructError;

/// A failure a handler declares by returning it, together with the
/// handler's own recovery: either a response its error converts to, or
/// nothing, when that conversion itself fails.
pub enum HandlerError {
    Recoverable(Response),
    Unrecoverable,
}

/// The mathematical value of a [`HandlerError`].
pub ghost enum HandlerErrorView {
    Recoverable(ResponseView),
    Unrecoverable,
}

impl View for HandlerError {
    type V = HandlerErrorView;

    open spec fn view(&self) -> HandlerErrorView {
        match self {
            HandlerError::Recoverable(r) => HandlerErrorView::Recoverable(r@),
            HandlerError::Unrecoverable => HandlerErrorView::Unrecoverable,
        }
    }
}

/// A handler: takes ownership of the request context and returns either a
/// context-independent response or a declared failure. Applications
/// implement this for their own handler types.
pub trait Handler: Sized {
    fn handle(self, ctx: Context) -> Result<Response, HandlerError>;
}

/// A handler factory: a nullary capability that yields a fresh handler
/// instance or fails with a construction error. It is shared, read-only,
/// across all requests.
pub trait NewHandler {
    type Instance: Handler;

    fn new_handler(&self) -> Result<Self::Instance, ConstructError>;
}

/// Every way one handler invocation can end, as seen by the isolation
/// boundary.
pub enum HandlerOutcome {
    /// The factory could not construct a handler; no handler ran.
    ConstructionFailed,
    /// The handler returned a response normally.
    Succeeded(Response),
    /// The handler returned a declared failure.
    Failed(HandlerError),
    /// The handler's execution terminated abruptly inside the containment
    /// scope.
    AbruptTermination,
}

/// The mathematical value of a [`HandlerOutcome`].
pub ghost enum HandlerOutcomeView {
    ConstructionFailed,
    Succeeded(ResponseView),
    Failed(HandlerErrorView),
    AbruptTermination,
}

impl View for HandlerOutcome {
    type V = HandlerOutcomeView;

    open spec fn view(&self) -> HandlerOutcomeView {
        match self {
            HandlerOutcome::ConstructionFailed => HandlerOutcomeView::ConstructionFailed,
            HandlerOutcome::Succeeded(r) => HandlerOutcomeView::Succeeded(r@),
            HandlerOutcome::Failed(e) => HandlerOutcomeView::Failed(e@),
            HandlerOutcome::AbruptTermination => HandlerOutcomeView::AbruptTermination,
        }
    }
}

} // verus!
