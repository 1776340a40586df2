//! The isolation boundary: resolves every way a handler invocation can end
//! into a well-formed response, so that nothing originating inside handler
//! execution escapes as anything other than a response value.
//!
//! Interception of an abrupt termination itself is runtime work that must
//! happen where the handler actually runs; the boundary's decisions — which
//! outcome yields which response, and when a correlated log entry is owed —
//! are made here and proved.

use vstd::prelude::*;

use crate::context::Context;
use crate::handler::{
    Handler, HandlerErrorView, HandlerOutcome, HandlerOutcomeView, NewHandler,
};
use crate::wire::{empty_response_view, Response, ResponseView};
use crate::RequestId;

verus! {

/// A diagnostic line owed to the operator, correlated to one request.
#[derive(Clone, Copy, PartialEq, Eq, Structural, Debug)]
pub struct LogEntry {
    pub id: RequestId,
}

/// The phases of one trapped invocation. `Constructing` and `Invoking` are
/// transient; the three remaining phases are terminal and each yields a
/// response.
#[derive(Clone, Copy, PartialEq, Eq, Structural, Debug)]
pub enum TrapState {
    Constructing,
    Invoking,
    Completed,
    Recovered,
    ContainmentTriggered,
}

impl TrapState {
    /// Whether this phase ends the invocation.
    pub open spec fn is_terminal(self) -> bool {
        match self {
            TrapState::Constructing => false,
            TrapState::Invoking => false,
            TrapState::Completed => true,
            TrapState::Recovered => true,
            TrapState::ContainmentTriggered => true,
        }
    }
}

/// The terminal phase an outcome ends the invocation in.
pub open spec fn outcome_state(o: HandlerOutcomeView) -> TrapState {
    match o {
        HandlerOutcomeView::ConstructionFailed => TrapState::Recovered,
        HandlerOutcomeView::Succeeded(_) => TrapState::Completed,
        HandlerOutcomeView::Failed(e) => match e {
            HandlerErrorView::Recoverable(_) => TrapState::Recovered,
            HandlerErrorView::Unrecoverable => TrapState::ContainmentTriggered,
        },
        HandlerOutcomeView::AbruptTermination => TrapState::ContainmentTriggered,
    }
}

/// Every outcome ends in a terminal phase: the invocation always resolves.
pub proof fn lemma_every_outcome_terminal(o: HandlerOutcomeView)
    ensures
        outcome_state(o).is_terminal(),
{
}

/// The phase transitions of one trapped invocation: construction either
/// moves to invocation or recovers, and invocation ends in the terminal
/// phase of its outcome.
pub open spec fn trap_step(s: TrapState, next: TrapState) -> bool {
    match s {
        TrapState::Constructing => next == TrapState::Invoking || next == TrapState::Recovered,
        TrapState::Invoking => next == TrapState::Completed || next == TrapState::Recovered
            || next == TrapState::ContainmentTriggered,
        TrapState::Completed => false,
        TrapState::Recovered => false,
        TrapState::ContainmentTriggered => false,
    }
}

/// No phase is re-entered: a terminal phase has no further transition, and
/// no transition leads back to a transient phase once it was left.
pub proof fn lemma_no_phase_reentered(s: TrapState, next: TrapState)
    requires
        trap_step(s, next),
    ensures
        !s.is_terminal(),
        next != TrapState::Constructing,
        next == TrapState::Invoking ==> s == TrapState::Constructing,
{
}

/// The generic internal-error response: an internal-server-error status
/// with no headers and no body, leaking no diagnostic detail.
pub open spec fn internal_error_view() -> ResponseView {
    empty_response_view(500)
}

/// Builds the generic internal-error response.
pub fn internal_server_error() -> (r: Response)
    ensures
        r@ == internal_error_view(),
{
    crate::wire::create_empty_response(500)
}

/// The response and the owed log entry for each outcome:
/// - a successful response passes through unchanged;
/// - a declared failure is recovered into the response its handler maps it
///   to, and demoted to containment handling when that mapping fails;
/// - a construction failure and an abrupt termination synthesize the
///   generic internal-error response;
/// - a correlated log entry is owed exactly when containment triggered.
pub open spec fn resolve_view(o: HandlerOutcomeView, id: RequestId) -> (ResponseView, Option<
    LogEntry,
>) {
    match o {
        HandlerOutcomeView::ConstructionFailed => (internal_error_view(), None),
        HandlerOutcomeView::Succeeded(r) => (r, None),
        HandlerOutcomeView::Failed(e) => match e {
            HandlerErrorView::Recoverable(r) => (r, None),
            HandlerErrorView::Unrecoverable => (
                internal_error_view(),
                Some(LogEntry { id }),
            ),
        },
        HandlerOutcomeView::AbruptTermination => (internal_error_view(), Some(LogEntry { id })),
    }
}

/// A log entry is owed exactly for the outcomes that trigger containment.
pub proof fn lemma_log_iff_containment(o: HandlerOutcomeView, id: RequestId)
    ensures
        resolve_view(o, id).1 is Some <==> outcome_state(o) == TrapState::ContainmentTriggered,
        resolve_view(o, id).1 is Some ==> resolve_view(o, id).1->Some_0.id == id,
{
}

/// Resolves one outcome into the response handed back to the transport and
/// the log entry owed to the operator, if any.
pub fn resolve_outcome(outcome: HandlerOutcome, id: RequestId) -> (r: (Response, Option<LogEntry>))
    ensures
        (r.0@, r.1) == resolve_view(outcome@, id),
{
    match outcome {
        HandlerOutcome::ConstructionFailed => (internal_server_error(), None),
        HandlerOutcome::Succeeded(resp) => (resp, None),
        HandlerOutcome::Failed(e) => match e {
            crate::handler::HandlerError::Recoverable(resp) => (resp, None),
            crate::handler::HandlerError::Unrecoverable => (
                internal_server_error(),
                Some(LogEntry { id }),
            ),
        },
        HandlerOutcome::AbruptTermination => (internal_server_error(), Some(LogEntry { id })),
    }
}

/// Obtains a handler from the factory and invokes it, resolving both a
/// construction failure and a declared failure into responses. A factory
/// whose handlers run under a runtime containment scope reports an abrupt
/// termination as [`HandlerOutcome::AbruptTermination`] through
/// [`resolve_outcome`] instead.
pub fn call_handler<H: NewHandler>(factory: &H, ctx: Context, id: RequestId) -> (r: (
    Response,
    Option<LogEntry>,
))
    ensures
        r.1 matches Some(e) ==> e.id == id,
        r.1 is Some ==> r.0@ == internal_error_view(),
{
    match factory.new_handler() {
        Err(_) => resolve_outcome(HandlerOutcome::ConstructionFailed, id),
        Ok(h) => match h.handle(ctx) {
            Ok(resp) => resolve_outcome(HandlerOutcome::Succeeded(resp), id),
            Err(e) => resolve_outcome(HandlerOutcome::Failed(e), id),
        },
    }
}

/// Containment is independent per request: resolving any sequence of
/// abruptly terminated invocations yields one generic internal-error
/// response and one correlated log entry for each of them, with no
/// influence of one on another.
pub proof fn lemma_containment_isolated(outcomes: Seq<HandlerOutcomeView>, ids: Seq<RequestId>)
    requires
        outcomes.len() == ids.len(),
        forall|i: int|
            0 <= i < outcomes.len() ==> outcomes[i] == HandlerOutcomeView::AbruptTermination,
    ensures
        forall|i: int|
            0 <= i < outcomes.len() ==> resolve_view(outcomes[i], ids[i]) == (
                internal_error_view(),
                Some(LogEntry { id: ids[i] }),
            ),
{
}

} // verus!
