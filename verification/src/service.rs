//! The connection-scoped service variants and the per-request dispatch
//! pipeline they share. The base variant carries no connection metadata;
//! a connected variant carries the peer address of one established
//! connection and injects it into every request's context. Both are
//! read-only after construction: dispatching and binding leave them
//! unchanged, so one instance serves any number of requests and
//! connections concurrently.

use std::sync::Arc;

use vstd::prelude::*;

use crate::context::{Context, TypeKey, Value, ValueView};
use crate::fresh_request_id;
use crate::handler::NewHandler;
use crate::path::{path_segments, PathSegments};
use crate::trap::{call_handler, internal_error_view, LogEntry};
use crate::wire::{PeerAddr, Response, WireRequest, WireRequestView};
use crate::RequestId;

verus! {

/// Relies on the standard library's `Arc::clone`: the clone shares the same
/// inner value.
#[verifier::external_body]
fn arc_clone<T>(a: &Arc<T>) -> (r: Arc<T>)
    ensures
        r == *a,
{
    Arc::clone(a)
}

/// The abstract value of a context after the dispatch pipeline populated it
/// from a request: the path-segment decomposition, the request parts, each
/// under its own kind, and finally the fresh request identifier.
pub open spec fn populate_view(
    m: Map<TypeKey, ValueView>,
    req: WireRequestView,
    id: RequestId,
) -> Map<TypeKey, ValueView> {
    m.insert(TypeKey::PathSegments, ValueView::PathSegments(path_segments(req.uri.path)))
        .insert(TypeKey::Method, ValueView::Method(req.method))
        .insert(TypeKey::Uri, ValueView::Uri(req.uri))
        .insert(TypeKey::Version, ValueView::Version(req.version))
        .insert(TypeKey::Headers, ValueView::Headers(req.headers))
        .insert(TypeKey::Body, ValueView::Body(req.body))
        .insert(TypeKey::RequestId, ValueView::RequestId(id))
}

/// Disassembles the request into its parts and stores them in the context,
/// each keyed by its own kind; decomposes the path into segments exactly
/// once; and stores the fresh request identifier last.
pub fn populate_context(ctx: &mut Context, req: WireRequest, id: RequestId)
    ensures
        final(ctx)@ == populate_view(old(ctx)@, req@, id),
{
    let WireRequest { method, uri, version, headers, body } = req;
    let segments = PathSegments::new(&uri.path);
    ctx.put(Value::PathSegments(segments));
    ctx.put(Value::Method(method));
    ctx.put(Value::Uri(uri));
    ctx.put(Value::Version(version));
    ctx.put(Value::Headers(headers));
    ctx.put(Value::Body(body));
    ctx.put(Value::RequestId(id));
}

/// Populating never touches the peer-address slot: an address seeded before
/// dispatch is still there afterwards, with the same value, and where none
/// was seeded none appears — never a substituted default.
pub proof fn lemma_populate_keeps_addr(
    m: Map<TypeKey, ValueView>,
    req: WireRequestView,
    id: RequestId,
)
    ensures
        populate_view(m, req, id).contains_key(TypeKey::ClientAddr) == m.contains_key(
            TypeKey::ClientAddr,
        ),
        m.contains_key(TypeKey::ClientAddr) ==> populate_view(m, req, id)[TypeKey::ClientAddr]
            == m[TypeKey::ClientAddr],
{
}

/// Dispatch always stores exactly the fresh identifier in the context's
/// identifier slot; the slot holds one value, whatever was there before.
pub proof fn lemma_populate_sets_identifier(
    m: Map<TypeKey, ValueView>,
    req: WireRequestView,
    id: RequestId,
)
    ensures
        populate_view(m, req, id).contains_key(TypeKey::RequestId),
        populate_view(m, req, id)[TypeKey::RequestId] == ValueView::RequestId(id),
{
}

/// The common tail of request dispatch, shared by both service variants:
/// populates the context from the request, then hands it to the isolation
/// boundary. Any log entry that comes back carries the request's own
/// identifier and accompanies only the generic internal-error response.
pub fn dispatch_request<H: NewHandler>(
    factory: &H,
    ctx: Context,
    req: WireRequest,
    id: RequestId,
) -> (r: (Response, Option<LogEntry>))
    ensures
        r.1 matches Some(e) ==> e.id == id,
        r.1 is Some ==> r.0@ == internal_error_view(),
{
    let mut ctx = ctx;
    populate_context(&mut ctx, req, id);
    call_handler(factory, ctx, id)
}

/// The base dispatch service: a handler factory in a shared,
/// reference-counted holder, with no bound connection metadata. It is
/// never mutated after construction.
pub struct GothamService<T> {
    handler: Arc<T>,
}

/// A [`GothamService`] bound to one established connection's peer address.
/// It shares the base service's factory holder and is never mutated after
/// construction.
pub struct InetGothamService<T> {
    handler: Arc<T>,
    client_addr: PeerAddr,
}

impl<T: NewHandler> GothamService<T> {
    /// The shared handler factory holder.
    pub closed spec fn factory_view(self) -> Arc<T> {
        self.handler
    }

    /// Wraps a handler factory into a base dispatch service. Performs no
    /// I/O and cannot fail.
    pub fn new(handler: T) -> (s: GothamService<T>)
        ensures
            s.factory_view() == handler,
    {
        GothamService { handler: Arc::new(handler) }
    }

    /// Binds an established connection's peer address: yields a variant
    /// that shares this service's factory and carries `client_addr`. The
    /// base service is untouched and may be bound again, each binding
    /// yielding an independent connected variant.
    pub fn connect(&self, client_addr: PeerAddr) -> (s: InetGothamService<T>)
        ensures
            s.factory_view() == self.factory_view(),
            s.client_addr() == client_addr,
    {
        InetGothamService { handler: arc_clone(&self.handler), client_addr }
    }

    /// Builds the context for one request on a transport without an
    /// addressable peer — no peer address is seeded — and draws the
    /// request's fresh identifier.
    pub fn prepare(&self) -> (r: (Context, RequestId))
        ensures
            r.0@ == Map::<TypeKey, ValueView>::empty(),
    {
        (Context::new(), fresh_request_id())
    }

    /// A shared handle to the handler factory, for a runtime that invokes
    /// handlers under its own containment scope.
    pub fn factory(&self) -> (r: Arc<T>)
        ensures
            r == self.factory_view(),
    {
        arc_clone(&self.handler)
    }

    /// Dispatches one request: builds a fresh, unseeded context, draws an
    /// identifier, and runs the shared dispatch tail. The context of this
    /// request carries no peer address, and the service is left unchanged.
    pub fn call(&self, req: WireRequest) -> (r: (Response, Option<LogEntry>))
        ensures
            r.1 is Some ==> r.0@ == internal_error_view(),
    {
        let (ctx, id) = self.prepare();
        dispatch_request(&*self.handler, ctx, req, id)
    }
}

impl<T: NewHandler> InetGothamService<T> {
    /// The shared handler factory holder.
    pub closed spec fn factory_view(self) -> Arc<T> {
        self.handler
    }

    /// The bound peer address.
    pub closed spec fn client_addr(self) -> PeerAddr {
        self.client_addr
    }

    /// Builds the context for one request, seeded with exactly the bound
    /// peer address, and draws the request's fresh identifier.
    pub fn prepare(&self) -> (r: (Context, RequestId))
        ensures
            r.0@ == Map::<TypeKey, ValueView>::empty().insert(
                TypeKey::ClientAddr,
                ValueView::ClientAddr(self.client_addr()),
            ),
    {
        let mut ctx = Context::new();
        ctx.put(Value::ClientAddr(self.client_addr));
        (ctx, fresh_request_id())
    }

    /// A shared handle to the handler factory, for a runtime that invokes
    /// handlers under its own containment scope.
    pub fn factory(&self) -> (r: Arc<T>)
        ensures
            r == self.factory_view(),
    {
        arc_clone(&self.handler)
    }

    /// Dispatches one request: builds a context seeded with the bound peer
    /// address, draws an identifier, and runs the shared dispatch tail.
    /// The service is left unchanged.
    pub fn call(&self, req: WireRequest) -> (r: (Response, Option<LogEntry>))
        ensures
            r.1 is Some ==> r.0@ == internal_error_view(),
    {
        let (ctx, id) = self.prepare();
        dispatch_request(&*self.handler, ctx, req, id)
    }
}

} // verus!
