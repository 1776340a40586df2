use gotham_service::context::Context;
use gotham_service::handler::{
    ConstructError, Handler, HandlerError, HandlerOutcome, NewHandler,
};
use gotham_service::service::{dispatch_request, populate_context, GothamService};
use gotham_service::trap::resolve_outcome;
use gotham_service::wire::{
    create_empty_response, Body, Headers, Method, PeerAddr, Response, Uri, Version,
    WireRequest,
};
use gotham_service::RequestId;

fn localhost_root_request() -> WireRequest {
    // GET http://localhost/
    WireRequest {
        method: Method::Get,
        uri: Uri {
            scheme: b"http".to_vec(),
            authority: b"localhost".to_vec(),
            path: b"/".to_vec(),
            query: Vec::new(),
        },
        version: Version::Http11,
        headers: Headers::new(),
        body: Body::empty(),
    }
}

fn peer_10000() -> PeerAddr {
    // 127.0.0.1:10000
    PeerAddr::V4 { a: 127, b: 0, c: 0, d: 1, port: 10000 }
}

struct Accepted;

impl Handler for Accepted {
    fn handle(self, _ctx: Context) -> Result<Response, HandlerError> {
        Ok(create_empty_response(202))
    }
}

struct AcceptedFactory;

impl NewHandler for AcceptedFactory {
    type Instance = Accepted;

    fn new_handler(&self) -> Result<Accepted, ConstructError> {
        Ok(Accepted)
    }
}

/// Answers the root path with status 202 and anything else with 404,
/// standing in for a routing collaborator.
struct RootRouter;

impl Handler for RootRouter {
    fn handle(self, ctx: Context) -> Result<Response, HandlerError> {
        let at_root = match ctx.borrow_path_segments() {
            Some(s) => s.len() == 0,
            None => false,
        };
        if at_root {
            Ok(create_empty_response(202))
        } else {
            Ok(create_empty_response(404))
        }
    }
}

struct RootRouterFactory;

impl NewHandler for RootRouterFactory {
    type Instance = RootRouter;

    fn new_handler(&self) -> Result<RootRouter, ConstructError> {
        Ok(RootRouter)
    }
}

struct NeverRuns;

impl Handler for NeverRuns {
    fn handle(self, _ctx: Context) -> Result<Response, HandlerError> {
        unreachable!("a handler was invoked although construction failed");
    }
}

struct FailingFactory;

impl NewHandler for FailingFactory {
    type Instance = NeverRuns;

    fn new_handler(&self) -> Result<NeverRuns, ConstructError> {
        Err(ConstructError)
    }
}

struct Unrecoverable;

impl Handler for Unrecoverable {
    fn handle(self, _ctx: Context) -> Result<Response, HandlerError> {
        Err(HandlerError::Unrecoverable)
    }
}

struct UnrecoverableFactory;

impl NewHandler for UnrecoverableFactory {
    type Instance = Unrecoverable;

    fn new_handler(&self) -> Result<Unrecoverable, ConstructError> {
        Ok(Unrecoverable)
    }
}

struct Teapot;

impl Handler for Teapot {
    fn handle(self, _ctx: Context) -> Result<Response, HandlerError> {
        Err(HandlerError::Recoverable(create_empty_response(418)))
    }
}

struct TeapotFactory;

impl NewHandler for TeapotFactory {
    type Instance = Teapot;

    fn new_handler(&self) -> Result<Teapot, ConstructError> {
        Ok(Teapot)
    }
}

#[test]
fn new_handler_closure() {
    let service = GothamService::new(AcceptedFactory);
    let req = localhost_root_request();
    let (response, _log) = service.connect(peer_10000()).call(req);
    assert_eq!(response.status, 202);
}

#[test]
fn router() {
    let service = GothamService::new(RootRouterFactory);
    let req = localhost_root_request();
    let (response, _log) = service.connect(peer_10000()).call(req);
    assert_eq!(response.status, 202);
}

#[test]
fn bound_context_carries_address() {
    let service = GothamService::new(AcceptedFactory);
    let bound = service.connect(peer_10000());
    let (ctx, _id) = bound.prepare();
    assert_eq!(ctx.try_client_addr(), Some(peer_10000()));
}

#[test]
fn unbound_context_has_no_address() {
    let service = GothamService::new(AcceptedFactory);
    let (mut ctx, id) = service.prepare();
    assert!(ctx.try_client_addr().is_none());
    populate_context(&mut ctx, localhost_root_request(), id);
    assert!(ctx.try_client_addr().is_none());
}

#[test]
fn two_bindings_keep_their_own_address() {
    let service = GothamService::new(AcceptedFactory);
    let addr_a = PeerAddr::V4 { a: 10, b: 0, c: 0, d: 1, port: 80 };
    let addr_b = PeerAddr::V6 { hi: 0, lo: 1, port: 443 };
    let bound_a = service.connect(addr_a);
    let bound_b = service.connect(addr_b);
    let (ctx_a, id_a) = bound_a.prepare();
    let (ctx_b, id_b) = bound_b.prepare();
    assert_eq!(ctx_a.try_client_addr(), Some(addr_a));
    assert_eq!(ctx_b.try_client_addr(), Some(addr_b));
    assert_ne!(id_a, id_b);
}

#[test]
fn identifiers_are_unique() {
    let service = GothamService::new(AcceptedFactory);
    let other_service = GothamService::new(AcceptedFactory);
    let bound = service.connect(peer_10000());
    let (_c1, id1) = service.prepare();
    let (_c2, id2) = service.prepare();
    let (_c3, id3) = bound.prepare();
    let (_c4, id4) = bound.prepare();
    let (_c5, id5) = other_service.prepare();
    let ids = [id1, id2, id3, id4, id5];
    for i in 0..ids.len() {
        for j in 0..ids.len() {
            if i != j {
                assert_ne!(ids[i], ids[j]);
            }
        }
    }
}

#[test]
fn populate_stores_request_parts() {
    let mut ctx = Context::new();
    let id = RequestId { value: 7 };
    let mut req = localhost_root_request();
    req.uri.path = b"/widgets/42".to_vec();
    populate_context(&mut ctx, req, id);
    assert_eq!(ctx.borrow_method(), Some(&Method::Get));
    assert_eq!(ctx.borrow_uri().unwrap().path, b"/widgets/42".to_vec());
    assert_eq!(ctx.try_request_id(), Some(id));
    let segments = ctx.borrow_path_segments().unwrap();
    assert_eq!(segments.len(), 2);
    assert_eq!(segments.segment(0), &b"widgets".to_vec());
    assert_eq!(segments.segment(1), &b"42".to_vec());
}

#[test]
fn construction_failure_yields_internal_error() {
    let service = GothamService::new(FailingFactory);
    let (response, log) = service.call(localhost_root_request());
    assert_eq!(response.status, 500);
    assert!(response.body.is_empty());
    assert!(log.is_none());
}

#[test]
fn abrupt_termination_is_contained() {
    let id = RequestId { value: 11 };
    let (response, log) = resolve_outcome(HandlerOutcome::AbruptTermination, id);
    assert_eq!(response.status, 500);
    assert!(response.body.is_empty());
    assert_eq!(log.unwrap().id, id);

    // The same factory still serves a well-behaved request afterwards.
    let service = GothamService::new(AcceptedFactory);
    let (response, _log) = service.call(localhost_root_request());
    assert_eq!(response.status, 202);
}

#[test]
fn containment_is_independent_per_request() {
    let n: u128 = 5;
    for value in 0..n {
        let id = RequestId { value };
        let (response, log) = resolve_outcome(HandlerOutcome::AbruptTermination, id);
        assert_eq!(response.status, 500);
        assert_eq!(log.unwrap().id, id);
    }
    let service = GothamService::new(UnrecoverableFactory);
    for value in 0..n {
        let id = RequestId { value };
        let (response, log) = dispatch_request(
            &UnrecoverableFactory,
            Context::new(),
            localhost_root_request(),
            id,
        );
        assert_eq!(response.status, 500);
        assert_eq!(log.unwrap().id, id);
        let (response, log) = service.call(localhost_root_request());
        assert_eq!(response.status, 500);
        assert!(log.is_some());
    }
    let healthy = GothamService::new(AcceptedFactory);
    let (response, _log) = healthy.call(localhost_root_request());
    assert_eq!(response.status, 202);
}

#[test]
fn declared_failure_recovers_through_its_own_response() {
    let service = GothamService::new(TeapotFactory);
    let (response, log) = service.call(localhost_root_request());
    assert_eq!(response.status, 418);
    assert!(log.is_none());
}

#[test]
fn dispatch_request_passes_response_through() {
    let (response, log) = dispatch_request(
        &AcceptedFactory,
        Context::new(),
        localhost_root_request(),
        RequestId { value: 1 },
    );
    assert_eq!(response.status, 202);
    assert!(log.is_none());
}

#[test]
fn extension_method_is_dispatched() {
    let mut ctx = Context::new();
    let mut req = localhost_root_request();
    req.method = Method::Extension(b"PURGE".to_vec());
    populate_context(&mut ctx, req, RequestId { value: 3 });
    assert_eq!(ctx.borrow_method(), Some(&Method::Extension(b"PURGE".to_vec())));

    let service = GothamService::new(AcceptedFactory);
    let mut req = localhost_root_request();
    req.method = Method::Extension(b"PURGE".to_vec());
    let (response, _log) = service.call(req);
    assert_eq!(response.status, 202);
}
