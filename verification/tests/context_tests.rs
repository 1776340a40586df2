use gotham_service::context::{Context, TypeKey, Value};
use gotham_service::path::PathSegments;
use gotham_service::wire::{
    create_empty_response, Body, Headers, Method, PeerAddr, Uri, Version,
};

fn segs(path: &[u8]) -> Vec<Vec<u8>> {
    let p: Vec<u8> = path.to_vec();
    let s = PathSegments::new(&p);
    s.segments
}

#[test]
fn path_root_has_no_segments() {
    assert_eq!(segs(b"/"), Vec::<Vec<u8>>::new());
}

#[test]
fn path_empty_has_no_segments() {
    assert_eq!(segs(b""), Vec::<Vec<u8>>::new());
}

#[test]
fn path_two_segments() {
    assert_eq!(segs(b"/a/b"), vec![b"a".to_vec(), b"b".to_vec()]);
}

#[test]
fn path_repeated_and_trailing_separators() {
    assert_eq!(segs(b"//x//y/"), vec![b"x".to_vec(), b"y".to_vec()]);
}

#[test]
fn path_without_leading_separator() {
    assert_eq!(segs(b"abc"), vec![b"abc".to_vec()]);
}

#[test]
fn values_are_keyed_by_their_own_kind() {
    assert_eq!(Value::Method(Method::Get).key(), TypeKey::Method);
    assert_eq!(Value::Version(Version::H2).key(), TypeKey::Version);
    assert_eq!(
        Value::ClientAddr(PeerAddr::V4 { a: 1, b: 2, c: 3, d: 4, port: 5 }).key(),
        TypeKey::ClientAddr
    );
}

#[test]
fn context_overwrites_same_kind() {
    let mut ctx = Context::new();
    ctx.put(Value::Method(Method::Get));
    ctx.put(Value::Method(Method::Post));
    assert_eq!(ctx.borrow_method(), Some(&Method::Post));
}

#[test]
fn context_overwrites_body() {
    let mut ctx = Context::new();
    ctx.put(Value::Body(Body { bytes: b"first".to_vec() }));
    ctx.put(Value::Body(Body { bytes: b"second".to_vec() }));
    match ctx.take(TypeKey::Body) {
        Some(Value::Body(b)) => assert_eq!(b.bytes, b"second".to_vec()),
        other => panic!("unexpected body slot: {:?}", other.is_some()),
    }
}

#[test]
fn context_take_consumes() {
    let mut ctx = Context::new();
    ctx.put(Value::Body(Body { bytes: b"once".to_vec() }));
    assert!(ctx.contains(TypeKey::Body));
    assert!(ctx.take(TypeKey::Body).is_some());
    assert!(!ctx.contains(TypeKey::Body));
    assert!(ctx.take(TypeKey::Body).is_none());
}

#[test]
fn context_absent_kinds() {
    let ctx = Context::new();
    assert!(!ctx.contains(TypeKey::Method));
    assert!(ctx.try_client_addr().is_none());
    assert!(ctx.try_request_id().is_none());
    assert!(ctx.borrow_uri().is_none());
    assert!(ctx.borrow_headers().is_none());
    assert!(ctx.borrow_path_segments().is_none());
}

#[test]
fn context_stores_each_kind() {
    let mut ctx = Context::new();
    ctx.put(Value::Version(Version::Http11));
    ctx.put(Value::Uri(Uri {
        scheme: b"http".to_vec(),
        authority: b"localhost".to_vec(),
        path: b"/".to_vec(),
        query: Vec::new(),
    }));
    ctx.put(Value::ClientAddr(PeerAddr::V4 { a: 127, b: 0, c: 0, d: 1, port: 10000 }));
    assert!(ctx.contains(TypeKey::Version));
    assert_eq!(ctx.borrow_version(), Some(&Version::Http11));
    assert_eq!(ctx.borrow_uri().unwrap().path, b"/".to_vec());
    assert_eq!(
        ctx.try_client_addr(),
        Some(PeerAddr::V4 { a: 127, b: 0, c: 0, d: 1, port: 10000 })
    );
}

#[test]
fn empty_response_shape() {
    let r = create_empty_response(202);
    assert_eq!(r.status, 202);
    assert_eq!(r.headers.len(), 0);
    assert!(r.body.is_empty());
}

#[test]
fn headers_push_and_len() {
    let mut h = Headers::new();
    assert_eq!(h.len(), 0);
    h.push(b"content-type".to_vec(), b"text/plain".to_vec());
    h.push(b"x-test".to_vec(), b"1".to_vec());
    assert_eq!(h.len(), 2);
    assert_eq!(h.entries[0].0, b"content-type".to_vec());
}
