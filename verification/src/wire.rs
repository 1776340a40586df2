//! Plain-value models of the wire-level request and response shapes and of
//! the per-connection peer address. The transport layer owns parsing and
//! encoding; this module only fixes the data the dispatch core works on.

use vstd::prelude::*;

verus! {

/// A request method: one of the standard methods, or an extension method
/// carrying its token bytes. The dispatch core is method-agnostic and
/// stores whatever method the transport parsed.
#[derive(PartialEq, Eq, Debug)]
pub enum Method {
    Get,
    Head,
    Post,
    Put,
    Delete,
    Connect,
    Options,
    Trace,
    Patch,
    Extension(Vec<u8>),
}

/// The mathematical value of a [`Method`].
pub ghost enum MethodView {
    Get,
    Head,
    Post,
    Put,
    Delete,
    Connect,
    Options,
    Trace,
    Patch,
    Extension(Seq<u8>),
}

impl View for Method {
    type V = MethodView;

    open spec fn view(&self) -> MethodView {
        match self {
            Method::Get => MethodView::Get,
            Method::Head => MethodView::Head,
            Method::Post => MethodView::Post,
            Method::Put => MethodView::Put,
            Method::Delete => MethodView::Delete,
            Method::Connect => MethodView::Connect,
            Method::Options => MethodView::Options,
            Method::Trace => MethodView::Trace,
            Method::Patch => MethodView::Patch,
            Method::Extension(t) => MethodView::Extension(t@),
        }
    }
}

/// A protocol version.
#[derive(Clone, Copy, PartialEq, Eq, Structural, Debug)]
pub enum Version {
    Http09,
    Http10,
    Http11,
    H2,
    H3,
}

/// The peer address of an established connection, for transports that have
/// one. Transports without an addressable peer never produce this value.
#[derive(Clone, Copy, PartialEq, Eq, Structural, Debug)]
pub enum PeerAddr {
    V4 { a: u8, b: u8, c: u8, d: u8, port: u16 },
    V6 { hi: u64, lo: u64, port: u16 },
}

/// The components of a request target, already split by the transport.
/// Empty `authority` or `query` stand for absent components.
#[derive(PartialEq, Eq, Debug)]
pub struct Uri {
    pub scheme: Vec<u8>,
    pub authority: Vec<u8>,
    pub path: Vec<u8>,
    pub query: Vec<u8>,
}

/// The mathematical value of a [`Uri`].
pub ghost struct UriView {
    pub scheme: Seq<u8>,
    pub authority: Seq<u8>,
    pub path: Seq<u8>,
    pub query: Seq<u8>,
}

impl View for Uri {
    type V = UriView;

    open spec fn view(&self) -> UriView {
        UriView {
            scheme: self.scheme@,
            authority: self.authority@,
            path: self.path@,
            query: self.query@,
        }
    }
}

/// A header collection: name/value pairs in insertion order.
#[derive(PartialEq, Eq, Debug)]
pub struct Headers {
    pub entries: Vec<(Vec<u8>, Vec<u8>)>,
}

impl View for Headers {
    type V = Seq<(Seq<u8>, Seq<u8>)>;

    open spec fn view(&self) -> Seq<(Seq<u8>, Seq<u8>)> {
        Seq::new(self.entries@.len(), |i: int| (self.entries@[i].0@, self.entries@[i].1@))
    }
}

impl Headers {
    /// An empty header collection.
    pub fn new() -> (r: Headers)
        ensures
            r@ == Seq::<(Seq<u8>, Seq<u8>)>::empty(),
    {
        let r = Headers { entries: Vec::new() };
        proof {
            assert(r@ =~= Seq::<(Seq<u8>, Seq<u8>)>::empty());
        }
        r
    }

    /// Appends one name/value pair.
    pub fn push(&mut self, name: Vec<u8>, value: Vec<u8>)
        ensures
            final(self)@ == old(self)@.push((name@, value@)),
    {
        let ghost pre = self@;
        self.entries.push((name, value));
        proof {
            assert(self@ =~= pre.push((name@, value@)));
        }
    }

    /// The number of pairs held.
    pub fn len(&self) -> (r: usize)
        ensures
            r == self@.len(),
    {
        self.entries.len()
    }
}

/// A request body: a single-consumption sequence of bytes. The transport
/// collects the incoming stream into bytes before dispatch.
#[derive(PartialEq, Eq, Debug)]
pub struct Body {
    pub bytes: Vec<u8>,
}

impl View for Body {
    type V = Seq<u8>;

    open spec fn view(&self) -> Seq<u8> {
        self.bytes@
    }
}

impl Body {
    /// An empty body.
    pub fn empty() -> (r: Body)
        ensures
            r@ == Seq::<u8>::empty(),
    {
        let r = Body { bytes: Vec::new() };
        proof {
            assert(r@ =~= Seq::<u8>::empty());
        }
        r
    }
}

/// A wire-level request, disassembled into its parts by the transport.
pub struct WireRequest {
    pub method: Method,
    pub uri: Uri,
    pub version: Version,
    pub headers: Headers,
    pub body: Body,
}

/// The mathematical value of a [`WireRequest`].
pub ghost struct WireRequestView {
    pub method: MethodView,
    pub uri: UriView,
    pub version: Version,
    pub headers: Seq<(Seq<u8>, Seq<u8>)>,
    pub body: Seq<u8>,
}

impl View for WireRequest {
    type V = WireRequestView;

    open spec fn view(&self) -> WireRequestView {
        WireRequestView {
            method: self.method@,
            uri: self.uri@,
            version: self.version,
            headers: self.headers@,
            body: self.body@,
        }
    }
}

/// A wire-level response: status, headers and body.
#[derive(PartialEq, Eq, Debug)]
pub struct Response {
    pub status: u16,
    pub headers: Headers,
    pub body: Vec<u8>,
}

/// The mathematical value of a [`Response`].
pub ghost struct ResponseView {
    pub status: u16,
    pub headers: Seq<(Seq<u8>, Seq<u8>)>,
    pub body: Seq<u8>,
}

impl View for Response {
    type V = ResponseView;

    open spec fn view(&self) -> ResponseView {
        ResponseView { status: self.status, headers: self.headers@, body: self.body@ }
    }
}

/// A status code the wire format can carry.
pub open spec fn valid_status(status: u16) -> bool {
    100 <= status < 600
}

/// The value of a response with the given status and no headers or body.
pub open spec fn empty_response_view(status: u16) -> ResponseView {
    ResponseView {
        status,
        headers: Seq::<(Seq<u8>, Seq<u8>)>::empty(),
        body: Seq::<u8>::empty(),
    }
}

/// Builds a response with the given status and no headers or body.
pub fn create_empty_response(status: u16) -> (r: Response)
    requires
        valid_status(status),
    ensures
        r@ == empty_response_view(status),
{
    let r = Response { status, headers: Headers::new(), body: Vec::new() };
    proof {
        assert(r@.body =~= Seq::<u8>::empty());
    }
    r
}

} // verus!
