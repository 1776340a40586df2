//! The per-request context: a type-indexed property bag. Each distinct kind
//! of fact may hold at most one current value; storing a value of an
//! already-present kind replaces the old one. The context is exclusively
//! owned by one in-flight request.

use vstd::prelude::*;

use crate::path::PathSegments;
use crate::wire::{Body, Headers, Method, MethodView, PeerAddr, Uri, UriView, Version};
use crate::RequestId;

verus! {

/// The kinds of value a context can hold, one per stored type.
#[derive(Clone, Copy, PartialEq, Eq, Structural, Debug)]
pub enum TypeKey {
    Method,
    Uri,
    Version,
    Headers,
    Body,
    PathSegments,
    RequestId,
    ClientAddr,
}

/// A value a context can hold, tagged with its kind.
#[derive(PartialEq, Eq, Debug)]
pub enum Value {
    Method(Method),
    Uri(Uri),
    Version(Version),
    Headers(Headers),
    Body(Body),
    PathSegments(PathSegments),
    RequestId(RequestId),
    ClientAddr(PeerAddr),
}

/// The mathematical value of a [`Value`].
pub ghost enum ValueView {
    Method(MethodView),
    Uri(UriView),
    Version(Version),
    Headers(Seq<(Seq<u8>, Seq<u8>)>),
    Body(Seq<u8>),
    PathSegments(Seq<Seq<u8>>),
    RequestId(RequestId),
    ClientAddr(PeerAddr),
}

impl View for Value {
    type V = ValueView;

    open spec fn view(&self) -> ValueView {
        match self {
            Value::Method(m) => ValueView::Method(m@),
            Value::Uri(u) => ValueView::Uri(u@),
            Value::Version(v) => ValueView::Version(*v),
            Value::Headers(h) => ValueView::Headers(h@),
            Value::Body(b) => ValueView::Body(b@),
            Value::PathSegments(s) => ValueView::PathSegments(s@),
            Value::RequestId(i) => ValueView::RequestId(*i),
            Value::ClientAddr(a) => ValueView::ClientAddr(*a),
        }
    }
}

impl ValueView {
    /// The kind a value is stored under.
    pub open spec fn key(self) -> TypeKey {
        match self {
            ValueView::Method(_) => TypeKey::Method,
            ValueView::Uri(_) => TypeKey::Uri,
            ValueView::Version(_) => TypeKey::Version,
            ValueView::Headers(_) => TypeKey::Headers,
            ValueView::Body(_) => TypeKey::Body,
            ValueView::PathSegments(_) => TypeKey::PathSegments,
            ValueView::RequestId(_) => TypeKey::RequestId,
            ValueView::ClientAddr(_) => TypeKey::ClientAddr,
        }
    }
}

impl Value {
    /// The kind this value is stored under.
    pub fn key(&self) -> (r: TypeKey)
        ensures
            r == self@.key(),
    {
        match self {
            Value::Method(_) => TypeKey::Method,
            Value::Uri(_) => TypeKey::Uri,
            Value::Version(_) => TypeKey::Version,
            Value::Headers(_) => TypeKey::Headers,
            Value::Body(_) => TypeKey::Body,
            Value::PathSegments(_) => TypeKey::PathSegments,
            Value::RequestId(_) => TypeKey::RequestId,
            Value::ClientAddr(_) => TypeKey::ClientAddr,
        }
    }
}

/// The per-request property bag. Its abstract value is a map from kind to
/// stored value; by construction no two values of the same kind coexist.
pub struct Context {
    method: Option<Method>,
    uri: Option<Uri>,
    version: Option<Version>,
    headers: Option<Headers>,
    body: Option<Body>,
    path_segments: Option<PathSegments>,
    request_id: Option<RequestId>,
    client_addr: Option<PeerAddr>,
}

impl Context {
    /// The value currently stored under `k`, if any.
    pub closed spec fn slot(self, k: TypeKey) -> Option<ValueView> {
        match k {
            TypeKey::Method => match self.method {
                Some(m) => Some(ValueView::Method(m@)),
                None => None,
            },
            TypeKey::Uri => match self.uri {
                Some(u) => Some(ValueView::Uri(u@)),
                None => None,
            },
            TypeKey::Version => match self.version {
                Some(v) => Some(ValueView::Version(v)),
                None => None,
            },
            TypeKey::Headers => match self.headers {
                Some(h) => Some(ValueView::Headers(h@)),
                None => None,
            },
            TypeKey::Body => match self.body {
                Some(b) => Some(ValueView::Body(b@)),
                None => None,
            },
            TypeKey::PathSegments => match self.path_segments {
                Some(s) => Some(ValueView::PathSegments(s@)),
                None => None,
            },
            TypeKey::RequestId => match self.request_id {
                Some(i) => Some(ValueView::RequestId(i)),
                None => None,
            },
            TypeKey::ClientAddr => match self.client_addr {
                Some(a) => Some(ValueView::ClientAddr(a)),
                None => None,
            },
        }
    }
}

impl View for Context {
    type V = Map<TypeKey, ValueView>;

    open spec fn view(&self) -> Map<TypeKey, ValueView> {
        Map::new(|k: TypeKey| self.slot(k) is Some, |k: TypeKey| self.slot(k)->Some_0)
    }
}

impl Context {
    /// A fresh, empty context.
    pub fn new() -> (r: Context)
        ensures
            r@ == Map::<TypeKey, ValueView>::empty(),
    {
        let r = Context {
            method: None,
            uri: None,
            version: None,
            headers: None,
            body: None,
            path_segments: None,
            request_id: None,
            client_addr: None,
        };
        proof {
            assert(r@ =~= Map::<TypeKey, ValueView>::empty());
        }
        r
    }

    /// Stores `v` under its own kind, replacing any prior value of that kind.
    pub fn put(&mut self, v: Value)
        ensures
            final(self)@ == old(self)@.insert(v@.key(), v@),
    {
        let ghost pre = *old(self);
        let ghost vv = v@;
        match v {
            Value::Method(m) => {
                self.method = Some(m);
            },
            Value::Uri(u) => {
                self.uri = Some(u);
            },
            Value::Version(ver) => {
                self.version = Some(ver);
            },
            Value::Headers(h) => {
                self.headers = Some(h);
            },
            Value::Body(b) => {
                self.body = Some(b);
            },
            Value::PathSegments(s) => {
                self.path_segments = Some(s);
            },
            Value::RequestId(i) => {
                self.request_id = Some(i);
            },
            Value::ClientAddr(a) => {
                self.client_addr = Some(a);
            },
        }
        proof {
            assert(self@ =~= pre@.insert(vv.key(), vv));
        }
    }

    /// Whether a value of kind `k` is present.
    pub fn contains(&self, k: TypeKey) -> (r: bool)
        ensures
            r == self@.contains_key(k),
    {
        match k {
            TypeKey::Method => self.method.is_some(),
            TypeKey::Uri => self.uri.is_some(),
            TypeKey::Version => self.version.is_some(),
            TypeKey::Headers => self.headers.is_some(),
            TypeKey::Body => self.body.is_some(),
            TypeKey::PathSegments => self.path_segments.is_some(),
            TypeKey::RequestId => self.request_id.is_some(),
            TypeKey::ClientAddr => self.client_addr.is_some(),
        }
    }

    /// Removes and returns the value of kind `k`, used for single-consumption
    /// items such as the body.
    pub fn take(&mut self, k: TypeKey) -> (r: Option<Value>)
        ensures
            final(self)@ == old(self)@.remove(k),
            old(self)@.contains_key(k) ==> (r matches Some(v) && v@ == old(self)@[k]),
            !old(self)@.contains_key(k) ==> r is None,
    {
        let ghost pre = *old(self);
        let r = match k {
            TypeKey::Method => match self.method.take() {
                Some(m) => Some(Value::Method(m)),
                None => None,
            },
            TypeKey::Uri => match self.uri.take() {
                Some(u) => Some(Value::Uri(u)),
                None => None,
            },
            TypeKey::Version => match self.version.take() {
                Some(v) => Some(Value::Version(v)),
                None => None,
            },
            TypeKey::Headers => match self.headers.take() {
                Some(h) => Some(Value::Headers(h)),
                None => None,
            },
            TypeKey::Body => match self.body.take() {
                Some(b) => Some(Value::Body(b)),
                None => None,
            },
            TypeKey::PathSegments => match self.path_segments.take() {
                Some(s) => Some(Value::PathSegments(s)),
                None => None,
            },
            TypeKey::RequestId => match self.request_id.take() {
                Some(i) => Some(Value::RequestId(i)),
                None => None,
            },
            TypeKey::ClientAddr => match self.client_addr.take() {
                Some(a) => Some(Value::ClientAddr(a)),
                None => None,
            },
        };
        proof {
            assert(self@ =~= pre@.remove(k));
        }
        r
    }

    /// The peer address; callers must know one is present. Downstream code
    /// that merely tolerates a missing address uses [`Self::try_client_addr`].
    pub fn client_addr(&self) -> (r: PeerAddr)
        requires
            self@.contains_key(TypeKey::ClientAddr),
        ensures
            self@[TypeKey::ClientAddr] == ValueView::ClientAddr(r),
    {
        match self.client_addr {
            Some(a) => a,
            None => vstd::pervasive::unreached(),
        }
    }

    /// The request identifier; callers must know dispatch has stored one.
    pub fn request_id(&self) -> (r: RequestId)
        requires
            self@.contains_key(TypeKey::RequestId),
        ensures
            self@[TypeKey::RequestId] == ValueView::RequestId(r),
    {
        match self.request_id {
            Some(i) => i,
            None => vstd::pervasive::unreached(),
        }
    }

    /// The peer address, where the originating connection supplied one.
    pub fn try_client_addr(&self) -> (r: Option<PeerAddr>)
        ensures
            r matches Some(a) ==> self@.contains_key(TypeKey::ClientAddr)
                && self@[TypeKey::ClientAddr] == ValueView::ClientAddr(a),
            r is None ==> !self@.contains_key(TypeKey::ClientAddr),
    {
        self.client_addr
    }

    /// The request identifier, once dispatch has stored one.
    pub fn try_request_id(&self) -> (r: Option<RequestId>)
        ensures
            r matches Some(i) ==> self@.contains_key(TypeKey::RequestId)
                && self@[TypeKey::RequestId] == ValueView::RequestId(i),
            r is None ==> !self@.contains_key(TypeKey::RequestId),
    {
        self.request_id
    }

    /// A borrow of the stored method, if present.
    pub fn borrow_method(&self) -> (r: Option<&Method>)
        ensures
            r matches Some(m) ==> self@.contains_key(TypeKey::Method)
                && self@[TypeKey::Method] == ValueView::Method(m@),
            r is None ==> !self@.contains_key(TypeKey::Method),
    {
        self.method.as_ref()
    }

    /// A borrow of the stored protocol version, if present.
    pub fn borrow_version(&self) -> (r: Option<&Version>)
        ensures
            r matches Some(v) ==> self@.contains_key(TypeKey::Version)
                && self@[TypeKey::Version] == ValueView::Version(*v),
            r is None ==> !self@.contains_key(TypeKey::Version),
    {
        self.version.as_ref()
    }

    /// A borrow of the stored request target, if present.
    pub fn borrow_uri(&self) -> (r: Option<&Uri>)
        ensures
            r matches Some(u) ==> self@.contains_key(TypeKey::Uri)
                && self@[TypeKey::Uri] == ValueView::Uri(u@),
            r is None ==> !self@.contains_key(TypeKey::Uri),
    {
        self.uri.as_ref()
    }

    /// A borrow of the stored header collection, if present.
    pub fn borrow_headers(&self) -> (r: Option<&Headers>)
        ensures
            r matches Some(h) ==> self@.contains_key(TypeKey::Headers)
                && self@[TypeKey::Headers] == ValueView::Headers(h@),
            r is None ==> !self@.contains_key(TypeKey::Headers),
    {
        self.headers.as_ref()
    }

    /// A borrow of the stored path segments, if present.
    pub fn borrow_path_segments(&self) -> (r: Option<&PathSegments>)
        ensures
            r matches Some(s) ==> self@.contains_key(TypeKey::PathSegments)
                && self@[TypeKey::PathSegments] == ValueView::PathSegments(s@),
            r is None ==> !self@.contains_key(TypeKey::PathSegments),
    {
        self.path_segments.as_ref()
    }
}

/// Storing two values of the same kind leaves only the second one: the
/// earlier store is indistinguishable from never having happened.
pub proof fn lemma_type_keyed_overwrite(m: Map<TypeKey, ValueView>, v1: ValueView, v2: ValueView)
    requires
        v1.key() == v2.key(),
    ensures
        m.insert(v1.key(), v1).insert(v2.key(), v2) == m.insert(v2.key(), v2),
{
    assert(m.insert(v1.key(), v1).insert(v2.key(), v2) =~= m.insert(v2.key(), v2));
}

} // verus!
