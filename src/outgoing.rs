//! The browser objects that a request is turned into when it is sent, each
//! with a model of what was put into it.
use vstd::prelude::*;
use wasm_bindgen::JsValue;
use web_sys::{
    AbortSignal, Headers, ObserverCallback, ReferrerPolicy, Request as HostRequest, RequestCache,
    RequestCredentials, RequestInit, RequestMode, RequestRedirect,
};
use crate::headers::{header_lookup, same_name, set_then_read};
use crate::method::method_name;
use crate::request::{Body, RequestModel};

verus! {

/// A body as it was handed to the browser.
pub enum BodyModel {
    Text(Seq<char>),
    Value(JsValue),
}

/// What has been set on a browser options object; `None` where a field was
/// never set.
pub struct InitModel {
    pub method: Option<Seq<char>>,
    pub body: Option<BodyModel>,
    pub cache: Option<RequestCache>,
    pub credentials: Option<RequestCredentials>,
    pub mode: Option<RequestMode>,
    pub redirect: Option<RequestRedirect>,
    pub integrity: Option<Seq<char>>,
    pub referrer: Option<Seq<char>>,
    pub referrer_policy: Option<ReferrerPolicy>,
    pub signal: Option<AbortSignal>,
    pub observe: Option<ObserverCallback>,
    /// The header assignments of the collection attached, in order.
    pub headers: Option<Seq<(Seq<char>, Seq<char>)>>,
}

/// An options object on which nothing was set.
pub open spec fn empty_init() -> InitModel {
    InitModel {
        method: None,
        body: None,
        cache: None,
        credentials: None,
        mode: None,
        redirect: None,
        integrity: None,
        referrer: None,
        referrer_policy: None,
        signal: None,
        observe: None,
        headers: None,
    }
}

pub open spec fn body_model(b: Option<Body>) -> Option<BodyModel> {
    match b {
        Some(Body::Text(t)) => Some(BodyModel::Text(t@)),
        Some(Body::Value(v)) => Some(BodyModel::Value(v)),
        None => None,
    }
}

/// The options object that carries a request's configuration: every field
/// that the request sets, and its headers in the order they were set.
pub open spec fn init_of(m: RequestModel) -> InitModel {
    InitModel {
        method: match m.method {
            Some(x) => Some(method_name(x)),
            None => None,
        },
        body: body_model(m.body),
        cache: m.cache,
        credentials: m.credentials,
        mode: m.mode,
        redirect: m.redirect,
        integrity: m.integrity,
        referrer: m.referrer,
        referrer_policy: m.referrer_policy,
        signal: m.signal,
        observe: m.observe,
        headers: Some(m.headers),
    }
}

/// A header set on a request is found, under any spelling of its name that
/// differs only in ASCII case, in the header collection that the request's
/// options carry to the browser, whatever else was set on it before.
pub proof fn header_reaches_browser(
    m: RequestModel,
    name: Seq<char>,
    value: Seq<char>,
    query: Seq<char>,
)
    requires
        same_name(name, query),
    ensures
        init_of(RequestModel { headers: m.headers.push((name, value)), ..m }).headers == Some(
            m.headers.push((name, value)),
        ),
        header_lookup(m.headers.push((name, value)), query) == Some(value),
{
    set_then_read(m.headers, name, value, query);
}

/// A browser options object with a model of what was set on it.
pub struct HostInit {
    pub(crate) init: RequestInit,
    pub(crate) model: Ghost<InitModel>,
}

impl HostInit {
    pub closed spec fn view_model(&self) -> InitModel {
        self.model@
    }
}

/// A browser header collection with the assignments made on it.
pub struct HeaderSet {
    pub(crate) headers: Headers,
    pub(crate) assigned: Ghost<Seq<(Seq<char>, Seq<char>)>>,
}

impl HeaderSet {
    pub closed spec fn assignments(&self) -> Seq<(Seq<char>, Seq<char>)> {
        self.assigned@
    }
}

/// A browser request object, with the url and the options it was built from.
pub struct BuiltRequest {
    pub(crate) request: HostRequest,
    pub(crate) url: Ghost<Seq<char>>,
    pub(crate) options: Ghost<InitModel>,
}

impl BuiltRequest {
    /// The url the browser request was built from.
    pub closed spec fn source_url(&self) -> Seq<char> {
        self.url@
    }

    /// What the options object it was built from held.
    pub closed spec fn source_options(&self) -> InitModel {
        self.options@
    }

    /// The browser's request object inside.
    pub closed spec fn raw(&self) -> HostRequest {
        self.request
    }

    /// The browser's request object, to hand to its fetch.
    pub fn as_raw(&self) -> (r: &HostRequest)
        ensures
            *r == self.raw(),
    {
        &self.request
    }
}

} // verus!
