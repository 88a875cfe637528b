use vstd::prelude::*;
use wasm_bindgen::JsValue;
use web_sys::{
    AbortSignal, ObserverCallback, ReferrerPolicy, RequestCache, RequestCredentials, RequestMode,
    RequestRedirect,
};
use crate::error::Error;
use crate::headers::{header_lookup, names_match};
use crate::host;
use crate::outgoing::{init_of, BuiltRequest};
use crate::method::Method;

verus! {

/// What a request carries as its body.
#[derive(Debug)]
pub enum Body {
    /// A text body.
    Text(String),
    /// Any value that the browser takes as a body (form data, a blob, bytes).
    Value(JsValue),
}

/// The configuration of a request as plain values.
pub struct RequestModel {
    pub url: Seq<char>,
    pub method: Option<Method>,
    /// Header assignments in the order they were made.
    pub headers: Seq<(Seq<char>, Seq<char>)>,
    pub body: Option<Body>,
    pub cache: Option<RequestCache>,
    pub credentials: Option<RequestCredentials>,
    pub mode: Option<RequestMode>,
    pub redirect: Option<RequestRedirect>,
    pub integrity: Option<Seq<char>>,
    pub referrer: Option<Seq<char>>,
    pub referrer_policy: Option<ReferrerPolicy>,
    pub signal: Option<AbortSignal>,
    pub observe: Option<ObserverCallback>,
}

/// A request to `url` with no header set and every option left to the browser.
pub open spec fn fresh_model(url: Seq<char>) -> RequestModel {
    RequestModel {
        url,
        method: None,
        headers: Seq::empty(),
        body: None,
        cache: None,
        credentials: None,
        mode: None,
        redirect: None,
        integrity: None,
        referrer: None,
        referrer_policy: None,
        signal: None,
        observe: None,
    }
}

/// A request model with its method set.
pub open spec fn with_method(m: RequestModel, method: Method) -> RequestModel {
    RequestModel { method: Some(method), ..m }
}

pub open spec fn opt_string_view(s: Option<String>) -> Option<Seq<char>> {
    match s {
        Some(t) => Some(t@),
        None => None,
    }
}

pub open spec fn pair_view(p: (String, String)) -> (Seq<char>, Seq<char>) {
    (p.0@, p.1@)
}

/// A request. Each setter takes the request and hands it back changed, so
/// calls chain.
#[derive(Debug)]
pub struct Request {
    url: String,
    method: Option<Method>,
    headers: Vec<(String, String)>,
    body: Option<Body>,
    cache: Option<RequestCache>,
    credentials: Option<RequestCredentials>,
    mode: Option<RequestMode>,
    redirect: Option<RequestRedirect>,
    integrity: Option<String>,
    referrer: Option<String>,
    referrer_policy: Option<ReferrerPolicy>,
    signal: Option<AbortSignal>,
    observe: Option<ObserverCallback>,
}

impl View for Request {
    type V = RequestModel;

    closed spec fn view(&self) -> RequestModel {
        RequestModel {
            url: self.url@,
            method: self.method,
            headers: self.headers@.map_values(|p: (String, String)| pair_view(p)),
            body: self.body,
            cache: self.cache,
            credentials: self.credentials,
            mode: self.mode,
            redirect: self.redirect,
            integrity: opt_string_view(self.integrity),
            referrer: opt_string_view(self.referrer),
            referrer_policy: self.referrer_policy,
            signal: self.signal,
            observe: self.observe,
        }
    }
}

impl Request {
    /// Creates a new request with a url.
    pub fn new(url: &str) -> (r: Self)
        ensures
            r@ == fresh_model(url@),
    {
        let r = Request {
            url: String::from_str(url),
            method: None,
            headers: Vec::new(),
            body: None,
            cache: None,
            credentials: None,
            mode: None,
            redirect: None,
            integrity: None,
            referrer: None,
            referrer_policy: None,
            signal: None,
            observe: None,
        };
        assert(r@.headers =~= Seq::empty());
        r
    }

    /// Sets the body.
    pub fn body(self, body: Body) -> (r: Self)
        ensures
            r@ == (RequestModel { body: Some(body), ..self@ }),
    {
        let mut r = self;
        r.body = Some(body);
        r
    }

    /// Sets the request cache.
    pub fn cache(self, cache: RequestCache) -> (r: Self)
        ensures
            r@ == (RequestModel { cache: Some(cache), ..self@ }),
    {
        let mut r = self;
        r.cache = Some(cache);
        r
    }

    /// Sets the request credentials.
    pub fn credentials(self, credentials: RequestCredentials) -> (r: Self)
        ensures
            r@ == (RequestModel { credentials: Some(credentials), ..self@ }),
    {
        let mut r = self;
        r.credentials = Some(credentials);
        r
    }

    /// Sets a header. A later assignment to the same name, without regard to
    /// ASCII case, replaces an earlier one. The browser checks the name and
    /// the value when the request is sent; one that it rejects makes the
    /// send fail with its error.
    pub fn header(self, key: &str, value: &str) -> (r: Self)
        ensures
            r@ == (RequestModel { headers: self@.headers.push((key@, value@)), ..self@ }),
    {
        let mut r = self;
        r.headers.push((String::from_str(key), String::from_str(value)));
        assert(r@.headers =~= self@.headers.push((key@, value@)));
        r
    }

    /// Sets the request integrity.
    pub fn integrity(self, integrity: &str) -> (r: Self)
        ensures
            r@ == (RequestModel { integrity: Some(integrity@), ..self@ }),
    {
        let mut r = self;
        r.integrity = Some(String::from_str(integrity));
        r
    }

    /// Sets the request method.
    pub fn method(self, method: Method) -> (r: Self)
        ensures
            r@ == with_method(self@, method),
    {
        let mut r = self;
        r.method = Some(method);
        r
    }

    /// Sets the request mode.
    pub fn mode(self, mode: RequestMode) -> (r: Self)
        ensures
            r@ == (RequestModel { mode: Some(mode), ..self@ }),
    {
        let mut r = self;
        r.mode = Some(mode);
        r
    }

    /// Sets the request redirect.
    pub fn redirect(self, redirect: RequestRedirect) -> (r: Self)
        ensures
            r@ == (RequestModel { redirect: Some(redirect), ..self@ }),
    {
        let mut r = self;
        r.redirect = Some(redirect);
        r
    }

    /// Sets the request referrer.
    pub fn referrer(self, referrer: &str) -> (r: Self)
        ensures
            r@ == (RequestModel { referrer: Some(referrer@), ..self@ }),
    {
        let mut r = self;
        r.referrer = Some(String::from_str(referrer));
        r
    }

    /// Sets the request referrer policy.
    pub fn referrer_policy(self, referrer_policy: ReferrerPolicy) -> (r: Self)
        ensures
            r@ == (RequestModel { referrer_policy: Some(referrer_policy), ..self@ }),
    {
        let mut r = self;
        r.referrer_policy = Some(referrer_policy);
        r
    }

    /// Sets the request abort signal, or removes it with `None`.
    pub fn abort_signal(self, signal: Option<&AbortSignal>) -> (r: Self)
        ensures
            r@ == (RequestModel {
                signal: match signal {
                    Some(s) => Some(*s),
                    None => None,
                },
                ..self@
            }),
    {
        let mut r = self;
        r.signal = match signal {
            Some(s) => Some(host::share_signal(s)),
            None => None,
        };
        r
    }

    /// Sets the observer callback.
    pub fn observe(self, observe: &ObserverCallback) -> (r: Self)
        ensures
            r@ == (RequestModel { observe: Some(*observe), ..self@ }),
    {
        let mut r = self;
        r.observe = Some(host::share_observer(observe));
        r
    }

    /// Builds the browser's request object from this configuration: an
    /// options object that carries every field set here, with the headers
    /// assigned in the order they were set. Fails with the browser's error
    /// where it rejects a header, the url or the options.
    pub fn into_host(self) -> (r: Result<BuiltRequest, Error>)
        ensures
            r is Err ==> r->Err_0 is Host,
            r is Ok ==> r->Ok_0.source_url() == self@.url && r->Ok_0.source_options()
                == init_of(self@),
    {
        let ghost m = self@;
        let mut init = host::new_init();
        if let Some(x) = self.method {
            host::init_set_method(&mut init, x.as_str());
        }
        match &self.body {
            Some(Body::Text(t)) => host::init_set_text_body(&mut init, t.as_str()),
            Some(Body::Value(v)) => host::init_set_body(&mut init, v),
            None => {},
        }
        if let Some(c) = self.cache {
            host::init_set_cache(&mut init, c);
        }
        if let Some(c) = self.credentials {
            host::init_set_credentials(&mut init, c);
        }
        if let Some(x) = self.mode {
            host::init_set_mode(&mut init, x);
        }
        if let Some(rd) = self.redirect {
            host::init_set_redirect(&mut init, rd);
        }
        if let Some(s) = &self.integrity {
            host::init_set_integrity(&mut init, s.as_str());
        }
        if let Some(s) = &self.referrer {
            host::init_set_referrer(&mut init, s.as_str());
        }
        if let Some(p) = self.referrer_policy {
            host::init_set_referrer_policy(&mut init, p);
        }
        if let Some(s) = &self.signal {
            host::init_set_signal(&mut init, s);
        }
        if let Some(o) = &self.observe {
            host::init_set_observe(&mut init, o);
        }
        let mut headers = match host::new_headers() {
            Ok(h) => h,
            Err(e) => return Err(Error::Host(e)),
        };
        let mut i: usize = 0;
        while i < self.headers.len()
            invariant
                i <= self.headers@.len(),
                m == self@,
                m.headers.len() == self.headers@.len(),
                headers.assignments() == m.headers.subrange(0, i as int),
            decreases self.headers@.len() - i,
        {
            let pair = &self.headers[i];
            if let Err(e) = host::headers_set(&mut headers, pair.0.as_str(), pair.1.as_str()) {
                return Err(Error::Host(e));
            }
            proof {
                assert(m.headers[i as int] == pair_view(self.headers@[i as int]));
                assert(m.headers.subrange(0, i + 1) =~= m.headers.subrange(0, i as int).push(
                    m.headers[i as int],
                ));
            }
            i += 1;
        }
        assert(m.headers.subrange(0, i as int) =~= m.headers);
        host::init_set_headers(&mut init, &headers);
        assert(init.view_model() == init_of(m));
        match host::new_host_request(self.url.as_str(), &init) {
            Ok(req) => Ok(req),
            Err(e) => Err(Error::Host(e)),
        }
    }

    /// Creates a new `GET` request with url.
    pub fn get(url: &str) -> (r: Self)
        ensures
            r@ == with_method(fresh_model(url@), Method::GET),
            r@.method == Some(Method::GET),
    {
        Self::new(url).method(Method::GET)
    }

    /// Creates a new `POST` request with url.
    pub fn post(url: &str) -> (r: Self)
        ensures
            r@ == with_method(fresh_model(url@), Method::POST),
            r@.method == Some(Method::POST),
    {
        Self::new(url).method(Method::POST)
    }

    /// Creates a new `PUT` request with url.
    pub fn put(url: &str) -> (r: Self)
        ensures
            r@ == with_method(fresh_model(url@), Method::PUT),
            r@.method == Some(Method::PUT),
    {
        Self::new(url).method(Method::PUT)
    }

    /// Creates a new `DELETE` request with url.
    pub fn delete(url: &str) -> (r: Self)
        ensures
            r@ == with_method(fresh_model(url@), Method::DELETE),
            r@.method == Some(Method::DELETE),
    {
        Self::new(url).method(Method::DELETE)
    }

    /// Creates a new `PATCH` request with url.
    pub fn patch(url: &str) -> (r: Self)
        ensures
            r@ == with_method(fresh_model(url@), Method::PATCH),
            r@.method == Some(Method::PATCH),
    {
        Self::new(url).method(Method::PATCH)
    }

    /// The url the request targets.
    pub fn url(&self) -> (r: &str)
        ensures
            r@ == self@.url,
    {
        self.url.as_str()
    }

    /// The method set on the request, if any.
    pub fn chosen_method(&self) -> (r: Option<Method>)
        ensures
            r == self@.method,
    {
        self.method
    }

    /// The request's body where it is text.
    pub fn text_body(&self) -> (r: Option<&str>)
        ensures
            match r {
                Some(t) => self@.body matches Some(Body::Text(s)) && s@ == t@,
                None => !(self@.body matches Some(Body::Text(_))),
            },
    {
        match &self.body {
            Some(Body::Text(t)) => Some(t.as_str()),
            _ => None,
        }
    }

    /// The number of header assignments made on the request.
    pub fn header_count(&self) -> (r: usize)
        ensures
            r == self@.headers.len(),
    {
        self.headers.len()
    }

    /// The value that the request will send under `name`, compared without
    /// regard to ASCII case; the last assignment wins.
    pub fn header_value(&self, name: &str) -> (r: Option<&str>)
        ensures
            match r {
                Some(v) => header_lookup(self@.headers, name@) == Some(v@),
                None => header_lookup(self@.headers, name@) is None,
            },
    {
        let ghost h = self@.headers;
        let mut i: usize = self.headers.len();
        assert(h.subrange(0, i as int) =~= h);
        while i > 0
            invariant
                i <= self.headers@.len(),
                h == self@.headers,
                h.len() == self.headers@.len(),
                header_lookup(h, name@) == header_lookup(h.subrange(0, i as int), name@),
            decreases i,
        {
            let pair = &self.headers[i - 1];
            proof {
                let s = h.subrange(0, i as int);
                assert(s.drop_last() =~= h.subrange(0, i - 1));
                assert(s.last() == pair_view(self.headers@[i - 1]));
            }
            if names_match(pair.0.as_str(), name) {
                return Some(pair.1.as_str());
            }
            i -= 1;
        }
        None
    }
}

} // verus!
