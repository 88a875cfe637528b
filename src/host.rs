//! The browser's types as this library sees them, and the calls it makes
//! into the browser's request and response objects.
use vstd::prelude::*;
use wasm_bindgen::JsCast;
use wasm_bindgen::JsValue;
use crate::outgoing::{empty_init, BodyModel, BuiltRequest, HeaderSet, HostInit, InitModel};
use web_sys::{
    AbortSignal, Headers, ObserverCallback, ReadableStream, ReferrerPolicy, RequestCache, RequestCredentials,
    Request as HostRequest, RequestInit, RequestMode, RequestRedirect, Response as HostResponse,
};

verus! {

#[verifier::external_type_specification]
#[verifier::external_body]
pub struct ExJsValue(JsValue);

#[verifier::external_type_specification]
#[verifier::external_body]
pub struct ExRequestInit(RequestInit);

#[verifier::external_type_specification]
#[verifier::external_body]
pub struct ExHeaders(Headers);

#[verifier::external_type_specification]
#[verifier::external_body]
pub struct ExHostRequest(HostRequest);

#[verifier::external_type_specification]
#[verifier::external_body]
pub struct ExHostResponse(HostResponse);

#[verifier::external_type_specification]
#[verifier::external_body]
pub struct ExReadableStream(ReadableStream);

#[verifier::external_type_specification]
#[verifier::external_body]
pub struct ExAbortSignal(AbortSignal);

#[verifier::external_type_specification]
#[verifier::external_body]
pub struct ExObserverCallback(ObserverCallback);

#[verifier::external_type_specification]
#[verifier::external_body]
pub struct ExRequestCache(RequestCache);

#[verifier::external_type_specification]
#[verifier::external_body]
pub struct ExRequestCredentials(RequestCredentials);

#[verifier::external_type_specification]
#[verifier::external_body]
pub struct ExRequestMode(RequestMode);

#[verifier::external_type_specification]
#[verifier::external_body]
pub struct ExRequestRedirect(RequestRedirect);

#[verifier::external_type_specification]
#[verifier::external_body]
pub struct ExReferrerPolicy(ReferrerPolicy);

/// Relies on `web_sys::RequestInit::new`: an empty options object.
#[verifier::external_body]
pub(crate) fn new_init() -> (r: HostInit)
    ensures
        r.view_model() == empty_init(),
{
    HostInit { init: RequestInit::new(), model: Ghost(empty_init()) }
}

/// Relies on `web_sys::RequestInit::set_method`: sets the method field.
#[verifier::external_body]
pub(crate) fn init_set_method(init: &mut HostInit, method: &str)
    ensures
        final(init).view_model() == (InitModel { method: Some(method@), ..old(init).view_model() }),
{
    init.init.set_method(method)
}

/// Relies on `web_sys::RequestInit::set_body_opt_str`: sets the body field
/// to a string.
#[verifier::external_body]
pub(crate) fn init_set_text_body(init: &mut HostInit, text: &str)
    ensures
        final(init).view_model() == (InitModel {
            body: Some(BodyModel::Text(text@)),
            ..old(init).view_model()
        }),
{
    init.init.set_body_opt_str(Some(text))
}

/// Relies on `web_sys::RequestInit::set_body`: sets the body field.
#[verifier::external_body]
pub(crate) fn init_set_body(init: &mut HostInit, body: &JsValue)
    ensures
        final(init).view_model() == (InitModel {
            body: Some(BodyModel::Value(*body)),
            ..old(init).view_model()
        }),
{
    init.init.set_body(body)
}

/// Relies on `web_sys::RequestInit::set_cache`: sets the cache field.
#[verifier::external_body]
pub(crate) fn init_set_cache(init: &mut HostInit, cache: RequestCache)
    ensures
        final(init).view_model() == (InitModel { cache: Some(cache), ..old(init).view_model() }),
{
    init.init.set_cache(cache)
}

/// Relies on `web_sys::RequestInit::set_credentials`: sets the credentials
/// field.
#[verifier::external_body]
pub(crate) fn init_set_credentials(init: &mut HostInit, credentials: RequestCredentials)
    ensures
        final(init).view_model() == (InitModel {
            credentials: Some(credentials),
            ..old(init).view_model()
        }),
{
    init.init.set_credentials(credentials)
}

/// Relies on `web_sys::RequestInit::set_mode`: sets the mode field.
#[verifier::external_body]
pub(crate) fn init_set_mode(init: &mut HostInit, mode: RequestMode)
    ensures
        final(init).view_model() == (InitModel { mode: Some(mode), ..old(init).view_model() }),
{
    init.init.set_mode(mode)
}

/// Relies on `web_sys::RequestInit::set_redirect`: sets the redirect field.
#[verifier::external_body]
pub(crate) fn init_set_redirect(init: &mut HostInit, redirect: RequestRedirect)
    ensures
        final(init).view_model() == (InitModel {
            redirect: Some(redirect),
            ..old(init).view_model()
        }),
{
    init.init.set_redirect(redirect)
}

/// Relies on `web_sys::RequestInit::set_integrity`: sets the integrity field.
#[verifier::external_body]
pub(crate) fn init_set_integrity(init: &mut HostInit, integrity: &str)
    ensures
        final(init).view_model() == (InitModel {
            integrity: Some(integrity@),
            ..old(init).view_model()
        }),
{
    init.init.set_integrity(integrity)
}

/// Relies on `web_sys::RequestInit::set_referrer`: sets the referrer field.
#[verifier::external_body]
pub(crate) fn init_set_referrer(init: &mut HostInit, referrer: &str)
    ensures
        final(init).view_model() == (InitModel {
            referrer: Some(referrer@),
            ..old(init).view_model()
        }),
{
    init.init.set_referrer(referrer)
}

/// Relies on `web_sys::RequestInit::set_referrer_policy`: sets the referrer
/// policy field.
#[verifier::external_body]
pub(crate) fn init_set_referrer_policy(init: &mut HostInit, policy: ReferrerPolicy)
    ensures
        final(init).view_model() == (InitModel {
            referrer_policy: Some(policy),
            ..old(init).view_model()
        }),
{
    init.init.set_referrer_policy(policy)
}

/// Relies on `web_sys::RequestInit::set_signal`: sets the signal field.
#[verifier::external_body]
pub(crate) fn init_set_signal(init: &mut HostInit, signal: &AbortSignal)
    ensures
        final(init).view_model() == (InitModel {
            signal: Some(*signal),
            ..old(init).view_model()
        }),
{
    init.init.set_signal(Some(signal))
}

/// Relies on `web_sys::RequestInit::set_observe`: sets the observe field.
#[verifier::external_body]
pub(crate) fn init_set_observe(init: &mut HostInit, observe: &ObserverCallback)
    ensures
        final(init).view_model() == (InitModel {
            observe: Some(*observe),
            ..old(init).view_model()
        }),
{
    init.init.set_observe(observe)
}

/// Relies on `web_sys::RequestInit::set_headers_headers`: attaches a header
/// collection.
#[verifier::external_body]
pub(crate) fn init_set_headers(init: &mut HostInit, headers: &HeaderSet)
    ensures
        final(init).view_model() == (InitModel {
            headers: Some(headers.assignments()),
            ..old(init).view_model()
        }),
{
    init.init.set_headers_headers(&headers.headers)
}

/// Relies on `web_sys::Headers::new`: an empty header collection, or the
/// browser's error.
#[verifier::external_body]
pub(crate) fn new_headers() -> (r: Result<HeaderSet, JsValue>)
    ensures
        r is Ok ==> r->Ok_0.assignments() == Seq::<(Seq<char>, Seq<char>)>::empty(),
{
    match Headers::new() {
        Ok(headers) => Ok(HeaderSet { headers, assigned: Ghost(Seq::empty()) }),
        Err(e) => Err(e),
    }
}

/// Relies on `web_sys::Headers::set`: assigns the value to the name, or the
/// browser's error where it rejects the name or the value.
#[verifier::external_body]
pub(crate) fn headers_set(headers: &mut HeaderSet, name: &str, value: &str) -> (r: Result<(), JsValue>)
    ensures
        r is Ok ==> final(headers).assignments() == old(headers).assignments().push((name@, value@)),
{
    headers.headers.set(name, value)
}

/// Relies on `web_sys::Request::new_with_str_and_init`: a request built from
/// the url and the options, or the browser's error where it rejects them.
#[verifier::external_body]
pub(crate) fn new_host_request(url: &str, init: &HostInit) -> (r: Result<BuiltRequest, JsValue>)
    ensures
        r is Ok ==> r->Ok_0.source_url() == url@ && r->Ok_0.source_options() == init.view_model(),
{
    match HostRequest::new_with_str_and_init(url, &init.init) {
        Ok(request) => Ok(BuiltRequest { request, url: Ghost(url@), options: Ghost(init.model@) }),
        Err(e) => Err(e),
    }
}

/// Relies on the derived `Clone` of `web_sys::AbortSignal`: a second handle
/// to the same signal.
#[verifier::external_body]
pub(crate) fn share_signal(signal: &AbortSignal) -> (r: AbortSignal)
    ensures
        r == *signal,
{
    signal.clone()
}

/// Relies on the derived `Clone` of `web_sys::ObserverCallback`: a second
/// handle to the same callback.
#[verifier::external_body]
pub(crate) fn share_observer(observe: &ObserverCallback) -> (r: ObserverCallback)
    ensures
        r == *observe,
{
    observe.clone()
}

/// Relies on `wasm_bindgen::JsCast::dyn_into`: the value as a browser
/// response where it is one, else the value handed back.
#[verifier::external_body]
pub(crate) fn into_response(value: JsValue) -> (r: Result<HostResponse, JsValue>)
    ensures
        r is Err ==> r->Err_0 == value,
{
    value.dyn_into::<HostResponse>()
}

/// Relies on `web_sys::Response::status`.
#[verifier::external_body]
pub(crate) fn response_status(response: &HostResponse) -> u16 {
    response.status()
}

/// Relies on `web_sys::Response::url`.
#[verifier::external_body]
pub(crate) fn response_url(response: &HostResponse) -> String {
    response.url()
}

/// Relies on `web_sys::Response::redirected`.
#[verifier::external_body]
pub(crate) fn response_redirected(response: &HostResponse) -> bool {
    response.redirected()
}

/// Relies on `web_sys::Response::status_text`.
#[verifier::external_body]
pub(crate) fn response_status_text(response: &HostResponse) -> String {
    response.status_text()
}

/// Relies on `web_sys::Response::headers`.
#[verifier::external_body]
pub(crate) fn response_headers(response: &HostResponse) -> Headers {
    response.headers()
}

/// Relies on `web_sys::Response::body_used`.
#[verifier::external_body]
pub(crate) fn response_body_used(response: &HostResponse) -> bool {
    response.body_used()
}

/// Relies on `web_sys::Response::body`.
#[verifier::external_body]
pub(crate) fn response_body(response: &HostResponse) -> Option<ReadableStream> {
    response.body()
}

} // verus!
