use vstd::prelude::*;
use wasm_bindgen::JsValue;
use web_sys::{Headers, ReadableStream, Response as HostResponse};
use crate::error::Error;
use crate::host;

verus! {

/// A status in the success range.
pub open spec fn ok_status(status: u16) -> bool {
    200 <= status && status <= 299
}

/// Whether a status is in the success range, 200 to 299.
pub fn status_is_ok(status: u16) -> (r: bool)
    ensures
        r == ok_status(status),
{
    200 <= status && status <= 299
}

/// The response to a [`Request`](crate::Request).
#[derive(Debug)]
pub struct Response {
    response: HostResponse,
    url: String,
    redirected: bool,
    status: u16,
    status_text: String,
}

impl Response {
    /// The browser's response object inside.
    pub closed spec fn raw(&self) -> HostResponse {
        self.response
    }

    /// The status that the browser reported for this response.
    pub closed spec fn status_code(&self) -> u16 {
        self.status
    }

    /// The url that the browser reported for this response.
    pub closed spec fn url_text(&self) -> Seq<char> {
        self.url@
    }

    /// Whether the browser reported that the request was redirected.
    pub closed spec fn was_redirected(&self) -> bool {
        self.redirected
    }

    /// The status text that the browser reported for this response.
    pub closed spec fn status_message(&self) -> Seq<char> {
        self.status_text@
    }

    /// The outcome of a fetch: the browser's error is passed on unchanged, and
    /// a value that is not a response object is refused.
    pub fn from_fetch(outcome: Result<JsValue, JsValue>) -> (r: Result<Response, Error>)
        ensures
            outcome is Err ==> r == Err::<Response, Error>(Error::Host(outcome->Err_0)),
            outcome is Ok ==> (r is Ok || r == Err::<Response, Error>(Error::UnexpectedType)),
            r is Ok ==> outcome is Ok,
    {
        match outcome {
            Err(e) => Err(Error::Host(e)),
            Ok(v) => Self::from_downcast(host::into_response(v)),
        }
    }

    /// Wraps a value that was checked to be a browser response, reading the
    /// parts of it that never change (url, redirection, status and status
    /// text) once; where the check failed, the error is `UnexpectedType`.
    pub fn from_downcast(checked: Result<HostResponse, JsValue>) -> (r: Result<Response, Error>)
        ensures
            match checked {
                Ok(raw) => r is Ok && r->Ok_0.raw() == raw,
                Err(_) => r == Err::<Response, Error>(Error::UnexpectedType),
            },
    {
        match checked {
            Ok(raw) => {
                let url = host::response_url(&raw);
                let redirected = host::response_redirected(&raw);
                let status = host::response_status(&raw);
                let status_text = host::response_status_text(&raw);
                Ok(Response { response: raw, url, redirected, status, status_text })
            },
            Err(_) => Err(Error::UnexpectedType),
        }
    }

    /// Gets the url.
    pub fn url(&self) -> (r: String)
        ensures
            r@ == self.url_text(),
    {
        self.url.clone()
    }

    /// Whether the request was redirected.
    pub fn redirected(&self) -> (r: bool)
        ensures
            r == self.was_redirected(),
    {
        self.redirected
    }

    /// Gets the status.
    pub fn status(&self) -> (r: u16)
        ensures
            r == self.status_code(),
    {
        self.status
    }

    /// Whether the response was `ok`: its status lies in 200 to 299.
    pub fn ok(&self) -> (r: bool)
        ensures
            r == ok_status(self.status_code()),
    {
        status_is_ok(self.status)
    }

    /// Gets the status text.
    pub fn status_text(&self) -> (r: String)
        ensures
            r@ == self.status_message(),
    {
        self.status_text.clone()
    }

    /// Gets the headers.
    pub fn headers(&self) -> Headers {
        host::response_headers(&self.response)
    }

    /// Whether the body was used.
    pub fn body_used(&self) -> bool {
        host::response_body_used(&self.response)
    }

    /// Gets the body.
    pub fn body(&self) -> Option<ReadableStream> {
        host::response_body(&self.response)
    }

    /// Gets the raw browser response object.
    pub fn as_raw(&self) -> (r: &HostResponse)
        ensures
            *r == self.raw(),
    {
        &self.response
    }
}

} // verus!
