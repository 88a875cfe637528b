//! A builder-style front for the browser's fetch API.
//!
//! The request side keeps its configuration as plain values, so what a chain
//! of builder calls produces is stated and proved; the host objects are built
//! from it only when the request is handed to the browser. The response side
//! wraps the browser's response object.

pub mod error;
pub mod headers;
mod host;
pub mod method;
pub mod outgoing;
pub mod request;
pub mod response;

pub use error::Error;
pub use method::Method;
pub use request::{Body, Request, RequestModel};
pub use response::Response;
pub use web_sys::{
    AbortSignal, Headers, ObserverCallback, ReadableStream, ReferrerPolicy, RequestCache,
    RequestCredentials, RequestMode, RequestRedirect,
};
