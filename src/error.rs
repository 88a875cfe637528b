use vstd::prelude::*;
use wasm_bindgen::JsValue;

verus! {

/// What can go wrong when a request is sent or a response body is read.
#[derive(Debug)]
pub enum Error {
    /// The browser refused or failed the operation: a malformed request, a
    /// rejected header, a network or CORS failure, an abort. The browser's
    /// own error value is passed on as it came.
    Host(JsValue),
    /// A value that the browser handed back was not of the expected kind.
    UnexpectedType,
    /// A decoded JSON body did not have the shape of the requested type.
    Deserialize(String),
}

} // verus!
