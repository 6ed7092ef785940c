use vstd::prelude::*;

verus! {

/// JavaScript value carried through unchanged (an error raised by the browser).
#[verifier::external_type_specification]
#[verifier::external_body]
pub struct ExJsValue(web_sys::wasm_bindgen::JsValue);

/// Errors raised while painting overlays.
#[derive(Debug)]
pub enum Error {
    /// The browser window could not be reached.
    UnableToRetrieveWindow,
    /// The browser document could not be reached.
    UnableToRetrieveDocument,
    /// A 2D canvas context could not be created.
    UnableToRetrieveCanvasContext,
    /// A browser object could not be created or found; the text says which.
    UnableToRetrieveElementById(String),
    /// The browser rejected a call.
    JsError(web_sys::wasm_bindgen::JsValue),
}

impl From<web_sys::wasm_bindgen::JsValue> for Error {
    fn from(value: web_sys::wasm_bindgen::JsValue) -> (r: Self) {
        Error::JsError(value)
    }
}

impl vstd::std_specs::convert::FromSpecImpl<web_sys::wasm_bindgen::JsValue> for Error {
    open spec fn obeys_from_spec() -> bool {
        true
    }

    open spec fn from_spec(v: web_sys::wasm_bindgen::JsValue) -> Self {
        Error::JsError(v)
    }
}

/// Builds the error used for failed browser object creation.
pub fn make_error(message: String) -> (r: Error)
    ensures
        r matches Error::UnableToRetrieveElementById(m) && m@ == message@,
{
    Error::UnableToRetrieveElementById(message)
}

} // verus!
