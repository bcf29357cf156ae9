//! The read-only projection of an inbound request, and its classification.

use vstd::prelude::*;

use crate::origin::Origin;

verus! {

/// What the engine reads of an inbound request.
///
/// The transport fills this in from the request line and the `Origin`,
/// `Access-Control-Request-Method` and `Access-Control-Request-Headers`
/// headers; nothing else of the request is consulted.
#[derive(Debug)]
pub struct RequestView {
    /// The request method, e.g. `"GET"` or `"OPTIONS"`.
    pub method: String,
    /// The parsed `Origin` header, when present.
    pub origin: Option<Origin>,
    /// The `Access-Control-Request-Method` header value, when present.
    pub requested_method: Option<String>,
    /// The `Access-Control-Request-Headers` values in header order, when
    /// present.
    pub requested_headers: Option<Vec<String>>,
}

/// The three request categories the dispatcher distinguishes.
#[derive(Clone, Copy, PartialEq, Eq, Structural, Debug)]
pub enum RequestClass {
    /// No `Origin` header: not a CORS request.
    NoOrigin,
    /// An `OPTIONS` request carrying `Access-Control-Request-Method`.
    Preflight,
    /// Any other request carrying an `Origin` header. An `OPTIONS` request
    /// without `Access-Control-Request-Method` falls here: it is not a
    /// preflight.
    Simple,
}

/// The category of a request.
pub open spec fn spec_classify(req: RequestView) -> RequestClass {
    if req.origin is None {
        RequestClass::NoOrigin
    } else if req.method@ == "OPTIONS"@ && req.requested_method is Some {
        RequestClass::Preflight
    } else {
        RequestClass::Simple
    }
}

/// Categorizes a request as [`spec_classify`] does.
pub fn classify(req: &RequestView) -> (c: RequestClass)
    ensures
        c == spec_classify(*req),
{
    if req.origin.is_none() {
        return RequestClass::NoOrigin;
    }
    let options = String::from_str("OPTIONS");
    if req.method.eq(&options) && req.requested_method.is_some() {
        RequestClass::Preflight
    } else {
        RequestClass::Simple
    }
}

} // verus!
