//! The dispatcher: classify, decide, then answer or delegate.
//!
//! [`CorsMiddleware::handle`] wraps one downstream handler call. The
//! handler is taken as a `FnOnce`, so the type system already rules out a
//! second invocation; the body never calls it at all for a preflight or
//! for a request the policy rejects.

use vstd::prelude::*;

use crate::config::CorsMiddleware;
use crate::decision::{evaluate, spec_evaluate, CorsDecision, Decision};
use crate::request::{classify, spec_classify, RequestClass, RequestView};
use crate::response::{
    decorate_result, preflight_response, rejection_response, spec_decorated_result,
    spec_preflight, spec_rejection, HandlerError, HttpResponse,
};

verus! {

/// Whether dispatching `req` under `mw`'s policy reaches the downstream
/// handler: it does on pass-through and on an allowed non-preflight
/// request, and never when the policy rejects or a preflight is answered.
pub open spec fn spec_will_delegate(req: RequestView, mw: CorsMiddleware) -> bool {
    match spec_evaluate(req.origin, mw.policy) {
        Decision::PassThrough => true,
        Decision::Allowed(_) => spec_classify(req) != RequestClass::Preflight,
        Decision::Rejected(_) => false,
    }
}

/// Clones a list of header values; the copy reads exactly as the
/// original, element for element.
fn clone_string_vec(v: &Vec<String>) -> (r: Vec<String>)
    ensures
        r.deep_view() == v.deep_view(),
{
    let mut r: Vec<String> = Vec::new();
    let mut i: usize = 0;
    while i < v.len()
        invariant
            i <= v.len(),
            r@.len() == i,
            forall|j: int| 0 <= j < i ==> r@[j]@ == v@[j]@,
        decreases v.len() - i,
    {
        r.push(v[i].clone());
        i += 1;
    }
    assert(r.deep_view() =~= v.deep_view());
    r
}

impl CorsMiddleware {
    /// Dispatches one request around a downstream handler.
    ///
    /// The policy decision comes first. A rejection is answered at once
    /// with the fixed 400 response and the handler is never called. An
    /// allowed preflight is answered at once with the echoing 200
    /// response, and the handler is never called. An allowed ordinary
    /// request is delegated, and whichever response the handler's result
    /// carries — success or error — comes back with the allow-origin
    /// header attached and nothing else changed. A tolerated request
    /// without an `Origin` header is delegated and comes back untouched.
    pub fn handle<F: FnOnce(&RequestView) -> Result<HttpResponse, HandlerError>>(
        &self,
        req: &RequestView,
        handler: F,
    ) -> (r: Result<HttpResponse, HandlerError>)
        requires
            spec_will_delegate(*req, *self) ==> call_requires(handler, (req,)),
        ensures
            spec_evaluate(req.origin, self.policy) is PassThrough ==> call_ensures(
                handler,
                (req,),
                r,
            ),
            spec_evaluate(req.origin, self.policy) matches Decision::Rejected(reason) ==> (
            r matches Ok(resp) && resp@ == spec_rejection(reason)),
            spec_evaluate(req.origin, self.policy) matches Decision::Allowed(h) ==> ((
            spec_classify(*req) == RequestClass::Preflight ==> (r matches Ok(resp) && resp@
                == spec_preflight(
                h,
                req.requested_method->Some_0@,
                req.requested_headers.deep_view(),
            ))) && (spec_classify(*req) != RequestClass::Preflight ==> exists|
                d: Result<HttpResponse, HandlerError>,
            |
                #[trigger] call_ensures(handler, (req,), d) && spec_decorated_result(d, h, r))),
    {
        let class = classify(req);
        let decision = evaluate(&req.origin, &self.policy);
        match decision {
            CorsDecision::PassThrough => handler(req),
            CorsDecision::Rejected(reason) => Ok(rejection_response(reason)),
            CorsDecision::Allowed(header_value) => {
                if class == RequestClass::Preflight {
                    let requested_method = match &req.requested_method {
                        Some(m) => m.clone(),
                        None => unreached(),
                    };
                    let requested_headers = match &req.requested_headers {
                        Some(hs) => Some(clone_string_vec(hs)),
                        None => None,
                    };
                    Ok(preflight_response(header_value, requested_method, requested_headers))
                } else {
                    let delegated = handler(req);
                    let r = decorate_result(delegated, header_value);
                    r
                }
            },
        }
    }
}

} // verus!
