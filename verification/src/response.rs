//! Responses as the engine sees them, and their decoration.
//!
//! The engine never inspects a downstream body or status; it only builds
//! its own preflight and rejection responses and attaches the allow-origin
//! header to whatever the downstream handler produced.

use vstd::prelude::*;

use crate::decision::RejectReason;

verus! {

/// What a response looks like to the specification: the status line, the
/// body, the three CORS response headers, and every other header untouched
/// by this crate.
#[verifier::ext_equal]
pub ghost struct ResponseModel {
    pub status: u16,
    pub body: Seq<char>,
    /// `Access-Control-Allow-Origin`.
    pub allow_origin: Option<Seq<char>>,
    /// `Access-Control-Allow-Methods`, in header order.
    pub allow_methods: Option<Seq<Seq<char>>>,
    /// `Access-Control-Allow-Headers`, in header order.
    pub allow_headers: Option<Seq<Seq<char>>>,
    /// All remaining headers, as name / value pairs.
    pub other_headers: Seq<(Seq<char>, Seq<char>)>,
}

/// A response: a status, a body, and headers. The CORS response headers
/// are carried as their own fields so that contracts can speak of them;
/// `other_headers` holds whatever else the downstream handler set.
#[derive(Debug)]
pub struct HttpResponse {
    pub status: u16,
    pub body: String,
    /// `Access-Control-Allow-Origin`.
    pub allow_origin: Option<String>,
    /// `Access-Control-Allow-Methods`, in header order.
    pub allow_methods: Option<Vec<String>>,
    /// `Access-Control-Allow-Headers`, in header order.
    pub allow_headers: Option<Vec<String>>,
    /// All remaining headers, as name / value pairs.
    pub other_headers: Vec<(String, String)>,
}

impl View for HttpResponse {
    type V = ResponseModel;

    open spec fn view(&self) -> ResponseModel {
        ResponseModel {
            status: self.status,
            body: self.body@,
            allow_origin: self.allow_origin.deep_view(),
            allow_methods: self.allow_methods.deep_view(),
            allow_headers: self.allow_headers.deep_view(),
            other_headers: self.other_headers.deep_view(),
        }
    }
}

/// An error raised by the downstream handler, carrying the response it
/// wants sent. The engine forwards it unchanged apart from decoration.
#[derive(Debug)]
pub struct HandlerError {
    pub response: HttpResponse,
}

/// The fixed rejection response for a policy refusal: status 400, a fixed
/// plaintext body naming the reason, and no headers at all.
pub open spec fn spec_rejection(reason: RejectReason) -> ResponseModel {
    ResponseModel {
        status: 400,
        body: match reason {
            RejectReason::MissingOrigin => "Invalid CORS request: Origin header missing"@,
            RejectReason::OriginNotAllowed => "Invalid CORS request: Origin not allowed"@,
        },
        allow_origin: None,
        allow_methods: None,
        allow_headers: None,
        other_headers: Seq::empty(),
    }
}

/// Builds the rejection response for `reason`.
pub fn rejection_response(reason: RejectReason) -> (r: HttpResponse)
    ensures
        r@ == spec_rejection(reason),
{
    let body = match reason {
        RejectReason::MissingOrigin => String::from_str("Invalid CORS request: Origin header missing"),
        RejectReason::OriginNotAllowed => String::from_str("Invalid CORS request: Origin not allowed"),
    };
    let r = HttpResponse {
        status: 400,
        body,
        allow_origin: None,
        allow_methods: None,
        allow_headers: None,
        other_headers: Vec::new(),
    };
    assert(r@ =~~= spec_rejection(reason));
    r
}

/// The response to an allowed preflight: status 200, empty body, the
/// decision's header value as allow-origin, exactly the requested method
/// as the single allowed method, and — when the request named headers —
/// exactly that sequence as the allowed headers.
pub open spec fn spec_preflight(
    header_value: Seq<char>,
    requested_method: Seq<char>,
    requested_headers: Option<Seq<Seq<char>>>,
) -> ResponseModel {
    ResponseModel {
        status: 200,
        body: Seq::empty(),
        allow_origin: Some(header_value),
        allow_methods: Some(seq![requested_method]),
        allow_headers: requested_headers,
        other_headers: Seq::empty(),
    }
}

/// Builds the response to an allowed preflight. The requested method and
/// header names are echoed verbatim: no validation, no reordering, no
/// deduplication, no case folding.
pub fn preflight_response(
    header_value: String,
    requested_method: String,
    requested_headers: Option<Vec<String>>,
) -> (r: HttpResponse)
    ensures
        r@ == spec_preflight(header_value@, requested_method@, requested_headers.deep_view()),
{
    let ghost model = spec_preflight(
        header_value@,
        requested_method@,
        requested_headers.deep_view(),
    );
    let mut methods: Vec<String> = Vec::new();
    methods.push(requested_method);
    let r = HttpResponse {
        status: 200,
        body: String::new(),
        allow_origin: Some(header_value),
        allow_methods: Some(methods),
        allow_headers: requested_headers,
        other_headers: Vec::new(),
    };
    assert(r@.allow_methods =~~= model.allow_methods);
    assert(r@ =~~= model);
    r
}

/// Decoration: the same response with the allow-origin header set to
/// `header_value`. Nothing else — status, body, the other two CORS
/// headers, and every remaining header — changes.
pub open spec fn spec_decorate(m: ResponseModel, header_value: Seq<char>) -> ResponseModel {
    ResponseModel { allow_origin: Some(header_value), ..m }
}

/// Attaches the allow-origin header to a response.
pub fn decorate_response(resp: HttpResponse, header_value: String) -> (r: HttpResponse)
    ensures
        r@ == spec_decorate(resp@, header_value@),
{
    let r = HttpResponse { allow_origin: Some(header_value), ..resp };
    assert(r@ =~~= spec_decorate(resp@, header_value@));
    r
}

/// Relates a downstream result to its decorated form: success stays
/// success and error stays error, with the embedded response decorated
/// and nothing else altered.
pub open spec fn spec_decorated_result(
    d: Result<HttpResponse, HandlerError>,
    header_value: Seq<char>,
    r: Result<HttpResponse, HandlerError>,
) -> bool {
    match (d, r) {
        (Ok(a), Ok(b)) => b@ == spec_decorate(a@, header_value),
        (Err(a), Err(b)) => b.response@ == spec_decorate(a.response@, header_value),
        _ => false,
    }
}

/// Attaches the allow-origin header to whichever response a downstream
/// result carries, success or error, and propagates it otherwise
/// unchanged.
pub fn decorate_result(
    d: Result<HttpResponse, HandlerError>,
    header_value: String,
) -> (r: Result<HttpResponse, HandlerError>)
    ensures
        spec_decorated_result(d, header_value@, r),
{
    match d {
        Ok(resp) => Ok(decorate_response(resp, header_value)),
        Err(e) => Err(HandlerError { response: decorate_response(e.response, header_value) }),
    }
}

/// Preflight echo: an allowed preflight answers with exactly the requested
/// header sequence — order kept, nothing dropped, nothing added — and with
/// the requested method as the single allowed method.
pub proof fn lemma_preflight_echo(
    header_value: Seq<char>,
    requested_method: Seq<char>,
    requested_headers: Seq<Seq<char>>,
)
    ensures
        spec_preflight(header_value, requested_method, Some(requested_headers)).allow_headers
            == Some(requested_headers),
        spec_preflight(header_value, requested_method, Some(requested_headers)).allow_methods
            == Some(seq![requested_method]),
{
}

/// Decoration parity: decorating touches the allow-origin header and
/// nothing else, so a downstream error's embedded status and body — and a
/// downstream success's — survive exactly.
pub proof fn lemma_decorate_preserves(m: ResponseModel, header_value: Seq<char>)
    ensures
        spec_decorate(m, header_value).status == m.status,
        spec_decorate(m, header_value).body == m.body,
        spec_decorate(m, header_value).allow_methods == m.allow_methods,
        spec_decorate(m, header_value).allow_headers == m.allow_headers,
        spec_decorate(m, header_value).other_headers == m.other_headers,
        spec_decorate(m, header_value).allow_origin == Some(header_value),
{
}

/// Error-path parity: a decorated error still carries its own response,
/// with the original status and body and the allow-origin header added.
pub proof fn lemma_error_path_parity(a: HandlerError, b: HandlerError, header_value: Seq<char>)
    requires
        spec_decorated_result(Err(a), header_value, Err(b)),
    ensures
        b.response@.status == a.response@.status,
        b.response@.body == a.response@.body,
        b.response@.other_headers == a.response@.other_headers,
        b.response@.allow_origin == Some(header_value),
{
}

} // verus!
