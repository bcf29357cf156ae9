//! The policy engine: a pure decision from origin and policy.

use vstd::prelude::*;

use crate::config::{spec_contains_string, string_list_contains, CorsPolicy};
use crate::origin::{spec_canonical, Origin};

verus! {

/// Why a request was refused.
#[derive(Clone, Copy, PartialEq, Eq, Structural, Debug)]
pub enum RejectReason {
    /// The request carried no `Origin` header and the policy demands one.
    MissingOrigin,
    /// The origin's canonical form is not in the whitelist.
    OriginNotAllowed,
}

/// The decision, at the specification level: the allow-origin header value
/// of an allowed request is a character sequence.
pub ghost enum Decision {
    /// Hand the request to the downstream handler and add nothing.
    PassThrough,
    /// The request is permitted; the payload is the allow-origin header
    /// value — the matched origin's canonical form, or `*`.
    Allowed(Seq<char>),
    /// The request is refused.
    Rejected(RejectReason),
}

/// The decision for one request.
#[derive(Debug)]
pub enum CorsDecision {
    /// Hand the request to the downstream handler and add nothing.
    PassThrough,
    /// The request is permitted; the payload is the allow-origin header
    /// value — the matched origin's canonical form, or `*`.
    Allowed(String),
    /// The request is refused.
    Rejected(RejectReason),
}

impl View for CorsDecision {
    type V = Decision;

    open spec fn view(&self) -> Decision {
        match self {
            CorsDecision::PassThrough => Decision::PassThrough,
            CorsDecision::Allowed(h) => Decision::Allowed(h@),
            CorsDecision::Rejected(reason) => Decision::Rejected(*reason),
        }
    }
}

/// The decision as a pure function of the request's origin and the policy:
/// - whitelist, no origin: rejected for the missing header;
/// - whitelist, origin present: allowed with the canonical origin echoed
///   back iff the canonical form is listed, else rejected;
/// - allow-any, no origin: pass through when tolerated, else rejected;
/// - allow-any, origin present: allowed with the wildcard `*`, never the
///   specific origin.
pub open spec fn spec_evaluate(origin: Option<Origin>, policy: CorsPolicy) -> Decision {
    match policy {
        CorsPolicy::Whitelist { allowed } => match origin {
            None => Decision::Rejected(RejectReason::MissingOrigin),
            Some(o) => if spec_contains_string(allowed@, spec_canonical(o)) {
                Decision::Allowed(spec_canonical(o))
            } else {
                Decision::Rejected(RejectReason::OriginNotAllowed)
            },
        },
        CorsPolicy::AllowAny { permit_missing_origin } => match origin {
            None => if permit_missing_origin {
                Decision::PassThrough
            } else {
                Decision::Rejected(RejectReason::MissingOrigin)
            },
            Some(_) => Decision::Allowed("*"@),
        },
    }
}

/// Decides a request's origin against the policy, as [`spec_evaluate`]
/// does.
pub fn evaluate(origin: &Option<Origin>, policy: &CorsPolicy) -> (d: CorsDecision)
    ensures
        d@ == spec_evaluate(*origin, *policy),
{
    match policy {
        CorsPolicy::Whitelist { allowed } => match origin {
            None => CorsDecision::Rejected(RejectReason::MissingOrigin),
            Some(o) => {
                let canonical = o.canonical();
                if string_list_contains(allowed, &canonical) {
                    CorsDecision::Allowed(canonical)
                } else {
                    CorsDecision::Rejected(RejectReason::OriginNotAllowed)
                }
            },
        },
        CorsPolicy::AllowAny { permit_missing_origin } => match origin {
            None => if *permit_missing_origin {
                CorsDecision::PassThrough
            } else {
                CorsDecision::Rejected(RejectReason::MissingOrigin)
            },
            Some(_) => CorsDecision::Allowed(String::from_str("*")),
        },
    }
}

/// A whitelisted origin is allowed, and the header value echoed back is
/// exactly the listed canonical form.
pub proof fn lemma_whitelist_exact_match(o: Origin, allowed: Vec<String>)
    requires
        spec_contains_string(allowed@, spec_canonical(o)),
    ensures
        spec_evaluate(Some(o), CorsPolicy::Whitelist { allowed })
            == Decision::Allowed(spec_canonical(o)),
{
}

/// An origin whose canonical form is absent from the whitelist is
/// rejected, however similar its scheme or host may look: matching is
/// exact, with no prefix or partial matching.
pub proof fn lemma_whitelist_rejects_unlisted(o: Origin, allowed: Vec<String>)
    requires
        !spec_contains_string(allowed@, spec_canonical(o)),
    ensures
        spec_evaluate(Some(o), CorsPolicy::Whitelist { allowed })
            == Decision::Rejected(RejectReason::OriginNotAllowed),
{
}

/// In allow-any mode every request carrying an origin is allowed with the
/// wildcard header value — never the specific origin string.
pub proof fn lemma_allow_any_wildcard(o: Origin, permit_missing_origin: bool)
    ensures
        spec_evaluate(Some(o), CorsPolicy::AllowAny { permit_missing_origin })
            == Decision::Allowed("*"@),
{
}

/// A request without an `Origin` header is rejected for the missing
/// header under a whitelist and under strict allow-any, and passes
/// through untouched only under tolerant allow-any.
pub proof fn lemma_missing_origin(policy: CorsPolicy)
    ensures
        policy is Whitelist ==> spec_evaluate(None, policy)
            == Decision::Rejected(RejectReason::MissingOrigin),
        policy matches CorsPolicy::AllowAny { permit_missing_origin } ==> spec_evaluate(
            None,
            policy,
        ) == (if permit_missing_origin {
            Decision::PassThrough
        } else {
            Decision::Rejected(RejectReason::MissingOrigin)
        }),
{
}

} // verus!
