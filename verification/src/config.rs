//! The immutable CORS configuration.
//!
//! A [`CorsMiddleware`] is built once and then only read: every request is
//! decided against the same [`CorsPolicy`], so any number of concurrent
//! evaluations may share a reference to it without coordination.

use vstd::prelude::*;

verus! {

/// The origin policy, fixed at construction time.
#[derive(Debug)]
pub enum CorsPolicy {
    /// Accept exactly the origins whose canonical form appears in `allowed`.
    /// Requests without an `Origin` header are rejected.
    Whitelist { allowed: Vec<String> },
    /// Accept every origin, answering with the wildcard header value.
    /// `permit_missing_origin` decides whether a request without an
    /// `Origin` header passes through untouched or is rejected.
    AllowAny { permit_missing_origin: bool },
}

/// Whether `entries` holds a string that reads exactly `x`.
pub open spec fn spec_contains_string(entries: Seq<String>, x: Seq<char>) -> bool {
    exists|i: int| 0 <= i < entries.len() && entries[i]@ == x
}

/// Exact membership test: no prefix, suffix or case-insensitive matching.
pub fn string_list_contains(entries: &Vec<String>, x: &String) -> (r: bool)
    ensures
        r == spec_contains_string(entries@, x@),
{
    let mut i: usize = 0;
    while i < entries.len()
        invariant
            i <= entries.len(),
            forall|j: int| 0 <= j < i ==> entries@[j]@ != x@,
        decreases entries.len() - i,
    {
        if x.eq(&entries[i]) {
            return true;
        }
        i += 1;
    }
    false
}

/// The struct that holds the CORS configuration.
#[derive(Debug)]
pub struct CorsMiddleware {
    pub policy: CorsPolicy,
}

impl CorsMiddleware {
    /// Specify which origins, by canonical string form, may access the
    /// resource.
    pub fn with_whitelist(allowed_hosts: Vec<String>) -> (r: Self)
        ensures
            r.policy == (CorsPolicy::Whitelist { allowed: allowed_hosts }),
    {
        CorsMiddleware { policy: CorsPolicy::Whitelist { allowed: allowed_hosts } }
    }

    /// Allow all origins to access the resource; the allow-origin header of
    /// the response is always the wildcard `*`. Requests without an `Origin`
    /// header pass through untouched.
    pub fn with_allow_any() -> (r: Self)
        ensures
            r.policy == (CorsPolicy::AllowAny { permit_missing_origin: true }),
    {
        CorsMiddleware { policy: CorsPolicy::AllowAny { permit_missing_origin: true } }
    }

    /// Use an explicit policy, for configurations the two named
    /// constructors do not cover.
    pub fn with_policy(policy: CorsPolicy) -> (r: Self)
        ensures
            r.policy == policy,
    {
        CorsMiddleware { policy }
    }
}

} // verus!
