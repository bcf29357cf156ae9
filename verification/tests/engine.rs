//! Component-level checks: canonicalization, classification and the
//! policy decision itself.

use iron_cors::decision::{evaluate, CorsDecision, RejectReason};
use iron_cors::origin::decimal_string;
use iron_cors::request::{classify, RequestClass, RequestView};
use iron_cors::{CorsPolicy, Origin};

fn origin(scheme: &str, host: &str, port: Option<u16>) -> Origin {
    Origin {
        scheme: scheme.to_string(),
        host: host.to_string(),
        port,
    }
}

fn whitelist(entries: &[&str]) -> CorsPolicy {
    CorsPolicy::Whitelist {
        allowed: entries.iter().map(|e| e.to_string()).collect(),
    }
}

#[test]
fn canonical_without_port() {
    assert_eq!(
        origin("http", "example.com", None).canonical(),
        "http://example.com"
    );
    assert_eq!(
        origin("https", "sub.example.org", None).canonical(),
        "https://sub.example.org"
    );
}

#[test]
fn canonical_with_port() {
    assert_eq!(
        origin("http", "example.org", Some(3000)).canonical(),
        "http://example.org:3000"
    );
    assert_eq!(
        origin("http", "localhost", Some(80)).canonical(),
        "http://localhost:80"
    );
    assert_eq!(
        origin("https", "h", Some(65535)).canonical(),
        "https://h:65535"
    );
    assert_eq!(origin("http", "h", Some(0)).canonical(), "http://h:0");
}

#[test]
fn canonical_preserves_case() {
    assert_eq!(
        origin("HTTP", "Example.COM", None).canonical(),
        "HTTP://Example.COM"
    );
}

#[test]
fn decimal_digits() {
    assert_eq!(decimal_string(0), "0");
    assert_eq!(decimal_string(7), "7");
    assert_eq!(decimal_string(10), "10");
    assert_eq!(decimal_string(3000), "3000");
    assert_eq!(decimal_string(65535), "65535");
}

#[test]
fn classify_no_origin() {
    let req = RequestView {
        method: "OPTIONS".to_string(),
        origin: None,
        requested_method: Some("GET".to_string()),
        requested_headers: None,
    };
    assert_eq!(classify(&req), RequestClass::NoOrigin);
}

#[test]
fn classify_preflight() {
    let req = RequestView {
        method: "OPTIONS".to_string(),
        origin: Some(origin("http", "example.org", None)),
        requested_method: Some("GET".to_string()),
        requested_headers: None,
    };
    assert_eq!(classify(&req), RequestClass::Preflight);
}

#[test]
fn classify_options_without_requested_method() {
    let req = RequestView {
        method: "OPTIONS".to_string(),
        origin: Some(origin("http", "example.org", None)),
        requested_method: None,
        requested_headers: None,
    };
    assert_eq!(classify(&req), RequestClass::Simple);
}

#[test]
fn classify_simple_get() {
    let req = RequestView {
        method: "GET".to_string(),
        origin: Some(origin("http", "example.org", None)),
        requested_method: None,
        requested_headers: None,
    };
    assert_eq!(classify(&req), RequestClass::Simple);
}

#[test]
fn evaluate_whitelist_exact_match() {
    let policy = whitelist(&["http://example.org:3000"]);
    let d = evaluate(&Some(origin("http", "example.org", Some(3000))), &policy);
    assert!(matches!(d, CorsDecision::Allowed(h) if h == "http://example.org:3000"));
}

#[test]
fn evaluate_whitelist_unlisted_origin() {
    let policy = whitelist(&["http://example.org:3000"]);
    let d = evaluate(&Some(origin("http", "forbidden.org", None)), &policy);
    assert!(matches!(
        d,
        CorsDecision::Rejected(RejectReason::OriginNotAllowed)
    ));
}

#[test]
fn evaluate_whitelist_is_port_sensitive() {
    // An entry without a port does not admit the same host with a port,
    // and vice versa.
    let no_port = whitelist(&["http://example.com"]);
    let d = evaluate(&Some(origin("http", "example.com", Some(3000))), &no_port);
    assert!(matches!(
        d,
        CorsDecision::Rejected(RejectReason::OriginNotAllowed)
    ));

    let with_port = whitelist(&["http://example.com:3000"]);
    let d = evaluate(&Some(origin("http", "example.com", None)), &with_port);
    assert!(matches!(
        d,
        CorsDecision::Rejected(RejectReason::OriginNotAllowed)
    ));
}

#[test]
fn evaluate_whitelist_no_prefix_match() {
    let policy = whitelist(&["http://example.com"]);
    let d = evaluate(&Some(origin("http", "example.com.evil.net", None)), &policy);
    assert!(matches!(
        d,
        CorsDecision::Rejected(RejectReason::OriginNotAllowed)
    ));
    let d = evaluate(&Some(origin("http", "example.co", None)), &policy);
    assert!(matches!(
        d,
        CorsDecision::Rejected(RejectReason::OriginNotAllowed)
    ));
}

#[test]
fn evaluate_empty_whitelist_rejects_all() {
    let policy = whitelist(&[]);
    let d = evaluate(&Some(origin("http", "example.org", None)), &policy);
    assert!(matches!(
        d,
        CorsDecision::Rejected(RejectReason::OriginNotAllowed)
    ));
}

#[test]
fn evaluate_whitelist_missing_origin() {
    let policy = whitelist(&["http://example.org:3000"]);
    let d = evaluate(&None, &policy);
    assert!(matches!(
        d,
        CorsDecision::Rejected(RejectReason::MissingOrigin)
    ));
}

#[test]
fn evaluate_allow_any_is_wildcard() {
    // Allow-any answers with the wildcard, never the specific origin.
    let policy = CorsPolicy::AllowAny {
        permit_missing_origin: true,
    };
    let d = evaluate(&Some(origin("http", "example.org", Some(3000))), &policy);
    assert!(matches!(d, CorsDecision::Allowed(h) if h == "*"));
}

#[test]
fn evaluate_allow_any_missing_origin() {
    let tolerant = CorsPolicy::AllowAny {
        permit_missing_origin: true,
    };
    assert!(matches!(evaluate(&None, &tolerant), CorsDecision::PassThrough));

    let strict = CorsPolicy::AllowAny {
        permit_missing_origin: false,
    };
    assert!(matches!(
        evaluate(&None, &strict),
        CorsDecision::Rejected(RejectReason::MissingOrigin)
    ));
}
