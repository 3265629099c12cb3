use redirect_scheme::service::{
    RedirectDecision, RedirectSchemeService, MOVED_PERMANENTLY, TEMPORARY_REDIRECT,
};

fn policy(
    disable: bool,
    https_to_http: bool,
    temporary: bool,
    replacements: Vec<(String, String)>,
) -> RedirectSchemeService {
    RedirectSchemeService { disable, https_to_http, temporary, replacements }
}

fn expect_redirect(d: RedirectDecision) -> (String, u16) {
    match d {
        RedirectDecision::Redirect { location, status } => (location, status),
        RedirectDecision::PassThrough => panic!("expected a redirect"),
    }
}

#[test]
fn temporary_redirect_to_https() {
    let p = policy(false, false, true, Vec::new());
    let d = p.decide("http", "example.com", "/a?b=1");
    let (location, status) = expect_redirect(d);
    assert_eq!(location, "https://example.com/a?b=1");
    assert_eq!(status, 307);
}

#[test]
fn pass_through_when_scheme_is_already_https() {
    let p = policy(false, false, true, Vec::new());
    let d = p.decide("https", "example.com", "/a");
    assert!(matches!(d, RedirectDecision::PassThrough));
}

#[test]
fn rewritten_permanent_redirect_to_http() {
    let p = policy(
        false,
        true,
        false,
        vec![("example.com".to_string(), "other.com".to_string())],
    );
    let d = p.decide("https", "example.com", "/");
    let (location, status) = expect_redirect(d);
    assert_eq!(location, "http://other.com/");
    assert_eq!(status, 301);
}

#[test]
fn disabled_policy_always_passes_through() {
    let p = policy(true, false, false, Vec::new());
    let d = p.decide("http", "example.com", "/a");
    assert!(matches!(d, RedirectDecision::PassThrough));
}

#[test]
fn pass_through_when_scheme_is_already_http() {
    let p = policy(false, true, false, Vec::new());
    let d = p.decide("http", "example.com", "/a");
    assert!(matches!(d, RedirectDecision::PassThrough));
}

#[test]
fn permanent_redirect_uses_301() {
    let p = policy(false, false, false, Vec::new());
    let d = p.decide("http", "h", "/");
    let (_, status) = expect_redirect(d);
    assert_eq!(status, MOVED_PERMANENTLY);
    assert_eq!(status, 301);
}

#[test]
fn temporary_redirect_uses_307_in_either_direction() {
    let to_https = policy(false, false, true, Vec::new());
    let (_, s1) = expect_redirect(to_https.decide("http", "h", "/"));
    assert_eq!(s1, TEMPORARY_REDIRECT);
    let to_http = policy(false, true, true, Vec::new());
    let (_, s2) = expect_redirect(to_http.decide("https", "h", "/"));
    assert_eq!(s2, 307);
}

#[test]
fn rewrite_rules_chain_over_the_constructed_url() {
    let p = policy(
        false,
        false,
        true,
        vec![("a".to_string(), "b".to_string()), ("b".to_string(), "c".to_string())],
    );
    let d = p.decide("http", "a.com", "/");
    let (location, _) = expect_redirect(d);
    assert_eq!(location, "https://c.com/");
    assert!(location.contains('c'));
    assert!(!location.contains('b'));
}

#[test]
fn decision_is_repeatable() {
    let p = policy(
        false,
        false,
        false,
        vec![("example".to_string(), "sample".to_string())],
    );
    let (l1, s1) = expect_redirect(p.decide("http", "example.com", "/x"));
    let (l2, s2) = expect_redirect(p.decide("http", "example.com", "/x"));
    assert_eq!(l1, l2);
    assert_eq!(s1, s2);
    assert_eq!(l1, "https://sample.com/x");
    let d1 = p.decide("https", "example.com", "/x");
    let d2 = p.decide("https", "example.com", "/x");
    assert!(matches!(d1, RedirectDecision::PassThrough));
    assert!(matches!(d2, RedirectDecision::PassThrough));
}

#[test]
fn any_non_canonical_scheme_is_redirected() {
    let p = policy(false, false, true, Vec::new());
    let d = p.decide("ftp", "example.com", "/f");
    let (location, status) = expect_redirect(d);
    assert_eq!(location, "https://example.com/f");
    assert_eq!(status, 307);
}

#[test]
fn rules_may_rewrite_the_scheme_part_too() {
    let p = policy(false, false, true, vec![("https".to_string(), "wss".to_string())]);
    let d = p.decide("http", "example.com", "/socket");
    let (location, _) = expect_redirect(d);
    assert_eq!(location, "wss://example.com/socket");
}

#[test]
fn empty_uri_yields_scheme_and_host_only() {
    let p = policy(false, false, true, Vec::new());
    let (location, _) = expect_redirect(p.decide("http", "example.com", ""));
    assert_eq!(location, "https://example.com");
}
