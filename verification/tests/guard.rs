use rust_shorten_url::guard::{enforce_http, remove_domain_error, url_is_well_formed};

#[test]
fn enforce_http_prefixes_bare_domains() {
    assert_eq!(enforce_http("example.com"), "http://example.com");
    assert_eq!(enforce_http("www.example.com/a/b"), "http://www.example.com/a/b");
    assert_eq!(enforce_http(""), "http://");
}

#[test]
fn enforce_http_keeps_existing_schemes() {
    assert_eq!(enforce_http("http://example.com"), "http://example.com");
    assert_eq!(enforce_http("https://example.com"), "https://example.com");
    // Anything that merely starts with the four letters is left alone.
    assert_eq!(enforce_http("httpfoo"), "httpfoo");
}

#[test]
fn guard_rejects_own_domain() {
    // false means the URL points back at the service's own domain.
    assert!(!remove_domain_error("http://mydomain.com/abc", "mydomain.com"));
    assert!(!remove_domain_error("https://mydomain.com", "mydomain.com"));
    assert!(!remove_domain_error("mydomain.com", "mydomain.com"));
    assert!(!remove_domain_error("mydomain.com/path", "mydomain.com"));
}

#[test]
fn guard_compares_case_insensitively_and_strips_www() {
    assert!(!remove_domain_error("HTTPS://WWW.MyDomain.COM/path", "mydomain.com"));
    assert!(!remove_domain_error("www.mydomain.com", "mydomain.com"));
}

#[test]
fn guard_allows_other_hosts() {
    assert!(remove_domain_error("http://other.com/x", "mydomain.com"));
    assert!(remove_domain_error("http://sub.mydomain.com", "mydomain.com"));
    assert!(remove_domain_error("http://mydomain.com.evil.net", "mydomain.com"));
}

#[test]
fn url_validity_follows_the_parser() {
    assert!(url_is_well_formed("http://example.com"));
    assert!(url_is_well_formed("https://example.com/a?b=c"));
    assert!(!url_is_well_formed("not a url"));
    assert!(!url_is_well_formed(""));
}
