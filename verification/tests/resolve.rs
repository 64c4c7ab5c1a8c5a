use rust_shorten_url::resolve::{resolve_id_ok, resolve_lookup, Resolution};

#[test]
fn empty_identifier_is_rejected_before_the_store() {
    assert!(!resolve_id_ok(""));
    assert!(resolve_id_ok("abc"));
}

#[test]
fn stored_record_redirects_and_counts_a_hit() {
    let (outcome, hit) = resolve_lookup(Some(String::from("http://github.com")));
    assert_eq!(outcome, Resolution::Redirect { target_url: String::from("http://github.com") });
    assert!(hit);
}

#[test]
fn unknown_identifier_is_not_found_and_counts_no_hit() {
    let (outcome, hit) = resolve_lookup(None);
    assert_eq!(outcome, Resolution::NotFound);
    assert!(!hit);
}
