use rust_shorten_url::quota::{admission, client_key, QuotaDecision, QUOTA_WINDOW_SECONDS};

#[test]
fn window_length_is_thirty_minutes() {
    assert_eq!(QUOTA_WINDOW_SECONDS, 1800);
}

#[test]
fn first_observation_initializes_at_ceiling() {
    assert_eq!(
        admission(None, -2, 5),
        QuotaDecision::FirstRequest { set_to: 5, expire_seconds: 1800 }
    );
}

#[test]
fn exhausted_budget_is_denied_with_reset() {
    assert_eq!(admission(Some(0), 900, 5), QuotaDecision::Denied { reset_seconds: 900 });
    assert_eq!(admission(Some(-3), 60, 5), QuotaDecision::Denied { reset_seconds: 60 });
}

#[test]
fn remaining_budget_is_allowed() {
    assert_eq!(admission(Some(3), 900, 5), QuotaDecision::Allowed { remaining: 3 });
    assert_eq!(admission(Some(1), 1, 5), QuotaDecision::Allowed { remaining: 1 });
}

#[test]
fn client_keys_carry_the_ratelimit_prefix() {
    assert_eq!(client_key(Some("1.2.3.4")), "ratelimit:1.2.3.4");
    assert_eq!(client_key(None), "ratelimit:unknown");
}
