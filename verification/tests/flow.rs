//! Scenario tests driving the shorten flow against a small in-memory stand-in
//! for the backing key-value store.  The stand-in honors the same primitives
//! the flow asks for: read with expiry, create with expiry, set-if-absent,
//! and decrement.  Passive expiry is simulated by dropping a key.

use std::collections::HashMap;

use rust_shorten_url::codec::base62_decode;
use rust_shorten_url::resolve::{resolve_lookup, Resolution};
use rust_shorten_url::settings::ApplicationSettings;
use rust_shorten_url::shorten::{
    expiry_seconds, start_shorten, step, Request, Response, ShortenError, ShortenFlow, Step,
    StoreAction, StoreEvent,
};

struct FakeStore {
    values: HashMap<String, String>,
    ttls: HashMap<String, i64>,
}

impl FakeStore {
    fn new() -> Self {
        FakeStore { values: HashMap::new(), ttls: HashMap::new() }
    }

    fn expire(&mut self, key: &str) {
        self.values.remove(key);
        self.ttls.remove(key);
    }

    fn answer(&mut self, action: StoreAction) -> StoreEvent {
        match action {
            StoreAction::ReadQuota { key } => {
                let remaining = self.values.get(&key).map(|v| v.parse::<i32>().unwrap_or(0));
                let ttl_seconds = *self.ttls.get(&key).unwrap_or(&-2);
                StoreEvent::QuotaState { remaining, ttl_seconds }
            }
            StoreAction::InitQuota { key, value, expire_seconds } => {
                self.values.insert(key.clone(), value.to_string());
                self.ttls.insert(key, expire_seconds as i64);
                StoreEvent::QuotaReady
            }
            StoreAction::PutIfAbsent { id, target_url, expire_seconds } => {
                if self.values.contains_key(&id) {
                    StoreEvent::PutDone { stored: false }
                } else {
                    self.values.insert(id.clone(), target_url);
                    self.ttls.insert(id, expire_seconds as i64);
                    StoreEvent::PutDone { stored: true }
                }
            }
            StoreAction::ConsumeQuota { key } => {
                let v = self.values.get(&key).map(|s| s.parse::<i32>().unwrap_or(0)).unwrap_or(0)
                    - 1;
                self.values.insert(key, v.to_string());
                StoreEvent::Consumed { remaining: v }
            }
        }
    }
}

fn settings() -> ApplicationSettings {
    ApplicationSettings {
        port: 8000,
        host: String::from("127.0.0.1"),
        base_url: String::from("myservice.io"),
        api_quota: 5,
    }
}

fn shorten(
    store: &mut FakeStore,
    url: &str,
    custom: Option<&str>,
    expire_at: Option<i32>,
    ip: Option<&str>,
) -> Result<Response, ShortenError> {
    let req = Request {
        url: String::from(url),
        custom_short_url: custom.map(String::from),
        expire_at,
    };
    let mut current = start_shorten(req, settings(), ip);
    loop {
        match current {
            Step::Done { result } => return result,
            Step::Next { state, action } => {
                let event = store.answer(action);
                current = step(state, event);
            }
        }
    }
}

#[test]
fn quota_admits_five_then_denies_the_sixth() {
    let mut store = FakeStore::new();
    let ip = Some("10.0.0.7");
    for i in 0..5 {
        let r = shorten(&mut store, "http://example.com", Some(&format!("id{}", i)), None, ip);
        let resp = r.expect("request within the quota window must succeed");
        assert_eq!(resp.x_rate_remaining, 4 - i);
    }
    let denied = shorten(&mut store, "http://example.com", Some("id5"), None, ip);
    match denied {
        Err(ShortenError::RateLimited { reset_minutes }) => assert!(reset_minutes > 0),
        other => panic!("expected a rate-limited outcome, got {:?}", other),
    }
    // The window elapses: the key expires passively and the next request succeeds.
    store.expire("ratelimit:10.0.0.7");
    let again = shorten(&mut store, "http://example.com", Some("id5"), None, ip);
    assert!(again.is_ok());
}

#[test]
fn duplicate_custom_identifier_yields_one_record_and_one_conflict() {
    let mut store = FakeStore::new();
    let first = shorten(&mut store, "example.com", Some("abc"), None, Some("10.0.0.1"));
    assert!(first.is_ok());
    let second = shorten(&mut store, "other.org", Some("abc"), None, Some("10.0.0.2"));
    assert_eq!(second, Err(ShortenError::IdInUse));
    // Exactly one stored record, holding the first target, never a merged one.
    assert_eq!(store.values.get("abc"), Some(&String::from("http://example.com")));
}

#[test]
fn resolve_returns_the_scheme_enforced_target() {
    let mut store = FakeStore::new();
    let resp = shorten(&mut store, "github.com", Some("gh"), None, Some("10.0.0.3")).unwrap();
    assert_eq!(resp.url, "http://github.com");
    let (outcome, hit) = resolve_lookup(store.values.get("gh").cloned());
    assert_eq!(outcome, Resolution::Redirect { target_url: String::from("http://github.com") });
    assert!(hit);
}

#[test]
fn resolving_an_unknown_identifier_is_not_found() {
    let store = FakeStore::new();
    let (outcome, hit) = resolve_lookup(store.values.get("nothere").cloned());
    assert_eq!(outcome, Resolution::NotFound);
    assert!(!hit);
}

#[test]
fn own_domain_is_rejected_as_self_redirect() {
    let mut store = FakeStore::new();
    let r = shorten(&mut store, "http://myservice.io/loop", Some("x"), None, Some("10.0.0.4"));
    assert_eq!(r, Err(ShortenError::SelfRedirect));
    let r2 = shorten(&mut store, "https://WWW.MyService.IO", Some("x"), None, Some("10.0.0.4"));
    assert_eq!(r2, Err(ShortenError::SelfRedirect));
}

#[test]
fn malformed_urls_are_rejected() {
    let mut store = FakeStore::new();
    let r = shorten(&mut store, "not a url", Some("x"), None, Some("10.0.0.5"));
    assert_eq!(r, Err(ShortenError::InvalidUrl));
}

#[test]
fn generated_identifiers_are_valid_base62() {
    let mut store = FakeStore::new();
    let resp = shorten(&mut store, "http://example.com", None, None, Some("10.0.0.6")).unwrap();
    let prefix = "myservice.io/";
    assert!(resp.custom_short_url.starts_with(prefix));
    let id = &resp.custom_short_url[prefix.len()..];
    assert!(base62_decode(id).is_ok());
    assert_eq!(store.values.get(id), Some(&String::from("http://example.com")));
}

#[test]
fn expiry_defaults_to_twenty_four_hours() {
    let mut store = FakeStore::new();
    let resp = shorten(&mut store, "http://example.com", Some("day"), None, Some("10.0.0.8"))
        .unwrap();
    assert_eq!(resp.expiry, 24);
    assert_eq!(store.ttls.get("day"), Some(&86400));
    let resp2 = shorten(&mut store, "http://example.com", Some("hour"), Some(1), Some("10.0.0.8"))
        .unwrap();
    assert_eq!(resp2.expiry, 1);
    assert_eq!(store.ttls.get("hour"), Some(&3600));
}

#[test]
fn expired_record_becomes_unresolvable() {
    let mut store = FakeStore::new();
    shorten(&mut store, "http://example.com", Some("brief"), Some(1), Some("10.0.0.9")).unwrap();
    // The store enforces the expiry natively; here it elapses.
    store.expire("brief");
    let (outcome, hit) = resolve_lookup(store.values.get("brief").cloned());
    assert_eq!(outcome, Resolution::NotFound);
    assert!(!hit);
}

#[test]
fn expiry_seconds_exact_values() {
    assert_eq!(expiry_seconds(None), 86400);
    assert_eq!(expiry_seconds(Some(1)), 3600);
    assert_eq!(expiry_seconds(Some(48)), 172800);
    // A negative request is carried the way the store cast carries it.
    assert_eq!(expiry_seconds(Some(-1)), (-3600i64) as u64);
}

#[test]
fn mismatched_event_ends_as_store_unavailable() {
    let flow = ShortenFlow::AwaitConsume {
        domain: String::from("myservice.io"),
        target_url: String::from("http://example.com"),
        id: String::from("abc"),
        expiry_hours: 24,
        reset_minutes: 0,
    };
    match step(flow, StoreEvent::QuotaReady) {
        Step::Done { result } => assert_eq!(result, Err(ShortenError::StoreUnavailable)),
        Step::Next { .. } => panic!("a mismatched event must end the flow"),
    }
}
