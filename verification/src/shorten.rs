//! Orchestration of one shorten request as a state machine: the caller
//! performs each returned store action against the backing key-value store
//! and hands the observed result back as an event.  Every decision — quota
//! admission, URL validation, the self-redirect guard, identifier choice,
//! bounded collision retry, and the composed response — is taken here and
//! stated exactly.  Quota is consumed strictly after the write succeeds.

use vstd::prelude::*;
use vstd::string::StringExecFns;

use crate::codec::base62_encode;
use crate::codec::encode62;
use crate::guard::enforce_http;
use crate::guard::is_well_formed_url;
use crate::guard::lower_seq;
use crate::guard::normalized_host;
use crate::guard::remove_domain_error;
use crate::guard::url_is_well_formed;
use crate::guard::with_scheme;
use crate::quota::admission;
use crate::quota::client_key;
use crate::quota::client_key_seq;
use crate::quota::QuotaDecision;
use crate::quota::QUOTA_WINDOW_SECONDS;
use crate::settings::ApplicationSettings;

verus! {

/// Hours a record stays live when the caller asks for no expiry.
pub const DEFAULT_EXPIRY_HOURS: i32 = 24;

/// How many candidate identifiers a flow tries before giving up.
pub const MAX_PUT_ATTEMPTS: u32 = 5;

/// Body of a shorten request.
#[derive(Debug)]
pub struct Request {
    /// The URL to shorten.
    pub url: String,
    /// An identifier the caller chose, when there is one.
    pub custom_short_url: Option<String>,
    /// Requested lifetime in hours; 24 when absent.
    pub expire_at: Option<i32>,
}

/// Body of a successful shorten response.
#[derive(Debug, PartialEq)]
pub struct Response {
    /// The stored target URL, scheme enforced.
    pub url: String,
    /// The composed short URL: the service domain, a slash, the identifier.
    pub custom_short_url: String,
    /// Lifetime of the record in hours.
    pub expiry: i32,
    /// Budget left in the client's quota window after this request.
    pub x_rate_remaining: i32,
    /// Minutes until the client's quota window resets.
    pub x_rate_limit_reset: i32,
}

/// Client-visible failures of a shorten request.
#[derive(Clone, Copy, Debug, PartialEq, Eq, Structural)]
pub enum ShortenError {
    /// The quota window holds no budget; it resets in `reset_minutes`.
    RateLimited { reset_minutes: i64 },
    /// The URL is not syntactically well formed.
    InvalidUrl,
    /// The URL points back at the service's own domain.
    SelfRedirect,
    /// The caller-supplied identifier already names a live record.
    IdInUse,
    /// Every generated candidate identifier collided within the retry cap.
    IdSpaceExhausted,
    /// The backing store could not be reached or answered with an error.
    StoreUnavailable,
}

/// A store operation the caller must perform next.
#[derive(Debug, PartialEq)]
pub enum StoreAction {
    /// Read the quota counter and its remaining expiry under `key`.
    ReadQuota { key: String },
    /// Create the quota counter at `value` with expiry `expire_seconds`.
    InitQuota { key: String, value: u32, expire_seconds: u32 },
    /// Atomically store `target_url` under `id` with expiry
    /// `expire_seconds`, only if no live record for `id` exists.
    PutIfAbsent { id: String, target_url: String, expire_seconds: u64 },
    /// Atomically decrement the quota counter under `key` by one.
    ConsumeQuota { key: String },
}

/// What the store answered to the previous action.
#[derive(Clone, Copy, Debug, PartialEq)]
pub enum StoreEvent {
    /// Answer to `ReadQuota`: the counter (`None` when the key holds no live
    /// record) and the key's remaining expiry in seconds.
    QuotaState { remaining: Option<i32>, ttl_seconds: i64 },
    /// Answer to `InitQuota`: the counter was created.
    QuotaReady,
    /// Answer to `PutIfAbsent`: whether the record was written.
    PutDone { stored: bool },
    /// Answer to `ConsumeQuota`: the budget left after the decrement.
    Consumed { remaining: i32 },
    /// The store could not be reached or answered with an error.
    StoreFailed,
}

/// Where a shorten flow stands between two store round trips.
#[derive(Debug)]
pub enum ShortenFlow {
    /// The quota counter is being read.
    AwaitQuota { req: Request, settings: ApplicationSettings, key: String },
    /// A fresh quota counter is being created.
    AwaitInit { req: Request, settings: ApplicationSettings, key: String, reset_minutes: i64 },
    /// A record is being written under `id`.
    AwaitPut {
        key: String,
        domain: String,
        target_url: String,
        id: String,
        custom: bool,
        attempts: u32,
        expiry_hours: i32,
        reset_minutes: i64,
        ttl_seconds: u64,
    },
    /// The quota counter is being decremented after a successful write.
    AwaitConsume {
        domain: String,
        target_url: String,
        id: String,
        expiry_hours: i32,
        reset_minutes: i64,
    },
}

/// What the engine hands back after each event: either the next state with
/// the store action to perform, or the finished outcome.
#[derive(Debug)]
pub enum Step {
    Next { state: ShortenFlow, action: StoreAction },
    Done { result: Result<Response, ShortenError> },
}

/// The lifetime a request asks for, in hours; 24 when it names none.
pub open spec fn hours_of(expire_at: Option<i32>) -> int {
    match expire_at {
        Some(h) => h as int,
        None => 24,
    }
}

/// The lifetime handed to the store, in seconds: the requested hours times
/// 3600, carried to the store's unsigned type the way a 64-bit cast carries
/// it.
pub open spec fn ttl_of(expire_at: Option<i32>) -> u64 {
    ((hours_of(expire_at) * 3600) as i64) as u64
}

/// Minutes until a window resets, from the key's remaining expiry; a
/// negative expiry (no live key) counts as zero.
pub open spec fn reset_minutes_of(ttl_seconds: i64) -> i64 {
    if ttl_seconds < 0 {
        0
    } else {
        ((ttl_seconds as u64) / 60) as i64
    }
}

/// The lifetime a request asks for, in seconds, as handed to the store.
pub fn expiry_seconds(expire_at: Option<i32>) -> (r: u64)
    ensures
        r == ttl_of(expire_at),
{
    let hours: i32 = match expire_at {
        Some(h) => h,
        None => DEFAULT_EXPIRY_HOURS,
    };
    ((hours as i64) * 3600) as u64
}

fn reset_minutes(ttl_seconds: i64) -> (r: i64)
    ensures
        r == reset_minutes_of(ttl_seconds),
{
    if ttl_seconds < 0 {
        0
    } else {
        ((ttl_seconds as u64) / 60) as i64
    }
}

/// Relies on rand's thread-local generator to draw a value; nothing is
/// promised of which value comes back.
pub assume_specification<T>[ rand::random::<T> ]() -> (r: T)
    where
        rand::distributions::Standard: rand::distributions::Distribution<T>,
;

/// A fresh candidate identifier: the base62 encoding of a random 64-bit
/// value.
fn fresh_id() -> (id: String)
    ensures
        exists|n: u64| id@ == encode62(n as nat),
{
    let n: u64 = rand::random();
    let id = base62_encode(n);
    proof {
        assert(id@ == encode62(n as nat));
    }
    id
}

/// What a flow looks like after validation decided about the put: either a
/// short-circuit on a malformed or self-redirecting URL, or the first
/// `PutIfAbsent` with the scheme-enforced target, the chosen identifier and
/// the requested lifetime.  Validity is judged on the scheme-enforced URL,
/// so a bare domain passes and is stored with its scheme.
pub open spec fn validated_put(
    req: Request,
    settings: ApplicationSettings,
    key: Seq<char>,
    reset_minutes: i64,
    s: Step,
) -> bool {
    if !is_well_formed_url(with_scheme(req.url@)) {
        s == Step::Done { result: Err(ShortenError::InvalidUrl) }
    } else if normalized_host(req.url@) == lower_seq(settings.base_url@) {
        s == Step::Done { result: Err(ShortenError::SelfRedirect) }
    } else {
        s matches Step::Next { state, action } && (state matches ShortenFlow::AwaitPut {
            key: k,
            domain,
            target_url,
            id,
            custom,
            attempts,
            expiry_hours,
            reset_minutes: rm,
            ttl_seconds,
        } && {
            &&& k@ == key
            &&& domain@ == settings.base_url@
            &&& target_url@ == with_scheme(req.url@)
            &&& custom == (req.custom_short_url is Some)
            &&& (req.custom_short_url matches Some(c) ==> id@ == c@)
            &&& (req.custom_short_url is None ==> exists|n: u64| id@ == encode62(n as nat))
            &&& attempts == 1
            &&& expiry_hours == hours_of(req.expire_at)
            &&& rm == reset_minutes
            &&& ttl_seconds == ttl_of(req.expire_at)
            &&& (action matches StoreAction::PutIfAbsent { id: aid, target_url: aurl, expire_seconds }
                && (aid@ == id@ && aurl@ == with_scheme(req.url@) && expire_seconds == ttl_of(
                req.expire_at,
            )))
        })
    }
}

/// The full transition relation of the shorten flow: what `step` returns for
/// every state and event.
pub open spec fn step_spec(state: ShortenFlow, event: StoreEvent, s: Step) -> bool {
    match (state, event) {
        (_, StoreEvent::StoreFailed) => s == Step::Done {
            result: Err(ShortenError::StoreUnavailable),
        },
        (
            ShortenFlow::AwaitQuota { req, settings, key },
            StoreEvent::QuotaState { remaining, ttl_seconds },
        ) => {
            match remaining {
                None => s matches Step::Next { state: st, action } && (st
                    matches ShortenFlow::AwaitInit {
                    req: r2,
                    settings: t2,
                    key: k2,
                    reset_minutes,
                } && {
                    &&& r2 == req
                    &&& t2 == settings
                    &&& k2@ == key@
                    &&& reset_minutes == reset_minutes_of(ttl_seconds)
                    &&& (action matches StoreAction::InitQuota { key: ak, value, expire_seconds }
                        && (ak@ == key@ && value == settings.api_quota && expire_seconds
                        == QUOTA_WINDOW_SECONDS))
                }),
                Some(v) => {
                    if v <= 0 {
                        s == Step::Done {
                            result: Err(
                                ShortenError::RateLimited {
                                    reset_minutes: reset_minutes_of(ttl_seconds),
                                },
                            ),
                        }
                    } else {
                        validated_put(req, settings, key@, reset_minutes_of(ttl_seconds), s)
                    }
                },
            }
        },
        (
            ShortenFlow::AwaitInit { req, settings, key, reset_minutes },
            StoreEvent::QuotaReady,
        ) => validated_put(req, settings, key@, reset_minutes, s),
        (
            ShortenFlow::AwaitPut {
                key,
                domain,
                target_url,
                id,
                custom,
                attempts,
                expiry_hours,
                reset_minutes,
                ttl_seconds,
            },
            StoreEvent::PutDone { stored },
        ) => {
            if stored {
                s matches Step::Next { state: st, action } && (st
                    matches ShortenFlow::AwaitConsume {
                    domain: d2,
                    target_url: t2,
                    id: i2,
                    expiry_hours: e2,
                    reset_minutes: r2,
                } && {
                    &&& d2@ == domain@
                    &&& t2@ == target_url@
                    &&& i2@ == id@
                    &&& e2 == expiry_hours
                    &&& r2 == reset_minutes
                    &&& (action matches StoreAction::ConsumeQuota { key: k2 } && k2@ == key@)
                })
            } else if custom {
                s == Step::Done { result: Err(ShortenError::IdInUse) }
            } else if attempts < MAX_PUT_ATTEMPTS {
                s matches Step::Next { state: st, action } && (st matches ShortenFlow::AwaitPut {
                    key: k2,
                    domain: d2,
                    target_url: t2,
                    id: i2,
                    custom: c2,
                    attempts: a2,
                    expiry_hours: e2,
                    reset_minutes: r2,
                    ttl_seconds: tt2,
                } && {
                    &&& k2@ == key@
                    &&& d2@ == domain@
                    &&& t2@ == target_url@
                    &&& (exists|n: u64| i2@ == encode62(n as nat))
                    &&& c2 == false
                    &&& a2 == attempts + 1
                    &&& e2 == expiry_hours
                    &&& r2 == reset_minutes
                    &&& tt2 == ttl_seconds
                    &&& (action matches StoreAction::PutIfAbsent {
                        id: aid,
                        target_url: aurl,
                        expire_seconds,
                    } && (aid@ == i2@ && aurl@ == target_url@ && expire_seconds == ttl_seconds))
                })
            } else {
                s == Step::Done { result: Err(ShortenError::IdSpaceExhausted) }
            }
        },
        (
            ShortenFlow::AwaitConsume { domain, target_url, id, expiry_hours, reset_minutes },
            StoreEvent::Consumed { remaining },
        ) => s matches Step::Done { result } && (result matches Ok(resp) && {
            &&& resp.url@ == target_url@
            &&& resp.custom_short_url@ == domain@ + seq!['/'] + id@
            &&& resp.expiry == expiry_hours
            &&& resp.x_rate_remaining == remaining
            &&& resp.x_rate_limit_reset == reset_minutes as i32
        }),
        _ => s == Step::Done { result: Err(ShortenError::StoreUnavailable) },
    }
}

/// What `start_shorten` hands out: a flow waiting on the client's quota key,
/// and the action that reads it.
pub open spec fn start_spec(
    req: Request,
    settings: ApplicationSettings,
    ip: Option<&str>,
    s: Step,
) -> bool {
    s matches Step::Next { state, action } && (state matches ShortenFlow::AwaitQuota {
        req: r2,
        settings: t2,
        key,
    } && {
        &&& r2 == req
        &&& t2 == settings
        &&& key@ == client_key_seq(ip)
        &&& (action matches StoreAction::ReadQuota { key: k2 } && k2@ == key@)
    })
}

/// Begin a shorten flow for a request from the client at `ip`: the first
/// store action reads the client's quota counter.
pub fn start_shorten(req: Request, settings: ApplicationSettings, ip: Option<&str>) -> (s: Step)
    ensures
        start_spec(req, settings, ip, s),
{
    let key = client_key(ip);
    let k2 = key.clone();
    Step::Next {
        state: ShortenFlow::AwaitQuota { req, settings, key },
        action: StoreAction::ReadQuota { key: k2 },
    }
}

fn validate_and_put(
    req: Request,
    settings: ApplicationSettings,
    key: String,
    reset_min: i64,
) -> (s: Step)
    ensures
        validated_put(req, settings, key@, reset_min, s),
{
    let target_url = enforce_http(req.url.as_str());
    if !url_is_well_formed(target_url.as_str()) {
        return Step::Done { result: Err(ShortenError::InvalidUrl) };
    }
    if !remove_domain_error(req.url.as_str(), settings.base_url.as_str()) {
        return Step::Done { result: Err(ShortenError::SelfRedirect) };
    }
    let ttl = expiry_seconds(req.expire_at);
    let expiry_hours: i32 = match req.expire_at {
        Some(h) => h,
        None => DEFAULT_EXPIRY_HOURS,
    };
    let Request { url: _, custom_short_url, expire_at: _ } = req;
    let custom: bool = match &custom_short_url {
        Some(_) => true,
        None => false,
    };
    let id: String = match custom_short_url {
        Some(c) => c,
        None => fresh_id(),
    };
    let ApplicationSettings { port: _, host: _, base_url, api_quota: _ } = settings;
    let aid = id.clone();
    let aurl = target_url.clone();
    Step::Next {
        state: ShortenFlow::AwaitPut {
            key,
            domain: base_url,
            target_url,
            id,
            custom,
            attempts: 1,
            expiry_hours,
            reset_minutes: reset_min,
            ttl_seconds: ttl,
        },
        action: StoreAction::PutIfAbsent { id: aid, target_url: aurl, expire_seconds: ttl },
    }
}

/// Take one step of the shorten flow: decide from the store's answer what to
/// do next, per the transition relation `step_spec`.
pub fn step(state: ShortenFlow, event: StoreEvent) -> (s: Step)
    ensures
        step_spec(state, event, s),
{
    match (state, event) {
        (_, StoreEvent::StoreFailed) => Step::Done {
            result: Err(ShortenError::StoreUnavailable),
        },
        (
            ShortenFlow::AwaitQuota { req, settings, key },
            StoreEvent::QuotaState { remaining, ttl_seconds },
        ) => {
            let rm = reset_minutes(ttl_seconds);
            match admission(remaining, ttl_seconds, settings.api_quota) {
                QuotaDecision::FirstRequest { set_to, expire_seconds } => {
                    let k2 = key.clone();
                    Step::Next {
                        state: ShortenFlow::AwaitInit { req, settings, key, reset_minutes: rm },
                        action: StoreAction::InitQuota { key: k2, value: set_to, expire_seconds },
                    }
                },
                QuotaDecision::Denied { reset_seconds: _ } => Step::Done {
                    result: Err(ShortenError::RateLimited { reset_minutes: rm }),
                },
                QuotaDecision::Allowed { remaining: _ } => validate_and_put(
                    req,
                    settings,
                    key,
                    rm,
                ),
            }
        },
        (
            ShortenFlow::AwaitInit { req, settings, key, reset_minutes: rm },
            StoreEvent::QuotaReady,
        ) => validate_and_put(req, settings, key, rm),
        (
            ShortenFlow::AwaitPut {
                key,
                domain,
                target_url,
                id,
                custom,
                attempts,
                expiry_hours,
                reset_minutes: rm,
                ttl_seconds,
            },
            StoreEvent::PutDone { stored },
        ) => {
            if stored {
                Step::Next {
                    state: ShortenFlow::AwaitConsume {
                        domain,
                        target_url,
                        id,
                        expiry_hours,
                        reset_minutes: rm,
                    },
                    action: StoreAction::ConsumeQuota { key },
                }
            } else if custom {
                Step::Done { result: Err(ShortenError::IdInUse) }
            } else if attempts < MAX_PUT_ATTEMPTS {
                let nid = fresh_id();
                let aid = nid.clone();
                let aurl = target_url.clone();
                Step::Next {
                    state: ShortenFlow::AwaitPut {
                        key,
                        domain,
                        target_url,
                        id: nid,
                        custom: false,
                        attempts: attempts + 1,
                        expiry_hours,
                        reset_minutes: rm,
                        ttl_seconds,
                    },
                    action: StoreAction::PutIfAbsent {
                        id: aid,
                        target_url: aurl,
                        expire_seconds: ttl_seconds,
                    },
                }
            } else {
                Step::Done { result: Err(ShortenError::IdSpaceExhausted) }
            }
        },
        (
            ShortenFlow::AwaitConsume { domain, target_url, id, expiry_hours, reset_minutes: rm },
            StoreEvent::Consumed { remaining },
        ) => {
            let ghost dom0 = domain@;
            let s1 = domain.concat("/");
            let short = s1.concat(id.as_str());
            proof {
                reveal_strlit("/");
                assert(short@ =~= dom0 + seq!['/'] + id@);
            }
            Step::Done {
                result: Ok(
                    Response {
                        url: target_url,
                        custom_short_url: short,
                        expiry: expiry_hours,
                        x_rate_remaining: remaining,
                        x_rate_limit_reset: rm as i32,
                    },
                ),
            }
        },
        (_, _) => Step::Done { result: Err(ShortenError::StoreUnavailable) },
    }
}

/// Whether a step result tells the caller to consume quota next.
pub open spec fn issues_consume(s: Step) -> bool {
    s matches Step::Next { state: _, action } && action is ConsumeQuota
}

/// Quota is consumed strictly after the write succeeds: the only step that
/// issues a `ConsumeQuota` action answers a put that the store reported
/// stored.
pub proof fn lemma_consume_only_after_stored(state: ShortenFlow, event: StoreEvent, s: Step)
    requires
        step_spec(state, event, s),
        issues_consume(s),
    ensures
        state is AwaitPut,
        event == (StoreEvent::PutDone { stored: true }),
{
}

/// Whether the retry count of a flow state is within its cap.
pub open spec fn attempts_in_range(state: ShortenFlow) -> bool {
    state matches ShortenFlow::AwaitPut { attempts, .. } ==> 1 <= attempts <= MAX_PUT_ATTEMPTS
}

/// Collision retry is bounded: a flow starts within the retry cap and every
/// step keeps it there, so no flow retries past `MAX_PUT_ATTEMPTS`.
pub proof fn lemma_attempts_bounded(state: ShortenFlow, event: StoreEvent, s: Step)
    requires
        step_spec(state, event, s),
        attempts_in_range(state),
    ensures
        (s matches Step::Next { state: st, action: _ } ==> attempts_in_range(st)),
{
}

/// A freshly started flow is within the retry cap.
pub proof fn lemma_start_attempts(req: Request, settings: ApplicationSettings, ip: Option<&str>, s: Step)
    requires
        start_spec(req, settings, ip, s),
    ensures
        (s matches Step::Next { state: st, action: _ } ==> attempts_in_range(st)),
{
}

} // verus!
