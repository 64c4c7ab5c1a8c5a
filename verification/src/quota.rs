//! Quota ledger decisions: a per-client budget in a fixed 1800-second
//! window, kept as one counter with an expiry in the backing store.  The
//! functions here decide; the store itself is driven by the caller.

use vstd::prelude::*;
use vstd::string::StringExecFns;

verus! {

/// Length of the quota window in seconds (30 minutes).
pub const QUOTA_WINDOW_SECONDS: u32 = 1800;

/// The characters `ratelimit:`, put in front of every client key.
pub open spec fn ratelimit_prefix() -> Seq<char> {
    seq!['r', 'a', 't', 'e', 'l', 'i', 'm', 'i', 't', ':']
}

/// The characters `unknown`: the shared fallback identity for clients whose
/// address the transport could not determine.
pub open spec fn unknown_client() -> Seq<char> {
    seq!['u', 'n', 'k', 'n', 'o', 'w', 'n']
}

/// The store key of a client's quota counter.
pub open spec fn client_key_seq(ip: Option<&str>) -> Seq<char> {
    ratelimit_prefix() + match ip {
        Some(s) => s@,
        None => unknown_client(),
    }
}

/// Compose the quota key for a client address, falling back to the shared
/// `unknown` identity when the transport reports none.
pub fn client_key(ip: Option<&str>) -> (r: String)
    ensures
        r@ == client_key_seq(ip),
{
    let p = String::from_str("ratelimit:");
    proof {
        reveal_strlit("ratelimit:");
        assert(p@ =~= ratelimit_prefix());
    }
    match ip {
        Some(s) => p.concat(s),
        None => {
            let r = p.concat("unknown");
            proof {
                reveal_strlit("unknown");
                assert(r@ =~= client_key_seq(ip));
            }
            r
        },
    }
}

/// What the ledger decides about one shorten request.
#[derive(Clone, Copy, Debug, PartialEq, Eq, Structural)]
pub enum QuotaDecision {
    /// First observation of the key in this window: the caller must create
    /// the counter at `set_to` with expiry `expire_seconds`, and the request
    /// is admitted.
    FirstRequest { set_to: u32, expire_seconds: u32 },
    /// Budget remains: the request is admitted.
    Allowed { remaining: i32 },
    /// Budget exhausted: the request is denied; the window resets in
    /// `reset_seconds`.
    Denied { reset_seconds: i64 },
}

/// Admission decision from the observed counter (`None` when the key does
/// not live in the store) and the key's remaining expiry.  A request is
/// denied exactly when a counter exists and holds no budget; once the budget
/// is exhausted no request is admitted until the window expires.
pub fn admission(observed: Option<i32>, ttl_seconds: i64, ceiling: u32) -> (d: QuotaDecision)
    ensures
        observed is None ==> d == (QuotaDecision::FirstRequest {
            set_to: ceiling,
            expire_seconds: QUOTA_WINDOW_SECONDS,
        }),
        observed matches Some(v) ==> d == (if v <= 0 {
            QuotaDecision::Denied { reset_seconds: ttl_seconds }
        } else {
            QuotaDecision::Allowed { remaining: v }
        }),
{
    match observed {
        None => QuotaDecision::FirstRequest {
            set_to: ceiling,
            expire_seconds: QUOTA_WINDOW_SECONDS,
        },
        Some(v) => {
            if v <= 0 {
                QuotaDecision::Denied { reset_seconds: ttl_seconds }
            } else {
                QuotaDecision::Allowed { remaining: v }
            }
        },
    }
}

} // verus!
