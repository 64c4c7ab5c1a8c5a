//! Resolver decisions: turn what the store holds for a short identifier into
//! a redirect or a not-found outcome, and say when the global hit counter is
//! to be incremented.

use vstd::prelude::*;

verus! {

/// Outcome of resolving a short identifier.
#[derive(Debug, PartialEq, Eq)]
pub enum Resolution {
    /// The identifier is live: redirect to its stored target.
    Redirect { target_url: String },
    /// No live record for the identifier.
    NotFound,
}

/// Whether a resolve request carries a usable identifier: an empty one is
/// rejected before the store is asked.
pub fn resolve_id_ok(id: &str) -> (r: bool)
    ensures
        r == (id@.len() != 0),
{
    !id.is_empty()
}

/// Decide the resolve outcome from what the store returned for the
/// identifier.  The second component says whether to increment the global
/// hit counter: exactly on a redirect, and only as a best-effort side
/// effect — a failed increment must not change the outcome already decided
/// here.
pub fn resolve_lookup(stored: Option<String>) -> (r: (Resolution, bool))
    ensures
        stored matches Some(u) ==> r.0 matches Resolution::Redirect { target_url }
            && target_url@ == u@ && r.1,
        stored is None ==> r.0 is NotFound && !r.1,
{
    match stored {
        Some(u) => (Resolution::Redirect { target_url: u }, true),
        None => (Resolution::NotFound, false),
    }
}

} // verus!
