//! URL normalizer and self-redirect guard: scheme enforcement, ASCII
//! case-insensitive host extraction, and syntactic URL validation.
//!
//! The guard compares with one uniform rule: lowercase (ASCII range), strip a
//! leading scheme and a leading `www.`, keep everything before the first `/`,
//! and compare that host against the service's own domain.

use vstd::prelude::*;
use vstd::string::StrSliceExecFns;
use vstd::string::StringExecFns;

verus! {

/// `c` with an ASCII capital letter mapped to its small form; all other
/// characters unchanged.
pub open spec fn lower_char(c: char) -> char {
    if 65 <= c as int <= 90 {
        (c as int + 32) as char
    } else {
        c
    }
}

/// `s` lowered character by character in the ASCII range.
pub open spec fn lower_seq(s: Seq<char>) -> Seq<char> {
    s.map_values(|c: char| lower_char(c))
}

/// The four characters `http`.
pub open spec fn http_prefix() -> Seq<char> {
    seq!['h', 't', 't', 'p']
}

/// The seven characters `http://`.
pub open spec fn http_scheme() -> Seq<char> {
    seq!['h', 't', 't', 'p', ':', '/', '/']
}

/// The eight characters `https://`.
pub open spec fn https_scheme() -> Seq<char> {
    seq!['h', 't', 't', 'p', 's', ':', '/', '/']
}

/// The four characters `www.`.
pub open spec fn www_prefix() -> Seq<char> {
    seq!['w', 'w', 'w', '.']
}

/// Whether `p` is a prefix of `s`.
pub open spec fn has_prefix(s: Seq<char>, p: Seq<char>) -> bool {
    p.len() <= s.len() && s.subrange(0, p.len() as int) == p
}

/// `s` without the prefix `p` when it carries it, else `s` unchanged.
pub open spec fn strip_prefix_if(s: Seq<char>, p: Seq<char>) -> Seq<char> {
    if has_prefix(s, p) {
        s.subrange(p.len() as int, s.len() as int)
    } else {
        s
    }
}

/// `s` without a leading `https://` or `http://` scheme.
pub open spec fn strip_scheme(s: Seq<char>) -> Seq<char> {
    if has_prefix(s, https_scheme()) {
        s.subrange(8, s.len() as int)
    } else {
        strip_prefix_if(s, http_scheme())
    }
}

/// Index of the first `/` in `s`, or `s.len()` when there is none.
pub open spec fn first_slash(s: Seq<char>) -> int
    decreases s.len(),
{
    if s.len() == 0 {
        0
    } else if s[0] == '/' {
        0
    } else {
        1 + first_slash(s.subrange(1, s.len() as int))
    }
}

/// The part of `s` before its first `/`.
pub open spec fn host_part(s: Seq<char>) -> Seq<char> {
    s.subrange(0, first_slash(s))
}

/// The host a candidate URL points at: lowercase it (ASCII), strip a leading
/// scheme and a leading `www.`, and keep what stands before the first `/`.
pub open spec fn normalized_host(s: Seq<char>) -> Seq<char> {
    host_part(strip_prefix_if(strip_scheme(lower_seq(s)), www_prefix()))
}

/// `url@` when it already starts with `http`, else `http://` put in front.
pub open spec fn with_scheme(s: Seq<char>) -> Seq<char> {
    if has_prefix(s, http_prefix()) {
        s
    } else {
        http_scheme() + s
    }
}

proof fn lemma_first_slash_bounds(s: Seq<char>)
    ensures
        0 <= first_slash(s) <= s.len(),
    decreases s.len(),
{
    if s.len() != 0 && s[0] != '/' {
        lemma_first_slash_bounds(s.subrange(1, s.len() as int));
    }
}

/// When the characters of `s` before `k` are no `/`, and either `k` is the
/// length of `s` or `s[k]` is a `/`, then `k` is the first slash position.
proof fn lemma_first_slash_at(s: Seq<char>, k: int)
    requires
        0 <= k <= s.len(),
        forall|j: int| 0 <= j < k ==> s[j] != '/',
        k < s.len() ==> s[k] == '/',
    ensures
        first_slash(s) == k,
    decreases k,
{
    if k == 0 {
    } else {
        let t = s.subrange(1, s.len() as int);
        assert(forall|j: int| 0 <= j < k - 1 ==> t[j] != '/');
        lemma_first_slash_at(t, k - 1);
    }
}

/// `s` lowered in the ASCII range, as a vector of characters.
fn lower_vec(s: &str) -> (v: Vec<char>)
    ensures
        v@ == lower_seq(s@),
{
    let n = s.unicode_len();
    let mut v: Vec<char> = Vec::new();
    let mut i: usize = 0;
    while i < n
        invariant
            n == s@.len(),
            i <= n,
            v@.len() == i,
            forall|j: int| 0 <= j < i ==> #[trigger] v@[j] == lower_char(s@[j]),
        decreases n - i,
    {
        let c = s.get_char(i);
        let cv = c as u32;
        let lc: char = if 65 <= cv && cv <= 90 {
            ((cv + 32) as u8) as char
        } else {
            c
        };
        proof {
            assert(lc == lower_char(c));
        }
        v.push(lc);
        i = i + 1;
    }
    proof {
        assert(v@ =~= lower_seq(s@));
    }
    v
}

/// Number of leading characters of `v` taken up by an `https://` or
/// `http://` scheme.
fn scheme_offset(v: &Vec<char>) -> (off: usize)
    ensures
        off <= v@.len(),
        strip_scheme(v@) == v@.subrange(off as int, v@.len() as int),
{
    if v.len() >= 8 && v[0] == 'h' && v[1] == 't' && v[2] == 't' && v[3] == 'p' && v[4] == 's'
        && v[5] == ':' && v[6] == '/' && v[7] == '/' {
        proof {
            assert(v@.subrange(0, 8) =~= https_scheme());
        }
        8
    } else if v.len() >= 7 && v[0] == 'h' && v[1] == 't' && v[2] == 't' && v[3] == 'p' && v[4]
        == ':' && v[5] == '/' && v[6] == '/' {
        proof {
            assert(!has_prefix(v@, https_scheme()));
            assert(v@.subrange(0, 7) =~= http_scheme());
        }
        7
    } else {
        proof {
            assert(!has_prefix(v@, https_scheme()));
            assert(!has_prefix(v@, http_scheme()));
            assert(strip_scheme(v@) =~= v@.subrange(0, v@.len() as int));
        }
        0
    }
}

/// Whether the four characters of `v` at `start` read `www.`.
fn www_at(v: &Vec<char>, start: usize) -> (r: bool)
    requires
        start <= v@.len(),
    ensures
        r == has_prefix(v@.subrange(start as int, v@.len() as int), www_prefix()),
{
    let t = Ghost(v@.subrange(start as int, v@.len() as int));
    if v.len() - start >= 4 && v[start] == 'w' && v[start + 1] == 'w' && v[start + 2] == 'w'
        && v[start + 3] == '.' {
        proof {
            assert(t@.subrange(0, 4) =~= www_prefix());
        }
        true
    } else {
        proof {
            assert(t@.len() >= 4 ==> (t@[0] == v@[start as int] && t@[1] == v@[start + 1] && t@[2]
                == v@[start + 2] && t@[3] == v@[start + 3]));
        }
        false
    }
}

/// Whether shortening `url` is allowed under the self-redirect guard:
/// `true` when the normalized host of `url` differs from `domain`
/// (compared in lowercase), `false` when `url` points back at the
/// service's own domain.
pub fn remove_domain_error(url: &str, domain: &str) -> (r: bool)
    ensures
        r == (normalized_host(url@) != lower_seq(domain@)),
{
    let low = lower_vec(url);
    let d = lower_vec(domain);
    let s0 = scheme_offset(&low);
    let ghost stripped0 = low@.subrange(s0 as int, low@.len() as int);
    let s1: usize = if www_at(&low, s0) {
        proof {
            assert(stripped0.subrange(4, stripped0.len() as int) =~= low@.subrange(
                s0 + 4,
                low@.len() as int,
            ));
        }
        s0 + 4
    } else {
        s0
    };
    let ghost stripped = low@.subrange(s1 as int, low@.len() as int);
    proof {
        assert(strip_prefix_if(strip_scheme(lower_seq(url@)), www_prefix()) == stripped);
    }
    let mut j: usize = s1;
    while j < low.len() && *low.get(j).unwrap() != '/'
        invariant
            s1 <= j <= low@.len(),
            stripped == low@.subrange(s1 as int, low@.len() as int),
            forall|k: int| s1 <= k < j ==> #[trigger] low@[k] != '/',
        decreases low@.len() - j,
    {
        j = j + 1;
    }
    proof {
        assert(forall|k: int| 0 <= k < j - s1 ==> #[trigger] stripped[k] != '/');
        lemma_first_slash_at(stripped, j - s1);
        assert(host_part(stripped) =~= low@.subrange(s1 as int, j as int));
        assert(normalized_host(url@) == low@.subrange(s1 as int, j as int));
    }
    if j - s1 != d.len() {
        proof {
            assert(normalized_host(url@).len() != lower_seq(domain@).len());
        }
        return true;
    }
    let m = d.len();
    let mut k: usize = 0;
    while k < m
        invariant
            m == d@.len(),
            m == j - s1,
            s1 <= j <= low@.len(),
            k <= m,
            d@ == lower_seq(domain@),
            normalized_host(url@) == low@.subrange(s1 as int, j as int),
            forall|t: int| 0 <= t < k ==> #[trigger] low@[s1 + t] == d@[t],
        decreases m - k,
    {
        if *low.get(s1 + k).unwrap() != *d.get(k).unwrap() {
            proof {
                assert(normalized_host(url@)[k as int] != lower_seq(domain@)[k as int]);
            }
            return true;
        }
        k = k + 1;
    }
    proof {
        assert forall|t: int| 0 <= t < m implies normalized_host(url@)[t] == lower_seq(domain@)[t] by {
            assert(low@[s1 + t] == d@[t]);
        }
        assert(normalized_host(url@) =~= lower_seq(domain@));
    }
    false
}

/// `url` unchanged when it already starts with `http`, else prefixed with
/// `http://`.
pub fn enforce_http(url: &str) -> (r: String)
    ensures
        r@ == with_scheme(url@),
{
    let n = url.unicode_len();
    if n >= 4 && url.get_char(0) == 'h' && url.get_char(1) == 't' && url.get_char(2) == 't'
        && url.get_char(3) == 'p' {
        proof {
            assert(url@.subrange(0, 4) =~= http_prefix());
        }
        url.to_owned()
    } else {
        proof {
            assert(has_prefix(url@, http_prefix()) ==> (url@[0] == 'h' && url@[1] == 't' && url@[2]
                == 't' && url@[3] == 'p'));
        }
        let s = String::from_str("http://");
        proof {
            reveal_strlit("http://");
            assert(s@ =~= http_scheme());
        }
        s.concat(url)
    }
}

/// Names the verdict of `url::Url::parse` on a string: whether it is a
/// syntactically well-formed absolute URL.
pub uninterp spec fn is_well_formed_url(s: Seq<char>) -> bool;

/// Relies on `url::Url::parse`: its verdict depends on the characters of the
/// input alone.
#[verifier::external_body]
pub fn url_is_well_formed(s: &str) -> (r: bool)
    ensures
        r == is_well_formed_url(s@),
{
    url::Url::parse(s).is_ok()
}

} // verus!
