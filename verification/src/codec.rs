//! Base62 codec over the alphabet `[a-z][A-Z][0-9]`, least-significant digit
//! first.  `base62_encode(0)` is the empty string by design; callers never use
//! 0 as a real identifier.

use vstd::prelude::*;

verus! {

/// Why a string failed to decode.
#[derive(Clone, Copy, Debug, PartialEq, Eq, Structural)]
pub enum DecodeError {
    /// Some character of the input is outside the base62 alphabet.
    InvalidSymbol,
    /// Every character is in the alphabet, but the value does not fit in 64 bits.
    Overflow,
}

/// Whether `c` is one of the 62 alphabet characters.
pub open spec fn is_base62_char(c: char) -> bool {
    (97 <= c as int <= 122) || (65 <= c as int <= 90) || (48 <= c as int <= 57)
}

/// The digit value of an alphabet character: `a..z` are 0..25, `A..Z` are
/// 26..51, `0..9` are 52..61.  Characters outside the alphabet map to 0.
pub open spec fn digit62(c: char) -> nat {
    if 97 <= c as int <= 122 {
        (c as int - 97) as nat
    } else if 65 <= c as int <= 90 {
        (26 + (c as int - 65)) as nat
    } else if 48 <= c as int <= 57 {
        (52 + (c as int - 48)) as nat
    } else {
        0
    }
}

/// The alphabet character of a digit value below 62.
pub open spec fn digit_char(d: nat) -> char {
    if d < 26 {
        ((97 + d) as u8) as char
    } else if d < 52 {
        ((65 + (d - 26)) as u8) as char
    } else {
        ((48 + (d - 52)) as u8) as char
    }
}

/// Whether every character of `s` is in the alphabet.
pub open spec fn all_base62(s: Seq<char>) -> bool {
    forall|i: int| 0 <= i < s.len() ==> is_base62_char(#[trigger] s[i])
}

/// The base62 digit string of `n`, least-significant digit first.
pub open spec fn encode62(n: nat) -> Seq<char>
    decreases n,
{
    if n == 0 {
        Seq::empty()
    } else {
        seq![digit_char(n % 62)] + encode62(n / 62)
    }
}

/// The value of a digit string read least-significant digit first.
pub open spec fn value62(s: Seq<char>) -> nat
    decreases s.len(),
{
    if s.len() == 0 {
        0
    } else {
        digit62(s[0]) + 62 * value62(s.subrange(1, s.len() as int))
    }
}

/// A digit below 62 survives the round trip through its alphabet character.
proof fn lemma_digit_char_digit(d: nat)
    requires
        d < 62,
    ensures
        is_base62_char(digit_char(d)),
        digit62(digit_char(d)) == d,
{
}

/// The encoding of any value uses only alphabet characters and decodes back
/// to the value.
pub proof fn lemma_encode62_value(n: nat)
    ensures
        all_base62(encode62(n)),
        value62(encode62(n)) == n,
    decreases n,
{
    if n != 0 {
        lemma_digit_char_digit(n % 62);
        lemma_encode62_value(n / 62);
        let s = encode62(n);
        assert(s.subrange(1, s.len() as int) =~= encode62(n / 62));
        vstd::arithmetic::div_mod::lemma_fundamental_div_mod(n as int, 62);
    }
}

/// The executable round-trip statement: decoding what `base62_encode`
/// produces for `n` yields `n` again, for every 64-bit `n`.
pub proof fn lemma_base62_round_trip(n: u64)
    ensures
        all_base62(encode62(n as nat)),
        value62(encode62(n as nat)) == n,
{
    lemma_encode62_value(n as nat);
}

proof fn lemma_value62_step(s: Seq<char>, j: int)
    requires
        0 <= j < s.len(),
    ensures
        value62(s.subrange(j, s.len() as int)) == digit62(s[j]) + 62 * value62(
            s.subrange(j + 1, s.len() as int),
        ),
{
    let t = s.subrange(j, s.len() as int);
    assert(t[0] == s[j]);
    assert(t.subrange(1, t.len() as int) =~= s.subrange(j + 1, s.len() as int));
}

/// Dropping leading digits never makes the value larger.
proof fn lemma_value62_mono(s: Seq<char>, j: int)
    requires
        0 <= j <= s.len(),
    ensures
        value62(s) >= value62(s.subrange(j, s.len() as int)),
    decreases j,
{
    if j == 0 {
        assert(s.subrange(0, s.len() as int) =~= s);
    } else {
        lemma_value62_mono(s, j - 1);
        lemma_value62_step(s, j - 1);
    }
}

/// Decode a base62 string read least-significant digit first.  Returns the
/// value exactly when every character is in the alphabet and the value fits
/// in 64 bits; `InvalidSymbol` exactly when some character is outside the
/// alphabet; `Overflow` exactly when all characters are in the alphabet but
/// the value does not fit.
pub fn base62_decode(encoded_string: &str) -> (r: Result<u64, DecodeError>)
    ensures
        (r == Ok::<u64, DecodeError>((value62(encoded_string@) as u64))) <==> (all_base62(
            encoded_string@,
        ) && value62(encoded_string@) <= u64::MAX),
        (r == Err::<u64, DecodeError>(DecodeError::InvalidSymbol)) <==> !all_base62(
            encoded_string@,
        ),
        (r == Err::<u64, DecodeError>(DecodeError::Overflow)) <==> (all_base62(encoded_string@)
            && value62(encoded_string@) > u64::MAX),
{
    let n = encoded_string.unicode_len();
    let mut i: usize = 0;
    while i < n
        invariant
            n == encoded_string@.len(),
            i <= n,
            forall|j: int| 0 <= j < i ==> is_base62_char(#[trigger] encoded_string@[j]),
        decreases n - i,
    {
        let c = encoded_string.get_char(i);
        let cv = c as u32;
        let ok = (97 <= cv && cv <= 122) || (65 <= cv && cv <= 90) || (48 <= cv && cv <= 57);
        if !ok {
            proof {
                assert(!is_base62_char(encoded_string@[i as int]));
            }
            return Err(DecodeError::InvalidSymbol);
        }
        i = i + 1;
    }
    let mut acc: u64 = 0;
    let mut j: usize = n;
    while j > 0
        invariant
            n == encoded_string@.len(),
            j <= n,
            all_base62(encoded_string@),
            acc == value62(encoded_string@.subrange(j as int, n as int)),
        decreases j,
    {
        let c = encoded_string.get_char(j - 1);
        let cv = c as u32;
        let d: u64 = if 97 <= cv && cv <= 122 {
            (cv - 97) as u64
        } else if 65 <= cv && cv <= 90 {
            (26 + (cv - 65)) as u64
        } else {
            (52 + (cv - 48)) as u64
        };
        proof {
            assert(d == digit62(encoded_string@[j - 1]));
            lemma_value62_step(encoded_string@, j - 1);
        }
        let wide: u128 = acc as u128 * 62 + d as u128;
        if wide > u64::MAX as u128 {
            proof {
                lemma_value62_mono(encoded_string@, j - 1);
            }
            return Err(DecodeError::Overflow);
        }
        acc = wide as u64;
        j = j - 1;
    }
    proof {
        assert(encoded_string@.subrange(0, n as int) =~= encoded_string@);
    }
    Ok(acc)
}

/// Relies on `String::from_utf8`: ASCII bytes decode to exactly the
/// characters with the same code points.
#[verifier::external_body]
fn ascii_to_string(bytes: Vec<u8>) -> (s: String)
    requires
        forall|i: int| 0 <= i < bytes@.len() ==> bytes@[i] < 128,
    ensures
        s@ == bytes@.map_values(|b: u8| b as char),
{
    String::from_utf8(bytes).unwrap()
}

/// Base62-encode `number`, least-significant digit first.  `0` encodes to the
/// empty string.
pub fn base62_encode(number: u64) -> (s: String)
    ensures
        s@ == encode62(number as nat),
{
    let mut bytes: Vec<u8> = Vec::new();
    let mut num: u64 = number;
    while num > 0
        invariant
            forall|i: int| 0 <= i < bytes@.len() ==> bytes@[i] < 128,
            bytes@.map_values(|b: u8| b as char) + encode62(num as nat) == encode62(
                number as nat,
            ),
        decreases num,
    {
        let rem: u64 = num % 62;
        let b: u8 = if rem < 26 {
            97 + rem as u8
        } else if rem < 52 {
            65 + (rem as u8 - 26)
        } else {
            48 + (rem as u8 - 52)
        };
        proof {
            assert(b == digit_char((num % 62) as nat) as u8);
            assert(encode62(num as nat) == seq![digit_char((num % 62) as nat)] + encode62(
                (num / 62) as nat,
            ));
        }
        let ghost old_bytes = bytes@;
        bytes.push(b);
        proof {
            assert(bytes@.map_values(|x: u8| x as char) =~= old_bytes.map_values(
                |x: u8| x as char,
            ).push(b as char));
            assert(old_bytes.map_values(|x: u8| x as char).push(b as char) + encode62(
                (num / 62) as nat,
            ) =~= old_bytes.map_values(|x: u8| x as char) + encode62(num as nat));
        }
        num = num / 62;
    }
    proof {
        assert(bytes@.map_values(|b: u8| b as char) + encode62(num as nat) =~= bytes@.map_values(
            |b: u8| b as char,
        ));
    }
    ascii_to_string(bytes)
}

} // verus!

