//! Hex encoding and decoding of byte strings.
//!
//! The executable work is done by the `hex` crate; its exact behaviour is
//! stated here over the spec functions `hex_of` and `hex_decoded`, and the
//! two are proved inverse to each other.

use vstd::prelude::*;
use vstd::utf8::is_ascii_chars;
use vstd::arithmetic::div_mod::lemma_fundamental_div_mod;

verus! {

/// The lowercase hex digit for a value below 16.
pub open spec fn hex_digit(n: u8) -> char
    recommends
        n < 16,
{
    if n < 10 {
        (((n + 48) as u8) as char)
    } else {
        (((n + 87) as u8) as char)
    }
}

/// Lowercase hex encoding: two digits per byte, high nibble first.
pub open spec fn hex_of(b: Seq<u8>) -> Seq<char>
    decreases b.len(),
{
    if b.len() == 0 {
        Seq::empty()
    } else {
        seq![hex_digit(b[0] / 16), hex_digit(b[0] % 16)] + hex_of(b.drop_first())
    }
}

/// The value of one hex digit, either case.
pub open spec fn hex_val(c: char) -> Option<u8> {
    if '0' <= c && c <= '9' {
        Some((((c as u32) - 48) as u8))
    } else if 'a' <= c && c <= 'f' {
        Some((((c as u32) - 87) as u8))
    } else if 'A' <= c && c <= 'F' {
        Some((((c as u32) - 55) as u8))
    } else {
        None
    }
}

/// Hex decoding: an even number of hex digits, or nothing.
pub open spec fn hex_decoded(s: Seq<char>) -> Option<Seq<u8>>
    decreases s.len(),
{
    if s.len() == 0 {
        Some(Seq::empty())
    } else if s.len() == 1 {
        None
    } else {
        match (hex_val(s[0]), hex_val(s[1])) {
            (Some(h), Some(l)) => match hex_decoded(s.skip(2)) {
                Some(rest) => Some(seq![((h * 16 + l) as u8)] + rest),
                None => None,
            },
            _ => None,
        }
    }
}

pub proof fn lemma_hex_of_len(b: Seq<u8>)
    ensures
        hex_of(b).len() == 2 * b.len(),
    decreases b.len(),
{
    if b.len() > 0 {
        lemma_hex_of_len(b.drop_first());
    }
}

pub proof fn lemma_hex_of_ascii(b: Seq<u8>)
    ensures
        is_ascii_chars(hex_of(b)),
    decreases b.len(),
{
    if b.len() > 0 {
        lemma_hex_of_ascii(b.drop_first());
        assert(forall|i: int| 0 <= i < hex_of(b).len() ==> '\0' <= #[trigger] hex_of(b)[i]
            <= '\u{7f}') by {
            assert(hex_of(b)[0] == hex_digit(b[0] / 16));
            assert(hex_of(b)[1] == hex_digit(b[0] % 16));
            assert(forall|i: int| 2 <= i < hex_of(b).len() ==> hex_of(b)[i] == #[trigger] hex_of(
                b.drop_first(),
            )[i - 2]);
        }
    }
}

proof fn lemma_hex_val_of_digit(n: u8)
    requires
        n < 16,
    ensures
        hex_val(hex_digit(n)) == Some(n),
{
}

/// Decoding undoes encoding: the hex string of any byte string comes back
/// as exactly those bytes.
pub proof fn lemma_hex_round_trip(b: Seq<u8>)
    ensures
        hex_decoded(hex_of(b)) == Some(b),
    decreases b.len(),
{
    if b.len() == 0 {
        assert(b =~= Seq::<u8>::empty());
    } else {
        lemma_hex_round_trip(b.drop_first());
        lemma_hex_of_len(b.drop_first());
        let s = hex_of(b);
        lemma_hex_val_of_digit(b[0] / 16);
        lemma_hex_val_of_digit(b[0] % 16);
        assert(s.skip(2) =~= hex_of(b.drop_first()));
        lemma_fundamental_div_mod(b[0] as int, 16);
        assert(seq![(((b[0] / 16) * 16 + b[0] % 16) as u8)] + b.drop_first() =~= b);
    }
}

/// Relies on hex::encode: lowercase hex, two digits per byte, high nibble
/// first, in input order.
#[verifier::external_body]
pub fn hex_encode(b: &[u8]) -> (r: String)
    ensures
        r@ == hex_of(b@),
{
    hex::encode(b)
}

/// Relies on hex::decode: accepts an even-length string of hex digits of
/// either case and returns the bytes they spell; rejects anything else.
#[verifier::external_body]
pub fn hex_decode(s: &str) -> (r: Option<Vec<u8>>)
    ensures
        r matches Some(v) ==> hex_decoded(s@) == Some(v@),
        r is None ==> hex_decoded(s@) is None,
{
    hex::decode(s).ok()
}

} // verus!
