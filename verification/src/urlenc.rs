//! Percent-encoding of query strings, delegated to the `urlencoding` crate.

use vstd::prelude::*;

verus! {

/// True for the bytes that percent-encoding leaves as they are:
/// ASCII alphanumerics and `-`, `.`, `_`, `~`.
pub open spec fn is_unreserved(b: u8) -> bool {
    ||| 48 <= b <= 57
    ||| 65 <= b <= 90
    ||| 97 <= b <= 122
    ||| b == 45
    ||| b == 46
    ||| b == 95
    ||| b == 126
}

/// The uppercase hexadecimal digit for a value below 16.
pub open spec fn spec_hex_digit(d: int) -> u8 {
    if d < 10 {
        (48 + d) as u8
    } else {
        (55 + d) as u8
    }
}

/// The percent-encoding of one byte: itself when unreserved, otherwise
/// `%` and two uppercase hexadecimal digits.
pub open spec fn spec_encoded_byte(b: u8) -> Seq<u8> {
    if is_unreserved(b) {
        seq![b]
    } else {
        seq![37u8, spec_hex_digit(b as int / 16), spec_hex_digit(b as int % 16)]
    }
}

/// The percent-encoding of a byte string.
pub open spec fn spec_urlencoded(s: Seq<u8>) -> Seq<u8>
    decreases s.len(),
{
    if s.len() == 0 {
        Seq::empty()
    } else {
        spec_encoded_byte(s[0]) + spec_urlencoded(s.drop_first())
    }
}

/// Relies on `urlencoding::encode_binary`: it percent-encodes every byte
/// except ASCII alphanumerics and `-`, `.`, `_`, `~`, writing `%` and two
/// uppercase hexadecimal digits for each encoded byte, in input order.
#[verifier::external_body]
pub fn urlencode(data: &[u8]) -> (r: Vec<u8>)
    ensures
        r@ == spec_urlencoded(data@),
{
    urlencoding::encode_binary(data).into_owned().into_bytes()
}

} // verus!
