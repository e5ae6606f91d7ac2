//! Text that goes into a request: decimal numbers and form-urlencoded bytes.

use vstd::prelude::*;

verus! {

/// The character of the decimal digit `d`, for `0 <= d < 10`.
pub open spec fn digit(d: nat) -> char {
    (0x30 + d) as char
}

/// `n` in decimal digits, without sign or leading zeros.
pub open spec fn decimal(n: nat) -> Seq<char>
    decreases n,
{
    if n < 10 {
        seq![digit(n)]
    } else {
        decimal(n / 10).push(digit(n % 10))
    }
}

/// The bytes that form-urlencoding leaves as they are: ASCII letters and
/// digits and `*`, `-`, `.`, `_`.
pub open spec fn unreserved(b: u8) -> bool {
    b == 0x2A || b == 0x2D || b == 0x2E || b == 0x5F || (0x30 <= b <= 0x39) || (0x41 <= b <= 0x5A)
        || (0x61 <= b <= 0x7A)
}

/// The character of the hexadecimal digit `d` in upper case, for
/// `0 <= d < 16`.
pub open spec fn hex_upper(d: nat) -> char {
    if d < 10 {
        (0x30 + d) as char
    } else {
        (0x41 + d - 10) as char
    }
}

/// One byte as `application/x-www-form-urlencoded` writes it: itself where
/// it is unreserved, `+` for a space, else `%` and its two hexadecimal
/// digits.
pub open spec fn urlencoded_byte(b: u8) -> Seq<char> {
    if unreserved(b) {
        seq![b as char]
    } else if b == 0x20 {
        seq!['+']
    } else {
        seq!['%', hex_upper((b / 16) as nat), hex_upper((b % 16) as nat)]
    }
}

/// The bytes `bytes` in `application/x-www-form-urlencoded`.
pub open spec fn urlencoded(bytes: Seq<u8>) -> Seq<char>
    decreases bytes.len(),
{
    if bytes.len() == 0 {
        Seq::empty()
    } else {
        urlencoded(bytes.drop_last()) + urlencoded_byte(bytes.last())
    }
}

/// `u64::to_string` of std: the number in decimal digits.
#[verifier::external_body]
pub(crate) fn u64_to_string(n: u64) -> (s: String)
    ensures
        s@ == decimal(n as nat),
{
    n.to_string()
}

/// `url::form_urlencoded::byte_serialize`, collected into a string. The
/// contract states the byte serializer of `application/x-www-form-urlencoded`
/// as the crate implements it: unreserved bytes stay, a space becomes `+`,
/// every other byte becomes `%` and two upper-case hexadecimal digits.
#[verifier::external_body]
pub(crate) fn form_urlencode(input: &[u8]) -> (s: String)
    ensures
        s@ == urlencoded(input@),
{
    url::form_urlencoded::byte_serialize(input).collect()
}

} // verus!
