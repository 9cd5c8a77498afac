//! On-chain account addresses: twenty bytes, written as hexadecimal text.

use vstd::prelude::*;

verus! {

/// An on-chain account address.
pub type ChainAddress = [u8; 20];

/// The lowercase hexadecimal digit of a value below sixteen.
pub open spec fn hex_digit(v: int) -> char {
    seq!['0', '1', '2', '3', '4', '5', '6', '7', '8', '9', 'a', 'b', 'c', 'd', 'e', 'f'][v]
}

/// Two lowercase hexadecimal digits for each byte, most significant first.
pub open spec fn lower_hex(b: Seq<u8>) -> Seq<char>
    decreases b.len(),
{
    if b.len() == 0 {
        Seq::empty()
    } else {
        seq![hex_digit(b[0] as int / 16), hex_digit(b[0] as int % 16)] + lower_hex(b.drop_first())
    }
}

/// The canonical text of an address: `0x` and forty lowercase hexadecimal digits.
pub open spec fn address_text(b: Seq<u8>) -> Seq<char> {
    seq!['0', 'x'] + lower_hex(b)
}

pub open spec fn is_hex_char(c: char) -> bool {
    ||| '0' <= c <= '9'
    ||| 'a' <= c <= 'f'
    ||| 'A' <= c <= 'F'
}

/// Characters that address parsing passes over.
pub open spec fn is_blank(c: char) -> bool {
    c == ' ' || c == '\r' || c == '\n' || c == '\t'
}

pub open spec fn hex_value(c: char) -> int {
    if '0' <= c <= '9' {
        c as int - '0' as int
    } else if 'a' <= c <= 'f' {
        c as int - 'a' as int + 10
    } else {
        c as int - 'A' as int + 10
    }
}

/// The text after an optional leading `0x`.
pub open spec fn hex_body(s: Seq<char>) -> Seq<char> {
    if s.len() >= 2 && s[0] == '0' && s[1] == 'x' {
        s.skip(2)
    } else {
        s
    }
}

/// The hexadecimal digits of an address text, in order.
pub open spec fn hex_digits(s: Seq<char>) -> Seq<char> {
    hex_body(s).filter(|c: char| is_hex_char(c))
}

/// Whether a text reads as an address: after an optional `0x`, only
/// hexadecimal digits (either case) and blanks, with exactly forty digits.
pub open spec fn is_address_text(s: Seq<char>) -> bool {
    &&& forall|i: int|
        0 <= i < hex_body(s).len() ==> is_hex_char(#[trigger] hex_body(s)[i]) || is_blank(
            hex_body(s)[i],
        )
    &&& hex_digits(s).len() == 40
}

/// The bytes that an address text stands for: each pair of digits is one byte.
pub open spec fn address_bytes_of(s: Seq<char>) -> Seq<u8> {
    Seq::new(
        20,
        |i: int| (hex_value(hex_digits(s)[2 * i]) * 16 + hex_value(hex_digits(s)[2 * i + 1])) as u8,
    )
}

/// Relies on the `LowerHex` formatting of `ethers::types::Address` (a
/// fixed-hash `H160`) with `{:#x}`: `0x`, then two lowercase digits per byte.
#[verifier::external_body]
pub(crate) fn format_address(b: &ChainAddress) -> (r: String)
    ensures
        r@ == address_text(b@),
{
    format!("{:#x}", ethers::types::Address::from(*b))
}

/// Relies on `FromStr` of `ethers::types::Address` (fixed-hash `H160` over
/// `rustc_hex::FromHexIter`): an optional `0x` is stripped, blanks are skipped,
/// any other non-digit fails, and exactly forty digits must remain.
#[verifier::external_body]
pub(crate) fn parse_address(s: &str) -> (r: Option<ChainAddress>)
    ensures
        r is Some <==> is_address_text(s@),
        r matches Some(b) ==> b@ == address_bytes_of(s@),
{
    s.parse::<ethers::types::Address>().ok().map(|a| a.0)
}

} // verus!
