//! Text and hash conversions that the chain's own libraries perform: hex
//! decoding, the reading of addresses and hashes, Keccak-256 and the list of
//! known chains.

use vstd::prelude::*;
use crate::word::{Address, H256};
use std::str::FromStr;

verus! {

/// Whether `c` is one of `0-9`, `a-f`, `A-F`.
pub open spec fn is_hex_digit(c: char) -> bool {
    ('0' <= c && c <= '9') || ('a' <= c && c <= 'f') || ('A' <= c && c <= 'F')
}

/// The number that a hex digit stands for; zero for any other character.
pub open spec fn hex_value(c: char) -> int {
    if '0' <= c && c <= '9' {
        c as int - '0' as int
    } else if 'a' <= c && c <= 'f' {
        c as int - 'a' as int + 10
    } else if 'A' <= c && c <= 'F' {
        c as int - 'A' as int + 10
    } else {
        0
    }
}

/// Whether every character of `s` is a hex digit.
pub open spec fn all_hex_digits(s: Seq<char>) -> bool {
    forall|i: int| 0 <= i < s.len() ==> is_hex_digit(#[trigger] s[i])
}

/// The bytes that the digit pairs of `digits` spell, first pair first.
pub open spec fn bytes_of_digits(digits: Seq<char>) -> Seq<u8> {
    Seq::new(
        digits.len() / 2,
        |i: int| (16 * hex_value(digits[2 * i]) + hex_value(digits[2 * i + 1])) as u8,
    )
}

/// `s` without a leading `0x` or `0X`.
pub open spec fn without_hex_prefix(s: Seq<char>) -> Seq<char> {
    if s.len() >= 2 && s[0] == '0' && (s[1] == 'x' || s[1] == 'X') {
        s.skip(2)
    } else {
        s
    }
}

/// The bytes that the hex text `s` decodes to: `s` has an even number of
/// characters and, after an optional `0x` or `0X`, hex digits only.
pub open spec fn hex_decoded(s: Seq<char>) -> Option<Seq<u8>> {
    if s.len() % 2 == 0 && all_hex_digits(without_hex_prefix(s)) {
        Some(bytes_of_digits(without_hex_prefix(s)))
    } else {
        None
    }
}

/// Calls `const_hex::decode` (as `ethers_core::utils::hex::decode`) on the
/// text's bytes. The contract restates its documented behaviour: an odd
/// length is an error, one `0x` or `0X` prefix is dropped, and every
/// remaining pair of hex digits, in either case, gives one byte; any other
/// character is an error.
#[verifier::external_body]
pub(crate) fn hex_decode(text: &str) -> (r: Option<Vec<u8>>)
    ensures
        r is Some <==> hex_decoded(text@) is Some,
        r matches Some(v) ==> v@ == hex_decoded(text@)->0,
{
    match ethers_core::utils::hex::decode(text) {
        Ok(bytes) => Some(bytes),
        Err(_) => None,
    }
}

/// Whether `c` is a character that the reading of a fixed-size hash skips.
pub open spec fn is_hex_space(c: char) -> bool {
    c == ' ' || c == '\r' || c == '\n' || c == '\t'
}

/// `s` without a leading lower-case `0x` and without the skipped characters.
pub open spec fn fixed_hex_digits(s: Seq<char>) -> Seq<char> {
    let body = if s.len() >= 2 && s[0] == '0' && s[1] == 'x' {
        s.skip(2)
    } else {
        s
    };
    body.filter(|c: char| !is_hex_space(c))
}

/// The `n` bytes that `s` spells as a fixed-size hash: after an optional
/// `0x`, and with blanks, tabs and line ends left out, exactly `2 * n` hex
/// digits.
pub open spec fn fixed_hex_parsed(s: Seq<char>, n: nat) -> Option<Seq<u8>> {
    let digits = fixed_hex_digits(s);
    if digits.len() == 2 * n && all_hex_digits(digits) {
        Some(bytes_of_digits(digits))
    } else {
        None
    }
}

/// Calls `H160::from_str` of `ethers_core` (the `FromStr` that `fixed-hash`
/// writes over `rustc_hex::FromHexIter`). The contract restates what that
/// source does: it drops one leading `0x`, skips blanks, tabs, carriage
/// returns and line feeds, and succeeds exactly when what is left is forty
/// hex digits, which it reads pair by pair, high digit first.
#[verifier::external_body]
pub(crate) fn parse_address(text: &str) -> (r: Option<Address>)
    ensures
        r is Some <==> fixed_hex_parsed(text@, 20) is Some,
        r matches Some(a) ==> a.bytes@ == fixed_hex_parsed(text@, 20)->0,
{
    match ethers_core::types::H160::from_str(text) {
        Ok(address) => Some(Address { bytes: address.0 }),
        Err(_) => None,
    }
}

/// Calls `H256::from_str` of `ethers_core`, which reads as `H160::from_str`
/// does, with sixty-four hex digits in place of forty.
#[verifier::external_body]
pub(crate) fn parse_hash(text: &str) -> (r: Option<H256>)
    ensures
        r is Some <==> fixed_hex_parsed(text@, 32) is Some,
        r matches Some(h) ==> h.bytes@ == fixed_hex_parsed(text@, 32)->0,
{
    match ethers_core::types::H256::from_str(text) {
        Ok(hash) => Some(H256 { bytes: hash.0 }),
        Err(_) => None,
    }
}

/// The Keccak-256 digest of a byte string, as `ethers_core` computes it.
pub uninterp spec fn keccak256_digest(bytes: Seq<u8>) -> Seq<u8>;

/// Calls `ethers_core::utils::keccak256`. The digest is a function of the
/// bytes alone; the contract gives it its name and claims no more.
#[verifier::external_body]
pub(crate) fn keccak256(bytes: &[u8]) -> (r: H256)
    ensures
        r.bytes@ == keccak256_digest(bytes@),
{
    H256 { bytes: ethers_core::utils::keccak256(bytes) }
}

/// Whether `ethers_core` lists a chain with this identifier.
pub uninterp spec fn chain_is_known(id: u64) -> bool;

/// Calls `Chain::try_from` of `ethers_core` on the identifier and reports
/// whether it named one of the chains of that enumeration.
#[verifier::external_body]
pub(crate) fn known_chain(id: u64) -> (r: bool)
    ensures
        r == chain_is_known(id),
{
    ethers_core::types::Chain::try_from(id).is_ok()
}

} // verus!
