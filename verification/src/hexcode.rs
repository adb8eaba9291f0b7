//! Lowercase hex rendering of byte strings, as chain-specification
//! documents embed them. The encoding itself is done by the `hex` crate;
//! its output is pinned down exactly by the spec functions here.

use vstd::prelude::*;
use vstd::string::StringExecFns;

verus! {

/// The lowercase hex digit of a nibble.
pub open spec fn hex_digit(n: u8) -> char
    recommends
        n < 16,
{
    if n == 0 {
        '0'
    } else if n == 1 {
        '1'
    } else if n == 2 {
        '2'
    } else if n == 3 {
        '3'
    } else if n == 4 {
        '4'
    } else if n == 5 {
        '5'
    } else if n == 6 {
        '6'
    } else if n == 7 {
        '7'
    } else if n == 8 {
        '8'
    } else if n == 9 {
        '9'
    } else if n == 10 {
        'a'
    } else if n == 11 {
        'b'
    } else if n == 12 {
        'c'
    } else if n == 13 {
        'd'
    } else if n == 14 {
        'e'
    } else {
        'f'
    }
}

/// The lowercase hex rendering of a byte string: two digits per byte, high
/// nibble first.
pub open spec fn hex_of(bytes: Seq<u8>) -> Seq<char>
    decreases bytes.len(),
{
    if bytes.len() == 0 {
        Seq::empty()
    } else {
        seq![hex_digit((bytes.first() / 16) as u8), hex_digit((bytes.first() % 16) as u8)]
            + hex_of(bytes.skip(1))
    }
}

/// Relies on `hex::encode`: every input byte becomes two lowercase hex
/// digits, high nibble first, in input order.
#[verifier::external_body]
pub fn hex_encode(bytes: &Vec<u8>) -> (r: String)
    ensures
        r@ == hex_of(bytes@),
{
    hex::encode(bytes)
}

/// A byte string rendered as a `0x`-prefixed lowercase hex literal, the
/// form in which a chain-specification document embeds the runtime code.
pub fn hex_literal(bytes: &Vec<u8>) -> (r: String)
    ensures
        r@ == seq!['0', 'x'] + hex_of(bytes@),
{
    let mut s = String::from_str("0x");
    let digits = hex_encode(bytes);
    s.append(digits.as_str());
    proof {
        reveal_strlit("0x");
        assert(s@ =~= seq!['0', 'x'] + hex_of(bytes@));
    }
    s
}

} // verus!
