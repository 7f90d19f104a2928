//! Text rendering of numbers, as the pipeline's messages show them.

use vstd::prelude::*;
use vstd::string::*;
use crate::types::u256::{limbs_value, U256};

verus! {

/// The character of a decimal digit.
pub open spec fn digit_char(d: nat) -> char
    recommends
        d < 10,
{
    if d == 0 {
        '0'
    } else if d == 1 {
        '1'
    } else if d == 2 {
        '2'
    } else if d == 3 {
        '3'
    } else if d == 4 {
        '4'
    } else if d == 5 {
        '5'
    } else if d == 6 {
        '6'
    } else if d == 7 {
        '7'
    } else if d == 8 {
        '8'
    } else {
        '9'
    }
}

/// A number written in base ten, without sign, padding or leading zeros.
pub open spec fn decimal(n: nat) -> Seq<char>
    decreases n,
{
    if n < 10 {
        seq![digit_char(n)]
    } else {
        decimal(n / 10).push(digit_char(n % 10))
    }
}

/// `u64`'s `Display`, through `format!`: the number in base ten.
#[verifier::external_body]
pub(crate) fn u64_to_decimal(n: u64) -> (r: String)
    ensures
        r@ == decimal(n as nat),
{
    format!("{}", n)
}

/// `alloy_primitives::U256`'s `Display` on the integer with the given limbs
/// (least significant first): the number in base ten.
#[verifier::external_body]
pub(crate) fn limbs_to_decimal(limbs: [u64; 4]) -> (r: String)
    ensures
        r@ == decimal(limbs_value(limbs[0], limbs[1], limbs[2], limbs[3])),
{
    alloy_primitives::U256::from_limbs(limbs).to_string()
}

/// A 256-bit number in base ten.
pub fn u256_to_decimal(v: U256) -> (r: String)
    ensures
        r@ == decimal(v@),
{
    limbs_to_decimal(v.into_limbs())
}

/// The text `head`, then `n` in base ten.
pub fn with_number(head: &str, n: u64) -> (r: String)
    ensures
        r@ == head@ + decimal(n as nat),
{
    let mut s = String::from_str(head);
    let d = u64_to_decimal(n);
    s.append(d.as_str());
    s
}

/// The texts `a`, `b` and `c`, one after the other.
pub fn concat3(a: &str, b: &str, c: &str) -> (r: String)
    ensures
        r@ == a@ + b@ + c@,
{
    let mut s = String::from_str(a);
    s.append(b);
    s.append(c);
    s
}

/// The texts `a`, `b`, `c` and `d`, one after the other.
pub fn concat4(a: &str, b: &str, c: &str, d: &str) -> (r: String)
    ensures
        r@ == a@ + b@ + c@ + d@,
{
    let mut s = String::from_str(a);
    s.append(b);
    s.append(c);
    s.append(d);
    s
}

} // verus!
