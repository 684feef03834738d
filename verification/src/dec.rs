//! Decimal digit strings: turning unsigned integers into their base-10
//! ASCII representation, the building block for every number shown in the
//! dashboard.

use vstd::prelude::*;

verus! {

/// The ASCII decimal representation of `n`, most significant digit first,
/// with no leading zeros (`0` is rendered as a single `0` digit).
pub open spec fn spec_dec_u128(n: u128) -> Seq<u8>
    decreases n,
{
    if n < 10 {
        seq![(48 + n) as u8]
    } else {
        spec_dec_u128((n / 10) as u128).push((48 + n % 10) as u8)
    }
}

/// Renders `n` in decimal.
pub fn u128_to_dec(n: u128) -> (r: Vec<u8>)
    ensures
        r@ == spec_dec_u128(n),
    decreases n,
{
    if n < 10 {
        let mut v: Vec<u8> = Vec::new();
        v.push(48 + (n as u8));
        proof {
            assert(v@ =~= seq![(48 + n) as u8]);
        }
        v
    } else {
        let mut v = u128_to_dec(n / 10);
        v.push(48 + ((n % 10) as u8));
        v
    }
}

/// Renders `n` in decimal.
pub fn u64_to_dec(n: u64) -> (r: Vec<u8>)
    ensures
        r@ == spec_dec_u128(n as u128),
{
    u128_to_dec(n as u128)
}

/// Renders `n` in decimal.
pub fn u32_to_dec(n: u32) -> (r: Vec<u8>)
    ensures
        r@ == spec_dec_u128(n as u128),
{
    u128_to_dec(n as u128)
}

/// The two-digit, zero-padded decimal representation of `n < 100`.
pub open spec fn spec_dec2(n: u64) -> Seq<u8> {
    seq![(48 + n / 10) as u8, (48 + n % 10) as u8]
}

/// Renders `n < 100` as exactly two digits.
pub fn u64_to_dec2(n: u64) -> (r: Vec<u8>)
    requires
        n < 100,
    ensures
        r@ == spec_dec2(n),
{
    let mut v: Vec<u8> = Vec::new();
    v.push(48 + ((n / 10) as u8));
    v.push(48 + ((n % 10) as u8));
    proof {
        assert(v@ =~= spec_dec2(n));
    }
    v
}

} // verus!
