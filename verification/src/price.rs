//! Price normalization and exact decimal rendering.
//!
//! A raw quote is a fixed-point pair `(multiplier, decimals)` whose real
//! value is `multiplier / 10^decimals`. Normalizing against a registry entry
//! with `display_decimals` yields the value `multiplier / 10^(decimals -
//! display_decimals)`; a feed that reports fewer decimals than the display
//! asks for is a reportable arithmetic fault, not a silent wrap. All values
//! are kept exact: a scaled price is rendered as its exact decimal string,
//! and the four-decimal floor policy for moving averages is integer
//! truncation.

use vstd::prelude::*;
use vstd::arithmetic::div_mod::*;

use crate::dec::{spec_dec_u128, u128_to_dec};
use crate::bytes::{push_bytes, sub_vec};

verus! {

/// A raw quote from the feed: real value `multiplier / 10^decimals`.
#[derive(Clone, Copy)]
pub struct AssetPrice {
    pub multiplier: u128,
    pub decimals: u8,
}

/// A normalized price: real value `multiplier / 10^decimals`, where
/// `decimals` is the feed's decimal count minus the display decimal count.
#[derive(Clone, Copy)]
pub struct ScaledPrice {
    pub multiplier: u128,
    pub decimals: u8,
}

/// `10^e`.
pub open spec fn pow10(e: nat) -> int
    decreases e,
{
    if e == 0 {
        1
    } else {
        10 * pow10((e - 1) as nat)
    }
}

pub proof fn lemma_pow10_pos(e: nat)
    ensures
        pow10(e) >= 1,
    decreases e,
{
    if e > 0 {
        lemma_pow10_pos((e - 1) as nat);
    }
}

pub proof fn lemma_pow10_add(a: nat, b: nat)
    ensures
        pow10(a + b) == pow10(a) * pow10(b),
    decreases b,
{
    if b == 0 {
        assert(pow10(a + 0) == pow10(a) * 1);
    } else {
        lemma_pow10_add(a, (b - 1) as nat);
        assert(pow10(a + b) == 10 * pow10((a + b - 1) as nat));
        assert(pow10(a) * pow10(b) == pow10(a) * (10 * pow10((b - 1) as nat)));
        assert(pow10(a) * (10 * pow10((b - 1) as nat)) == 10 * (pow10(a) * pow10(
            (b - 1) as nat,
        ))) by (nonlinear_arith);
    }
}

/// The normalized value of `price` displayed with `display_decimals`:
/// `Some` exactly when the feed's decimal count is at least the display's,
/// carrying `multiplier / 10^(decimals - display_decimals)`; `None` is the
/// normalization fault.
pub open spec fn spec_normalize(price: AssetPrice, display_decimals: u8) -> Option<ScaledPrice> {
    if price.decimals >= display_decimals {
        Some(
            ScaledPrice {
                multiplier: price.multiplier,
                decimals: (price.decimals - display_decimals) as u8,
            },
        )
    } else {
        None
    }
}

/// Normalizes a raw quote against the display decimal count.
pub fn normalize(price: AssetPrice, display_decimals: u8) -> (r: Option<ScaledPrice>)
    ensures
        r == spec_normalize(price, display_decimals),
{
    if price.decimals >= display_decimals {
        Some(ScaledPrice { multiplier: price.multiplier, decimals: price.decimals - display_decimals })
    } else {
        None
    }
}

/// A normalized quote with equal feed and display decimal counts is exactly
/// the raw multiplier (exponent zero); with a larger feed count it is
/// `multiplier / 10^(decimals - display_decimals)`; with a smaller one,
/// normalization reports the fault instead of wrapping.
pub proof fn lemma_normalize_value(price: AssetPrice, display_decimals: u8)
    ensures
        price.decimals >= display_decimals ==> spec_normalize(price, display_decimals)
            == Some(
            ScaledPrice {
                multiplier: price.multiplier,
                decimals: (price.decimals - display_decimals) as u8,
            },
        ),
        price.decimals == display_decimals ==> spec_normalize(price, display_decimals)
            == Some(ScaledPrice { multiplier: price.multiplier, decimals: 0 }),
        price.decimals < display_decimals ==> spec_normalize(price, display_decimals) is None,
{
}

/// `m / 10^e`, computed by repeated division so that no power of ten has to
/// fit in a machine word.
pub fn div_pow10(m: u128, e: usize) -> (r: u128)
    ensures
        r == m as int / pow10(e as nat),
{
    let mut r = m;
    let mut i: usize = 0;
    while i < e
        invariant
            i <= e,
            r == m as int / pow10(i as nat),
        decreases e - i,
    {
        proof {
            lemma_pow10_pos(i as nat);
            lemma_div_denominator(m as int, pow10(i as nat), 10);
            assert(pow10(i as nat) * 10 == pow10((i + 1) as nat)) by {
                lemma_pow10_add(i as nat, 1);
            }
            lemma_div_pos_is_pos(m as int, pow10(i as nat));
        }
        r = r / 10;
        i += 1;
    }
    r
}

/// The four-decimal floor policy: the value truncated toward zero to four
/// decimal places. A value that already has at most four decimal places is
/// unchanged.
pub open spec fn spec_floor_4dp(s: ScaledPrice) -> ScaledPrice {
    if s.decimals <= 4 {
        s
    } else {
        ScaledPrice {
            multiplier: (s.multiplier as int / pow10((s.decimals - 4) as nat)) as u128,
            decimals: 4,
        }
    }
}

/// Applies the four-decimal floor policy.
pub fn floor_4dp(s: ScaledPrice) -> (r: ScaledPrice)
    ensures
        r == spec_floor_4dp(s),
{
    if s.decimals <= 4 {
        s
    } else {
        let q = div_pow10(s.multiplier, (s.decimals - 4) as usize);
        proof {
            lemma_pow10_pos((s.decimals - 4) as nat);
            lemma_div_nonincreasing(s.multiplier as int, pow10((s.decimals - 4) as nat));
            lemma_div_pos_is_pos(s.multiplier as int, pow10((s.decimals - 4) as nat));
        }
        ScaledPrice { multiplier: q, decimals: 4 }
    }
}

/// The floored value never exceeds the true value and differs from it by
/// less than `10^-4`. Writing `f` for the floored price, `v = s.multiplier /
/// 10^s.decimals` for the true value and `v' = f.multiplier / 10^f.decimals`
/// for the floored one, the two clauses below divided by `10^s.decimals *
/// 10^4` read `v' <= v < v' + 10^-4`.
pub proof fn lemma_floor_4dp_bounds(s: ScaledPrice)
    ensures
        spec_floor_4dp(s).decimals <= 4,
        spec_floor_4dp(s).multiplier * pow10((s.decimals - spec_floor_4dp(s).decimals) as nat)
            <= s.multiplier,
        s.multiplier * pow10(4) < spec_floor_4dp(s).multiplier * pow10(
            (s.decimals - spec_floor_4dp(s).decimals) as nat,
        ) * pow10(4) + pow10(s.decimals as nat),
{
    let f = spec_floor_4dp(s);
    if s.decimals <= 4 {
        lemma_pow10_pos(s.decimals as nat);
        lemma_pow10_pos(4);
        assert(f.multiplier * pow10(0) == s.multiplier);
    } else {
        let d = (s.decimals - 4) as nat;
        let p = pow10(d);
        let q = pow10(4);
        lemma_pow10_pos(d);
        lemma_pow10_pos(4);
        lemma_pow10_add(d, 4);
        lemma_fundamental_div_mod(s.multiplier as int, p);
        lemma_mod_bound(s.multiplier as int, p);
        let fm = s.multiplier as int / p;
        assert(fm * p <= s.multiplier < fm * p + p);
        assert(s.multiplier * q < fm * p * q + p * q) by (nonlinear_arith)
            requires
                (s.multiplier as int) < fm * p + p,
                q >= 1,
        ;
        assert(pow10(s.decimals as nat) == p * q);
    }
}

/// All zeros.
pub open spec fn zeros(n: nat) -> Seq<u8> {
    Seq::new(n, |i: int| 48u8)
}

/// Drops trailing ASCII `0` digits.
pub open spec fn trim_zeros(s: Seq<u8>) -> Seq<u8>
    decreases s.len(),
{
    if s.len() > 0 && s.last() == 48 {
        trim_zeros(s.drop_last())
    } else {
        s
    }
}

/// The exact decimal string of the value `s.multiplier / 10^s.decimals`:
/// integer part, then a dot and the fractional digits with trailing zeros
/// removed; no dot when the fraction is zero.
pub open spec fn spec_render_scaled(s: ScaledPrice) -> Seq<u8> {
    let ds = spec_dec_u128(s.multiplier);
    if s.decimals == 0 {
        ds
    } else {
        let ip = if ds.len() > s.decimals {
            ds.take(ds.len() - s.decimals as int)
        } else {
            seq![48u8]
        };
        let fp = if ds.len() > s.decimals {
            ds.skip(ds.len() - s.decimals as int)
        } else {
            zeros((s.decimals - ds.len()) as nat) + ds
        };
        let t = trim_zeros(fp);
        if t.len() == 0 {
            ip
        } else {
            ip + seq![46u8] + t
        }
    }
}

/// Renders a normalized price as its exact decimal string.
pub fn render_scaled(s: ScaledPrice) -> (r: Vec<u8>)
    ensures
        r@ == spec_render_scaled(s),
{
    let ds = u128_to_dec(s.multiplier);
    if s.decimals == 0 {
        return ds;
    }
    let k = s.decimals as usize;
    let mut ip: Vec<u8>;
    let mut fp: Vec<u8>;
    if ds.len() > k {
        ip = sub_vec(&ds, 0, ds.len() - k);
        fp = sub_vec(&ds, ds.len() - k, ds.len());
        proof {
            assert(ip@ =~= ds@.take(ds@.len() - k));
            assert(fp@ =~= ds@.skip(ds@.len() - k));
        }
    } else {
        ip = Vec::new();
        ip.push(48);
        fp = Vec::new();
        let pad = k - ds.len();
        let mut i: usize = 0;
        while i < pad
            invariant
                i <= pad,
                fp@ =~= zeros(i as nat),
            decreases pad - i,
        {
            fp.push(48);
            proof {
                assert(fp@ =~= zeros((i + 1) as nat));
            }
            i += 1;
        }
        push_bytes(&mut fp, &ds);
        proof {
            assert(ip@ =~= seq![48u8]);
            assert(fp@ =~= zeros((k - ds@.len()) as nat) + ds@);
        }
    }
    let ghost fp0 = fp@;
    while fp.len() > 0 && fp[fp.len() - 1] == 48
        invariant
            trim_zeros(fp@) == trim_zeros(fp0),
        decreases fp@.len(),
    {
        let ghost pre = fp@;
        let _ = fp.pop();
        proof {
            assert(fp@ =~= pre.drop_last());
        }
    }
    assert(trim_zeros(fp@) =~= fp@);
    if fp.len() > 0 {
        ip.push(46);
        push_bytes(&mut ip, &fp);
        proof {
            assert(ip@ =~= spec_render_scaled(s));
        }
    } else {
        proof {
            assert(ip@ =~= spec_render_scaled(s));
        }
    }
    ip
}

} // verus!
