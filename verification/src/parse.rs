//! The feed decoder.
//!
//! The two upstream feeds arrive as JSON bytes with a fixed field order.
//! Insignificant whitespace between tokens is accepted; identifier strings
//! must be free of escapes; an integer carried bare follows the JSON number
//! grammar (no sign, no leading zero), while an integer carried as a string
//! is read the way `str::parse` reads it: an optional leading `+`, then one
//! or more digits, leading zeros included. The grammar is written down as
//! total specification functions over `Seq<u8>`; each executable parser
//! returns exactly what the specification function denotes. Decoding is
//! strict: any deviation from the grammar, including trailing bytes other
//! than whitespace, is a decode failure for the whole request.

use vstd::prelude::*;
use vstd::string::StringSliceAdditionalSpecFns;

use crate::bytes::sub_vec;
use crate::feed::{
    assets_view, Asset, AssetEma, AssetOptionalPrice, AssetOptionalPriceV, AssetV, PriceData,
    PriceDataV, Report, ReportV,
};
use crate::price::AssetPrice;

verus! {

pub open spec fn is_digit(b: u8) -> bool {
    48 <= b <= 57
}

/// JSON's insignificant whitespace: space, tab, line feed, carriage return.
pub open spec fn is_ws(b: u8) -> bool {
    b == 32 || b == 9 || b == 10 || b == 13
}

/// The bytes `pat` occur in `s` at offset `i`.
pub open spec fn match_at(s: Seq<u8>, i: int, pat: Seq<u8>) -> bool {
    0 <= i && i + pat.len() <= s.len() && s.subrange(i, i + pat.len()) == pat
}

/// Offset just past `pat` when it occurs exactly at `i`.
pub open spec fn spec_eat(s: Seq<u8>, i: int, pat: Seq<u8>) -> Option<int> {
    if match_at(s, i, pat) {
        Some(i + pat.len())
    } else {
        None
    }
}

/// First offset at or after `i` that does not hold whitespace.
pub open spec fn ws_end(s: Seq<u8>, i: int) -> int
    decreases s.len() - i,
{
    if 0 <= i < s.len() && is_ws(s[i]) {
        ws_end(s, i + 1)
    } else {
        i
    }
}

/// Offset just past the token `pat`, whitespace before it skipped.
pub open spec fn spec_tok(s: Seq<u8>, i: int, pat: Seq<u8>) -> Option<int> {
    spec_eat(s, ws_end(s, i), pat)
}

/// First offset at or after `i` that does not hold a digit.
pub open spec fn digits_end(s: Seq<u8>, i: int) -> int
    decreases s.len() - i,
{
    if 0 <= i < s.len() && is_digit(s[i]) {
        digits_end(s, i + 1)
    } else {
        i
    }
}

/// The value of the digit run `s[i..j)`.
pub open spec fn digits_val(s: Seq<u8>, i: int, j: int) -> int
    decreases j - i,
{
    if i >= j {
        0
    } else {
        digits_val(s, i, j - 1) * 10 + (s[j - 1] - 48)
    }
}

/// A nonempty digit run at `i`, read as a decimal value of at most `max`;
/// leading zeros contribute nothing but are consumed.
pub open spec fn spec_parse_digits(s: Seq<u8>, i: int, max: int) -> Option<(int, int)> {
    let j = digits_end(s, i);
    if j == i {
        None
    } else if digits_val(s, i, j) > max {
        None
    } else {
        Some((j, digits_val(s, i, j)))
    }
}

/// A bare JSON number at `i`: a nonempty digit run with no sign and no
/// leading zero (a lone `0` is allowed), whose value is at most `max`.
pub open spec fn spec_parse_number(s: Seq<u8>, i: int, max: int) -> Option<(int, int)> {
    if 0 <= i < s.len() && s[i] == 48 && digits_end(s, i) > i + 1 {
        None
    } else {
        spec_parse_digits(s, i, max)
    }
}

/// A string-wrapped unsigned integer at `i`, read the way `str::parse`
/// reads it: an optional leading `+`, then one or more digits, leading
/// zeros accepted; the value must be at most `max`.
pub open spec fn spec_parse_uint_str(s: Seq<u8>, i: int, max: int) -> Option<(int, int)> {
    let i0 = if 0 <= i < s.len() && s[i] == 43 {
        i + 1
    } else {
        i
    };
    spec_parse_digits(s, i0, max)
}

/// A bare JSON number token, whitespace before it skipped.
pub open spec fn spec_tok_number(s: Seq<u8>, i: int, max: int) -> Option<(int, int)> {
    spec_parse_number(s, ws_end(s, i), max)
}

/// End of a string body starting at `j`: the offset of the closing quote,
/// reached without escapes, quotes or control bytes in between.
pub open spec fn str_end(s: Seq<u8>, j: int) -> Option<int>
    decreases s.len() - j,
{
    if j < 0 || j >= s.len() {
        None
    } else if s[j] == 34 {
        Some(j)
    } else if s[j] < 32 || s[j] == 92 {
        None
    } else {
        str_end(s, j + 1)
    }
}

/// A string body at `i` (the opening quote already consumed): the content
/// bytes, with the offset just past the closing quote.
pub open spec fn spec_parse_str(s: Seq<u8>, i: int) -> Option<(int, Seq<u8>)> {
    match str_end(s, i) {
        None => None,
        Some(e) => Some((e + 1, s.subrange(i, e))),
    }
}

/// A quoted string value: whitespace, `"`, the body, `"`.
pub open spec fn spec_quoted_str(s: Seq<u8>, i: int) -> Option<(int, Seq<u8>)> {
    match spec_tok(s, i, "\"".spec_bytes()) {
        None => None,
        Some(i1) => spec_parse_str(s, i1),
    }
}

/// A string-wrapped unsigned integer value: whitespace, `"`, the integer in
/// `str::parse` form, `"` immediately after the digits.
pub open spec fn spec_quoted_uint(s: Seq<u8>, i: int, max: int) -> Option<(int, int)> {
    match spec_tok(s, i, "\"".spec_bytes()) {
        None => None,
        Some(i1) => match spec_parse_uint_str(s, i1, max) {
            None => None,
            Some((i2, v)) => match spec_eat(s, i2, "\"".spec_bytes()) {
                None => None,
                Some(i3) => Some((i3, v)),
            },
        },
    }
}

/// An object field's key and its colon: the key token, then `:`, each with
/// whitespace before it skipped.
pub open spec fn spec_field(s: Seq<u8>, i: int, key: Seq<u8>) -> Option<int> {
    match spec_tok(s, i, key) {
        None => None,
        Some(j) => spec_tok(s, j, ":".spec_bytes()),
    }
}

proof fn lemma_digits_end_bounds(s: Seq<u8>, i: int)
    requires
        0 <= i <= s.len(),
    ensures
        i <= digits_end(s, i) <= s.len(),
        forall|k: int| i <= k < digits_end(s, i) ==> is_digit(s[k]),
        digits_end(s, i) < s.len() ==> !is_digit(s[digits_end(s, i)]),
    decreases s.len() - i,
{
    if i < s.len() && is_digit(s[i]) {
        lemma_digits_end_bounds(s, i + 1);
    }
}

proof fn lemma_digits_val_nonneg(s: Seq<u8>, i: int, j: int)
    requires
        forall|k: int| i <= k < j ==> is_digit(s[k]),
        0 <= i,
        j <= s.len(),
    ensures
        digits_val(s, i, j) >= 0,
    decreases j - i,
{
    if i < j {
        lemma_digits_val_nonneg(s, i, j - 1);
    }
}

proof fn lemma_digits_val_mono(s: Seq<u8>, i: int, k: int, j: int)
    requires
        0 <= i <= k <= j <= s.len(),
        forall|m: int| i <= m < j ==> is_digit(s[m]),
    ensures
        digits_val(s, i, j) >= digits_val(s, i, k),
    decreases j - k,
{
    if k < j {
        lemma_digits_val_mono(s, i, k, j - 1);
        lemma_digits_val_nonneg(s, i, j - 1);
    }
}

/// Skips insignificant whitespace.
pub fn skip_ws(s: &Vec<u8>, i: usize) -> (r: usize)
    requires
        i <= s@.len(),
    ensures
        r == ws_end(s@, i as int),
        i <= r <= s@.len(),
{
    let n = s.len();
    let mut j: usize = i;
    while j < n && (s[j] == 32 || s[j] == 9 || s[j] == 10 || s[j] == 13)
        invariant
            i <= j <= n,
            n == s@.len(),
            ws_end(s@, i as int) == ws_end(s@, j as int),
        decreases n - j,
    {
        j += 1;
    }
    j
}

/// Parses a nonempty digit run of value at most `max` at offset `i`.
pub fn parse_digits(s: &Vec<u8>, i: usize, max: u128) -> (r: Option<(usize, u128)>)
    requires
        i <= s@.len(),
        max >= 9,
    ensures
        match r {
            Some((j, v)) => spec_parse_digits(s@, i as int, max as int) == Some(
                (j as int, v as int),
            ) && i < j <= s@.len() && v <= max,
            None => spec_parse_digits(s@, i as int, max as int) is None,
        },
{
    let n = s.len();
    proof {
        lemma_digits_end_bounds(s@, i as int);
    }
    let ghost end = digits_end(s@, i as int);
    if i == n || s[i] < 48 || s[i] > 57 {
        proof {
            assert(digits_end(s@, i as int) == i);
        }
        return None;
    }
    let mut j: usize = i;
    let mut acc: u128 = 0;
    while j < n && s[j] >= 48 && s[j] <= 57
        invariant
            i <= j <= n,
            n == s@.len(),
            end == digits_end(s@, i as int),
            i <= end <= n,
            forall|k: int| i <= k < end ==> is_digit(s@[k]),
            end < n ==> !is_digit(s@[end]),
            j <= end,
            acc == digits_val(s@, i as int, j as int),
            acc <= max,
            max >= 9,
        decreases n - j,
    {
        proof {
            if j as int == end {
                assert(is_digit(s@[j as int]));
                assert(false);
            }
        }
        let d = s[j] - 48;
        if acc > (max - d as u128) / 10 {
            proof {
                let full = digits_val(s@, i as int, end);
                let next = digits_val(s@, i as int, j + 1);
                assert(next == acc * 10 + d);
                vstd::arithmetic::div_mod::lemma_fundamental_div_mod((max - d) as int, 10);
                assert(acc * 10 + d > max);
                lemma_digits_val_mono(s@, i as int, j + 1, end);
                assert(full > max);
            }
            return None;
        }
        proof {
            vstd::arithmetic::div_mod::lemma_fundamental_div_mod((max - d) as int, 10);
            assert(acc * 10 + d <= max);
        }
        acc = acc * 10 + d as u128;
        j += 1;
    }
    proof {
        assert(j as int == end) by {
            if (j as int) < end {
                assert(is_digit(s@[j as int]));
            }
        }
    }
    Some((j, acc))
}

/// Parses a bare JSON number of value at most `max` at offset `i`.
pub fn parse_number(s: &Vec<u8>, i: usize, max: u128) -> (r: Option<(usize, u128)>)
    requires
        i <= s@.len(),
        max >= 9,
    ensures
        match r {
            Some((j, v)) => spec_parse_number(s@, i as int, max as int) == Some(
                (j as int, v as int),
            ) && i < j <= s@.len() && v <= max,
            None => spec_parse_number(s@, i as int, max as int) is None,
        },
{
    let n = s.len();
    if i < n && s[i] == 48 && i + 1 < n && s[i + 1] >= 48 && s[i + 1] <= 57 {
        proof {
            lemma_digits_end_bounds(s@, i + 2);
            let e2 = digits_end(s@, i + 2);
            assert(forall|k: int| i <= k < e2 ==> is_digit(s@[k]));
            assert(digits_end(s@, i as int) == e2) by {
                lemma_digits_end_char(s@, i as int, e2);
            }
            assert(digits_end(s@, i as int) >= i + 2);
        }
        return None;
    }
    proof {
        lemma_digits_end_bounds(s@, i as int);
        if 0 <= (i as int) < s@.len() && s@[i as int] == 48 && digits_end(s@, i as int) > i + 1 {
            assert(is_digit(s@[i + 1]));
            assert(false);
        }
    }
    parse_digits(s, i, max)
}

proof fn lemma_digits_end_char(s: Seq<u8>, i: int, j: int)
    requires
        0 <= i <= j <= s.len(),
        forall|k: int| i <= k < j ==> is_digit(s[k]),
        j == s.len() || !is_digit(s[j]),
    ensures
        digits_end(s, i) == j,
    decreases j - i,
{
    if i < j {
        lemma_digits_end_char(s, i + 1, j);
    }
}

/// Parses a string-wrapped unsigned integer, as `str::parse` would.
pub fn parse_uint_str(s: &Vec<u8>, i: usize, max: u128) -> (r: Option<(usize, u128)>)
    requires
        i <= s@.len(),
        max >= 9,
    ensures
        match r {
            Some((j, v)) => spec_parse_uint_str(s@, i as int, max as int) == Some(
                (j as int, v as int),
            ) && i < j <= s@.len() && v <= max,
            None => spec_parse_uint_str(s@, i as int, max as int) is None,
        },
{
    let n = s.len();
    let i0 = if i < n && s[i] == 43 {
        i + 1
    } else {
        i
    };
    parse_digits(s, i0, max)
}

/// Parses a string body at `i` (opening quote already consumed), returning
/// the content bytes and the offset just past the closing quote.
pub fn parse_str(s: &Vec<u8>, i: usize) -> (r: Option<(usize, Vec<u8>)>)
    requires
        i <= s@.len(),
    ensures
        match r {
            Some((j, v)) => spec_parse_str(s@, i as int) == Some((j as int, v@)) && i < j
                <= s@.len(),
            None => spec_parse_str(s@, i as int) is None,
        },
{
    let n = s.len();
    let mut j: usize = i;
    while j < n
        invariant
            i <= j <= n,
            n == s@.len(),
            str_end(s@, i as int) == str_end(s@, j as int),
        decreases n - j,
    {
        let b = s[j];
        if b == 34 {
            let v = sub_vec(s, i, j);
            return Some((j + 1, v));
        }
        if b < 32 || b == 92 {
            return None;
        }
        j += 1;
    }
    None
}

/// Consumes the literal `pat` exactly at offset `i`.
pub fn eat(s: &Vec<u8>, i: usize, pat: &str) -> (r: Option<usize>)
    requires
        i <= s@.len(),
    ensures
        match r {
            Some(j) => spec_eat(s@, i as int, pat.spec_bytes()) == Some(j as int) && i <= j
                <= s@.len(),
            None => spec_eat(s@, i as int, pat.spec_bytes()) is None,
        },
{
    let b: &[u8] = pat.as_bytes();
    let m = b.len();
    let n = s.len();
    if n_remaining(s, i) < m {
        proof {
            assert(!match_at(s@, i as int, pat.spec_bytes()));
        }
        return None;
    }
    let mut k: usize = 0;
    while k < m
        invariant
            k <= m,
            m == b@.len(),
            b@ == pat.spec_bytes(),
            n == s@.len(),
            i + m <= n,
            forall|t: int| 0 <= t < k ==> s@[i + t] == b@[t],
        decreases m - k,
    {
        if s[i + k] != *vstd::slice::slice_index_get(b, k) {
            proof {
                if match_at(s@, i as int, pat.spec_bytes()) {
                    assert(s@.subrange(i as int, i + m)[k as int] == s@[i + k]);
                }
            }
            return None;
        }
        k += 1;
    }
    proof {
        assert(s@.subrange(i as int, i + m) =~= pat.spec_bytes());
    }
    Some(i + m)
}

/// Consumes the token `pat`, whitespace before it skipped.
pub fn tok(s: &Vec<u8>, i: usize, pat: &str) -> (r: Option<usize>)
    requires
        i <= s@.len(),
    ensures
        match r {
            Some(j) => spec_tok(s@, i as int, pat.spec_bytes()) == Some(j as int) && i <= j
                <= s@.len(),
            None => spec_tok(s@, i as int, pat.spec_bytes()) is None,
        },
{
    let k = skip_ws(s, i);
    eat(s, k, pat)
}

/// Parses a bare JSON number token, whitespace before it skipped.
pub fn tok_number(s: &Vec<u8>, i: usize, max: u128) -> (r: Option<(usize, u128)>)
    requires
        i <= s@.len(),
        max >= 9,
    ensures
        match r {
            Some((j, v)) => spec_tok_number(s@, i as int, max as int) == Some(
                (j as int, v as int),
            ) && i < j <= s@.len() && v <= max,
            None => spec_tok_number(s@, i as int, max as int) is None,
        },
{
    let k = skip_ws(s, i);
    parse_number(s, k, max)
}

/// Parses a quoted string value.
pub fn quoted_str(s: &Vec<u8>, i: usize) -> (r: Option<(usize, Vec<u8>)>)
    requires
        i <= s@.len(),
    ensures
        match r {
            Some((j, v)) => spec_quoted_str(s@, i as int) == Some((j as int, v@)) && i < j
                <= s@.len(),
            None => spec_quoted_str(s@, i as int) is None,
        },
{
    let i1 = match tok(s, i, "\"") {
        Some(x) => x,
        None => {
            return None;
        },
    };
    parse_str(s, i1)
}

/// Parses a string-wrapped unsigned integer value.
pub fn quoted_uint(s: &Vec<u8>, i: usize, max: u128) -> (r: Option<(usize, u128)>)
    requires
        i <= s@.len(),
        max >= 9,
    ensures
        match r {
            Some((j, v)) => spec_quoted_uint(s@, i as int, max as int) == Some(
                (j as int, v as int),
            ) && i < j <= s@.len() && v <= max,
            None => spec_quoted_uint(s@, i as int, max as int) is None,
        },
{
    let i1 = match tok(s, i, "\"") {
        Some(x) => x,
        None => {
            return None;
        },
    };
    let (i2, v) = match parse_uint_str(s, i1, max) {
        Some(x) => x,
        None => {
            return None;
        },
    };
    let i3 = match eat(s, i2, "\"") {
        Some(x) => x,
        None => {
            return None;
        },
    };
    Some((i3, v))
}

/// Consumes a field key and its colon.
pub fn field(s: &Vec<u8>, i: usize, key: &str) -> (r: Option<usize>)
    requires
        i <= s@.len(),
    ensures
        match r {
            Some(j) => spec_field(s@, i as int, key.spec_bytes()) == Some(j as int) && i <= j
                <= s@.len(),
            None => spec_field(s@, i as int, key.spec_bytes()) is None,
        },
{
    let j = match tok(s, i, key) {
        Some(x) => x,
        None => {
            return None;
        },
    };
    tok(s, j, ":")
}

fn n_remaining(s: &Vec<u8>, i: usize) -> (r: usize)
    requires
        i <= s@.len(),
    ensures
        r == s@.len() - i,
{
    s.len() - i
}

/// A quote object: `{"multiplier":"<u128>","decimals":<u8>}`.
pub open spec fn spec_parse_price(s: Seq<u8>, i: int) -> Option<(int, AssetPrice)> {
    match spec_tok(s, i, "{".spec_bytes()) {
        None => None,
        Some(i1) => match spec_field(s, i1, "\"multiplier\"".spec_bytes()) {
            None => None,
            Some(i2) => match spec_quoted_uint(s, i2, u128::MAX as int) {
                None => None,
                Some((i3, m)) => match spec_tok(s, i3, ",".spec_bytes()) {
                    None => None,
                    Some(i4) => match spec_field(s, i4, "\"decimals\"".spec_bytes()) {
                        None => None,
                        Some(i5) => match spec_tok_number(s, i5, 255) {
                            None => None,
                            Some((i6, d)) => match spec_tok(s, i6, "}".spec_bytes()) {
                                None => None,
                                Some(i7) => Some(
                                    (i7, AssetPrice { multiplier: m as u128, decimals: d as u8 }),
                                ),
                            },
                        },
                    },
                },
            },
        },
    }
}

/// A quote or the JSON `null`.
pub open spec fn spec_parse_opt_price(s: Seq<u8>, i: int) -> Option<(int, Option<AssetPrice>)> {
    match spec_tok(s, i, "null".spec_bytes()) {
        Some(j) => Some((j, None)),
        None => match spec_parse_price(s, i) {
            None => None,
            Some((j, p)) => Some((j, Some(p))),
        },
    }
}

/// A snapshot row: `{"asset_id":"<id>","price":<quote or null>}`.
pub open spec fn spec_parse_aop(s: Seq<u8>, i: int) -> Option<(int, AssetOptionalPriceV)> {
    match spec_tok(s, i, "{".spec_bytes()) {
        None => None,
        Some(i1) => match spec_field(s, i1, "\"asset_id\"".spec_bytes()) {
            None => None,
            Some(i2) => match spec_quoted_str(s, i2) {
                None => None,
                Some((i3, id)) => match spec_tok(s, i3, ",".spec_bytes()) {
                    None => None,
                    Some(i4) => match spec_field(s, i4, "\"price\"".spec_bytes()) {
                        None => None,
                        Some(i5) => match spec_parse_opt_price(s, i5) {
                            None => None,
                            Some((i6, p)) => match spec_tok(s, i6, "}".spec_bytes()) {
                                None => None,
                                Some(i7) => Some(
                                    (i7, AssetOptionalPriceV { asset_id: id, price: p }),
                                ),
                            },
                        },
                    },
                },
            },
        },
    }
}

/// One or more comma-separated snapshot rows followed by `]`.
pub open spec fn spec_parse_aop_elems(s: Seq<u8>, i: int) -> Option<(int, Seq<AssetOptionalPriceV>)>
    decreases s.len() - i,
{
    match spec_parse_aop(s, i) {
        None => None,
        Some((j, v)) => match spec_tok(s, j, ",".spec_bytes()) {
            Some(j1) => if i < j1 <= s.len() {
                match spec_parse_aop_elems(s, j1) {
                    None => None,
                    Some((k, vs)) => Some((k, seq![v] + vs)),
                }
            } else {
                None
            },
            None => match spec_tok(s, j, "]".spec_bytes()) {
                Some(j1) => Some((j1, seq![v])),
                None => None,
            },
        },
    }
}

/// A snapshot row list: `[]` or `[<row>,...]`.
pub open spec fn spec_parse_aop_list(s: Seq<u8>, i: int) -> Option<(int, Seq<AssetOptionalPriceV>)> {
    match spec_tok(s, i, "[".spec_bytes()) {
        None => None,
        Some(i1) => match spec_tok(s, i1, "]".spec_bytes()) {
            Some(i2) => Some((i2, Seq::empty())),
            None => spec_parse_aop_elems(s, i1),
        },
    }
}

/// The whole price-snapshot feed; trailing bytes other than whitespace are
/// a decode failure.
pub open spec fn spec_parse_price_data(s: Seq<u8>) -> Option<PriceDataV> {
    match spec_tok(s, 0, "{".spec_bytes()) {
        None => None,
        Some(i1) => match spec_field(s, i1, "\"timestamp\"".spec_bytes()) {
            None => None,
            Some(i2) => match spec_quoted_uint(s, i2, u64::MAX as int) {
                None => None,
                Some((i3, ts)) => match spec_tok(s, i3, ",".spec_bytes()) {
                    None => None,
                    Some(i4) => match spec_field(s, i4, "\"recency_duration_sec\"".spec_bytes()) {
                        None => None,
                        Some(i5) => match spec_tok_number(s, i5, u32::MAX as int) {
                            None => None,
                            Some((i6, rec)) => match spec_tok(s, i6, ",".spec_bytes()) {
                                None => None,
                                Some(i7) => match spec_field(s, i7, "\"prices\"".spec_bytes()) {
                                    None => None,
                                    Some(i8) => match spec_parse_aop_list(s, i8) {
                                        None => None,
                                        Some((i9, prices)) => match spec_tok(
                                            s,
                                            i9,
                                            "}".spec_bytes(),
                                        ) {
                                            None => None,
                                            Some(i10) => if ws_end(s, i10) == s.len() {
                                                Some(
                                                    PriceDataV {
                                                        timestamp: ts as u64,
                                                        recency_duration_sec: rec as u32,
                                                        prices: prices,
                                                    },
                                                )
                                            } else {
                                                None
                                            },
                                        },
                                    },
                                },
                            },
                        },
                    },
                },
            },
        },
    }
}

/// A validator report: `{"oracle_id":"<id>","timestamp":"<u64>","price":<quote>}`.
pub open spec fn spec_parse_report(s: Seq<u8>, i: int) -> Option<(int, ReportV)> {
    match spec_tok(s, i, "{".spec_bytes()) {
        None => None,
        Some(i1) => match spec_field(s, i1, "\"oracle_id\"".spec_bytes()) {
            None => None,
            Some(i2) => match spec_quoted_str(s, i2) {
                None => None,
                Some((i3, id)) => match spec_tok(s, i3, ",".spec_bytes()) {
                    None => None,
                    Some(i4) => match spec_field(s, i4, "\"timestamp\"".spec_bytes()) {
                        None => None,
                        Some(i5) => match spec_quoted_uint(s, i5, u64::MAX as int) {
                            None => None,
                            Some((i6, ts)) => match spec_tok(s, i6, ",".spec_bytes()) {
                                None => None,
                                Some(i7) => match spec_field(s, i7, "\"price\"".spec_bytes()) {
                                    None => None,
                                    Some(i8) => match spec_parse_price(s, i8) {
                                        None => None,
                                        Some((i9, p)) => match spec_tok(s, i9, "}".spec_bytes()) {
                                            None => None,
                                            Some(i10) => Some(
                                                (
                                                    i10,
                                                    ReportV {
                                                        oracle_id: id,
                                                        timestamp: ts as u64,
                                                        price: p,
                                                    },
                                                ),
                                            ),
                                        },
                                    },
                                },
                            },
                        },
                    },
                },
            },
        },
    }
}

pub open spec fn spec_parse_report_elems(s: Seq<u8>, i: int) -> Option<(int, Seq<ReportV>)>
    decreases s.len() - i,
{
    match spec_parse_report(s, i) {
        None => None,
        Some((j, v)) => match spec_tok(s, j, ",".spec_bytes()) {
            Some(j1) => if i < j1 <= s.len() {
                match spec_parse_report_elems(s, j1) {
                    None => None,
                    Some((k, vs)) => Some((k, seq![v] + vs)),
                }
            } else {
                None
            },
            None => match spec_tok(s, j, "]".spec_bytes()) {
                Some(j1) => Some((j1, seq![v])),
                None => None,
            },
        },
    }
}

pub open spec fn spec_parse_report_list(s: Seq<u8>, i: int) -> Option<(int, Seq<ReportV>)> {
    match spec_tok(s, i, "[".spec_bytes()) {
        None => None,
        Some(i1) => match spec_tok(s, i1, "]".spec_bytes()) {
            Some(i2) => Some((i2, Seq::empty())),
            None => spec_parse_report_elems(s, i1),
        },
    }
}

/// A moving-average entry: `{"period_sec":<u32>,"timestamp":"<u64>","price":<quote or null>}`.
pub open spec fn spec_parse_ema(s: Seq<u8>, i: int) -> Option<(int, AssetEma)> {
    match spec_tok(s, i, "{".spec_bytes()) {
        None => None,
        Some(i1) => match spec_field(s, i1, "\"period_sec\"".spec_bytes()) {
            None => None,
            Some(i2) => match spec_tok_number(s, i2, u32::MAX as int) {
                None => None,
                Some((i3, per)) => match spec_tok(s, i3, ",".spec_bytes()) {
                    None => None,
                    Some(i4) => match spec_field(s, i4, "\"timestamp\"".spec_bytes()) {
                        None => None,
                        Some(i5) => match spec_quoted_uint(s, i5, u64::MAX as int) {
                            None => None,
                            Some((i6, ts)) => match spec_tok(s, i6, ",".spec_bytes()) {
                                None => None,
                                Some(i7) => match spec_field(s, i7, "\"price\"".spec_bytes()) {
                                    None => None,
                                    Some(i8) => match spec_parse_opt_price(s, i8) {
                                        None => None,
                                        Some((i9, p)) => match spec_tok(s, i9, "}".spec_bytes()) {
                                            None => None,
                                            Some(i10) => Some(
                                                (
                                                    i10,
                                                    AssetEma {
                                                        period_sec: per as u32,
                                                        timestamp: ts as u64,
                                                        price: p,
                                                    },
                                                ),
                                            ),
                                        },
                                    },
                                },
                            },
                        },
                    },
                },
            },
        },
    }
}

pub open spec fn spec_parse_ema_elems(s: Seq<u8>, i: int) -> Option<(int, Seq<AssetEma>)>
    decreases s.len() - i,
{
    match spec_parse_ema(s, i) {
        None => None,
        Some((j, v)) => match spec_tok(s, j, ",".spec_bytes()) {
            Some(j1) => if i < j1 <= s.len() {
                match spec_parse_ema_elems(s, j1) {
                    None => None,
                    Some((k, vs)) => Some((k, seq![v] + vs)),
                }
            } else {
                None
            },
            None => match spec_tok(s, j, "]".spec_bytes()) {
                Some(j1) => Some((j1, seq![v])),
                None => None,
            },
        },
    }
}

pub open spec fn spec_parse_ema_list(s: Seq<u8>, i: int) -> Option<(int, Seq<AssetEma>)> {
    match spec_tok(s, i, "[".spec_bytes()) {
        None => None,
        Some(i1) => match spec_tok(s, i1, "]".spec_bytes()) {
            Some(i2) => Some((i2, Seq::empty())),
            None => spec_parse_ema_elems(s, i1),
        },
    }
}

/// An asset bundle: `{"reports":<list>,"emas":<list>}`.
pub open spec fn spec_parse_asset(s: Seq<u8>, i: int) -> Option<(int, AssetV)> {
    match spec_tok(s, i, "{".spec_bytes()) {
        None => None,
        Some(i1) => match spec_field(s, i1, "\"reports\"".spec_bytes()) {
            None => None,
            Some(i2) => match spec_parse_report_list(s, i2) {
                None => None,
                Some((i3, reports)) => match spec_tok(s, i3, ",".spec_bytes()) {
                    None => None,
                    Some(i4) => match spec_field(s, i4, "\"emas\"".spec_bytes()) {
                        None => None,
                        Some(i5) => match spec_parse_ema_list(s, i5) {
                            None => None,
                            Some((i6, emas)) => match spec_tok(s, i6, "}".spec_bytes()) {
                                None => None,
                                Some(i7) => Some((i7, AssetV { reports: reports, emas: emas })),
                            },
                        },
                    },
                },
            },
        },
    }
}

/// One feed entry: `["<asset id>",<bundle>]`.
#[verifier::opaque]
pub open spec fn spec_parse_pair(s: Seq<u8>, i: int) -> Option<(int, (Seq<u8>, AssetV))> {
    match spec_tok(s, i, "[".spec_bytes()) {
        None => None,
        Some(i1) => match spec_quoted_str(s, i1) {
            None => None,
            Some((i2, id)) => match spec_tok(s, i2, ",".spec_bytes()) {
                None => None,
                Some(i3) => match spec_parse_asset(s, i3) {
                    None => None,
                    Some((i4, a)) => match spec_tok(s, i4, "]".spec_bytes()) {
                        None => None,
                        Some(i5) => Some((i5, (id, a))),
                    },
                },
            },
        },
    }
}

pub open spec fn spec_parse_pair_elems(s: Seq<u8>, i: int) -> Option<(int, Seq<(Seq<u8>, AssetV)>)>
    decreases s.len() - i,
{
    match spec_parse_pair(s, i) {
        None => None,
        Some((j, v)) => match spec_tok(s, j, ",".spec_bytes()) {
            Some(j1) => if i < j1 <= s.len() {
                match spec_parse_pair_elems(s, j1) {
                    None => None,
                    Some((k, vs)) => Some((k, seq![v] + vs)),
                }
            } else {
                None
            },
            None => match spec_tok(s, j, "]".spec_bytes()) {
                Some(j1) => Some((j1, seq![v])),
                None => None,
            },
        },
    }
}

/// The whole report feed: `[]` or `[<entry>,...]`; trailing bytes other
/// than whitespace are a decode failure.
pub open spec fn spec_parse_assets(s: Seq<u8>) -> Option<Seq<(Seq<u8>, AssetV)>> {
    match spec_tok(s, 0, "[".spec_bytes()) {
        None => None,
        Some(i1) => match spec_tok(s, i1, "]".spec_bytes()) {
            Some(i2) => if ws_end(s, i2) == s.len() {
                Some(Seq::empty())
            } else {
                None
            },
            None => match spec_parse_pair_elems(s, i1) {
                None => None,
                Some((j, vs)) => if ws_end(s, j) == s.len() {
                    Some(vs)
                } else {
                    None
                },
            },
        },
    }
}

/// Parses a quote object.
pub fn parse_price_at(s: &Vec<u8>, i: usize) -> (r: Option<(usize, AssetPrice)>)
    requires
        i <= s@.len(),
    ensures
        match r {
            Some((j, v)) => spec_parse_price(s@, i as int) == Some((j as int, v)) && i < j
                <= s@.len(),
            None => spec_parse_price(s@, i as int) is None,
        },
{
    let i1 = match tok(s, i, "{") {
        Some(x) => x,
        None => {
            return None;
        },
    };
    let i2 = match field(s, i1, "\"multiplier\"") {
        Some(x) => x,
        None => {
            return None;
        },
    };
    let (i3, m) = match quoted_uint(s, i2, u128::MAX) {
        Some(x) => x,
        None => {
            return None;
        },
    };
    let i4 = match tok(s, i3, ",") {
        Some(x) => x,
        None => {
            return None;
        },
    };
    let i5 = match field(s, i4, "\"decimals\"") {
        Some(x) => x,
        None => {
            return None;
        },
    };
    let (i6, d) = match tok_number(s, i5, 255) {
        Some(x) => x,
        None => {
            return None;
        },
    };
    let i7 = match tok(s, i6, "}") {
        Some(x) => x,
        None => {
            return None;
        },
    };
    Some((i7, AssetPrice { multiplier: m, decimals: d as u8 }))
}

/// Parses a quote or the JSON `null`.
pub fn parse_opt_price_at(s: &Vec<u8>, i: usize) -> (r: Option<(usize, Option<AssetPrice>)>)
    requires
        i <= s@.len(),
    ensures
        match r {
            Some((j, v)) => spec_parse_opt_price(s@, i as int) == Some((j as int, v)) && i <= j
                <= s@.len(),
            None => spec_parse_opt_price(s@, i as int) is None,
        },
{
    match tok(s, i, "null") {
        Some(j) => Some((j, None)),
        None => match parse_price_at(s, i) {
            Some((j, p)) => Some((j, Some(p))),
            None => None,
        },
    }
}

/// Parses a snapshot row.
pub fn parse_aop_at(s: &Vec<u8>, i: usize) -> (r: Option<(usize, AssetOptionalPrice)>)
    requires
        i <= s@.len(),
    ensures
        match r {
            Some((j, v)) => spec_parse_aop(s@, i as int) == Some((j as int, v@)) && i < j
                <= s@.len(),
            None => spec_parse_aop(s@, i as int) is None,
        },
{
    let i1 = match tok(s, i, "{") {
        Some(x) => x,
        None => {
            return None;
        },
    };
    let i2 = match field(s, i1, "\"asset_id\"") {
        Some(x) => x,
        None => {
            return None;
        },
    };
    let (i3, id) = match quoted_str(s, i2) {
        Some(x) => x,
        None => {
            return None;
        },
    };
    let i4 = match tok(s, i3, ",") {
        Some(x) => x,
        None => {
            return None;
        },
    };
    let i5 = match field(s, i4, "\"price\"") {
        Some(x) => x,
        None => {
            return None;
        },
    };
    let (i6, p) = match parse_opt_price_at(s, i5) {
        Some(x) => x,
        None => {
            return None;
        },
    };
    let i7 = match tok(s, i6, "}") {
        Some(x) => x,
        None => {
            return None;
        },
    };
    Some((i7, AssetOptionalPrice { asset_id: id, price: p }))
}

/// Parses one or more comma-separated snapshot rows followed by `]`.
pub fn parse_aop_elems(s: &Vec<u8>, i: usize) -> (r: Option<(usize, Vec<AssetOptionalPrice>)>)
    requires
        i <= s@.len(),
    ensures
        match r {
            Some((j, v)) => spec_parse_aop_elems(s@, i as int) == Some(
                (j as int, crate::feed::prices_view(v@)),
            ) && i < j <= s@.len(),
            None => spec_parse_aop_elems(s@, i as int) is None,
        },
    decreases s@.len() - i,
{
    let (j, v) = match parse_aop_at(s, i) {
        Some(x) => x,
        None => {
            return None;
        },
    };
    match tok(s, j, ",") {
        Some(j1) => {
            let (k, mut vs) = match parse_aop_elems(s, j1) {
                Some(x) => x,
                None => {
                    return None;
                },
            };
            let ghost tail = crate::feed::prices_view(vs@);
            vs.insert(0, v);
            proof {
                assert(crate::feed::prices_view(vs@) =~= seq![v@] + tail);
            }
            Some((k, vs))
        },
        None => match tok(s, j, "]") {
            Some(j1) => {
                let mut vs: Vec<AssetOptionalPrice> = Vec::new();
                vs.push(v);
                proof {
                    assert(crate::feed::prices_view(vs@) =~= seq![v@]);
                }
                Some((j1, vs))
            },
            None => None,
        },
    }
}

/// Parses a snapshot row list.
pub fn parse_aop_list(s: &Vec<u8>, i: usize) -> (r: Option<(usize, Vec<AssetOptionalPrice>)>)
    requires
        i <= s@.len(),
    ensures
        match r {
            Some((j, v)) => spec_parse_aop_list(s@, i as int) == Some(
                (j as int, crate::feed::prices_view(v@)),
            ) && i <= j <= s@.len(),
            None => spec_parse_aop_list(s@, i as int) is None,
        },
{
    let i1 = match tok(s, i, "[") {
        Some(x) => x,
        None => {
            return None;
        },
    };
    match tok(s, i1, "]") {
        Some(i2) => {
            let vs: Vec<AssetOptionalPrice> = Vec::new();
            proof {
                assert(crate::feed::prices_view(vs@) =~= Seq::<AssetOptionalPriceV>::empty());
            }
            Some((i2, vs))
        },
        None => parse_aop_elems(s, i1),
    }
}

/// Parses the whole price-snapshot feed.
pub fn parse_price_data(s: &Vec<u8>) -> (r: Option<PriceData>)
    ensures
        match r {
            Some(pd) => spec_parse_price_data(s@) == Some(pd@),
            None => spec_parse_price_data(s@) is None,
        },
{
    let i1 = match tok(s, 0, "{") {
        Some(x) => x,
        None => {
            return None;
        },
    };
    let i2 = match field(s, i1, "\"timestamp\"") {
        Some(x) => x,
        None => {
            return None;
        },
    };
    let (i3, ts) = match quoted_uint(s, i2, u64::MAX as u128) {
        Some(x) => x,
        None => {
            return None;
        },
    };
    let i4 = match tok(s, i3, ",") {
        Some(x) => x,
        None => {
            return None;
        },
    };
    let i5 = match field(s, i4, "\"recency_duration_sec\"") {
        Some(x) => x,
        None => {
            return None;
        },
    };
    let (i6, rec) = match tok_number(s, i5, u32::MAX as u128) {
        Some(x) => x,
        None => {
            return None;
        },
    };
    let i7 = match tok(s, i6, ",") {
        Some(x) => x,
        None => {
            return None;
        },
    };
    let i8 = match field(s, i7, "\"prices\"") {
        Some(x) => x,
        None => {
            return None;
        },
    };
    let (i9, prices) = match parse_aop_list(s, i8) {
        Some(x) => x,
        None => {
            return None;
        },
    };
    let i10 = match tok(s, i9, "}") {
        Some(x) => x,
        None => {
            return None;
        },
    };
    if skip_ws(s, i10) != s.len() {
        return None;
    }
    Some(PriceData { timestamp: ts as u64, recency_duration_sec: rec as u32, prices: prices })
}

/// Parses a validator report.
pub fn parse_report_at(s: &Vec<u8>, i: usize) -> (r: Option<(usize, Report)>)
    requires
        i <= s@.len(),
    ensures
        match r {
            Some((j, v)) => spec_parse_report(s@, i as int) == Some((j as int, v@)) && i < j
                <= s@.len(),
            None => spec_parse_report(s@, i as int) is None,
        },
{
    let i1 = match tok(s, i, "{") {
        Some(x) => x,
        None => {
            return None;
        },
    };
    let i2 = match field(s, i1, "\"oracle_id\"") {
        Some(x) => x,
        None => {
            return None;
        },
    };
    let (i3, id) = match quoted_str(s, i2) {
        Some(x) => x,
        None => {
            return None;
        },
    };
    let i4 = match tok(s, i3, ",") {
        Some(x) => x,
        None => {
            return None;
        },
    };
    let i5 = match field(s, i4, "\"timestamp\"") {
        Some(x) => x,
        None => {
            return None;
        },
    };
    let (i6, ts) = match quoted_uint(s, i5, u64::MAX as u128) {
        Some(x) => x,
        None => {
            return None;
        },
    };
    let i7 = match tok(s, i6, ",") {
        Some(x) => x,
        None => {
            return None;
        },
    };
    let i8 = match field(s, i7, "\"price\"") {
        Some(x) => x,
        None => {
            return None;
        },
    };
    let (i9, p) = match parse_price_at(s, i8) {
        Some(x) => x,
        None => {
            return None;
        },
    };
    let i10 = match tok(s, i9, "}") {
        Some(x) => x,
        None => {
            return None;
        },
    };
    Some((i10, Report { oracle_id: id, timestamp: ts as u64, price: p }))
}

pub fn parse_report_elems(s: &Vec<u8>, i: usize) -> (r: Option<(usize, Vec<Report>)>)
    requires
        i <= s@.len(),
    ensures
        match r {
            Some((j, v)) => spec_parse_report_elems(s@, i as int) == Some(
                (j as int, crate::feed::reports_view(v@)),
            ) && i < j <= s@.len(),
            None => spec_parse_report_elems(s@, i as int) is None,
        },
    decreases s@.len() - i,
{
    let (j, v) = match parse_report_at(s, i) {
        Some(x) => x,
        None => {
            return None;
        },
    };
    match tok(s, j, ",") {
        Some(j1) => {
            let (k, mut vs) = match parse_report_elems(s, j1) {
                Some(x) => x,
                None => {
                    return None;
                },
            };
            let ghost tail = crate::feed::reports_view(vs@);
            vs.insert(0, v);
            proof {
                assert(crate::feed::reports_view(vs@) =~= seq![v@] + tail);
            }
            Some((k, vs))
        },
        None => match tok(s, j, "]") {
            Some(j1) => {
                let mut vs: Vec<Report> = Vec::new();
                vs.push(v);
                proof {
                    assert(crate::feed::reports_view(vs@) =~= seq![v@]);
                }
                Some((j1, vs))
            },
            None => None,
        },
    }
}

pub fn parse_report_list(s: &Vec<u8>, i: usize) -> (r: Option<(usize, Vec<Report>)>)
    requires
        i <= s@.len(),
    ensures
        match r {
            Some((j, v)) => spec_parse_report_list(s@, i as int) == Some(
                (j as int, crate::feed::reports_view(v@)),
            ) && i <= j <= s@.len(),
            None => spec_parse_report_list(s@, i as int) is None,
        },
{
    let i1 = match tok(s, i, "[") {
        Some(x) => x,
        None => {
            return None;
        },
    };
    match tok(s, i1, "]") {
        Some(i2) => {
            let vs: Vec<Report> = Vec::new();
            proof {
                assert(crate::feed::reports_view(vs@) =~= Seq::<ReportV>::empty());
            }
            Some((i2, vs))
        },
        None => parse_report_elems(s, i1),
    }
}

/// Parses a moving-average entry.
pub fn parse_ema_at(s: &Vec<u8>, i: usize) -> (r: Option<(usize, AssetEma)>)
    requires
        i <= s@.len(),
    ensures
        match r {
            Some((j, v)) => spec_parse_ema(s@, i as int) == Some((j as int, v)) && i < j
                <= s@.len(),
            None => spec_parse_ema(s@, i as int) is None,
        },
{
    let i1 = match tok(s, i, "{") {
        Some(x) => x,
        None => {
            return None;
        },
    };
    let i2 = match field(s, i1, "\"period_sec\"") {
        Some(x) => x,
        None => {
            return None;
        },
    };
    let (i3, per) = match tok_number(s, i2, u32::MAX as u128) {
        Some(x) => x,
        None => {
            return None;
        },
    };
    let i4 = match tok(s, i3, ",") {
        Some(x) => x,
        None => {
            return None;
        },
    };
    let i5 = match field(s, i4, "\"timestamp\"") {
        Some(x) => x,
        None => {
            return None;
        },
    };
    let (i6, ts) = match quoted_uint(s, i5, u64::MAX as u128) {
        Some(x) => x,
        None => {
            return None;
        },
    };
    let i7 = match tok(s, i6, ",") {
        Some(x) => x,
        None => {
            return None;
        },
    };
    let i8 = match field(s, i7, "\"price\"") {
        Some(x) => x,
        None => {
            return None;
        },
    };
    let (i9, p) = match parse_opt_price_at(s, i8) {
        Some(x) => x,
        None => {
            return None;
        },
    };
    let i10 = match tok(s, i9, "}") {
        Some(x) => x,
        None => {
            return None;
        },
    };
    Some((i10, AssetEma { period_sec: per as u32, timestamp: ts as u64, price: p }))
}

pub fn parse_ema_elems(s: &Vec<u8>, i: usize) -> (r: Option<(usize, Vec<AssetEma>)>)
    requires
        i <= s@.len(),
    ensures
        match r {
            Some((j, v)) => spec_parse_ema_elems(s@, i as int) == Some((j as int, v@)) && i < j
                <= s@.len(),
            None => spec_parse_ema_elems(s@, i as int) is None,
        },
    decreases s@.len() - i,
{
    let (j, v) = match parse_ema_at(s, i) {
        Some(x) => x,
        None => {
            return None;
        },
    };
    match tok(s, j, ",") {
        Some(j1) => {
            let (k, mut vs) = match parse_ema_elems(s, j1) {
                Some(x) => x,
                None => {
                    return None;
                },
            };
            let ghost tail = vs@;
            vs.insert(0, v);
            proof {
                assert(vs@ =~= seq![v] + tail);
            }
            Some((k, vs))
        },
        None => match tok(s, j, "]") {
            Some(j1) => {
                let mut vs: Vec<AssetEma> = Vec::new();
                vs.push(v);
                proof {
                    assert(vs@ =~= seq![v]);
                }
                Some((j1, vs))
            },
            None => None,
        },
    }
}

pub fn parse_ema_list(s: &Vec<u8>, i: usize) -> (r: Option<(usize, Vec<AssetEma>)>)
    requires
        i <= s@.len(),
    ensures
        match r {
            Some((j, v)) => spec_parse_ema_list(s@, i as int) == Some((j as int, v@)) && i <= j
                <= s@.len(),
            None => spec_parse_ema_list(s@, i as int) is None,
        },
{
    let i1 = match tok(s, i, "[") {
        Some(x) => x,
        None => {
            return None;
        },
    };
    match tok(s, i1, "]") {
        Some(i2) => {
            let vs: Vec<AssetEma> = Vec::new();
            proof {
                assert(vs@ =~= Seq::<AssetEma>::empty());
            }
            Some((i2, vs))
        },
        None => parse_ema_elems(s, i1),
    }
}

/// Parses an asset bundle.
pub fn parse_asset_at(s: &Vec<u8>, i: usize) -> (r: Option<(usize, Asset)>)
    requires
        i <= s@.len(),
    ensures
        match r {
            Some((j, v)) => spec_parse_asset(s@, i as int) == Some((j as int, v@)) && i <= j
                <= s@.len(),
            None => spec_parse_asset(s@, i as int) is None,
        },
{
    let i1 = match tok(s, i, "{") {
        Some(x) => x,
        None => {
            return None;
        },
    };
    let i2 = match field(s, i1, "\"reports\"") {
        Some(x) => x,
        None => {
            return None;
        },
    };
    let (i3, reports) = match parse_report_list(s, i2) {
        Some(x) => x,
        None => {
            return None;
        },
    };
    let i4 = match tok(s, i3, ",") {
        Some(x) => x,
        None => {
            return None;
        },
    };
    let i5 = match field(s, i4, "\"emas\"") {
        Some(x) => x,
        None => {
            return None;
        },
    };
    let (i6, emas) = match parse_ema_list(s, i5) {
        Some(x) => x,
        None => {
            return None;
        },
    };
    let i7 = match tok(s, i6, "}") {
        Some(x) => x,
        None => {
            return None;
        },
    };
    Some((i7, Asset { reports: reports, emas: emas }))
}

/// Parses one feed entry.
pub fn parse_pair_at(s: &Vec<u8>, i: usize) -> (r: Option<(usize, (Vec<u8>, Asset))>)
    requires
        i <= s@.len(),
    ensures
        match r {
            Some((j, v)) => spec_parse_pair(s@, i as int) == Some((j as int, (v.0@, v.1@))) && i
                < j <= s@.len(),
            None => spec_parse_pair(s@, i as int) is None,
        },
{
    proof {
        reveal(spec_parse_pair);
    }
    let i1 = match tok(s, i, "[") {
        Some(x) => x,
        None => {
            return None;
        },
    };
    let (i2, id) = match quoted_str(s, i1) {
        Some(x) => x,
        None => {
            return None;
        },
    };
    let i3 = match tok(s, i2, ",") {
        Some(x) => x,
        None => {
            return None;
        },
    };
    let (i4, a) = match parse_asset_at(s, i3) {
        Some(x) => x,
        None => {
            return None;
        },
    };
    let i5 = match tok(s, i4, "]") {
        Some(x) => x,
        None => {
            return None;
        },
    };
    Some((i5, (id, a)))
}

pub fn parse_pair_elems(s: &Vec<u8>, i: usize) -> (r: Option<(usize, Vec<(Vec<u8>, Asset)>)>)
    requires
        i <= s@.len(),
    ensures
        match r {
            Some((j, v)) => spec_parse_pair_elems(s@, i as int) == Some(
                (j as int, assets_view(v@)),
            ) && i < j <= s@.len(),
            None => spec_parse_pair_elems(s@, i as int) is None,
        },
    decreases s@.len() - i,
{
    let (j, v) = match parse_pair_at(s, i) {
        Some(x) => x,
        None => {
            return None;
        },
    };
    match tok(s, j, ",") {
        Some(j1) => {
            let (k, mut vs) = match parse_pair_elems(s, j1) {
                Some(x) => x,
                None => {
                    return None;
                },
            };
            let ghost tail = assets_view(vs@);
            let ghost vv = (v.0@, v.1@);
            vs.insert(0, v);
            proof {
                assert(assets_view(vs@) =~= seq![vv] + tail);
            }
            Some((k, vs))
        },
        None => match tok(s, j, "]") {
            Some(j1) => {
                let ghost vv = (v.0@, v.1@);
                let mut vs: Vec<(Vec<u8>, Asset)> = Vec::new();
                vs.push(v);
                proof {
                    assert(assets_view(vs@) =~= seq![vv]);
                }
                Some((j1, vs))
            },
            None => None,
        },
    }
}

/// Parses the whole report feed.
pub fn parse_assets(s: &Vec<u8>) -> (r: Option<Vec<(Vec<u8>, Asset)>>)
    ensures
        match r {
            Some(v) => spec_parse_assets(s@) == Some(assets_view(v@)),
            None => spec_parse_assets(s@) is None,
        },
{
    let i1 = match tok(s, 0, "[") {
        Some(x) => x,
        None => {
            return None;
        },
    };
    match tok(s, i1, "]") {
        Some(i2) => {
            if skip_ws(s, i2) == s.len() {
                let vs: Vec<(Vec<u8>, Asset)> = Vec::new();
                proof {
                    assert(assets_view(vs@) =~= Seq::<(Seq<u8>, AssetV)>::empty());
                }
                Some(vs)
            } else {
                None
            }
        },
        None => {
            let (j, vs) = match parse_pair_elems(s, i1) {
                Some(x) => x,
                None => {
                    return None;
                },
            };
            if skip_ws(s, j) == s.len() {
                Some(vs)
            } else {
                None
            }
        },
    }
}

} // verus!
