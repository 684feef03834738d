//! Table assembly and template rendering.
//!
//! Each table row is a `<tr><td>...</td><td>...</td></tr>` fragment. Price
//! rows come first from the snapshot in input order, then the
//! moving-average rows in report-feed order; validator rows carry the age
//! in seconds, rendered with two decimal places. The page is the fixed
//! template with its two placeholders textually replaced.

use vstd::prelude::*;
use vstd::string::StringSliceAdditionalSpecFns;

use crate::aggregate::vals_view;
use crate::bytes::{eq_bytes, push_bytes, push_str_bytes, sub_vec};
use crate::dec::{spec_dec2, spec_dec_u128, u128_to_dec, u64_to_dec, u64_to_dec2};
use crate::feed::{
    assets_view, prices_view, spec_get_price, Asset, AssetEma, AssetOptionalPrice,
    AssetOptionalPriceV, AssetV,
};
use crate::parse::{eat, match_at};
use crate::price::{
    floor_4dp, normalize, render_scaled, spec_floor_4dp, spec_normalize, spec_render_scaled,
};
use crate::registry::{Contract, TokenConfigV};

verus! {

/// The one asset identifier that is always suppressed from the
/// unknown-asset fallback row.
pub open spec fn legacy_asset_id() -> Seq<u8> {
    "c02aaa39b223fe8d0a0e5c4f27ead9083c756cc2.factory.bridge.near".spec_bytes()
}

/// True exactly when `id` is the suppressed legacy asset identifier.
pub fn is_legacy_asset(id: &Vec<u8>) -> (r: bool)
    ensures
        r == (id@ == legacy_asset_id()),
{
    eq_bytes(id, "c02aaa39b223fe8d0a0e5c4f27ead9083c756cc2.factory.bridge.near".as_bytes())
}

/// One two-cell table row.
pub open spec fn spec_row(left: Seq<u8>, right: Seq<u8>) -> Seq<u8> {
    "<tr><td>".spec_bytes() + left + "</td><td>".spec_bytes() + right + "</td></tr>".spec_bytes()
}

/// Builds one two-cell table row.
pub fn row(left: &Vec<u8>, right: &Vec<u8>) -> (r: Vec<u8>)
    ensures
        r@ == spec_row(left@, right@),
{
    let mut v: Vec<u8> = Vec::new();
    push_str_bytes(&mut v, "<tr><td>");
    push_bytes(&mut v, left);
    push_str_bytes(&mut v, "</td><td>");
    push_bytes(&mut v, right);
    push_str_bytes(&mut v, "</td></tr>");
    v
}

/// The snapshot-row fragment for one asset: the display name and the
/// normalized price for a registered asset with a quote; nothing for a
/// registered asset without a quote; the raw identifier and raw quote text
/// for an unknown asset, except the suppressed legacy identifier; `None` is
/// the normalization fault.
pub open spec fn spec_spot_fragment(
    cfg: Map<Seq<u8>, TokenConfigV>,
    p: AssetOptionalPriceV,
) -> Option<Seq<u8>> {
    if cfg.contains_key(p.asset_id) {
        let c = cfg[p.asset_id];
        match p.price {
            Some(ap) => match spec_normalize(ap, c.decimals) {
                Some(sp) => Some(spec_row(c.token_name, spec_render_scaled(sp))),
                None => None,
            },
            None => Some(Seq::empty()),
        }
    } else if p.asset_id == legacy_asset_id() {
        Some(Seq::empty())
    } else {
        Some(spec_row(p.asset_id, spec_get_price(p)))
    }
}

/// A snapshot entry for an unknown asset whose identifier is the
/// suppressed legacy identifier never produces a fallback row, whatever its
/// quote state.
pub proof fn lemma_legacy_suppressed(cfg: Map<Seq<u8>, TokenConfigV>, p: AssetOptionalPriceV)
    requires
        p.asset_id == legacy_asset_id(),
        !cfg.contains_key(p.asset_id),
    ensures
        spec_spot_fragment(cfg, p) == Some(Seq::<u8>::empty()),
{
}

/// All snapshot rows from index `i` on, concatenated in input order.
pub open spec fn spec_spot_rows(
    cfg: Map<Seq<u8>, TokenConfigV>,
    prices: Seq<AssetOptionalPriceV>,
    i: int,
) -> Option<Seq<u8>>
    decreases prices.len() - i,
{
    if i < 0 || i >= prices.len() {
        Some(Seq::empty())
    } else {
        match spec_spot_fragment(cfg, prices[i]) {
            None => None,
            Some(f) => match spec_spot_rows(cfg, prices, i + 1) {
                None => None,
                Some(rest) => Some(f + rest),
            },
        }
    }
}

/// The moving-average row fragment for one entry: rendered only when the
/// asset is registered and a price is present, with the four-decimal floor
/// policy applied; `None` is the normalization fault.
pub open spec fn spec_ema_fragment(
    cfg: Map<Seq<u8>, TokenConfigV>,
    asset_id: Seq<u8>,
    ema: AssetEma,
) -> Option<Seq<u8>> {
    if cfg.contains_key(asset_id) {
        let c = cfg[asset_id];
        match ema.price {
            Some(ap) => match spec_normalize(ap, c.decimals) {
                Some(sp) => Some(
                    spec_row(
                        c.token_name + " EMA#".spec_bytes() + spec_dec_u128(
                            ema.period_sec as u128,
                        ),
                        spec_render_scaled(spec_floor_4dp(sp)),
                    ),
                ),
                None => None,
            },
            None => Some(Seq::empty()),
        }
    } else {
        Some(Seq::empty())
    }
}

/// The moving-average rows of one asset from index `i` on.
pub open spec fn spec_ema_rows(
    cfg: Map<Seq<u8>, TokenConfigV>,
    asset_id: Seq<u8>,
    emas: Seq<AssetEma>,
    i: int,
) -> Option<Seq<u8>>
    decreases emas.len() - i,
{
    if i < 0 || i >= emas.len() {
        Some(Seq::empty())
    } else {
        match spec_ema_fragment(cfg, asset_id, emas[i]) {
            None => None,
            Some(f) => match spec_ema_rows(cfg, asset_id, emas, i + 1) {
                None => None,
                Some(rest) => Some(f + rest),
            },
        }
    }
}

/// The moving-average rows of all assets from index `i` on, in report-feed
/// order.
pub open spec fn spec_report_ema_rows(
    cfg: Map<Seq<u8>, TokenConfigV>,
    assets: Seq<(Seq<u8>, AssetV)>,
    i: int,
) -> Option<Seq<u8>>
    decreases assets.len() - i,
{
    if i < 0 || i >= assets.len() {
        Some(Seq::empty())
    } else {
        match spec_ema_rows(cfg, assets[i].0, assets[i].1.emas, 0) {
            None => None,
            Some(f) => match spec_report_ema_rows(cfg, assets, i + 1) {
                None => None,
                Some(rest) => Some(f + rest),
            },
        }
    }
}

/// The whole price table: snapshot rows, then moving-average rows.
pub open spec fn spec_price_table(
    cfg: Map<Seq<u8>, TokenConfigV>,
    prices: Seq<AssetOptionalPriceV>,
    assets: Seq<(Seq<u8>, AssetV)>,
) -> Option<Seq<u8>> {
    match spec_spot_rows(cfg, prices, 0) {
        None => None,
        Some(a) => match spec_report_ema_rows(cfg, assets, 0) {
            None => None,
            Some(b) => Some(a + b),
        },
    }
}

fn spot_fragment(c: &Contract, p: &AssetOptionalPrice) -> (r: Option<Vec<u8>>)
    ensures
        match r {
            Some(v) => spec_spot_fragment(c@, p@) == Some(v@),
            None => spec_spot_fragment(c@, p@) is None,
        },
{
    match c.lookup_config(&p.asset_id) {
        Some(cfg) => match &p.price {
            Some(ap) => match normalize(*ap, cfg.decimals) {
                Some(sp) => {
                    let right = render_scaled(sp);
                    Some(row(&cfg.token_name, &right))
                },
                None => None,
            },
            None => {
                let v: Vec<u8> = Vec::new();
                proof {
                    assert(v@ =~= Seq::<u8>::empty());
                }
                Some(v)
            },
        },
        None => {
            if is_legacy_asset(&p.asset_id) {
                let v: Vec<u8> = Vec::new();
                proof {
                    assert(v@ =~= Seq::<u8>::empty());
                }
                Some(v)
            } else {
                let right = p.get_price();
                Some(row(&p.asset_id, &right))
            }
        },
    }
}

fn spot_rows_from(c: &Contract, prices: &Vec<AssetOptionalPrice>, i: usize) -> (r: Option<Vec<u8>>)
    requires
        i <= prices@.len(),
    ensures
        match r {
            Some(v) => spec_spot_rows(c@, prices_view(prices@), i as int) == Some(v@),
            None => spec_spot_rows(c@, prices_view(prices@), i as int) is None,
        },
    decreases prices@.len() - i,
{
    if i == prices.len() {
        let v: Vec<u8> = Vec::new();
        proof {
            assert(v@ =~= Seq::<u8>::empty());
        }
        return Some(v);
    }
    proof {
        assert(prices_view(prices@)[i as int] == prices@[i as int]@);
    }
    let mut frag = match spot_fragment(c, &prices[i]) {
        Some(f) => f,
        None => {
            return None;
        },
    };
    let rest = match spot_rows_from(c, prices, i + 1) {
        Some(v) => v,
        None => {
            return None;
        },
    };
    push_bytes(&mut frag, &rest);
    Some(frag)
}

fn ema_fragment(c: &Contract, asset_id: &Vec<u8>, ema: &AssetEma) -> (r: Option<Vec<u8>>)
    ensures
        match r {
            Some(v) => spec_ema_fragment(c@, asset_id@, *ema) == Some(v@),
            None => spec_ema_fragment(c@, asset_id@, *ema) is None,
        },
{
    match c.lookup_config(asset_id) {
        Some(cfg) => match &ema.price {
            Some(ap) => match normalize(*ap, cfg.decimals) {
                Some(sp) => {
                    let mut left = crate::bytes::clone_bytes(&cfg.token_name);
                    push_str_bytes(&mut left, " EMA#");
                    let period = u128_to_dec(ema.period_sec as u128);
                    push_bytes(&mut left, &period);
                    let right = render_scaled(floor_4dp(sp));
                    Some(row(&left, &right))
                },
                None => None,
            },
            None => {
                let v: Vec<u8> = Vec::new();
                proof {
                    assert(v@ =~= Seq::<u8>::empty());
                }
                Some(v)
            },
        },
        None => {
            let v: Vec<u8> = Vec::new();
            proof {
                assert(v@ =~= Seq::<u8>::empty());
            }
            Some(v)
        },
    }
}

fn ema_rows_from(c: &Contract, asset_id: &Vec<u8>, emas: &Vec<AssetEma>, i: usize) -> (r: Option<
    Vec<u8>,
>)
    requires
        i <= emas@.len(),
    ensures
        match r {
            Some(v) => spec_ema_rows(c@, asset_id@, emas@, i as int) == Some(v@),
            None => spec_ema_rows(c@, asset_id@, emas@, i as int) is None,
        },
    decreases emas@.len() - i,
{
    if i == emas.len() {
        let v: Vec<u8> = Vec::new();
        proof {
            assert(v@ =~= Seq::<u8>::empty());
        }
        return Some(v);
    }
    let mut frag = match ema_fragment(c, asset_id, &emas[i]) {
        Some(f) => f,
        None => {
            return None;
        },
    };
    let rest = match ema_rows_from(c, asset_id, emas, i + 1) {
        Some(v) => v,
        None => {
            return None;
        },
    };
    push_bytes(&mut frag, &rest);
    Some(frag)
}

fn report_ema_rows_from(c: &Contract, assets: &Vec<(Vec<u8>, Asset)>, i: usize) -> (r: Option<
    Vec<u8>,
>)
    requires
        i <= assets@.len(),
    ensures
        match r {
            Some(v) => spec_report_ema_rows(c@, assets_view(assets@), i as int) == Some(v@),
            None => spec_report_ema_rows(c@, assets_view(assets@), i as int) is None,
        },
    decreases assets@.len() - i,
{
    if i == assets.len() {
        let v: Vec<u8> = Vec::new();
        proof {
            assert(v@ =~= Seq::<u8>::empty());
        }
        return Some(v);
    }
    proof {
        assert(assets_view(assets@)[i as int] == (assets@[i as int].0@, assets@[i as int].1@));
    }
    let mut frag = match ema_rows_from(c, &assets[i].0, &assets[i].1.emas, 0) {
        Some(f) => f,
        None => {
            return None;
        },
    };
    let rest = match report_ema_rows_from(c, assets, i + 1) {
        Some(v) => v,
        None => {
            return None;
        },
    };
    push_bytes(&mut frag, &rest);
    Some(frag)
}

/// Builds the whole price table; `None` is the normalization fault.
pub fn price_table(c: &Contract, prices: &Vec<AssetOptionalPrice>, assets: &Vec<(Vec<u8>, Asset)>)
    -> (r: Option<Vec<u8>>)
    ensures
        match r {
            Some(v) => spec_price_table(c@, prices_view(prices@), assets_view(assets@)) == Some(
                v@,
            ),
            None => spec_price_table(c@, prices_view(prices@), assets_view(assets@)) is None,
        },
{
    let mut a = match spot_rows_from(c, prices, 0) {
        Some(v) => v,
        None => {
            return None;
        },
    };
    let b = match report_ema_rows_from(c, assets, 0) {
        Some(v) => v,
        None => {
            return None;
        },
    };
    push_bytes(&mut a, &b);
    Some(a)
}

/// The age of a validator's most recent report, in seconds with two decimal
/// places (rounded half-up); a report from the future counts as age zero.
pub open spec fn spec_age_string(now: u64, ts: u64) -> Seq<u8> {
    let diff = if now >= ts {
        now - ts
    } else {
        0
    };
    let c = (diff + 5000000) / 10000000;
    spec_dec_u128((c / 100) as u128) + ".".spec_bytes() + spec_dec2((c % 100) as u64)
}

/// Renders a report age.
pub fn age_string(now: u64, ts: u64) -> (r: Vec<u8>)
    ensures
        r@ == spec_age_string(now, ts),
{
    let diff: u64 = if now >= ts {
        now - ts
    } else {
        0
    };
    let c128: u128 = (diff as u128 + 5000000) / 10000000;
    proof {
        vstd::arithmetic::div_mod::lemma_div_is_ordered(
            diff as int + 5000000,
            u64::MAX as int + 5000000,
            10000000,
        );
    }
    let c: u64 = c128 as u64;
    let mut out = u64_to_dec(c / 100);
    push_str_bytes(&mut out, ".");
    let frac = u64_to_dec2(c % 100);
    push_bytes(&mut out, &frac);
    out
}

/// All validator rows from index `i` on, in table order.
pub open spec fn spec_validator_rows(vals: Seq<(Seq<u8>, u64)>, now: u64, i: int) -> Seq<u8>
    decreases vals.len() - i,
{
    if i < 0 || i >= vals.len() {
        Seq::empty()
    } else {
        spec_row(vals[i].0, spec_age_string(now, vals[i].1)) + spec_validator_rows(
            vals,
            now,
            i + 1,
        )
    }
}

fn validator_rows_from(vals: &Vec<(Vec<u8>, u64)>, now: u64, i: usize) -> (r: Vec<u8>)
    requires
        i <= vals@.len(),
    ensures
        r@ == spec_validator_rows(vals_view(vals@), now, i as int),
    decreases vals@.len() - i,
{
    if i == vals.len() {
        let v: Vec<u8> = Vec::new();
        proof {
            assert(v@ =~= Seq::<u8>::empty());
        }
        return v;
    }
    proof {
        assert(vals_view(vals@)[i as int] == (vals@[i as int].0@, vals@[i as int].1));
    }
    let age = age_string(now, vals[i].1);
    let mut frag = row(&vals[i].0, &age);
    let rest = validator_rows_from(vals, now, i + 1);
    push_bytes(&mut frag, &rest);
    frag
}

/// Builds the validator table from the aggregated freshness table.
pub fn validator_table(vals: &Vec<(Vec<u8>, u64)>, now: u64) -> (r: Vec<u8>)
    ensures
        r@ == spec_validator_rows(vals_view(vals@), now, 0),
{
    validator_rows_from(vals, now, 0)
}

/// First offset at or after `i` where `pat` occurs in `hay`.
pub open spec fn spec_find_from(hay: Seq<u8>, pat: Seq<u8>, i: int) -> Option<int>
    decreases hay.len() - i,
{
    if i < 0 || i + pat.len() > hay.len() {
        None
    } else if match_at(hay, i, pat) {
        Some(i)
    } else if i < hay.len() {
        spec_find_from(hay, pat, i + 1)
    } else {
        None
    }
}

/// `hay` with the first occurrence of `pat`, if any, replaced by `repl`.
pub open spec fn spec_replace_first(hay: Seq<u8>, pat: Seq<u8>, repl: Seq<u8>) -> Seq<u8> {
    match spec_find_from(hay, pat, 0) {
        None => hay,
        Some(i) => hay.take(i) + repl + hay.skip(i + pat.len()),
    }
}

/// Replaces the first occurrence of `pat` in `hay` by `repl`.
pub fn replace_first(hay: &Vec<u8>, pat: &str, repl: &Vec<u8>) -> (r: Vec<u8>)
    ensures
        r@ == spec_replace_first(hay@, pat.spec_bytes(), repl@),
{
    let pb: &[u8] = pat.as_bytes();
    let m = pb.len();
    let n = hay.len();
    if m > n {
        proof {
            assert(spec_find_from(hay@, pat.spec_bytes(), 0) is None);
        }
        return crate::bytes::clone_bytes(hay);
    }
    if m == 0 {
        let mut out = crate::bytes::clone_bytes(repl);
        let tail = crate::bytes::clone_bytes(hay);
        push_bytes(&mut out, &tail);
        proof {
            assert(hay@.subrange(0, 0) =~= pat.spec_bytes());
            assert(match_at(hay@, 0, pat.spec_bytes()));
            assert(spec_find_from(hay@, pat.spec_bytes(), 0) == Some(0int));
            assert(out@ =~= hay@.take(0) + repl@ + hay@.skip(0));
        }
        return out;
    }
    let mut i: usize = 0;
    while i <= n - m
        invariant
            1 <= m <= n,
            i <= n - m + 1,
            n == hay@.len(),
            m == pat.spec_bytes().len(),
            spec_find_from(hay@, pat.spec_bytes(), 0) == spec_find_from(
                hay@,
                pat.spec_bytes(),
                i as int,
            ),
        decreases n - i,
    {
        match eat(hay, i, pat) {
            Some(_) => {
                let mut out = sub_vec(hay, 0, i);
                push_bytes(&mut out, repl);
                let tail = sub_vec(hay, i + m, n);
                push_bytes(&mut out, &tail);
                proof {
                    assert(spec_find_from(hay@, pat.spec_bytes(), i as int) == Some(i as int));
                    assert(out@ =~= hay@.take(i as int) + repl@ + hay@.skip(i + m));
                }
                return out;
            },
            None => {
                proof {
                    assert(spec_find_from(hay@, pat.spec_bytes(), i as int) == spec_find_from(
                        hay@,
                        pat.spec_bytes(),
                        i + 1,
                    ));
                }
                i += 1;
            },
        }
    }
    proof {
        assert(spec_find_from(hay@, pat.spec_bytes(), i as int) is None);
    }
    crate::bytes::clone_bytes(hay)
}

/// The fixed page shell: an HTML document with one placeholder for the
/// price table and one for the validator table.
pub open spec fn spec_index_template() -> Seq<u8> {
    "<!DOCTYPE html><html><head><meta charset=\"utf-8\"><title>Price Oracle Dashboard</title></head><body><h1>Prices</h1><table>%PRICES%</table><h1>Validators</h1><table>%VALIDATORS%</table></body></html>".spec_bytes()
}

/// The fixed page shell as bytes.
pub fn index_template() -> (r: Vec<u8>)
    ensures
        r@ == spec_index_template(),
{
    let mut v: Vec<u8> = Vec::new();
    push_str_bytes(
        &mut v,
        "<!DOCTYPE html><html><head><meta charset=\"utf-8\"><title>Price Oracle Dashboard</title></head><body><h1>Prices</h1><table>%PRICES%</table><h1>Validators</h1><table>%VALIDATORS%</table></body></html>",
    );
    proof {
        assert(v@ =~= spec_index_template());
    }
    v
}

/// The rendered page: the template with the price-table placeholder
/// replaced by the price rows and the validator-table placeholder replaced
/// by the validator rows.
pub open spec fn spec_render_page(price_rows: Seq<u8>, validator_rows: Seq<u8>) -> Seq<u8> {
    spec_replace_first(
        spec_replace_first(spec_index_template(), "%PRICES%".spec_bytes(), price_rows),
        "%VALIDATORS%".spec_bytes(),
        validator_rows,
    )
}

/// Renders the whole page.
pub fn render_page(price_rows: &Vec<u8>, validator_rows: &Vec<u8>) -> (r: Vec<u8>)
    ensures
        r@ == spec_render_page(price_rows@, validator_rows@),
{
    let template = index_template();
    let step = replace_first(&template, "%PRICES%", price_rows);
    replace_first(&step, "%VALIDATORS%", validator_rows)
}

} // verus!
