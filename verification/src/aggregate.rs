//! Validator freshness aggregation: folding every report of every asset
//! bundle into one `oracle id -> most recent timestamp` table.
//!
//! The table keeps oracles in the order their first report appears in the
//! feed (a deliberate, deterministic ordering choice), and for each oracle
//! stores the maximum timestamp seen across all assets and reports.

use vstd::prelude::*;

use crate::bytes::{clone_bytes, eq_bytes};
use crate::feed::{assets_view, reports_view, Asset, AssetV, ReportV};

verus! {

pub open spec fn spec_max64(a: u64, b: u64) -> u64 {
    if a >= b {
        a
    } else {
        b
    }
}

/// One report folded in: a new oracle is appended with its timestamp, a
/// known one keeps the larger of the stored and the new timestamp.
pub open spec fn spec_upsert(vals: Seq<(Seq<u8>, u64)>, oracle: Seq<u8>, ts: u64) -> Seq<
    (Seq<u8>, u64),
>
    decreases vals.len(),
{
    if vals.len() == 0 {
        seq![(oracle, ts)]
    } else if vals[0].0 == oracle {
        seq![(vals[0].0, spec_max64(vals[0].1, ts))] + vals.skip(1)
    } else {
        seq![vals[0]] + spec_upsert(vals.skip(1), oracle, ts)
    }
}

/// The reports of one asset folded in, from index `i` on.
pub open spec fn spec_fold_reports(
    vals: Seq<(Seq<u8>, u64)>,
    reports: Seq<ReportV>,
    i: int,
) -> Seq<(Seq<u8>, u64)>
    decreases reports.len() - i,
{
    if i < 0 || i >= reports.len() {
        vals
    } else {
        spec_fold_reports(
            spec_upsert(vals, reports[i].oracle_id, reports[i].timestamp),
            reports,
            i + 1,
        )
    }
}

/// All assets folded in, from index `i` on.
pub open spec fn spec_fold_assets(
    vals: Seq<(Seq<u8>, u64)>,
    assets: Seq<(Seq<u8>, AssetV)>,
    i: int,
) -> Seq<(Seq<u8>, u64)>
    decreases assets.len() - i,
{
    if i < 0 || i >= assets.len() {
        vals
    } else {
        spec_fold_assets(spec_fold_reports(vals, assets[i].1.reports, 0), assets, i + 1)
    }
}

/// The validator freshness table of a whole report feed.
pub open spec fn spec_aggregate(assets: Seq<(Seq<u8>, AssetV)>) -> Seq<(Seq<u8>, u64)> {
    spec_fold_assets(Seq::empty(), assets, 0)
}

/// View of the aggregation table's backing vector.
pub open spec fn vals_view(vals: Seq<(Vec<u8>, u64)>) -> Seq<(Seq<u8>, u64)> {
    vals.map_values(|e: (Vec<u8>, u64)| (e.0@, e.1))
}

/// The timestamp the table stores for `oracle`, if any.
pub open spec fn spec_vals_lookup(vals: Seq<(Seq<u8>, u64)>, oracle: Seq<u8>) -> Option<u64>
    decreases vals.len(),
{
    if vals.len() == 0 {
        None
    } else if vals[0].0 == oracle {
        Some(vals[0].1)
    } else {
        spec_vals_lookup(vals.skip(1), oracle)
    }
}

/// The running maximum of `oracle`'s report timestamps over `reports[i..)`,
/// starting from `cur`.
pub open spec fn spec_running_max(
    cur: Option<u64>,
    reports: Seq<ReportV>,
    oracle: Seq<u8>,
    i: int,
) -> Option<u64>
    decreases reports.len() - i,
{
    if i < 0 || i >= reports.len() {
        cur
    } else {
        let cur2 = if reports[i].oracle_id == oracle {
            match cur {
                None => Some(reports[i].timestamp),
                Some(t) => Some(spec_max64(t, reports[i].timestamp)),
            }
        } else {
            cur
        };
        spec_running_max(cur2, reports, oracle, i + 1)
    }
}

/// The running maximum continued over every asset bundle from index `i` on.
pub open spec fn spec_running_max_assets(
    cur: Option<u64>,
    assets: Seq<(Seq<u8>, AssetV)>,
    oracle: Seq<u8>,
    i: int,
) -> Option<u64>
    decreases assets.len() - i,
{
    if i < 0 || i >= assets.len() {
        cur
    } else {
        spec_running_max_assets(
            spec_running_max(cur, assets[i].1.reports, oracle, 0),
            assets,
            oracle,
            i + 1,
        )
    }
}

proof fn lemma_upsert_lookup(vals: Seq<(Seq<u8>, u64)>, oracle: Seq<u8>, ts: u64, other: Seq<u8>)
    ensures
        spec_vals_lookup(spec_upsert(vals, oracle, ts), oracle) == (match spec_vals_lookup(
            vals,
            oracle,
        ) {
            None => Some(ts),
            Some(t) => Some(spec_max64(t, ts)),
        }),
        other != oracle ==> spec_vals_lookup(spec_upsert(vals, oracle, ts), other)
            == spec_vals_lookup(vals, other),
    decreases vals.len(),
{
    let up = spec_upsert(vals, oracle, ts);
    if vals.len() == 0 {
        assert(up == seq![(oracle, ts)]);
        assert(up[0] == (oracle, ts));
        assert(up.skip(1) =~= Seq::<(Seq<u8>, u64)>::empty());
        assert(spec_vals_lookup(Seq::<(Seq<u8>, u64)>::empty(), other) is None);
        if other != oracle {
            assert(spec_vals_lookup(up, other) == spec_vals_lookup(up.skip(1), other));
        }
        assert(spec_vals_lookup(up, oracle) == Some(ts));
    } else if vals[0].0 == oracle {
        assert(up == seq![(vals[0].0, spec_max64(vals[0].1, ts))] + vals.skip(1));
        assert(up[0] == (vals[0].0, spec_max64(vals[0].1, ts)));
        assert(up.skip(1) =~= vals.skip(1));
        if other != oracle {
            assert(spec_vals_lookup(up, other) == spec_vals_lookup(vals.skip(1), other));
            assert(spec_vals_lookup(vals, other) == spec_vals_lookup(vals.skip(1), other));
            assert(spec_vals_lookup(up, other) == spec_vals_lookup(vals, other));
        }
        assert(spec_vals_lookup(up, oracle) == Some(spec_max64(vals[0].1, ts)));
    } else {
        lemma_upsert_lookup(vals.skip(1), oracle, ts, other);
        assert(up == seq![vals[0]] + spec_upsert(vals.skip(1), oracle, ts));
        assert(up[0] == vals[0]);
        assert(up.skip(1) =~= spec_upsert(vals.skip(1), oracle, ts));
        if other != oracle && other != vals[0].0 {
            assert(spec_vals_lookup(up, other) == spec_vals_lookup(
                spec_upsert(vals.skip(1), oracle, ts),
                other,
            ));
            assert(spec_vals_lookup(vals, other) == spec_vals_lookup(vals.skip(1), other));
            assert(spec_vals_lookup(up, other) == spec_vals_lookup(vals, other));
        }
        if other != oracle && other == vals[0].0 {
            assert(spec_vals_lookup(up, other) == Some(up[0].1));
            assert(spec_vals_lookup(vals, other) == Some(vals[0].1));
        }
        assert(vals[0].0 != oracle);
        assert(spec_vals_lookup(up, oracle) == spec_vals_lookup(
            spec_upsert(vals.skip(1), oracle, ts),
            oracle,
        ));
        assert(spec_vals_lookup(vals, oracle) == spec_vals_lookup(vals.skip(1), oracle));
    }
}

proof fn lemma_fold_reports_lookup(
    vals: Seq<(Seq<u8>, u64)>,
    reports: Seq<ReportV>,
    oracle: Seq<u8>,
    i: int,
)
    ensures
        spec_vals_lookup(spec_fold_reports(vals, reports, i), oracle) == spec_running_max(
            spec_vals_lookup(vals, oracle),
            reports,
            oracle,
            i,
        ),
    decreases reports.len() - i,
{
    if 0 <= i < reports.len() {
        lemma_upsert_lookup(vals, reports[i].oracle_id, reports[i].timestamp, oracle);
        lemma_fold_reports_lookup(
            spec_upsert(vals, reports[i].oracle_id, reports[i].timestamp),
            reports,
            oracle,
            i + 1,
        );
    }
}

proof fn lemma_fold_assets_lookup(
    vals: Seq<(Seq<u8>, u64)>,
    assets: Seq<(Seq<u8>, AssetV)>,
    oracle: Seq<u8>,
    i: int,
)
    ensures
        spec_vals_lookup(spec_fold_assets(vals, assets, i), oracle) == spec_running_max_assets(
            spec_vals_lookup(vals, oracle),
            assets,
            oracle,
            i,
        ),
    decreases assets.len() - i,
{
    if 0 <= i < assets.len() {
        lemma_fold_reports_lookup(vals, assets[i].1.reports, oracle, 0);
        lemma_fold_assets_lookup(
            spec_fold_reports(vals, assets[i].1.reports, 0),
            assets,
            oracle,
            i + 1,
        );
    }
}

/// What the freshness table stores for an oracle is the maximum timestamp
/// that oracle reported, taken across all assets and all reports: the
/// running maximum of its report timestamps, started from nothing. In
/// particular an oracle that no report names has no entry, and a later
/// report only raises the stored timestamp.
pub proof fn lemma_aggregate_records_max(assets: Seq<(Seq<u8>, AssetV)>, oracle: Seq<u8>)
    ensures
        spec_vals_lookup(spec_aggregate(assets), oracle) == spec_running_max_assets(
            None,
            assets,
            oracle,
            0,
        ),
{
    lemma_fold_assets_lookup(Seq::empty(), assets, oracle, 0);
}

/// The running maximum is at least every timestamp that `oracle` reported
/// and, when some report names the oracle, is itself one of those
/// timestamps or the starting value.
pub proof fn lemma_running_max_bounds(
    cur: Option<u64>,
    reports: Seq<ReportV>,
    oracle: Seq<u8>,
    i: int,
)
    requires
        0 <= i,
    ensures
        forall|k: int|
            i <= k < reports.len() && reports[k].oracle_id == oracle ==> {
                &&& spec_running_max(cur, reports, oracle, i) is Some
                &&& reports[k].timestamp <= spec_running_max(cur, reports, oracle, i)->Some_0
            },
        cur is Some ==> spec_running_max(cur, reports, oracle, i) is Some && cur->Some_0
            <= spec_running_max(cur, reports, oracle, i)->Some_0,
    decreases reports.len() - i,
{
    if 0 <= i < reports.len() {
        let cur2 = if reports[i].oracle_id == oracle {
            match cur {
                None => Some(reports[i].timestamp),
                Some(t) => Some(spec_max64(t, reports[i].timestamp)),
            }
        } else {
            cur
        };
        lemma_running_max_bounds(cur2, reports, oracle, i + 1);
        let r = spec_running_max(cur, reports, oracle, i);
        assert(r == spec_running_max(cur2, reports, oracle, i + 1));
        assert forall|k: int|
            i <= k < reports.len() && reports[k].oracle_id == oracle implies {
            &&& r is Some
            &&& reports[k].timestamp <= r->Some_0
        } by {
            if k == i {
                assert(cur2 is Some && reports[i].timestamp <= cur2->Some_0);
            }
        }
    }
}

proof fn lemma_upsert_found(vals: Seq<(Seq<u8>, u64)>, oracle: Seq<u8>, ts: u64, j: int)
    requires
        0 <= j < vals.len(),
        vals[j].0 == oracle,
        forall|k: int| 0 <= k < j ==> vals[k].0 != oracle,
    ensures
        spec_upsert(vals, oracle, ts) == vals.update(j, (oracle, spec_max64(vals[j].1, ts))),
    decreases j,
{
    if j == 0 {
        assert(spec_upsert(vals, oracle, ts) =~= vals.update(
            0,
            (oracle, spec_max64(vals[0].1, ts)),
        ));
    } else {
        lemma_upsert_found(vals.skip(1), oracle, ts, j - 1);
        assert(seq![vals[0]] + vals.skip(1).update(j - 1, (oracle, spec_max64(vals[j].1, ts)))
            =~= vals.update(j, (oracle, spec_max64(vals[j].1, ts))));
    }
}

proof fn lemma_upsert_absent(vals: Seq<(Seq<u8>, u64)>, oracle: Seq<u8>, ts: u64)
    requires
        forall|k: int| 0 <= k < vals.len() ==> vals[k].0 != oracle,
    ensures
        spec_upsert(vals, oracle, ts) == vals.push((oracle, ts)),
    decreases vals.len(),
{
    if vals.len() == 0 {
        assert(spec_upsert(vals, oracle, ts) =~= vals.push((oracle, ts)));
    } else {
        lemma_upsert_absent(vals.skip(1), oracle, ts);
        assert(seq![vals[0]] + vals.skip(1).push((oracle, ts)) =~= vals.push((oracle, ts)));
    }
}

/// Folds one report into the table.
fn upsert(vals: &mut Vec<(Vec<u8>, u64)>, oracle: &Vec<u8>, ts: u64)
    ensures
        vals_view(final(vals)@) == spec_upsert(vals_view(old(vals)@), oracle@, ts),
{
    let n = vals.len();
    let mut j: usize = 0;
    while j < n
        invariant
            n == vals@.len(),
            j <= n,
            vals@ == old(vals)@,
            forall|k: int| 0 <= k < j ==> vals_view(vals@)[k].0 != oracle@,
        decreases n - j,
    {
        if eq_bytes(oracle, vals[j].0.as_slice()) {
            let entry = vals.remove(j);
            let nts = if ts > entry.1 {
                ts
            } else {
                entry.1
            };
            vals.insert(j, (entry.0, nts));
            proof {
                lemma_upsert_found(vals_view(old(vals)@), oracle@, ts, j as int);
                assert(vals_view(vals@) =~= vals_view(old(vals)@).update(
                    j as int,
                    (oracle@, spec_max64(vals_view(old(vals)@)[j as int].1, ts)),
                ));
            }
            return ;
        }
        j += 1;
    }
    let key = clone_bytes(oracle);
    vals.push((key, ts));
    proof {
        lemma_upsert_absent(vals_view(old(vals)@), oracle@, ts);
        assert(vals_view(vals@) =~= vals_view(old(vals)@).push((oracle@, ts)));
    }
}

/// Builds the validator freshness table for a whole report feed.
pub fn aggregate_validators(assets: &Vec<(Vec<u8>, Asset)>) -> (r: Vec<(Vec<u8>, u64)>)
    ensures
        vals_view(r@) == spec_aggregate(assets_view(assets@)),
{
    let mut vals: Vec<(Vec<u8>, u64)> = Vec::new();
    let ghost av = assets_view(assets@);
    proof {
        assert(vals_view(vals@) =~= Seq::<(Seq<u8>, u64)>::empty());
    }
    let na = assets.len();
    let mut a: usize = 0;
    while a < na
        invariant
            na == assets@.len(),
            av == assets_view(assets@),
            a <= na,
            spec_aggregate(av) == spec_fold_assets(vals_view(vals@), av, a as int),
        decreases na - a,
    {
        let reports = &assets[a].1.reports;
        let ghost rv = av[a as int].1.reports;
        proof {
            assert(rv == reports_view(reports@));
        }
        let ghost vals_start = vals_view(vals@);
        let nr = reports.len();
        let mut i: usize = 0;
        while i < nr
            invariant
                nr == reports@.len(),
                rv == reports_view(reports@),
                rv.len() == nr,
                i <= nr,
                spec_fold_reports(vals_start, rv, 0) == spec_fold_reports(
                    vals_view(vals@),
                    rv,
                    i as int,
                ),
            decreases nr - i,
        {
            proof {
                assert(rv[i as int] == reports@[i as int]@);
            }
            upsert(&mut vals, &reports[i].oracle_id, reports[i].timestamp);
            i += 1;
        }
        a += 1;
    }
    vals
}

} // verus!
