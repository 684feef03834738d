//! The two upstream feed shapes: the price snapshot and the per-asset
//! report/moving-average collection.

use vstd::prelude::*;
use vstd::string::StringSliceAdditionalSpecFns;

use crate::price::AssetPrice;
use crate::dec::{spec_dec_u128, u128_to_dec};
use crate::bytes::push_str_bytes;

verus! {

/// One row of the price snapshot; `price` absent means no quote was found.
pub struct AssetOptionalPrice {
    pub asset_id: Vec<u8>,
    pub price: Option<AssetPrice>,
}

/// Abstract value of an `AssetOptionalPrice`.
pub struct AssetOptionalPriceV {
    pub asset_id: Seq<u8>,
    pub price: Option<AssetPrice>,
}

impl View for AssetOptionalPrice {
    type V = AssetOptionalPriceV;

    open spec fn view(&self) -> AssetOptionalPriceV {
        AssetOptionalPriceV { asset_id: self.asset_id@, price: self.price }
    }
}

/// Top-level decode of the price-snapshot feed.
pub struct PriceData {
    pub timestamp: u64,
    pub recency_duration_sec: u32,
    pub prices: Vec<AssetOptionalPrice>,
}

/// Abstract value of a `PriceData`.
pub struct PriceDataV {
    pub timestamp: u64,
    pub recency_duration_sec: u32,
    pub prices: Seq<AssetOptionalPriceV>,
}

/// View of a snapshot row list.
pub open spec fn prices_view(s: Seq<AssetOptionalPrice>) -> Seq<AssetOptionalPriceV> {
    s.map_values(|p: AssetOptionalPrice| p@)
}

impl View for PriceData {
    type V = PriceDataV;

    open spec fn view(&self) -> PriceDataV {
        PriceDataV {
            timestamp: self.timestamp,
            recency_duration_sec: self.recency_duration_sec,
            prices: prices_view(self.prices@),
        }
    }
}

/// One validator's submitted price for an asset.
pub struct Report {
    pub oracle_id: Vec<u8>,
    pub timestamp: u64,
    pub price: AssetPrice,
}

/// Abstract value of a `Report`.
pub struct ReportV {
    pub oracle_id: Seq<u8>,
    pub timestamp: u64,
    pub price: AssetPrice,
}

impl View for Report {
    type V = ReportV;

    open spec fn view(&self) -> ReportV {
        ReportV { oracle_id: self.oracle_id@, timestamp: self.timestamp, price: self.price }
    }
}

/// An exponential-moving-average quote for one smoothing period.
#[derive(Clone, Copy)]
pub struct AssetEma {
    pub period_sec: u32,
    pub timestamp: u64,
    pub price: Option<AssetPrice>,
}

/// The report and moving-average lists published for one asset.
pub struct Asset {
    pub reports: Vec<Report>,
    pub emas: Vec<AssetEma>,
}

/// Abstract value of an `Asset`.
pub struct AssetV {
    pub reports: Seq<ReportV>,
    pub emas: Seq<AssetEma>,
}

/// View of a report list.
pub open spec fn reports_view(s: Seq<Report>) -> Seq<ReportV> {
    s.map_values(|r: Report| r@)
}

impl View for Asset {
    type V = AssetV;

    open spec fn view(&self) -> AssetV {
        AssetV { reports: reports_view(self.reports@), emas: self.emas@ }
    }
}

/// View of a report feed held as a vector of `(asset id, bundle)` pairs.
pub open spec fn assets_view(assets: Seq<(Vec<u8>, Asset)>) -> Seq<(Seq<u8>, AssetV)> {
    assets.map_values(|e: (Vec<u8>, Asset)| (e.0@, e.1@))
}

/// The raw quote text for a snapshot row: the bare multiplier when a quote
/// is present, a fixed marker otherwise.
pub open spec fn spec_get_price(p: AssetOptionalPriceV) -> Seq<u8> {
    match p.price {
        Some(ap) => spec_dec_u128(ap.multiplier),
        None => "Not found".spec_bytes(),
    }
}

impl AssetOptionalPrice {
    /// The raw quote text shown for an asset that has no registry entry.
    pub fn get_price(&self) -> (r: Vec<u8>)
        ensures
            r@ == spec_get_price(self@),
    {
        match &self.price {
            Some(ap) => u128_to_dec(ap.multiplier),
            None => {
                let mut v: Vec<u8> = Vec::new();
                push_str_bytes(&mut v, "Not found");
                proof {
                    assert(v@ =~= "Not found".spec_bytes());
                }
                v
            },
        }
    }
}

} // verus!
