//! A read-only gateway that turns raw price-oracle feed bytes into a rendered
//! HTML dashboard, next to a small registry that maps asset identifiers to
//! display metadata.
//!
//! The request handler follows a two-phase preload protocol: on first contact
//! it declares the two upstream resources it needs; on second contact, given
//! those resources' raw bytes, it parses the feeds, normalizes prices across
//! differing decimal bases, aggregates per-validator freshness, and renders a
//! fixed HTML template. The handler is a pure function of the request, the
//! attached preload bytes, the registry snapshot and the current time.

pub mod aggregate;
pub mod bytes;
pub mod dec;
pub mod feed;
pub mod parse;
pub mod render;
pub mod price;
pub mod registry;
pub mod web4;
