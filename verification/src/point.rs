//! The three point representations and the conversions among them.
//!
//! * [`GeoPoint`] — a generic 2-D geometry point: coordinates and nothing else.
//! * [`TPoint`] — the library's value type: coordinates plus an optional SRID.
//! * [`EwkbPoint`] — the database-wire point that the EWKB codec reads and writes.
//!
//! All conversions are total, pure field copies. Converting a [`GeoPoint`]
//! to a [`TPoint`] fabricates the WGS-84 SRID (the generic point has no SRID
//! field); every other conversion carries the fields over verbatim.

use vstd::prelude::*;

verus! {

/// The SRID fabricated when a generic geometry point is converted to a
/// [`TPoint`]: the conventional WGS-84 longitude/latitude identifier.
pub const WGS84_SRID: i32 = 4326;

/// A generic 2-D geometry point: an X/Y coordinate pair and nothing else.
///
/// The coordinates are IEEE-754 double-precision values carried as their raw
/// 64-bit patterns; this layer never interprets them, so any pattern
/// (NaN and infinities included) is accepted.
#[derive(Debug, Clone, Copy, PartialEq)]
pub struct GeoPoint {
    /// Bit pattern of the X coordinate.
    pub x_bits: u64,
    /// Bit pattern of the Y coordinate.
    pub y_bits: u64,
}

/// The library's point value: an X/Y coordinate pair plus an optional
/// spatial-reference identifier. `srid == None` means "unspecified".
#[derive(Debug, Clone, Copy, PartialEq)]
pub struct TPoint {
    /// Bit pattern of the X coordinate.
    pub x_bits: u64,
    /// Bit pattern of the Y coordinate.
    pub y_bits: u64,
    /// Optional spatial-reference identifier.
    pub srid: Option<i32>,
}

/// The database-wire point: the value the EWKB codec produces and consumes.
#[derive(Debug, Clone, Copy, PartialEq)]
pub struct EwkbPoint {
    /// Bit pattern of the X coordinate.
    pub x_bits: u64,
    /// Bit pattern of the Y coordinate.
    pub y_bits: u64,
    /// Optional spatial-reference identifier.
    pub srid: Option<i32>,
}

/// What converting a generic point to a [`TPoint`] yields: the coordinates,
/// with the WGS-84 SRID fabricated.
pub open spec fn tpoint_of_geo(g: GeoPoint) -> TPoint {
    TPoint { x_bits: g.x_bits, y_bits: g.y_bits, srid: Some(WGS84_SRID) }
}

/// What converting a [`TPoint`] to a generic point yields: the coordinates;
/// the SRID is discarded.
pub open spec fn geo_of_tpoint(t: TPoint) -> GeoPoint {
    GeoPoint { x_bits: t.x_bits, y_bits: t.y_bits }
}

/// What converting a wire point to a [`TPoint`] yields: all fields verbatim.
pub open spec fn tpoint_of_ewkb(p: EwkbPoint) -> TPoint {
    TPoint { x_bits: p.x_bits, y_bits: p.y_bits, srid: p.srid }
}

/// What converting a [`TPoint`] to a wire point yields: all fields verbatim.
pub open spec fn ewkb_of_tpoint(t: TPoint) -> EwkbPoint {
    EwkbPoint { x_bits: t.x_bits, y_bits: t.y_bits, srid: t.srid }
}

impl From<GeoPoint> for TPoint {
    /// Copy the coordinates and fabricate the WGS-84 SRID.
    fn from(g: GeoPoint) -> (r: TPoint) {
        TPoint { x_bits: g.x_bits, y_bits: g.y_bits, srid: Some(WGS84_SRID) }
    }
}

impl vstd::std_specs::convert::FromSpecImpl<GeoPoint> for TPoint {
    open spec fn obeys_from_spec() -> bool {
        true
    }

    open spec fn from_spec(g: GeoPoint) -> TPoint {
        tpoint_of_geo(g)
    }
}

impl From<TPoint> for GeoPoint {
    /// Copy the coordinates; the SRID is discarded.
    fn from(t: TPoint) -> (r: GeoPoint) {
        GeoPoint { x_bits: t.x_bits, y_bits: t.y_bits }
    }
}

impl vstd::std_specs::convert::FromSpecImpl<TPoint> for GeoPoint {
    open spec fn obeys_from_spec() -> bool {
        true
    }

    open spec fn from_spec(t: TPoint) -> GeoPoint {
        geo_of_tpoint(t)
    }
}

impl From<EwkbPoint> for TPoint {
    /// Copy coordinates and SRID verbatim; no defaulting.
    fn from(p: EwkbPoint) -> (r: TPoint) {
        TPoint { x_bits: p.x_bits, y_bits: p.y_bits, srid: p.srid }
    }
}

impl vstd::std_specs::convert::FromSpecImpl<EwkbPoint> for TPoint {
    open spec fn obeys_from_spec() -> bool {
        true
    }

    open spec fn from_spec(p: EwkbPoint) -> TPoint {
        tpoint_of_ewkb(p)
    }
}

impl From<TPoint> for EwkbPoint {
    /// Copy coordinates and SRID verbatim; no defaulting.
    fn from(t: TPoint) -> (r: EwkbPoint) {
        EwkbPoint { x_bits: t.x_bits, y_bits: t.y_bits, srid: t.srid }
    }
}

impl vstd::std_specs::convert::FromSpecImpl<TPoint> for EwkbPoint {
    open spec fn obeys_from_spec() -> bool {
        true
    }

    open spec fn from_spec(t: TPoint) -> EwkbPoint {
        ewkb_of_tpoint(t)
    }
}

/// Law: converting a generic point to a [`TPoint`] and back preserves the
/// coordinates exactly, and the intermediate [`TPoint`] always carries the
/// fabricated WGS-84 SRID.
pub proof fn lemma_geo_round_trip(g: GeoPoint)
    ensures
        geo_of_tpoint(tpoint_of_geo(g)) == g,
        tpoint_of_geo(g).srid == Some(WGS84_SRID),
{
}

/// Law: conversion between [`TPoint`] and the wire point copies all three
/// fields verbatim, so a round trip in either direction is the identity.
pub proof fn lemma_wire_round_trip(t: TPoint, p: EwkbPoint)
    ensures
        tpoint_of_ewkb(ewkb_of_tpoint(t)) == t,
        ewkb_of_tpoint(tpoint_of_ewkb(p)) == p,
{
}

} // verus!
