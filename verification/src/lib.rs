//! A geodata point value and its EWKB wire codec.
//!
//! The crate defines a point record ([`point::TPoint`]) holding an X/Y
//! coordinate pair and an optional spatial-reference identifier (SRID),
//! conversions between that record, a generic 2-D geometry point and the
//! database-wire point, and an encoder/decoder for the Extended Well-Known
//! Binary (EWKB) point format used by a PostGIS `Geography` column.
//!
//! Coordinates are IEEE-754 double-precision values carried as their raw
//! 64-bit patterns: this layer copies them verbatim and never interprets
//! them, so every pattern (NaN and infinities included) is accepted and
//! round-trips bit-for-bit.

pub mod ewkb;
pub mod point;
