//! The EWKB point codec.
//!
//! An EWKB-encoded 2-D point is laid out as:
//!
//! 1. a 1-byte byte-order marker (`0` = big-endian, `1` = little-endian);
//! 2. a 4-byte geometry type code — `1` for "Point", with the bit
//!    `0x20000000` set when an SRID follows;
//! 3. if that bit is set, a 4-byte signed SRID;
//! 4. the X coordinate as an 8-byte IEEE-754 double;
//! 5. the Y coordinate as an 8-byte IEEE-754 double.
//!
//! All multi-byte fields share the endianness given by the marker.
//! The coordinates are carried as raw 64-bit patterns and copied verbatim,
//! so every pattern round-trips bit-for-bit.

use crate::point::EwkbPoint;
use vstd::bytes::*;
use vstd::prelude::*;
use vstd::slice::*;

verus! {

/// The EWKB geometry type code for a 2-D point without an SRID.
pub const POINT_TYPE_ID: u32 = 1;

/// The EWKB geometry type code for a 2-D point with an embedded SRID:
/// the point code with the SRID-present flag bit `0x20000000` set.
pub const POINT_TYPE_ID_WITH_SRID: u32 = 0x2000_0001;

/// Why a buffer failed to decode as an EWKB point.
#[derive(Debug, Clone, Copy, PartialEq, Eq)]
pub enum DecodeError {
    /// The byte-order marker is neither `0` (big-endian) nor `1` (little-endian).
    UnsupportedByteOrder,
    /// The geometry type code does not denote a 2-D point.
    InvalidGeometryType,
    /// The buffer is shorter or longer than the layout requires.
    InvalidLength,
}

/// Why reading a point from a database column failed.
#[derive(Debug, Clone, Copy, PartialEq, Eq)]
pub enum FromSqlError {
    /// The column held SQL `NULL` where a point is mandatory.
    MissingValue,
    /// The column's bytes are not a well-formed EWKB point.
    Decode(DecodeError),
}

/// The byte-order marker written for the given endianness.
pub open spec fn spec_marker(big_endian: bool) -> u8 {
    if big_endian {
        0
    } else {
        1
    }
}

/// The geometry type code written for a point, depending on whether an
/// SRID is embedded.
pub open spec fn spec_type_id(srid_present: bool) -> u32 {
    if srid_present {
        POINT_TYPE_ID_WITH_SRID
    } else {
        POINT_TYPE_ID
    }
}

/// The total length of an encoded point: marker + type code + optional
/// SRID + two doubles.
pub open spec fn spec_encoded_len(srid_present: bool) -> int {
    if srid_present {
        25
    } else {
        21
    }
}

/// A `u32` laid out as 4 bytes in the given endianness.
pub open spec fn spec_u32_bytes(x: u32, big_endian: bool) -> Seq<u8> {
    if big_endian {
        spec_u32_to_le_bytes(x).reverse()
    } else {
        spec_u32_to_le_bytes(x)
    }
}

/// The `u32` read from 4 bytes in the given endianness.
pub open spec fn spec_u32_value(s: Seq<u8>, big_endian: bool) -> u32
    recommends
        s.len() == 4,
{
    if big_endian {
        spec_u32_from_le_bytes(s.reverse())
    } else {
        spec_u32_from_le_bytes(s)
    }
}

/// A `u64` laid out as 8 bytes in the given endianness.
pub open spec fn spec_u64_bytes(x: u64, big_endian: bool) -> Seq<u8> {
    if big_endian {
        spec_u64_to_le_bytes(x).reverse()
    } else {
        spec_u64_to_le_bytes(x)
    }
}

/// The `u64` read from 8 bytes in the given endianness.
pub open spec fn spec_u64_value(s: Seq<u8>, big_endian: bool) -> u64
    recommends
        s.len() == 8,
{
    if big_endian {
        spec_u64_from_le_bytes(s.reverse())
    } else {
        spec_u64_from_le_bytes(s)
    }
}

/// The unsigned 32-bit word that carries an SRID on the wire: the SRID's
/// two's-complement representation.
pub open spec fn spec_srid_word(s: i32) -> u32 {
    if s >= 0 {
        s as u32
    } else {
        (s + 0x1_0000_0000) as u32
    }
}

/// The SRID denoted by an unsigned 32-bit wire word, reading the word as
/// two's complement.
pub open spec fn spec_word_srid(w: u32) -> i32 {
    if w < 0x8000_0000 {
        w as i32
    } else {
        (w - 0x1_0000_0000) as i32
    }
}

/// The EWKB encoding of a point in the given endianness.
pub open spec fn spec_encode_point(p: EwkbPoint, big_endian: bool) -> Seq<u8> {
    let srid_bytes = match p.srid {
        Some(s) => spec_u32_bytes(spec_srid_word(s), big_endian),
        None => Seq::<u8>::empty(),
    };
    seq![spec_marker(big_endian)] + spec_u32_bytes(spec_type_id(p.srid is Some), big_endian)
        + srid_bytes + spec_u64_bytes(p.x_bits, big_endian) + spec_u64_bytes(p.y_bits, big_endian)
}

/// What decoding a buffer yields: the point it encodes, or the first
/// error the layout check meets — too short to hold the header, an
/// unsupported byte-order marker, a type code that is not a 2-D point,
/// or a length that does not match the type code's SRID flag.
pub open spec fn spec_decode_point(b: Seq<u8>) -> Result<EwkbPoint, DecodeError> {
    if b.len() < 5 {
        Err(DecodeError::InvalidLength)
    } else if b[0] != 0u8 && b[0] != 1u8 {
        Err(DecodeError::UnsupportedByteOrder)
    } else {
        let big_endian = b[0] == 0u8;
        let type_id = spec_u32_value(b.subrange(1, 5), big_endian);
        if type_id != POINT_TYPE_ID && type_id != POINT_TYPE_ID_WITH_SRID {
            Err(DecodeError::InvalidGeometryType)
        } else {
            let srid_present = type_id == POINT_TYPE_ID_WITH_SRID;
            if b.len() != spec_encoded_len(srid_present) {
                Err(DecodeError::InvalidLength)
            } else {
                let off = if srid_present {
                    9int
                } else {
                    5int
                };
                Ok(
                    EwkbPoint {
                        x_bits: spec_u64_value(b.subrange(off, off + 8), big_endian),
                        y_bits: spec_u64_value(b.subrange(off + 8, off + 16), big_endian),
                        srid: if srid_present {
                            Some(spec_word_srid(spec_u32_value(b.subrange(5, 9), big_endian)))
                        } else {
                            None
                        },
                    },
                )
            }
        }
    }
}

/// Reads the 4 bytes at `off` as a `u32` in the given endianness.
fn read_u32_at(b: &[u8], off: usize, big_endian: bool) -> (x: u32)
    requires
        off + 4 <= b@.len(),
    ensures
        x == spec_u32_value(b@.subrange(off as int, off as int + 4), big_endian),
{
    let blen = b.len();
    let s = slice_subrange(b, off, off + 4);
    if big_endian {
        let mut rev: Vec<u8> = Vec::new();
        rev.push(*slice_index_get(s, 3));
        rev.push(*slice_index_get(s, 2));
        rev.push(*slice_index_get(s, 1));
        rev.push(*slice_index_get(s, 0));
        proof {
            assert(rev@ =~= s@.reverse());
        }
        u32_from_le_bytes(rev.as_slice())
    } else {
        u32_from_le_bytes(s)
    }
}

/// Reads the 8 bytes at `off` as a `u64` in the given endianness.
fn read_u64_at(b: &[u8], off: usize, big_endian: bool) -> (x: u64)
    requires
        off + 8 <= b@.len(),
    ensures
        x == spec_u64_value(b@.subrange(off as int, off as int + 8), big_endian),
{
    let blen = b.len();
    let s = slice_subrange(b, off, off + 8);
    if big_endian {
        let mut rev: Vec<u8> = Vec::new();
        rev.push(*slice_index_get(s, 7));
        rev.push(*slice_index_get(s, 6));
        rev.push(*slice_index_get(s, 5));
        rev.push(*slice_index_get(s, 4));
        rev.push(*slice_index_get(s, 3));
        rev.push(*slice_index_get(s, 2));
        rev.push(*slice_index_get(s, 1));
        rev.push(*slice_index_get(s, 0));
        proof {
            assert(rev@ =~= s@.reverse());
        }
        u64_from_le_bytes(rev.as_slice())
    } else {
        u64_from_le_bytes(s)
    }
}

/// Appends a `u32` to `out` as 4 bytes in the given endianness.
fn push_u32(out: &mut Vec<u8>, x: u32, big_endian: bool)
    ensures
        final(out)@ == old(out)@ + spec_u32_bytes(x, big_endian),
{
    let mut b = u32_to_le_bytes(x);
    if big_endian {
        out.push(b[3]);
        out.push(b[2]);
        out.push(b[1]);
        out.push(b[0]);
        proof {
            assert(out@ =~= old(out)@ + b@.reverse());
        }
    } else {
        out.append(&mut b);
    }
}

/// Appends a `u64` to `out` as 8 bytes in the given endianness.
fn push_u64(out: &mut Vec<u8>, x: u64, big_endian: bool)
    ensures
        final(out)@ == old(out)@ + spec_u64_bytes(x, big_endian),
{
    let mut b = u64_to_le_bytes(x);
    if big_endian {
        out.push(b[7]);
        out.push(b[6]);
        out.push(b[5]);
        out.push(b[4]);
        out.push(b[3]);
        out.push(b[2]);
        out.push(b[1]);
        out.push(b[0]);
        proof {
            assert(out@ =~= old(out)@ + b@.reverse());
        }
    } else {
        out.append(&mut b);
    }
}

/// Converts an SRID to the unsigned word that carries it on the wire.
fn srid_to_word(s: i32) -> (w: u32)
    ensures
        w == spec_srid_word(s),
{
    if s >= 0 {
        s as u32
    } else {
        ((s as i64) + 0x1_0000_0000) as u32
    }
}

/// Converts an unsigned wire word back to the SRID it carries.
fn word_to_srid(w: u32) -> (s: i32)
    ensures
        s == spec_word_srid(w),
{
    if w < 0x8000_0000 {
        w as i32
    } else {
        ((w as i64) - 0x1_0000_0000) as i32
    }
}

/// Encodes a point as EWKB in the given endianness.
pub fn encode_point(p: &EwkbPoint, big_endian: bool) -> (r: Vec<u8>)
    ensures
        r@ == spec_encode_point(*p, big_endian),
{
    let mut out: Vec<u8> = Vec::new();
    out.push(if big_endian { 0u8 } else { 1u8 });
    match p.srid {
        Some(s) => {
            push_u32(&mut out, POINT_TYPE_ID_WITH_SRID, big_endian);
            push_u32(&mut out, srid_to_word(s), big_endian);
        },
        None => {
            push_u32(&mut out, POINT_TYPE_ID, big_endian);
        },
    }
    push_u64(&mut out, p.x_bits, big_endian);
    push_u64(&mut out, p.y_bits, big_endian);
    proof {
        assert(out@ =~= spec_encode_point(*p, big_endian));
    }
    out
}

/// Decodes an EWKB buffer into a point, or reports how it is malformed.
pub fn decode_point(b: &[u8]) -> (r: Result<EwkbPoint, DecodeError>)
    ensures
        r == spec_decode_point(b@),
{
    if b.len() < 5 {
        return Err(DecodeError::InvalidLength);
    }
    let marker = *slice_index_get(b, 0);
    if marker != 0u8 && marker != 1u8 {
        return Err(DecodeError::UnsupportedByteOrder);
    }
    let big_endian = marker == 0u8;
    let type_id = read_u32_at(b, 1, big_endian);
    if type_id != POINT_TYPE_ID && type_id != POINT_TYPE_ID_WITH_SRID {
        return Err(DecodeError::InvalidGeometryType);
    }
    let srid_present = type_id == POINT_TYPE_ID_WITH_SRID;
    let expected: usize = if srid_present { 25 } else { 21 };
    if b.len() != expected {
        return Err(DecodeError::InvalidLength);
    }
    let off: usize = if srid_present { 9 } else { 5 };
    let x_bits = read_u64_at(b, off, big_endian);
    let y_bits = read_u64_at(b, off + 8, big_endian);
    let srid: Option<i32> = if srid_present {
        Some(word_to_srid(read_u32_at(b, 5, big_endian)))
    } else {
        None
    };
    Ok(EwkbPoint { x_bits, y_bits, srid })
}

impl EwkbPoint {
    /// Reads a point from the raw bytes of a geography column.
    ///
    /// `None` — SQL `NULL` where a point is mandatory — yields
    /// [`FromSqlError::MissingValue`]; bytes that are not a well-formed
    /// EWKB point yield the decoder's error.
    pub fn from_sql(bytes: Option<&[u8]>) -> (r: Result<EwkbPoint, FromSqlError>)
        ensures
            match bytes {
                None => r == Err::<EwkbPoint, FromSqlError>(FromSqlError::MissingValue),
                Some(b) => match spec_decode_point(b@) {
                    Ok(p) => r == Ok::<EwkbPoint, FromSqlError>(p),
                    Err(e) => r == Err::<EwkbPoint, FromSqlError>(FromSqlError::Decode(e)),
                },
            },
    {
        match bytes {
            None => Err(FromSqlError::MissingValue),
            Some(b) => match decode_point(b) {
                Ok(p) => Ok(p),
                Err(e) => Err(FromSqlError::Decode(e)),
            },
        }
    }

    /// Serializes the point as little-endian EWKB into the caller's buffer.
    ///
    /// This appends exactly the encoding of `self`; it cannot fail. Reporting
    /// an I/O failure of the byte sink is the caller's concern.
    pub fn to_sql(&self, out: &mut Vec<u8>)
        ensures
            final(out)@ == old(out)@ + spec_encode_point(*self, false),
    {
        let mut encoded = encode_point(self, false);
        out.append(&mut encoded);
    }
}

/// The 4-byte layout of a `u32` reads back to the same value, in either
/// endianness.
proof fn lemma_u32_bytes_round_trip(x: u32, big_endian: bool)
    ensures
        spec_u32_bytes(x, big_endian).len() == 4,
        spec_u32_value(spec_u32_bytes(x, big_endian), big_endian) == x,
{
    lemma_auto_spec_u32_to_from_le_bytes();
    if big_endian {
        assert(spec_u32_to_le_bytes(x).reverse().reverse() =~= spec_u32_to_le_bytes(x));
    }
}

/// The 8-byte layout of a `u64` reads back to the same value, in either
/// endianness.
proof fn lemma_u64_bytes_round_trip(x: u64, big_endian: bool)
    ensures
        spec_u64_bytes(x, big_endian).len() == 8,
        spec_u64_value(spec_u64_bytes(x, big_endian), big_endian) == x,
{
    lemma_auto_spec_u64_to_from_le_bytes();
    if big_endian {
        assert(spec_u64_to_le_bytes(x).reverse().reverse() =~= spec_u64_to_le_bytes(x));
    }
}

/// An SRID survives the trip through its unsigned wire word.
proof fn lemma_srid_round_trip(s: i32)
    ensures
        spec_word_srid(spec_srid_word(s)) == s,
{
}

/// Law: decoding an encoded point yields the point back — for every
/// coordinate bit pattern, every SRID (present or absent) and either
/// byte order.
pub proof fn lemma_encode_decode(p: EwkbPoint, big_endian: bool)
    ensures
        spec_decode_point(spec_encode_point(p, big_endian)) == Ok::<EwkbPoint, DecodeError>(p),
{
    let b = spec_encode_point(p, big_endian);
    let srid_present = p.srid is Some;
    let tid = spec_type_id(srid_present);
    lemma_u32_bytes_round_trip(tid, big_endian);
    lemma_u64_bytes_round_trip(p.x_bits, big_endian);
    lemma_u64_bytes_round_trip(p.y_bits, big_endian);
    let off = if srid_present {
        9int
    } else {
        5int
    };
    match p.srid {
        Some(s) => {
            lemma_u32_bytes_round_trip(spec_srid_word(s), big_endian);
            lemma_srid_round_trip(s);
        },
        None => {},
    }
    assert(b.len() == spec_encoded_len(srid_present));
    assert(b[0] == spec_marker(big_endian));
    assert(b.subrange(1, 5) =~= spec_u32_bytes(tid, big_endian));
    assert(b.subrange(off, off + 8) =~= spec_u64_bytes(p.x_bits, big_endian));
    assert(b.subrange(off + 8, off + 16) =~= spec_u64_bytes(p.y_bits, big_endian));
    if p.srid is Some {
        let s = p.srid->Some_0;
        assert(b.subrange(5, 9) =~= spec_u32_bytes(spec_srid_word(s), big_endian));
    }
}

/// Law: a big-endian and a little-endian encoding of the same logical
/// point decode to equal point values.
pub proof fn lemma_byte_order_agnostic(p: EwkbPoint)
    ensures
        spec_decode_point(spec_encode_point(p, true)) == spec_decode_point(
            spec_encode_point(p, false),
        ),
{
    lemma_encode_decode(p, true);
    lemma_encode_decode(p, false);
}

/// Law: a [`crate::point::TPoint`] survives the full write/read path —
/// conversion to the wire point, an EWKB encode in either byte order,
/// a decode, and conversion back — unchanged, bit-for-bit.
pub proof fn lemma_tpoint_round_trip(t: crate::point::TPoint, big_endian: bool)
    ensures
        spec_decode_point(spec_encode_point(crate::point::ewkb_of_tpoint(t), big_endian))
            matches Ok(p) && crate::point::tpoint_of_ewkb(p) == t,
{
    lemma_encode_decode(crate::point::ewkb_of_tpoint(t), big_endian);
}

} // verus!
