use geopoint_ewkb::ewkb::{decode_point, encode_point, DecodeError, FromSqlError};
use geopoint_ewkb::point::EwkbPoint;

fn point(x: f64, y: f64, srid: Option<i32>) -> EwkbPoint {
    EwkbPoint { x_bits: x.to_bits(), y_bits: y.to_bits(), srid }
}

#[test]
fn round_trip_little_endian_with_srid() {
    let p = point(-122.4194, 37.7749, Some(4326));
    let buf = encode_point(&p, false);
    assert_eq!(decode_point(&buf), Ok(p));
}

#[test]
fn round_trip_little_endian_without_srid() {
    let p = point(1.5, -2.25, None);
    let buf = encode_point(&p, false);
    assert_eq!(buf.len(), 21);
    assert_eq!(decode_point(&buf), Ok(p));
}

#[test]
fn round_trip_big_endian() {
    let p = point(0.0, -0.0, Some(-1));
    let buf = encode_point(&p, true);
    assert_eq!(buf[0], 0);
    assert_eq!(decode_point(&buf), Ok(p));
}

#[test]
fn round_trip_negative_srid() {
    let p = point(9.75, -3.5, Some(-123456));
    for big_endian in [false, true] {
        let buf = encode_point(&p, big_endian);
        assert_eq!(decode_point(&buf), Ok(p));
    }
}

#[test]
fn from_sql_of_null_is_missing_value() {
    assert_eq!(EwkbPoint::from_sql(None), Err(FromSqlError::MissingValue));
}

#[test]
fn from_sql_decodes_present_bytes() {
    let p = point(12.5, -0.125, Some(4326));
    let buf = encode_point(&p, false);
    assert_eq!(EwkbPoint::from_sql(Some(&buf)), Ok(p));
}

#[test]
fn from_sql_propagates_decode_error() {
    let buf: Vec<u8> = vec![1, 2, 0, 0, 0];
    assert_eq!(
        EwkbPoint::from_sql(Some(&buf)),
        Err(FromSqlError::Decode(DecodeError::InvalidGeometryType))
    );
}

#[test]
fn empty_buffer_is_invalid_length() {
    let buf: Vec<u8> = vec![];
    assert_eq!(decode_point(&buf), Err(DecodeError::InvalidLength));
}

#[test]
fn truncated_buffer_is_invalid_length() {
    let p = point(1.0, 2.0, Some(4326));
    let mut buf = encode_point(&p, false);
    buf.truncate(20);
    assert_eq!(decode_point(&buf), Err(DecodeError::InvalidLength));
}

#[test]
fn trailing_bytes_are_invalid_length() {
    let p = point(1.0, 2.0, None);
    let mut buf = encode_point(&p, false);
    buf.push(0);
    assert_eq!(decode_point(&buf), Err(DecodeError::InvalidLength));
}

#[test]
fn srid_flag_without_srid_bytes_is_invalid_length() {
    // Type code flags an embedded SRID, but the buffer is only 21 bytes.
    let p = point(1.0, 2.0, Some(4326));
    let mut buf = encode_point(&p, false);
    buf.truncate(21);
    assert_eq!(decode_point(&buf), Err(DecodeError::InvalidLength));
}

#[test]
fn linestring_tag_is_invalid_geometry_type() {
    // 21 bytes whose geometry type code says "LineString" (2), not "Point".
    let mut buf: Vec<u8> = vec![1, 2, 0, 0, 0];
    buf.extend_from_slice(&1.0f64.to_le_bytes());
    buf.extend_from_slice(&2.0f64.to_le_bytes());
    assert_eq!(decode_point(&buf), Err(DecodeError::InvalidGeometryType));
}

#[test]
fn srid_flagged_linestring_tag_is_invalid_geometry_type() {
    let buf: Vec<u8> = vec![1, 2, 0, 0, 0x20, 0, 0, 0, 0, 0, 0, 0, 0];
    assert_eq!(decode_point(&buf), Err(DecodeError::InvalidGeometryType));
}

#[test]
fn bad_byte_order_marker_is_unsupported() {
    let buf: Vec<u8> = vec![2, 1, 0, 0, 0, 0, 0, 0, 0, 0];
    assert_eq!(decode_point(&buf), Err(DecodeError::UnsupportedByteOrder));
}

#[test]
fn decode_is_byte_order_aware() {
    let p = point(-122.4194, 37.7749, Some(4326));
    let le = encode_point(&p, false);
    let be = encode_point(&p, true);
    assert_ne!(le, be);
    assert_eq!(decode_point(&le), decode_point(&be));
    assert_eq!(decode_point(&le), Ok(p));
}

#[test]
fn big_endian_buffer_has_reversed_fields() {
    let p = point(-122.4194, 37.7749, Some(4326));
    let be = encode_point(&p, true);
    let expected: Vec<u8> = vec![
        0x00, 0x20, 0x00, 0x00, 0x01, 0x00, 0x00, 0x10, 0xe6, 0xc0, 0x5e, 0x9a, 0xd7, 0x73,
        0x18, 0xfc, 0x50, 0x40, 0x42, 0xe3, 0x2f, 0xec, 0x56, 0xd5, 0xd0,
    ];
    assert_eq!(be, expected);
}

#[test]
fn example_point_encodes_to_25_exact_bytes() {
    let p = point(-122.4194, 37.7749, Some(4326));
    let buf = encode_point(&p, false);
    let expected: Vec<u8> = vec![
        0x01, 0x01, 0x00, 0x00, 0x20, 0xe6, 0x10, 0x00, 0x00, 0x50, 0xfc, 0x18, 0x73, 0xd7,
        0x9a, 0x5e, 0xc0, 0xd0, 0xd5, 0x56, 0xec, 0x2f, 0xe3, 0x42, 0x40,
    ];
    assert_eq!(buf.len(), 25);
    assert_eq!(buf, expected);
    assert_eq!(decode_point(&buf), Ok(p));
}

#[test]
fn non_finite_coordinates_round_trip_bit_for_bit() {
    for x in [f64::NAN, f64::INFINITY, f64::NEG_INFINITY, -0.0] {
        for srid in [None, Some(4326), Some(0)] {
            let p = point(x, f64::NAN, srid);
            let buf = encode_point(&p, false);
            let back = decode_point(&buf).unwrap();
            // Compare the raw bit patterns: NaN payloads must be preserved.
            assert_eq!(back.x_bits, x.to_bits());
            assert_eq!(back.y_bits, f64::NAN.to_bits());
            assert_eq!(back.srid, srid);
        }
    }
}

#[test]
fn to_sql_appends_little_endian_encoding() {
    let p = point(5.0, 6.0, Some(31370));
    let mut out: Vec<u8> = vec![0xaa, 0xbb];
    p.to_sql(&mut out);
    assert_eq!(&out[..2], &[0xaa, 0xbb]);
    assert_eq!(decode_point(&out[2..]), Ok(p));
}
