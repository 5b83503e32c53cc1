//! Cross-checks of the verified codec against the postgis crate's EWKB
//! reader and writer on the same values.

use geopoint_ewkb::ewkb::{decode_point, encode_point};
use geopoint_ewkb::point::EwkbPoint;
use postgis::ewkb::{AsEwkbPoint, EwkbRead, EwkbWrite};
use std::io::Cursor;

fn point(x: f64, y: f64, srid: Option<i32>) -> EwkbPoint {
    EwkbPoint { x_bits: x.to_bits(), y_bits: y.to_bits(), srid }
}

fn postgis_bytes(x: f64, y: f64, srid: Option<i32>) -> Vec<u8> {
    let p = postgis::ewkb::Point::new(x, y, srid);
    let mut buf: Vec<u8> = Vec::new();
    p.as_ewkb().write_ewkb(&mut buf).unwrap();
    buf
}

#[test]
fn encoding_matches_postgis_writer_with_srid() {
    let ours = encode_point(&point(-122.4194, 37.7749, Some(4326)), false);
    let theirs = postgis_bytes(-122.4194, 37.7749, Some(4326));
    assert_eq!(ours, theirs);
}

#[test]
fn encoding_matches_postgis_writer_without_srid() {
    let ours = encode_point(&point(8.5, -16.25, None), false);
    let theirs = postgis_bytes(8.5, -16.25, None);
    assert_eq!(ours, theirs);
}

#[test]
fn postgis_reader_accepts_our_encoding() {
    for big_endian in [false, true] {
        let buf = encode_point(&point(2.5, -3.5, Some(4326)), big_endian);
        let mut rdr = Cursor::new(&buf[..]);
        let p = postgis::ewkb::Point::read_ewkb(&mut rdr).unwrap();
        assert_eq!(p.x, 2.5);
        assert_eq!(p.y, -3.5);
        assert_eq!(p.srid, Some(4326));
    }
}

#[test]
fn our_decoder_accepts_postgis_encoding() {
    let buf = postgis_bytes(100.125, -0.0625, Some(31370));
    assert_eq!(decode_point(&buf), Ok(point(100.125, -0.0625, Some(31370))));
}
