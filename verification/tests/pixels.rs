//! Tests of pixel-word packing, decoding, and unpremultiplication.

use openslide::utils::{decode_buffer, encode_word, WordRepresentation};

#[test]
fn full_opacity_round_trip_big_endian() {
    // A fully opaque pixel packs and decodes back to identical channels.
    let word = encode_word(152, 123, 172, 255, WordRepresentation::BigEndian);
    assert_eq!(word, 0xFF98_7BAC);
    let buffer = vec![word];
    let raster = decode_buffer(&buffer, 1, 1, WordRepresentation::BigEndian).unwrap();
    assert_eq!(raster.get_pixel(0, 0), (152, 123, 172, 255));
}

#[test]
fn full_opacity_round_trip_little_endian() {
    let word = encode_word(1, 2, 3, 255, WordRepresentation::LittleEndian);
    let buffer = vec![word];
    let raster = decode_buffer(&buffer, 1, 1, WordRepresentation::LittleEndian).unwrap();
    assert_eq!(raster.get_pixel(0, 0), (1, 2, 3, 255));
}

#[test]
fn word_orders_place_alpha_at_opposite_ends() {
    let be = encode_word(0x11, 0x22, 0x33, 0x44, WordRepresentation::BigEndian);
    let le = encode_word(0x11, 0x22, 0x33, 0x44, WordRepresentation::LittleEndian);
    assert_eq!(be, 0x4411_2233);
    assert_eq!(le, 0x3322_1144);
}

#[test]
fn half_opacity_unpremultiplies_within_rounding() {
    // Premultiplied channels at alpha 128 are rescaled by 255/128,
    // rounded to the nearest integer.
    let word = encode_word(60, 100, 128, 128, WordRepresentation::BigEndian);
    let buffer = vec![word];
    let raster = decode_buffer(&buffer, 1, 1, WordRepresentation::BigEndian).unwrap();
    let (r, g, b, a) = raster.get_pixel(0, 0);
    // round(60 * 255 / 128) = round(119.53) = 120
    assert_eq!(r, 120);
    // round(100 * 255 / 128) = round(199.22) = 199
    assert_eq!(g, 199);
    // round(128 * 255 / 128) = 255
    assert_eq!(b, 255);
    assert_eq!(a, 128);
}

#[test]
fn zero_alpha_passes_channels_through() {
    let word = encode_word(10, 20, 30, 0, WordRepresentation::BigEndian);
    let raster = decode_buffer(&vec![word], 1, 1, WordRepresentation::BigEndian).unwrap();
    assert_eq!(raster.get_pixel(0, 0), (10, 20, 30, 0));
}

#[test]
fn unpremultiplication_clamps_at_channel_maximum() {
    // A channel larger than its alpha would rescale past 255 and is
    // clamped there.
    let word = encode_word(200, 1, 1, 100, WordRepresentation::BigEndian);
    let raster = decode_buffer(&vec![word], 1, 1, WordRepresentation::BigEndian).unwrap();
    let (r, g, b, a) = raster.get_pixel(0, 0);
    assert_eq!(r, 255);
    // round(1 * 255 / 100) = round(2.55) = 3
    assert_eq!(g, 3);
    assert_eq!(b, 3);
    assert_eq!(a, 100);
}

#[test]
fn decode_rejects_extents_beyond_u32() {
    let buffer: Vec<u32> = Vec::new();
    let err = decode_buffer(&buffer, 0, (u32::MAX as u64) + 1, WordRepresentation::BigEndian);
    assert!(err.is_err());
    let e = err.err().unwrap();
    assert!(matches!(
        e.kind(),
        openslide::error::ErrorKind::NumPrimitiveCast { .. }
    ));
    assert_eq!(e.message().unwrap(), "to u32");
}

#[test]
fn decode_lays_pixels_out_row_major() {
    let buffer = vec![
        encode_word(1, 2, 3, 255, WordRepresentation::BigEndian),
        encode_word(4, 5, 6, 255, WordRepresentation::BigEndian),
        encode_word(7, 8, 9, 255, WordRepresentation::BigEndian),
        encode_word(10, 11, 12, 255, WordRepresentation::BigEndian),
        encode_word(13, 14, 15, 255, WordRepresentation::BigEndian),
        encode_word(16, 17, 18, 255, WordRepresentation::BigEndian),
    ];
    let raster = decode_buffer(&buffer, 2, 3, WordRepresentation::BigEndian).unwrap();
    assert_eq!(raster.height(), 2);
    assert_eq!(raster.width(), 3);
    assert_eq!(raster.get_pixel(0, 0), (1, 2, 3, 255));
    assert_eq!(raster.get_pixel(0, 2), (7, 8, 9, 255));
    assert_eq!(raster.get_pixel(1, 0), (10, 11, 12, 255));
    assert_eq!(raster.get_pixel(1, 2), (16, 17, 18, 255));
    assert_eq!(
        raster.into_vec(),
        vec![
            1, 2, 3, 255, 4, 5, 6, 255, 7, 8, 9, 255, 10, 11, 12, 255, 13, 14, 15, 255, 16, 17,
            18, 255
        ]
    );
}
