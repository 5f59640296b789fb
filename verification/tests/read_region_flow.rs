//! A whole region read, short of the native call: a small request is
//! clamped against the slide geometry, and the packed buffer the
//! native engine would fill is decoded into the RGBA raster.

use openslide::pyramid::{LevelGeometry, Pyramid};
use openslide::utils::{decode_buffer, encode_word, WordRepresentation};

#[test]
fn small_region_at_level_zero_round_trips() {
    // A 4 x 4 region at level 0 of a 2220 x 2967 slide, requested at
    // top-left (1510, 1510): the clamp leaves the extents unchanged.
    let pyramid = Pyramid::new(vec![LevelGeometry {
        width: 2220,
        height: 2967,
        downsample_milli: 1000,
    }])
    .unwrap();
    let fit = pyramid.get_feasible_dimensions(1510, 1510, 0, 4, 4).unwrap();
    assert_eq!((fit.height, fit.width), (4, 4));
    assert!(!fit.height_clamped && !fit.width_clamped);

    // The raster a fully opaque 16-word buffer decodes to carries the
    // buffer's channels unchanged.
    let rgba: Vec<u8> = vec![
        152, 123, 172, 255, 148, 122, 171, 255, 137, 123, 167, 255, 167, 158, 175, 255, 179, 185,
        205, 255, 183, 197, 213, 255, 198, 210, 221, 255, 224, 226, 224, 255, 247, 249, 246, 255,
        248, 255, 247, 255, 255, 249, 243, 255, 236, 255, 255, 255, 249, 239, 250, 255, 250, 246,
        252, 255, 254, 245, 241, 255, 246, 246, 246, 255,
    ];
    let mut buffer: Vec<u32> = Vec::new();
    let mut i = 0;
    while i < rgba.len() {
        buffer.push(encode_word(
            rgba[i],
            rgba[i + 1],
            rgba[i + 2],
            rgba[i + 3],
            WordRepresentation::BigEndian,
        ));
        i += 4;
    }
    assert_eq!(buffer.len(), (fit.height * fit.width) as usize);
    let raster = decode_buffer(
        &buffer,
        fit.height,
        fit.width,
        WordRepresentation::BigEndian,
    )
    .unwrap();
    assert_eq!(raster.get_pixel(0, 0), (152, 123, 172, 255));
    assert_eq!(raster.into_vec(), rgba);
}
