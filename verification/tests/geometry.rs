//! Tests of the pyramid model, the level resolver checks, and the
//! region clamper.

use openslide::error::ErrorKind;
use openslide::pyramid::{LevelGeometry, Pyramid};
use openslide::region::clamp_region;
use openslide::resolver::{
    best_level_from_raw, check_downsample_target, check_level_validity, dimensions_from_raw,
    downsample_from_raw, level_count_from_raw,
};
use openslide::utils::{to_i32, to_i64, to_u32, to_u64};

fn three_level_pyramid() -> Pyramid {
    Pyramid::new(vec![
        LevelGeometry { width: 2220, height: 2967, downsample_milli: 1000 },
        LevelGeometry { width: 1110, height: 1483, downsample_milli: 2000 },
        LevelGeometry { width: 555, height: 741, downsample_milli: 4003 },
    ])
    .unwrap()
}

#[test]
fn pyramid_accepts_valid_geometry() {
    let p = three_level_pyramid();
    assert_eq!(p.level_count(), 3);
}

#[test]
fn pyramid_rejects_wrong_level0_downsample() {
    let r = Pyramid::new(vec![LevelGeometry { width: 10, height: 10, downsample_milli: 2000 }]);
    assert!(matches!(r.err().unwrap().kind(), ErrorKind::OutOfBounds { .. }));
}

#[test]
fn pyramid_rejects_decreasing_downsample() {
    let r = Pyramid::new(vec![
        LevelGeometry { width: 10, height: 10, downsample_milli: 1000 },
        LevelGeometry { width: 5, height: 5, downsample_milli: 4000 },
        LevelGeometry { width: 3, height: 3, downsample_milli: 2000 },
    ]);
    assert!(r.is_err());
}

#[test]
fn pyramid_rejects_empty_geometry() {
    assert!(Pyramid::new(Vec::new()).is_err());
}

#[test]
fn pyramid_rejects_level_larger_than_level0() {
    let r = Pyramid::new(vec![
        LevelGeometry { width: 10, height: 10, downsample_milli: 1000 },
        LevelGeometry { width: 11, height: 5, downsample_milli: 2000 },
    ]);
    assert!(r.is_err());
}

#[test]
fn level0_dimensions_agree_with_level_zero() {
    let p = three_level_pyramid();
    assert_eq!(p.level0_dimensions(), (2220, 2967));
    assert_eq!(p.level_dimensions(0).unwrap(), p.level0_dimensions());
}

#[test]
fn level_dimensions_rejects_out_of_range_level() {
    let p = three_level_pyramid();
    assert_eq!(p.level_dimensions(2).unwrap(), (555, 741));
    let e = p.level_dimensions(3).err().unwrap();
    assert!(matches!(e.kind(), ErrorKind::OutOfBounds { .. }));
    assert_eq!(
        e.message().unwrap(),
        "Specified level 3 is not below the level count 3"
    );
}

#[test]
fn downsamples_are_monotonic() {
    let p = three_level_pyramid();
    let mut previous = 0u64;
    let count = p.level_count();
    let mut level = 0u32;
    while level < count {
        let d = p.level_downsample(level).unwrap();
        assert!(d >= previous);
        previous = d;
        level += 1;
    }
    assert_eq!(p.level_downsample(0).unwrap(), 1000);
    assert!(p.level_downsample(3).is_err());
}

#[test]
fn best_level_does_not_exceed_target() {
    let p = three_level_pyramid();
    // 2.5 lies between the factors of levels 1 and 2.
    let level = p.best_level_for_downsample(2500).unwrap();
    assert_eq!(level, 1);
    assert!(p.level_downsample(level).unwrap() <= 2500);
    // Larger than every factor: the last level.
    assert_eq!(p.best_level_for_downsample(10_000).unwrap(), 2);
    // Exactly a level's factor.
    assert_eq!(p.best_level_for_downsample(4003).unwrap(), 2);
    // Below every factor: no level qualifies, the full-resolution
    // level is returned.
    assert_eq!(p.best_level_for_downsample(500).unwrap(), 0);
    // A negative target violates the range constraint.
    let e = p.best_level_for_downsample(-1).err().unwrap();
    assert!(matches!(e.kind(), ErrorKind::OutOfBounds { .. }));
}

#[test]
fn clamp_leaves_fitting_request_unchanged() {
    // A 4 x 4 request at (1510, 1510) on a 2220 x 2967 level fits.
    let f = clamp_region(1510, 1510, 4, 4, 2220, 2967, 1000).unwrap();
    assert_eq!((f.height, f.width), (4, 4));
    assert!(!f.height_clamped);
    assert!(!f.width_clamped);
}

#[test]
fn clamp_cuts_overrunning_extent_to_what_remains() {
    // The extent past the level edge comes back as exactly the level
    // extent minus the translated top-left offset, and is reported.
    let f = clamp_region(2960, 10, 10, 4, 2220, 2967, 1000).unwrap();
    assert_eq!(f.height, 7);
    assert!(f.height_clamped);
    assert_eq!(f.width, 4);
    assert!(!f.width_clamped);
}

#[test]
fn clamp_translates_by_the_downsample_factor() {
    // At a factor of 2, row 1510 lands at 755; 2967 - 755 = 2212.
    let f = clamp_region(1510, 0, 5000, 5000, 2220, 2967, 2000).unwrap();
    assert_eq!(f.height, 2212);
    assert!(f.height_clamped);
    assert_eq!(f.width, 2220);
    // Rounding is to the nearest integer: 5 / 2 rounds up to 3.
    let g = clamp_region(5, 0, 1, 1, 10, 10, 2000).unwrap();
    assert_eq!(g.height, 1);
    let h = clamp_region(5, 0, 100, 1, 10, 10, 2000).unwrap();
    assert_eq!(h.height, 7);
}

#[test]
fn clamp_rejects_corner_outside_the_level() {
    let e = clamp_region(3000, 0, 1, 1, 2220, 2967, 1000).err().unwrap();
    assert!(matches!(e.kind(), ErrorKind::OutOfBounds { .. }));
    assert_eq!(
        e.message().unwrap(),
        "requested top left row lies outside the level"
    );
    let e = clamp_region(0, 3000, 1, 1, 2220, 2967, 1000).err().unwrap();
    assert_eq!(
        e.message().unwrap(),
        "requested top left column lies outside the level"
    );
}

#[test]
fn level_count_sentinel_is_rejected() {
    assert_eq!(level_count_from_raw(7).unwrap(), 7);
    let e = level_count_from_raw(-1).err().unwrap();
    assert!(matches!(e.kind(), ErrorKind::ReturnValue { .. }));
    assert_eq!(e.in_function().unwrap(), "get_level_count");
    assert_eq!(e.message().unwrap(), "returned num_levels = -1");
}

#[test]
fn dimension_sentinels_are_rejected() {
    assert_eq!(
        dimensions_from_raw(2220, 2967, "get_level0_dimensions").unwrap(),
        (2220, 2967)
    );
    let e = dimensions_from_raw(-5, 10, "get_level0_dimensions").err().unwrap();
    assert_eq!(e.in_function().unwrap(), "get_level0_dimensions");
    assert_eq!(e.message().unwrap(), "returned width = -5");
    let e = dimensions_from_raw(5, -10, "get_level_dimensions").err().unwrap();
    assert_eq!(e.in_function().unwrap(), "get_level_dimensions");
    assert_eq!(e.message().unwrap(), "returned height = -10");
}

#[test]
fn downsample_sentinel_is_rejected() {
    assert_eq!(downsample_from_raw(1000).unwrap(), 1000);
    let e = downsample_from_raw(-2).err().unwrap();
    assert!(matches!(e.kind(), ErrorKind::ReturnValue { .. }));
    assert_eq!(e.in_function().unwrap(), "get_level_downsample");
    assert_eq!(e.message().unwrap(), "returned downsample_factor_milli = -2");
}

#[test]
fn best_level_sentinel_and_negative_target_are_rejected() {
    assert_eq!(best_level_from_raw(2).unwrap(), 2);
    let e = best_level_from_raw(-1).err().unwrap();
    assert_eq!(e.in_function().unwrap(), "get_best_level_for_downsample");
    assert_eq!(e.message().unwrap(), "returned level = -1");
    assert!(check_downsample_target(2500).is_ok());
    let e = check_downsample_target(-3).err().unwrap();
    assert!(matches!(e.kind(), ErrorKind::OutOfBounds { .. }));
    assert_eq!(
        e.message().unwrap(),
        "Specified downsample factor is negative: -3"
    );
}

#[test]
fn level_validity_is_checked_against_the_count() {
    assert!(check_level_validity(0, 1).is_ok());
    let e = check_level_validity(3, 2).err().unwrap();
    assert!(matches!(e.kind(), ErrorKind::OutOfBounds { .. }));
    assert_eq!(
        e.message().unwrap(),
        "Specified level 3 is not below the level count 2"
    );
}

#[test]
fn numeric_narrowing_fails_rather_than_truncating() {
    assert_eq!(to_u32(4294967295).unwrap(), u32::MAX);
    let e = to_u32(4294967296).err().unwrap();
    assert!(matches!(e.kind(), ErrorKind::NumPrimitiveCast { .. }));
    assert_eq!(e.message().unwrap(), "to u32");
    assert_eq!(to_i32(2147483647).unwrap(), i32::MAX);
    assert!(to_i32(2147483648).is_err());
    assert_eq!(to_u64(0).unwrap(), 0);
    assert!(to_u64(-1).is_err());
    assert_eq!(to_i64(9223372036854775807).unwrap(), i64::MAX);
    assert!(to_i64(9223372036854775808).is_err());
}
