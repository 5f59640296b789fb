//! Tests of the property parser: the typed tree, the predefined
//! properties, level-count discovery, and value parsing.

use openslide::parse::{parse_fixed_str, parse_u32_str, FixedDecimal};
use openslide::predefined_properties::PredefinedProperties;
use openslide::properties::openslide::find_max_level;
use openslide::properties::{map_lookup, Properties};

fn pair(k: &str, v: &str) -> (String, String) {
    (String::from(k), String::from(v))
}

#[test]
fn discovered_level_count_is_max_index_plus_one() {
    // No explicit level-count: the tree discovers two levels and the
    // per-level array is filled by index.
    let map = vec![
        pair("openslide.level[0].height", "100"),
        pair("openslide.level[1].height", "50"),
    ];
    let tree = Properties::new(&map);
    assert_eq!(tree.level_count(), Some(2));
    assert_eq!(tree.discovered_level_count(), Some(2));
    let levels = tree.levels().unwrap();
    assert_eq!(levels.len(), 2);
    assert_eq!(levels[0].height(), Some(100));
    assert_eq!(levels[1].height(), Some(50));
}

#[test]
fn explicit_count_with_matching_levels() {
    let map = vec![
        pair("openslide.vendor", "aperio"),
        pair("openslide.level-count", "1"),
        pair("openslide.level[0].width", "2220"),
        pair("openslide.level[0].height", "2967"),
    ];
    let tree = Properties::new(&map);
    assert_eq!(tree.vendor(), Some(String::from("aperio")));
    assert_eq!(tree.level_count(), Some(1));
    assert!(!tree.level_count_mismatch());
    let levels = tree.levels().unwrap();
    assert_eq!(levels.len(), 1);
    assert_eq!(levels[0].width(), Some(2220));
    assert_eq!(levels[0].height(), Some(2967));
    assert_eq!(levels[0].downsample(), None);
}

#[test]
fn count_mismatch_keeps_both_values_inspectable() {
    let map = vec![
        pair("openslide.level-count", "5"),
        pair("openslide.level[0].height", "10"),
        pair("openslide.level[1].height", "5"),
    ];
    let tree = Properties::new(&map);
    // The explicit property and the discovered count disagree: both
    // stay visible, with the diagnostic flag raised.
    assert_eq!(tree.level_count(), Some(5));
    assert_eq!(tree.discovered_level_count(), Some(2));
    assert!(tree.level_count_mismatch());
    // The array is sized by the discovered count, so every discovered
    // level is addressable.
    assert_eq!(tree.levels().unwrap().len(), 2);
}

#[test]
fn openslide_fields_are_typed() {
    let map = vec![
        pair("openslide.comment", "a comment"),
        pair("openslide.quickhash-1", "abc123"),
        pair("openslide.objective-power", "40"),
        pair("openslide.mpp-x", "0.499"),
        pair("openslide.mpp-y", "0.499"),
        pair("openslide.level[0].downsample", "1"),
        pair("openslide.level[0].tile-width", "240"),
        pair("openslide.level[0].tile-height", "240"),
    ];
    let tree = Properties::new(&map);
    assert_eq!(tree.comment(), Some(String::from("a comment")));
    assert_eq!(tree.quickhash_1(), Some(String::from("abc123")));
    assert_eq!(tree.objective_power(), Some(40));
    assert_eq!(tree.mpp_x(), Some(FixedDecimal { milli: 499 }));
    assert_eq!(tree.mpp_y(), Some(FixedDecimal { milli: 499 }));
    let levels = tree.levels().unwrap();
    assert_eq!(levels[0].downsample(), Some(FixedDecimal { milli: 1000 }));
    assert_eq!(levels[0].tile_width(), Some(240));
    assert_eq!(levels[0].tile_height(), Some(240));
    assert_eq!(tree.vendor(), None);
}

#[test]
fn unparseable_numeric_field_is_left_absent() {
    // A bad numeric value degrades to "absent"; the parse as a whole
    // still succeeds.
    let map = vec![
        pair("openslide.objective-power", "forty"),
        pair("openslide.level[0].height", "1e2"),
    ];
    let tree = Properties::new(&map);
    assert_eq!(tree.objective_power(), None);
    assert_eq!(tree.discovered_level_count(), Some(1));
    assert_eq!(tree.levels().unwrap()[0].height(), None);
}

#[test]
fn tiff_namespace_is_routed_by_prefix() {
    let map = vec![
        pair("tiff.ImageDescription", "Aperio Image"),
        pair("tiff.Software", "scanner suite"),
        pair("tiff.Model", "GT450"),
        pair("tiff.DateTime", "2015:03:06 11:10:15"),
        pair("tiff.Make", "Aperio"),
        pair("tiff.XResolution", "20040.5"),
        pair("tiff.YResolution", "20040"),
        pair("tiff.ResolutionUnit", "centimeter"),
    ];
    let tree = Properties::new(&map);
    assert_eq!(tree.image_description(), Some(String::from("Aperio Image")));
    assert_eq!(tree.software(), Some(String::from("scanner suite")));
    assert_eq!(tree.model(), Some(String::from("GT450")));
    assert_eq!(tree.date_time(), Some(String::from("2015:03:06 11:10:15")));
    assert_eq!(tree.make(), Some(String::from("Aperio")));
    assert_eq!(tree.x_resolution(), Some(FixedDecimal { milli: 20_040_500 }));
    assert_eq!(tree.y_resolution(), Some(FixedDecimal { milli: 20_040_000 }));
    assert_eq!(tree.resolution_unit(), Some(String::from("centimeter")));
}

#[test]
fn aperio_namespace_accepts_fields_with_spaces() {
    let map = vec![
        pair("aperio.Filename", "CMU-1"),
        pair("aperio.Title", "a title"),
        pair("aperio.ImageID", "1004486"),
        pair("aperio.DSR ID", "homer"),
        pair("aperio.ScanScope ID", "CPAPERIOCS"),
        pair("aperio.Date", "12/29/09"),
        pair("aperio.Time", "09:59:15"),
        pair("aperio.Time Zone", "GMT-05:00"),
        pair("aperio.User", "b414003d"),
        pair("aperio.ICC Profile", "ScanScope v1"),
        pair("aperio.Parmset", "USM Filter"),
        pair("aperio.OriginalHeight", "32914"),
        pair("aperio.OriginalWidth", "46000"),
        pair("aperio.Top", "23.217"),
        pair("aperio.Left", "25.691"),
        pair("aperio.MPP", "0.499"),
        pair("aperio.LineCameraSkew", "-0.000424"),
        pair("aperio.LineAreaXOffset", "0.019265"),
        pair("aperio.LineAreaYOffset", "-0.000313"),
        pair("aperio.Focus Offset", "0.0"),
        pair("aperio.AppMag", "20"),
        pair("aperio.StripeWidth", "2040"),
        pair("aperio.Filtered", "5"),
        pair("aperio.DisplayColor", "0"),
        pair("aperio.Exposure Time", "109"),
        pair("aperio.Exposure Scale", "0.000001"),
        pair("aperio.SessonMode", "NORM"),
    ];
    let tree = Properties::new(&map);
    assert_eq!(tree.filename(), Some(String::from("CMU-1")));
    assert_eq!(tree.title(), Some(String::from("a title")));
    assert_eq!(tree.image_id(), Some(String::from("1004486")));
    assert_eq!(tree.dsr_id(), Some(String::from("homer")));
    assert_eq!(tree.scan_scope_id(), Some(String::from("CPAPERIOCS")));
    assert_eq!(tree.date(), Some(String::from("12/29/09")));
    assert_eq!(tree.time(), Some(String::from("09:59:15")));
    assert_eq!(tree.time_zone(), Some(String::from("GMT-05:00")));
    assert_eq!(tree.user(), Some(String::from("b414003d")));
    assert_eq!(tree.icc_profile(), Some(String::from("ScanScope v1")));
    assert_eq!(tree.parmset(), Some(String::from("USM Filter")));
    assert_eq!(tree.original_height(), Some(32914));
    assert_eq!(tree.original_width(), Some(46000));
    assert_eq!(tree.top(), Some(FixedDecimal { milli: 23217 }));
    assert_eq!(tree.left(), Some(FixedDecimal { milli: 25691 }));
    assert_eq!(tree.mpp(), Some(FixedDecimal { milli: 499 }));
    // -0.000424 truncates beneath the stored thousandth resolution.
    assert_eq!(tree.line_camera_skew(), Some(FixedDecimal { milli: 0 }));
    assert_eq!(tree.line_area_x_offset(), Some(FixedDecimal { milli: 19 }));
    assert_eq!(tree.line_area_y_offset(), Some(FixedDecimal { milli: 0 }));
    assert_eq!(tree.focus_offset(), Some(FixedDecimal { milli: 0 }));
    assert_eq!(tree.app_mag(), Some(20));
    assert_eq!(tree.stripe_width(), Some(2040));
    assert_eq!(tree.filtered(), Some(5));
    assert_eq!(tree.display_color(), Some(0));
    assert_eq!(tree.exposure_time(), Some(109));
    assert_eq!(tree.exposure_scale(), Some(FixedDecimal { milli: 0 }));
    assert_eq!(tree.sesson_mode(), Some(String::from("NORM")));
}

#[test]
fn unknown_namespaces_become_diagnostics_not_errors() {
    let map = vec![
        pair("hamamatsu.SourceLens", "20"),
        pair("openslide.vendor", "hamamatsu"),
        pair("no-dot-key", "x"),
    ];
    let tree = Properties::new(&map);
    assert_eq!(tree.vendor(), Some(String::from("hamamatsu")));
    let unparsed = tree.unparsed();
    assert_eq!(unparsed.len(), 2);
    assert_eq!(unparsed[0], pair("hamamatsu.SourceLens", "20"));
    assert_eq!(unparsed[1], pair("no-dot-key", "x"));
}

#[test]
fn predefined_properties_resolve_in_one_pass() {
    let map = vec![
        pair("openslide.vendor", "aperio"),
        pair("openslide.level-count", "1"),
        pair("openslide.level[0].width", "2220"),
        pair("openslide.level[0].height", "2967"),
        pair("openslide.mpp-x", "0.499"),
    ];
    let p = PredefinedProperties::new(&map);
    assert_eq!(p.vendor(), Some(String::from("aperio")));
    assert_eq!(p.level_count(), Some(1));
    assert_eq!(p.declared_level_count(), Some(1));
    assert!(!p.level_count_mismatch());
    assert_eq!(p.mpp_x(), Some(FixedDecimal { milli: 499 }));
    assert_eq!(p.comment(), None);
    assert_eq!(p.quickhash_1(), None);
    assert_eq!(p.objective_power(), None);
    let levels = p.levels().unwrap();
    assert_eq!(levels.len(), 1);
    assert_eq!(levels[0].width(), Some(2220));
    assert_eq!(levels[0].height(), Some(2967));
    assert_eq!(levels[0].downsample(), None);
}

#[test]
fn predefined_count_prefers_the_discovered_value() {
    let map = vec![
        pair("openslide.level-count", "9"),
        pair("openslide.level[0].width", "10"),
    ];
    let p = PredefinedProperties::new(&map);
    assert_eq!(p.level_count(), Some(1));
    assert_eq!(p.declared_level_count(), Some(9));
    assert!(p.level_count_mismatch());
}

#[test]
fn find_max_level_scans_the_level_indexed_keys() {
    let map = vec![
        pair("openslide.level[2].height", "5"),
        pair("openslide.level[0].height", "20"),
        pair("tiff.Make", "x"),
    ];
    assert_eq!(find_max_level(&map), Some(3));
    let no_levels = vec![pair("openslide.vendor", "a")];
    assert_eq!(find_max_level(&no_levels), None);
    // An index with leading zeros still parses by value.
    let padded = vec![pair("openslide.level[007].height", "5")];
    assert_eq!(find_max_level(&padded), Some(8));
}

#[test]
fn map_lookup_takes_the_last_pair_for_a_duplicated_key() {
    let map = vec![
        pair("openslide.vendor", "first"),
        pair("openslide.vendor", "second"),
    ];
    assert_eq!(map_lookup(&map, "openslide.vendor"), Some(String::from("second")));
    assert_eq!(map_lookup(&map, "openslide.comment"), None);
    let tree = Properties::new(&map);
    assert_eq!(tree.vendor(), Some(String::from("second")));
}

#[test]
fn base_ten_integer_parsing_is_exact() {
    assert_eq!(parse_u32_str("100"), Some(100));
    assert_eq!(parse_u32_str("0"), Some(0));
    assert_eq!(parse_u32_str("4294967295"), Some(u32::MAX));
    assert_eq!(parse_u32_str("4294967296"), None);
    assert_eq!(parse_u32_str(""), None);
    assert_eq!(parse_u32_str("12a"), None);
    assert_eq!(parse_u32_str("-1"), None);
    assert_eq!(parse_u32_str(" 7"), None);
}

#[test]
fn fixed_point_parsing_keeps_three_fractional_digits() {
    assert_eq!(parse_fixed_str("2.5"), Some(FixedDecimal { milli: 2500 }));
    assert_eq!(parse_fixed_str("2"), Some(FixedDecimal { milli: 2000 }));
    assert_eq!(parse_fixed_str("-0.125"), Some(FixedDecimal { milli: -125 }));
    assert_eq!(parse_fixed_str("0.4990"), Some(FixedDecimal { milli: 499 }));
    // Digits beneath the thousandth are ignored.
    assert_eq!(parse_fixed_str("1.0005"), Some(FixedDecimal { milli: 1000 }));
    assert_eq!(parse_fixed_str("1."), Some(FixedDecimal { milli: 1000 }));
    assert_eq!(parse_fixed_str(".5"), None);
    assert_eq!(parse_fixed_str("abc"), None);
    assert_eq!(parse_fixed_str("1.2.3"), None);
    assert_eq!(parse_fixed_str("-"), None);
    assert_eq!(parse_fixed_str(""), None);
}
