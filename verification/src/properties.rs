//! The typed property tree: the flat string-keyed metadata map parsed
//! into namespaced records of typed, optional fields.

pub mod aperio;
pub mod openslide;
pub mod tiff;

use vstd::prelude::*;

use crate::parse::{chars_eq_str, find_first_dot, spec_namespace, to_chars, FixedDecimal};
use crate::properties::aperio::{spec_aperio_apply, spec_aperio_default, Aperio, AperioModel};
use crate::properties::openslide::{
    spec_os_apply, spec_os_init, LevelProperties, OpenSlide, OpenSlideModel,
};
use crate::properties::tiff::{spec_tiff_apply, spec_tiff_default, Tiff, TiffModel};

verus! {

/// The views of the key/value pairs of a property map.
pub open spec fn spec_pairs(m: Seq<(String, String)>) -> Seq<(Seq<char>, Seq<char>)> {
    m.map_values(|p: (String, String)| (p.0@, p.1@))
}

/// The value of the last pair of the map that carries the given key,
/// if any; insertion order is irrelevant for maps with unique keys,
/// and for duplicate keys the last pair wins.
pub open spec fn spec_lookup(m: Seq<(String, String)>, key: Seq<char>) -> Option<Seq<char>>
    decreases m.len(),
{
    if m.len() == 0 {
        None
    } else if m.last().0@ == key {
        Some(m.last().1@)
    } else {
        spec_lookup(m.drop_last(), key)
    }
}

/// Looks a key up in the property map.
pub fn map_lookup(m: &Vec<(String, String)>, key: &str) -> (r: Option<String>)
    ensures
        r is Some <==> spec_lookup(m@, key@) is Some,
        r matches Some(v) ==> spec_lookup(m@, key@) matches Some(vs) && v@ == vs,
{
    let mut i: usize = m.len();
    proof {
        assert(m@.subrange(0, m@.len() as int) =~= m@);
    }
    while i > 0
        invariant
            i <= m@.len(),
            spec_lookup(m@, key@) == spec_lookup(m@.subrange(0, i as int), key@),
        decreases i,
    {
        i = i - 1;
        let key_chars = to_chars(m[i].0.as_str());
        let n = key_chars.len();
        proof {
            assert(key_chars@.subrange(0, n as int) =~= m@[i as int].0@);
            assert(m@.subrange(0, i + 1).last() == m@[i as int]);
            assert(m@.subrange(0, i + 1).drop_last() =~= m@.subrange(0, i as int));
        }
        if chars_eq_str(&key_chars, 0, n, key) {
            return Some(m[i].1.clone());
        }
    }
    proof {
        assert(m@.subrange(0, 0) =~= Seq::<(String, String)>::empty());
    }
    None
}

/// The mathematical model of the whole property tree.
pub ghost struct PropertiesModel {
    pub openslide_properties: OpenSlideModel,
    pub tiff_properties: TiffModel,
    pub aperio_properties: AperioModel,
    pub unparsed: Seq<(Seq<char>, Seq<char>)>,
}

/// The typed property tree: one record per namespace, each populated
/// only from the keys under that namespace's prefix, plus the keys of
/// unknown namespaces kept as non-fatal diagnostics.
#[derive(Clone, Debug)]
pub struct Properties {
    openslide_properties: OpenSlide,
    tiff_properties: Tiff,
    aperio_properties: Aperio,
    unparsed: Vec<(String, String)>,
}

impl View for Properties {
    type V = PropertiesModel;

    closed spec fn view(&self) -> PropertiesModel {
        PropertiesModel {
            openslide_properties: self.openslide_properties@,
            tiff_properties: self.tiff_properties@,
            aperio_properties: self.aperio_properties@,
            unparsed: spec_pairs(self.unparsed@),
        }
    }
}

/// The tree before any key is applied: the `openslide` namespace
/// initialised from the whole map (it resolves its level counts up
/// front), the other namespaces empty.
pub open spec fn spec_properties_init(m: Seq<(String, String)>) -> PropertiesModel {
    PropertiesModel {
        openslide_properties: spec_os_init(m),
        tiff_properties: spec_tiff_default(),
        aperio_properties: spec_aperio_default(),
        unparsed: Seq::empty(),
    }
}

/// One key/value pair applied to the tree: the key is routed to the
/// namespace named by its first segment (the text before its first
/// dot); a key of an unknown namespace is kept as a diagnostic.
pub open spec fn spec_properties_step(
    pre: PropertiesModel,
    key: Seq<char>,
    value: Seq<char>,
) -> PropertiesModel {
    let ns = spec_namespace(key);
    if ns == "openslide"@ {
        PropertiesModel {
            openslide_properties: spec_os_apply(pre.openslide_properties, key, value),
            ..pre
        }
    } else if ns == "tiff"@ {
        PropertiesModel { tiff_properties: spec_tiff_apply(pre.tiff_properties, key, value), ..pre }
    } else if ns == "aperio"@ {
        PropertiesModel {
            aperio_properties: spec_aperio_apply(pre.aperio_properties, key, value),
            ..pre
        }
    } else {
        PropertiesModel { unparsed: pre.unparsed.push((key, value)), ..pre }
    }
}

/// The tree after the first `n` pairs of the map are applied in order.
pub open spec fn spec_properties_fold(m: Seq<(String, String)>, n: int) -> PropertiesModel
    decreases n,
{
    if n <= 0 {
        spec_properties_init(m)
    } else {
        spec_properties_step(spec_properties_fold(m, n - 1), m[n - 1].0@, m[n - 1].1@)
    }
}

impl Properties {
    /// Builds the typed property tree from the flat property map. The
    /// pairs are applied in order, so with unique keys (the documented
    /// shape of the map) the order is irrelevant, and for a duplicated
    /// key the last pair wins. The parse never fails as a whole:
    /// unknown namespaces and fields become diagnostics, and a numeric
    /// field whose value does not parse is left absent.
    pub fn new(property_map: &Vec<(String, String)>) -> (r: Properties)
        ensures
            r@ == spec_properties_fold(property_map@, property_map@.len() as int),
    {
        let mut openslide_properties = OpenSlide::new(property_map);
        let mut tiff_properties = Tiff::default();
        let mut aperio_properties = Aperio::default();
        let mut unparsed: Vec<(String, String)> = Vec::new();
        let n = property_map.len();
        let mut i: usize = 0;
        proof {
            assert(spec_pairs(unparsed@) =~= Seq::<
                (Seq<char>, Seq<char>),
            >::empty());
        }
        while i < n
            invariant
                i <= n,
                n == property_map@.len(),
                (PropertiesModel {
                    openslide_properties: openslide_properties@,
                    tiff_properties: tiff_properties@,
                    aperio_properties: aperio_properties@,
                    unparsed: spec_pairs(unparsed@),
                }) == spec_properties_fold(property_map@, i as int),
            decreases n - i,
        {
            let chars = to_chars(property_map[i].0.as_str());
            let dot = find_first_dot(&chars);
            proof {
                assert(chars@.subrange(0, dot as int) == spec_namespace(
                    property_map@[i as int].0@,
                ));
            }
            if chars_eq_str(&chars, 0, dot, "openslide") {
                openslide_properties.parse_property_name(
                    property_map[i].0.as_str(),
                    property_map[i].1.as_str(),
                );
            } else if chars_eq_str(&chars, 0, dot, "tiff") {
                tiff_properties.parse_property_name(
                    property_map[i].0.as_str(),
                    property_map[i].1.as_str(),
                );
            } else if chars_eq_str(&chars, 0, dot, "aperio") {
                aperio_properties.parse_property_name(
                    property_map[i].0.as_str(),
                    property_map[i].1.as_str(),
                );
            } else {
                let ghost pre = spec_pairs(unparsed@);
                unparsed.push((property_map[i].0.clone(), property_map[i].1.clone()));
                proof {
                    assert(spec_pairs(unparsed@) =~= pre.push(
                        (property_map@[i as int].0@, property_map@[i as int].1@),
                    ));
                }
            }
            i = i + 1;
        }
        Properties { openslide_properties, tiff_properties, aperio_properties, unparsed }
    }

    /// Slide vendor.
    pub fn vendor(&self) -> (r: Option<String>)
        ensures
            r is Some <==> self@.openslide_properties.vendor is Some,
            r matches Some(s) ==> self@.openslide_properties.vendor == Some(s@),
    {
        clone_opt_string(&self.openslide_properties.vendor)
    }

    /// Quickhash 1, the content hash of the slide.
    pub fn quickhash_1(&self) -> (r: Option<String>)
        ensures
            r is Some <==> self@.openslide_properties.quickhash_1 is Some,
            r matches Some(s) ==> self@.openslide_properties.quickhash_1 == Some(s@),
    {
        clone_opt_string(&self.openslide_properties.quickhash_1)
    }

    /// Micrometer (microns) per pixel in the x direction.
    pub fn mpp_x(&self) -> (r: Option<FixedDecimal>)
        ensures
            r == self@.openslide_properties.mpp_x,
    {
        self.openslide_properties.mpp_x
    }

    /// Micrometer (microns) per pixel in the y direction.
    pub fn mpp_y(&self) -> (r: Option<FixedDecimal>)
        ensures
            r == self@.openslide_properties.mpp_y,
    {
        self.openslide_properties.mpp_y
    }

    /// Objective power.
    pub fn objective_power(&self) -> (r: Option<u32>)
        ensures
            r == self@.openslide_properties.objective_power,
    {
        self.openslide_properties.objective_power
    }

    /// Comment.
    pub fn comment(&self) -> (r: Option<String>)
        ensures
            r is Some <==> self@.openslide_properties.comment is Some,
            r matches Some(s) ==> self@.openslide_properties.comment == Some(s@),
    {
        clone_opt_string(&self.openslide_properties.comment)
    }

    /// Number of zoom levels: the explicit level-count property when
    /// its key is present, the discovered count otherwise.
    pub fn level_count(&self) -> (r: Option<u32>)
        ensures
            r == self@.openslide_properties.level_count,
    {
        self.openslide_properties.level_count
    }

    /// Level count discovered from the level-indexed keys themselves.
    pub fn discovered_level_count(&self) -> (r: Option<u32>)
        ensures
            r == self@.openslide_properties.discovered_level_count,
    {
        self.openslide_properties.discovered_level_count
    }

    /// Whether an explicit level-count property was present and
    /// disagreed with the discovered count.
    pub fn level_count_mismatch(&self) -> (r: bool)
        ensures
            r == self@.openslide_properties.level_count_mismatch,
    {
        self.openslide_properties.level_count_mismatch
    }

    /// Vector of level-dependent properties. The position in the
    /// returned vector corresponds to the zoom level.
    pub fn levels(&self) -> (r: Option<Vec<LevelProperties>>)
        ensures
            r is Some <==> self@.openslide_properties.levels is Some,
            r matches Some(v) ==> self@.openslide_properties.levels == Some(v@),
    {
        match &self.openslide_properties.levels {
            Some(lvls) => {
                let n = lvls.len();
                let mut out: Vec<LevelProperties> = Vec::new();
                let mut i: usize = 0;
                while i < n
                    invariant
                        i <= n,
                        n == lvls@.len(),
                        out@ == lvls@.subrange(0, i as int),
                    decreases n - i,
                {
                    out.push(lvls[i]);
                    i = i + 1;
                    proof {
                        assert(out@ =~= lvls@.subrange(0, i as int));
                    }
                }
                proof {
                    assert(lvls@.subrange(0, n as int) =~= lvls@);
                }
                Some(out)
            },
            None => None,
        }
    }

    /// Image description.
    pub fn image_description(&self) -> (r: Option<String>)
        ensures
            r is Some <==> self@.tiff_properties.image_description is Some,
            r matches Some(s) ==> self@.tiff_properties.image_description == Some(s@),
    {
        clone_opt_string(&self.tiff_properties.image_description)
    }

    /// Software that produced the image.
    pub fn software(&self) -> (r: Option<String>)
        ensures
            r is Some <==> self@.tiff_properties.software is Some,
            r matches Some(s) ==> self@.tiff_properties.software == Some(s@),
    {
        clone_opt_string(&self.tiff_properties.software)
    }

    /// Model name.
    pub fn model(&self) -> (r: Option<String>)
        ensures
            r is Some <==> self@.tiff_properties.model is Some,
            r matches Some(s) ==> self@.tiff_properties.model == Some(s@),
    {
        clone_opt_string(&self.tiff_properties.model)
    }

    /// Timestamp of creation.
    pub fn date_time(&self) -> (r: Option<String>)
        ensures
            r is Some <==> self@.tiff_properties.date_time is Some,
            r matches Some(s) ==> self@.tiff_properties.date_time == Some(s@),
    {
        clone_opt_string(&self.tiff_properties.date_time)
    }

    /// Scanner manufacturer.
    pub fn make(&self) -> (r: Option<String>)
        ensures
            r is Some <==> self@.tiff_properties.make is Some,
            r matches Some(s) ==> self@.tiff_properties.make == Some(s@),
    {
        clone_opt_string(&self.tiff_properties.make)
    }

    /// Resolution in the x direction.
    pub fn x_resolution(&self) -> (r: Option<FixedDecimal>)
        ensures
            r == self@.tiff_properties.x_resolution,
    {
        self.tiff_properties.x_resolution
    }

    /// Resolution in the y direction.
    pub fn y_resolution(&self) -> (r: Option<FixedDecimal>)
        ensures
            r == self@.tiff_properties.y_resolution,
    {
        self.tiff_properties.y_resolution
    }

    /// Resolution unit (e.g. centimeter or inch).
    pub fn resolution_unit(&self) -> (r: Option<String>)
        ensures
            r is Some <==> self@.tiff_properties.resolution_unit is Some,
            r matches Some(s) ==> self@.tiff_properties.resolution_unit == Some(s@),
    {
        clone_opt_string(&self.tiff_properties.resolution_unit)
    }

    /// Slide filename.
    pub fn filename(&self) -> (r: Option<String>)
        ensures
            r is Some <==> self@.aperio_properties.filename is Some,
            r matches Some(s) ==> self@.aperio_properties.filename == Some(s@),
    {
        clone_opt_string(&self.aperio_properties.filename)
    }

    /// Slide image title.
    pub fn title(&self) -> (r: Option<String>)
        ensures
            r is Some <==> self@.aperio_properties.title is Some,
            r matches Some(s) ==> self@.aperio_properties.title == Some(s@),
    {
        clone_opt_string(&self.aperio_properties.title)
    }

    /// Slide image id.
    pub fn image_id(&self) -> (r: Option<String>)
        ensures
            r is Some <==> self@.aperio_properties.image_id is Some,
            r matches Some(s) ==> self@.aperio_properties.image_id == Some(s@),
    {
        clone_opt_string(&self.aperio_properties.image_id)
    }

    /// DSR id.
    pub fn dsr_id(&self) -> (r: Option<String>)
        ensures
            r is Some <==> self@.aperio_properties.dsr_id is Some,
            r matches Some(s) ==> self@.aperio_properties.dsr_id == Some(s@),
    {
        clone_opt_string(&self.aperio_properties.dsr_id)
    }

    /// ScanScope id.
    pub fn scan_scope_id(&self) -> (r: Option<String>)
        ensures
            r is Some <==> self@.aperio_properties.scan_scope_id is Some,
            r matches Some(s) ==> self@.aperio_properties.scan_scope_id == Some(s@),
    {
        clone_opt_string(&self.aperio_properties.scan_scope_id)
    }

    /// Date of creation (mm/dd/yy).
    pub fn date(&self) -> (r: Option<String>)
        ensures
            r is Some <==> self@.aperio_properties.date is Some,
            r matches Some(s) ==> self@.aperio_properties.date == Some(s@),
    {
        clone_opt_string(&self.aperio_properties.date)
    }

    /// Time of creation (hh:mm:ss).
    pub fn time(&self) -> (r: Option<String>)
        ensures
            r is Some <==> self@.aperio_properties.time is Some,
            r matches Some(s) ==> self@.aperio_properties.time == Some(s@),
    {
        clone_opt_string(&self.aperio_properties.time)
    }

    /// Time zone.
    pub fn time_zone(&self) -> (r: Option<String>)
        ensures
            r is Some <==> self@.aperio_properties.time_zone is Some,
            r matches Some(s) ==> self@.aperio_properties.time_zone == Some(s@),
    {
        clone_opt_string(&self.aperio_properties.time_zone)
    }

    /// User.
    pub fn user(&self) -> (r: Option<String>)
        ensures
            r is Some <==> self@.aperio_properties.user is Some,
            r matches Some(s) ==> self@.aperio_properties.user == Some(s@),
    {
        clone_opt_string(&self.aperio_properties.user)
    }

    /// ICC profile.
    pub fn icc_profile(&self) -> (r: Option<String>)
        ensures
            r is Some <==> self@.aperio_properties.icc_profile is Some,
            r matches Some(s) ==> self@.aperio_properties.icc_profile == Some(s@),
    {
        clone_opt_string(&self.aperio_properties.icc_profile)
    }

    /// Parmset.
    pub fn parmset(&self) -> (r: Option<String>)
        ensures
            r is Some <==> self@.aperio_properties.parmset is Some,
            r matches Some(s) ==> self@.aperio_properties.parmset == Some(s@),
    {
        clone_opt_string(&self.aperio_properties.parmset)
    }

    /// Slide height.
    pub fn original_height(&self) -> (r: Option<u32>)
        ensures
            r == self@.aperio_properties.original_height,
    {
        self.aperio_properties.original_height
    }

    /// Slide width.
    pub fn original_width(&self) -> (r: Option<u32>)
        ensures
            r == self@.aperio_properties.original_width,
    {
        self.aperio_properties.original_width
    }

    /// Top position.
    pub fn top(&self) -> (r: Option<FixedDecimal>)
        ensures
            r == self@.aperio_properties.top,
    {
        self.aperio_properties.top
    }

    /// Left position.
    pub fn left(&self) -> (r: Option<FixedDecimal>)
        ensures
            r == self@.aperio_properties.left,
    {
        self.aperio_properties.left
    }

    /// Micrometer per pixel.
    pub fn mpp(&self) -> (r: Option<FixedDecimal>)
        ensures
            r == self@.aperio_properties.mpp,
    {
        self.aperio_properties.mpp
    }

    /// Line camera skew.
    pub fn line_camera_skew(&self) -> (r: Option<FixedDecimal>)
        ensures
            r == self@.aperio_properties.line_camera_skew,
    {
        self.aperio_properties.line_camera_skew
    }

    /// Line area offset in the x direction.
    pub fn line_area_x_offset(&self) -> (r: Option<FixedDecimal>)
        ensures
            r == self@.aperio_properties.line_area_x_offset,
    {
        self.aperio_properties.line_area_x_offset
    }

    /// Line area offset in the y direction.
    pub fn line_area_y_offset(&self) -> (r: Option<FixedDecimal>)
        ensures
            r == self@.aperio_properties.line_area_y_offset,
    {
        self.aperio_properties.line_area_y_offset
    }

    /// Focus offset.
    pub fn focus_offset(&self) -> (r: Option<FixedDecimal>)
        ensures
            r == self@.aperio_properties.focus_offset,
    {
        self.aperio_properties.focus_offset
    }

    /// Objective power at scan time.
    pub fn app_mag(&self) -> (r: Option<u32>)
        ensures
            r == self@.aperio_properties.app_mag,
    {
        self.aperio_properties.app_mag
    }

    /// Scan stripe width.
    pub fn stripe_width(&self) -> (r: Option<u32>)
        ensures
            r == self@.aperio_properties.stripe_width,
    {
        self.aperio_properties.stripe_width
    }

    /// Filtered.
    pub fn filtered(&self) -> (r: Option<u32>)
        ensures
            r == self@.aperio_properties.filtered,
    {
        self.aperio_properties.filtered
    }

    /// Display color.
    pub fn display_color(&self) -> (r: Option<u32>)
        ensures
            r == self@.aperio_properties.display_color,
    {
        self.aperio_properties.display_color
    }

    /// Exposure time.
    pub fn exposure_time(&self) -> (r: Option<u32>)
        ensures
            r == self@.aperio_properties.exposure_time,
    {
        self.aperio_properties.exposure_time
    }

    /// Exposure scale.
    pub fn exposure_scale(&self) -> (r: Option<FixedDecimal>)
        ensures
            r == self@.aperio_properties.exposure_scale,
    {
        self.aperio_properties.exposure_scale
    }

    /// Session mode.
    pub fn sesson_mode(&self) -> (r: Option<String>)
        ensures
            r is Some <==> self@.aperio_properties.sesson_mode is Some,
            r matches Some(s) ==> self@.aperio_properties.sesson_mode == Some(s@),
    {
        clone_opt_string(&self.aperio_properties.sesson_mode)
    }

    /// The keys whose namespace no parser recognised, with their
    /// values, kept as non-fatal diagnostics.
    pub fn unparsed(&self) -> (r: Vec<(String, String)>)
        ensures
            spec_pairs(r@) == self@.unparsed,
    {
        let n = self.unparsed.len();
        let mut out: Vec<(String, String)> = Vec::new();
        let mut i: usize = 0;
        proof {
            assert(spec_pairs(out@) =~= spec_pairs(self.unparsed@.subrange(0, 0)));
        }
        while i < n
            invariant
                i <= n,
                n == self.unparsed@.len(),
                spec_pairs(out@) == spec_pairs(self.unparsed@.subrange(0, i as int)),
            decreases n - i,
        {
            let ghost pre_out = out@;
            let entry = (self.unparsed[i].0.clone(), self.unparsed[i].1.clone());
            let ghost e = entry;
            proof {
                assert(e == self.unparsed@[i as int]);
            }
            out.push(entry);
            i = i + 1;
            proof {
                lemma_spec_pairs_push(pre_out, e);
                lemma_spec_pairs_push(self.unparsed@.subrange(0, i - 1), self.unparsed@[i - 1]);
                assert(self.unparsed@.subrange(0, i as int) =~= self.unparsed@.subrange(
                    0,
                    i - 1,
                ).push(self.unparsed@[i - 1]));
            }
        }
        proof {
            assert(self.unparsed@.subrange(0, n as int) =~= self.unparsed@);
        }
        out
    }
}

/// Mapping the pairs of a map commutes with appending one pair.
proof fn lemma_spec_pairs_push(m: Seq<(String, String)>, p: (String, String))
    ensures
        spec_pairs(m.push(p)) == spec_pairs(m).push((p.0@, p.1@)),
{
    assert(spec_pairs(m.push(p)) =~= spec_pairs(m).push((p.0@, p.1@)));
}

/// Clones an optional string.
fn clone_opt_string(o: &Option<String>) -> (r: Option<String>)
    ensures
        r == *o,
{
    match o {
        Some(s) => Some(s.clone()),
        None => None,
    }
}

} // verus!
