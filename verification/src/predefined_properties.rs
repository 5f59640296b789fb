//! The predefined cross-vendor properties, resolved from the property
//! map in one pass at open time: the common `openslide.<field>` values
//! with fitting types, and the per-level property array.

use vstd::prelude::*;

use crate::parse::{
    parse_fixed_str, parse_level_key, parse_u32_str, spec_parse_fixed, spec_parse_level_key,
    spec_parse_u32, to_chars, FixedDecimal,
};
use crate::properties::openslide::{
    apply_level_field, default_levels, find_max_level, option_u32_eq, spec_default_level,
    spec_discovered_level_count, spec_set_level_field, LevelProperties,
};
use crate::properties::{map_lookup, spec_lookup};

verus! {

/// The mathematical model of the predefined properties.
pub ghost struct PredefinedModel {
    pub comment: Option<Seq<char>>,
    pub vendor: Option<Seq<char>>,
    pub quickhash_1: Option<Seq<char>>,
    pub mpp_x: Option<FixedDecimal>,
    pub mpp_y: Option<FixedDecimal>,
    pub objective_power: Option<u32>,
    pub level_count: Option<u32>,
    pub declared_level_count: Option<u32>,
    pub level_count_mismatch: bool,
    pub levels: Option<Seq<LevelProperties>>,
}

/// The common properties every format publishes under the
/// `openslide.<field>` keys, with fitting types instead of strings.
#[derive(Clone, Debug)]
pub struct PredefinedProperties {
    /// Free-text comment.
    pub comment: Option<String>,
    /// Slide vendor.
    pub vendor: Option<String>,
    /// Content hash of the slide.
    pub quickhash_1: Option<String>,
    /// Microns per pixel in the x direction.
    pub mpp_x: Option<FixedDecimal>,
    /// Microns per pixel in the y direction.
    pub mpp_y: Option<FixedDecimal>,
    /// Objective power.
    pub objective_power: Option<u32>,
    /// Number of zoom levels, as discovered from the level-indexed
    /// keys themselves (the maximal level index plus one).
    pub level_count: Option<u32>,
    /// The explicit `openslide.level-count` property, kept inspectable
    /// beside the discovered count.
    pub declared_level_count: Option<u32>,
    /// Whether the explicit property and the discovered count
    /// disagree.
    pub level_count_mismatch: bool,
    /// Per-level properties, one entry per discovered level.
    pub levels: Option<Vec<LevelProperties>>,
}

impl View for PredefinedProperties {
    type V = PredefinedModel;

    open spec fn view(&self) -> PredefinedModel {
        PredefinedModel {
            comment: match self.comment {
                Some(s) => Some(s@),
                None => None,
            },
            vendor: match self.vendor {
                Some(s) => Some(s@),
                None => None,
            },
            quickhash_1: match self.quickhash_1 {
                Some(s) => Some(s@),
                None => None,
            },
            mpp_x: self.mpp_x,
            mpp_y: self.mpp_y,
            objective_power: self.objective_power,
            level_count: self.level_count,
            declared_level_count: self.declared_level_count,
            level_count_mismatch: self.level_count_mismatch,
            levels: match self.levels {
                Some(v) => Some(v@),
                None => None,
            },
        }
    }
}

/// One key applied to the level array: a level-indexed key with a
/// known field and an in-range index updates its level's entry, and
/// every other key leaves the array unchanged.
pub open spec fn spec_levels_step(
    pre: Option<Seq<LevelProperties>>,
    key: Seq<char>,
    value: Seq<char>,
) -> Option<Seq<LevelProperties>> {
    match spec_parse_level_key("openslide.level["@, key) {
        Some(pair) => match pre {
            Some(lvls) => if pair.0 < lvls.len() {
                match spec_set_level_field(lvls[pair.0 as int], pair.1, value) {
                    Some(lp) => Some(lvls.update(pair.0 as int, lp)),
                    None => Some(lvls),
                }
            } else {
                Some(lvls)
            },
            None => None,
        },
        None => pre,
    }
}

/// The level array after the first `n` pairs of the map are applied in
/// order, starting from a default array sized by the discovered count.
pub open spec fn spec_levels_fold(m: Seq<(String, String)>, n: int) -> Option<
    Seq<LevelProperties>,
>
    decreases n,
{
    if n <= 0 {
        match spec_discovered_level_count(m) {
            Some(cnt) => Some(Seq::new(cnt as nat, |j: int| spec_default_level())),
            None => None,
        }
    } else {
        spec_levels_step(spec_levels_fold(m, n - 1), m[n - 1].0@, m[n - 1].1@)
    }
}

/// A numeric property parsed from its looked-up value.
pub open spec fn spec_lookup_u32(m: Seq<(String, String)>, key: Seq<char>) -> Option<u32> {
    match spec_lookup(m, key) {
        Some(v) => spec_parse_u32(v),
        None => None,
    }
}

/// A fixed-point property parsed from its looked-up value.
pub open spec fn spec_lookup_fixed(m: Seq<(String, String)>, key: Seq<char>) -> Option<
    FixedDecimal,
> {
    match spec_lookup(m, key) {
        Some(v) => spec_parse_fixed(v),
        None => None,
    }
}

/// The predefined properties resolved from a property map: string
/// fields from their keys, numeric fields parsed (absent when the
/// value does not parse), the level count discovered from the
/// level-indexed keys with the explicit count kept beside it, and the
/// level array filled from the level-indexed keys.
pub open spec fn spec_predefined(m: Seq<(String, String)>) -> PredefinedModel {
    let computed = spec_discovered_level_count(m);
    let declared = spec_lookup_u32(m, "openslide.level-count"@);
    PredefinedModel {
        comment: spec_lookup(m, "openslide.comment"@),
        vendor: spec_lookup(m, "openslide.vendor"@),
        quickhash_1: spec_lookup(m, "openslide.quickhash-1"@),
        mpp_x: spec_lookup_fixed(m, "openslide.mpp-x"@),
        mpp_y: spec_lookup_fixed(m, "openslide.mpp-y"@),
        objective_power: spec_lookup_u32(m, "openslide.objective-power"@),
        level_count: computed,
        declared_level_count: declared,
        level_count_mismatch: declared != computed,
        levels: spec_levels_fold(m, m.len() as int),
    }
}

impl PredefinedProperties {
    /// Resolves the predefined properties from the property map.
    ///
    /// The map is scanned once up front to discover the level count
    /// from the level-indexed keys (the maximal level index plus one),
    /// so the per-level array can be allocated at its final size and
    /// filled by index in arbitrary key order. An explicit
    /// `openslide.level-count` property is parsed and kept beside the
    /// discovered count, with a diagnostic flag when the two disagree;
    /// neither value is discarded.
    pub fn new(property_map: &Vec<(String, String)>) -> (r: PredefinedProperties)
        ensures
            r@ == spec_predefined(property_map@),
    {
        let comment = map_lookup(property_map, "openslide.comment");
        let vendor = map_lookup(property_map, "openslide.vendor");
        let quickhash_1 = map_lookup(property_map, "openslide.quickhash-1");
        let mpp_x = match map_lookup(property_map, "openslide.mpp-x") {
            Some(v) => parse_fixed_str(v.as_str()),
            None => None,
        };
        let mpp_y = match map_lookup(property_map, "openslide.mpp-y") {
            Some(v) => parse_fixed_str(v.as_str()),
            None => None,
        };
        let objective_power = match map_lookup(property_map, "openslide.objective-power") {
            Some(v) => parse_u32_str(v.as_str()),
            None => None,
        };
        let computed = find_max_level(property_map);
        let declared = match map_lookup(property_map, "openslide.level-count") {
            Some(v) => parse_u32_str(v.as_str()),
            None => None,
        };
        let level_count_mismatch = !option_u32_eq(&declared, &computed);
        let mut levels: Option<Vec<LevelProperties>> = default_levels(&computed);
        let n = property_map.len();
        let mut i: usize = 0;
        while i < n
            invariant
                i <= n,
                n == property_map@.len(),
                (match levels {
                    Some(v) => Some(v@),
                    None => None::<Seq<LevelProperties>>,
                }) == spec_levels_fold(property_map@, i as int),
            decreases n - i,
        {
            let chars = to_chars(property_map[i].0.as_str());
            match parse_level_key(&chars, "openslide.level[") {
                Some(pair) => {
                    let taken = levels.take();
                    match taken {
                        Some(mut lvls) => {
                            let idx = pair.0 as usize;
                            if idx < lvls.len() {
                                match apply_level_field(
                                    lvls[idx],
                                    &chars,
                                    pair.1,
                                    property_map[i].1.as_str(),
                                ) {
                                    Some(lp) => {
                                        lvls[idx] = lp;
                                    },
                                    None => {
                                    },
                                }
                            }
                            levels = Some(lvls);
                        },
                        None => {
                            levels = None;
                        },
                    }
                },
                None => {
                },
            }
            i = i + 1;
        }
        PredefinedProperties {
            comment,
            vendor,
            quickhash_1,
            mpp_x,
            mpp_y,
            objective_power,
            level_count: computed,
            declared_level_count: declared,
            level_count_mismatch,
            levels,
        }
    }

    /// Slide vendor.
    pub fn vendor(&self) -> (r: Option<String>)
        ensures
            r is Some <==> self@.vendor is Some,
            r matches Some(s) ==> self@.vendor == Some(s@),
    {
        match &self.vendor {
            Some(s) => Some(s.clone()),
            None => None,
        }
    }

    /// Quickhash 1, the content hash of the slide.
    pub fn quickhash_1(&self) -> (r: Option<String>)
        ensures
            r is Some <==> self@.quickhash_1 is Some,
            r matches Some(s) ==> self@.quickhash_1 == Some(s@),
    {
        match &self.quickhash_1 {
            Some(s) => Some(s.clone()),
            None => None,
        }
    }

    /// Micrometer (microns) per pixel in the x direction.
    pub fn mpp_x(&self) -> (r: Option<FixedDecimal>)
        ensures
            r == self@.mpp_x,
    {
        self.mpp_x
    }

    /// Micrometer (microns) per pixel in the y direction.
    pub fn mpp_y(&self) -> (r: Option<FixedDecimal>)
        ensures
            r == self@.mpp_y,
    {
        self.mpp_y
    }

    /// Objective power.
    pub fn objective_power(&self) -> (r: Option<u32>)
        ensures
            r == self@.objective_power,
    {
        self.objective_power
    }

    /// Comment.
    pub fn comment(&self) -> (r: Option<String>)
        ensures
            r is Some <==> self@.comment is Some,
            r matches Some(s) ==> self@.comment == Some(s@),
    {
        match &self.comment {
            Some(s) => Some(s.clone()),
            None => None,
        }
    }

    /// Number of zoom levels.
    pub fn level_count(&self) -> (r: Option<u32>)
        ensures
            r == self@.level_count,
    {
        self.level_count
    }

    /// The explicit level-count property, beside the discovered count.
    pub fn declared_level_count(&self) -> (r: Option<u32>)
        ensures
            r == self@.declared_level_count,
    {
        self.declared_level_count
    }

    /// Whether the explicit level-count property and the discovered
    /// count disagree.
    pub fn level_count_mismatch(&self) -> (r: bool)
        ensures
            r == self@.level_count_mismatch,
    {
        self.level_count_mismatch
    }

    /// Vector of level-dependent properties. The position in the
    /// returned vector corresponds to the zoom level.
    pub fn levels(&self) -> (r: Option<Vec<LevelProperties>>)
        ensures
            r is Some <==> self@.levels is Some,
            r matches Some(v) ==> self@.levels == Some(v@),
    {
        match &self.levels {
            Some(lvls) => {
                let n = lvls.len();
                let mut out: Vec<LevelProperties> = Vec::new();
                let mut i: usize = 0;
                while i < n
                    invariant
                        i <= n,
                        n == lvls@.len(),
                        out@ == lvls@.subrange(0, i as int),
                    decreases n - i,
                {
                    out.push(lvls[i]);
                    i = i + 1;
                    proof {
                        assert(out@ =~= lvls@.subrange(0, i as int));
                    }
                }
                proof {
                    assert(lvls@.subrange(0, n as int) =~= lvls@);
                }
                Some(out)
            },
            None => None,
        }
    }
}

} // verus!
