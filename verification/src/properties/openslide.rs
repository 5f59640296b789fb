//! The generic cross-vendor property namespace: geometry and identity
//! properties published under `openslide.<field>`, including the
//! level-indexed keys `openslide.level[<N>].<field>`.

use vstd::prelude::*;

use crate::parse::{
    chars_eq_str, parse_level_key, parse_u32_str, parse_fixed_str, spec_parse_fixed,
    spec_parse_level_key, spec_parse_u32, to_chars, FixedDecimal,
};
use crate::properties::{map_lookup, spec_lookup, spec_pairs};

verus! {

/// Properties defined for every level.
#[derive(Clone, Copy, Debug, PartialEq, Eq)]
pub struct LevelProperties {
    /// Downsample factor of the level.
    pub downsample: Option<FixedDecimal>,
    /// Slide height at this zoom level.
    pub height: Option<u32>,
    /// Slide width at this zoom level.
    pub width: Option<u32>,
    /// Tile height at this zoom level.
    pub tile_height: Option<u32>,
    /// Tile width at this zoom level.
    pub tile_width: Option<u32>,
}

/// A level with every property still absent.
pub open spec fn spec_default_level() -> LevelProperties {
    LevelProperties {
        downsample: None,
        height: None,
        width: None,
        tile_height: None,
        tile_width: None,
    }
}

impl Default for LevelProperties {
    /// A level with every property still absent.
    fn default() -> (r: LevelProperties)
        ensures
            r == spec_default_level(),
    {
        LevelProperties {
            downsample: None,
            height: None,
            width: None,
            tile_height: None,
            tile_width: None,
        }
    }
}

impl LevelProperties {
    /// Downsample factor.
    pub fn downsample(&self) -> (r: Option<FixedDecimal>)
        ensures
            r == self.downsample,
    {
        self.downsample
    }

    /// Slide height at this zoom level.
    pub fn height(&self) -> (r: Option<u32>)
        ensures
            r == self.height,
    {
        self.height
    }

    /// Slide width at this zoom level.
    pub fn width(&self) -> (r: Option<u32>)
        ensures
            r == self.width,
    {
        self.width
    }

    /// Tile height at this zoom level.
    pub fn tile_height(&self) -> (r: Option<u32>)
        ensures
            r == self.tile_height,
    {
        self.tile_height
    }

    /// Tile width at this zoom level.
    pub fn tile_width(&self) -> (r: Option<u32>)
        ensures
            r == self.tile_width,
    {
        self.tile_width
    }
}

/// The mathematical model of the parsed `openslide` namespace.
pub ghost struct OpenSlideModel {
    pub vendor: Option<Seq<char>>,
    pub quickhash_1: Option<Seq<char>>,
    pub mpp_x: Option<FixedDecimal>,
    pub mpp_y: Option<FixedDecimal>,
    pub objective_power: Option<u32>,
    pub comment: Option<Seq<char>>,
    pub level_count: Option<u32>,
    pub discovered_level_count: Option<u32>,
    pub level_count_mismatch: bool,
    pub levels: Option<Seq<LevelProperties>>,
    pub unparsed: Seq<(Seq<char>, Seq<char>)>,
}

/// Properties available under the `openslide.<field>` keys of the
/// property map.
#[derive(Clone, Debug)]
pub struct OpenSlide {
    /// Slide vendor.
    pub vendor: Option<String>,
    /// Content hash of the slide.
    pub quickhash_1: Option<String>,
    /// Microns per pixel in the x direction.
    pub mpp_x: Option<FixedDecimal>,
    /// Microns per pixel in the y direction.
    pub mpp_y: Option<FixedDecimal>,
    /// Objective power.
    pub objective_power: Option<u32>,
    /// Free-text comment.
    pub comment: Option<String>,
    /// Number of zoom levels: the explicit `openslide.level-count`
    /// property when that key is present (absent when it does not
    /// parse), the discovered count otherwise.
    pub level_count: Option<u32>,
    /// Level count discovered from the level-indexed keys themselves:
    /// the maximal level index observed plus one.
    pub discovered_level_count: Option<u32>,
    /// Whether an explicit `openslide.level-count` property was present
    /// and disagreed with the discovered count.
    pub level_count_mismatch: bool,
    /// Per-level properties, one entry per discovered level.
    pub levels: Option<Vec<LevelProperties>>,
    /// Keys under this namespace that matched no known field, kept as
    /// non-fatal diagnostics with their values.
    pub unparsed: Vec<(String, String)>,
}

impl View for OpenSlide {
    type V = OpenSlideModel;

    open spec fn view(&self) -> OpenSlideModel {
        OpenSlideModel {
            vendor: match self.vendor {
                Some(s) => Some(s@),
                None => None,
            },
            quickhash_1: match self.quickhash_1 {
                Some(s) => Some(s@),
                None => None,
            },
            mpp_x: self.mpp_x,
            mpp_y: self.mpp_y,
            objective_power: self.objective_power,
            comment: match self.comment {
                Some(s) => Some(s@),
                None => None,
            },
            level_count: self.level_count,
            discovered_level_count: self.discovered_level_count,
            level_count_mismatch: self.level_count_mismatch,
            levels: match self.levels {
                Some(v) => Some(v@),
                None => None,
            },
            unparsed: spec_pairs(self.unparsed@),
        }
    }
}

/// The largest level index named by a `openslide.level[<N>].<field>`
/// key of the map, if any.
pub open spec fn spec_max_level_index(m: Seq<(String, String)>) -> Option<u32>
    decreases m.len(),
{
    if m.len() == 0 {
        None
    } else {
        let rest = spec_max_level_index(m.drop_last());
        match spec_parse_level_key("openslide.level["@, m.last().0@) {
            Some(pair) => match rest {
                Some(mx) => if pair.0 > mx {
                    Some(pair.0)
                } else {
                    Some(mx)
                },
                None => Some(pair.0),
            },
            None => rest,
        }
    }
}

/// The level count discovered from the level-indexed keys: the largest
/// level index observed plus one, or absent when the map has no
/// level-indexed key.
pub open spec fn spec_discovered_level_count(m: Seq<(String, String)>) -> Option<u32> {
    match spec_max_level_index(m) {
        Some(mx) => Some((mx + 1) as u32),
        None => None,
    }
}

/// Finds the discovered level count of a property map: the maximal `N`
/// of its `openslide.level[<N>].<field>` keys, plus one.
pub fn find_max_level(property_map: &Vec<(String, String)>) -> (r: Option<u32>)
    ensures
        r == spec_discovered_level_count(property_map@),
{
    let mut result: Option<u32> = None;
    let n = property_map.len();
    let mut i: usize = 0;
    proof {
        assert(property_map@.subrange(0, 0) =~= Seq::<(String, String)>::empty());
    }
    while i < n
        invariant
            i <= n,
            n == property_map@.len(),
            result == spec_max_level_index(property_map@.subrange(0, i as int)),
            result matches Some(mx) ==> mx < u32::MAX,
        decreases n - i,
    {
        let key_chars = to_chars(property_map[i].0.as_str());
        let parsed = parse_level_key(&key_chars, "openslide.level[");
        proof {
            let sub = property_map@.subrange(0, i + 1);
            assert(sub.drop_last() =~= property_map@.subrange(0, i as int));
            assert(sub.last() == property_map@[i as int]);
        }
        match parsed {
            Some(pair) => {
                proof {
                    assert(spec_parse_level_key("openslide.level["@, property_map@[i as int].0@)
                        matches Some(spair) && spair.0 == pair.0);
                }
                result = match result {
                    Some(mx) => if pair.0 > mx {
                        Some(pair.0)
                    } else {
                        Some(mx)
                    },
                    None => Some(pair.0),
                };
            },
            None => {
            },
        }
        i = i + 1;
    }
    proof {
        assert(property_map@.subrange(0, n as int) =~= property_map@);
    }
    match result {
        Some(mx) => Some(mx + 1),
        None => None,
    }
}

/// The level entry with the named field set to the parse of the value;
/// `None` for an unknown field name.
pub open spec fn spec_set_level_field(
    lp: LevelProperties,
    field: Seq<char>,
    value: Seq<char>,
) -> Option<LevelProperties> {
    if field == "downsample"@ {
        Some(LevelProperties { downsample: spec_parse_fixed(value), ..lp })
    } else if field == "height"@ {
        Some(LevelProperties { height: spec_parse_u32(value), ..lp })
    } else if field == "width"@ {
        Some(LevelProperties { width: spec_parse_u32(value), ..lp })
    } else if field == "tile-height"@ {
        Some(LevelProperties { tile_height: spec_parse_u32(value), ..lp })
    } else if field == "tile-width"@ {
        Some(LevelProperties { tile_width: spec_parse_u32(value), ..lp })
    } else {
        None
    }
}

/// Applies the field of a level-indexed key to a level entry.
pub(crate) fn apply_level_field(
    lp: LevelProperties,
    key: &Vec<char>,
    field_start: usize,
    value: &str,
) -> (r: Option<LevelProperties>)
    requires
        field_start <= key@.len(),
    ensures
        r == spec_set_level_field(
            lp,
            key@.subrange(field_start as int, key@.len() as int),
            value@,
        ),
{
    let n = key.len();
    if chars_eq_str(key, field_start, n, "downsample") {
        Some(LevelProperties { downsample: parse_fixed_str(value), ..lp })
    } else if chars_eq_str(key, field_start, n, "height") {
        Some(LevelProperties { height: parse_u32_str(value), ..lp })
    } else if chars_eq_str(key, field_start, n, "width") {
        Some(LevelProperties { width: parse_u32_str(value), ..lp })
    } else if chars_eq_str(key, field_start, n, "tile-height") {
        Some(LevelProperties { tile_height: parse_u32_str(value), ..lp })
    } else if chars_eq_str(key, field_start, n, "tile-width") {
        Some(LevelProperties { tile_width: parse_u32_str(value), ..lp })
    } else {
        None
    }
}

/// The state of the `openslide` namespace before any key is applied:
/// the level counts resolved from the whole map (the level array is
/// sized by the discovered count so every discovered level can be
/// filled by index), every other field still absent.
pub open spec fn spec_os_init(m: Seq<(String, String)>) -> OpenSlideModel {
    let computed = spec_discovered_level_count(m);
    let explicit = spec_lookup(m, "openslide.level-count"@);
    OpenSlideModel {
        vendor: None,
        quickhash_1: None,
        mpp_x: None,
        mpp_y: None,
        objective_power: None,
        comment: None,
        level_count: match explicit {
            Some(v) => spec_parse_u32(v),
            None => computed,
        },
        discovered_level_count: computed,
        level_count_mismatch: match explicit {
            Some(v) => spec_parse_u32(v) != computed,
            None => false,
        },
        levels: match computed {
            Some(cnt) => Some(Seq::new(cnt as nat, |j: int| spec_default_level())),
            None => None,
        },
        unparsed: Seq::empty(),
    }
}

/// One key/value pair of the `openslide` namespace applied to the
/// model: a known field is set to the parse of the value (absent when
/// the value does not parse), a level-indexed key updates its level's
/// entry, and anything else is kept as an unparsed diagnostic.
pub open spec fn spec_os_apply(
    pre: OpenSlideModel,
    key: Seq<char>,
    value: Seq<char>,
) -> OpenSlideModel {
    if key == "openslide.vendor"@ {
        OpenSlideModel { vendor: Some(value), ..pre }
    } else if key == "openslide.quickhash-1"@ {
        OpenSlideModel { quickhash_1: Some(value), ..pre }
    } else if key == "openslide.mpp-x"@ {
        OpenSlideModel { mpp_x: spec_parse_fixed(value), ..pre }
    } else if key == "openslide.mpp-y"@ {
        OpenSlideModel { mpp_y: spec_parse_fixed(value), ..pre }
    } else if key == "openslide.objective-power"@ {
        OpenSlideModel { objective_power: spec_parse_u32(value), ..pre }
    } else if key == "openslide.comment"@ {
        OpenSlideModel { comment: Some(value), ..pre }
    } else if key == "openslide.level-count"@ {
        OpenSlideModel { level_count: spec_parse_u32(value), ..pre }
    } else {
        match spec_parse_level_key("openslide.level["@, key) {
            Some(pair) => match pre.levels {
                Some(lvls) => if pair.0 < lvls.len() {
                    match spec_set_level_field(lvls[pair.0 as int], pair.1, value) {
                        Some(lp) => OpenSlideModel {
                            levels: Some(lvls.update(pair.0 as int, lp)),
                            ..pre
                        },
                        None => OpenSlideModel { unparsed: pre.unparsed.push((key, value)), ..pre },
                    }
                } else {
                    OpenSlideModel { unparsed: pre.unparsed.push((key, value)), ..pre }
                },
                None => OpenSlideModel { unparsed: pre.unparsed.push((key, value)), ..pre },
            },
            None => OpenSlideModel { unparsed: pre.unparsed.push((key, value)), ..pre },
        }
    }
}

impl OpenSlide {
    /// Initialises the namespace from the property map: resolves the
    /// discovered and explicit level counts and sizes the level array
    /// by the discovered count, so that the level-indexed keys can be
    /// filled in afterwards in arbitrary order.
    pub fn new(property_map: &Vec<(String, String)>) -> (r: OpenSlide)
        ensures
            r@ == spec_os_init(property_map@),
    {
        let computed = find_max_level(property_map);
        let explicit = map_lookup(property_map, "openslide.level-count");
        let level_count: Option<u32>;
        let level_count_mismatch: bool;
        match explicit {
            Some(val) => {
                let parsed = parse_u32_str(val.as_str());
                level_count_mismatch = !option_u32_eq(&parsed, &computed);
                level_count = parsed;
            },
            None => {
                level_count = computed;
                level_count_mismatch = false;
            },
        }
        let levels: Option<Vec<LevelProperties>> = default_levels(&computed);
        let r = OpenSlide {
            vendor: None,
            quickhash_1: None,
            mpp_x: None,
            mpp_y: None,
            objective_power: None,
            comment: None,
            level_count,
            discovered_level_count: computed,
            level_count_mismatch,
            levels,
            unparsed: Vec::new(),
        };
        proof {
            assert(r@.unparsed =~= Seq::<(Seq<char>, Seq<char>)>::empty());
        }
        r
    }

    /// Applies one key/value pair of the `openslide` namespace.
    pub fn parse_property_name(&mut self, name: &str, value: &str)
        ensures
            final(self)@ == spec_os_apply(old(self)@, name@, value@),
    {
        let chars = to_chars(name);
        let n = chars.len();
        proof {
            assert(chars@.subrange(0, n as int) =~= name@);
        }
        if chars_eq_str(&chars, 0, n, "openslide.vendor") {
            self.vendor = Some(value.to_owned());
        } else if chars_eq_str(&chars, 0, n, "openslide.quickhash-1") {
            self.quickhash_1 = Some(value.to_owned());
        } else if chars_eq_str(&chars, 0, n, "openslide.mpp-x") {
            self.mpp_x = parse_fixed_str(value);
        } else if chars_eq_str(&chars, 0, n, "openslide.mpp-y") {
            self.mpp_y = parse_fixed_str(value);
        } else if chars_eq_str(&chars, 0, n, "openslide.objective-power") {
            self.objective_power = parse_u32_str(value);
        } else if chars_eq_str(&chars, 0, n, "openslide.comment") {
            self.comment = Some(value.to_owned());
        } else if chars_eq_str(&chars, 0, n, "openslide.level-count") {
            self.level_count = parse_u32_str(value);
        } else {
            match parse_level_key(&chars, "openslide.level[") {
                Some(pair) => {
                    let idx_usize = pair.0 as usize;
                    let taken = self.levels.take();
                    match taken {
                        Some(mut lvls) => {
                            if idx_usize < lvls.len() {
                                match apply_level_field(lvls[idx_usize], &chars, pair.1, value) {
                                    Some(lp) => {
                                        lvls[idx_usize] = lp;
                                        self.levels = Some(lvls);
                                    },
                                    None => {
                                        self.levels = Some(lvls);
                                        self.push_unparsed(name, value);
                                    },
                                }
                            } else {
                                self.levels = Some(lvls);
                                self.push_unparsed(name, value);
                            }
                        },
                        None => {
                            self.levels = None;
                            self.push_unparsed(name, value);
                        },
                    }
                },
                None => {
                    self.push_unparsed(name, value);
                },
            }
        }
    }

    /// Records a key this namespace could not interpret.
    fn push_unparsed(&mut self, name: &str, value: &str)
        ensures
            final(self)@ == (OpenSlideModel {
                unparsed: old(self)@.unparsed.push((name@, value@)),
                ..old(self)@
            }),
    {
        self.unparsed.push((name.to_owned(), value.to_owned()));
        proof {
            assert(self@.unparsed =~= old(self)@.unparsed.push((name@, value@)));
        }
    }
}

/// A level array of the given length with every property absent, or
/// no array at all when no count was discovered.
pub(crate) fn default_levels(count: &Option<u32>) -> (r: Option<Vec<LevelProperties>>)
    ensures
        (match r {
            Some(v) => Some(v@),
            None => None,
        }) == (match *count {
            Some(cnt) => Some(Seq::new(cnt as nat, |j: int| spec_default_level())),
            None => None::<Seq<LevelProperties>>,
        }),
{
    match count {
        Some(cnt) => {
            let cnt = *cnt;
            let mut v: Vec<LevelProperties> = Vec::new();
            let mut k: u32 = 0;
            while k < cnt
                invariant
                    k <= cnt,
                    v@ == Seq::new(k as nat, |j: int| spec_default_level()),
                decreases cnt - k,
            {
                v.push(LevelProperties::default());
                k = k + 1;
                proof {
                    assert(v@ =~= Seq::new(k as nat, |j: int| spec_default_level()));
                }
            }
            Some(v)
        },
        None => None,
    }
}

/// Structural equality of two optional `u32` values.
pub(crate) fn option_u32_eq(a: &Option<u32>, b: &Option<u32>) -> (r: bool)
    ensures
        r == (*a == *b),
{
    match (a, b) {
        (None, None) => true,
        (Some(x), Some(y)) => *x == *y,
        _ => false,
    }
}

} // verus!
