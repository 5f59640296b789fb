//! A validated model of a slide's level pyramid: the per-level
//! dimensions and downsample factors, with the pyramid invariants
//! established once at construction. The surrounding system fills the
//! model from the native engine's answers after a slide is opened and
//! can then resolve levels and fit region requests without further
//! native round trips.

use vstd::prelude::*;

use crate::error::{Error, ErrorKind};
use crate::region::{clamp_region, FeasibleDimensions};
use crate::resolver::check_level_validity;

verus! {

/// The geometry of one pyramid level: its pixel dimensions and its
/// downsample factor in thousandths (level 0 is full resolution, so
/// its factor is exactly 1000).
#[derive(Clone, Copy, Debug, PartialEq, Eq, Structural)]
pub struct LevelGeometry {
    /// Width of the level in pixels.
    pub width: u64,
    /// Height of the level in pixels.
    pub height: u64,
    /// Downsample factor of the level, in thousandths.
    pub downsample_milli: u64,
}

/// The pyramid invariants: at least one level, a level count a 32-bit
/// index can address, full resolution at level 0, downsample factors
/// non-decreasing in the level index, and no level larger than level 0.
pub open spec fn spec_valid_geometry(levels: Seq<LevelGeometry>) -> bool {
    &&& levels.len() >= 1
    &&& levels.len() <= u32::MAX
    &&& levels[0].downsample_milli == 1000
    &&& forall|i: int|
        0 <= i < levels.len() - 1 ==> #[trigger] levels[i].downsample_milli <= levels[i
            + 1].downsample_milli
    &&& forall|i: int|
        0 <= i < levels.len() ==> #[trigger] levels[i].width <= levels[0].width
            && levels[i].height <= levels[0].height
}

/// The dimensions `(width, height)` of one level of a pyramid.
pub open spec fn spec_level_dimensions(levels: Seq<LevelGeometry>, level: int) -> (u64, u64) {
    (levels[level].width, levels[level].height)
}

/// The dimensions `(width, height)` of the full-resolution level.
pub open spec fn spec_level0_dimensions(levels: Seq<LevelGeometry>) -> (u64, u64) {
    (levels[0].width, levels[0].height)
}

/// Law: downsample factors of a valid pyramid are non-decreasing in
/// the level index, for any pair of levels.
pub proof fn lemma_valid_geometry_monotonic(levels: Seq<LevelGeometry>, i: int, j: int)
    requires
        spec_valid_geometry(levels),
        0 <= i <= j < levels.len(),
    ensures
        levels[i].downsample_milli <= levels[j].downsample_milli,
    decreases j - i,
{
    if i < j {
        lemma_valid_geometry_monotonic(levels, i, j - 1);
        assert(levels[j - 1].downsample_milli <= levels[j].downsample_milli);
    }
}

/// Checks the pyramid invariants on per-level geometry.
fn geometry_is_valid(levels: &Vec<LevelGeometry>) -> (r: bool)
    ensures
        r == spec_valid_geometry(levels@),
{
    let n = levels.len();
    if n < 1 || n > u32::MAX as usize {
        return false;
    }
    if levels[0].downsample_milli != 1000 {
        return false;
    }
    let mut i: usize = 0;
    while i < n
        invariant
            n == levels@.len(),
            1 <= n <= u32::MAX,
            i <= n,
            forall|k: int|
                0 <= k < i && k < n - 1 ==> #[trigger] levels@[k].downsample_milli <= levels@[k
                    + 1].downsample_milli,
            forall|k: int|
                0 <= k < i ==> #[trigger] levels@[k].width <= levels@[0].width
                    && levels@[k].height <= levels@[0].height,
        decreases n - i,
    {
        if levels[i].width > levels[0].width || levels[i].height > levels[0].height {
            return false;
        }
        if i + 1 < n && levels[i].downsample_milli > levels[i + 1].downsample_milli {
            return false;
        }
        i = i + 1;
    }
    true
}

/// A validated level pyramid.
#[derive(Debug)]
pub struct Pyramid {
    levels: Vec<LevelGeometry>,
}

impl View for Pyramid {
    type V = Seq<LevelGeometry>;

    closed spec fn view(&self) -> Seq<LevelGeometry> {
        self.levels@
    }
}

impl Pyramid {
    #[verifier::type_invariant]
    spec fn wf(&self) -> bool {
        spec_valid_geometry(self@)
    }

    /// Builds a pyramid from per-level geometry, validating the
    /// pyramid invariants; fails when the data violates a documented
    /// range constraint.
    pub fn new(levels: Vec<LevelGeometry>) -> (r: Result<Pyramid, Error>)
        ensures
            r is Ok <==> spec_valid_geometry(levels@),
            r matches Ok(p) ==> p@ == levels@,
            r matches Err(e) ==> e.spec_kind() matches ErrorKind::OutOfBounds { message }
                && message@ == "level geometry violates the pyramid invariants"@,
    {
        if geometry_is_valid(&levels) {
            Ok(Pyramid { levels })
        } else {
            Err(
                Error::new(
                    ErrorKind::OutOfBounds {
                        message: "level geometry violates the pyramid invariants".to_owned(),
                    },
                ),
            )
        }
    }

    /// The number of levels in the pyramid.
    pub fn level_count(&self) -> (r: u32)
        ensures
            r == self@.len(),
    {
        proof {
            use_type_invariant(self);
        }
        self.levels.len() as u32
    }

    /// The `(width, height)` pixel dimensions of level 0, the largest
    /// level.
    pub fn level0_dimensions(&self) -> (r: (u64, u64))
        ensures
            r == spec_level0_dimensions(self@),
    {
        proof {
            use_type_invariant(self);
        }
        (self.levels[0].width, self.levels[0].height)
    }

    /// The `(width, height)` pixel dimensions of the given level;
    /// fails when the level is not below the level count.
    pub fn level_dimensions(&self, level: u32) -> (r: Result<(u64, u64), Error>)
        ensures
            level < self@.len() <==> r is Ok,
            r matches Ok(d) ==> d == spec_level_dimensions(self@, level as int),
            r matches Err(e) ==> e.spec_kind() matches ErrorKind::OutOfBounds { .. },
    {
        proof {
            use_type_invariant(self);
        }
        match check_level_validity(level, self.level_count()) {
            Ok(()) => Ok((self.levels[level as usize].width, self.levels[level as usize].height)),
            Err(e) => Err(e),
        }
    }

    /// The downsample factor of the given level, in thousandths; fails
    /// when the level is not below the level count.
    pub fn level_downsample(&self, level: u32) -> (r: Result<u64, Error>)
        ensures
            level < self@.len() <==> r is Ok,
            r matches Ok(d) ==> d == self@[level as int].downsample_milli,
            r matches Err(e) ==> e.spec_kind() matches ErrorKind::OutOfBounds { .. },
    {
        proof {
            use_type_invariant(self);
        }
        match check_level_validity(level, self.level_count()) {
            Ok(()) => Ok(self.levels[level as usize].downsample_milli),
            Err(e) => Err(e),
        }
    }

    /// Law: the dimensions of level 0 are what the level-0 query
    /// reports.
    pub proof fn lemma_level0_dimensions_agree(&self)
        ensures
            spec_level_dimensions(self@, 0) == spec_level0_dimensions(self@),
    {
    }

    /// The best level for displaying the given target downsample
    /// factor (in thousandths): the highest level whose downsample
    /// factor does not exceed the target, or level 0 (full resolution)
    /// when no level qualifies. Fails when the target is negative.
    pub fn best_level_for_downsample(&self, target_milli: i64) -> (r: Result<u32, Error>)
        ensures
            target_milli >= 0 <==> r is Ok,
            r matches Ok(level) ==> {
                &&& level < self@.len()
                &&& self@[level as int].downsample_milli <= target_milli || level == 0
                &&& forall|j: int|
                    level < j < self@.len() ==> #[trigger] self@[j].downsample_milli > target_milli
            },
            r matches Err(e) ==> e.spec_kind() matches ErrorKind::OutOfBounds { .. },
    {
        proof {
            use_type_invariant(self);
        }
        if target_milli < 0 {
            return Err(
                Error::new(
                    ErrorKind::OutOfBounds {
                        message: "Specified downsample factor is negative".to_owned(),
                    },
                ),
            );
        }
        let target = target_milli as u64;
        let mut i: usize = self.levels.len();
        while i > 1
            invariant
                target_milli >= 0,
                target == target_milli,
                self@.len() <= u32::MAX,
                1 <= i <= self@.len(),
                forall|j: int|
                    i <= j < self@.len() ==> #[trigger] self@[j].downsample_milli > target,
            decreases i,
        {
            if self.levels[i - 1].downsample_milli <= target {
                return Ok((i - 1) as u32);
            }
            i = i - 1;
        }
        Ok(0)
    }

    /// The maximal in-bounds `(height, width)` for a region request at
    /// the given level, together with whether either extent was cut
    /// down; fails when the level is invalid or the translated
    /// top-left corner lies outside the level.
    pub fn get_feasible_dimensions(
        &self,
        top_left_row: u64,
        top_left_col: u64,
        level: u32,
        height: u64,
        width: u64,
    ) -> (r: Result<FeasibleDimensions, Error>)
        ensures
            r is Ok <==> level < self@.len() && !crate::region::spec_offset_out_of_range(
                top_left_row as nat,
                self@[level as int].downsample_milli as nat,
                self@[level as int].height as nat,
            ) && !crate::region::spec_offset_out_of_range(
                top_left_col as nat,
                self@[level as int].downsample_milli as nat,
                self@[level as int].width as nat,
            ),
            r matches Ok(f) ==> {
                let geometry = self@[level as int];
                let off_row = crate::region::spec_level_offset(
                    top_left_row as nat,
                    geometry.downsample_milli as nat,
                );
                let off_col = crate::region::spec_level_offset(
                    top_left_col as nat,
                    geometry.downsample_milli as nat,
                );
                &&& f.height == crate::region::spec_clamp_extent(
                    height as nat,
                    geometry.height as nat,
                    off_row,
                )
                &&& f.width == crate::region::spec_clamp_extent(
                    width as nat,
                    geometry.width as nat,
                    off_col,
                )
                &&& f.height_clamped == (f.height < height)
                &&& f.width_clamped == (f.width < width)
            },
            r matches Err(e) ==> e.spec_kind() matches ErrorKind::OutOfBounds { .. },
    {
        let (max_width, max_height) = match self.level_dimensions(level) {
            Ok(d) => d,
            Err(e) => {
                return Err(e);
            },
        };
        let downsample_milli = match self.level_downsample(level) {
            Ok(d) => d,
            Err(e) => {
                return Err(e);
            },
        };
        clamp_region(
            top_left_row,
            top_left_col,
            height,
            width,
            max_width,
            max_height,
            downsample_milli,
        )
    }
}

} // verus!
