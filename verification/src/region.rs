//! The region clamper: fits a requested pixel rectangle into the
//! bounds of a pyramid level.
//!
//! A request arrives as a top-left corner in level-0 coordinates, a
//! level, and a requested height and width. The corner is translated
//! into the level's own coordinate space by dividing by the level's
//! downsample factor (carried in thousandths) and rounding to the
//! nearest integer; each requested extent is then cut down to what
//! remains of the level beyond that corner. A cut is reported as a
//! non-fatal flag, so callers can detect silent shrinkage; a corner
//! that itself lies outside the level is an error.

use vstd::prelude::*;

use crate::error::{Error, ErrorKind};

verus! {

/// A level-0 coordinate translated into a level's own coordinate
/// space: divided by the downsample factor (in thousandths) and
/// rounded to the nearest integer, half away from zero. A downsample
/// factor of zero maps every coordinate to zero; the zero factor is
/// handled separately as an out-of-range condition for any non-zero
/// coordinate.
pub open spec fn spec_level_offset(coord: nat, downsample_milli: nat) -> nat {
    if downsample_milli == 0 {
        0
    } else {
        (2 * coord * 1000 + downsample_milli) / (2 * downsample_milli)
    }
}

/// Whether a requested top-left coordinate lies outside a level of the
/// given maximal extent: its translated offset overruns the extent, or
/// the downsample factor is zero while the coordinate is not.
pub open spec fn spec_offset_out_of_range(coord: nat, downsample_milli: nat, max: nat) -> bool {
    if downsample_milli == 0 {
        coord > 0
    } else {
        spec_level_offset(coord, downsample_milli) > max
    }
}

/// The requested extent cut down to what remains of the level beyond
/// the translated offset.
pub open spec fn spec_clamp_extent(requested: nat, max: nat, offset: nat) -> nat
    recommends
        offset <= max,
{
    if requested <= max - offset {
        requested
    } else {
        (max - offset) as nat
    }
}

/// Law: whenever the translated top-left offset plus the requested
/// extent overruns the level extent (while the offset itself is still
/// in range), the clamped extent equals the level extent minus the
/// offset, and it is strictly below the request, so the shrink is
/// reported.
pub proof fn lemma_clamp_reports_shrink(requested: nat, max: nat, offset: nat)
    requires
        offset <= max,
        offset + requested > max,
    ensures
        spec_clamp_extent(requested, max, offset) == max - offset,
        spec_clamp_extent(requested, max, offset) < requested,
{
}

/// A clamped region: the extents that fit, and whether each was cut.
#[derive(Clone, Copy, Debug, PartialEq, Eq, Structural)]
pub struct FeasibleDimensions {
    /// The height that fits within the level.
    pub height: u64,
    /// The width that fits within the level.
    pub width: u64,
    /// Whether the requested height was cut down.
    pub height_clamped: bool,
    /// Whether the requested width was cut down.
    pub width_clamped: bool,
}

/// Translates a level-0 coordinate into the level's coordinate space
/// and checks it against the level's extent.
fn level_offset_checked(coord: u64, downsample_milli: u64, max: u64) -> (r: Option<u64>)
    ensures
        r is Some <==> !spec_offset_out_of_range(coord as nat, downsample_milli as nat, max as nat),
        r matches Some(off) ==> off == spec_level_offset(coord as nat, downsample_milli as nat)
            && off <= max,
{
    if downsample_milli == 0 {
        if coord == 0 {
            Some(0)
        } else {
            None
        }
    } else {
        let num: u128 = 2 * (coord as u128) * 1000 + (downsample_milli as u128);
        let den: u128 = 2 * (downsample_milli as u128);
        let off: u128 = num / den;
        if off > max as u128 {
            None
        } else {
            Some(off as u64)
        }
    }
}

/// Computes the maximal in-bounds region for a request.
///
/// Returns `(new_height, new_width)` with `new_height = min(height,
/// max_height - offset_row)` and `new_width = min(width, max_width -
/// offset_col)`, where the offsets are the top-left coordinates
/// translated into this level's coordinate space; reports whether
/// either extent was cut. Fails when a translated top-left coordinate
/// itself lies outside the level.
pub fn clamp_region(
    top_left_row: u64,
    top_left_col: u64,
    height: u64,
    width: u64,
    max_width: u64,
    max_height: u64,
    downsample_milli: u64,
) -> (r: Result<FeasibleDimensions, Error>)
    ensures
        r is Ok <==> {
            &&& !spec_offset_out_of_range(
                top_left_row as nat,
                downsample_milli as nat,
                max_height as nat,
            )
            &&& !spec_offset_out_of_range(
                top_left_col as nat,
                downsample_milli as nat,
                max_width as nat,
            )
        },
        r matches Ok(f) ==> {
            let off_row = spec_level_offset(top_left_row as nat, downsample_milli as nat);
            let off_col = spec_level_offset(top_left_col as nat, downsample_milli as nat);
            &&& f.height == spec_clamp_extent(height as nat, max_height as nat, off_row)
            &&& f.width == spec_clamp_extent(width as nat, max_width as nat, off_col)
            &&& f.height_clamped == (f.height < height)
            &&& f.width_clamped == (f.width < width)
        },
        r matches Err(e) ==> e.spec_kind() matches ErrorKind::OutOfBounds { message } && (
        if spec_offset_out_of_range(top_left_row as nat, downsample_milli as nat, max_height as nat) {
            message@ == "requested top left row lies outside the level"@
        } else {
            message@ == "requested top left column lies outside the level"@
        }),
{
    let off_row: u64 = match level_offset_checked(top_left_row, downsample_milli, max_height) {
        Some(off) => off,
        None => {
            return Err(
                Error::new(
                    ErrorKind::OutOfBounds {
                        message: "requested top left row lies outside the level".to_owned(),
                    },
                ),
            );
        },
    };
    let off_col: u64 = match level_offset_checked(top_left_col, downsample_milli, max_width) {
        Some(off) => off,
        None => {
            return Err(
                Error::new(
                    ErrorKind::OutOfBounds {
                        message: "requested top left column lies outside the level".to_owned(),
                    },
                ),
            );
        },
    };
    let avail_height: u64 = max_height - off_row;
    let avail_width: u64 = max_width - off_col;
    let height_clamped = height > avail_height;
    let width_clamped = width > avail_width;
    Ok(
        FeasibleDimensions {
            height: if height_clamped {
                avail_height
            } else {
                height
            },
            width: if width_clamped {
                avail_width
            } else {
                width
            },
            height_clamped,
            width_clamped,
        },
    )
}

} // verus!
