//! Access layer for pyramidal whole-slide microscopy images.
//!
//! The library covers the pure core of a slide reader: resolving zoom
//! levels and their geometry, clamping a requested pixel region to the
//! bounds of a level, decoding the packed 32-bit pixel buffer that the
//! native decompression engine produces into a non-premultiplied RGBA
//! raster, and parsing the flat string-keyed vendor metadata map into a
//! typed property tree.
//!
//! The native engine itself (opening and closing slide handles, the
//! decompression work, the foreign-function surface) is an external
//! collaborator and lives outside this crate; the functions here take
//! and return plain values, so every rule in them is verified.

pub mod error;
pub mod fmt;
pub mod parse;
pub mod predefined_properties;
pub mod properties;
pub mod pyramid;
pub mod raster;
pub mod region;
pub mod resolver;
pub mod utils;

use vstd::prelude::*;

verus! {

} // verus!
