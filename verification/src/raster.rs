//! The decoded raster: a `height x width` grid of 4-channel 8-bit
//! pixels (red, green, blue, alpha), non-premultiplied, row-major with
//! the origin at the top left.

use vstd::prelude::*;

verus! {

/// The four channel values of the pixel starting at position `4 * i`
/// of a flat RGBA byte sequence, in the order red, green, blue, alpha.
pub open spec fn spec_pixel_at(data: Seq<u8>, i: int) -> (u8, u8, u8, u8) {
    (data[4 * i], data[4 * i + 1], data[4 * i + 2], data[4 * i + 3])
}

/// A decoded RGBA raster, owned by the caller.
#[derive(Debug)]
pub struct RgbaRaster {
    width: u32,
    height: u32,
    data: Vec<u8>,
}

impl RgbaRaster {
    /// Width of the raster in pixels.
    pub closed spec fn spec_width(&self) -> u32 {
        self.width
    }

    /// Height of the raster in pixels.
    pub closed spec fn spec_height(&self) -> u32 {
        self.height
    }

    /// The flat RGBA bytes, row-major, four per pixel.
    pub closed spec fn spec_data(&self) -> Seq<u8> {
        self.data@
    }

    #[verifier::type_invariant]
    spec fn wf(&self) -> bool {
        self.data@.len() == 4 * (self.width as nat) * (self.height as nat)
    }

    /// Builds a raster from its flat RGBA bytes.
    pub fn new(width: u32, height: u32, data: Vec<u8>) -> (r: RgbaRaster)
        requires
            data@.len() == 4 * (width as nat) * (height as nat),
        ensures
            r.spec_width() == width,
            r.spec_height() == height,
            r.spec_data() == data@,
    {
        RgbaRaster { width, height, data }
    }

    /// Width of the raster in pixels.
    pub fn width(&self) -> (r: u32)
        ensures
            r == self.spec_width(),
    {
        self.width
    }

    /// Height of the raster in pixels.
    pub fn height(&self) -> (r: u32)
        ensures
            r == self.spec_height(),
    {
        self.height
    }

    /// The channel values of the pixel at the given row and column.
    pub fn get_pixel(&self, row: u32, col: u32) -> (r: (u8, u8, u8, u8))
        requires
            row < self.spec_height(),
            col < self.spec_width(),
        ensures
            r == spec_pixel_at(self.spec_data(), row * self.spec_width() + col),
    {
        let len: usize = self.data.len();
        proof {
            use_type_invariant(self);
            let w = self.width as int;
            let h = self.height as int;
            assert(4 * ((row as int) * w + (col as int)) + 3 < 4 * w * h) by (nonlinear_arith)
                requires
                    (row as int) < h,
                    (col as int) < w,
                    0 <= row as int,
                    0 <= col as int,
            ;
            assert(len == 4 * w * h);
        }
        let idx: usize = 4 * (row as usize * self.width as usize + col as usize);
        (self.data[idx], self.data[idx + 1], self.data[idx + 2], self.data[idx + 3])
    }

    /// Consumes the raster and hands out its flat RGBA bytes.
    pub fn into_vec(self) -> (r: Vec<u8>)
        ensures
            r@ == self.spec_data(),
    {
        self.data
    }
}

} // verus!
