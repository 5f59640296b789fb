//! Misc utility definitions: supported formats, pixel-word layout,
//! and checked numeric narrowing between the widths callers use and
//! the fixed widths the native boundary requires.

use byteorder::ByteOrder;
use vstd::prelude::*;

use crate::error::{Error, ErrorKind};
use crate::raster::{spec_pixel_at, RgbaRaster};

verus! {

/// A list of supported formats.
#[derive(Clone, Debug)]
pub enum Format {
    /// Single-file pyramidal tiled TIFF, with non-standard metadata and
    /// compression (.svs, .tif).
    Aperio,
    /// Multi-file JPEG/NGR with proprietary metadata and index file
    /// formats, and single-file TIFF-like format with proprietary
    /// metadata (.vms, .vmu, .ndpi).
    Hamamatsu,
    /// Single-file pyramidal tiled BigTIFF with non-standard metadata
    /// (.scn).
    Leica,
    /// Multi-file with very complicated proprietary metadata and
    /// indexes (.mrxs).
    Mirax,
    /// Single-file pyramidal tiled TIFF or BigTIFF with non-standard
    /// metadata (.tiff).
    Phillips,
    /// SQLite database containing pyramid tiles and metadata (.svslide).
    Sakura,
    /// Single-file pyramidal tiled TIFF, with non-standard metadata and
    /// overlaps (.tif).
    Trestle,
    /// Single-file pyramidal tiled BigTIFF, with non-standard metadata
    /// and overlaps (.bif, .tif).
    Ventana,
    /// Single-file pyramidal tiled TIFF (.tif).
    GenericTiledTiff,
}

/// The order in which the four 8-bit channel values of one pixel are
/// packed into one 32-bit word.
#[derive(Clone, Copy, Debug)]
pub enum WordRepresentation {
    /// From most significant byte to least significant byte:
    /// `[alpha, red, green, blue]`.
    BigEndian,
    /// From most significant byte to least significant byte:
    /// `[blue, green, red, alpha]`.
    LittleEndian,
}

/// The channel values packed into one 32-bit pixel word, in the order
/// alpha, red, green, blue.
pub open spec fn spec_channels(value: u32, word: WordRepresentation) -> (u8, u8, u8, u8) {
    match word {
        WordRepresentation::BigEndian => (
            (value >> 24) as u8,
            (value >> 16) as u8,
            (value >> 8) as u8,
            value as u8,
        ),
        WordRepresentation::LittleEndian => (
            value as u8,
            (value >> 8) as u8,
            (value >> 16) as u8,
            (value >> 24) as u8,
        ),
    }
}

/// Undoes alpha premultiplication of one channel: for alpha outside
/// {0, 255} the channel is rescaled as `clamp(round(channel * 255 /
/// alpha), 0, 255)` with rounding half away from zero; at alpha 0 or
/// 255 it passes through unchanged.
pub open spec fn spec_unpremultiply(channel: u8, alpha: u8) -> u8 {
    if alpha == 0 || alpha == 255 {
        channel
    } else {
        let q = (510 * (channel as int) + (alpha as int)) / (2 * (alpha as int));
        if q > 255 {
            255u8
        } else {
            q as u8
        }
    }
}

/// The non-premultiplied RGBA channels decoded from one packed pixel
/// word, in the order red, green, blue, alpha.
pub open spec fn spec_decode_word(value: u32, word: WordRepresentation) -> (u8, u8, u8, u8) {
    let channels = spec_channels(value, word);
    (
        spec_unpremultiply(channels.1, channels.0),
        spec_unpremultiply(channels.2, channels.0),
        spec_unpremultiply(channels.3, channels.0),
        channels.0,
    )
}

/// One 32-bit pixel word packing the given channels under the given
/// word representation (alpha in the most significant byte for the
/// big-endian representation, in the least significant byte for the
/// little-endian one).
pub open spec fn spec_encode_word(
    red: u8,
    green: u8,
    blue: u8,
    alpha: u8,
    word: WordRepresentation,
) -> u32 {
    match word {
        WordRepresentation::BigEndian => ((alpha as u32) << 24) | ((red as u32) << 16) | ((
        green as u32) << 8) | (blue as u32),
        WordRepresentation::LittleEndian => ((blue as u32) << 24) | ((green as u32) << 16) | ((
        red as u32) << 8) | (alpha as u32),
    }
}

/// Relies on byteorder::BigEndian::write_u32: it stores the word in
/// big-endian byte order, most significant byte first.
#[verifier::external_body]
fn unpack_big_endian(value: u32) -> (r: (u8, u8, u8, u8))
    ensures
        r.0 == (value >> 24) as u8,
        r.1 == (value >> 16) as u8,
        r.2 == (value >> 8) as u8,
        r.3 == value as u8,
{
    let mut buf = [0u8; 4];
    byteorder::BigEndian::write_u32(&mut buf, value);
    (buf[0], buf[1], buf[2], buf[3])
}

/// Relies on byteorder::LittleEndian::write_u32: it stores the word in
/// little-endian byte order, least significant byte first.
#[verifier::external_body]
fn unpack_little_endian(value: u32) -> (r: (u8, u8, u8, u8))
    ensures
        r.0 == value as u8,
        r.1 == (value >> 8) as u8,
        r.2 == (value >> 16) as u8,
        r.3 == (value >> 24) as u8,
{
    let mut buf = [0u8; 4];
    byteorder::LittleEndian::write_u32(&mut buf, value);
    (buf[0], buf[1], buf[2], buf[3])
}

/// Undoes alpha premultiplication of one channel value.
fn unpremultiply(channel: u8, alpha: u8) -> (r: u8)
    ensures
        r == spec_unpremultiply(channel, alpha),
{
    if alpha == 0 || alpha == 255 {
        channel
    } else {
        let num: u32 = 510 * (channel as u32) + (alpha as u32);
        let den: u32 = 2 * (alpha as u32);
        let q: u32 = num / den;
        if q > 255 {
            255
        } else {
            q as u8
        }
    }
}

/// Packs the given non-premultiplied channel values into one 32-bit
/// pixel word under the given word representation.
pub fn encode_word(red: u8, green: u8, blue: u8, alpha: u8, word: WordRepresentation) -> (r: u32)
    ensures
        r == spec_encode_word(red, green, blue, alpha, word),
{
    match word {
        WordRepresentation::BigEndian => ((alpha as u32) << 24) | ((red as u32) << 16) | ((
        green as u32) << 8) | (blue as u32),
        WordRepresentation::LittleEndian => ((blue as u32) << 24) | ((green as u32) << 16) | ((
        red as u32) << 8) | (alpha as u32),
    }
}

/// Law: a pixel packed at full opacity decodes back to the identical
/// channels, since unpremultiplication at alpha 255 passes each channel
/// through unchanged.
pub proof fn lemma_decode_encode_full_opacity(
    red: u8,
    green: u8,
    blue: u8,
    word: WordRepresentation,
)
    ensures
        spec_decode_word(spec_encode_word(red, green, blue, 255u8, word), word) == (
            red,
            green,
            blue,
            255u8,
        ),
{
    let r32 = red as u32;
    let g32 = green as u32;
    let b32 = blue as u32;
    match word {
        WordRepresentation::BigEndian => {
            let v = (255u32 << 24) | (r32 << 16) | (g32 << 8) | b32;
            assert((v >> 24) as u8 == 255u8 && (v >> 16) as u8 == red && (v >> 8) as u8 == green
                && v as u8 == blue) by (bit_vector)
                requires
                    v == (255u32 << 24) | ((red as u32) << 16) | ((green as u32) << 8) | (
                    blue as u32),
            ;
        },
        WordRepresentation::LittleEndian => {
            let v = (b32 << 24) | (g32 << 16) | (r32 << 8) | 255u32;
            assert((v >> 24) as u8 == blue && (v >> 16) as u8 == green && (v >> 8) as u8 == red
                && v as u8 == 255u8) by (bit_vector)
                requires
                    v == ((blue as u32) << 24) | ((green as u32) << 16) | ((red as u32) << 8)
                        | 255u32,
            ;
        },
    }
}

/// Decodes a packed pixel buffer, as obtained from the native
/// read-region operation, into an RGBA raster.
///
/// Each 32-bit word holds one pixel's four channels in the order given
/// by `word_representation`; the red, green and blue channels arrive
/// premultiplied by alpha and are rescaled to their non-premultiplied
/// values. The buffer must hold exactly `height * width` words; extents
/// that do not fit unsigned 32-bit values are rejected.
pub fn decode_buffer(
    buffer: &Vec<u32>,
    height: u64,
    width: u64,
    word_representation: WordRepresentation,
) -> (r: Result<RgbaRaster, Error>)
    requires
        buffer@.len() == (height as nat) * (width as nat),
    ensures
        (height <= u32::MAX && width <= u32::MAX) <==> r is Ok,
        r matches Ok(raster) ==> {
            &&& raster.spec_width() == width
            &&& raster.spec_height() == height
            &&& raster.spec_data().len() == 4 * buffer@.len()
            &&& forall|i: int|
                0 <= i < buffer@.len() ==> #[trigger] spec_pixel_at(raster.spec_data(), i)
                    == spec_decode_word(buffer@[i], word_representation)
        },
        r matches Err(e) ==> e.spec_kind() matches ErrorKind::NumPrimitiveCast { message }
            && message@ == "to u32"@,
{
    let height32: u32 = match to_u32(height) {
        Ok(v) => v,
        Err(e) => {
            return Err(e);
        },
    };
    let width32: u32 = match to_u32(width) {
        Ok(v) => v,
        Err(e) => {
            return Err(e);
        },
    };
    let mut data: Vec<u8> = Vec::new();
    let n: usize = buffer.len();
    let mut i: usize = 0;
    while i < n
        invariant
            n == buffer@.len(),
            i <= n,
            data@.len() == 4 * i,
            forall|j: int|
                0 <= j < i ==> #[trigger] spec_pixel_at(data@, j) == spec_decode_word(
                    buffer@[j],
                    word_representation,
                ),
        decreases n - i,
    {
        let value: u32 = buffer[i];
        let channels: (u8, u8, u8, u8) = match word_representation {
            WordRepresentation::BigEndian => unpack_big_endian(value),
            WordRepresentation::LittleEndian => unpack_little_endian(value),
        };
        proof {
            assert(channels == spec_channels(value, word_representation));
        }
        let alpha = channels.0;
        let out_red = unpremultiply(channels.1, alpha);
        let out_green = unpremultiply(channels.2, alpha);
        let out_blue = unpremultiply(channels.3, alpha);
        let ghost pre = data@;
        data.push(out_red);
        data.push(out_green);
        data.push(out_blue);
        data.push(alpha);
        i = i + 1;
        proof {
            assert(spec_pixel_at(data@, i - 1) == spec_decode_word(
                buffer@[i - 1],
                word_representation,
            ));
            assert forall|j: int|
                0 <= j < i - 1 implies #[trigger] spec_pixel_at(data@, j) == spec_decode_word(
                buffer@[j],
                word_representation,
            ) by {
                assert(data@[4 * j] == pre[4 * j]);
                assert(data@[4 * j + 1] == pre[4 * j + 1]);
                assert(data@[4 * j + 2] == pre[4 * j + 2]);
                assert(data@[4 * j + 3] == pre[4 * j + 3]);
                assert(spec_pixel_at(pre, j) == spec_decode_word(buffer@[j], word_representation));
            };
        }
    }
    proof {
        assert(4 * (width32 as int) * (height32 as int) == 4 * ((height as int) * (width as int)))
            by (nonlinear_arith)
            requires
                width32 == width,
                height32 == height,
        ;
    }
    Ok(RgbaRaster::new(width32, height32, data))
}

/// Checked narrowing to `u32`; fails rather than silently truncating.
pub fn to_u32(number: u64) -> (r: Result<u32, Error>)
    ensures
        number <= u32::MAX <==> r is Ok,
        r matches Ok(v) ==> v == number,
        r matches Err(e) ==> e.spec_kind() matches ErrorKind::NumPrimitiveCast { message }
            && message@ == "to u32"@,
{
    if number <= u32::MAX as u64 {
        Ok(number as u32)
    } else {
        Err(Error::new(ErrorKind::NumPrimitiveCast { message: "to u32".to_owned() }))
    }
}

/// Checked conversion of a signed value to `u64`; fails on negatives.
pub fn to_u64(number: i64) -> (r: Result<u64, Error>)
    ensures
        number >= 0 <==> r is Ok,
        r matches Ok(v) ==> v == number,
        r matches Err(e) ==> e.spec_kind() matches ErrorKind::NumPrimitiveCast { message }
            && message@ == "to u64"@,
{
    if number >= 0 {
        Ok(number as u64)
    } else {
        Err(Error::new(ErrorKind::NumPrimitiveCast { message: "to u64".to_owned() }))
    }
}

/// Checked narrowing to `i32`; fails rather than silently truncating.
pub fn to_i32(number: u64) -> (r: Result<i32, Error>)
    ensures
        number <= i32::MAX <==> r is Ok,
        r matches Ok(v) ==> v == number,
        r matches Err(e) ==> e.spec_kind() matches ErrorKind::NumPrimitiveCast { message }
            && message@ == "to i32"@,
{
    if number <= i32::MAX as u64 {
        Ok(number as i32)
    } else {
        Err(Error::new(ErrorKind::NumPrimitiveCast { message: "to i32".to_owned() }))
    }
}

/// Checked narrowing to `i64`; fails rather than silently truncating.
pub fn to_i64(number: u64) -> (r: Result<i64, Error>)
    ensures
        number <= i64::MAX <==> r is Ok,
        r matches Ok(v) ==> v == number,
        r matches Err(e) ==> e.spec_kind() matches ErrorKind::NumPrimitiveCast { message }
            && message@ == "to i64"@,
{
    if number <= i64::MAX as u64 {
        Ok(number as i64)
    } else {
        Err(Error::new(ErrorKind::NumPrimitiveCast { message: "to i64".to_owned() }))
    }
}

} // verus!
