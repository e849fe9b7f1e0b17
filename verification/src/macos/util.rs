//! Icons as the platform reads them: PNG data.

use crate::icon::Icon;
use vstd::prelude::*;

verus! {

/// The PNG file that encodes `rgba` as an image of `width` by `height`
/// pixels with eight bits for each of red, green, blue and alpha; nothing
/// where there is no such file.
pub uninterp spec fn png_of_rgba(rgba: Seq<u8>, width: u32, height: u32) -> Option<Seq<u8>>;

/// The widest image that the encoder takes. It counts the bytes of a row,
/// four for each pixel and one for the filter, in 32 bits.
pub const MAX_PNG_WIDTH: u32 = 0x3FFF_FFFF;

/// Whether `rgba` holds an image of `width` by `height` pixels: at least one
/// pixel, and four bytes for each.
pub open spec fn is_image(rgba: Seq<u8>, width: u32, height: u32) -> bool {
    width > 0 && height > 0 && rgba.len() == 4 * width * height
}

/// What an optional buffer holds.
pub open spec fn bytes_of(buffer: Option<Vec<u8>>) -> Option<Seq<u8>> {
    match buffer {
        Some(bytes) => Some(bytes@),
        None => None,
    }
}

/// Encodes RGBA pixels as PNG with `png::Encoder`: the color type is set to
/// RGBA and the depth to eight bits, `write_header` writes the signature and
/// the header, and `Writer::write_image_data` the pixels. The result is what
/// the encoder wrote, or nothing if either step reported an error.
///
/// The contract names the result. Of what it holds it says only when there
/// is one: `write_header` refuses a width or height of 0,
/// `write_image_data` a buffer that does not hold `width * height` pixels of
/// four bytes, and nothing else fails, as the encoder writes into memory.
///
/// The two bounds keep the encoder's arithmetic in range. It computes the
/// size of the image, `4 * width * height`, in `usize`, and its compressor
/// (`fdeflate::Compressor::write_data`) counts the zero bytes of one row, of
/// which there are up to `4 * width + 1`, in 32 bits.
#[verifier::external_body]
fn rgba_to_png(rgba: &[u8], width: u32, height: u32) -> (png: Option<Vec<u8>>)
    requires
        4 * width * height <= usize::MAX,
        width <= MAX_PNG_WIDTH,
    ensures
        bytes_of(png) == png_of_rgba(rgba@, width, height),
        png.is_some() == is_image(rgba@, width, height),
{
    let mut out = Vec::new();
    {
        let mut encoder = png::Encoder::new(std::io::Cursor::new(&mut out), width, height);
        encoder.set_color(png::ColorType::Rgba);
        encoder.set_depth(png::BitDepth::Eight);
        let mut writer = encoder.write_header().ok()?;
        writer.write_image_data(rgba).ok()?;
    }
    Some(out)
}

/// What [`icon_to_png`] answers for an icon of these pixels and dimensions:
/// the PNG file of the image, and nothing for an image that is wider than
/// the encoder takes.
pub open spec fn png_of_icon(rgba: Seq<u8>, width: u32, height: u32) -> Option<Seq<u8>> {
    if width <= MAX_PNG_WIDTH {
        png_of_rgba(rgba, width, height)
    } else {
        None
    }
}

/// The image of an icon as a PNG file, as the platform reads images. Every
/// icon with pixels that is no wider than [`MAX_PNG_WIDTH`] has one; an icon
/// whose width or height is 0 has none, and neither has a wider icon, which
/// is not handed to the encoder.
pub fn icon_to_png(icon: &Icon) -> (png: Option<Vec<u8>>)
    ensures
        bytes_of(png) == png_of_icon(icon@.rgba, icon@.width, icon@.height),
        png is Some <==> 0 < icon@.width <= MAX_PNG_WIDTH && icon@.height > 0,
{
    if icon.width() > MAX_PNG_WIDTH {
        return None;
    }
    let buffer = icon.buffer();
    let len: usize = buffer.len();
    assert(4 * icon@.width * icon@.height == len) by (nonlinear_arith)
        requires
            len == 4 * (icon@.width * icon@.height),
    ;
    rgba_to_png(buffer.as_slice(), icon.width(), icon.height())
}

} // verus!
