//! PNG encoding of a rendered frame: the size checks made before the pixel
//! buffer is handed to the `png` crate, and how the stream labels its
//! colours. An sRGB frame carries the sRGB rendering intent; a wide-gamut
//! frame carries a gamma of 1/2.2 with the chromaticities of its primaries.
use vstd::prelude::*;

use crate::render::{render_layout_spec, validate_render_dimensions, RenderError};

verus! {

#[verifier::external_type_specification]
#[verifier::external_body]
pub struct ExPngEncodingError(png::EncodingError);

/// The bytes of an 8-bit RGBA PNG stream tagged with the sRGB rendering
/// intent.
pub uninterp spec fn png_rgba8_srgb_bytes(width: u32, height: u32, pixels: Seq<u8>) -> Seq<u8>;

/// The bytes of an 8-bit RGBA PNG stream tagged with the given source gamma
/// and chromaticities (white, red, green and blue `x`, `y` pairs), each
/// scaled by 100000.
pub uninterp spec fn png_rgba8_tagged_bytes(
    width: u32,
    height: u32,
    pixels: Seq<u8>,
    gamma: u32,
    chromaticities: Seq<u32>,
) -> Seq<u8>;

/// Source gamma of a wide-gamut frame: 1/2.2, scaled by 100000.
pub const WIDE_GAMUT_GAMMA: u32 = 45_455;

/// `png::Encoder` into a byte vector: RGBA colour, 8-bit depth, the sRGB
/// rendering intent (`Perceptual`), then `write_header` and
/// `write_image_data`. The stream's bytes are named, not stated. The
/// encoder rejects a zero side and a buffer whose length is not four bytes
/// per pixel, and accepts every other frame: its header chunks and its
/// compressed data go to an in-memory vector, which cannot fail.
#[verifier::external_body]
fn png_rgba8_srgb(width: u32, height: u32, pixels: &[u8]) -> (r: Result<Vec<u8>, png::EncodingError>)
    requires
        width * height * 4 <= usize::MAX,
    ensures
        r matches Ok(b) ==> b@ == png_rgba8_srgb_bytes(width, height, pixels@),
        width == 0 || height == 0 || pixels@.len() != width * height * 4 ==> r is Err,
        width > 0 && height > 0 && pixels@.len() == width * height * 4 ==> r is Ok,
{
    let mut bytes = Vec::new();
    let mut encoder = png::Encoder::new(&mut bytes, width, height);
    encoder.set_color(png::ColorType::Rgba);
    encoder.set_depth(png::BitDepth::Eight);
    encoder.set_source_srgb(png::SrgbRenderingIntent::Perceptual);
    let mut writer = encoder.write_header()?;
    writer.write_image_data(pixels)?;
    drop(writer);
    Ok(bytes)
}

/// `png::Encoder` into a byte vector: RGBA colour, 8-bit depth, source gamma
/// `ScaledFloat::from_scaled(gamma)`, the given chromaticities (each value a
/// `ScaledFloat::from_scaled`), then `write_header` and `write_image_data`.
/// The stream's bytes are named, not stated; as for the sRGB stream, a frame
/// is rejected exactly when a side is zero or the buffer length is wrong.
#[verifier::external_body]
fn png_rgba8_tagged(width: u32, height: u32, pixels: &[u8], gamma: u32, c: [u32; 8]) -> (r: Result<
    Vec<u8>,
    png::EncodingError,
>)
    requires
        width * height * 4 <= usize::MAX,
    ensures
        r matches Ok(b) ==> b@ == png_rgba8_tagged_bytes(width, height, pixels@, gamma, c@),
        width == 0 || height == 0 || pixels@.len() != width * height * 4 ==> r is Err,
        width > 0 && height > 0 && pixels@.len() == width * height * 4 ==> r is Ok,
{
    let s = png::ScaledFloat::from_scaled;
    let mut bytes = Vec::new();
    let mut encoder = png::Encoder::new(&mut bytes, width, height);
    encoder.set_color(png::ColorType::Rgba);
    encoder.set_depth(png::BitDepth::Eight);
    encoder.set_source_gamma(s(gamma));
    encoder.set_source_chromaticities(png::SourceChromaticities {
        white: (s(c[0]), s(c[1])), red: (s(c[2]), s(c[3])), green: (s(c[4]), s(c[5])), blue: (s(c[6]), s(c[7])),
    });
    let mut writer = encoder.write_header()?;
    writer.write_image_data(pixels)?;
    drop(writer);
    Ok(bytes)
}

/// How a PNG stream labels its colours.
#[derive(Debug, Clone, Copy)]
pub enum PngColourTag {
    /// The sRGB rendering intent.
    Srgb,
    /// Gamma 1/2.2 and these chromaticities: white, red, green and blue
    /// `x`, `y` pairs, each scaled by 100000.
    Primaries([u32; 8]),
}

/// Why a frame could not be encoded.
#[derive(Debug)]
pub enum PngEncodeError {
    /// The frame size is refused before encoding.
    Dimensions(RenderError),
    /// The pixel buffer does not hold four bytes per pixel.
    BufferSizeMismatch { expected: usize, actual: usize },
    /// The encoder failed.
    Encoding(png::EncodingError),
}

/// The stream a frame encodes to, for the tag chosen.
pub open spec fn png_bytes(width: u32, height: u32, pixels: Seq<u8>, tag: PngColourTag) -> Seq<u8> {
    match tag {
        PngColourTag::Srgb => png_rgba8_srgb_bytes(width, height, pixels),
        PngColourTag::Primaries(c) => png_rgba8_tagged_bytes(
            width,
            height,
            pixels,
            WIDE_GAMUT_GAMMA,
            c@,
        ),
    }
}

/// Encodes a rendered RGBA8 frame as a PNG byte stream. The frame size is
/// checked first (as for rendering), then the buffer length; the encoder's
/// own outcome decides the rest.
pub fn encode_png(width: u32, height: u32, pixels: &[u8], tag: PngColourTag) -> (r: Result<
    Vec<u8>,
    PngEncodeError,
>)
    ensures
        render_layout_spec(width, height) matches Err(e) ==> (r matches Err(
            PngEncodeError::Dimensions(f),
        ) && f == e),
        render_layout_spec(width, height) is Ok && pixels@.len() != width * height * 4 ==> (r matches Err(
            PngEncodeError::BufferSizeMismatch { expected, actual },
        ) && expected == width * height * 4 && actual == pixels@.len()),
        render_layout_spec(width, height) is Ok && pixels@.len() == width * height * 4 ==> (r matches Ok(
            b,
        ) && b@ == png_bytes(width, height, pixels@, tag)),
{
    match validate_render_dimensions(width, height) {
        Ok(()) => {},
        Err(e) => return Err(PngEncodeError::Dimensions(e)),
    }
    assert(width * height <= 16_777_216);
    let expected: usize = (width as usize) * (height as usize) * 4;
    if pixels.len() != expected {
        return Err(PngEncodeError::BufferSizeMismatch { expected, actual: pixels.len() });
    }
    let encoded = match tag {
        PngColourTag::Srgb => png_rgba8_srgb(width, height, pixels),
        PngColourTag::Primaries(c) => png_rgba8_tagged(width, height, pixels, WIDE_GAMUT_GAMMA, c),
    };
    match encoded {
        Ok(b) => Ok(b),
        Err(e) => Err(PngEncodeError::Encoding(e)),
    }
}

} // verus!
