//! Bounds and buffer layout of a headless render target.
//!
//! Every headless host checks the requested image size here before any
//! catalog loading or GPU work: each side must lie in
//! `MIN_RENDER_DIMENSION..=MAX_RENDER_DIMENSION` and the pixel count must stay
//! within `MAX_RENDER_PIXELS`. For an accepted size the layout gives the row
//! pitch of the read-back buffer, padded to the copy alignment, and the byte
//! counts of the read-back buffer and of the tightly packed RGBA8 image.
use vstd::prelude::*;

use crate::text::{dec, push_dec, push_str, string_from_chars};

verus! {

/// Smallest accepted width or height, in pixels.
pub const MIN_RENDER_DIMENSION: u32 = 16;

/// Largest accepted width or height, in pixels.
pub const MAX_RENDER_DIMENSION: u32 = 8192;

/// Largest accepted pixel count of one image.
pub const MAX_RENDER_PIXELS: u64 = 16_777_216;

/// Bytes per RGBA8 pixel.
pub const BYTES_PER_PIXEL: u32 = 4;

/// Alignment, in bytes, that a texture-to-buffer copy demands of the row
/// pitch of the destination buffer.
pub const COPY_BYTES_PER_ROW_ALIGNMENT: u32 = 256;

/// Byte layout of the read-back of a `width` x `height` RGBA8 target.
#[derive(Debug, Clone, Copy, PartialEq, Eq)]
pub struct RenderLayout {
    /// `width * 4`.
    pub unpadded_bytes_per_row: u32,
    /// The unpadded row rounded up to the copy alignment.
    pub padded_bytes_per_row: u32,
    /// Size of the read-back buffer: padded row times height.
    pub readback_bytes: u64,
    /// Size of the packed output image: `width * height * 4`.
    pub pixel_bytes: usize,
}

/// Why a render size was refused.
#[derive(Debug, Clone, Copy, PartialEq, Eq)]
pub enum RenderError {
    /// A side lies outside `MIN_RENDER_DIMENSION..=MAX_RENDER_DIMENSION`.
    DimensionsOutOfRange { width: u32, height: u32 },
    /// Both sides are in range but the pixel count exceeds the budget.
    PixelBudgetExceeded { width: u32, height: u32, pixel_count: u64 },
}

/// True when both sides lie in the accepted range.
pub open spec fn dimensions_in_range(width: u32, height: u32) -> bool {
    &&& MIN_RENDER_DIMENSION <= width <= MAX_RENDER_DIMENSION
    &&& MIN_RENDER_DIMENSION <= height <= MAX_RENDER_DIMENSION
}

/// `n` rounded up to a multiple of the copy alignment.
pub open spec fn align_up(n: int) -> int {
    ((n + COPY_BYTES_PER_ROW_ALIGNMENT - 1) / (COPY_BYTES_PER_ROW_ALIGNMENT as int)) * (
    COPY_BYTES_PER_ROW_ALIGNMENT as int)
}

/// The layout of an accepted `width` x `height` target.
pub open spec fn layout_spec(width: u32, height: u32) -> RenderLayout {
    let row = width * BYTES_PER_PIXEL;
    let padded = align_up(row);
    RenderLayout {
        unpadded_bytes_per_row: row as u32,
        padded_bytes_per_row: padded as u32,
        readback_bytes: (padded * height) as u64,
        pixel_bytes: (width * height * BYTES_PER_PIXEL) as usize,
    }
}

/// The outcome of checking a `width` x `height` request.
pub open spec fn render_layout_spec(width: u32, height: u32) -> Result<RenderLayout, RenderError> {
    if !dimensions_in_range(width, height) {
        Err(RenderError::DimensionsOutOfRange { width, height })
    } else if width * height > MAX_RENDER_PIXELS {
        Err(
            RenderError::PixelBudgetExceeded {
                width,
                height,
                pixel_count: (width * height) as u64,
            },
        )
    } else {
        Ok(layout_spec(width, height))
    }
}

/// Checks a render size and computes its read-back layout.
pub fn render_layout(width: u32, height: u32) -> (r: Result<RenderLayout, RenderError>)
    ensures
        r == render_layout_spec(width, height),
{
    if !(MIN_RENDER_DIMENSION <= width && width <= MAX_RENDER_DIMENSION) || !(MIN_RENDER_DIMENSION
        <= height && height <= MAX_RENDER_DIMENSION) {
        return Err(RenderError::DimensionsOutOfRange { width, height });
    }
    assert((width as u64) * (height as u64) <= 8192 * 8192) by (nonlinear_arith)
        requires
            width <= 8192,
            height <= 8192,
    ;
    let pixel_count: u64 = (width as u64) * (height as u64);
    if pixel_count > MAX_RENDER_PIXELS {
        return Err(RenderError::PixelBudgetExceeded { width, height, pixel_count });
    }
    let unpadded_bytes_per_row: u32 = width * BYTES_PER_PIXEL;
    let alignment: u32 = COPY_BYTES_PER_ROW_ALIGNMENT;
    let padded_units: u32 = (unpadded_bytes_per_row + (alignment - 1)) / alignment;
    let padded_bytes_per_row: u32 = padded_units * alignment;
    assert(padded_bytes_per_row <= 32768 + 256);
    assert((padded_bytes_per_row as u64) * (height as u64) <= (32768 + 256) * 8192)
        by (nonlinear_arith)
        requires
            padded_bytes_per_row <= 32768 + 256,
            height <= 8192,
    ;
    let readback_bytes: u64 = (padded_bytes_per_row as u64) * (height as u64);
    let pixel_bytes_u64: u64 = pixel_count * (BYTES_PER_PIXEL as u64);
    let pixel_bytes: usize = pixel_bytes_u64 as usize;
    proof {
        assert(width * height * BYTES_PER_PIXEL == pixel_count * 4) by (nonlinear_arith)
            requires
                pixel_count == width * height,
        ;
    }
    Ok(RenderLayout { unpadded_bytes_per_row, padded_bytes_per_row, readback_bytes, pixel_bytes })
}

/// Law: an accepted layout pads each row up to the next multiple of the copy
/// alignment and no further, and the read-back buffer holds the whole image.
pub proof fn lemma_row_padding(width: u32, height: u32)
    requires
        render_layout_spec(width, height) is Ok,
    ensures
        ({
            let l = render_layout_spec(width, height)->Ok_0;
            &&& l.padded_bytes_per_row % COPY_BYTES_PER_ROW_ALIGNMENT == 0
            &&& l.unpadded_bytes_per_row <= l.padded_bytes_per_row
            &&& l.padded_bytes_per_row < l.unpadded_bytes_per_row + COPY_BYTES_PER_ROW_ALIGNMENT
            &&& l.readback_bytes >= l.pixel_bytes
        }),
{
    let row = width * 4;
    let padded = align_up(row);
    assert(padded % 256 == 0 && row <= padded < row + 256) by (nonlinear_arith)
        requires
            padded == ((row + 255) / 256) * 256,
            0 <= row,
    ;
    assert(padded * height >= row * height) by (nonlinear_arith)
        requires
            padded >= row,
            height >= 0,
    ;
    assert(row * height == width * height * 4) by (nonlinear_arith)
        requires
            row == width * 4,
    ;
    assert(padded <= 32768 + 256);
    assert(padded * height < 0x1_0000_0000_0000_0000) by (nonlinear_arith)
        requires
            padded <= 32768 + 256,
            height <= 8192,
    ;
    assert(width * height * 4 <= 16_777_216 * 4);
}

/// Checks a render size before catalog loading or GPU work begins.
pub fn validate_render_dimensions(width: u32, height: u32) -> (r: Result<(), RenderError>)
    ensures
        r is Ok <==> dimensions_in_range(width, height) && width * height <= MAX_RENDER_PIXELS,
        match render_layout_spec(width, height) {
            Ok(_) => r == Ok::<(), RenderError>(()),
            Err(e) => r == Err::<(), RenderError>(e),
        },
{
    match render_layout(width, height) {
        Ok(_) => Ok(()),
        Err(e) => Err(e),
    }
}

impl RenderError {
    /// The text a host prints for this error.
    pub open spec fn message_spec(self) -> Seq<char> {
        match self {
            RenderError::DimensionsOutOfRange { width, height } => "render dimensions must each be in "@
                + dec(MIN_RENDER_DIMENSION as nat) + "..="@ + dec(MAX_RENDER_DIMENSION as nat)
                + "; got "@ + dec(width as nat) + "x"@ + dec(height as nat),
            RenderError::PixelBudgetExceeded { width, height, pixel_count } => "render pixel count "@
                + dec(pixel_count as nat) + " exceeds budget "@ + dec(MAX_RENDER_PIXELS as nat)
                + " ("@ + dec(width as nat) + "x"@ + dec(height as nat) + ")"@,
        }
    }

    /// The text a host prints for this error.
    pub fn message(&self) -> (r: String)
        ensures
            r@ == self.message_spec(),
    {
        let mut v: Vec<char> = Vec::new();
        match *self {
            RenderError::DimensionsOutOfRange { width, height } => {
                push_str(&mut v, "render dimensions must each be in ");
                push_dec(&mut v, MIN_RENDER_DIMENSION as u64);
                push_str(&mut v, "..=");
                push_dec(&mut v, MAX_RENDER_DIMENSION as u64);
                push_str(&mut v, "; got ");
                push_dec(&mut v, width as u64);
                push_str(&mut v, "x");
                push_dec(&mut v, height as u64);
            },
            RenderError::PixelBudgetExceeded { width, height, pixel_count } => {
                push_str(&mut v, "render pixel count ");
                push_dec(&mut v, pixel_count);
                push_str(&mut v, " exceeds budget ");
                push_dec(&mut v, MAX_RENDER_PIXELS);
                push_str(&mut v, " (");
                push_dec(&mut v, width as u64);
                push_str(&mut v, "x");
                push_dec(&mut v, height as u64);
                push_str(&mut v, ")");
            },
        }
        assert(v@ =~= self.message_spec());
        string_from_chars(&v)
    }
}

/// Output-image controls that are not part of a saved scene.
#[derive(Debug, Clone, Copy, PartialEq, Eq)]
pub struct RenderOptions {
    pub width: u32,
    pub height: u32,
    /// Whether the diffuse sky-glow pass runs.
    pub skyglow_enabled: bool,
    /// Whether known variable stars are drawn at their phase-folded magnitude.
    pub variable_magnitudes: bool,
}

impl Default for RenderOptions {
    /// 1280 x 720 with sky glow on and catalogue magnitudes.
    fn default() -> (r: Self)
        ensures
            r == (RenderOptions {
                width: 1280,
                height: 720,
                skyglow_enabled: true,
                variable_magnitudes: false,
            }),
    {
        RenderOptions { width: 1280, height: 720, skyglow_enabled: true, variable_magnitudes: false }
    }
}


/// The packed image in a read-back buffer: the first `unpadded` bytes of
/// each of the first `rows` rows of `padded` bytes.
pub open spec fn unpadded_image(data: Seq<u8>, padded: nat, unpadded: nat, rows: nat) -> Seq<u8>
    decreases rows,
{
    if rows == 0 {
        Seq::empty()
    } else {
        let start = (rows - 1) * padded;
        unpadded_image(data, padded, unpadded, (rows - 1) as nat) + data.subrange(
            start as int,
            start + unpadded,
        )
    }
}

/// Copies the packed image out of a read-back buffer, dropping the padding
/// at the end of each row.
pub fn unpad_rows(data: &[u8], layout: &RenderLayout, height: u32) -> (r: Vec<u8>)
    requires
        layout.unpadded_bytes_per_row <= layout.padded_bytes_per_row,
        layout.padded_bytes_per_row * height <= data@.len(),
    ensures
        r@ == unpadded_image(
            data@,
            layout.padded_bytes_per_row as nat,
            layout.unpadded_bytes_per_row as nat,
            height as nat,
        ),
{
    let n = data.len();
    let padded = layout.padded_bytes_per_row as usize;
    let unpadded = layout.unpadded_bytes_per_row as usize;
    let mut pixels: Vec<u8> = Vec::new();
    let mut row: u32 = 0;
    let mut start: usize = 0;
    while row < height
        invariant
            row <= height,
            padded == layout.padded_bytes_per_row,
            unpadded == layout.unpadded_bytes_per_row,
            unpadded <= padded,
            padded * height <= data@.len(),
            n == data@.len(),
            start == row * padded,
            pixels@ == unpadded_image(data@, padded as nat, unpadded as nat, row as nat),
        decreases height - row,
    {
        assert((row + 1) * padded <= height * padded) by (nonlinear_arith)
            requires
                row < height,
        ;
        assert((row + 1) * padded == row * padded + padded) by (nonlinear_arith);
        let mut k: usize = 0;
        let ghost before = pixels@;
        while k < unpadded
            invariant
                k <= unpadded,
                unpadded <= padded,
                start + padded <= data@.len(),
                n == data@.len(),
                pixels@ == before + data@.subrange(start as int, start + k),
            decreases unpadded - k,
        {
            pixels.push(data[start + k]);
            assert(data@.subrange(start as int, start + k + 1) =~= data@.subrange(
                start as int,
                start + k,
            ).push(data@[start + k]));
            k += 1;
        }
        row += 1;
        start = start + padded;
    }
    pixels
}

} // verus!
