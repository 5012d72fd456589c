use vstd::prelude::*;

use crate::pixel::Pixel;
use crate::render::RenderError;

verus! {

/// Perceptual brightness of a pixel: the standard weighting
/// `0.2126·R + 0.7152·G + 0.0722·B`, computed exactly over integers
/// and truncated. Lies in `0..=255` for 8-bit channels. Alpha is
/// ignored.
pub open spec fn luma_spec(p: Pixel) -> int {
    (2126 * p.r + 7152 * p.g + 722 * p.b) / 10000
}

/// The luma of a half-block cell: the integer average, floored, of the
/// top and bottom sampled pixels' luma.
pub open spec fn pair_luma(top: Pixel, bottom: Pixel) -> int {
    (luma_spec(top) + luma_spec(bottom)) / 2
}

/// The five-bucket shade ramp, darkest to lightest, for luma `0..=255`:
/// 0–51 blank, 52–102 light shade, 103–153 medium shade, 154–204 dark
/// shade, 205–255 full block.
pub open spec fn ramp_char(luma: int) -> char {
    if luma <= 51 {
        ' '
    } else if luma <= 102 {
        '░'
    } else if luma <= 153 {
        '▒'
    } else if luma <= 204 {
        '▓'
    } else {
        '█'
    }
}

/// Cell `(x, y)` of the grayscale path: the ramp glyph of the averaged
/// luma of source rows `2y` and `2y + 1` at column `x`.
pub open spec fn gray_cell(g: Seq<Seq<Pixel>>, x: int, y: int) -> char {
    ramp_char(pair_luma(g[2 * y][x], g[2 * y + 1][x]))
}

/// Compute a pixel's luma.
pub fn rgb_to_luma(p: Pixel) -> (l: u32)
    ensures
        l == luma_spec(p),
        l <= 255,
{
    let weighted: u32 = 2126 * (p.r as u32) + 7152 * (p.g as u32) + 722 * (p.b as u32);
    weighted / 10000
}

/// Map a luma value onto the shade ramp. A luma above 255 signals a
/// channel-range violation upstream and fails fast as `InvalidLuma`,
/// never silently clamped.
pub fn luma_to_glyph(luma: u32) -> (r: Result<char, RenderError>)
    ensures
        luma <= 255 ==> r == Ok::<char, RenderError>(ramp_char(luma as int)),
        luma > 255 ==> r == Err::<char, RenderError>(RenderError::InvalidLuma),
{
    if luma <= 51 {
        Ok(' ')
    } else if luma <= 102 {
        Ok('░')
    } else if luma <= 153 {
        Ok('▒')
    } else if luma <= 204 {
        Ok('▓')
    } else if luma <= 255 {
        Ok('█')
    } else {
        Err(RenderError::InvalidLuma)
    }
}

} // verus!
