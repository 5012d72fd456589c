use vstd::prelude::*;

use crate::pixel::Pixel;
use crate::pixel::PixelMatrix;
use crate::scale::FilterKernel;

verus! {

/// What the external decoder yields for a byte sequence: `None` where
/// the bytes are malformed or unsupported, otherwise the decoded grid
/// of RGBA pixels, row by row. The decoder's result depends on the
/// bytes alone.
pub uninterp spec fn decoded_grid(bytes: Seq<u8>) -> Option<Seq<Seq<Pixel>>>;

/// A stable numbering of the general resampler's kernels, used to name
/// the resampler's result.
pub open spec fn kernel_id(k: FilterKernel) -> int {
    match k {
        FilterKernel::Nearest => 0,
        FilterKernel::Triangle => 1,
        FilterKernel::CatmullRom => 2,
        FilterKernel::Gaussian => 3,
        FilterKernel::Lanczos3 => 4,
    }
}

/// What the general resampler yields for a source grid, a target pixel
/// size and a kernel. The result depends on these arguments alone.
pub uninterp spec fn resampled_grid(
    grid: Seq<Seq<Pixel>>,
    target_width: nat,
    target_height: nat,
    kernel: int,
) -> Seq<Seq<Pixel>>;

/// Relies on `image::load_from_memory`: decodes a compressed image (at
/// minimum JPEG and PNG) from a byte buffer, guessing the format, and
/// on `DynamicImage::to_rgba8`, which converts the decoded pixels to
/// 8-bit RGBA. Both are functions of the bytes alone; a failed decode
/// is reported as `None`.
#[verifier::external_body]
pub(crate) fn decode_image(bytes: &[u8]) -> (r: Option<PixelMatrix>)
    ensures
        match r {
            Some(m) => {
                &&& decoded_grid(bytes@) is Some
                &&& m.wf()
                &&& m@ == decoded_grid(bytes@)->Some_0
            },
            None => decoded_grid(bytes@) is None,
        },
{
    match image::load_from_memory(bytes) {
        Ok(img) => {
            let rgba = img.to_rgba8();
            let (w, h) = rgba.dimensions();
            Some(PixelMatrix { width: w as usize, height: h as usize, data: rgba.into_raw() })
        },
        Err(_) => None,
    }
}

/// Relies on `image::imageops::resize`: scales the source pixels to
/// exactly `target_width × target_height` with the named convolution
/// kernel (box for `Nearest`, triangle for `Triangle`, Catmull-Rom,
/// Gaussian, 3-lobed Lanczos); the output is a function of the source
/// pixels, the target size and the kernel alone, and the source is
/// never mutated.
#[verifier::external_body]
pub(crate) fn resize_matrix(
    m: &PixelMatrix,
    target_width: u32,
    target_height: u32,
    kernel: FilterKernel,
) -> (r: PixelMatrix)
    requires
        m.wf(),
        0 < m.width,
        0 < m.height,
        0 < target_width,
        0 < target_height,
    ensures
        r.wf(),
        r.width == target_width,
        r.height == target_height,
        r@ == resampled_grid(m@, target_width as nat, target_height as nat, kernel_id(kernel)),
{
    let src = image::RgbaImage::from_raw(m.width as u32, m.height as u32, m.data.clone())
        .unwrap();
    let ft = match kernel {
        FilterKernel::Nearest => image::imageops::FilterType::Nearest,
        FilterKernel::Triangle => image::imageops::FilterType::Triangle,
        FilterKernel::CatmullRom => image::imageops::FilterType::CatmullRom,
        FilterKernel::Gaussian => image::imageops::FilterType::Gaussian,
        FilterKernel::Lanczos3 => image::imageops::FilterType::Lanczos3,
    };
    let out = image::imageops::resize(&src, target_width, target_height, ft);
    PixelMatrix {
        width: target_width as usize,
        height: target_height as usize,
        data: out.into_raw(),
    }
}

} // verus!
