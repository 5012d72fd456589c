use vstd::prelude::*;

use vstd::arithmetic::div_mod::lemma_div_multiples_vanish;
use vstd::arithmetic::div_mod::lemma_multiply_divide_lt;
use vstd::arithmetic::mul::lemma_mul_inequality;
use vstd::arithmetic::mul::lemma_mul_is_commutative;
use vstd::arithmetic::mul::lemma_mul_strict_inequality;

verus! {

/// The closed set of resampling strategies a caller may select.
///
/// All modes but `FastNearest` delegate to a general-purpose
/// convolution resampler. `FastNearest` is the engine's own lazy
/// nearest-neighbor fast path: it is never expressed in the general
/// resampler's vocabulary, and the attempt reports `InvalidMode`.
#[derive(Debug, Clone, Copy, PartialEq, Eq, Structural)]
pub enum ScaleMode {
    Nearest,
    Linear,
    Cubic,
    Gaussian,
    Lanczos,
    FastNearest,
}

/// A named convolution kernel of the general resampler: the vocabulary
/// that the delegating scale modes translate into.
#[derive(Debug, Clone, Copy, PartialEq, Eq, Structural)]
pub enum FilterKernel {
    Nearest,
    Triangle,
    CatmullRom,
    Gaussian,
    Lanczos3,
}

/// Failure to translate a `ScaleMode` into a general-resampler kernel.
///
/// A caller must treat `InvalidMode` as "switch to the specialized
/// fast path", never as a fatal failure.
#[derive(Debug, Clone, Copy, PartialEq, Eq, Structural)]
pub enum ConversionError {
    InvalidMode,
}

impl ConversionError {
    /// A short description of the error, standing in for its usual
    /// display form.
    pub fn describe(&self) -> (r: &'static str)
        ensures
            r@ == "InvalidMode"@,
    {
        "InvalidMode"
    }
}

impl ScaleMode {
    /// The kernel each delegating mode stands for; `FastNearest` has
    /// none.
    pub open spec fn kernel_spec(self) -> Option<FilterKernel> {
        match self {
            ScaleMode::Nearest => Some(FilterKernel::Nearest),
            ScaleMode::Linear => Some(FilterKernel::Triangle),
            ScaleMode::Cubic => Some(FilterKernel::CatmullRom),
            ScaleMode::Gaussian => Some(FilterKernel::Gaussian),
            ScaleMode::Lanczos => Some(FilterKernel::Lanczos3),
            ScaleMode::FastNearest => None,
        }
    }

    /// Translate this mode into the general resampler's kernel
    /// vocabulary; `FastNearest` is deliberately untranslatable.
    pub fn try_into(self) -> (r: Result<FilterKernel, ConversionError>)
        ensures
            match self.kernel_spec() {
                Some(k) => r == Ok::<FilterKernel, ConversionError>(k),
                None => r == Err::<FilterKernel, ConversionError>(ConversionError::InvalidMode),
            },
    {
        match self {
            ScaleMode::Nearest => Ok(FilterKernel::Nearest),
            ScaleMode::Linear => Ok(FilterKernel::Triangle),
            ScaleMode::Cubic => Ok(FilterKernel::CatmullRom),
            ScaleMode::Gaussian => Ok(FilterKernel::Gaussian),
            ScaleMode::Lanczos => Ok(FilterKernel::Lanczos3),
            ScaleMode::FastNearest => Err(ConversionError::InvalidMode),
        }
    }
}

/// Nearest-neighbor source coordinate along one axis for destination
/// coordinate `dst`: `⌊dst · src_len / dst_len⌋`. Ties resolve toward
/// the lower index, by flooring, never by rounding.
pub open spec fn nearest_src_coord(dst: int, src_len: int, dst_len: int) -> int {
    dst * src_len / dst_len
}

/// Compute the lazy fast path's source coordinate along one axis.
pub fn fast_nearest_coord(dst: usize, src_len: usize, dst_len: usize) -> (r: usize)
    requires
        0 < src_len <= u32::MAX,
        0 < dst_len <= u32::MAX,
        dst < dst_len,
    ensures
        r == nearest_src_coord(dst as int, src_len as int, dst_len as int),
        r < src_len,
{
    proof {
        lemma_mul_inequality(dst as int, u32::MAX as int, src_len as int);
        lemma_mul_strict_inequality(dst as int, dst_len as int, src_len as int);
        lemma_mul_is_commutative(dst_len as int, src_len as int);
        lemma_multiply_divide_lt(
            (dst as int) * (src_len as int),
            dst_len as int,
            src_len as int,
        );
    }
    let prod: u64 = (dst as u64) * (src_len as u64);
    let q: u64 = prod / (dst_len as u64);
    q as usize
}

/// Where the source length is an exact integer multiple of the
/// destination length, the fast path selects exactly the stride-aligned
/// first pixel of the destination cell's own footprint — the selection
/// a general nearest filter makes at integer ratios with ties resolved
/// toward the lower index.
pub proof fn lemma_nearest_exact_ratio(dst: int, src_len: int, dst_len: int)
    requires
        0 < dst_len,
        0 <= dst < dst_len,
        src_len % dst_len == 0,
    ensures
        nearest_src_coord(dst, src_len, dst_len) == dst * (src_len / dst_len),
        dst * (src_len / dst_len) == (src_len / dst_len) * dst,
{
    let k = src_len / dst_len;
    assert(src_len == dst_len * k) by {
        vstd::arithmetic::div_mod::lemma_fundamental_div_mod(src_len, dst_len);
    }
    assert(dst * src_len == dst_len * (k * dst)) by (nonlinear_arith)
        requires
            src_len == dst_len * k,
    ;
    lemma_div_multiples_vanish(k * dst, dst_len);
    assert(k * dst == dst * k) by (nonlinear_arith);
}

} // verus!
