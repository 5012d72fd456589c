use vstd::prelude::*;

use crate::compose::PixelSource;
use crate::compose::StyledGlyph;
use crate::compose::color_rows_spec;
use crate::compose::effective_grid;
use crate::compose::effective_height;
use crate::compose::effective_width;
use crate::compose::compose_color;
use crate::compose::compose_gray;
use crate::compose::gray_rows_spec;
use crate::compose::grid_width;
use crate::compose::lazy_nearest_grid;
use crate::imaging::decode_image;
use crate::imaging::decoded_grid;
use crate::imaging::kernel_id;
use crate::imaging::resampled_grid;
use crate::imaging::resize_matrix;
use crate::pixel::CellSize;
use crate::pixel::Pixel;
use crate::pixel::PixelMatrix;
use crate::scale::ScaleMode;

verus! {

/// Which compositor path runs: full 24-bit color half-blocks, the
/// grayscale shade ramp, or a recognized but permanently unimplemented
/// hosted-GUI mode that fails loudly instead of falling back.
#[derive(Debug, Clone, Copy, PartialEq, Eq, Structural)]
pub enum RenderMode {
    Color,
    Grayscale,
    Gui,
}

/// Everything a render call can fail with. No error is retried and no
/// partially built image is ever returned.
#[derive(Debug, Clone, Copy, PartialEq, Eq, Structural)]
pub enum RenderError {
    /// The source bytes are malformed, unsupported, or decode to an
    /// empty pixel grid.
    DecodeError,
    /// The caller asked for a zero-sized target; nothing is clamped.
    InvalidDimensions,
    /// A computed luma left `0..=255`: a channel-range violation
    /// upstream.
    InvalidLuma,
    /// The selected render mode is recognized but unimplemented.
    UnimplementedMode,
}

impl RenderError {
    /// A short description of the error, standing in for its usual
    /// display form.
    pub fn describe(&self) -> (r: &'static str)
        ensures
            match self {
                RenderError::DecodeError => r@ == "DecodeError"@,
                RenderError::InvalidDimensions => r@ == "InvalidDimensions"@,
                RenderError::InvalidLuma => r@ == "InvalidLuma"@,
                RenderError::UnimplementedMode => r@ == "UnimplementedMode"@,
            },
    {
        match self {
            RenderError::DecodeError => "DecodeError",
            RenderError::InvalidDimensions => "InvalidDimensions",
            RenderError::InvalidLuma => "InvalidLuma",
            RenderError::UnimplementedMode => "UnimplementedMode",
        }
    }
}

/// The populated glyph representation: exactly one of the two forms,
/// kept structurally as a tagged union.
#[derive(Debug)]
pub enum ImageRenderable {
    /// The color path's rows of styled half-block glyphs.
    Styled(Vec<Vec<StyledGlyph>>),
    /// The grayscale path's rows of plain shade glyphs.
    Raw(Vec<Vec<char>>),
}

/// The mathematical shape of a rendered image: its glyph rows.
pub enum RenderView {
    Styled(Seq<Seq<StyledGlyph>>),
    Plain(Seq<Seq<char>>),
}

/// The engine's output: an immutable grid of printable glyphs together
/// with the cell size it occupies.
#[derive(Debug)]
pub struct RenderedImage {
    pub renderable: ImageRenderable,
    pub size: CellSize,
}

impl View for RenderedImage {
    type V = RenderView;

    open spec fn view(&self) -> RenderView {
        match self.renderable {
            ImageRenderable::Styled(rows) => RenderView::Styled(
                rows@.map_values(|row: Vec<StyledGlyph>| row@),
            ),
            ImageRenderable::Raw(rows) => RenderView::Plain(
                rows@.map_values(|row: Vec<char>| row@),
            ),
        }
    }
}

impl RenderedImage {
    /// The carried size agrees with the populated representation: as
    /// many rows as the size says, each exactly as wide.
    pub open spec fn wf(self) -> bool {
        match self.renderable {
            ImageRenderable::Styled(rows) => {
                &&& rows@.len() == self.size.rows
                &&& forall|y: int|
                    0 <= y < rows@.len() ==> #[trigger] rows@[y]@.len() == self.size.columns
            },
            ImageRenderable::Raw(rows) => {
                &&& rows@.len() == self.size.rows
                &&& forall|y: int|
                    0 <= y < rows@.len() ==> #[trigger] rows@[y]@.len() == self.size.columns
            },
        }
    }

    /// The exact cell grid this image occupies.
    pub fn required_size(&self) -> (s: CellSize)
        ensures
            s == self.size,
    {
        self.size
    }

    /// Whether the color path populated this image.
    pub fn is_styled(&self) -> (r: bool)
        ensures
            r == (self@ is Styled),
    {
        match &self.renderable {
            ImageRenderable::Styled(_) => true,
            ImageRenderable::Raw(_) => false,
        }
    }

    /// Row `y` of a color-path image; `None` once `y` runs past the
    /// last row, or for a grayscale image.
    pub fn styled_row(&self, y: usize) -> (r: Option<&Vec<StyledGlyph>>)
        ensures
            match r {
                Some(row) => {
                    &&& self@ is Styled
                    &&& y < self@->Styled_0.len()
                    &&& row@ == self@->Styled_0[y as int]
                },
                None => !(self@ is Styled && y < self@->Styled_0.len()),
            },
    {
        match &self.renderable {
            ImageRenderable::Styled(rows) => {
                if y < rows.len() {
                    Some(&rows[y])
                } else {
                    None
                }
            },
            ImageRenderable::Raw(_) => None,
        }
    }

    /// Row `y` of a grayscale-path image; `None` once `y` runs past the
    /// last row, or for a color image.
    pub fn plain_row(&self, y: usize) -> (r: Option<&Vec<char>>)
        ensures
            match r {
                Some(row) => {
                    &&& self@ is Plain
                    &&& y < self@->Plain_0.len()
                    &&& row@ == self@->Plain_0[y as int]
                },
                None => !(self@ is Plain && y < self@->Plain_0.len()),
            },
    {
        match &self.renderable {
            ImageRenderable::Raw(rows) => {
                if y < rows.len() {
                    Some(&rows[y])
                } else {
                    None
                }
            },
            ImageRenderable::Styled(_) => None,
        }
    }
}

/// The pixel grid handed to the compositor: the target size is the cell
/// budget's columns by twice its rows (the half-block technique), fed
/// either through the general resampler or through the lazy
/// nearest-neighbor fast path.
pub open spec fn scaled_grid_spec(
    g: Seq<Seq<Pixel>>,
    size: CellSize,
    algo: ScaleMode,
) -> Seq<Seq<Pixel>> {
    let tw = size.columns as nat;
    let th = (2 * size.rows) as nat;
    match algo.kernel_spec() {
        Some(k) => resampled_grid(g, tw, th, kernel_id(k)),
        None => lazy_nearest_grid(g, tw, th),
    }
}

/// What one render call returns, as a function of the source bytes, the
/// cell budget, the scale algorithm and the render mode alone. The
/// unimplemented mode fails first on any input; then a failed or empty
/// decode; then a zero cell budget; otherwise the selected compositor's
/// rows.
pub open spec fn render_spec(
    bytes: Seq<u8>,
    size: CellSize,
    algo: ScaleMode,
    mode: RenderMode,
) -> Result<RenderView, RenderError> {
    if mode is Gui {
        Err(RenderError::UnimplementedMode)
    } else if decoded_grid(bytes) is None {
        Err(RenderError::DecodeError)
    } else {
        let g = decoded_grid(bytes)->Some_0;
        if g.len() == 0 || grid_width(g) == 0 {
            Err(RenderError::DecodeError)
        } else if size.columns == 0 || size.rows == 0 {
            Err(RenderError::InvalidDimensions)
        } else {
            let scaled = scaled_grid_spec(g, size, algo);
            if mode is Color {
                Ok(RenderView::Styled(color_rows_spec(scaled)))
            } else {
                Ok(RenderView::Plain(gray_rows_spec(scaled)))
            }
        }
    }
}

/// Decode, resample and compose one image for a terminal-cell budget.
///
/// On success the image holds exactly `size.columns × size.rows` cells
/// and its glyph rows are the function of the inputs that `render_spec`
/// names: rendering twice from identical inputs yields identical glyph
/// sequences.
pub fn render(bytes: &[u8], size: CellSize, algo: ScaleMode, mode: RenderMode) -> (r: Result<
    RenderedImage,
    RenderError,
>)
    requires
        size.columns <= u32::MAX,
        2 * size.rows <= u32::MAX,
    ensures
        match r {
            Ok(img) => {
                &&& render_spec(bytes@, size, algo, mode) == Ok::<RenderView, RenderError>(img@)
                &&& img.wf()
                &&& img.size == size
            },
            Err(e) => render_spec(bytes@, size, algo, mode) == Err::<RenderView, RenderError>(e),
        },
{
    if matches!(mode, RenderMode::Gui) {
        return Err(RenderError::UnimplementedMode);
    }
    let decoded = match decode_image(bytes) {
        Some(m) => m,
        None => {
            return Err(RenderError::DecodeError);
        },
    };
    if decoded.width == 0 || decoded.height == 0 {
        return Err(RenderError::DecodeError);
    }
    if size.columns == 0 || size.rows == 0 {
        return Err(RenderError::InvalidDimensions);
    }
    let target_width: usize = size.columns;
    let target_height: usize = 2 * size.rows;
    let ghost g = decoded_grid(bytes@)->Some_0;
    let ghost scaled = scaled_grid_spec(g, size, algo);
    let (matrix, source): (PixelMatrix, PixelSource) = match algo.try_into() {
        Ok(kernel) => {
            let resized = resize_matrix(
                &decoded,
                target_width as u32,
                target_height as u32,
                kernel,
            );
            (resized, PixelSource::Resampled)
        },
        Err(_) => {
            // The fast path materializes nothing: the compositor samples
            // the decoded matrix lazily.
            (
                decoded,
                PixelSource::LazyNearest { target_width, target_height },
            )
        },
    };
    proof {
        assert(effective_grid(matrix, source) == scaled);
        assert(effective_width(matrix, source) == target_width);
        assert(effective_height(matrix, source) == target_height);
    }
    match mode {
        RenderMode::Color => {
            let rows = compose_color(&matrix, source);
            let img = RenderedImage {
                renderable: ImageRenderable::Styled(rows),
                size,
            };
            Ok(img)
        },
        RenderMode::Grayscale => {
            let rows = match compose_gray(&matrix, source) {
                Ok(rows) => rows,
                Err(e) => {
                    return Err(e);
                },
            };
            let img = RenderedImage {
                renderable: ImageRenderable::Raw(rows),
                size,
            };
            Ok(img)
        },
        RenderMode::Gui => {
            return Err(RenderError::UnimplementedMode);
        },
    }
}

/// Rendering is idempotent: two images rendered from identical inputs
/// carry identical glyph sequences, because each equals the one result
/// `render_spec` names for those inputs.
pub proof fn lemma_render_idempotent(
    a: RenderedImage,
    b: RenderedImage,
    bytes: Seq<u8>,
    size: CellSize,
    algo: ScaleMode,
    mode: RenderMode,
)
    requires
        render_spec(bytes, size, algo, mode) == Ok::<RenderView, RenderError>(a@),
        render_spec(bytes, size, algo, mode) == Ok::<RenderView, RenderError>(b@),
    ensures
        a@ == b@,
{
}

} // verus!
