use vstd::prelude::*;

use crate::luma::luma_to_glyph;
use crate::luma::gray_cell;
use crate::luma::pair_luma;
use crate::luma::rgb_to_luma;
use crate::pixel::Pixel;
use crate::pixel::PixelMatrix;
use crate::pixel::Rgb;
use crate::render::RenderError;
use crate::scale::fast_nearest_coord;
use crate::scale::lemma_nearest_exact_ratio;
use crate::scale::nearest_src_coord;

verus! {

/// One color-path cell: the lower half-block glyph, styled with
/// independent foreground and background colors.
#[derive(Debug, Clone, Copy, PartialEq, Eq, Structural)]
pub struct StyledGlyph {
    pub glyph: char,
    pub fg: Rgb,
    pub bg: Rgb,
}

/// How the compositor reads pixels out of a matrix: either the matrix
/// already has the target size (eager resampling ran), or it is the
/// original decoded matrix sampled lazily with nearest-neighbor
/// coordinates, as if it had been resized to the given target — no
/// intermediate matrix is ever materialized.
#[derive(Debug, Clone, Copy)]
pub enum PixelSource {
    Resampled,
    LazyNearest { target_width: usize, target_height: usize },
}

/// The width of a pixel grid: the length of its first row.
pub open spec fn grid_width(g: Seq<Seq<Pixel>>) -> int {
    if g.len() == 0 {
        0
    } else {
        g[0].len() as int
    }
}

/// The grid that lazy nearest-neighbor sampling stands for: each
/// destination cell reads the source pixel at the floored coordinates
/// `(⌊x·w/tw⌋, ⌊y·h/th⌋)`.
pub open spec fn lazy_nearest_grid(g: Seq<Seq<Pixel>>, tw: nat, th: nat) -> Seq<Seq<Pixel>> {
    Seq::new(
        th,
        |y: int|
            Seq::new(
                tw,
                |x: int|
                    g[nearest_src_coord(y, g.len() as int, th as int)][nearest_src_coord(
                        x,
                        grid_width(g),
                        tw as int,
                    )],
            ),
    )
}

/// Where both source dimensions are exact integer multiples of the
/// target dimensions, the lazy fast path reads exactly the
/// stride-aligned first pixel of each destination cell's own footprint
/// — the pixel a general nearest-neighbor filter selects at integer
/// ratios when ties resolve toward the lower index.
pub proof fn lemma_lazy_nearest_integer_ratio(
    g: Seq<Seq<Pixel>>,
    tw: nat,
    th: nat,
    x: int,
    y: int,
)
    requires
        0 < tw,
        0 < th,
        g.len() as int % (th as int) == 0,
        grid_width(g) % (tw as int) == 0,
        0 <= x < tw,
        0 <= y < th,
    ensures
        lazy_nearest_grid(g, tw, th)[y][x] == g[y * (g.len() as int / th as int)][x * (
        grid_width(g) / tw as int)],
{
    lemma_nearest_exact_ratio(y, g.len() as int, th as int);
    lemma_nearest_exact_ratio(x, grid_width(g), tw as int);
}

/// The matrix and sampling strategy fit together and sampling is
/// possible: the matrix is well-formed and non-empty, and a lazy
/// target fits the 32-bit coordinate space.
pub open spec fn source_wf(m: PixelMatrix, s: PixelSource) -> bool {
    &&& m.wf()
    &&& 0 < m.width
    &&& 0 < m.height
    &&& match s {
        PixelSource::Resampled => true,
        PixelSource::LazyNearest { target_width, target_height } => 0 < target_width
            <= u32::MAX && 0 < target_height <= u32::MAX,
    }
}

/// The pixel grid a source stands for.
pub open spec fn effective_grid(m: PixelMatrix, s: PixelSource) -> Seq<Seq<Pixel>> {
    match s {
        PixelSource::Resampled => m@,
        PixelSource::LazyNearest { target_width, target_height } => lazy_nearest_grid(
            m@,
            target_width as nat,
            target_height as nat,
        ),
    }
}

/// The width of the grid a source stands for.
pub open spec fn effective_width(m: PixelMatrix, s: PixelSource) -> int {
    match s {
        PixelSource::Resampled => m.width as int,
        PixelSource::LazyNearest { target_width, .. } => target_width as int,
    }
}

/// The height of the grid a source stands for.
pub open spec fn effective_height(m: PixelMatrix, s: PixelSource) -> int {
    match s {
        PixelSource::Resampled => m.height as int,
        PixelSource::LazyNearest { target_height, .. } => target_height as int,
    }
}

/// Read one pixel through a sampling strategy.
pub fn sample(m: &PixelMatrix, s: PixelSource, x: usize, y: usize) -> (p: Pixel)
    requires
        source_wf(*m, s),
        x < effective_width(*m, s),
        y < effective_height(*m, s),
    ensures
        p == effective_grid(*m, s)[y as int][x as int],
{
    match s {
        PixelSource::Resampled => m.get_pixel(x, y),
        PixelSource::LazyNearest { target_width, target_height } => {
            let sx: usize = fast_nearest_coord(x, m.width, target_width);
            let sy: usize = fast_nearest_coord(y, m.height, target_height);
            m.get_pixel(sx, sy)
        },
    }
}

/// Cell `(x, y)` of the color path: source row `2y` is the top half and
/// becomes the background, row `2y + 1` is the bottom half and becomes
/// the foreground; channel values pass through unmodified.
pub open spec fn color_cell(g: Seq<Seq<Pixel>>, x: int, y: int) -> StyledGlyph {
    StyledGlyph { glyph: '▄', fg: g[2 * y + 1][x].rgb_spec(), bg: g[2 * y][x].rgb_spec() }
}

/// The color path's full output: `⌊height/2⌋` rows of width-many styled
/// half-block glyphs; an odd trailing source row is dropped.
pub open spec fn color_rows_spec(g: Seq<Seq<Pixel>>) -> Seq<Seq<StyledGlyph>> {
    Seq::new(
        (g.len() / 2) as nat,
        |y: int| Seq::new(grid_width(g) as nat, |x: int| color_cell(g, x, y)),
    )
}

/// The grayscale path's full output: `⌊height/2⌋` rows of width-many
/// shade-ramp glyphs; an odd trailing source row is dropped.
pub open spec fn gray_rows_spec(g: Seq<Seq<Pixel>>) -> Seq<Seq<char>> {
    Seq::new(
        (g.len() / 2) as nat,
        |y: int| Seq::new(grid_width(g) as nat, |x: int| gray_cell(g, x, y)),
    )
}

/// Compose the color path: walk the sampled grid two rows at a time and
/// emit one styled half-block glyph per column, background from the top
/// pixel, foreground from the bottom pixel.
pub fn compose_color(m: &PixelMatrix, s: PixelSource) -> (rows: Vec<Vec<StyledGlyph>>)
    requires
        source_wf(*m, s),
    ensures
        rows@.map_values(|row: Vec<StyledGlyph>| row@) == color_rows_spec(effective_grid(*m, s)),
        rows@.len() == effective_height(*m, s) / 2,
        forall|y: int| 0 <= y < rows@.len() ==> #[trigger] rows@[y]@.len() == effective_width(*m, s),
{
    let ghost g = effective_grid(*m, s);
    let w: usize = match s {
        PixelSource::Resampled => m.width,
        PixelSource::LazyNearest { target_width, .. } => target_width,
    };
    let h: usize = match s {
        PixelSource::Resampled => m.height,
        PixelSource::LazyNearest { target_height, .. } => target_height,
    };
    proof {
        assert(g.len() == h);
        assert(grid_width(g) == w);
    }
    let half: usize = h / 2;
    let mut rows: Vec<Vec<StyledGlyph>> = Vec::new();
    for y in 0..half
        invariant
            source_wf(*m, s),
            g == effective_grid(*m, s),
            w == effective_width(*m, s),
            h == effective_height(*m, s),
            half == h / 2,
            rows@.len() == y,
            forall|j: int| 0 <= j < y ==> #[trigger] rows@[j]@ == color_rows_spec(g)[j],
    {
        let mut row: Vec<StyledGlyph> = Vec::new();
        for x in 0..w
            invariant
                source_wf(*m, s),
                g == effective_grid(*m, s),
                w == effective_width(*m, s),
                h == effective_height(*m, s),
                half == h / 2,
                y < half,
                row@.len() == x,
                forall|i: int| 0 <= i < x ==> #[trigger] row@[i] == color_cell(g, i, y as int),
        {
            let top = sample(m, s, x, 2 * y);
            let bottom = sample(m, s, x, 2 * y + 1);
            row.push(StyledGlyph { glyph: '▄', fg: bottom.rgb(), bg: top.rgb() });
        }
        proof {
            assert(row@ =~= color_rows_spec(g)[y as int]);
        }
        rows.push(row);
    }
    proof {
        assert(rows@.map_values(|row: Vec<StyledGlyph>| row@) =~~= color_rows_spec(g));
    }
    rows
}

/// Compose the grayscale path: walk the sampled grid two rows at a
/// time, average each column pair's luma, and emit one shade-ramp glyph
/// per column. The defensive `InvalidLuma` check is proved never to
/// fire for 8-bit channels, so the result is always `Ok`.
pub fn compose_gray(m: &PixelMatrix, s: PixelSource) -> (r: Result<Vec<Vec<char>>, RenderError>)
    requires
        source_wf(*m, s),
    ensures
        r is Ok,
        ({
            let rows = r->Ok_0;
            &&& rows@.map_values(|row: Vec<char>| row@) == gray_rows_spec(effective_grid(*m, s))
            &&& rows@.len() == effective_height(*m, s) / 2
            &&& forall|y: int|
                0 <= y < rows@.len() ==> #[trigger] rows@[y]@.len() == effective_width(*m, s)
        }),
{
    let ghost g = effective_grid(*m, s);
    let w: usize = match s {
        PixelSource::Resampled => m.width,
        PixelSource::LazyNearest { target_width, .. } => target_width,
    };
    let h: usize = match s {
        PixelSource::Resampled => m.height,
        PixelSource::LazyNearest { target_height, .. } => target_height,
    };
    proof {
        assert(g.len() == h);
        assert(grid_width(g) == w);
    }
    let half: usize = h / 2;
    let mut rows: Vec<Vec<char>> = Vec::new();
    for y in 0..half
        invariant
            source_wf(*m, s),
            g == effective_grid(*m, s),
            w == effective_width(*m, s),
            h == effective_height(*m, s),
            half == h / 2,
            rows@.len() == y,
            forall|j: int| 0 <= j < y ==> #[trigger] rows@[j]@ == gray_rows_spec(g)[j],
    {
        let mut row: Vec<char> = Vec::new();
        for x in 0..w
            invariant
                source_wf(*m, s),
                g == effective_grid(*m, s),
                w == effective_width(*m, s),
                h == effective_height(*m, s),
                half == h / 2,
                y < half,
                row@.len() == x,
                forall|i: int| 0 <= i < x ==> #[trigger] row@[i] == gray_cell(g, i, y as int),
        {
            let top = sample(m, s, x, 2 * y);
            let bottom = sample(m, s, x, 2 * y + 1);
            let top_luma: u32 = rgb_to_luma(top);
            let bottom_luma: u32 = rgb_to_luma(bottom);
            let averaged: u32 = (top_luma + bottom_luma) / 2;
            proof {
                assert(averaged == pair_luma(g[2 * (y as int)][x as int], g[2 * (y as int)
                    + 1][x as int]));
            }
            match luma_to_glyph(averaged) {
                Ok(c) => row.push(c),
                Err(e) => {
                    return Err(e);
                },
            }
        }
        proof {
            assert(row@ =~= gray_rows_spec(g)[y as int]);
        }
        rows.push(row);
    }
    proof {
        assert(rows@.map_values(|row: Vec<char>| row@) =~~= gray_rows_spec(g));
    }
    Ok(rows)
}

} // verus!
