use vstd::prelude::*;

verus! {

/// One RGBA pixel; channel values run 0..=255. The alpha channel is
/// carried through decoding and resampling but ignored by every
/// compositor.
#[derive(Clone, Copy, Debug, PartialEq, Eq, Structural)]
pub struct Pixel {
    pub r: u8,
    pub g: u8,
    pub b: u8,
    pub a: u8,
}

/// An opaque RGB color, as placed behind or in front of a glyph.
#[derive(Clone, Copy, Debug, PartialEq, Eq, Structural)]
pub struct Rgb {
    pub r: u8,
    pub g: u8,
    pub b: u8,
}

impl Pixel {
    /// The pixel's color with the alpha channel dropped.
    pub open spec fn rgb_spec(self) -> Rgb {
        Rgb { r: self.r, g: self.g, b: self.b }
    }

    /// Drop the alpha channel.
    pub fn rgb(&self) -> (c: Rgb)
        ensures
            c == self.rgb_spec(),
    {
        Rgb { r: self.r, g: self.g, b: self.b }
    }
}

/// The terminal-cell budget a caller asks the renderer to fill:
/// `columns` glyphs across, `rows` glyph lines down.
#[derive(Clone, Copy, Debug, PartialEq, Eq, Structural)]
pub struct CellSize {
    pub columns: usize,
    pub rows: usize,
}

/// An owned 2-D grid of RGBA pixels, stored row-major as flat
/// interleaved channel bytes (four bytes per pixel).
pub struct PixelMatrix {
    pub width: usize,
    pub height: usize,
    pub data: Vec<u8>,
}

impl View for PixelMatrix {
    type V = Seq<Seq<Pixel>>;

    /// A matrix is viewed as its rows, top to bottom, each a sequence
    /// of pixels left to right.
    open spec fn view(&self) -> Seq<Seq<Pixel>> {
        Seq::new(
            self.height as nat,
            |y: int| Seq::new(self.width as nat, |x: int| self.pix(x, y)),
        )
    }
}

impl PixelMatrix {
    /// Well-formed: dimensions fit the decoder's 32-bit coordinate space
    /// and the byte buffer holds exactly four channels per pixel.
    pub open spec fn wf(self) -> bool {
        &&& self.width <= u32::MAX
        &&& self.height <= u32::MAX
        &&& self.data@.len() == 4 * (self.width * self.height)
    }

    /// The pixel stored at column `x` of row `y`.
    pub open spec fn pix(self, x: int, y: int) -> Pixel {
        let base = 4 * (y * self.width + x);
        Pixel {
            r: self.data@[base],
            g: self.data@[base + 1],
            b: self.data@[base + 2],
            a: self.data@[base + 3],
        }
    }

    /// Build a matrix from flat RGBA bytes; `None` exactly when the
    /// dimensions and the buffer length do not agree.
    pub fn new(width: usize, height: usize, data: Vec<u8>) -> (r: Option<PixelMatrix>)
        ensures
            match r {
                Some(m) => {
                    &&& m.wf()
                    &&& m.width == width
                    &&& m.height == height
                    &&& m.data@ == data@
                },
                None => !(width <= u32::MAX && height <= u32::MAX && data@.len()
                    == 4 * (width * height)),
            },
    {
        if width as u64 <= u32::MAX as u64 && height as u64 <= u32::MAX as u64 {
            proof {
                assert((width as u128) * (height as u128) < 0x4000_0000_0000_0000_0000_0000_0000_0000u128)
                    by (nonlinear_arith)
                    requires
                        width <= u32::MAX,
                        height <= u32::MAX,
                ;
            }
            let need: u128 = 4u128 * ((width as u128) * (height as u128));
            if data.len() as u128 == need {
                Some(PixelMatrix { width, height, data })
            } else {
                None
            }
        } else {
            None
        }
    }

    /// Read the pixel at column `x` of row `y`.
    pub fn get_pixel(&self, x: usize, y: usize) -> (p: Pixel)
        requires
            self.wf(),
            x < self.width,
            y < self.height,
        ensures
            p == self.pix(x as int, y as int),
    {
        proof {
            // The buffer fits the address space, so the flat index and
            // its arithmetic stay inside usize.
            vstd::std_specs::vec::axiom_spec_len(&self.data);
            lemma_row_major_index_bound(
                self.width as int,
                self.height as int,
                x as int,
                y as int,
            );
            assert((y as int) * (self.width as int) + (x as int) < (self.width as int) * (
            self.height as int));
            assert(4 * ((self.width as int) * (self.height as int)) == self.data@.len());
            assert(4 * ((y as int) * (self.width as int) + (x as int)) + 3 < self.data@.len());
        }
        let base: usize = 4 * (y * self.width + x);
        Pixel {
            r: self.data[base],
            g: self.data[base + 1],
            b: self.data[base + 2],
            a: self.data[base + 3],
        }
    }
}

/// A cell inside a grid lies strictly inside the grid's flat buffer.
pub proof fn lemma_row_major_index_bound(w: int, h: int, x: int, y: int)
    requires
        0 <= x < w,
        0 <= y < h,
    ensures
        0 <= y * w + x < w * h,
        4 * (y * w + x) + 3 < 4 * (w * h),
{
    assert(0 <= y * w + x < w * h) by (nonlinear_arith)
        requires
            0 <= x < w,
            0 <= y < h,
    ;
}

} // verus!
