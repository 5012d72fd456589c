use chan_tui::CellSize;
use chan_tui::ConversionError;
use chan_tui::FilterKernel;
use chan_tui::Pixel;
use chan_tui::PixelMatrix;
use chan_tui::PixelSource;
use chan_tui::RenderError;
use chan_tui::RenderMode;
use chan_tui::ScaleMode;
use chan_tui::StyledGlyph;
use chan_tui::compose_color;
use chan_tui::compose_gray;
use chan_tui::fast_nearest_coord;
use chan_tui::luma_to_glyph;
use chan_tui::render;
use chan_tui::rgb_to_luma;

/// Encode a pixel grid (row-major RGBA tuples) as PNG bytes.
fn png_bytes(w: u32, h: u32, px: &[(u8, u8, u8, u8)]) -> Vec<u8> {
    assert_eq!(px.len() as u32, w * h);
    let mut img = image::RgbaImage::new(w, h);
    for (i, p) in px.iter().enumerate() {
        let x = i as u32 % w;
        let y = i as u32 / w;
        img.put_pixel(x, y, image::Rgba([p.0, p.1, p.2, p.3]));
    }
    let mut out = std::io::Cursor::new(Vec::new());
    img.write_to(&mut out, image::ImageFormat::Png).unwrap();
    out.into_inner()
}

fn red_png(w: u32, h: u32) -> Vec<u8> {
    png_bytes(w, h, &vec![(255, 0, 0, 255); (w * h) as usize])
}

#[test]
fn required_size_matches_cell_budget() {
    let bytes = red_png(8, 8);
    let img = render(
        &bytes,
        CellSize { columns: 4, rows: 2 },
        ScaleMode::Nearest,
        RenderMode::Color,
    )
    .unwrap();
    let size = img.required_size();
    assert_eq!(size.columns, 4);
    assert_eq!(size.rows, 2);
    assert!(img.styled_row(0).is_some());
    assert!(img.styled_row(1).is_some());
    assert!(img.styled_row(2).is_none());
    assert_eq!(img.styled_row(0).unwrap().len(), 4);
    assert_eq!(img.styled_row(1).unwrap().len(), 4);
}

#[test]
fn render_is_idempotent() {
    let bytes = png_bytes(
        3,
        3,
        &[
            (1, 2, 3, 255),
            (40, 50, 60, 255),
            (70, 80, 90, 255),
            (100, 110, 120, 255),
            (130, 140, 150, 255),
            (160, 170, 180, 255),
            (190, 200, 210, 255),
            (220, 230, 240, 255),
            (250, 251, 252, 255),
        ],
    );
    let size = CellSize { columns: 2, rows: 1 };
    let a = render(&bytes, size, ScaleMode::Lanczos, RenderMode::Color).unwrap();
    let b = render(&bytes, size, ScaleMode::Lanczos, RenderMode::Color).unwrap();
    assert_eq!(a.styled_row(0).unwrap(), b.styled_row(0).unwrap());
    let c = render(&bytes, size, ScaleMode::Gaussian, RenderMode::Grayscale).unwrap();
    let d = render(&bytes, size, ScaleMode::Gaussian, RenderMode::Grayscale).unwrap();
    assert_eq!(c.plain_row(0).unwrap(), d.plain_row(0).unwrap());
}

#[test]
fn fast_nearest_agrees_with_nearest_on_integer_ratio() {
    // Four uniform 2x2 blocks: any nearest-neighbor sampler must pick a
    // pixel of the destination cell's own block.
    let tl = (10, 20, 30, 255);
    let tr = (40, 50, 60, 255);
    let bl = (70, 80, 90, 255);
    let br = (100, 110, 120, 255);
    let bytes = png_bytes(
        4,
        4,
        &[tl, tl, tr, tr, tl, tl, tr, tr, bl, bl, br, br, bl, bl, br, br],
    );
    let size = CellSize { columns: 2, rows: 1 };
    let fast = render(&bytes, size, ScaleMode::FastNearest, RenderMode::Color).unwrap();
    let exact = render(&bytes, size, ScaleMode::Nearest, RenderMode::Color).unwrap();
    let fast_row = fast.styled_row(0).unwrap();
    let exact_row = exact.styled_row(0).unwrap();
    assert_eq!(fast_row, exact_row);
    assert_eq!(fast_row[0].bg.r, 10);
    assert_eq!(fast_row[0].fg.r, 70);
    assert_eq!(fast_row[1].bg.r, 40);
    assert_eq!(fast_row[1].fg.r, 100);
}

#[test]
fn fast_nearest_coordinate_selection() {
    // Floor semantics: ties and fractions resolve toward the lower index.
    assert_eq!(fast_nearest_coord(0, 8, 4), 0);
    assert_eq!(fast_nearest_coord(1, 8, 4), 2);
    assert_eq!(fast_nearest_coord(3, 8, 4), 6);
    assert_eq!(fast_nearest_coord(1, 3, 2), 1);
    assert_eq!(fast_nearest_coord(2, 3, 7), 0);
}

#[test]
fn grayscale_ramp_boundaries() {
    assert_eq!(luma_to_glyph(0), Ok(' '));
    assert_eq!(luma_to_glyph(51), Ok(' '));
    assert_eq!(luma_to_glyph(52), Ok('░'));
    assert_eq!(luma_to_glyph(102), Ok('░'));
    assert_eq!(luma_to_glyph(103), Ok('▒'));
    assert_eq!(luma_to_glyph(153), Ok('▒'));
    assert_eq!(luma_to_glyph(154), Ok('▓'));
    assert_eq!(luma_to_glyph(204), Ok('▓'));
    assert_eq!(luma_to_glyph(205), Ok('█'));
    assert_eq!(luma_to_glyph(255), Ok('█'));
    assert_eq!(luma_to_glyph(256), Err(RenderError::InvalidLuma));
    assert_eq!(luma_to_glyph(100000), Err(RenderError::InvalidLuma));
}

#[test]
fn luma_weighting() {
    assert_eq!(rgb_to_luma(Pixel { r: 255, g: 0, b: 0, a: 255 }), 54);
    assert_eq!(rgb_to_luma(Pixel { r: 0, g: 255, b: 0, a: 255 }), 182);
    assert_eq!(rgb_to_luma(Pixel { r: 0, g: 0, b: 255, a: 0 }), 18);
    assert_eq!(rgb_to_luma(Pixel { r: 255, g: 255, b: 255, a: 255 }), 255);
    assert_eq!(rgb_to_luma(Pixel { r: 0, g: 0, b: 0, a: 255 }), 0);
}

#[test]
fn odd_source_height_drops_trailing_row() {
    // A 2x7 matrix composes to exactly 3 rows; row 6 is never read.
    let data = vec![128u8; 2 * 7 * 4];
    let m = PixelMatrix::new(2, 7, data).unwrap();
    let rows = compose_color(&m, PixelSource::Resampled);
    assert_eq!(rows.len(), 3);
    assert_eq!(rows[0].len(), 2);
    let gray = compose_gray(&m, PixelSource::Resampled).unwrap();
    assert_eq!(gray.len(), 3);
    assert_eq!(gray[0].len(), 2);
}

#[test]
fn all_red_color_render() {
    let bytes = red_png(4, 4);
    let img = render(
        &bytes,
        CellSize { columns: 4, rows: 2 },
        ScaleMode::Nearest,
        RenderMode::Color,
    )
    .unwrap();
    for y in 0..2 {
        let row = img.styled_row(y).unwrap();
        assert_eq!(row.len(), 4);
        for cell in row {
            assert_eq!(cell.glyph, '▄');
            assert_eq!((cell.bg.r, cell.bg.g, cell.bg.b), (255, 0, 0));
            assert_eq!((cell.fg.r, cell.fg.g, cell.fg.b), (255, 0, 0));
        }
    }
}

#[test]
fn all_red_grayscale_render() {
    let bytes = red_png(4, 4);
    let img = render(
        &bytes,
        CellSize { columns: 4, rows: 2 },
        ScaleMode::Nearest,
        RenderMode::Grayscale,
    )
    .unwrap();
    for y in 0..2 {
        let row = img.plain_row(y).unwrap();
        assert_eq!(row.len(), 4);
        for glyph in row {
            // Pure red's luma is 54, inside the light-shade bucket.
            assert_eq!(*glyph, '░');
        }
    }
}

#[test]
fn gui_mode_always_unimplemented() {
    let bytes = red_png(2, 2);
    let r = render(
        &bytes,
        CellSize { columns: 2, rows: 1 },
        ScaleMode::Nearest,
        RenderMode::Gui,
    );
    assert_eq!(r.unwrap_err(), RenderError::UnimplementedMode);
    // Even on undecodable bytes and a zero budget, the mode fails first.
    let r = render(
        b"garbage",
        CellSize { columns: 0, rows: 0 },
        ScaleMode::FastNearest,
        RenderMode::Gui,
    );
    assert_eq!(r.unwrap_err(), RenderError::UnimplementedMode);
    assert_eq!(RenderError::UnimplementedMode.describe(), "UnimplementedMode");
    assert_eq!(RenderError::DecodeError.describe(), "DecodeError");
    assert_eq!(RenderError::InvalidDimensions.describe(), "InvalidDimensions");
    assert_eq!(RenderError::InvalidLuma.describe(), "InvalidLuma");
}

#[test]
fn grayscale_fast_path_exact_glyphs() {
    // Luma pairs: (255 white + 0 black)/2 = 127 -> medium shade;
    // (54 red + 182 green)/2 = 118 -> medium shade; a dark pair lands
    // in the blank bucket and a bright pair in the full block.
    let px = [
        (255, 255, 255, 255),
        (255, 0, 0, 255),
        (40, 40, 40, 255),
        (230, 230, 230, 255),
        (0, 0, 0, 255),
        (0, 255, 0, 255),
        (60, 60, 60, 255),
        (250, 250, 250, 255),
    ];
    let bytes = png_bytes(4, 2, &px);
    let img = render(
        &bytes,
        CellSize { columns: 4, rows: 1 },
        ScaleMode::FastNearest,
        RenderMode::Grayscale,
    )
    .unwrap();
    let row = img.plain_row(0).unwrap();
    assert_eq!(row.as_slice(), &['▒', '▒', ' ', '█']);
}

#[test]
fn decode_failure_is_fatal() {
    let r = render(
        b"not an image at all",
        CellSize { columns: 2, rows: 1 },
        ScaleMode::Nearest,
        RenderMode::Color,
    );
    assert_eq!(r.unwrap_err(), RenderError::DecodeError);
}

#[test]
fn zero_cell_budget_is_rejected() {
    let bytes = red_png(2, 2);
    for size in [
        CellSize { columns: 0, rows: 1 },
        CellSize { columns: 1, rows: 0 },
        CellSize { columns: 0, rows: 0 },
    ] {
        let r = render(&bytes, size, ScaleMode::Nearest, RenderMode::Color);
        assert_eq!(r.unwrap_err(), RenderError::InvalidDimensions);
    }
}

#[test]
fn decode_feeds_exact_pixels_through_fast_path() {
    // At a 1:1 ratio the lazy sampler is the identity, so the rendered
    // cells expose the decoded pixels themselves.
    let px = [
        (11, 22, 33, 255),
        (44, 55, 66, 255),
        (77, 88, 99, 255),
        (111, 122, 133, 255),
    ];
    let bytes = png_bytes(2, 2, &px);
    let img = render(
        &bytes,
        CellSize { columns: 2, rows: 1 },
        ScaleMode::FastNearest,
        RenderMode::Color,
    )
    .unwrap();
    let row = img.styled_row(0).unwrap();
    assert_eq!(
        row[0],
        StyledGlyph {
            glyph: '▄',
            fg: chan_tui::Rgb { r: 77, g: 88, b: 99 },
            bg: chan_tui::Rgb { r: 11, g: 22, b: 33 },
        }
    );
    assert_eq!(
        row[1],
        StyledGlyph {
            glyph: '▄',
            fg: chan_tui::Rgb { r: 111, g: 122, b: 133 },
            bg: chan_tui::Rgb { r: 44, g: 55, b: 66 },
        }
    );
}

#[test]
fn scale_mode_kernel_translation() {
    assert_eq!(ScaleMode::Nearest.try_into(), Ok(FilterKernel::Nearest));
    assert_eq!(ScaleMode::Linear.try_into(), Ok(FilterKernel::Triangle));
    assert_eq!(ScaleMode::Cubic.try_into(), Ok(FilterKernel::CatmullRom));
    assert_eq!(ScaleMode::Gaussian.try_into(), Ok(FilterKernel::Gaussian));
    assert_eq!(ScaleMode::Lanczos.try_into(), Ok(FilterKernel::Lanczos3));
    assert_eq!(
        ScaleMode::FastNearest.try_into(),
        Err(ConversionError::InvalidMode)
    );
    assert_eq!(ConversionError::InvalidMode.describe(), "InvalidMode");
}

#[test]
fn grayscale_render_through_every_kernel() {
    let bytes = red_png(6, 6);
    for mode in [
        ScaleMode::Nearest,
        ScaleMode::Linear,
        ScaleMode::Cubic,
        ScaleMode::Gaussian,
        ScaleMode::Lanczos,
        ScaleMode::FastNearest,
    ] {
        let img = render(
            &bytes,
            CellSize { columns: 3, rows: 2 },
            mode,
            RenderMode::Grayscale,
        )
        .unwrap();
        let size = img.required_size();
        assert_eq!((size.columns, size.rows), (3, 2));
        assert!(!img.is_styled());
    }
}
