//! Terminal rendering of raster images as character-cell glyph grids,
//! with the surrounding image-board client logic.
//!
//! The core of the crate is the rendering engine: it decodes compressed
//! image bytes, resamples the pixel grid to a terminal-cell budget —
//! through a general convolution resampler or through a lazy
//! nearest-neighbor fast path — and composes printable glyph rows,
//! either as styled half-block glyphs carrying independent
//! foreground/background colors or as a plain luma-ramp shade
//! sequence. Around it stand the client's data model, the watch-config
//! parser, the board-list builder, the key-driven board selection, and
//! the watch daemon's state machine. I/O, deserialization and terminal
//! plumbing live outside this crate and hand plain values in and out.

mod chan;
mod compose;
mod config;
mod divider;
mod imaging;
mod luma;
mod pixel;
mod render;
mod scale;
mod select;
mod settings;
mod watch;

pub use chan::AttachmentData;
pub use chan::Board;
pub use chan::BoardsResponse;
pub use chan::CatalogPage;
pub use chan::OpData;
pub use chan::Post;
pub use chan::Thread;
pub use chan::board_entries_spec;
pub use chan::board_label_spec;
pub use chan::board_list_entries;
pub use chan::get_threads_for_board;
pub use chan::opt_int_to_bool;
pub use compose::PixelSource;
pub use compose::StyledGlyph;
pub use compose::color_cell;
pub use compose::color_rows_spec;
pub use compose::compose_color;
pub use compose::compose_gray;
pub use compose::effective_grid;
pub use compose::effective_height;
pub use compose::effective_width;
pub use compose::gray_rows_spec;
pub use compose::grid_width;
pub use compose::lazy_nearest_grid;
pub use compose::lemma_lazy_nearest_integer_ratio;
pub use compose::sample;
pub use compose::source_wf;
pub use config::ThreadConfig;
pub use config::find_char_from;
pub use config::find_from;
pub use config::find_space_from;
pub use config::first_space_from;
pub use config::get_unix_epoch;
pub use config::is_space;
pub use config::is_space_char;
pub use config::line_entries_spec;
pub use config::load_config;
pub use config::parse_config_from;
pub use config::parse_config_spec;
pub use config::parse_line_spec;
pub use config::parse_target_spec;
pub use config::trim_end_spec;
pub use config::trim_spec;
pub use config::trim_start_spec;
pub use config::trim_str;
pub use divider::Divider;
pub use divider::Orientation;
pub use imaging::decoded_grid;
pub use imaging::kernel_id;
pub use imaging::resampled_grid;
pub use luma::gray_cell;
pub use luma::luma_spec;
pub use luma::luma_to_glyph;
pub use luma::pair_luma;
pub use luma::ramp_char;
pub use luma::rgb_to_luma;
pub use pixel::CellSize;
pub use pixel::Pixel;
pub use pixel::PixelMatrix;
pub use pixel::Rgb;
pub use render::ImageRenderable;
pub use render::RenderError;
pub use render::RenderMode;
pub use render::RenderView;
pub use render::RenderedImage;
pub use render::lemma_render_idempotent;
pub use render::render;
pub use render::render_spec;
pub use render::scaled_grid_spec;
pub use scale::ConversionError;
pub use scale::FilterKernel;
pub use scale::ScaleMode;
pub use scale::fast_nearest_coord;
pub use scale::lemma_nearest_exact_ratio;
pub use scale::nearest_src_coord;
pub use select::chained_labels;
pub use select::first_match_at;
pub use select::label_matches;
pub use select::label_views;
pub use select::lower_of;
pub use select::matches_key;
pub use select::select_board_index;
pub use select::select_board_spec;
pub use select::skip_slashes;
pub use settings::SettingsAndData;
pub use watch::WatchState;
