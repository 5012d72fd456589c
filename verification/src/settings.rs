use vstd::prelude::*;

use crate::chan::BoardsResponse;
use crate::render::RenderMode;
use crate::scale::ScaleMode;

verus! {

/// The running client's settings, together with the board directory it
/// loaded at startup.
#[derive(Debug)]
pub struct SettingsAndData {
    /// Whether boards that are not work-safe are listed.
    pub show_nsfw: bool,
    /// Which compositor path thumbnails render through.
    pub render_mode: RenderMode,
    /// Which resampling strategy thumbnails scale with.
    pub scale_mode: ScaleMode,
    /// The board directory.
    pub boards: BoardsResponse,
}

} // verus!
