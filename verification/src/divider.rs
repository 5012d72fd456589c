use vstd::prelude::*;

verus! {

/// The direction a divider runs in.
#[derive(Debug, Clone, Copy, PartialEq, Eq, Structural)]
pub enum Orientation {
    Horizontal,
    Vertical,
}

/// A thin rule between panels, drawn as a repeated `-` or `|`.
#[derive(Debug, Clone, Copy)]
pub struct Divider {
    pub orientation: Orientation,
}

impl Divider {
    /// A divider running the given way.
    pub fn new(orientation: Orientation) -> (r: Divider)
        ensures
            r.orientation == orientation,
    {
        Divider { orientation }
    }

    /// A divider between stacked panels.
    pub fn horizontal() -> (r: Divider)
        ensures
            r.orientation == Orientation::Horizontal,
    {
        Self::new(Orientation::Horizontal)
    }

    /// A divider between side-by-side panels.
    pub fn vertical() -> (r: Divider)
        ensures
            r.orientation == Orientation::Vertical,
    {
        Self::new(Orientation::Vertical)
    }

    /// The glyph the divider repeats along its run.
    pub fn glyph(&self) -> (c: char)
        ensures
            c == if self.orientation is Horizontal {
                '-'
            } else {
                '|'
            },
    {
        match self.orientation {
            Orientation::Horizontal => '-',
            Orientation::Vertical => '|',
        }
    }
}

} // verus!
