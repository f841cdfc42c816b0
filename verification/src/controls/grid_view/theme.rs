//! The derived colour palette of the grid.

use vstd::prelude::*;

use crate::color::Color;
use crate::theme::Theme;

verus! {

/// Colours for the grid's own chrome: the tile fill the widget paints behind
/// the app's content painter.
#[derive(Clone, Copy, Debug, PartialEq, Eq, Structural)]
pub struct GridViewTheme {
    /// The viewport background, behind every tile.
    pub background: Color,
    /// The fill painted behind the selected tile.
    pub selection: Color,
    /// The fill painted behind a hovered (not selected) tile.
    pub hover: Color,
}

impl GridViewTheme {
    /// Derives a palette from the app [`Theme`]: the background, selection and
    /// hover tokens.
    pub fn from_theme(theme: &Theme) -> (g: GridViewTheme)
        ensures
            g.background == theme.background,
            g.selection == theme.selection,
            g.hover == theme.hover,
    {
        GridViewTheme { background: theme.background, selection: theme.selection, hover: theme.hover }
    }

    /// The fill behind a tile in `state`, if any: the selection wins over the
    /// hover, and a plain tile gets none.
    pub fn tile_fill(&self, selected: bool, hovered: bool) -> (fill: Option<Color>)
        ensures
            selected ==> fill == Some(self.selection),
            !selected && hovered ==> fill == Some(self.hover),
            !selected && !hovered ==> fill is None,
    {
        if selected {
            Some(self.selection)
        } else if hovered {
            Some(self.hover)
        } else {
            None
        }
    }
}

} // verus!
