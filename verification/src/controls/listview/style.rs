//! Row appearance: the optional [`RowStyle`] overrides of the theme for one
//! row, and the [`RowState`] a row is painted in.

use vstd::prelude::*;

use crate::color::Color;

verus! {

/// Optional, semantic overrides of the theme for one row. Every field is
/// `None` (or `false`) by default, which keeps the theme's look.
#[derive(Clone, Copy, Debug, Default, PartialEq, Eq, Structural)]
pub struct RowStyle {
    /// Draws the row's text bold.
    pub bold: bool,
    /// Overrides the row's text colour.
    pub text: Option<Color>,
    /// Overrides the row's background colour.
    pub background: Option<Color>,
    /// Paints a thin bar along the row's left edge in this colour.
    pub accent_bar: Option<Color>,
}

impl RowStyle {
    /// The default style: theme colours, regular weight, no accent bar.
    pub fn new() -> (s: RowStyle)
        ensures
            s == (RowStyle { bold: false, text: None, background: None, accent_bar: None }),
    {
        RowStyle { bold: false, text: None, background: None, accent_bar: None }
    }

    /// Draws the row bold (or not).
    pub fn bold(self, bold: bool) -> (s: RowStyle)
        ensures
            s == (RowStyle { bold, ..self }),
    {
        RowStyle { bold, ..self }
    }

    /// Overrides the row's text colour.
    pub fn text(self, color: Color) -> (s: RowStyle)
        ensures
            s == (RowStyle { text: Some(color), ..self }),
    {
        RowStyle { text: Some(color), ..self }
    }

    /// Overrides the row's background colour.
    pub fn background(self, color: Color) -> (s: RowStyle)
        ensures
            s == (RowStyle { background: Some(color), ..self }),
    {
        RowStyle { background: Some(color), ..self }
    }

    /// Paints a left-edge accent bar in `color`.
    pub fn accent_bar(self, color: Color) -> (s: RowStyle)
        ensures
            s == (RowStyle { accent_bar: Some(color), ..self }),
    {
        RowStyle { accent_bar: Some(color), ..self }
    }
}

/// The state of one row at paint time.
#[derive(Clone, Copy, Debug, Default, PartialEq, Eq, Structural)]
pub struct RowState {
    /// Whether the row is selected.
    pub selected: bool,
    /// Whether the list view itself has the keyboard focus.
    pub focused: bool,
    /// Whether the pointer is hovering the row.
    pub hot: bool,
    /// Whether this is an odd row, for zebra striping.
    pub alternate: bool,
}

} // verus!
