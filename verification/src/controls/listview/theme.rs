//! The derived, overridable list palette: a view over [`Theme`].

use vstd::prelude::*;

use crate::color::{mix_channel_spec, Color};
use crate::theme::Theme;

verus! {

/// Colours used while owner-drawing the list.
#[derive(Clone, Copy, Debug, PartialEq, Eq, Structural)]
pub struct ListViewTheme {
    /// Even-row background.
    pub background: Color,
    /// Odd-row background (the subtle zebra shade).
    pub alternate: Color,
    /// Normal cell text.
    pub text: Color,
    /// Selected-row background while the list has focus.
    pub selection: Color,
    /// Selected-row background while the list does not have focus.
    pub selection_unfocused: Color,
    /// Background of the currently playing row.
    pub playing: Color,
    /// Text colour on the playing row.
    pub on_playing: Color,
    /// Column-separator colour.
    pub border: Color,
    /// Header background.
    pub header_background: Color,
    /// Header label colour.
    pub header_text: Color,
}

/// `a` moved 4% of the way towards `b`.
pub open spec fn zebra_of(a: Color, b: Color) -> Color {
    Color {
        r: mix_channel_spec(a.r, b.r, 1, 25) as u8,
        g: mix_channel_spec(a.g, b.g, 1, 25) as u8,
        b: mix_channel_spec(a.b, b.b, 1, 25) as u8,
    }
}

impl ListViewTheme {
    /// The palette [`from_theme`](ListViewTheme::from_theme) derives.
    pub open spec fn from_theme_spec(theme: Theme) -> ListViewTheme {
        ListViewTheme {
            background: theme.background,
            alternate: zebra_of(theme.background, theme.text),
            text: theme.text,
            selection: theme.selection,
            selection_unfocused: theme.selection_unfocused,
            playing: theme.accent,
            on_playing: theme.text_on_accent,
            border: theme.border,
            header_background: theme.surface,
            header_text: theme.text_secondary,
        }
    }

    /// Derives a list palette from the app [`Theme`]: a subtle two-shade
    /// zebra (the background moved 4% towards the text), the theme's focused
    /// and unfocused selections for selected rows, the accent (with text on
    /// top) for the playing row, the border for separators, and the surface
    /// and secondary text for the header.
    pub fn from_theme(theme: &Theme) -> (t: ListViewTheme)
        ensures
            t.background == theme.background,
            t.alternate == zebra_of(theme.background, theme.text),
            t.text == theme.text,
            t.selection == theme.selection,
            t.selection_unfocused == theme.selection_unfocused,
            t.playing == theme.accent,
            t.on_playing == theme.text_on_accent,
            t.border == theme.border,
            t.header_background == theme.surface,
            t.header_text == theme.text_secondary,
            t == Self::from_theme_spec(*theme),
    {
        ListViewTheme {
            background: theme.background,
            alternate: theme.background.mix(theme.text, 1, 25),
            text: theme.text,
            selection: theme.selection,
            selection_unfocused: theme.selection_unfocused,
            playing: theme.accent,
            on_playing: theme.text_on_accent,
            border: theme.border,
            header_background: theme.surface,
            header_text: theme.text_secondary,
        }
    }

    /// The `(background, text)` colours for one row. The playing row wins
    /// over selection and is the only state that swaps the text colour; a
    /// selected row keeps the normal text and swaps only its background
    /// (`selection` while the list has focus, else `selection_unfocused`);
    /// other rows alternate the zebra shades when `striped`.
    pub fn row_colors(&self, selected: bool, focused: bool, playing: bool, striped: bool) -> (c: (Color, Color))
        ensures
            playing ==> c == (self.playing, self.on_playing),
            !playing && selected ==> c == (if focused { self.selection } else { self.selection_unfocused }, self.text),
            !playing && !selected ==> c == (if striped { self.alternate } else { self.background }, self.text),
    {
        if playing {
            return (self.playing, self.on_playing);
        }
        if selected {
            let background = if focused { self.selection } else { self.selection_unfocused };
            return (background, self.text);
        }
        let background = if striped { self.alternate } else { self.background };
        (background, self.text)
    }
}

} // verus!
