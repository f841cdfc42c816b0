//! The semantic colour tokens every widget paints from, in a light and a dark
//! palette.

use vstd::prelude::*;

use crate::color::Color;

verus! {

/// A set of semantic colour tokens. Widgets derive their own palettes from
/// these, so switching the theme re-colours every widget consistently.
#[derive(Clone, Copy, Debug, PartialEq, Eq, Structural)]
pub struct Theme {
    /// Whether this is a dark theme.
    pub is_dark: bool,
    /// The window and viewport background.
    pub background: Color,
    /// A slightly offset surface (headers, panes).
    pub surface: Color,
    /// Raised surfaces (menus, popups).
    pub raised: Color,
    /// Primary text.
    pub text: Color,
    /// De-emphasised text.
    pub text_secondary: Color,
    /// Disabled text.
    pub text_disabled: Color,
    /// Text drawn on the accent colour.
    pub text_on_accent: Color,
    /// The accent colour (links, progress, the playing row).
    pub accent: Color,
    /// The selection background while the owner has focus.
    pub selection: Color,
    /// The selection background while the owner does not have focus.
    pub selection_unfocused: Color,
    /// The hover background.
    pub hover: Color,
    /// Borders and separators.
    pub border: Color,
    /// The border of a focused control.
    pub border_focused: Color,
    /// Caution (a paused progress bar).
    pub warning: Color,
    /// Danger (an errored progress bar).
    pub danger: Color,
}

/// The light palette's tokens.
pub open spec fn light_palette() -> Theme {
    Theme {
        is_dark: false,
        background: Color { r: 0xff, g: 0xff, b: 0xff },
        surface: Color { r: 0xf3, g: 0xf3, b: 0xf3 },
        raised: Color { r: 0xf9, g: 0xf9, b: 0xf9 },
        text: Color { r: 0x1a, g: 0x1a, b: 0x1a },
        text_secondary: Color { r: 0x5d, g: 0x5d, b: 0x5d },
        text_disabled: Color { r: 0xa0, g: 0xa0, b: 0xa0 },
        text_on_accent: Color { r: 0xff, g: 0xff, b: 0xff },
        accent: Color { r: 0x00, g: 0x5f, b: 0xb8 },
        selection: Color { r: 0xcc, g: 0xe4, b: 0xf7 },
        selection_unfocused: Color { r: 0xe5, g: 0xe5, b: 0xe5 },
        hover: Color { r: 0xf0, g: 0xf0, b: 0xf0 },
        border: Color { r: 0xe0, g: 0xe0, b: 0xe0 },
        border_focused: Color { r: 0x00, g: 0x5f, b: 0xb8 },
        warning: Color { r: 0x9d, g: 0x5d, b: 0x00 },
        danger: Color { r: 0xc4, g: 0x2b, b: 0x1c },
    }
}

/// The dark palette's tokens.
pub open spec fn dark_palette() -> Theme {
    Theme {
        is_dark: true,
        background: Color { r: 0x20, g: 0x20, b: 0x20 },
        surface: Color { r: 0x2b, g: 0x2b, b: 0x2b },
        raised: Color { r: 0x2c, g: 0x2c, b: 0x2c },
        text: Color { r: 0xff, g: 0xff, b: 0xff },
        text_secondary: Color { r: 0xc5, g: 0xc5, b: 0xc5 },
        text_disabled: Color { r: 0x78, g: 0x78, b: 0x78 },
        text_on_accent: Color { r: 0x00, g: 0x00, b: 0x00 },
        accent: Color { r: 0x60, g: 0xcd, b: 0xff },
        selection: Color { r: 0x2d, g: 0x5c, b: 0x8a },
        selection_unfocused: Color { r: 0x3d, g: 0x3d, b: 0x3d },
        hover: Color { r: 0x2d, g: 0x2d, b: 0x2d },
        border: Color { r: 0x3d, g: 0x3d, b: 0x3d },
        border_focused: Color { r: 0x60, g: 0xcd, b: 0xff },
        warning: Color { r: 0xfc, g: 0xe1, b: 0x00 },
        danger: Color { r: 0xff, g: 0x99, b: 0xa4 },
    }
}

impl Theme {
    /// The light palette.
    pub fn light() -> (t: Theme)
        ensures
            t == light_palette(),
    {
        Theme {
            is_dark: false,
            background: Color::rgb(0xff, 0xff, 0xff),
            surface: Color::rgb(0xf3, 0xf3, 0xf3),
            raised: Color::rgb(0xf9, 0xf9, 0xf9),
            text: Color::rgb(0x1a, 0x1a, 0x1a),
            text_secondary: Color::rgb(0x5d, 0x5d, 0x5d),
            text_disabled: Color::rgb(0xa0, 0xa0, 0xa0),
            text_on_accent: Color::rgb(0xff, 0xff, 0xff),
            accent: Color::rgb(0x00, 0x5f, 0xb8),
            selection: Color::rgb(0xcc, 0xe4, 0xf7),
            selection_unfocused: Color::rgb(0xe5, 0xe5, 0xe5),
            hover: Color::rgb(0xf0, 0xf0, 0xf0),
            border: Color::rgb(0xe0, 0xe0, 0xe0),
            border_focused: Color::rgb(0x00, 0x5f, 0xb8),
            warning: Color::rgb(0x9d, 0x5d, 0x00),
            danger: Color::rgb(0xc4, 0x2b, 0x1c),
        }
    }

    /// The dark palette.
    pub fn dark() -> (t: Theme)
        ensures
            t == dark_palette(),
    {
        Theme {
            is_dark: true,
            background: Color::rgb(0x20, 0x20, 0x20),
            surface: Color::rgb(0x2b, 0x2b, 0x2b),
            raised: Color::rgb(0x2c, 0x2c, 0x2c),
            text: Color::rgb(0xff, 0xff, 0xff),
            text_secondary: Color::rgb(0xc5, 0xc5, 0xc5),
            text_disabled: Color::rgb(0x78, 0x78, 0x78),
            text_on_accent: Color::rgb(0x00, 0x00, 0x00),
            accent: Color::rgb(0x60, 0xcd, 0xff),
            selection: Color::rgb(0x2d, 0x5c, 0x8a),
            selection_unfocused: Color::rgb(0x3d, 0x3d, 0x3d),
            hover: Color::rgb(0x2d, 0x2d, 0x2d),
            border: Color::rgb(0x3d, 0x3d, 0x3d),
            border_focused: Color::rgb(0x60, 0xcd, 0xff),
            warning: Color::rgb(0xfc, 0xe1, 0x00),
            danger: Color::rgb(0xff, 0x99, 0xa4),
        }
    }
}

} // verus!
