//! The derived colour palette of a progress bar.

use vstd::prelude::*;

use crate::color::Color;
use crate::theme::Theme;

verus! {

/// Colours for the progress bar.
#[derive(Clone, Copy, Debug, PartialEq, Eq, Structural)]
pub struct ProgressBarTheme {
    /// The empty portion of the bar.
    pub track: Color,
    /// The fill of a normal bar.
    pub fill: Color,
    /// The fill of a paused bar.
    pub paused: Color,
    /// The fill of a bar in error.
    pub error: Color,
}

impl ProgressBarTheme {
    /// The palette [`from_theme`](ProgressBarTheme::from_theme) derives.
    pub open spec fn from_theme_spec(theme: Theme) -> ProgressBarTheme {
        ProgressBarTheme { track: theme.border, fill: theme.accent, paused: theme.warning, error: theme.danger }
    }

    /// Derives a palette from the app [`Theme`]: the border for the track,
    /// the accent for normal progress, caution and danger for paused and
    /// errored bars.
    pub fn from_theme(theme: &Theme) -> (t: ProgressBarTheme)
        ensures
            t == (ProgressBarTheme { track: theme.border, fill: theme.accent, paused: theme.warning, error: theme.danger }),
    {
        ProgressBarTheme { track: theme.border, fill: theme.accent, paused: theme.warning, error: theme.danger }
    }
}

} // verus!
