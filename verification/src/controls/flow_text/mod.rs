//! A wrapped, flowing line of styled runs with clickable links.
//!
//! The runs are laid out and hit-tested as one text block by the host; this
//! holds the runs, resolves each style to a theme token, and turns hovering
//! and clicking a link into the hand cursor, the hover underline and the
//! link's message.

use vstd::prelude::*;

use crate::color::Color;
use crate::controls::custom::widget::{CursorShape, Input};
use crate::message::MouseButton;
use crate::theme::Theme;

verus! {

/// How a run is styled from the theme.
#[derive(Clone, Copy, Debug, PartialEq, Eq, Structural)]
pub enum RunStyle {
    /// Primary text.
    Normal,
    /// De-emphasised text.
    Weak,
    /// A clickable link: accent-coloured, hand cursor, underlined on hover.
    Link,
}

/// The colour a run of `style` is drawn in under `theme`.
pub open spec fn run_color_spec(style: RunStyle, theme: Theme) -> Color {
    match style {
        RunStyle::Normal => theme.text,
        RunStyle::Weak => theme.text_secondary,
        RunStyle::Link => theme.accent,
    }
}

/// The colour a run of `style` is drawn in under `theme`.
pub fn run_color(style: RunStyle, theme: &Theme) -> (c: Color)
    ensures
        c == run_color_spec(style, *theme),
{
    match style {
        RunStyle::Normal => theme.text,
        RunStyle::Weak => theme.text_secondary,
        RunStyle::Link => theme.accent,
    }
}

/// The regular font weight a run starts with.
pub const REGULAR_WEIGHT: u16 = 400;

/// One run of a flowing line.
pub struct Run<F> {
    /// The text.
    pub text: String,
    /// How it is styled.
    pub style: RunStyle,
    /// The font weight (100-900).
    pub weight: u16,
    /// Whether it is italic.
    pub italic: bool,
    /// Maps a click on the run (a link) to the app's message.
    pub on_click: Option<F>,
}

impl<F> Run<F> {
    /// A run of `text` in `style`, regular and upright.
    pub fn new(text: &str, style: RunStyle) -> (r: Run<F>)
        ensures
            r.text@ == text@,
            r.style == style,
            r.weight == REGULAR_WEIGHT,
            !r.italic,
            r.on_click is None,
    {
        Run { text: text.to_owned(), style, weight: REGULAR_WEIGHT, italic: false, on_click: None }
    }

    /// A primary-text run.
    pub fn normal(text: &str) -> (r: Run<F>)
        ensures
            r.text@ == text@,
            r.style == RunStyle::Normal,
            r.on_click is None,
    {
        Run::new(text, RunStyle::Normal)
    }

    /// A de-emphasised run.
    pub fn weak(text: &str) -> (r: Run<F>)
        ensures
            r.text@ == text@,
            r.style == RunStyle::Weak,
            r.on_click is None,
    {
        Run::new(text, RunStyle::Weak)
    }

    /// A clickable link run.
    pub fn link(text: &str) -> (r: Run<F>)
        ensures
            r.text@ == text@,
            r.style == RunStyle::Link,
            r.on_click is None,
    {
        Run::new(text, RunStyle::Link)
    }

    /// Sets the font weight.
    pub fn weight(self, weight: u16) -> (r: Run<F>)
        ensures
            r.weight == weight,
            r.style == self.style,
            r.italic == self.italic,
            r.text@ == self.text@,
            r.on_click == self.on_click,
    {
        Run { weight, ..self }
    }

    /// Sets italic.
    pub fn italic(self, italic: bool) -> (r: Run<F>)
        ensures
            r.italic == italic,
            r.style == self.style,
            r.weight == self.weight,
            r.text@ == self.text@,
            r.on_click == self.on_click,
    {
        Run { italic, ..self }
    }

    /// Maps a click on this run to the app's message.
    pub fn on_click(self, click: F) -> (r: Run<F>)
        ensures
            r.on_click == Some(click),
            r.style == self.style,
            r.weight == self.weight,
            r.italic == self.italic,
            r.text@ == self.text@,
    {
        Run { on_click: Some(click), ..self }
    }
}

/// What the host does after an input reached the line.
#[derive(Clone, Copy, Debug, PartialEq, Eq, Structural)]
pub struct FlowReaction {
    /// The cursor to show, when the input sets one.
    pub cursor: Option<CursorShape>,
    /// Whether the line needs repainting (the hovered link changed).
    pub invalidate: bool,
    /// The link run whose click completed.
    pub activate: Option<usize>,
}

/// The runs of a flowing line, with the link under the pointer and the link
/// a press started on.
pub struct FlowTextState<F> {
    /// The runs, in order.
    pub runs: Vec<Run<F>>,
    /// The hovered link, underlined.
    pub hover: Option<usize>,
    /// The link a left press started on.
    pub pressed: Option<usize>,
}

/// The link run at `span` of `runs`, if `span` is a link.
pub open spec fn link_spec<F>(runs: Seq<Run<F>>, span: Option<usize>) -> Option<usize> {
    match span {
        Some(s) => if s < runs.len() && runs[s as int].style == RunStyle::Link {
            Some(s)
        } else {
            None
        },
        None => None,
    }
}

impl<F> FlowTextState<F> {
    /// An empty line.
    pub fn new() -> (s: FlowTextState<F>)
        ensures
            s.runs@.len() == 0,
            s.hover is None,
            s.pressed is None,
    {
        FlowTextState { runs: Vec::new(), hover: None, pressed: None }
    }

    /// Appends `run` to the line.
    pub fn push(&mut self, run: Run<F>)
        ensures
            final(self).runs@ == old(self).runs@.push(run),
            final(self).hover == old(self).hover,
            final(self).pressed == old(self).pressed,
    {
        self.runs.push(run);
    }

    /// Appends a weak separator run (for example `" · "`).
    pub fn separator(&mut self, text: &str)
        ensures
            final(self).runs@.len() == old(self).runs@.len() + 1,
            final(self).runs@.take(old(self).runs@.len() as int) == old(self).runs@,
            final(self).runs@.last().style == RunStyle::Weak,
            final(self).runs@.last().text@ == text@,
            final(self).runs@.last().on_click is None,
    {
        self.runs.push(Run::weak(text));
        assert(self.runs@.take(old(self).runs@.len() as int) =~= old(self).runs@);
    }

    /// The link run at `span`, the run the host's hit test found under the
    /// pointer.
    pub fn link_at(&self, span: Option<usize>) -> (link: Option<usize>)
        ensures
            link == link_spec(self.runs@, span),
    {
        match span {
            Some(s) => {
                if s < self.runs.len() {
                    match self.runs[s].style {
                        RunStyle::Link => Some(s),
                        _ => None,
                    }
                } else {
                    None
                }
            },
            None => None,
        }
    }

    /// Handles one input; `span` is the run the host's hit test found under
    /// the input's point. Moving shows the hand over a link and repaints
    /// when the hovered link changes; a left press remembers its link; a
    /// left release on the same link completes a click; leaving the line or
    /// losing the capture forgets the press.
    pub fn input(&mut self, input: Input, span: Option<usize>) -> (r: FlowReaction)
        ensures
            final(self).runs@ == old(self).runs@,
            ({
                let link = link_spec(old(self).runs@, span);
                match input {
                    Input::MouseMove { .. } => {
                        &&& r.cursor == Some(if link is Some { CursorShape::Hand } else { CursorShape::Arrow })
                        &&& r.invalidate == (old(self).hover != link)
                        &&& final(self).hover == link
                        &&& final(self).pressed == old(self).pressed
                        &&& r.activate is None
                    },
                    Input::MouseDown { button: MouseButton::Left, .. } => {
                        &&& final(self).pressed == link
                        &&& final(self).hover == old(self).hover
                        &&& r == (FlowReaction { cursor: None, invalidate: false, activate: None })
                    },
                    Input::MouseUp { button: MouseButton::Left, .. } => {
                        &&& final(self).pressed is None
                        &&& final(self).hover == old(self).hover
                        &&& r.cursor is None && !r.invalidate
                        &&& r.activate == if old(self).pressed == link { link } else { None }
                    },
                    Input::MouseLeave => {
                        &&& final(self).pressed is None
                        &&& final(self).hover is None
                        &&& r == (FlowReaction { cursor: None, invalidate: old(self).hover is Some, activate: None })
                    },
                    Input::CaptureChanged => {
                        &&& final(self).pressed is None
                        &&& final(self).hover == old(self).hover
                        &&& r == (FlowReaction { cursor: None, invalidate: false, activate: None })
                    },
                    _ => {
                        &&& final(self).pressed == old(self).pressed
                        &&& final(self).hover == old(self).hover
                        &&& r == (FlowReaction { cursor: None, invalidate: false, activate: None })
                    },
                }
            }),
    {
        let nothing = FlowReaction { cursor: None, invalidate: false, activate: None };
        let link = self.link_at(span);
        match input {
            Input::MouseMove { .. } => {
                let cursor = match link {
                    Some(_) => CursorShape::Hand,
                    None => CursorShape::Arrow,
                };
                let changed = self.hover != link;
                self.hover = link;
                FlowReaction { cursor: Some(cursor), invalidate: changed, activate: None }
            },
            Input::MouseDown { button: MouseButton::Left, .. } => {
                self.pressed = link;
                nothing
            },
            Input::MouseUp { button: MouseButton::Left, .. } => {
                let pressed = self.pressed;
                self.pressed = None;
                let activate = if pressed == link { link } else { None };
                FlowReaction { cursor: None, invalidate: false, activate }
            },
            Input::MouseLeave => {
                self.pressed = None;
                let was = self.hover.is_some();
                self.hover = None;
                FlowReaction { cursor: None, invalidate: was, activate: None }
            },
            Input::CaptureChanged => {
                self.pressed = None;
                nothing
            },
            _ => nothing,
        }
    }

    /// The message a completed click on run `run` raises: its `on_click`
    /// answer, or nothing without one.
    pub fn activate<M>(&self, run: usize) -> (msg: Option<M>)
        where
            F: Fn() -> Option<M>,
        requires
            forall|k: int| 0 <= k < self.runs@.len() ==> ((#[trigger] self.runs@[k]).on_click matches Some(f) ==> call_requires(f, ())),
        ensures
            run >= self.runs@.len() ==> msg is None,
            run < self.runs@.len() ==> match self.runs@[run as int].on_click {
                Some(f) => call_ensures(f, (), msg),
                None => msg is None,
            },
    {
        if run >= self.runs.len() {
            return None;
        }
        match &self.runs[run].on_click {
            Some(f) => f(),
            None => None,
        }
    }
}

} // verus!
