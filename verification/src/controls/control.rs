//! The widget-layer core: [`Control`] holds what the library knows of a
//! widget's child window, [`AsControl`] exposes it, and [`ControlExt`] gives
//! every widget the shared reads. [`IdSource`] hands out child-window ids.

use vstd::prelude::*;

use crate::geometry::Rect;
use crate::hwnd::Hwnd;
use crate::message::{Command, CommandNotification, Message};

verus! {

/// The core every widget holds: its child window, whether the widget owns
/// (and so destroys) it, and its last known bounds and visibility.
#[derive(Clone, Copy, Debug, PartialEq, Eq, Structural)]
pub struct Control {
    /// The child window.
    pub hwnd: Hwnd,
    /// Whether dropping the widget destroys the window.
    pub owned: bool,
    /// The bounds, in device pixels.
    pub bounds: Rect,
    /// Whether the widget is shown; a hidden widget takes no space in a
    /// layout.
    pub visible: bool,
    /// Whether the widget accepts input.
    pub enabled: bool,
}

/// The control of a freshly created child window the widget owns.
pub open spec fn owned_control(hwnd: Hwnd, bounds: Rect) -> Control {
    Control { hwnd, owned: true, bounds, visible: true, enabled: true }
}

impl Control {
    /// A freshly created child window the widget owns, shown and enabled.
    pub fn own(hwnd: Hwnd, bounds: Rect) -> (c: Control)
        ensures
            c == owned_control(hwnd, bounds),
    {
        Control { hwnd, owned: true, bounds, visible: true, enabled: true }
    }

    /// A window owned elsewhere, which the widget never destroys.
    pub fn borrowed(hwnd: Hwnd, bounds: Rect) -> (c: Control)
        ensures
            c == (Control { hwnd, owned: false, bounds, visible: true, enabled: true }),
    {
        Control { hwnd, owned: false, bounds, visible: true, enabled: true }
    }

    /// The control's window.
    pub fn hwnd(&self) -> (h: Hwnd)
        ensures
            h == self.hwnd,
    {
        self.hwnd
    }

    /// Moves or resizes the control.
    pub fn set_bounds(&mut self, bounds: Rect)
        ensures
            *final(self) == (Control { bounds, ..*old(self) }),
    {
        self.bounds = bounds;
    }

    /// Shows or hides the control.
    pub fn set_visible(&mut self, visible: bool)
        ensures
            *final(self) == (Control { visible, ..*old(self) }),
    {
        self.visible = visible;
    }

    /// Enables or disables the control.
    pub fn set_enabled(&mut self, enabled: bool)
        ensures
            *final(self) == (Control { enabled, ..*old(self) }),
    {
        self.enabled = enabled;
    }
}

/// Exposes a widget's [`Control`]. Shared reads then come from
/// [`ControlExt`], never a base class.
pub trait AsControl {
    /// The widget's control, as a value.
    spec fn control_view(&self) -> Control;

    /// The widget's underlying control.
    fn control(&self) -> (c: &Control)
        ensures
            *c == self.control_view(),
    ;
}

/// Shared reads every widget gets through its [`AsControl`] impl.
pub trait ControlExt: AsControl {
    /// Whether the widget is currently shown.
    fn is_visible(&self) -> (v: bool)
        ensures
            v == self.control_view().visible,
    {
        self.control().visible
    }

    /// Whether the widget accepts input.
    fn is_enabled(&self) -> (e: bool)
        ensures
            e == self.control_view().enabled,
    {
        self.control().enabled
    }

    /// The widget's bounds, in device pixels.
    fn bounds(&self) -> (b: Rect)
        ensures
            b == self.control_view().bounds,
    {
        self.control().bounds
    }

    /// The widget's window.
    fn hwnd(&self) -> (h: Hwnd)
        ensures
            h == self.control_view().hwnd,
    {
        self.control().hwnd
    }
}

impl<T: AsControl> ControlExt for T {
}

/// A widget that carries a single text (labels, buttons, edit boxes).
pub trait HasText {
    /// The widget's text, as a value.
    spec fn text_view(&self) -> Seq<char>;

    /// The text the widget shows after being given `text`: `text` itself,
    /// unless the widget normalises it.
    spec fn shown_text(text: Seq<char>) -> Seq<char>;

    /// The widget's current text.
    fn text(&self) -> (t: String)
        ensures
            t@ == self.text_view(),
    ;

    /// Replaces the widget's text.
    fn set_text(&mut self, text: &str)
        ensures
            final(self).text_view() == Self::shown_text(text@),
    ;
}

/// A source of unique, non-zero child-window ids: one per window thread.
/// Notifications are routed by window handle, so the ids only fill the
/// child-id slot.
pub struct IdSource {
    next: usize,
}

impl IdSource {
    /// The id the next call hands out.
    pub closed spec fn peek(&self) -> usize {
        self.next
    }

    /// A source starting at 1.
    pub fn new() -> (s: IdSource)
        ensures
            s.peek() == 1,
    {
        IdSource { next: 1 }
    }

    /// The next id; after the largest `usize` the count starts over at 1, so
    /// an id is never 0.
    pub fn next_id(&mut self) -> (id: usize)
        requires
            old(self).peek() >= 1,
        ensures
            id == old(self).peek(),
            id >= 1,
            final(self).peek() == if old(self).peek() == usize::MAX {
                1
            } else {
                old(self).peek() + 1
            },
    {
        let id = self.next;
        self.next = if id == usize::MAX { 1 } else { id + 1 };
        id
    }
}

/// Whether `message` is a click (`BN_CLICKED`) raised by `hwnd`.
pub open spec fn is_click(message: Message, hwnd: Hwnd) -> bool {
    message matches Message::Command(Command { control: Some(control), notification: CommandNotification::Clicked, .. })
        && control == hwnd
}

/// Whether `message` is a click raised by `hwnd`.
pub fn clicked(message: &Message, hwnd: Hwnd) -> (b: bool)
    ensures
        b == is_click(*message, hwnd),
{
    match message {
        Message::Command(Command { control: Some(control), notification: CommandNotification::Clicked, .. }) => {
            *control == hwnd
        },
        _ => false,
    }
}

} // verus!
