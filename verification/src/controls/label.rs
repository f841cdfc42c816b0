//! A plain static-text label.

use vstd::prelude::*;

use crate::controls::control::{owned_control, AsControl, Control, HasText};
use crate::controls::style::{WS_CHILD, WS_VISIBLE};
use crate::geometry::Rect;
use crate::hwnd::Hwnd;

verus! {

/// `SS_LEFT`: left-aligned static text.
pub const SS_LEFT: u32 = 0x0000;

/// A static text control.
pub struct Label {
    /// The label's window and bounds.
    pub control: Control,
    /// Its text.
    pub text: String,
}

impl Label {
    /// A left-aligned label showing `text` in the child window `hwnd` over
    /// `bounds`.
    pub fn new(hwnd: Hwnd, bounds: Rect, text: &str) -> (l: Label)
        ensures
            l.control == owned_control(hwnd, bounds),
            l.text@ == text@,
    {
        Label { control: Control::own(hwnd, bounds), text: text.to_owned() }
    }

    /// The window style the label needs.
    pub fn style(&self) -> (style: u32)
        ensures
            style == (WS_CHILD | WS_VISIBLE | SS_LEFT),
    {
        WS_CHILD | WS_VISIBLE | SS_LEFT
    }
}

impl AsControl for Label {
    open spec fn control_view(&self) -> Control {
        self.control
    }

    fn control(&self) -> (c: &Control) {
        &self.control
    }
}

impl HasText for Label {
    open spec fn text_view(&self) -> Seq<char> {
        self.text@
    }

    open spec fn shown_text(text: Seq<char>) -> Seq<char> {
        text
    }

    fn text(&self) -> (t: String) {
        self.text.clone()
    }

    fn set_text(&mut self, text: &str) {
        self.text = text.to_owned();
    }
}

} // verus!
