//! A two-state check box that maps toggles to the app's message.

use vstd::prelude::*;

use crate::controls::control::{clicked, is_click, owned_control, AsControl, Control, HasText};
use crate::controls::style::{WS_CHILD, WS_TABSTOP, WS_VISIBLE};
use crate::geometry::Rect;
use crate::hwnd::Hwnd;
use crate::message::Message;
use crate::units::{fits, larger, px, Dip};

verus! {

/// `BS_AUTOCHECKBOX`: the box toggles itself when clicked.
pub const BS_AUTOCHECKBOX: u32 = 0x0000_0003;

/// The natural size of a check box whose text is `text_width` pixels wide
/// in a font `font_height` pixels high.
pub open spec fn checkbox_size(dpi: u32, text_width: i32, font_height: i32) -> (int, int) {
    (larger(text_width + px(28, dpi), px(64, dpi)), larger(font_height + px(10, dpi), px(20, dpi)))
}

/// An auto check box: a click toggles it, then reports the new state.
pub struct CheckBox<F> {
    /// The box's window and bounds.
    pub control: Control,
    /// Whether the box is checked.
    pub checked: bool,
    /// Its text.
    pub text: String,
    /// Maps a toggle, given the new state, to the app's message.
    pub on_toggle: Option<F>,
}

impl<F> CheckBox<F> {
    /// The unchecked box in the child window `hwnd`, sized to fit `text`,
    /// which the host measured `text_width` pixels wide in the UI font of
    /// `font_height` pixels at `dpi`.
    pub fn new(hwnd: Hwnd, dpi: u32, text: &str, text_width: i32, font_height: i32) -> (c: CheckBox<F>)
        requires
            fits(text_width + px(28, dpi)),
            fits(font_height + px(10, dpi)),
        ensures
            c.control == owned_control(
                hwnd,
                Rect {
                    left: 0,
                    top: 0,
                    right: checkbox_size(dpi, text_width, font_height).0 as i32,
                    bottom: checkbox_size(dpi, text_width, font_height).1 as i32,
                },
            ),
            !c.checked,
            c.text@ == text@,
            c.on_toggle is None,
    {
        let padded = text_width + Dip::new(28).to_px(dpi).value();
        let min_width = Dip::new(64).to_px(dpi).value();
        let tall = font_height + Dip::new(10).to_px(dpi).value();
        let min_height = Dip::new(20).to_px(dpi).value();
        let width = if padded < min_width { min_width } else { padded };
        let height = if tall < min_height { min_height } else { tall };
        CheckBox {
            control: Control::own(hwnd, Rect::new(0, 0, width, height)),
            checked: false,
            text: text.to_owned(),
            on_toggle: None,
        }
    }

    /// The window style the box needs.
    pub fn style(&self) -> (style: u32)
        ensures
            style == (WS_CHILD | WS_VISIBLE | WS_TABSTOP | BS_AUTOCHECKBOX),
    {
        WS_CHILD | WS_VISIBLE | WS_TABSTOP | BS_AUTOCHECKBOX
    }

    /// Sets the initial state, returning the box for chaining.
    pub fn checked(self, checked: bool) -> (c: CheckBox<F>)
        ensures
            c.checked == checked,
            c.control == self.control,
            c.on_toggle == self.on_toggle,
            c.text@ == self.text@,
    {
        CheckBox { checked, ..self }
    }

    /// Maps a toggle to an app message, receiving the new state.
    pub fn on_toggle(self, f: F) -> (c: CheckBox<F>)
        ensures
            c.on_toggle == Some(f),
            c.checked == self.checked,
            c.control == self.control,
            c.text@ == self.text@,
    {
        CheckBox { on_toggle: Some(f), ..self }
    }

    /// Whether the box is currently checked.
    pub fn is_checked(&self) -> (b: bool)
        ensures
            b == self.checked,
    {
        self.checked
    }

    /// Checks or unchecks the box, without reporting it.
    pub fn set_checked(&mut self, checked: bool)
        ensures
            final(self).checked == checked,
            final(self).control == old(self).control,
            final(self).on_toggle == old(self).on_toggle,
            final(self).text@ == old(self).text@,
    {
        self.checked = checked;
    }

    /// A click: the box toggles, and the new state is reported through
    /// `on_toggle`.
    pub fn click<M>(&mut self) -> (msg: Option<M>)
        where
            F: Fn(bool) -> Option<M>,
        requires
            old(self).on_toggle matches Some(f) ==> forall|b: bool| call_requires(f, (b,)),
        ensures
            final(self).checked == !old(self).checked,
            final(self).control == old(self).control,
            final(self).on_toggle == old(self).on_toggle,
            final(self).text@ == old(self).text@,
            match old(self).on_toggle {
                Some(f) => call_ensures(f, (!old(self).checked,), msg),
                None => msg is None,
            },
    {
        self.checked = !self.checked;
        match &self.on_toggle {
            Some(f) => f(self.checked),
            None => None,
        }
    }

    /// Maps `message` when it is this box's click (after which the box has
    /// toggled): `None` for any other message, which leaves the box alone.
    pub fn click_message<M>(&mut self, message: &Message) -> (r: Option<Option<M>>)
        where
            F: Fn(bool) -> Option<M>,
        requires
            old(self).on_toggle matches Some(f) ==> forall|b: bool| call_requires(f, (b,)),
        ensures
            !is_click(*message, old(self).control.hwnd) ==> r is None && final(self).checked == old(self).checked,
            is_click(*message, old(self).control.hwnd) ==> {
                &&& final(self).checked == !old(self).checked
                &&& (r matches Some(msg) && match old(self).on_toggle {
                    Some(f) => call_ensures(f, (!old(self).checked,), msg),
                    None => msg is None,
                })
            },
            final(self).control == old(self).control,
            final(self).on_toggle == old(self).on_toggle,
    {
        if !clicked(message, self.control.hwnd) {
            return None;
        }
        Some(self.click())
    }
}

impl<F> AsControl for CheckBox<F> {
    open spec fn control_view(&self) -> Control {
        self.control
    }

    fn control(&self) -> (c: &Control) {
        &self.control
    }
}

impl<F> HasText for CheckBox<F> {
    open spec fn text_view(&self) -> Seq<char> {
        self.text@
    }

    open spec fn shown_text(text: Seq<char>) -> Seq<char> {
        text
    }

    fn text(&self) -> (t: String) {
        self.text.clone()
    }

    fn set_text(&mut self, text: &str) {
        self.text = text.to_owned();
    }
}

} // verus!
