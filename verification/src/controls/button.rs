//! A push button that maps clicks to the app's message.

use vstd::prelude::*;

use crate::controls::control::{clicked, is_click, owned_control, AsControl, Control, HasText};
use crate::controls::style::{WS_CHILD, WS_TABSTOP, WS_VISIBLE};
use crate::geometry::Rect;
use crate::hwnd::Hwnd;
use crate::message::Message;
use crate::units::{fits, larger, px, Dip};

verus! {

/// `BS_PUSHBUTTON`.
pub const BS_PUSHBUTTON: u32 = 0x0000_0000;
/// `BS_DEFPUSHBUTTON`: drawn with the default frame, pressed by Enter.
pub const BS_DEFPUSHBUTTON: u32 = 0x0000_0001;

/// The natural size of a button whose text is `text_width` pixels wide in a
/// font `font_height` pixels high: padded text, but at least the standard
/// button size.
pub open spec fn button_size(dpi: u32, text_width: i32, font_height: i32) -> (int, int) {
    (larger(text_width + px(28, dpi), px(64, dpi)), larger(font_height + px(14, dpi), px(24, dpi)))
}

/// A push button.
pub struct Button<F> {
    /// The button's window and bounds.
    pub control: Control,
    /// Its child-window id.
    pub id: usize,
    /// Whether it is the window's default button.
    pub default_button: bool,
    /// Its text.
    pub text: String,
    /// Maps a click to the app's message.
    pub on_click: Option<F>,
}

impl<F> Button<F> {
    /// The button in the child window `hwnd`, sized to fit `text`, which the
    /// host measured `text_width` pixels wide in the UI font of
    /// `font_height` pixels at `dpi`.
    pub fn new(hwnd: Hwnd, id: usize, dpi: u32, text: &str, text_width: i32, font_height: i32) -> (b: Button<F>)
        requires
            fits(text_width + px(28, dpi)),
            fits(font_height + px(14, dpi)),
        ensures
            b.control == owned_control(
                hwnd,
                Rect {
                    left: 0,
                    top: 0,
                    right: button_size(dpi, text_width, font_height).0 as i32,
                    bottom: button_size(dpi, text_width, font_height).1 as i32,
                },
            ),
            b.id == id,
            !b.default_button,
            b.text@ == text@,
            b.on_click is None,
    {
        let padded = text_width + Dip::new(28).to_px(dpi).value();
        let min_width = Dip::new(64).to_px(dpi).value();
        let tall = font_height + Dip::new(14).to_px(dpi).value();
        let min_height = Dip::new(24).to_px(dpi).value();
        let width = if padded < min_width { min_width } else { padded };
        let height = if tall < min_height { min_height } else { tall };
        Button {
            control: Control::own(hwnd, Rect::new(0, 0, width, height)),
            id,
            default_button: false,
            text: text.to_owned(),
            on_click: None,
        }
    }

    /// The window style the button needs.
    pub fn style(&self) -> (style: u32)
        ensures
            style == (WS_CHILD | WS_VISIBLE | WS_TABSTOP | if self.default_button {
                BS_DEFPUSHBUTTON
            } else {
                BS_PUSHBUTTON
            }),
    {
        let kind = if self.default_button { BS_DEFPUSHBUTTON } else { BS_PUSHBUTTON };
        WS_CHILD | WS_VISIBLE | WS_TABSTOP | kind
    }

    /// Maps a click to an app message.
    pub fn on_click(self, f: F) -> (b: Button<F>)
        ensures
            b.on_click == Some(f),
            b.control == self.control,
            b.default_button == self.default_button,
            b.text@ == self.text@,
    {
        Button { on_click: Some(f), ..self }
    }

    /// Marks the button as the window's default: it draws with the default
    /// frame and responds to Enter.
    pub fn default(self) -> (b: Button<F>)
        ensures
            b.default_button,
            b.control == self.control,
            b.on_click == self.on_click,
            b.text@ == self.text@,
    {
        Button { default_button: true, ..self }
    }

    /// Marks or unmarks the button as the window's default.
    pub fn set_default(&mut self, is_default: bool)
        ensures
            final(self).default_button == is_default,
            final(self).control == old(self).control,
            final(self).on_click == old(self).on_click,
            final(self).text@ == old(self).text@,
    {
        self.default_button = is_default;
    }

    /// Whether the button is the window's default.
    pub fn is_default(&self) -> (b: bool)
        ensures
            b == self.default_button,
    {
        self.default_button
    }

    /// The app message a click raises: `on_click`'s answer, or nothing
    /// without one.
    pub fn click<M>(&self) -> (msg: Option<M>)
        where
            F: Fn() -> Option<M>,
        requires
            self.on_click matches Some(f) ==> call_requires(f, ()),
        ensures
            match self.on_click {
                Some(f) => call_ensures(f, (), msg),
                None => msg is None,
            },
    {
        match &self.on_click {
            Some(f) => f(),
            None => None,
        }
    }

    /// Maps `message` when it is this button's click: `None` for any other
    /// message, `Some` of the app message (if any) for a click, which is
    /// then consumed.
    pub fn click_message<M>(&self, message: &Message) -> (r: Option<Option<M>>)
        where
            F: Fn() -> Option<M>,
        requires
            self.on_click matches Some(f) ==> call_requires(f, ()),
        ensures
            !is_click(*message, self.control.hwnd) ==> r is None,
            is_click(*message, self.control.hwnd) ==> (r matches Some(msg) && match self.on_click {
                Some(f) => call_ensures(f, (), msg),
                None => msg is None,
            }),
    {
        if !clicked(message, self.control.hwnd) {
            return None;
        }
        Some(self.click())
    }
}

impl<F> AsControl for Button<F> {
    open spec fn control_view(&self) -> Control {
        self.control
    }

    fn control(&self) -> (c: &Control) {
        &self.control
    }
}

impl<F> HasText for Button<F> {
    open spec fn text_view(&self) -> Seq<char> {
        self.text@
    }

    open spec fn shown_text(text: Seq<char>) -> Seq<char> {
        text
    }

    fn text(&self) -> (t: String) {
        self.text.clone()
    }

    fn set_text(&mut self, text: &str) {
        self.text = text.to_owned();
    }
}

} // verus!
