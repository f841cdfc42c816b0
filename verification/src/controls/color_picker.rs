//! A colour swatch that opens the common colour dialog.
//!
//! The picker is an owner-drawn button showing the current colour; pressing
//! it opens the standard colour dialog seeded with that colour, and a newly
//! chosen colour is reported through `on_change`.

use vstd::prelude::*;

use crate::color::Color;
use crate::controls::control::{clicked, is_click, owned_control, AsControl, Control};
use crate::controls::style::{WS_CHILD, WS_TABSTOP, WS_VISIBLE};
use crate::geometry::Rect;
use crate::hwnd::Hwnd;
use crate::message::Message;
use crate::units::{px, Dip};

verus! {

/// `BS_OWNERDRAW`: the parent paints the button on `WM_DRAWITEM`.
pub const BS_OWNERDRAW: u32 = 0x0000_000B;

/// What a message asks of the picker.
#[derive(Clone, Copy, Debug, PartialEq, Eq, Structural)]
pub enum PickerAction {
    /// Paint the swatch in `color` into `dc` over `area`, in the raw
    /// `ODS_*` `state`.
    Draw { dc: isize, area: Rect, color: Color, state: u32 },
    /// Open the colour dialog seeded with `current`.
    Choose { current: Color },
    /// Not for the picker.
    Ignore,
}

/// An owner-drawn colour swatch.
pub struct ColorPicker<F> {
    /// The picker's window and bounds.
    pub control: Control,
    /// The colour shown.
    pub color: Color,
    /// Maps a newly chosen colour to the app's message.
    pub on_change: Option<F>,
}

impl<F> ColorPicker<F> {
    /// The picker in the child window `hwnd` showing `initial`, a swatch of
    /// the standard size at `dpi`.
    pub fn new(hwnd: Hwnd, dpi: u32, initial: Color) -> (p: ColorPicker<F>)
        requires
        ensures
            p.control == owned_control(
                hwnd,
                Rect { left: 0, top: 0, right: px(56, dpi) as i32, bottom: px(24, dpi) as i32 },
            ),
            p.color == initial,
            p.on_change is None,
    {
        let bounds = Rect::new(0, 0, Dip::new(56).to_px(dpi).value(), Dip::new(24).to_px(dpi).value());
        ColorPicker { control: Control::own(hwnd, bounds), color: initial, on_change: None }
    }

    /// The window style the picker needs.
    pub fn style(&self) -> (style: u32)
        ensures
            style == (WS_CHILD | WS_VISIBLE | WS_TABSTOP | BS_OWNERDRAW),
    {
        WS_CHILD | WS_VISIBLE | WS_TABSTOP | BS_OWNERDRAW
    }

    /// Maps a chosen colour to an app message. Returning `None` ignores the
    /// change (the swatch still updates).
    pub fn on_change(self, f: F) -> (p: ColorPicker<F>)
        ensures
            p.on_change == Some(f),
            p.color == self.color,
            p.control == self.control,
    {
        ColorPicker { on_change: Some(f), ..self }
    }

    /// The colour currently shown.
    pub fn color(&self) -> (c: Color)
        ensures
            c == self.color,
    {
        self.color
    }

    /// Replaces the colour shown, without raising `on_change`. Returns
    /// whether the swatch needs repainting: setting the colour it already
    /// shows changes nothing, so syncing a form does not flicker.
    pub fn set_color(&mut self, color: Color) -> (repaint: bool)
        ensures
            final(self).color == color,
            repaint == (old(self).color != color),
            final(self).control == old(self).control,
            final(self).on_change == old(self).on_change,
    {
        let repaint = self.color != color;
        self.color = color;
        repaint
    }

    /// What `message` asks of the picker: paint its swatch, open the colour
    /// dialog on a click, or nothing.
    pub fn action(&self, message: &Message) -> (a: PickerAction)
        ensures
            (message matches Message::DrawItem { control, dc, area, state } && control == self.control.hwnd)
                ==> a == (PickerAction::Draw { dc: message->dc, area: message->area, color: self.color, state: message->state }),
            is_click(*message, self.control.hwnd) ==> a == (PickerAction::Choose { current: self.color }),
            !(message matches Message::DrawItem { control, .. } && control == self.control.hwnd)
                && !is_click(*message, self.control.hwnd) ==> a == PickerAction::Ignore,
    {
        match message {
            Message::DrawItem { control, dc, area, state } => {
                if *control == self.control.hwnd {
                    return PickerAction::Draw { dc: *dc, area: *area, color: self.color, state: *state };
                }
            },
            _ => {},
        }
        if clicked(message, self.control.hwnd) {
            PickerAction::Choose { current: self.color }
        } else {
            PickerAction::Ignore
        }
    }

    /// Takes the colour dialog's answer: a newly chosen colour becomes the
    /// swatch's colour and is reported through `on_change`; a cancelled
    /// dialog, or the same colour again, changes and reports nothing.
    pub fn chosen<M>(&mut self, chosen: Option<Color>) -> (msg: Option<M>)
        where
            F: Fn(Color) -> Option<M>,
        requires
            old(self).on_change matches Some(f) ==> forall|c: Color| call_requires(f, (c,)),
        ensures
            final(self).control == old(self).control,
            final(self).on_change == old(self).on_change,
            (chosen matches Some(c) && c != old(self).color) ==> {
                &&& final(self).color == chosen->0
                &&& match old(self).on_change {
                    Some(f) => call_ensures(f, (chosen->0,), msg),
                    None => msg is None,
                }
            },
            !(chosen matches Some(c) && c != old(self).color) ==> final(self).color == old(self).color && msg is None,
    {
        match chosen {
            Some(color) => {
                if color == self.color {
                    return None;
                }
                self.color = color;
                match &self.on_change {
                    Some(f) => f(color),
                    None => None,
                }
            },
            None => None,
        }
    }
}

impl<F> AsControl for ColorPicker<F> {
    open spec fn control_view(&self) -> Control {
        self.control
    }

    fn control(&self) -> (c: &Control) {
        &self.control
    }
}

} // verus!
