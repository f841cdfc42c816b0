//! A labelled frame that visually groups related controls, painted from
//! theme tokens as an owner-drawn button.

use vstd::prelude::*;

use crate::color::Color;
use crate::controls::color_picker::BS_OWNERDRAW;
use crate::controls::control::{owned_control, AsControl, Control, HasText};
use crate::controls::style::{WS_CHILD, WS_VISIBLE};
use crate::geometry::Rect;
use crate::hwnd::Hwnd;
use crate::message::Message;
use crate::theme::Theme;
use crate::units::{fits, larger, px, Dip};

verus! {

/// The colours a group box is painted with.
#[derive(Clone, Copy, Debug, PartialEq, Eq, Structural)]
pub struct GroupPaint {
    /// The title.
    pub text: Color,
    /// The frame.
    pub border: Color,
    /// Behind the title.
    pub background: Color,
}

/// One paint of the frame: where, and in which colours.
#[derive(Clone, Copy, Debug, PartialEq, Eq, Structural)]
pub struct GroupDraw {
    /// The device context to paint into.
    pub dc: isize,
    /// The frame's rectangle.
    pub area: Rect,
    /// The colours.
    pub paint: GroupPaint,
}

/// The natural size of a frame whose title is `text_width` pixels wide in a
/// font `font_height` pixels high: padded title, at least a standard width.
pub open spec fn groupbox_size(dpi: u32, text_width: i32, font_height: i32) -> (int, int) {
    (larger(text_width + px(32, dpi), px(96, dpi)), font_height + px(14, dpi))
}

/// A labelled frame. It cannot be selected and takes no part in the tab
/// order; it only groups controls visually.
pub struct GroupBox {
    /// The frame's window and bounds.
    pub control: Control,
    /// The title.
    pub title: String,
    /// The theme the frame is painted from.
    pub theme: Theme,
}

impl GroupBox {
    /// The frame titled `title` in the child window `hwnd`, sized to fit the
    /// title the host measured `text_width` pixels wide in the UI font of
    /// `font_height` pixels at `dpi`, painted from `theme`.
    pub fn new(hwnd: Hwnd, dpi: u32, title: &str, text_width: i32, font_height: i32, theme: Theme) -> (g: GroupBox)
        requires
            fits(text_width + px(32, dpi)),
            fits(font_height + px(14, dpi)),
        ensures
            g.control == owned_control(
                hwnd,
                Rect {
                    left: 0,
                    top: 0,
                    right: groupbox_size(dpi, text_width, font_height).0 as i32,
                    bottom: groupbox_size(dpi, text_width, font_height).1 as i32,
                },
            ),
            g.title@ == title@,
            g.theme == theme,
    {
        let padded = text_width + Dip::new(32).to_px(dpi).value();
        let min_width = Dip::new(96).to_px(dpi).value();
        let width = if padded < min_width { min_width } else { padded };
        let height = font_height + Dip::new(14).to_px(dpi).value();
        GroupBox { control: Control::own(hwnd, Rect::new(0, 0, width, height)), title: title.to_owned(), theme }
    }

    /// The window style the frame needs: a visible owner-drawn child.
    pub fn style(&self) -> (style: u32)
        ensures
            style == (WS_CHILD | WS_VISIBLE | BS_OWNERDRAW),
    {
        WS_CHILD | WS_VISIBLE | BS_OWNERDRAW
    }

    /// Repaints from `theme`.
    pub fn apply_theme(&mut self, theme: Theme)
        ensures
            final(self).theme == theme,
            final(self).control == old(self).control,
            final(self).title@ == old(self).title@,
    {
        self.theme = theme;
    }

    /// The paint `message` asks for, when it is this frame's `WM_DRAWITEM`:
    /// the title in the theme's text colour, the frame in its border colour
    /// over its background.
    pub fn draw_request(&self, message: &Message) -> (draw: Option<GroupDraw>)
        ensures
            (message matches Message::DrawItem { control, .. } && control == self.control.hwnd) ==> draw == Some(
                GroupDraw {
                    dc: message->dc,
                    area: message->area,
                    paint: GroupPaint { text: self.theme.text, border: self.theme.border, background: self.theme.background },
                },
            ),
            !(message matches Message::DrawItem { control, .. } && control == self.control.hwnd) ==> draw is None,
    {
        match message {
            Message::DrawItem { control, dc, area, .. } => {
                if *control == self.control.hwnd {
                    Some(
                        GroupDraw {
                            dc: *dc,
                            area: *area,
                            paint: GroupPaint {
                                text: self.theme.text,
                                border: self.theme.border,
                                background: self.theme.background,
                            },
                        },
                    )
                } else {
                    None
                }
            },
            _ => None,
        }
    }
}

impl AsControl for GroupBox {
    open spec fn control_view(&self) -> Control {
        self.control
    }

    fn control(&self) -> (c: &Control) {
        &self.control
    }
}

impl HasText for GroupBox {
    open spec fn text_view(&self) -> Seq<char> {
        self.title@
    }

    open spec fn shown_text(text: Seq<char>) -> Seq<char> {
        text
    }

    fn text(&self) -> (t: String) {
        self.title.clone()
    }

    fn set_text(&mut self, text: &str) {
        self.title = text.to_owned();
    }
}

} // verus!
