//! The widget-author-facing types of the custom owner-draw pattern: which
//! renderer a widget paints with, the typed input it receives, and the
//! context it is handed while handling input.

use vstd::prelude::*;

use crate::geometry::Rect;
use crate::hwnd::Hwnd;
use crate::message::{Key, Message, Modifiers, MouseButton};

verus! {

/// How a custom widget paints itself.
#[derive(Clone, Copy, Debug, PartialEq, Eq, Structural)]
pub enum Renderer {
    /// Paint with GDI.
    Gdi,
    /// Paint with Direct2D.
    Direct2D,
}

/// The mouse cursor shown over a widget.
#[derive(Clone, Copy, Debug, PartialEq, Eq, Structural)]
pub enum CursorShape {
    Arrow,
    Hand,
    IBeam,
    SizeWestEast,
    SizeNorthSouth,
}

/// An input event delivered to a custom widget: the widget-layer subset of
/// the window messages, plus the animation tick and the per-frame flush.
#[derive(Clone, Copy, Debug, PartialEq, Eq, Structural)]
pub enum Input {
    MouseDown { x: i32, y: i32, button: MouseButton },
    MouseUp { x: i32, y: i32, button: MouseButton },
    MouseMove { x: i32, y: i32 },
    MouseDoubleClick { x: i32, y: i32, button: MouseButton },
    MouseWheel { delta: i16, horizontal: bool, x: i32, y: i32, modifiers: Modifiers },
    MouseLeave,
    CaptureChanged,
    KeyDown { key: Key, modifiers: Modifiers, repeat: u16, system: bool },
    KeyUp { key: Key, modifiers: Modifiers, system: bool },
    Char(char),
    /// One tick of the animation timer.
    Tick,
    /// A frame was painted.
    Frame,
    SetFocus,
    KillFocus,
}

/// The input a message carries, if it carries one.
pub open spec fn input_of(message: Message) -> Option<Input> {
    match message {
        Message::MouseDown { x, y, button } => Some(Input::MouseDown { x, y, button }),
        Message::MouseUp { x, y, button } => Some(Input::MouseUp { x, y, button }),
        Message::MouseMove { x, y } => Some(Input::MouseMove { x, y }),
        Message::MouseDoubleClick { x, y, button } => Some(Input::MouseDoubleClick { x, y, button }),
        Message::MouseWheel { delta, horizontal, x, y, modifiers } => Some(
            Input::MouseWheel { delta, horizontal, x, y, modifiers },
        ),
        Message::MouseLeave => Some(Input::MouseLeave),
        Message::CaptureChanged => Some(Input::CaptureChanged),
        Message::KeyDown { key, modifiers, repeat, system } => Some(Input::KeyDown { key, modifiers, repeat, system }),
        Message::KeyUp { key, modifiers, system } => Some(Input::KeyUp { key, modifiers, system }),
        Message::Char(c) => Some(Input::Char(c)),
        Message::SetFocus => Some(Input::SetFocus),
        Message::KillFocus => Some(Input::KillFocus),
        _ => None,
    }
}

impl Input {
    /// The subset of [`Message`] that maps to an [`Input`], or `None`.
    pub fn from_message(message: Message) -> (input: Option<Input>)
        ensures
            input == input_of(message),
    {
        match message {
            Message::MouseDown { x, y, button } => Some(Input::MouseDown { x, y, button }),
            Message::MouseUp { x, y, button } => Some(Input::MouseUp { x, y, button }),
            Message::MouseMove { x, y } => Some(Input::MouseMove { x, y }),
            Message::MouseDoubleClick { x, y, button } => Some(Input::MouseDoubleClick { x, y, button }),
            Message::MouseWheel { delta, horizontal, x, y, modifiers } => Some(
                Input::MouseWheel { delta, horizontal, x, y, modifiers },
            ),
            Message::MouseLeave => Some(Input::MouseLeave),
            Message::CaptureChanged => Some(Input::CaptureChanged),
            Message::KeyDown { key, modifiers, repeat, system } => Some(
                Input::KeyDown { key, modifiers, repeat, system },
            ),
            Message::KeyUp { key, modifiers, system } => Some(Input::KeyUp { key, modifiers, system }),
            Message::Char(c) => Some(Input::Char(c)),
            Message::SetFocus => Some(Input::SetFocus),
            Message::KillFocus => Some(Input::KillFocus),
            _ => None,
        }
    }
}

/// What a widget did with a navigation key: consumed it, or left it to the
/// scroll host.
#[derive(Clone, Copy, Debug, PartialEq, Eq, Structural)]
pub enum KeyResult {
    /// The widget handled the key; the scroll host must not also act on it.
    Handled,
    /// The widget did not handle the key, so the scroll host may act on it.
    Ignored,
}

/// A window operation a widget asked for while handling input; the host
/// window performs them in order once the widget returns.
#[derive(Debug)]
pub enum WidgetRequest {
    /// Repaint the whole widget.
    Invalidate,
    /// Repaint only this rectangle (client device pixels).
    InvalidateRect(Rect),
    /// Show `text` while the pointer rests inside the rectangle.
    Tooltip(Rect, String),
    /// Capture the mouse.
    Capture,
    /// Release the mouse capture.
    ReleaseCapture,
    /// Show this cursor over the widget.
    Cursor(CursorShape),
    /// Take the keyboard focus.
    Focus,
}

/// The context a custom widget is given while handling input. It collects
/// the widget's events (mapped to the app's message afterwards, never
/// re-entering the app) and the window operations it asks for.
pub struct WidgetCx<E> {
    hwnd: Hwnd,
    bounds: Rect,
    dpi: u32,
    animate: bool,
    events: Vec<E>,
    requests: Vec<WidgetRequest>,
}

/// Whether `cx` is a fresh context for one input to the widget in window
/// `hwnd` with client bounds `bounds` at `dpi`, animating when `animate`:
/// nothing raised or requested yet.
pub open spec fn fresh_cx<E>(cx: WidgetCx<E>, hwnd: Hwnd, bounds: Rect, dpi: u32, animate: bool) -> bool {
    &&& cx.spec_hwnd() == hwnd
    &&& cx.spec_bounds() == bounds
    &&& cx.spec_dpi() == dpi
    &&& cx.spec_animate() == animate
    &&& cx.spec_events().len() == 0
    &&& cx.spec_requests().len() == 0
}

impl<E> WidgetCx<E> {
    /// The widget window.
    pub closed spec fn spec_hwnd(&self) -> Hwnd {
        self.hwnd
    }

    /// The widget's client bounds.
    pub closed spec fn spec_bounds(&self) -> Rect {
        self.bounds
    }

    /// The widget's DPI.
    pub closed spec fn spec_dpi(&self) -> u32 {
        self.dpi
    }

    /// Whether the widget wants animation ticks.
    pub closed spec fn spec_animate(&self) -> bool {
        self.animate
    }

    /// The events raised so far, in order.
    pub closed spec fn spec_events(&self) -> Seq<E> {
        self.events@
    }

    /// The window operations asked for so far, in order.
    pub closed spec fn spec_requests(&self) -> Seq<WidgetRequest> {
        self.requests@
    }

    /// A fresh context for one input.
    pub fn new(hwnd: Hwnd, bounds: Rect, dpi: u32, animate: bool) -> (cx: WidgetCx<E>)
        ensures
            cx.spec_hwnd() == hwnd,
            cx.spec_bounds() == bounds,
            cx.spec_dpi() == dpi,
            cx.spec_animate() == animate,
            cx.spec_events().len() == 0,
            cx.spec_requests().len() == 0,
    {
        WidgetCx { hwnd, bounds, dpi, animate, events: Vec::new(), requests: Vec::new() }
    }

    /// The widget's dots-per-inch, to convert input coordinates (device
    /// pixels) to design units.
    pub fn dpi(&self) -> (d: u32)
        ensures
            d == self.spec_dpi(),
    {
        self.dpi
    }

    /// Starts (`true`) or stops (`false`) the animation timer that delivers
    /// [`Input::Tick`] about every frame.
    pub fn request_animation(&mut self, on: bool)
        ensures
            final(self).spec_animate() == on,
            final(self).spec_events() == old(self).spec_events(),
            final(self).spec_requests() == old(self).spec_requests(),
            final(self).spec_bounds() == old(self).spec_bounds(),
            final(self).spec_hwnd() == old(self).spec_hwnd(),
            final(self).spec_dpi() == old(self).spec_dpi(),
    {
        self.animate = on;
    }

    /// Raises `event`; it is mapped to the app's message after the input
    /// returns.
    pub fn emit(&mut self, event: E)
        ensures
            final(self).spec_events() == old(self).spec_events().push(event),
            final(self).spec_requests() == old(self).spec_requests(),
            final(self).spec_animate() == old(self).spec_animate(),
            final(self).spec_bounds() == old(self).spec_bounds(),
            final(self).spec_hwnd() == old(self).spec_hwnd(),
            final(self).spec_dpi() == old(self).spec_dpi(),
    {
        self.events.push(event);
    }

    fn request(&mut self, request: WidgetRequest)
        ensures
            final(self).spec_requests() == old(self).spec_requests().push(request),
            final(self).spec_events() == old(self).spec_events(),
            final(self).spec_animate() == old(self).spec_animate(),
            final(self).spec_bounds() == old(self).spec_bounds(),
            final(self).spec_hwnd() == old(self).spec_hwnd(),
            final(self).spec_dpi() == old(self).spec_dpi(),
    {
        self.requests.push(request);
    }

    /// The widget's current client bounds, in device pixels.
    pub fn bounds(&self) -> (b: Rect)
        ensures
            b == self.spec_bounds(),
    {
        self.bounds
    }

    /// Schedules a repaint of the widget.
    pub fn invalidate(&mut self)
        ensures
            final(self).spec_requests() == old(self).spec_requests().push(WidgetRequest::Invalidate),
            final(self).spec_events() == old(self).spec_events(),
            final(self).spec_animate() == old(self).spec_animate(),
            final(self).spec_bounds() == old(self).spec_bounds(),
            final(self).spec_hwnd() == old(self).spec_hwnd(),
            final(self).spec_dpi() == old(self).spec_dpi(),
    {
        self.request(WidgetRequest::Invalidate);
    }

    /// Schedules a repaint of `rect` only, in client device pixels.
    pub fn invalidate_rect(&mut self, rect: Rect)
        ensures
            final(self).spec_requests() == old(self).spec_requests().push(WidgetRequest::InvalidateRect(rect)),
            final(self).spec_events() == old(self).spec_events(),
            final(self).spec_animate() == old(self).spec_animate(),
            final(self).spec_bounds() == old(self).spec_bounds(),
            final(self).spec_hwnd() == old(self).spec_hwnd(),
            final(self).spec_dpi() == old(self).spec_dpi(),
    {
        self.request(WidgetRequest::InvalidateRect(rect));
    }

    /// Shows `text` while the pointer rests inside `rect` (client device
    /// pixels).
    pub fn set_tooltip_region(&mut self, rect: Rect, text: &str)
        ensures
            final(self).spec_requests().len() == old(self).spec_requests().len() + 1,
            final(self).spec_requests().drop_last() == old(self).spec_requests(),
            final(self).spec_requests().last() matches WidgetRequest::Tooltip(r, t) && r == rect && t@ == text@,
            final(self).spec_events() == old(self).spec_events(),
            final(self).spec_animate() == old(self).spec_animate(),
            final(self).spec_bounds() == old(self).spec_bounds(),
            final(self).spec_hwnd() == old(self).spec_hwnd(),
            final(self).spec_dpi() == old(self).spec_dpi(),
    {
        let owned = text.to_owned();
        self.request(WidgetRequest::Tooltip(rect, owned));
    }

    /// Captures the mouse until [`WidgetCx::release_capture`].
    pub fn capture(&mut self)
        ensures
            final(self).spec_requests() == old(self).spec_requests().push(WidgetRequest::Capture),
            final(self).spec_events() == old(self).spec_events(),
            final(self).spec_animate() == old(self).spec_animate(),
            final(self).spec_bounds() == old(self).spec_bounds(),
            final(self).spec_hwnd() == old(self).spec_hwnd(),
            final(self).spec_dpi() == old(self).spec_dpi(),
    {
        self.request(WidgetRequest::Capture);
    }

    /// Releases the mouse capture, if the widget holds it.
    pub fn release_capture(&mut self)
        ensures
            final(self).spec_requests() == old(self).spec_requests().push(WidgetRequest::ReleaseCapture),
            final(self).spec_events() == old(self).spec_events(),
            final(self).spec_animate() == old(self).spec_animate(),
            final(self).spec_bounds() == old(self).spec_bounds(),
            final(self).spec_hwnd() == old(self).spec_hwnd(),
            final(self).spec_dpi() == old(self).spec_dpi(),
    {
        self.request(WidgetRequest::ReleaseCapture);
    }

    /// Sets the cursor shown over the widget.
    pub fn cursor(&mut self, shape: CursorShape)
        ensures
            final(self).spec_requests() == old(self).spec_requests().push(WidgetRequest::Cursor(shape)),
            final(self).spec_events() == old(self).spec_events(),
            final(self).spec_animate() == old(self).spec_animate(),
            final(self).spec_bounds() == old(self).spec_bounds(),
            final(self).spec_hwnd() == old(self).spec_hwnd(),
            final(self).spec_dpi() == old(self).spec_dpi(),
    {
        self.request(WidgetRequest::Cursor(shape));
    }

    /// Gives the widget the keyboard focus.
    pub fn focus(&mut self)
        ensures
            final(self).spec_requests() == old(self).spec_requests().push(WidgetRequest::Focus),
            final(self).spec_events() == old(self).spec_events(),
            final(self).spec_animate() == old(self).spec_animate(),
            final(self).spec_bounds() == old(self).spec_bounds(),
            final(self).spec_hwnd() == old(self).spec_hwnd(),
            final(self).spec_dpi() == old(self).spec_dpi(),
    {
        self.request(WidgetRequest::Focus);
    }

    /// Whether the widget wants animation ticks after this input.
    pub fn animate(&self) -> (a: bool)
        ensures
            a == self.spec_animate(),
    {
        self.animate
    }

    /// Hands the raised events and the requested operations to the host.
    pub fn finish(self) -> (r: (Vec<E>, Vec<WidgetRequest>))
        ensures
            r.0@ == self.spec_events(),
            r.1@ == self.spec_requests(),
    {
        (self.events, self.requests)
    }
}

} // verus!
