//! Custom owner-drawn widgets: the model of the child window that hosts a
//! [`CustomWidget`], its optional vertical scroll host, and the routing of the
//! child window's messages.
//!
//! The host window does the painting and the window calls; this module decides
//! what each message means for the widget: which input it receives, whether
//! the scroll host moves, whether the animation timer starts or stops, and
//! what the window procedure answers.

pub mod scroll;
pub mod widget;

use vstd::prelude::*;

use crate::controls::custom::scroll::{
    clamp_spec, is_scroll_key, is_scroll_key_spec, key_target, wheel_notches, wheel_step, CustomScroll, ScrollRequest, WHEEL_NOTCH_DIP,
};
use crate::controls::custom::widget::{fresh_cx, input_of, Input, KeyResult, Renderer, WidgetCx, WidgetRequest};
use crate::geometry::{Rect, Size};
use crate::hwnd::Hwnd;
use crate::message::{Key, Message, Modifiers, TimerId};
use crate::units::{dip, Dip, Px};

verus! {

// Window message codes, from `WinUser.h`.
pub const WM_PAINT: u32 = 0x000F;
pub const WM_ERASEBKGND: u32 = 0x0014;
pub const WM_GETDLGCODE: u32 = 0x0087;
pub const WM_VSCROLL: u32 = 0x0115;
/// `DLGC_WANTARROWS`: the control handles the arrow keys itself.
pub const DLGC_WANTARROWS: isize = 0x0001;

// `SB_*` scroll-bar request codes, from `WinUser.h`.
pub const SB_LINEUP: u16 = 0;
pub const SB_LINEDOWN: u16 = 1;
pub const SB_PAGEUP: u16 = 2;
pub const SB_PAGEDOWN: u16 = 3;
pub const SB_THUMBPOSITION: u16 = 4;
pub const SB_THUMBTRACK: u16 = 5;
pub const SB_TOP: u16 = 6;
pub const SB_BOTTOM: u16 = 7;
pub const SB_ENDSCROLL: u16 = 8;

/// The request a `WM_VSCROLL` `wparam` encodes: the request in its low word,
/// the thumb position in its high word.
pub open spec fn vscroll_request_spec(wparam: usize) -> Option<ScrollRequest> {
    let code = wparam % 0x10000;
    let pos = (wparam / 0x10000) % 0x10000;
    if code == SB_LINEUP as int {
        Some(ScrollRequest::LineUp)
    } else if code == SB_LINEDOWN as int {
        Some(ScrollRequest::LineDown)
    } else if code == SB_PAGEUP as int {
        Some(ScrollRequest::PageUp)
    } else if code == SB_PAGEDOWN as int {
        Some(ScrollRequest::PageDown)
    } else if code == SB_THUMBPOSITION as int {
        Some(ScrollRequest::ThumbPosition(pos as i32))
    } else if code == SB_THUMBTRACK as int {
        Some(ScrollRequest::ThumbTrack(pos as i32))
    } else if code == SB_TOP as int {
        Some(ScrollRequest::Top)
    } else if code == SB_BOTTOM as int {
        Some(ScrollRequest::Bottom)
    } else if code == SB_ENDSCROLL as int {
        Some(ScrollRequest::EndScroll)
    } else {
        None
    }
}

/// Decodes a `WM_VSCROLL` `wparam`.
pub fn decode_vscroll(wparam: usize) -> (r: Option<ScrollRequest>)
    ensures
        r == vscroll_request_spec(wparam),
{
    let code = (wparam % 0x10000) as u16;
    let pos = ((wparam / 0x10000) % 0x10000) as i32;
    if code == SB_LINEUP {
        Some(ScrollRequest::LineUp)
    } else if code == SB_LINEDOWN {
        Some(ScrollRequest::LineDown)
    } else if code == SB_PAGEUP {
        Some(ScrollRequest::PageUp)
    } else if code == SB_PAGEDOWN {
        Some(ScrollRequest::PageDown)
    } else if code == SB_THUMBPOSITION {
        Some(ScrollRequest::ThumbPosition(pos))
    } else if code == SB_THUMBTRACK {
        Some(ScrollRequest::ThumbTrack(pos))
    } else if code == SB_TOP {
        Some(ScrollRequest::Top)
    } else if code == SB_BOTTOM {
        Some(ScrollRequest::Bottom)
    } else if code == SB_ENDSCROLL {
        Some(ScrollRequest::EndScroll)
    } else {
        None
    }
}

/// An application-defined owner-drawn widget. The host paints it (with the
/// renderer it names) and hands it typed input; anything it raises goes
/// through the [`WidgetCx`].
pub trait CustomWidget: Sized {
    /// The events the widget raises through [`WidgetCx::emit`].
    type Event;

    /// The widget's own invariant, which every input keeps.
    spec fn inv(&self) -> bool;

    /// Which renderer paints the widget.
    spec fn spec_renderer(&self) -> Renderer;

    /// The widget's natural size in device pixels at `dpi`, if it has one.
    spec fn spec_preferred_size(&self, dpi: u32) -> Option<Size>;

    /// Whether the widget handles the arrow keys itself.
    spec fn spec_wants_arrow_keys(&self) -> bool;

    /// What handling `input` in the context `cx` does: `after` is the
    /// widget and `cx_after` the context afterwards.
    spec fn input_step(
        &self,
        after: Self,
        cx: WidgetCx<Self::Event>,
        cx_after: WidgetCx<Self::Event>,
        input: Input,
    ) -> bool;

    /// What answering the navigation `key` with `r` in the context `cx`
    /// does: `after` is the widget and `cx_after` the context afterwards.
    spec fn key_step(
        &self,
        after: Self,
        cx: WidgetCx<Self::Event>,
        cx_after: WidgetCx<Self::Event>,
        key: Key,
        modifiers: Modifiers,
        r: KeyResult,
    ) -> bool;

    /// Which renderer paints the widget (GDI for a plain widget).
    fn renderer(&self) -> (r: Renderer)
        ensures
            r == self.spec_renderer(),
    ;

    /// The widget's natural size in device pixels at `dpi`, if it has one.
    fn preferred_size(&self, dpi: u32) -> (size: Option<Size>)
        ensures
            size == self.spec_preferred_size(dpi),
    ;

    /// Handles one input event.
    fn input(&mut self, input: Input, cx: &mut WidgetCx<Self::Event>)
        requires
            old(self).inv(),
        ensures
            final(self).inv(),
            old(self).input_step(*final(self), *old(cx), *final(cx), input),
    ;

    /// Gets first refusal on a navigation key when the widget is hosted with
    /// a scroll host; a widget that leaves the key to the host answers
    /// [`KeyResult::Ignored`].
    fn key(&mut self, key: Key, modifiers: Modifiers, cx: &mut WidgetCx<Self::Event>) -> (r: KeyResult)
        requires
            old(self).inv(),
        ensures
            final(self).inv(),
            old(self).key_step(*final(self), *old(cx), *final(cx), key, modifiers, r),
    ;

    /// Whether the widget handles the arrow keys itself (`DLGC_WANTARROWS`).
    fn wants_arrow_keys(&self) -> (wants: bool)
        ensures
            wants == self.spec_wants_arrow_keys(),
    ;
}

/// What the animation timer must do after an input.
#[derive(Clone, Copy, Debug, PartialEq, Eq, Structural)]
pub enum TimerChange {
    /// Nothing changes.
    Keep,
    /// Start the one-frame repeating timer and report its id back.
    Start,
    /// Stop this timer.
    Stop(TimerId),
}

/// The timer change when the widget now asks for animation `animate` and
/// `timer` is the running animation timer: start one, stop it, or keep.
pub open spec fn timer_change(animate: bool, timer: Option<TimerId>) -> TimerChange {
    if animate && timer is None {
        TimerChange::Start
    } else if !animate && timer is Some {
        TimerChange::Stop(timer->0)
    } else {
        TimerChange::Keep
    }
}

/// The running timer after that change (a started timer is reported back
/// later through [`Custom::set_timer_id`]).
pub open spec fn timer_after(animate: bool, timer: Option<TimerId>) -> Option<TimerId> {
    if !animate && timer is Some {
        None
    } else {
        timer
    }
}

/// What the host window must do for one message, after the model handled it.
pub struct Handled<E> {
    /// The route the message took.
    pub route: Route,
    /// The window procedure's answer; `None` passes the message on.
    pub result: Option<isize>,
    /// Paint the widget, then call [`Custom::frame`].
    pub paint: bool,
    /// Paint the widget with GDI into this device context.
    pub paint_into: Option<usize>,
    /// Arm `WM_MOUSELEAVE` tracking.
    pub track_leave: bool,
    /// Rewrite the scroll bar from the scroll host's state.
    pub scroll_changed: bool,
    /// Start or stop the animation timer.
    pub timer: TimerChange,
    /// The events the widget raised, in order.
    pub events: Vec<E>,
    /// The window operations the widget asked for, in order.
    pub requests: Vec<WidgetRequest>,
    /// The new scroll offset, in design units, when the message scrolled
    /// the content: the app's scroll mapping runs with it (see
    /// [`Handled::scroll_message`]).
    pub scrolled: Option<Dip>,
}

/// The messages among `outs`, in order.
pub open spec fn raised<M>(outs: Seq<Option<M>>) -> Seq<M>
    decreases outs.len(),
{
    if outs.len() == 0 {
        seq![]
    } else {
        match outs.last() {
            Some(m) => raised(outs.drop_last()).push(m),
            None => raised(outs.drop_last()),
        }
    }
}

impl<E> Handled<E> {
    /// Maps the events the widget raised through the app's `on_event`
    /// closure, in order: every event runs the closure once, and each
    /// message it returns is raised. Nothing is raised without a closure.
    pub fn event_messages<M, F>(&self, on_event: &Option<F>) -> (msgs: Vec<M>)
        where
            E: Copy,
            F: Fn(E) -> Option<M>,
        requires
            on_event matches Some(f) ==> forall|e: E| call_requires(f, (e,)),
        ensures
            on_event is None ==> msgs@.len() == 0,
            on_event matches Some(f) ==> exists|outs: Seq<Option<M>>| {
                &&& outs.len() == self.events@.len()
                &&& forall|i: int| 0 <= i < outs.len() ==> call_ensures(f, (self.events@[i],), #[trigger] outs[i])
                &&& msgs@ == raised(outs)
            },
    {
        let mut msgs: Vec<M> = Vec::new();
        match on_event {
            None => msgs,
            Some(f) => {
                let ghost mut outs: Seq<Option<M>> = seq![];
                let mut i: usize = 0;
                while i < self.events.len()
                    invariant
                        i <= self.events@.len(),
                        outs.len() == i,
                        forall|e: E| call_requires(*f, (e,)),
                        forall|k: int| 0 <= k < outs.len() ==> call_ensures(*f, (self.events@[k],), #[trigger] outs[k]),
                        msgs@ == raised(outs),
                    decreases self.events@.len() - i,
                {
                    let event = self.events[i];
                    let out = f(event);
                    let ghost before = outs;
                    proof {
                        outs = outs.push(out);
                        assert(outs.drop_last() =~= before);
                    }
                    match out {
                        Some(m) => msgs.push(m),
                        None => {},
                    }
                    i = i + 1;
                }
                msgs
            },
        }
    }

    /// Maps the scroll this answer reports through the app's `on_scroll`
    /// closure: the closure runs once, with the new offset in design units,
    /// after every scroll a message caused, and not otherwise.
    pub fn scroll_message<M, F>(&self, on_scroll: &Option<F>) -> (r: Option<M>)
        where
            F: Fn(Dip) -> Option<M>,
        requires
            on_scroll matches Some(f) ==> (self.scrolled matches Some(d) ==> call_requires(f, (d,))),
        ensures
            match (self.scrolled, on_scroll) {
                (Some(d), Some(f)) => call_ensures(f, (d,), r),
                _ => r is None,
            },
    {
        match (self.scrolled, on_scroll) {
            (Some(d), Some(f)) => f(d),
            _ => None,
        }
    }
}

/// The route one message takes through the host.
#[derive(Clone, Copy, Debug, PartialEq, Eq, Structural)]
pub enum Route {
    /// `WM_ERASEBKGND`: answered without erasing (the widget paints it all).
    EraseBackground,
    /// Paint, then deliver [`Input::Frame`].
    Paint,
    /// Paint into the device context carried in `wparam`.
    PaintInto(usize),
    /// The animation timer fired: deliver [`Input::Tick`].
    Tick,
    /// Answer `WM_GETDLGCODE` with `DLGC_WANTARROWS`.
    WantArrows,
    /// The client area was resized.
    Resize(i32, i32),
    /// A vertical wheel event for the scroll host.
    Wheel(i16),
    /// A `WM_VSCROLL`, with its decoded request if it has one.
    VScroll(Option<ScrollRequest>),
    /// Anything else: a navigation key, an input, or nothing.
    Other,
}

/// A custom widget hosted in its own child window.
pub struct Custom<W> {
    widget: W,
    hwnd: Hwnd,
    bounds: Rect,
    dpi: u32,
    scroll: Option<CustomScroll>,
    animate: bool,
    timer: Option<TimerId>,
    tracking_mouse: bool,
}

impl<W: CustomWidget> Custom<W> {
    /// The widget.
    pub closed spec fn spec_widget(&self) -> W {
        self.widget
    }

    /// The child window.
    pub closed spec fn spec_hwnd(&self) -> Hwnd {
        self.hwnd
    }

    /// The client bounds (origin at zero).
    pub closed spec fn spec_bounds(&self) -> Rect {
        self.bounds
    }

    /// The widget's DPI.
    pub closed spec fn spec_dpi(&self) -> u32 {
        self.dpi
    }

    /// The scroll host, if the widget has one.
    pub closed spec fn spec_scroll(&self) -> Option<CustomScroll> {
        self.scroll
    }

    /// The running animation timer, if any.
    pub closed spec fn spec_timer(&self) -> Option<TimerId> {
        self.timer
    }

    /// Whether a `WM_MOUSELEAVE` is armed.
    pub closed spec fn spec_tracking_mouse(&self) -> bool {
        self.tracking_mouse
    }

    /// The scroll offset in design units (zero without a scroll host).
    pub open spec fn spec_offset_dip(&self) -> Dip {
        match self.spec_scroll() {
            Some(s) => Dip(Px(s.spec_offset() as i32).spec_to_dip(self.spec_dpi()) as i32),
            None => Dip(0),
        }
    }

    /// Whether the widget asked for animation ticks.
    pub closed spec fn spec_animate(&self) -> bool {
        self.animate
    }

    /// Whether `message` is a navigation key that the widget and then the
    /// scroll host get first: a scroll key, with a scroll host present.
    pub open spec fn takes_navigation(&self, message: Message) -> bool {
        message matches Message::KeyDown { key, .. } && is_scroll_key_spec(key) && self.spec_scroll() is Some
    }

    /// `input` was handed to the widget in a fresh context built from the
    /// host's window, bounds, DPI and animation flag. `after` holds the
    /// widget as the input left it, the animation flag it asked for and the
    /// timer that leaves running, with the window, bounds, DPI and scroll
    /// host unchanged; `h` carries the events and requests the widget raised,
    /// in order, and the timer change its animation request calls for.
    pub open spec fn delivered(&self, after: Custom<W>, input: Input, h: Handled<W::Event>) -> bool {
        &&& after.spec_hwnd() == self.spec_hwnd()
        &&& after.spec_bounds() == self.spec_bounds()
        &&& after.spec_dpi() == self.spec_dpi()
        &&& after.spec_scroll() == self.spec_scroll()
        &&& exists|cx: WidgetCx<W::Event>, cx_after: WidgetCx<W::Event>| {
            &&& fresh_cx(cx, self.spec_hwnd(), self.spec_bounds(), self.spec_dpi(), self.spec_animate())
            &&& #[trigger] self.spec_widget().input_step(after.spec_widget(), cx, cx_after, input)
            &&& h.events@ == cx_after.spec_events()
            &&& h.requests@ == cx_after.spec_requests()
            &&& after.spec_animate() == cx_after.spec_animate()
            &&& h.timer == timer_change(cx_after.spec_animate(), self.spec_timer())
            &&& after.spec_timer() == timer_after(cx_after.spec_animate(), self.spec_timer())
        }
    }

    /// The navigation `key` was offered to the widget in a fresh context
    /// built from the host's window, bounds, DPI and animation flag. When the
    /// widget answered [`KeyResult::Handled`] the scroll host stayed put;
    /// when it answered [`KeyResult::Ignored`] the scroll host moved for the
    /// key and `h` reports the change. `h` carries the events and requests
    /// the widget raised and the timer change its animation request calls
    /// for, and the key counts as handled.
    pub open spec fn navigated(&self, after: Custom<W>, key: Key, modifiers: Modifiers, h: Handled<W::Event>) -> bool {
        &&& after.spec_hwnd() == self.spec_hwnd()
        &&& after.spec_bounds() == self.spec_bounds()
        &&& after.spec_dpi() == self.spec_dpi()
        &&& after.spec_tracking_mouse() == self.spec_tracking_mouse()
        &&& h.result == Some(0isize)
        &&& exists|cx: WidgetCx<W::Event>, cx_after: WidgetCx<W::Event>, r: KeyResult| {
            &&& fresh_cx(cx, self.spec_hwnd(), self.spec_bounds(), self.spec_dpi(), self.spec_animate())
            &&& #[trigger] self.spec_widget().key_step(after.spec_widget(), cx, cx_after, key, modifiers, r)
            &&& h.events@ == cx_after.spec_events()
            &&& h.requests@ == cx_after.spec_requests()
            &&& after.spec_animate() == cx_after.spec_animate()
            &&& h.timer == timer_change(cx_after.spec_animate(), self.spec_timer())
            &&& after.spec_timer() == timer_after(cx_after.spec_animate(), self.spec_timer())
            &&& (r == KeyResult::Handled ==> after.spec_scroll() == self.spec_scroll() && !h.scroll_changed
                && h.scrolled is None)
            &&& (r == KeyResult::Ignored ==> h.scroll_changed && h.scrolled == Some(after.spec_offset_dip())
                && (self.spec_scroll() matches Some(s)
                && after.spec_scroll() matches Some(t)
                && t.wf()
                && t.spec_offset() == clamp_spec(key_target(s, key), 0, s.spec_max_offset())
                && t.spec_page() == s.spec_page()
                && t.spec_content_height() == s.spec_content_height()))
        }
    }

    /// The host's invariant: the DPI is usable and a scroll host is
    /// well-formed.
    pub open spec fn wf(&self) -> bool {
        &&& 0 < self.spec_dpi()
        &&& self.spec_scroll() matches Some(s) ==> s.wf()
        &&& self.spec_widget().inv()
    }

    /// Hosts `widget` in the child window `hwnd` at `dpi`. The initial bounds
    /// come from the widget's preferred size, or are empty when it has none.
    pub fn new(hwnd: Hwnd, widget: W, dpi: u32) -> (c: Custom<W>)
        requires
            0 < dpi,
            widget.inv(),
        ensures
            c.wf(),
            c.spec_widget() == widget,
            c.spec_hwnd() == hwnd,
            c.spec_dpi() == dpi,
            c.spec_scroll() is None,
            c.spec_timer() is None,
            !c.spec_tracking_mouse(),
            !c.spec_animate(),
            c.spec_bounds() == match widget.spec_preferred_size(dpi) {
                Some(size) => Rect { left: 0, top: 0, right: size.width, bottom: size.height },
                None => Rect { left: 0, top: 0, right: 0, bottom: 0 },
            },
    {
        let bounds = match widget.preferred_size(dpi) {
            Some(size) => Rect::from_size(size),
            None => Rect::new(0, 0, 0, 0),
        };
        Custom { widget, hwnd, bounds, dpi, scroll: None, animate: false, timer: None, tracking_mouse: false }
    }

    /// The widget.
    pub fn widget(&self) -> (w: &W)
        ensures
            *w == self.spec_widget(),
    {
        &self.widget
    }

    /// The widget, for app-side mutation between paints.
    pub fn widget_mut(&mut self) -> (w: &mut W)
        ensures
            *w == old(self).spec_widget(),
            final(self).spec_widget() == *final(w),
            final(self).spec_hwnd() == old(self).spec_hwnd(),
            final(self).spec_dpi() == old(self).spec_dpi(),
            final(self).spec_scroll() == old(self).spec_scroll(),
            final(self).spec_bounds() == old(self).spec_bounds(),
    {
        &mut self.widget
    }

    /// The child window.
    pub fn hwnd(&self) -> (h: Hwnd)
        ensures
            h == self.spec_hwnd(),
    {
        self.hwnd
    }

    /// The widget's DPI.
    pub fn dpi(&self) -> (d: u32)
        ensures
            d == self.spec_dpi(),
    {
        self.dpi
    }

    /// The client bounds.
    pub fn bounds(&self) -> (b: Rect)
        ensures
            b == self.spec_bounds(),
    {
        self.bounds
    }

    /// Gives the widget a vertical scroll host scrolling one wheel notch
    /// (48 design units) per line.
    pub fn with_vscroll(self) -> (c: Custom<W>)
        requires
            self.wf(),
        ensures
            c.wf(),
            c.spec_scroll() matches Some(s) && s.spec_notch() == (if Dip(WHEEL_NOTCH_DIP).spec_to_px(self.spec_dpi()) >= 1 {
                Dip(WHEEL_NOTCH_DIP).spec_to_px(self.spec_dpi())
            } else {
                1
            }) && s.spec_offset() == 0 && s.spec_content_height() == 0,
            c.spec_widget() == self.spec_widget(),
            c.spec_hwnd() == self.spec_hwnd(),
            c.spec_dpi() == self.spec_dpi(),
    {
        let notch = dip(WHEEL_NOTCH_DIP).to_px(self.dpi).value();
        let mut c = self;
        c.scroll = Some(CustomScroll::new(notch));
        c
    }

    /// Sets the scrollable content height in design units. Only meaningful
    /// with a scroll host.
    pub fn set_content_height(&mut self, height: Dip)
        requires
            old(self).wf(),
        ensures
            final(self).wf(),
            old(self).spec_scroll() is None ==> final(self).spec_scroll() is None,
            old(self).spec_scroll() matches Some(s) ==> (final(self).spec_scroll() matches Some(t)
                && t.spec_content_height() == (if height.spec_to_px(old(self).spec_dpi()) > 0 { height.spec_to_px(old(self).spec_dpi()) } else { 0 })
                && t.spec_page() == s.spec_page()
                && t.spec_offset() == clamp_spec(s.spec_offset(), 0, t.spec_max_offset())),
            final(self).spec_dpi() == old(self).spec_dpi(),
            final(self).spec_widget() == old(self).spec_widget(),
            final(self).spec_bounds() == old(self).spec_bounds(),
            final(self).spec_hwnd() == old(self).spec_hwnd(),
    {
        let dpi = self.dpi;
        if let Some(scroll) = &mut self.scroll {
            scroll.set_content_height(height, dpi);
        }
    }

    /// The scroll offset in design units, clamped to the content; zero
    /// without a scroll host.
    pub fn scroll_offset(&self) -> (d: Dip)
        requires
            self.wf(),
        ensures
            self.spec_scroll() is None ==> d.0 == 0,
            self.spec_scroll() matches Some(s) ==> d.0 == crate::units::Px(s.spec_offset() as i32).spec_to_dip(self.spec_dpi()),
    {
        match &self.scroll {
            Some(scroll) => scroll.offset_dip(self.dpi),
            None => dip(0),
        }
    }

    /// Scrolls to `offset` design units from the top, clamped to the content.
    /// Returns the new offset in design units for the app's scroll mapping
    /// (see [`Handled::scroll_message`]), or `None` without a scroll host.
    pub fn scroll_to(&mut self, offset: Dip) -> (scrolled: Option<Dip>)
        requires
            old(self).wf(),
        ensures
            final(self).wf(),
            scrolled == if old(self).spec_scroll() is Some { Some(final(self).spec_offset_dip()) } else { None },
            old(self).spec_scroll() is None ==> final(self).spec_scroll() is None,
            old(self).spec_scroll() matches Some(s) ==> (final(self).spec_scroll() matches Some(t)
                && t.spec_offset() == clamp_spec(offset.spec_to_px(old(self).spec_dpi()), 0, s.spec_max_offset())
                && t.spec_content_height() == s.spec_content_height()
                && t.spec_page() == s.spec_page()),
            final(self).spec_dpi() == old(self).spec_dpi(),
            final(self).spec_widget() == old(self).spec_widget(),
            final(self).spec_bounds() == old(self).spec_bounds(),
            final(self).spec_hwnd() == old(self).spec_hwnd(),
    {
        let dpi = self.dpi;
        if let Some(scroll) = &mut self.scroll {
            scroll.scroll_to(offset, dpi);
        } else {
            return None;
        }
        let d = self.scroll_offset();
        assert(d == self.spec_offset_dip());
        Some(d)
    }

    /// Scrolls the minimum amount so that `rect`, in design units, is fully
    /// visible in the viewport. Returns the new offset in design units for
    /// the app's scroll mapping, or `None` without a scroll host.
    pub fn scroll_into_view(&mut self, rect: Rect) -> (scrolled: Option<Dip>)
        requires
            old(self).wf(),
        ensures
            final(self).wf(),
            scrolled == if old(self).spec_scroll() is Some { Some(final(self).spec_offset_dip()) } else { None },
            old(self).spec_scroll() is None ==> final(self).spec_scroll() is None,
            old(self).spec_scroll() matches Some(s) ==> (final(self).spec_scroll() matches Some(t) && ({
                let top = Dip(rect.top).spec_to_px(old(self).spec_dpi());
                let bottom = Dip(rect.bottom).spec_to_px(old(self).spec_dpi());
                let o = s.spec_offset();
                let p = s.spec_page();
                let next = if top < o { top } else if bottom > o + p { bottom - p } else { o };
                t.spec_offset() == clamp_spec(next, 0, s.spec_max_offset())
            })),
            final(self).spec_dpi() == old(self).spec_dpi(),
            final(self).spec_widget() == old(self).spec_widget(),
            final(self).spec_bounds() == old(self).spec_bounds(),
            final(self).spec_hwnd() == old(self).spec_hwnd(),
    {
        let dpi = self.dpi;
        if let Some(scroll) = &mut self.scroll {
            scroll.scroll_into_view(rect, dpi);
        } else {
            return None;
        }
        let d = self.scroll_offset();
        assert(d == self.spec_offset_dip());
        Some(d)
    }

    /// Reports the id of the animation timer the host started.
    pub fn set_timer_id(&mut self, id: Option<TimerId>)
        ensures
            final(self).spec_timer() == id,
            final(self).spec_widget() == old(self).spec_widget(),
            final(self).spec_scroll() == old(self).spec_scroll(),
            final(self).spec_dpi() == old(self).spec_dpi(),
    {
        self.timer = id;
    }

    /// The timer change the widget's animation request calls for.
    fn sync_timer(&mut self) -> (t: TimerChange)
        ensures
            (old(self).animate && old(self).timer is None) ==> t == TimerChange::Start,
            (!old(self).animate && old(self).timer is Some) ==> t == TimerChange::Stop(old(self).timer->0)
                && final(self).timer is None,
            (old(self).animate == old(self).timer is Some) ==> t == TimerChange::Keep,
            !(!old(self).animate && old(self).timer is Some) ==> final(self).timer == old(self).timer,
            final(self).widget == old(self).widget,
            final(self).scroll == old(self).scroll,
            final(self).dpi == old(self).dpi,
            final(self).animate == old(self).animate,
            final(self).bounds == old(self).bounds,
            final(self).tracking_mouse == old(self).tracking_mouse,
            final(self).hwnd == old(self).hwnd,
    {
        match (self.animate, self.timer) {
            (true, None) => TimerChange::Start,
            (false, Some(id)) => {
                self.timer = None;
                TimerChange::Stop(id)
            },
            _ => TimerChange::Keep,
        }
    }

    /// Hands `input` to the widget with a fresh context, then syncs the
    /// animation timer with what the widget asked for.
    fn dispatch(&mut self, input: Input) -> (h: Handled<W::Event>)
        requires
            old(self).wf(),
        ensures
            final(self).wf(),
            old(self).delivered(*final(self), input, h),
            h.result == Some(0isize),
            !h.paint && h.paint_into is None && !h.track_leave && !h.scroll_changed,
            h.scrolled is None,
            final(self).scroll == old(self).scroll,
            final(self).dpi == old(self).dpi,
            final(self).bounds == old(self).bounds,
            final(self).tracking_mouse == old(self).tracking_mouse,
    {
        let mut cx: WidgetCx<W::Event> = WidgetCx::new(self.hwnd, self.bounds, self.dpi, self.animate);
        let ghost cx0 = cx;
        self.widget.input(input, &mut cx);
        let ghost cx1 = cx;
        self.animate = cx.animate();
        let timer = self.sync_timer();
        let (events, requests) = cx.finish();
        let h = Handled {
            route: Route::Other,
            result: Some(0),
            paint: false,
            paint_into: None,
            track_leave: false,
            scroll_changed: false,
            timer,
            events,
            requests,
            scrolled: None,
        };
        assert(old(self).spec_widget().input_step(self.spec_widget(), cx0, cx1, input));
        h
    }

    /// Delivers [`Input::Frame`] after the host painted a frame.
    pub fn frame(&mut self) -> (h: Handled<W::Event>)
        requires
            old(self).wf(),
        ensures
            final(self).wf(),
            old(self).delivered(*final(self), Input::Frame, h),
            h.result == Some(0isize),
            final(self).spec_scroll() == old(self).spec_scroll(),
    {
        self.dispatch(Input::Frame)
    }

    /// The route `message` takes through the host.
    pub open spec fn route_spec(&self, message: Message, wants_arrows: bool) -> Route {
        match message {
            Message::Other { code, wparam, .. } => if code == WM_ERASEBKGND {
                Route::EraseBackground
            } else if code == WM_PAINT && wparam != 0 {
                Route::PaintInto(wparam)
            } else if code == WM_GETDLGCODE && wants_arrows {
                Route::WantArrows
            } else if code == WM_VSCROLL {
                Route::VScroll(vscroll_request_spec(wparam))
            } else {
                Route::Other
            },
            Message::Paint => Route::Paint,
            Message::Timer { id } => if Some(id) == self.spec_timer() { Route::Tick } else { Route::Other },
            Message::Size { width, height } => Route::Resize(width, height),
            Message::MouseWheel { delta, horizontal, .. } => if !horizontal && self.spec_scroll() is Some {
                Route::Wheel(delta)
            } else {
                Route::Other
            },
            _ => Route::Other,
        }
    }

    /// The route `message` takes through the host: erase and paint requests,
    /// the animation timer, the dialog code, resizes, the scroll host's wheel
    /// and scroll-bar input, or everything else.
    pub fn route(&self, message: Message) -> (r: Route)
        ensures
            r == self.route_spec(message, self.spec_widget().spec_wants_arrow_keys()),
    {
        match message {
            Message::Other { code, wparam, .. } => {
                if code == WM_ERASEBKGND {
                    Route::EraseBackground
                } else if code == WM_PAINT && wparam != 0 {
                    Route::PaintInto(wparam)
                } else if code == WM_GETDLGCODE && self.widget.wants_arrow_keys() {
                    Route::WantArrows
                } else if code == WM_VSCROLL {
                    Route::VScroll(decode_vscroll(wparam))
                } else {
                    Route::Other
                }
            },
            Message::Paint => Route::Paint,
            Message::Timer { id } => {
                if Some(id) == self.timer {
                    Route::Tick
                } else {
                    Route::Other
                }
            },
            Message::Size { width, height } => Route::Resize(width, height),
            Message::MouseWheel { delta, horizontal, .. } => {
                if !horizontal && self.scroll.is_some() {
                    Route::Wheel(delta)
                } else {
                    Route::Other
                }
            },
            _ => Route::Other,
        }
    }

    fn answer(result: Option<isize>, scroll_changed: bool) -> (h: Handled<W::Event>)
        ensures
            h.result == result,
            h.scroll_changed == scroll_changed,
            !h.paint && h.paint_into is None && !h.track_leave,
            h.timer == TimerChange::Keep,
            h.events@.len() == 0,
            h.requests@.len() == 0,
            h.scrolled is None,
    {
        Handled {
            route: Route::Other,
            result,
            paint: false,
            paint_into: None,
            track_leave: false,
            scroll_changed,
            timer: TimerChange::Keep,
            events: Vec::new(),
            requests: Vec::new(),
            scrolled: None,
        }
    }

    /// Gives the widget first refusal on a navigation key, then lets the
    /// scroll host act. `Some` when the key is fully handled: the widget
    /// claimed it or the host scrolled. Without a scroll host, or for a key
    /// the host ignores, `None`: the key then goes on as ordinary input.
    pub fn navigation(&mut self, key: Key, modifiers: Modifiers) -> (h: Option<Handled<W::Event>>)
        requires
            old(self).wf(),
        ensures
            final(self).wf(),
            (!is_scroll_key_spec(key) || old(self).spec_scroll() is None) ==> h is None && *final(self) == *old(self),
            (is_scroll_key_spec(key) && old(self).spec_scroll() is Some) ==> (h matches Some(x)
                && old(self).navigated(*final(self), key, modifiers, x)),
            h matches Some(x) ==> x.result == Some(0isize) && x.route == Route::Other,
            h matches Some(x) && !x.scroll_changed ==> final(self).spec_scroll() == old(self).spec_scroll(),
            h matches Some(x) && x.scroll_changed ==> (old(self).spec_scroll() matches Some(s) && (final(self).spec_scroll() matches Some(t)
                && t.spec_offset() == clamp_spec(key_target(s, key), 0, s.spec_max_offset())
                && t.spec_page() == s.spec_page()
                && t.spec_content_height() == s.spec_content_height())),
            final(self).spec_scroll() is Some == old(self).spec_scroll() is Some,
            final(self).spec_dpi() == old(self).spec_dpi(),
            final(self).spec_bounds() == old(self).spec_bounds(),
            final(self).spec_tracking_mouse() == old(self).spec_tracking_mouse(),
    {
        if !is_scroll_key(key) || self.scroll.is_none() {
            return None;
        }
        let mut cx: WidgetCx<W::Event> = WidgetCx::new(self.hwnd, self.bounds, self.dpi, self.animate);
        let ghost cx0 = cx;
        let ghost before = *self;
        let result = self.widget.key(key, modifiers, &mut cx);
        let ghost cx1 = cx;
        assert(before.spec_widget().key_step(self.spec_widget(), cx0, cx1, key, modifiers, result));
        self.animate = cx.animate();
        let timer = self.sync_timer();
        let (events, requests) = cx.finish();
        let mut scrolled = false;
        let handled = match result {
            KeyResult::Handled => true,
            KeyResult::Ignored => {
                let mut scroll_changed = false;
                let consumed = match &mut self.scroll {
                    Some(scroll) => {
                        let consumed = scroll.key(key);
                        scroll_changed = consumed;
                        consumed
                    },
                    None => false,
                };
                scrolled = scroll_changed;
                consumed
            },
        };
        if handled {
            let scrolled_to = if scrolled {
                let d = self.scroll_offset();
                assert(d == self.spec_offset_dip());
                Some(d)
            } else {
                None
            };
            let h = Handled {
                route: Route::Other,
                result: Some(0),
                paint: false,
                paint_into: None,
                track_leave: false,
                scroll_changed: scrolled,
                timer,
                events,
                requests,
                scrolled: scrolled_to,
            };
            proof {
                assert(result == KeyResult::Handled ==> h.scrolled is None);
                assert(result == KeyResult::Ignored ==> h.scrolled == Some(self.spec_offset_dip()));
                assert(h.events@ == cx1.spec_events());
                assert(before.spec_widget().key_step(self.spec_widget(), cx0, cx1, key, modifiers, result));
            }
            Some(h)
        } else {
            None
        }
    }

    /// What handling `message` does, `after` being the host afterwards and
    /// `h` the answer: the route taken, the window procedure's result, the
    /// new bounds and scroll position, and the mouse-leave tracking.
    pub open spec fn handles(&self, after: Custom<W>, message: Message, wheel_unit: i32, track: i32, h: Handled<W::Event>) -> bool {
        &&& after.wf()
        &&& after.spec_dpi() == self.spec_dpi()
        &&& after.spec_scroll() is Some == self.spec_scroll() is Some
        &&& h.route == self.route_spec(message, self.spec_widget().spec_wants_arrow_keys())
        &&& h.route == Route::EraseBackground ==> h.result == Some(1isize) && !h.paint
        &&& h.route == Route::Paint ==> h.result == Some(0isize) && h.paint
        &&& h.route matches Route::PaintInto(dc) ==> h.result == Some(0isize) && h.paint_into == Some(dc)
        &&& h.route == Route::WantArrows ==> h.result == Some(DLGC_WANTARROWS)
        &&& h.route == Route::Tick ==> h.result == Some(0isize) && self.delivered(after, Input::Tick, h)
        &&& h.route matches Route::Resize(w, hh) ==> h.result == Some(0isize)
            && after.spec_bounds() == (Rect { left: 0, top: 0, right: w, bottom: hh })
            && (self.spec_scroll() matches Some(s) ==> (after.spec_scroll() matches Some(t)
                && t.spec_page() == (if hh > 0 { hh as int } else { 0 })
                && t.spec_offset() == clamp_spec(s.spec_offset(), 0, t.spec_max_offset())))
        &&& h.route matches Route::Wheel(delta) ==> h.result == Some(0isize) && h.scroll_changed
            && (self.spec_scroll() matches Some(s) ==> (after.spec_scroll() matches Some(t)
                && wheel_step(s, t, delta, wheel_unit)
                && h.scrolled == if wheel_notches(s, delta, wheel_unit) != 0 {
                    Some(after.spec_offset_dip())
                } else {
                    None
                }))
        &&& h.route matches Route::VScroll(req) ==> h.scrolled == if self.spec_scroll() is Some
            && (req matches Some(rq) && !(rq is EndScroll)) {
            Some(after.spec_offset_dip())
        } else {
            None
        }
        &&& !(h.route is Wheel || h.route is VScroll || (h.route == Route::Other && self.takes_navigation(message)))
            ==> h.scrolled is None
        &&& h.route matches Route::VScroll(req) ==> h.result == Some(0isize)
            && (self.spec_scroll() matches Some(s) ==> (after.spec_scroll() matches Some(t) && (req matches Some(rq)
                ==> t.spec_offset() == clamp_spec(match rq {
                    ScrollRequest::LineUp => s.spec_offset() - s.spec_notch(),
                    ScrollRequest::LineDown => s.spec_offset() + s.spec_notch(),
                    ScrollRequest::PageUp => s.spec_offset() - s.spec_page(),
                    ScrollRequest::PageDown => s.spec_offset() + s.spec_page(),
                    ScrollRequest::Top => 0,
                    ScrollRequest::Bottom => s.spec_max_offset(),
                    ScrollRequest::ThumbTrack(_) => track as int,
                    ScrollRequest::ThumbPosition(_) => track as int,
                    ScrollRequest::EndScroll => s.spec_offset(),
                }, 0, s.spec_max_offset()))))
        &&& (h.route == Route::Other && input_of(message) is None) ==> h.result is None
        &&& (h.route == Route::Other && self.takes_navigation(message)) ==> match message {
            Message::KeyDown { key, modifiers, .. } => self.navigated(after, key, modifiers, h),
            _ => true,
        }
        &&& (h.route == Route::Other && !self.takes_navigation(message) && input_of(message) is Some)
            ==> self.delivered(after, input_of(message)->0, h)
        &&& (h.route == Route::Other && input_of(message) is Some
            && !(message is KeyDown)) ==> h.result == Some(0isize)
        &&& (h.route == Route::Other && message is MouseMove && !self.spec_tracking_mouse())
            ==> h.track_leave && after.spec_tracking_mouse()
        &&& (h.route == Route::Other && message is MouseLeave) ==> !after.spec_tracking_mouse()
    }

    /// Handles one message of the child window. `wheel_unit` is the
    /// platform's `WHEEL_DELTA` and `track` the scroll bar's current tracking
    /// position (read only for thumb moves).
    ///
    /// Erase requests are answered `1` without erasing; a paint asks the host
    /// to paint and then deliver [`Input::Frame`]; a paint into a device
    /// context paints there; the animation timer delivers [`Input::Tick`];
    /// `WM_GETDLGCODE` claims the arrows for a widget that wants them; a
    /// resize stores the new bounds and re-pages the scroll host; vertical
    /// wheel and scroll-bar input move the scroll host; a navigation key is
    /// offered to the widget and then the scroll host; any other input goes
    /// to the widget (a first mouse move arms leave tracking, a leave disarms
    /// it); anything else is passed on.
    pub fn handle(&mut self, message: Message, wheel_unit: i32, track: i32) -> (h: Handled<W::Event>)
        requires
            old(self).wf(),
        ensures
            old(self).handles(*final(self), message, wheel_unit, track, h),
    {
        let route = self.route(message);
        let mut h = self.handle_route(route, message, wheel_unit, track);
        h.route = route;
        h
    }

    fn handle_route(&mut self, route: Route, message: Message, wheel_unit: i32, track: i32) -> (h: Handled<W::Event>)
        requires
            old(self).wf(),
        ensures
            final(self).wf(),
            final(self).spec_dpi() == old(self).spec_dpi(),
            final(self).spec_scroll() is Some == old(self).spec_scroll() is Some,
            route == Route::EraseBackground ==> h.result == Some(1isize) && !h.paint,
            route == Route::Paint ==> h.result == Some(0isize) && h.paint,
            route matches Route::PaintInto(dc) ==> h.result == Some(0isize) && h.paint_into == Some(dc),
            route == Route::WantArrows ==> h.result == Some(DLGC_WANTARROWS),
            route == Route::Tick ==> h.result == Some(0isize) && old(self).delivered(*final(self), Input::Tick, h),
            route matches Route::Resize(w, hh) ==> h.result == Some(0isize)
                && final(self).spec_bounds() == (Rect { left: 0, top: 0, right: w, bottom: hh })
                && (old(self).spec_scroll() matches Some(s) ==> (final(self).spec_scroll() matches Some(t)
                    && t.spec_page() == (if hh > 0 { hh as int } else { 0 })
                    && t.spec_offset() == clamp_spec(s.spec_offset(), 0, t.spec_max_offset()))),
            route matches Route::Wheel(delta) ==> h.result == Some(0isize) && h.scroll_changed
                && (old(self).spec_scroll() matches Some(s) ==> (final(self).spec_scroll() matches Some(t)
                && wheel_step(s, t, delta, wheel_unit)
                && h.scrolled == if wheel_notches(s, delta, wheel_unit) != 0 {
                    Some(final(self).spec_offset_dip())
                } else {
                    None
                })),
            route matches Route::VScroll(req) ==> h.scrolled == if old(self).spec_scroll() is Some
                && (req matches Some(rq) && !(rq is EndScroll)) {
                Some(final(self).spec_offset_dip())
            } else {
                None
            },
            !(route is Wheel || route is VScroll || (route == Route::Other && old(self).takes_navigation(message)))
                ==> h.scrolled is None,
            route matches Route::VScroll(req) ==> h.result == Some(0isize)
                && (old(self).spec_scroll() matches Some(s) ==> (final(self).spec_scroll() matches Some(t) && (req matches Some(rq)
                    ==> t.spec_offset() == clamp_spec(match rq {
                        ScrollRequest::LineUp => s.spec_offset() - s.spec_notch(),
                        ScrollRequest::LineDown => s.spec_offset() + s.spec_notch(),
                        ScrollRequest::PageUp => s.spec_offset() - s.spec_page(),
                        ScrollRequest::PageDown => s.spec_offset() + s.spec_page(),
                        ScrollRequest::Top => 0,
                        ScrollRequest::Bottom => s.spec_max_offset(),
                        ScrollRequest::ThumbTrack(_) => track as int,
                        ScrollRequest::ThumbPosition(_) => track as int,
                        ScrollRequest::EndScroll => s.spec_offset(),
                    }, 0, s.spec_max_offset())))),
            (route == Route::Other && input_of(message) is None) ==> h.result is None,
            (route == Route::Other && old(self).takes_navigation(message)) ==> match message {
                Message::KeyDown { key, modifiers, .. } => old(self).navigated(*final(self), key, modifiers, h),
                _ => true,
            },
            (route == Route::Other && !old(self).takes_navigation(message) && input_of(message) is Some)
                ==> old(self).delivered(*final(self), input_of(message)->0, h),
            (route == Route::Other && input_of(message) is Some
                && !(message is KeyDown)) ==> h.result == Some(0isize),
            (route == Route::Other && message is MouseMove && !old(self).spec_tracking_mouse())
                ==> h.track_leave && final(self).spec_tracking_mouse(),
            (route == Route::Other && message is MouseLeave) ==> !final(self).spec_tracking_mouse(),
    {
        match route {
            Route::EraseBackground => Self::answer(Some(1), false),
            Route::Paint => Handled {
                route: Route::Other,
                result: Some(0),
                paint: true,
                paint_into: None,
                track_leave: false,
                scroll_changed: false,
                timer: TimerChange::Keep,
                events: Vec::new(),
                requests: Vec::new(),
                scrolled: None,
            },
            Route::PaintInto(dc) => Handled {
                route: Route::Other,
                result: Some(0),
                paint: false,
                paint_into: Some(dc),
                track_leave: false,
                scroll_changed: false,
                timer: TimerChange::Keep,
                events: Vec::new(),
                requests: Vec::new(),
                scrolled: None,
            },
            Route::Tick => self.dispatch(Input::Tick),
            Route::WantArrows => Self::answer(Some(DLGC_WANTARROWS), false),
            Route::Resize(width, height) => {
                self.bounds = Rect::new(0, 0, width, height);
                let changed = match &mut self.scroll {
                    Some(scroll) => {
                        scroll.on_size(height);
                        true
                    },
                    None => false,
                };
                Self::answer(Some(0), changed)
            },
            Route::Wheel(delta) => {
                let moved = match &mut self.scroll {
                    Some(scroll) => scroll.wheel(delta, wheel_unit),
                    None => false,
                };
                let mut h = Self::answer(Some(0), true);
                if moved {
                    let d = self.scroll_offset();
                    assert(d == self.spec_offset_dip());
                    h.scrolled = Some(d);
                }
                h
            },
            Route::VScroll(request) => {
                let mut changed = false;
                let mut moved = false;
                if let Some(scroll) = &mut self.scroll {
                    if let Some(req) = request {
                        scroll.scroll_request(req, track);
                        changed = true;
                        moved = match req {
                            ScrollRequest::EndScroll => false,
                            _ => true,
                        };
                    }
                }
                let mut h = Self::answer(Some(0), changed);
                if moved {
                    let d = self.scroll_offset();
                    assert(d == self.spec_offset_dip());
                    h.scrolled = Some(d);
                }
                h
            },
            Route::Other => {
                if let Message::KeyDown { key, modifiers, .. } = message {
                    if let Some(handled) = self.navigation(key, modifiers) {
                        return handled;
                    }
                }
                let mut track_leave = false;
                match message {
                    Message::MouseMove { .. } => {
                        if !self.tracking_mouse {
                            self.tracking_mouse = true;
                            track_leave = true;
                        }
                    },
                    Message::MouseLeave => {
                        self.tracking_mouse = false;
                    },
                    _ => {},
                }
                match Input::from_message(message) {
                    Some(input) => {
                        let mut h = self.dispatch(input);
                        h.track_leave = track_leave;
                        h
                    },
                    None => Self::answer(None, false),
                }
            },
        }
    }
}

} // verus!
