//! A scroll container: a native vertical scrollbar over one content window
//! taller than the viewport.
//!
//! The content lives in its own document coordinates and is moved to the
//! scroll offset. A move is issued only when the content's bounds change, so
//! a resize callback that lands on the same extent cannot loop; a viewport
//! that only changed height gets a repaint instead, since nothing else
//! repaints the area it gave up or reclaimed.

use vstd::prelude::*;

use crate::controls::custom::scroll::{clamp_spec, lemma_trunc_div_bound, trunc_div, ScrollRequest};
use crate::geometry::Rect;

verus! {

/// How far one wheel notch scrolls, in design units.
pub const SCROLL_NOTCH_DIP: i32 = 48;

/// What happens to the content window after a scroll state change.
#[derive(Clone, Copy, Debug, PartialEq, Eq, Structural)]
pub enum ContentMove {
    /// Nothing to do.
    Stay,
    /// Only the viewport's height changed: repaint the content.
    Repaint,
    /// Move the content to these bounds.
    Move(Rect),
}

/// The scroll state of a viewport.
pub struct ScrollViewState {
    /// Whether a content window was given.
    pub has_content: bool,
    /// The full content extent, in pixels.
    pub content_height: i32,
    /// The viewport height, in pixels.
    pub page: i32,
    /// The scroll offset, in pixels.
    pub offset: i32,
    /// One wheel notch, in pixels.
    pub notch: i32,
    /// The wheel delta not yet scrolled.
    pub wheel_accum: i32,
    /// The bounds last applied to the content.
    pub last_bounds: Rect,
    /// The viewport height those bounds were applied at.
    pub last_page: i32,
}

/// How far the content can scroll.
pub open spec fn max_offset_spec(content_height: int, page: int) -> int {
    if content_height - page < 0 {
        0
    } else {
        content_height - page
    }
}

/// Where the content goes at the current offset in a viewport `width` wide.
pub open spec fn content_bounds(s: ScrollViewState, width: i32) -> Rect {
    Rect { left: 0, top: -s.offset as i32, right: width, bottom: s.content_height }
}

/// What moving the content into a viewport `width` wide does.
pub open spec fn move_decision(s: ScrollViewState, width: i32) -> ContentMove {
    if !s.has_content {
        ContentMove::Stay
    } else if s.last_bounds == content_bounds(s, width) {
        if s.last_page != s.page {
            ContentMove::Repaint
        } else {
            ContentMove::Stay
        }
    } else {
        ContentMove::Move(content_bounds(s, width))
    }
}

impl ScrollViewState {
    /// The state's consistency: non-negative extents, a positive notch and
    /// the offset within the scrollable range.
    pub open spec fn wf(&self) -> bool {
        &&& self.content_height >= 0
        &&& self.page >= 0
        &&& self.notch >= 1
        &&& 0 <= self.offset <= max_offset_spec(self.content_height as int, self.page as int)
    }

    /// An empty viewport scrolling `notch` pixels per wheel notch (at least
    /// one).
    pub fn new(notch: i32) -> (s: ScrollViewState)
        ensures
            s.wf(),
            !s.has_content,
            s.content_height == 0 && s.page == 0 && s.offset == 0 && s.wheel_accum == 0,
            s.notch == if notch < 1 { 1 } else { notch },
    {
        ScrollViewState {
            has_content: false,
            content_height: 0,
            page: 0,
            offset: 0,
            notch: if notch < 1 { 1 } else { notch },
            wheel_accum: 0,
            last_bounds: Rect::new(0, 0, 0, 0),
            last_page: 0,
        }
    }

    /// How far the content can scroll.
    pub fn max_offset(&self) -> (m: i32)
        requires
            self.wf(),
        ensures
            m == max_offset_spec(self.content_height as int, self.page as int),
    {
        if self.content_height - self.page < 0 { 0 } else { self.content_height - self.page }
    }

    /// Moves the content to the current offset, unless it is already there.
    fn move_content(&mut self, width: i32) -> (m: ContentMove)
        requires
            old(self).wf(),
        ensures
            m == move_decision(*old(self), width),
            final(self).wf(),
            final(self).has_content == old(self).has_content,
            final(self).offset == old(self).offset,
            final(self).page == old(self).page,
            final(self).content_height == old(self).content_height,
            final(self).notch == old(self).notch,
            final(self).wheel_accum == old(self).wheel_accum,
            final(self).has_content ==> final(self).last_bounds == content_bounds(*final(self), width)
                && final(self).last_page == final(self).page,
            !final(self).has_content ==> final(self).last_bounds == old(self).last_bounds
                && final(self).last_page == old(self).last_page,
    {
        if !self.has_content {
            return ContentMove::Stay;
        }
        let bounds = Rect::new(0, -self.offset, width, self.content_height);
        if self.last_bounds == bounds {
            if self.last_page != self.page {
                self.last_page = self.page;
                return ContentMove::Repaint;
            }
            return ContentMove::Stay;
        }
        self.last_bounds = bounds;
        self.last_page = self.page;
        ContentMove::Move(bounds)
    }

    /// Takes a content window `height` pixels tall (a non-positive height
    /// keeps the current extent) and places it.
    pub fn set_content(&mut self, height: i32, width: i32) -> (m: ContentMove)
        requires
            old(self).wf(),
        ensures
            final(self).wf(),
            final(self).has_content,
            final(self).content_height == if height > 0 { height } else { old(self).content_height },
            final(self).page == old(self).page,
            final(self).offset == clamp_spec(
                old(self).offset as int,
                0,
                max_offset_spec(final(self).content_height as int, old(self).page as int),
            ),
            content_bounds(*final(self), width) == (Rect { left: 0, top: 0, right: 0, bottom: 0 }) ==> m == ContentMove::Repaint,
            content_bounds(*final(self), width) != (Rect { left: 0, top: 0, right: 0, bottom: 0 }) ==> m == ContentMove::Move(
                content_bounds(*final(self), width),
            ),
    {
        self.has_content = true;
        self.last_bounds = Rect::new(0, 0, 0, 0);
        self.last_page = -1;
        if height > 0 {
            self.content_height = height;
        }
        let max = self.max_offset_raw();
        self.offset = if self.offset > max { max } else { self.offset };
        self.move_content(width)
    }

    fn max_offset_raw(&self) -> (m: i32)
        requires
            self.content_height >= 0,
            self.page >= 0,
        ensures
            m == max_offset_spec(self.content_height as int, self.page as int),
            m >= 0,
    {
        if self.content_height - self.page < 0 { 0 } else { self.content_height - self.page }
    }

    /// The viewport is now `page` pixels tall and `width` wide: the offset
    /// is clamped to the new range and the content placed.
    pub fn on_size(&mut self, page: i32, width: i32) -> (m: ContentMove)
        requires
            old(self).wf(),
            page >= 0,
        ensures
            final(self).wf(),
            final(self).page == page,
            final(self).content_height == old(self).content_height,
            final(self).offset == clamp_spec(old(self).offset as int, 0, max_offset_spec(old(self).content_height as int, page as int)),
            ({
                let placed = ScrollViewState { page, offset: final(self).offset, ..*old(self) };
                m == move_decision(placed, width)
            }),
    {
        self.page = page;
        let max = self.max_offset_raw();
        self.offset = if self.offset > max { max } else { self.offset };
        self.move_content(width)
    }

    /// Sets the content extent (at least zero) and places the content.
    pub fn set_content_height_px(&mut self, height: i32, width: i32) -> (m: ContentMove)
        requires
            old(self).wf(),
        ensures
            final(self).wf(),
            final(self).content_height == if height < 0 { 0 } else { height },
            final(self).offset == clamp_spec(
                old(self).offset as int,
                0,
                max_offset_spec(final(self).content_height as int, old(self).page as int),
            ),
            ({
                let placed = ScrollViewState {
                    content_height: final(self).content_height,
                    offset: final(self).offset,
                    ..*old(self)
                };
                m == move_decision(placed, width)
            }),
    {
        self.content_height = if height < 0 { 0 } else { height };
        let max = self.max_offset_raw();
        self.offset = if self.offset > max { max } else { self.offset };
        self.move_content(width)
    }

    /// Scrolls to `offset` pixels (clamped to the content) and places the
    /// content.
    pub fn scroll_to_px(&mut self, offset: i64, width: i32) -> (m: ContentMove)
        requires
            old(self).wf(),
        ensures
            final(self).wf(),
            final(self).offset == clamp_spec(offset as int, 0, max_offset_spec(old(self).content_height as int, old(self).page as int)),
            final(self).content_height == old(self).content_height,
            final(self).page == old(self).page,
            final(self).notch == old(self).notch,
            final(self).wheel_accum == old(self).wheel_accum,
            final(self).has_content == old(self).has_content,
            ({
                let placed = ScrollViewState { offset: final(self).offset, ..*old(self) };
                m == move_decision(placed, width)
            }),
    {
        let max = self.max_offset_raw() as i64;
        let clamped: i64 = if offset < 0 { 0 } else if offset > max { max } else { offset };
        self.offset = clamped as i32;
        self.move_content(width)
    }

    /// Scrolls by `delta` pixels (positive scrolls down).
    pub fn scroll_by_px(&mut self, delta: i32, width: i32) -> (m: ContentMove)
        requires
            old(self).wf(),
        ensures
            final(self).wf(),
            final(self).offset == clamp_spec(
                old(self).offset + delta,
                0,
                max_offset_spec(old(self).content_height as int, old(self).page as int),
            ),
    {
        self.scroll_to_px(self.offset as i64 + delta as i64, width)
    }

    /// Accumulates a raw wheel `delta` and scrolls whole notches of `unit`
    /// (`WHEEL_DELTA`, at least one) each, up for a positive delta; the rest
    /// is kept for the next turn.
    pub fn wheel(&mut self, delta: i16, unit: i32, width: i32) -> (m: ContentMove)
        requires
            old(self).wf(),
        ensures
            final(self).wf(),
            ({
                let u = if unit >= 1 { unit as int } else { 1int };
                let accumulated = old(self).wheel_accum + delta;
                let notches = trunc_div(accumulated, u);
                &&& final(self).wheel_accum == accumulated - notches * u
                &&& notches != 0 ==> final(self).offset == clamp_spec(
                    old(self).offset - notches * old(self).notch,
                    0,
                    max_offset_spec(old(self).content_height as int, old(self).page as int),
                )
                &&& notches == 0 ==> final(self).offset == old(self).offset && m == ContentMove::Stay
            }),
            final(self).content_height == old(self).content_height,
            final(self).page == old(self).page,
    {
        let u: i64 = if unit >= 1 { unit as i64 } else { 1 };
        let total: i64 = self.wheel_accum as i64 + delta as i64;
        let notches: i64 = if total >= 0 { total / u } else { -((-total) / u) };
        proof {
            lemma_trunc_div_bound(total as int, u as int);
        }
        let rest: i64 = total - notches * u;
        proof {
            if total >= 0 {
                assert(0 <= rest < u) by (nonlinear_arith)
                    requires
                        notches == (total as int) / (u as int),
                        rest == total - notches * u,
                        total >= 0,
                        u >= 1,
                ;
            } else {
                assert(-u < rest <= 0) by (nonlinear_arith)
                    requires
                        notches == -((-total as int) / (u as int)),
                        rest == total - notches * u,
                        total < 0,
                        u >= 1,
                ;
            }
            assert(-2147483648 - 32768 <= notches <= 2147483647 + 32768) by (nonlinear_arith)
                requires
                    notches == trunc_div(total as int, u as int),
                    -2147483648 - 32768 <= total <= 2147483647 + 32767,
                    u >= 1,
            ;
        }
        self.wheel_accum = rest as i32;
        if notches == 0 {
            return ContentMove::Stay;
        }
        assert(-(2147483648 + 32768) * 2147483647 <= notches * self.notch <= (2147483648 + 32768) * 2147483647) by (nonlinear_arith)
            requires
                -2147483648 - 32768 <= notches <= 2147483647 + 32768,
                1 <= self.notch <= 2147483647,
        ;
        let target: i64 = self.offset as i64 - notches * self.notch as i64;
        self.scroll_to_px(target, width)
    }

    /// Carries out one scroll-bar request; `track` is the thumb position the
    /// bar reports while it is dragged.
    pub fn scroll_request(&mut self, request: ScrollRequest, track: i32, width: i32) -> (m: ContentMove)
        requires
            old(self).wf(),
        ensures
            final(self).wf(),
            final(self).offset == clamp_spec(
                match request {
                    ScrollRequest::LineUp => old(self).offset - old(self).notch,
                    ScrollRequest::LineDown => old(self).offset + old(self).notch,
                    ScrollRequest::PageUp => old(self).offset - old(self).page,
                    ScrollRequest::PageDown => old(self).offset + old(self).page,
                    ScrollRequest::Top => 0,
                    ScrollRequest::Bottom => max_offset_spec(old(self).content_height as int, old(self).page as int),
                    ScrollRequest::ThumbTrack(_) => track as int,
                    ScrollRequest::ThumbPosition(_) => track as int,
                    ScrollRequest::EndScroll => old(self).offset as int,
                },
                0,
                max_offset_spec(old(self).content_height as int, old(self).page as int),
            ),
            request == ScrollRequest::EndScroll ==> m == ContentMove::Stay && *final(self) == *old(self),
    {
        let offset = self.offset as i64;
        let target: i64 = match request {
            ScrollRequest::LineUp => offset - self.notch as i64,
            ScrollRequest::LineDown => offset + self.notch as i64,
            ScrollRequest::PageUp => offset - self.page as i64,
            ScrollRequest::PageDown => offset + self.page as i64,
            ScrollRequest::Top => 0,
            ScrollRequest::Bottom => self.max_offset_raw() as i64,
            ScrollRequest::ThumbTrack(_) => track as i64,
            ScrollRequest::ThumbPosition(_) => track as i64,
            ScrollRequest::EndScroll => {
                return ContentMove::Stay;
            },
        };
        self.scroll_to_px(target, width)
    }
}

/// Placing the content twice in a row with nothing changed in between moves
/// it at most once: after any placement, placing it again into a viewport
/// of the same width does nothing. A resize callback that recomputes the
/// same extent therefore cannot loop.
pub proof fn lemma_placing_twice_moves_once(s: ScrollViewState, width: i32)
    requires
        s.has_content,
        s.last_bounds == content_bounds(s, width),
        s.last_page == s.page,
    ensures
        move_decision(s, width) == ContentMove::Stay,
{
}

} // verus!
