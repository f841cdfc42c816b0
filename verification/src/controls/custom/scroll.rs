//! The vertical scroll host of a custom widget: the offset arithmetic behind
//! thumb tracking, line/page/home/end keys and the wheel with `WHEEL_DELTA`
//! accumulation.
//!
//! The offset lives in device pixels (what the native scroll bar takes); the
//! host window writes the range, page and position this state reports back to
//! the bar after every change.

use vstd::prelude::*;

use crate::geometry::Rect;
use crate::message::{Key, VK_DOWN, VK_END, VK_HOME, VK_NEXT, VK_PRIOR, VK_UP};
use crate::units::{Dip, Px};

verus! {

/// How far one wheel notch scrolls, in design units.
pub const WHEEL_NOTCH_DIP: i32 = 48;

/// Whether `key` is a navigation key the scroll host acts on.
pub open spec fn is_scroll_key_spec(key: Key) -> bool {
    key.0 == VK_UP || key.0 == VK_DOWN || key.0 == VK_PRIOR || key.0 == VK_NEXT || key.0 == VK_HOME || key.0 == VK_END
}

/// Whether `key` is a navigation key the scroll host acts on.
pub fn is_scroll_key(key: Key) -> (b: bool)
    ensures
        b == is_scroll_key_spec(key),
{
    key.0 == VK_UP || key.0 == VK_DOWN || key.0 == VK_PRIOR || key.0 == VK_NEXT || key.0 == VK_HOME
        || key.0 == VK_END
}

/// Where the navigation `key` moves the offset of `s`, before clamping:
/// arrows a notch, PageUp/PageDown a page, Home/End to the ends.
pub open spec fn key_target(s: CustomScroll, key: Key) -> int {
    if key.0 == VK_UP {
        s.spec_offset() - s.spec_notch()
    } else if key.0 == VK_DOWN {
        s.spec_offset() + s.spec_notch()
    } else if key.0 == VK_PRIOR {
        s.spec_offset() - s.spec_page()
    } else if key.0 == VK_NEXT {
        s.spec_offset() + s.spec_page()
    } else if key.0 == VK_HOME {
        0
    } else if key.0 == VK_END {
        s.spec_max_offset()
    } else {
        s.spec_offset()
    }
}

/// How many whole notches a wheel `delta` completes on `s`, with the
/// platform's wheel `unit` (at least one): positive when rolling away from
/// the user.
pub open spec fn wheel_notches(s: CustomScroll, delta: i16, unit: i32) -> int {
    trunc_div(s.spec_wheel_accum() + delta, if unit >= 1 { unit as int } else { 1int })
}

/// `t` is `s` after a wheel `delta` with the platform's wheel `unit`: one
/// notch scrolled per whole unit (rolling away from the user scrolls up),
/// the remainder kept for the next event.
pub open spec fn wheel_step(s: CustomScroll, t: CustomScroll, delta: i16, unit: i32) -> bool {
    let u = if unit >= 1 { unit as int } else { 1int };
    let notches = wheel_notches(s, delta, unit);
    &&& t.spec_wheel_accum() == s.spec_wheel_accum() + delta - notches * u
    &&& notches != 0 ==> t.spec_offset() == clamp_spec(s.spec_offset() - notches * s.spec_notch(), 0, s.spec_max_offset())
    &&& notches == 0 ==> t.spec_offset() == s.spec_offset()
    &&& t.spec_content_height() == s.spec_content_height()
    &&& t.spec_page() == s.spec_page()
    &&& t.spec_notch() == s.spec_notch()
}

/// `v` clamped into `[lo, hi]` (with `lo <= hi`).
pub open spec fn clamp_spec(v: int, lo: int, hi: int) -> int {
    if v < lo {
        lo
    } else if v > hi {
        hi
    } else {
        v
    }
}

/// `a / b` truncated toward zero, as Rust's integer division does.
pub open spec fn trunc_div(a: int, b: int) -> int {
    if a >= 0 {
        a / b
    } else {
        -((-a) / b)
    }
}

/// One decoded `WM_VSCROLL` request.
#[derive(Clone, Copy, Debug, PartialEq, Eq, Structural)]
pub enum ScrollRequest {
    LineUp,
    LineDown,
    PageUp,
    PageDown,
    Top,
    Bottom,
    ThumbTrack(i32),
    ThumbPosition(i32),
    EndScroll,
}

/// The scroll state of a custom widget's vertical scroll host.
pub struct CustomScroll {
    content_height: i32,
    page: i32,
    offset: i32,
    notch: i32,
    wheel_accum: i32,
}

impl CustomScroll {
    /// The content height, in device pixels.
    pub closed spec fn spec_content_height(&self) -> int {
        self.content_height as int
    }

    /// The viewport (page) height, in device pixels.
    pub closed spec fn spec_page(&self) -> int {
        self.page as int
    }

    /// The scroll offset, in device pixels.
    pub closed spec fn spec_offset(&self) -> int {
        self.offset as int
    }

    /// How far a line (and one wheel notch) scrolls, in device pixels.
    pub closed spec fn spec_notch(&self) -> int {
        self.notch as int
    }

    /// The wheel rotation not yet turned into whole notches.
    pub closed spec fn spec_wheel_accum(&self) -> int {
        self.wheel_accum as int
    }

    /// The largest offset: the content height less one page, never negative.
    pub open spec fn spec_max_offset(&self) -> int {
        if self.spec_content_height() - self.spec_page() > 0 {
            self.spec_content_height() - self.spec_page()
        } else {
            0
        }
    }

    /// The state every operation keeps: sizes are non-negative, the notch is
    /// at least one pixel, and the offset lies in `[0, max_offset]`.
    pub open spec fn wf(&self) -> bool {
        &&& self.spec_content_height() >= 0
        &&& self.spec_page() >= 0
        &&& self.spec_notch() >= 1
        &&& 0 <= self.spec_offset() <= self.spec_max_offset()
        &&& -2147483647 <= self.spec_wheel_accum() <= 2147483647
    }

    /// A host with no content yet, scrolling `notch` pixels per line (at
    /// least one).
    pub fn new(notch: i32) -> (s: CustomScroll)
        ensures
            s.wf(),
            s.spec_notch() == if notch >= 1 { notch as int } else { 1 },
            s.spec_content_height() == 0,
            s.spec_page() == 0,
            s.spec_offset() == 0,
            s.spec_wheel_accum() == 0,
    {
        CustomScroll {
            content_height: 0,
            page: 0,
            offset: 0,
            notch: if notch >= 1 { notch } else { 1 },
            wheel_accum: 0,
        }
    }

    /// The current offset in device pixels.
    pub fn offset(&self) -> (o: i32)
        ensures
            o == self.spec_offset(),
    {
        self.offset
    }

    /// The content height in device pixels.
    pub fn content_height(&self) -> (h: i32)
        ensures
            h == self.spec_content_height(),
    {
        self.content_height
    }

    /// The page height in device pixels.
    pub fn page(&self) -> (p: i32)
        ensures
            p == self.spec_page(),
    {
        self.page
    }

    /// The largest offset: the content height less one page, never negative.
    pub fn max_offset(&self) -> (m: i32)
        requires
            self.wf(),
        ensures
            m == self.spec_max_offset(),
    {
        if self.content_height - self.page > 0 {
            self.content_height - self.page
        } else {
            0
        }
    }

    /// Everything `wf` asks but the offset's upper bound.
    pub open spec fn sizes_ok(&self) -> bool {
        &&& self.spec_content_height() >= 0
        &&& self.spec_notch() >= 1
        &&& 0 <= self.spec_offset()
        &&& -2147483647 <= self.spec_wheel_accum() <= 2147483647
    }

    /// Takes the viewport's new client height as the page and re-clamps the
    /// offset.
    pub fn on_size(&mut self, page: i32)
        requires
            old(self).sizes_ok(),
        ensures
            final(self).wf(),
            final(self).spec_page() == if page > 0 { page as int } else { 0 },
            final(self).spec_content_height() == old(self).spec_content_height(),
            final(self).spec_notch() == old(self).spec_notch(),
            final(self).spec_wheel_accum() == old(self).spec_wheel_accum(),
            final(self).spec_offset() == clamp_spec(old(self).spec_offset(), 0, final(self).spec_max_offset()),
    {
        self.page = if page > 0 { page } else { 0 };
        let max = if self.content_height - self.page > 0 {
            self.content_height - self.page
        } else {
            0
        };
        if self.offset > max {
            self.offset = max;
        }
    }

    /// Sets the content height in design units at `dpi`, then re-clamps
    /// against the current page.
    pub fn set_content_height(&mut self, height: Dip, dpi: u32)
        requires
            old(self).wf(),
        ensures
            final(self).wf(),
            final(self).spec_content_height() == if height.spec_to_px(dpi) > 0 { height.spec_to_px(dpi) } else { 0 },
            final(self).spec_page() == old(self).spec_page(),
            final(self).spec_notch() == old(self).spec_notch(),
            final(self).spec_offset() == clamp_spec(old(self).spec_offset(), 0, final(self).spec_max_offset()),
    {
        let px = height.to_px(dpi).value();
        self.content_height = if px > 0 { px } else { 0 };
        let page = self.page;
        self.on_size(page);
    }

    /// The current offset in design units at `dpi`.
    pub fn offset_dip(&self, dpi: u32) -> (d: Dip)
        requires
            dpi > 0,
        ensures
            d.0 == Px(self.spec_offset() as i32).spec_to_dip(dpi),
    {
        Px(self.offset).to_dip(dpi)
    }

    /// Scrolls to `offset` device pixels, clamped to `[0, max_offset]`.
    pub fn scroll_to_px(&mut self, offset: i32)
        requires
            old(self).wf(),
        ensures
            final(self).wf(),
            final(self).spec_offset() == clamp_spec(offset as int, 0, old(self).spec_max_offset()),
            final(self).spec_content_height() == old(self).spec_content_height(),
            final(self).spec_page() == old(self).spec_page(),
            final(self).spec_notch() == old(self).spec_notch(),
            final(self).spec_wheel_accum() == old(self).spec_wheel_accum(),
    {
        self.scroll_to_wide(offset as i64);
    }

    fn scroll_to_wide(&mut self, offset: i64)
        requires
            old(self).wf(),
        ensures
            final(self).wf(),
            final(self).spec_offset() == clamp_spec(offset as int, 0, old(self).spec_max_offset()),
            final(self).spec_content_height() == old(self).spec_content_height(),
            final(self).spec_page() == old(self).spec_page(),
            final(self).spec_notch() == old(self).spec_notch(),
            final(self).spec_wheel_accum() == old(self).spec_wheel_accum(),
    {
        let max = self.max_offset();
        self.offset = if offset < 0 {
            0
        } else if offset > max as i64 {
            max
        } else {
            offset as i32
        };
    }

    /// Scrolls to `offset` design units at `dpi`, clamped to the content.
    pub fn scroll_to(&mut self, offset: Dip, dpi: u32)
        requires
            old(self).wf(),
        ensures
            final(self).wf(),
            final(self).spec_offset() == clamp_spec(offset.spec_to_px(dpi), 0, old(self).spec_max_offset()),
            final(self).spec_content_height() == old(self).spec_content_height(),
            final(self).spec_page() == old(self).spec_page(),
    {
        let px = offset.to_px(dpi).value();
        self.scroll_to_px(px);
    }

    /// Scrolls by `delta` device pixels (positive scrolls down), clamped.
    pub fn scroll_by_px(&mut self, delta: i32)
        requires
            old(self).wf(),
        ensures
            final(self).wf(),
            final(self).spec_offset() == clamp_spec(old(self).spec_offset() + delta, 0, old(self).spec_max_offset()),
            final(self).spec_content_height() == old(self).spec_content_height(),
            final(self).spec_page() == old(self).spec_page(),
            final(self).spec_notch() == old(self).spec_notch(),
            final(self).spec_wheel_accum() == old(self).spec_wheel_accum(),
    {
        let target = self.offset as i64 + delta as i64;
        self.scroll_to_wide(target);
    }

    /// Scrolls the minimum amount so that `rect` (in design units at `dpi`) is
    /// fully inside the viewport: up to its top when it starts above, down to
    /// its bottom when it ends below, not at all when it is already visible.
    pub fn scroll_into_view(&mut self, rect: Rect, dpi: u32)
        requires
            old(self).wf(),
        ensures
            final(self).wf(),
            ({
                let top = Dip(rect.top).spec_to_px(dpi);
                let bottom = Dip(rect.bottom).spec_to_px(dpi);
                let o = old(self).spec_offset();
                let p = old(self).spec_page();
                let next = if top < o { top } else if bottom > o + p { bottom - p } else { o };
                final(self).spec_offset() == clamp_spec(next, 0, old(self).spec_max_offset())
            }),
            final(self).spec_content_height() == old(self).spec_content_height(),
            final(self).spec_page() == old(self).spec_page(),
    {
        let top = Dip(rect.top).to_px(dpi).value() as i64;
        let bottom = Dip(rect.bottom).to_px(dpi).value() as i64;
        let offset = self.offset as i64;
        let page = self.page as i64;
        let next = if top < offset {
            top
        } else if bottom > offset + page {
            bottom - page
        } else {
            offset
        };
        self.scroll_to_wide(next);
    }

    /// Accumulates a raw wheel `delta` against the wheel unit (`WHEEL_DELTA`,
    /// at least one) and scrolls one notch per whole unit: rolling away from
    /// the user (a positive delta) scrolls up. The remainder, with the sign of
    /// the running total, is kept for the next event.
    pub fn wheel(&mut self, delta: i16, unit: i32) -> (moved: bool)
        requires
            old(self).wf(),
        ensures
            final(self).wf(),
            moved == (wheel_notches(*old(self), delta, unit) != 0),
            ({
                let u = if unit >= 1 { unit as int } else { 1int };
                let total = old(self).spec_wheel_accum() + delta;
                let notches = trunc_div(total, u);
                &&& final(self).spec_wheel_accum() == total - notches * u
                &&& notches != 0 ==> final(self).spec_offset() == clamp_spec(
                    old(self).spec_offset() - notches * old(self).spec_notch(), 0, old(self).spec_max_offset())
                &&& notches == 0 ==> final(self).spec_offset() == old(self).spec_offset()
            }),
            final(self).spec_content_height() == old(self).spec_content_height(),
            final(self).spec_page() == old(self).spec_page(),
            final(self).spec_notch() == old(self).spec_notch(),
    {
        let u: i64 = if unit >= 1 { unit as i64 } else { 1 };
        let total: i64 = self.wheel_accum as i64 + delta as i64;
        let notches: i64 = if total >= 0 { total / u } else { -((-total) / u) };
        proof {
            lemma_trunc_div_bound(total as int, u as int);
        }
        let rest: i64 = total - notches * u;
        proof {
            if total >= 0 {
                assert(0 <= rest < u) by (nonlinear_arith)
                    requires
                        notches == (total as int) / (u as int),
                        rest == total - notches * u,
                        total >= 0,
                        u >= 1,
                ;
            } else {
                assert(-u < rest <= 0) by (nonlinear_arith)
                    requires
                        notches == -((-total as int) / (u as int)),
                        rest == total - notches * u,
                        total < 0,
                        u >= 1,
                ;
            }
            assert(-2147483647 <= rest <= 2147483647);
            assert(-2147483648 - 32768 <= notches <= 2147483647 + 32768) by (nonlinear_arith)
                requires
                    notches == trunc_div(total as int, u as int),
                    -2147483647 - 32768 <= total <= 2147483647 + 32767,
                    u >= 1,
            ;
        }
        self.wheel_accum = rest as i32;
        if notches != 0 {
            assert(-(2147483648 + 32768) * 2147483647 <= notches * self.notch <= (2147483648 + 32768) * 2147483647) by (nonlinear_arith)
                requires
                    -2147483648 - 32768 <= notches <= 2147483647 + 32768,
                    1 <= self.notch <= 2147483647,
            ;
            let target: i64 = self.offset as i64 - notches * self.notch as i64;
            self.scroll_to_wide(target);
        }
        notches != 0
    }

    /// Applies one `WM_VSCROLL` request: a line is one notch, a page is one
    /// page, `Top`/`Bottom` jump to the ends, and thumb moves go to `track`,
    /// the bar's tracking position.
    pub fn scroll_request(&mut self, request: ScrollRequest, track: i32)
        requires
            old(self).wf(),
        ensures
            final(self).wf(),
            final(self).spec_offset() == clamp_spec(match request {
                ScrollRequest::LineUp => old(self).spec_offset() - old(self).spec_notch(),
                ScrollRequest::LineDown => old(self).spec_offset() + old(self).spec_notch(),
                ScrollRequest::PageUp => old(self).spec_offset() - old(self).spec_page(),
                ScrollRequest::PageDown => old(self).spec_offset() + old(self).spec_page(),
                ScrollRequest::Top => 0,
                ScrollRequest::Bottom => old(self).spec_max_offset(),
                ScrollRequest::ThumbTrack(_) => track as int,
                ScrollRequest::ThumbPosition(_) => track as int,
                ScrollRequest::EndScroll => old(self).spec_offset(),
            }, 0, old(self).spec_max_offset()),
            final(self).spec_content_height() == old(self).spec_content_height(),
            final(self).spec_page() == old(self).spec_page(),
            final(self).spec_notch() == old(self).spec_notch(),
    {
        let page = self.page;
        let notch = self.notch;
        match request {
            ScrollRequest::LineUp => self.scroll_by_px(-notch),
            ScrollRequest::LineDown => self.scroll_by_px(notch),
            ScrollRequest::PageUp => self.scroll_by_px(-page),
            ScrollRequest::PageDown => self.scroll_by_px(page),
            ScrollRequest::Top => self.scroll_to_px(0),
            ScrollRequest::Bottom => {
                let max = self.max_offset();
                self.scroll_to_px(max)
            },
            ScrollRequest::ThumbTrack(_) | ScrollRequest::ThumbPosition(_) => self.scroll_to_px(track),
            ScrollRequest::EndScroll => {},
        }
    }

    /// Scrolls for a navigation key, returning whether the key was consumed:
    /// arrows move a notch, PageUp/PageDown a page, Home/End to the ends.
    pub fn key(&mut self, key: Key) -> (consumed: bool)
        requires
            old(self).wf(),
        ensures
            final(self).wf(),
            consumed == is_scroll_key_spec(key),
            final(self).spec_offset() == clamp_spec(
                if key.0 == VK_UP {
                    old(self).spec_offset() - old(self).spec_notch()
                } else if key.0 == VK_DOWN {
                    old(self).spec_offset() + old(self).spec_notch()
                } else if key.0 == VK_PRIOR {
                    old(self).spec_offset() - old(self).spec_page()
                } else if key.0 == VK_NEXT {
                    old(self).spec_offset() + old(self).spec_page()
                } else if key.0 == VK_HOME {
                    0
                } else if key.0 == VK_END {
                    old(self).spec_max_offset()
                } else {
                    old(self).spec_offset()
                }, 0, old(self).spec_max_offset()),
            final(self).spec_content_height() == old(self).spec_content_height(),
            final(self).spec_page() == old(self).spec_page(),
    {
        let notch = self.notch;
        let page = self.page;
        if key.0 == VK_UP {
            self.scroll_by_px(-notch);
        } else if key.0 == VK_DOWN {
            self.scroll_by_px(notch);
        } else if key.0 == VK_PRIOR {
            self.scroll_by_px(-page);
        } else if key.0 == VK_NEXT {
            self.scroll_by_px(page);
        } else if key.0 == VK_HOME {
            self.scroll_to_px(0);
        } else if key.0 == VK_END {
            let max = self.max_offset();
            self.scroll_to_px(max);
        } else {
            return false;
        }
        true
    }
}

pub(crate) proof fn lemma_trunc_div_bound(total: int, u: int)
    requires
        u >= 1,
    ensures
        total >= 0 ==> 0 <= trunc_div(total, u) * u <= total,
        total < 0 ==> total <= trunc_div(total, u) * u <= 0,
{
    if total >= 0 {
        assert(0 <= (total / u) * u <= total) by (nonlinear_arith)
            requires
                total >= 0,
                u >= 1,
        ;
    } else {
        assert(0 <= ((-total) / u) * u <= -total) by (nonlinear_arith)
            requires
                -total > 0,
                u >= 1,
        ;
        assert(trunc_div(total, u) * u == -(((-total) / u) * u)) by (nonlinear_arith)
            requires
                trunc_div(total, u) == -((-total) / u),
        ;
    }
}

/// After `scroll_into_view`, a band no taller than the page that lies within
/// the content is entirely visible.
pub proof fn lemma_into_view_shows_band(top: int, bottom: int, offset: int, page: int, content: int)
    requires
        0 <= top <= bottom <= content,
        bottom - top <= page,
        page >= 0,
        0 <= offset <= if content - page > 0 { content - page } else { 0 },
    ensures
        ({
            let max = if content - page > 0 { content - page } else { 0 };
            let next = if top < offset { top } else if bottom > offset + page { bottom - page } else { offset };
            let o = clamp_spec(next, 0, max);
            o <= top && bottom <= o + page
        }),
{
}

/// `scroll_into_view` moves as little as it can: of all the offsets in
/// range at which a band no taller than the page that lies within the
/// content is entirely visible, it lands on the one nearest the current
/// offset.
pub proof fn lemma_into_view_moves_least(top: int, bottom: int, offset: int, page: int, content: int, other: int)
    requires
        0 <= top <= bottom <= content,
        bottom - top <= page,
        page >= 0,
        0 <= offset <= if content - page > 0 { content - page } else { 0 },
        0 <= other <= if content - page > 0 { content - page } else { 0 },
        other <= top,
        bottom <= other + page,
    ensures
        ({
            let max = if content - page > 0 { content - page } else { 0 };
            let next = if top < offset { top } else if bottom > offset + page { bottom - page } else { offset };
            let o = clamp_spec(next, 0, max);
            let moved = if o >= offset { o - offset } else { offset - o };
            let moved_other = if other >= offset { other - offset } else { offset - other };
            moved <= moved_other
        }),
{
}

/// Scrolling to a position and then asking for it reports that position
/// whenever it lies within `[0, max_offset]`.
pub proof fn lemma_scroll_to_in_range(target: int, max: int)
    requires
        0 <= target <= max,
    ensures
        clamp_spec(target, 0, max) == target,
{
}

} // verus!
