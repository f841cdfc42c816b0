//! An owner-drawn progress bar: its range, value, state and marquee sweep,
//! and the rectangles it paints.
//!
//! The marquee highlight travels over the bar in [`MARQUEE_STEPS`] equal
//! steps per sweep, one per timer tick, then starts over.

use vstd::prelude::*;

use crate::color::Color;
use crate::controls::progressbar_theme::ProgressBarTheme;
use crate::geometry::Rect;
use crate::message::TimerId;
use crate::theme::Theme;
use crate::units::{px, scale_round, Dip};

verus! {

/// How often the marquee advances, in milliseconds.
pub const MARQUEE_MS: u32 = 30;
/// How many ticks one marquee sweep takes.
pub const MARQUEE_STEPS: u32 = 50;

/// The visual state of a progress bar.
#[derive(Clone, Copy, Debug, PartialEq, Eq, Structural)]
pub enum ProgressState {
    /// Normal progress (accent fill).
    Normal,
    /// Paused (caution fill).
    Paused,
    /// Error (danger fill).
    Error,
}

/// What the host does with the marquee timer after a marquee change.
#[derive(Clone, Copy, Debug, PartialEq, Eq, Structural)]
pub enum MarqueeTimer {
    /// Nothing changed.
    Unchanged,
    /// Start a timer of [`MARQUEE_MS`] and report its id.
    Start,
    /// Stop this timer, if one ran.
    Stop(Option<TimerId>),
}

/// A rounded rectangle.
#[derive(Clone, Copy, Debug, PartialEq, Eq, Structural)]
pub struct RoundFill {
    /// Where.
    pub rect: Rect,
    /// The corner radius.
    pub radius: i32,
}

/// What a progress bar paints: the rounded track, then the rounded fill.
#[derive(Clone, Copy, Debug, PartialEq, Eq, Structural)]
pub struct BarPaint {
    /// The track's rectangle (the whole bar).
    pub track: Rect,
    /// The track's corner radius.
    pub track_radius: i32,
    /// The track's colour.
    pub track_color: Color,
    /// The fill's rectangle and corner radius, when something is filled.
    pub fill: Option<RoundFill>,
    /// The fill's colour.
    pub fill_color: Color,
}

/// The filled width of a bar `total` pixels wide showing `value` of
/// `min..=max`, rounded to the nearest pixel; nothing for an empty range
/// or bar.
pub open spec fn value_width(total: int, min: int, max: int, value: int) -> int {
    if max - min <= 0 || total <= 0 {
        0
    } else {
        scale_round(total, value - min, max - min)
    }
}

/// The value fill is the value's share of the range, measured from `min`,
/// of a bar `total` pixels wide, rounded to the nearest pixel: its width `w`
/// is within half a pixel of `total * (value - min) / (max - min)`. So the
/// value at `min` fills nothing, the value at `max` fills the whole bar, and
/// a larger value never fills less.
pub proof fn lemma_value_width_is_the_value_share(total: int, min: int, max: int, value: int, other: int)
    requires
        total > 0,
        max > min,
    ensures
        ({
            let w = value_width(total, min, max, value);
            let span = max - min;
            -span < 2 * (w * span - total * (value - min)) <= span
        }),
        value_width(total, min, max, min) == 0,
        value_width(total, min, max, max) == total,
        value <= other ==> value_width(total, min, max, value) <= value_width(total, min, max, other),
{
    let span = max - min;
    let w = value_width(total, min, max, value);
    vstd::arithmetic::div_mod::lemma_fundamental_div_mod(2 * total * (value - min) + span, 2 * span);
    vstd::arithmetic::div_mod::lemma_mod_bound(2 * total * (value - min) + span, 2 * span);
    assert(-span < 2 * (w * span - total * (value - min)) <= span) by (nonlinear_arith)
        requires
            w == (2 * total * (value - min) + span) / (2 * span),
            2 * total * (value - min) + span == (2 * span) * w + (2 * total * (value - min) + span) % (2 * span),
            0 <= (2 * total * (value - min) + span) % (2 * span) < 2 * span,
    ;
    let w0 = value_width(total, min, max, min);
    assert(w0 == (span) / (2 * span));
    assert(w0 == 0) by (nonlinear_arith)
        requires
            w0 == span / (2 * span),
            span > 0,
    {
        vstd::arithmetic::div_mod::lemma_fundamental_div_mod_converse(span, 2 * span, 0, span);
    }
    let w1 = value_width(total, min, max, max);
    assert(w1 == (2 * total * span + span) / (2 * span));
    assert(2 * total * span + span == (2 * span) * total + span) by (nonlinear_arith);
    vstd::arithmetic::div_mod::lemma_fundamental_div_mod_converse(2 * total * span + span, 2 * span, total, span);
    if value <= other {
        assert(2 * total * (value - min) + span <= 2 * total * (other - min) + span) by (nonlinear_arith)
            requires
                value <= other,
                total > 0,
        ;
        vstd::arithmetic::div_mod::lemma_div_is_ordered(
            2 * total * (value - min) + span, 2 * total * (other - min) + span, 2 * span);
    }
}

/// The value fill depends only on where the value sits in its range:
/// moving the range and the value together by `k` leaves the fill unchanged.
pub proof fn lemma_value_width_shifts_with_the_range(total: int, min: int, max: int, value: int, k: int)
    ensures
        value_width(total, min + k, max + k, value + k) == value_width(total, min, max, value),
{
    assert((value + k) - (min + k) == value - min);
    assert((max + k) - (min + k) == max - min);
}

/// The marquee highlight's width on a bar `total` pixels wide: 30% of it.
pub open spec fn marquee_width(total: int) -> int {
    if total >= 0 {
        total * 3 / 10
    } else {
        -((-total) * 3 / 10)
    }
}

/// The highlight's offset from the left edge after `step` ticks.
pub open spec fn marquee_left(total: int, step: int) -> int {
    let travel = if total - marquee_width(total) < 0 { 0 } else { total - marquee_width(total) };
    scale_round(travel, step, MARQUEE_STEPS as int)
}

/// The data of a progress bar.
pub struct ProgressBarState {
    /// The palette.
    pub theme: ProgressBarTheme,
    /// The low end of the range.
    pub min: i32,
    /// The high end of the range.
    pub max: i32,
    /// The value, within the range.
    pub value: i32,
    /// The visual state.
    pub state: ProgressState,
    /// Whether the marquee sweep runs instead of showing the value.
    pub marquee: bool,
    /// How many ticks of the current sweep have passed.
    pub marquee_step: u32,
    /// The marquee timer, while one runs.
    pub timer: Option<TimerId>,
    /// The bar's client rectangle.
    pub bounds: Rect,
}

impl ProgressBarState {
    /// The range is ordered, holds the value, and the sweep is within its
    /// steps.
    pub open spec fn wf(&self) -> bool {
        &&& self.min <= self.value <= self.max
        &&& self.marquee_step <= MARQUEE_STEPS
    }

    /// A bar at `dpi` painted from `theme`: `0..=100` at 0, normal, no
    /// marquee, the standard height.
    pub fn new(theme: &Theme, dpi: u32) -> (s: ProgressBarState)
        requires
        ensures
            s.wf(),
            s.theme == ProgressBarTheme::from_theme_spec(*theme),
            s.min == 0 && s.max == 100 && s.value == 0,
            s.state == ProgressState::Normal,
            !s.marquee && s.marquee_step == 0 && s.timer is None,
            s.bounds == (Rect { left: 0, top: 0, right: 0, bottom: px(8, dpi) as i32 }),
    {
        ProgressBarState {
            theme: ProgressBarTheme::from_theme(theme),
            min: 0,
            max: 100,
            value: 0,
            state: ProgressState::Normal,
            marquee: false,
            marquee_step: 0,
            timer: None,
            bounds: Rect::new(0, 0, 0, Dip::new(8).to_px(dpi).value()),
        }
    }

    /// The fill colour for the current state.
    pub fn fill_color(&self) -> (c: Color)
        ensures
            c == match self.state {
                ProgressState::Normal => self.theme.fill,
                ProgressState::Paused => self.theme.paused,
                ProgressState::Error => self.theme.error,
            },
    {
        match self.state {
            ProgressState::Normal => self.theme.fill,
            ProgressState::Paused => self.theme.paused,
            ProgressState::Error => self.theme.error,
        }
    }

    /// Sets the range to `start..=end`, swapping a reversed range so the low
    /// end stays first; the value is clamped into it.
    pub fn set_range(&mut self, start: i32, end: i32)
        ensures
            final(self).wf() || !old(self).wf(),
            final(self).min == if start <= end { start } else { end },
            final(self).max == if start <= end { end } else { start },
            final(self).value == if old(self).value < final(self).min {
                final(self).min
            } else if old(self).value > final(self).max {
                final(self).max
            } else {
                old(self).value
            },
            final(self).state == old(self).state,
            final(self).marquee == old(self).marquee,
            final(self).marquee_step == old(self).marquee_step,
            final(self).bounds == old(self).bounds,
            final(self).theme == old(self).theme,
            final(self).timer == old(self).timer,
    {
        let (low, high) = if start <= end { (start, end) } else { (end, start) };
        self.min = low;
        self.max = high;
        self.value = if self.value < low {
            low
        } else if self.value > high {
            high
        } else {
            self.value
        };
    }

    /// Sets the value, clamped to the range.
    pub fn set_value(&mut self, value: i32)
        requires
            old(self).min <= old(self).max,
        ensures
            final(self).value == if value < old(self).min {
                old(self).min
            } else if value > old(self).max {
                old(self).max
            } else {
                value
            },
            final(self).min == old(self).min,
            final(self).max == old(self).max,
            final(self).state == old(self).state,
            final(self).marquee == old(self).marquee,
            final(self).marquee_step == old(self).marquee_step,
            final(self).bounds == old(self).bounds,
            final(self).theme == old(self).theme,
            final(self).timer == old(self).timer,
    {
        self.value = if value < self.min {
            self.min
        } else if value > self.max {
            self.max
        } else {
            value
        };
    }

    /// Sets the visual state.
    pub fn set_state(&mut self, state: ProgressState)
        ensures
            final(self).state == state,
            final(self).min == old(self).min,
            final(self).max == old(self).max,
            final(self).value == old(self).value,
            final(self).marquee == old(self).marquee,
    {
        self.state = state;
    }

    /// Turns the marquee sweep on or off, restarting it from the left, and
    /// says what to do with the timer.
    pub fn set_marquee(&mut self, on: bool) -> (timer: MarqueeTimer)
        ensures
            old(self).marquee == on ==> timer == MarqueeTimer::Unchanged && final(self).marquee_step == old(self).marquee_step
                && final(self).timer == old(self).timer,
            old(self).marquee != on && on ==> timer == MarqueeTimer::Start && final(self).marquee_step == 0
                && final(self).timer == old(self).timer,
            old(self).marquee != on && !on ==> timer == MarqueeTimer::Stop(old(self).timer) && final(self).marquee_step == 0
                && final(self).timer is None,
            final(self).marquee == on,
            final(self).min == old(self).min,
            final(self).max == old(self).max,
            final(self).value == old(self).value,
            final(self).state == old(self).state,
    {
        if self.marquee == on {
            return MarqueeTimer::Unchanged;
        }
        self.marquee = on;
        self.marquee_step = 0;
        if on {
            MarqueeTimer::Start
        } else {
            let stopped = self.timer;
            self.timer = None;
            MarqueeTimer::Stop(stopped)
        }
    }

    /// Records the marquee timer the host started.
    pub fn timer_started(&mut self, id: TimerId)
        ensures
            final(self).timer == Some(id),
            final(self).marquee == old(self).marquee,
            final(self).marquee_step == old(self).marquee_step,
            final(self).value == old(self).value,
    {
        self.timer = Some(id);
    }

    /// Advances the marquee sweep by one step, starting over after the last.
    /// Does nothing while the marquee is off.
    pub fn advance_marquee(&mut self)
        ensures
            !old(self).marquee ==> final(self).marquee_step == old(self).marquee_step,
            old(self).marquee ==> final(self).marquee_step == if old(self).marquee_step >= MARQUEE_STEPS {
                0
            } else {
                old(self).marquee_step + 1
            },
            final(self).marquee == old(self).marquee,
            final(self).min == old(self).min,
            final(self).max == old(self).max,
            final(self).value == old(self).value,
            final(self).timer == old(self).timer,
    {
        if !self.marquee {
            return;
        }
        self.marquee_step = if self.marquee_step >= MARQUEE_STEPS { 0 } else { self.marquee_step + 1 };
    }

    /// A timer tick: advances the sweep when it is the marquee's own timer.
    /// Returns whether the bar needs repainting.
    pub fn on_timer(&mut self, id: TimerId) -> (repaint: bool)
        ensures
            repaint == (old(self).timer == Some(id)),
            repaint && old(self).marquee ==> final(self).marquee_step == if old(self).marquee_step >= MARQUEE_STEPS {
                0
            } else {
                old(self).marquee_step + 1
            },
            !(repaint && old(self).marquee) ==> final(self).marquee_step == old(self).marquee_step,
            final(self).timer == old(self).timer,
            final(self).value == old(self).value,
    {
        let ours = match self.timer {
            Some(t) => t == id,
            None => false,
        };
        if ours {
            self.advance_marquee();
        }
        ours
    }

    /// The bar was resized to `width` by `height`.
    pub fn on_size(&mut self, width: i32, height: i32)
        ensures
            final(self).bounds == (Rect { left: 0, top: 0, right: width, bottom: height }),
            final(self).value == old(self).value,
            final(self).min == old(self).min,
            final(self).max == old(self).max,
    {
        self.bounds = Rect::new(0, 0, width, height);
    }

    /// The filled part for the current value: as wide as the value's share
    /// of the bar, rounded; nothing when that is no pixel.
    pub fn value_fill(&self) -> (fill: Option<Rect>)
        requires
            self.wf(),
            self.bounds.extents_fit(),
        ensures
            ({
                let w = value_width(self.bounds.spec_width(), self.min as int, self.max as int, self.value as int);
                &&& w <= 0 ==> fill is None
                &&& w > 0 ==> fill == Some(
                    Rect {
                        left: self.bounds.left,
                        top: self.bounds.top,
                        right: (self.bounds.left + w) as i32,
                        bottom: self.bounds.bottom,
                    },
                )
                &&& fill matches Some(r) ==> r.spec_width() == w
            }),
    {
        let span = self.max as i128 - self.min as i128;
        let total = self.bounds.right as i128 - self.bounds.left as i128;
        if span <= 0 || total <= 0 {
            return None;
        }
        let part = self.value as i128 - self.min as i128;
        assert(0 <= 2 * total * part <= 2 * total * span) by (nonlinear_arith)
            requires
                0 <= part <= span,
                total > 0,
        ;
        assert(2 * total * span <= 2 * 0x1_0000_0000 * 0x1_0000_0000) by (nonlinear_arith)
            requires
                0 < span <= 0x1_0000_0000,
                0 < total <= 0x1_0000_0000,
        ;
        let width = (2 * total * part + span) / (2 * span);
        assert(width <= total) by (nonlinear_arith)
            requires
                width == (2 * total * part + span) / (2 * span),
                0 <= part <= span,
                span > 0,
                total > 0,
        {
            assert(2 * total * part + span < (total + 1) * (2 * span));
        }
        if width <= 0 {
            return None;
        }
        Some(Rect::new(self.bounds.left, self.bounds.top, (self.bounds.left as i128 + width) as i32, self.bounds.bottom))
    }

    /// The marquee highlight for the current step: 30% of the bar, moved
    /// along the rest in equal steps; nothing on a bar too narrow for it.
    pub fn marquee_fill(&self) -> (fill: Option<Rect>)
        requires
            self.wf(),
            self.bounds.extents_fit(),
        ensures
            ({
                let total = self.bounds.spec_width();
                let w = marquee_width(total);
                let left = self.bounds.left + marquee_left(total, self.marquee_step as int);
                &&& w <= 0 ==> fill is None
                &&& w > 0 ==> fill == Some(
                    Rect { left: left as i32, top: self.bounds.top, right: (left + w) as i32, bottom: self.bounds.bottom },
                )
                &&& fill matches Some(r) ==> r.spec_width() == w
            }),
    {
        let total = self.bounds.right as i64 - self.bounds.left as i64;
        let width: i64 = if total >= 0 { total * 3 / 10 } else { -((-total) * 3 / 10) };
        if width <= 0 {
            return None;
        }
        let rest = total - width;
        let travel: i64 = if rest < 0 { 0 } else { rest };
        let step = self.marquee_step as i64;
        assert(0 <= 2 * travel * step <= 2 * 0x1_0000_0000 * 50) by (nonlinear_arith)
            requires
                0 <= travel <= 0x1_0000_0000,
                0 <= step <= 50,
        ;
        let offset = (2 * travel * step + 50) / 100;
        assert(0 <= offset <= travel) by (nonlinear_arith)
            requires
                offset == (2 * travel * step + 50) / 100,
                0 <= travel,
                0 <= step <= 50,
        {
            assert(2 * travel * step + 50 < (travel + 1) * 100);
        }
        let left = self.bounds.left as i64 + offset;
        Some(Rect::new(left as i32, self.bounds.top, (left + width) as i32, self.bounds.bottom))
    }

    /// What the bar paints: the track over the whole bar, rounded by its
    /// height, and the marquee or value fill rounded by the smaller of the
    /// height and its own width.
    pub fn paint(&self) -> (p: BarPaint)
        requires
            self.wf(),
            self.bounds.extents_fit(),
        ensures
            p.track == self.bounds,
            p.track_radius == if self.bounds.spec_height() < 1 { 1 } else { self.bounds.spec_height() },
            p.track_color == self.theme.track,
            p.fill_color == match self.state {
                ProgressState::Normal => self.theme.fill,
                ProgressState::Paused => self.theme.paused,
                ProgressState::Error => self.theme.error,
            },
            ({
                let total = self.bounds.spec_width();
                let w = if self.marquee {
                    marquee_width(total)
                } else {
                    value_width(total, self.min as int, self.max as int, self.value as int)
                };
                &&& w <= 0 ==> p.fill is None
                &&& w > 0 ==> (p.fill matches Some(RoundFill { rect, radius }) && rect.spec_width() == w && {
                    let h = self.bounds.spec_height();
                    let r = if h < rect.spec_width() { h } else { rect.spec_width() };
                    radius == if r < 1 { 1 } else { r }
                })
            }),
    {
        let height = self.bounds.height();
        let track_radius = if height < 1 { 1 } else { height };
        let fill = if self.marquee { self.marquee_fill() } else { self.value_fill() };
        let fill = match fill {
            Some(rect) => {
                let w = rect.right as i64 - rect.left as i64;
                let r = if (height as i64) < w { height as i64 } else { w };
                let radius = if r < 1 { 1 } else { r as i32 };
                Some(RoundFill { rect, radius })
            },
            None => None,
        };
        BarPaint { track: self.bounds, track_radius, track_color: self.theme.track, fill, fill_color: self.fill_color() }
    }
}

} // verus!
