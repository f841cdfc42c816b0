use win32ui::controls::progressbar::{MarqueeTimer, ProgressBarState, ProgressState, MARQUEE_STEPS};
use win32ui::controls::progressbar_theme::ProgressBarTheme;
use win32ui::geometry::Rect;
use win32ui::message::TimerId;
use win32ui::theme::Theme;

fn state() -> ProgressBarState {
    ProgressBarState {
        theme: ProgressBarTheme::from_theme(&Theme::light()),
        min: 0,
        max: 100,
        value: 0,
        state: ProgressState::Normal,
        marquee: false,
        marquee_step: 0,
        timer: None,
        bounds: Rect::new(0, 0, 200, 8),
    }
}

#[test]
fn progressbar_theme_follows_semantic_tokens() {
    for theme in [Theme::light(), Theme::dark()] {
        let bar = ProgressBarTheme::from_theme(&theme);
        assert_eq!(bar.track, theme.border);
        assert_eq!(bar.fill, theme.accent);
        assert_eq!(bar.paused, theme.warning);
        assert_eq!(bar.error, theme.danger);
    }
}

#[test]
fn range_is_normalised_and_clamps_value() {
    let mut state = state();
    state.set_value(50);
    let (high, low) = (100, 0);
    state.set_range(high, low);
    assert_eq!((state.min, state.max), (0, 100));
    state.set_range(10, 20);
    assert_eq!(state.value, 20);
}

#[test]
fn value_is_clamped_to_range() {
    let mut state = state();
    state.set_range(0, 10);
    state.set_value(25);
    assert_eq!(state.value, 10);
    state.set_value(-5);
    assert_eq!(state.value, 0);
}

#[test]
fn value_fill_scales_with_the_fraction() {
    let mut state = state();
    state.set_range(0, 100);
    state.set_value(50);
    let fill = state.value_fill().expect("a mid value fills");
    assert_eq!(fill.width(), 100);
    state.set_value(0);
    assert!(state.value_fill().is_none());
}

#[test]
fn state_selects_the_fill_colour() {
    let theme = Theme::dark();
    let mut state = state();
    state.theme = ProgressBarTheme::from_theme(&theme);
    for (progress, expected) in [
        (ProgressState::Normal, theme.accent),
        (ProgressState::Paused, theme.warning),
        (ProgressState::Error, theme.danger),
    ] {
        state.state = progress;
        assert_eq!(state.fill_color(), expected);
    }
}

#[test]
fn a_new_bar_is_empty_and_eight_units_high() {
    let state = ProgressBarState::new(&Theme::light(), 192);
    assert_eq!((state.min, state.max, state.value), (0, 100, 0));
    assert_eq!(state.bounds, Rect::new(0, 0, 0, 16));
    assert!(!state.marquee && state.timer.is_none());
}

#[test]
fn the_value_fill_rounds_to_the_nearest_pixel() {
    let mut state = state();
    state.set_range(0, 3);
    state.set_value(1);
    assert_eq!(state.value_fill(), Some(Rect::new(0, 0, 67, 8)));
    state.set_value(3);
    assert_eq!(state.value_fill(), Some(Rect::new(0, 0, 200, 8)));
    state.set_range(5, 5);
    assert!(state.value_fill().is_none());
}

#[test]
fn the_marquee_sweeps_in_steps_and_starts_over() {
    let mut state = state();
    assert_eq!(state.set_marquee(true), MarqueeTimer::Start);
    state.timer_started(TimerId(7));
    assert_eq!(state.set_marquee(true), MarqueeTimer::Unchanged);
    assert_eq!(state.marquee_fill(), Some(Rect::new(0, 0, 60, 8)));
    assert!(!state.on_timer(TimerId(8)));
    assert!(state.on_timer(TimerId(7)));
    assert_eq!(state.marquee_step, 1);
    state.marquee_step = MARQUEE_STEPS;
    assert_eq!(state.marquee_fill(), Some(Rect::new(140, 0, 200, 8)));
    state.advance_marquee();
    assert_eq!(state.marquee_step, 0);
    assert_eq!(state.set_marquee(false), MarqueeTimer::Stop(Some(TimerId(7))));
    assert!(state.timer.is_none());
}

#[test]
fn the_paint_rounds_track_and_fill() {
    let mut state = state();
    state.set_value(2);
    let paint = state.paint();
    assert_eq!(paint.track, Rect::new(0, 0, 200, 8));
    assert_eq!(paint.track_radius, 8);
    let fill = paint.fill.expect("two percent of 200 pixels fills 4");
    assert_eq!(fill.rect, Rect::new(0, 0, 4, 8));
    assert_eq!(fill.radius, 4);
    assert_eq!(paint.fill_color, state.theme.fill);
}
