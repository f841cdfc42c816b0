use win32ui::controls::custom::scroll::ScrollRequest;
use win32ui::controls::custom::widget::{CursorShape, Input};
use win32ui::controls::flow_text::{run_color, FlowReaction, FlowTextState, Run, RunStyle};
use win32ui::controls::grid_view::widget::GridEvent;
use win32ui::controls::grid_view::GridHandlers;
use win32ui::controls::panel::{Panel, Placement};
use win32ui::controls::scrollview::{ContentMove, ScrollViewState};
use win32ui::geometry::Rect;
use win32ui::hwnd::Hwnd;
use win32ui::message::MouseButton;
use win32ui::theme::Theme;

type Click = fn() -> Option<&'static str>;

fn line() -> FlowTextState<Click> {
    let mut line: FlowTextState<Click> = FlowTextState::new();
    let artist: Click = || Some("artist");
    line.push(Run::link("Artist").on_click(artist));
    line.separator(" · ");
    line.push(Run::weak("(1999)").italic(true));
    line
}

#[test]
fn run_styles_follow_theme_tokens() {
    let theme = Theme::dark();
    assert_eq!(run_color(RunStyle::Normal, &theme), theme.text);
    assert_eq!(run_color(RunStyle::Weak, &theme), theme.text_secondary);
    assert_eq!(run_color(RunStyle::Link, &theme), theme.accent);
    let run: Run<Click> = Run::normal("x").weight(700);
    assert_eq!((run.weight, run.italic), (700, false));
}

#[test]
fn hovering_a_link_shows_the_hand_and_repaints_once() {
    let mut line = line();
    assert_eq!(line.link_at(Some(0)), Some(0));
    assert_eq!(line.link_at(Some(1)), None);
    assert_eq!(line.link_at(Some(9)), None);
    let moved = line.input(Input::MouseMove { x: 3, y: 3 }, Some(0));
    assert_eq!(moved, FlowReaction { cursor: Some(CursorShape::Hand), invalidate: true, activate: None });
    let again = line.input(Input::MouseMove { x: 4, y: 3 }, Some(0));
    assert!(!again.invalidate);
    let off = line.input(Input::MouseMove { x: 90, y: 3 }, Some(2));
    assert_eq!(off.cursor, Some(CursorShape::Arrow));
    assert!(off.invalidate);
}

#[test]
fn a_click_needs_press_and_release_on_the_same_link() {
    let mut line = line();
    line.input(Input::MouseDown { x: 3, y: 3, button: MouseButton::Left }, Some(0));
    let released = line.input(Input::MouseUp { x: 3, y: 3, button: MouseButton::Left }, Some(0));
    assert_eq!(released.activate, Some(0));
    assert_eq!(line.activate(0), Some("artist"));
    assert_eq!(line.activate(2), None);

    line.input(Input::MouseDown { x: 3, y: 3, button: MouseButton::Left }, Some(0));
    let elsewhere = line.input(Input::MouseUp { x: 90, y: 3, button: MouseButton::Left }, Some(2));
    assert_eq!(elsewhere.activate, None);

    line.input(Input::MouseDown { x: 3, y: 3, button: MouseButton::Left }, Some(0));
    line.input(Input::CaptureChanged, None);
    assert_eq!(line.pressed, None);
    line.input(Input::MouseMove { x: 3, y: 3 }, Some(0));
    let left = line.input(Input::MouseLeave, None);
    assert!(left.invalidate);
    assert_eq!(line.hover, None);
}

#[test]
fn grid_events_map_through_their_handlers() {
    let select: fn(usize) -> Option<String> = |i| Some(format!("select {i}"));
    let activate: fn(usize) -> Option<String> = |i| Some(format!("open {i}"));
    let handlers = GridHandlers::new().on_select(select);
    assert_eq!(handlers.message(GridEvent::Select(2)), Some("select 2".to_string()));
    assert_eq!(handlers.message(GridEvent::Activate(2)), None);
    let handlers = handlers.on_activate(activate);
    assert_eq!(handlers.message(GridEvent::Activate(4)), Some("open 4".to_string()));
}

#[test]
fn a_scroll_view_moves_its_content_only_when_it_changes() {
    let mut view = ScrollViewState::new(48);
    assert_eq!(view.set_content(1000, 300), ContentMove::Move(Rect::new(0, 0, 300, 1000)));
    assert_eq!(view.on_size(400, 300), ContentMove::Repaint);
    assert_eq!(view.on_size(400, 300), ContentMove::Stay);
    assert_eq!(view.max_offset(), 600);
    assert_eq!(view.scroll_to_px(250, 300), ContentMove::Move(Rect::new(0, -250, 300, 1000)));
    assert_eq!(view.scroll_to_px(5000, 300), ContentMove::Move(Rect::new(0, -600, 300, 1000)));
    assert_eq!(view.scroll_by_px(-100, 300), ContentMove::Move(Rect::new(0, -500, 300, 1000)));
    assert_eq!(view.set_content_height_px(1000, 300), ContentMove::Stay);
}

#[test]
fn the_wheel_scrolls_whole_notches() {
    let mut view = ScrollViewState::new(48);
    view.set_content(1000, 300);
    view.on_size(400, 300);
    view.scroll_to_px(200, 300);
    assert_eq!(view.wheel(-60, 120, 300), ContentMove::Stay);
    assert_eq!(view.offset, 200);
    assert_eq!(view.wheel(-60, 120, 300), ContentMove::Move(Rect::new(0, -248, 300, 1000)));
    assert_eq!(view.wheel_accum, 0);
    view.wheel(240, 120, 300);
    assert_eq!(view.offset, 152);
}

#[test]
fn scroll_bar_requests_move_by_line_page_or_thumb() {
    let mut view = ScrollViewState::new(48);
    view.set_content(1000, 300);
    view.on_size(400, 300);
    view.scroll_request(ScrollRequest::PageDown, 0, 300);
    assert_eq!(view.offset, 400);
    view.scroll_request(ScrollRequest::LineUp, 0, 300);
    assert_eq!(view.offset, 352);
    view.scroll_request(ScrollRequest::Bottom, 0, 300);
    assert_eq!(view.offset, 600);
    view.scroll_request(ScrollRequest::ThumbTrack(0), 123, 300);
    assert_eq!(view.offset, 123);
    assert_eq!(view.scroll_request(ScrollRequest::EndScroll, 0, 300), ContentMove::Stay);
}

#[test]
fn a_panel_moves_only_live_children() {
    let mut panel = Panel::new(Hwnd(0x7301));
    let placed = vec![
        Placement { hwnd: Hwnd(1), rect: Rect::new(0, 0, 10, 10), alive: true },
        Placement { hwnd: Hwnd(2), rect: Rect::new(0, 10, 10, 20), alive: false },
        Placement { hwnd: Hwnd(3), rect: Rect::new(0, 20, 10, 30), alive: true },
    ];
    assert!(panel.relayout(true, &placed).is_empty());
    panel.set_layout();
    let moves = panel.relayout(true, &placed);
    assert_eq!(moves.iter().map(|m| m.hwnd).collect::<Vec<_>>(), vec![Hwnd(1), Hwnd(3)]);
    assert!(panel.relayout(false, &placed).is_empty());
}
