use win32ui::controls::custom::widget::{Input, WidgetCx, WidgetRequest};
use win32ui::controls::custom::Route;
use win32ui::controls::grid_view::widget::{GridEvent, GridWidget};
use win32ui::controls::grid_view::GridView;
use win32ui::controls::listview::events::{finish_selection, selection_step, ListViewEvents, SelectionAction, SelectionEvent};
use win32ui::controls::listview::state::ListViewState;
use win32ui::geometry::Rect;
use win32ui::hwnd::Hwnd;
use win32ui::message::{Key, Message, Modifiers, MouseButton};
use win32ui::theme::Theme;
use win32ui::units::dip;

type Select = fn(&[usize]) -> Option<String>;
type Unused = fn(usize) -> Option<String>;
type KeyMap = fn(Key, Modifiers) -> Option<String>;

fn grid() -> GridView<Vec<u8>> {
    let mut grid: GridView<Vec<u8>> = GridView::new(Hwnd(0x7301), 96);
    grid.set_model(vec![0u8; 8]);
    let h = grid.handle(Message::Size { width: 324, height: 400 }, 120, 0);
    assert_eq!(h.route, Route::Resize(324, 400));
    assert_eq!(h.result, Some(0));
    grid
}

#[test]
fn the_host_hands_a_press_to_the_widget_and_returns_what_it_raised() {
    let mut grid = grid();
    // Two 148 dip tiles fit a row of 324 px: x = 160 lands on tile 1.
    let h = grid.handle(Message::MouseDown { x: 160, y: 50, button: MouseButton::Left }, 120, 0);
    assert_eq!(h.result, Some(0));
    assert_eq!(h.events, vec![GridEvent::Select(1)]);
    assert!(matches!(h.requests.as_slice(), [WidgetRequest::Focus, WidgetRequest::Invalidate]));
    assert_eq!(h.scrolled, None);
    assert_eq!(grid.selected(), Some(1));
    let named: Option<fn(GridEvent) -> Option<String>> = Some(|e| Some(format!("{e:?}")));
    assert_eq!(h.event_messages(&named), vec!["Select(1)".to_string()]);
    let none: Option<fn(GridEvent) -> Option<String>> = None;
    assert!(h.event_messages(&none).is_empty());
}

#[test]
fn a_wheel_notch_scrolls_and_reports_the_offset_in_design_units() {
    let mut grid = grid();
    let h = grid.handle(
        Message::MouseWheel { delta: -120, horizontal: false, x: 0, y: 0, modifiers: Modifiers::default() },
        120,
        0,
    );
    assert!(h.scroll_changed);
    assert_eq!(h.scrolled, Some(dip(48)));
    let on_scroll: Option<fn(win32ui::units::Dip) -> Option<i32>> = Some(|d| Some(d.value()));
    assert_eq!(h.scroll_message(&on_scroll), Some(48));
    let half = grid.handle(
        Message::MouseWheel { delta: -60, horizontal: false, x: 0, y: 0, modifiers: Modifiers::default() },
        120,
        0,
    );
    assert_eq!(half.scrolled, None, "half a notch scrolls nothing yet");
    assert_eq!(half.scroll_message(&on_scroll), None);
}

#[test]
fn a_navigation_key_the_widget_leaves_scrolls_the_host() {
    let mut grid = grid();
    let h = grid.handle(Message::KeyDown { key: Key::from_code(0x28), modifiers: Modifiers::default(), repeat: 1, system: false }, 120, 0);
    assert_eq!(h.result, Some(0));
    assert!(h.events.is_empty());
    assert!(h.scroll_changed);
    assert_eq!(h.scrolled, Some(dip(48)));
}

#[test]
fn a_programmatic_selection_reports_once_with_the_item_notifications_muted() {
    let mut state = ListViewState::new(&Theme::light(), 96);
    state.set_model(5, vec![]);
    let events: ListViewEvents<Select, Unused, Unused, Unused, KeyMap> = ListViewEvents {
        on_select: Some(|rows| Some(format!("{rows:?}"))),
        on_activate: None,
        on_context: None,
        on_sort: None,
        on_key: None,
    };
    let apply = state.begin_selection(&vec![3, 1, 9, 1], &vec![]);
    assert_eq!(apply, Some(vec![1, 3]));
    // The control's per-item notifications while the rows are applied.
    assert_eq!(state.selection_report(vec![1]), None);
    assert_eq!(state.selection_report(vec![1, 3]), None);
    assert_eq!(finish_selection(&mut state, &events), Some("[1, 3]".to_string()));
    assert_eq!(state.begin_selection(&vec![3, 1], &vec![1, 3]), None, "already shown: nothing to apply or report");
    assert!(!state.selection_muted);
}

#[test]
fn a_grid_input_sequence_keeps_its_context() {
    let mut w: GridWidget<Vec<u8>> = GridWidget::new(100, None, 8);
    w.set_model(vec![0u8; 8]);
    let mut cx: WidgetCx<GridEvent> = WidgetCx::new(Hwnd(0x7301), Rect::new(0, 0, 324, 400), 96, false);
    let key = |code: u16| Input::KeyDown { key: Key::from_code(code), modifiers: Modifiers::default(), repeat: 1, system: false };
    let down = |x: i32, y: i32| Input::MouseDown { x, y, button: MouseButton::Left };
    w.handle_input(key(0x0D), &mut cx);
    assert_eq!(w.selected(), None, "Enter without a selection does nothing");
    w.handle_input(down(105, 50), &mut cx);
    assert_eq!(w.selected(), None, "a press in the gap selects nothing");
    w.handle_input(down(120, 50), &mut cx);
    assert_eq!(w.selected(), Some(1));
    w.handle_input(key(0x26), &mut cx);
    assert_eq!(w.selected(), Some(7), "Up from the top row wraps to the last row, same column");
    w.handle_input(key(0x0D), &mut cx);
    assert_eq!(cx.bounds(), Rect::new(0, 0, 324, 400));
    let (events, _) = cx.finish();
    assert_eq!(events, vec![GridEvent::Select(1), GridEvent::Select(7), GridEvent::Activate(7)]);
}

#[test]
fn a_selection_step_reports_once_and_only_on_a_change() {
    let mut state = ListViewState::new(&Theme::light(), 96);
    state.set_model(5, vec![]);
    let events: ListViewEvents<Select, Unused, Unused, Unused, KeyMap> = ListViewEvents {
        on_select: Some(|rows| Some(format!("{rows:?}"))),
        on_activate: None,
        on_context: None,
        on_sort: None,
        on_key: None,
    };
    let apply = selection_step(&mut state, &events, SelectionEvent::Request { rows: vec![4, 0, 7, 4], current: vec![2] });
    let rows = match apply {
        SelectionAction::Apply(rows) => rows,
        _ => panic!("a change is applied"),
    };
    assert_eq!(rows, vec![0, 4]);
    let done = selection_step(&mut state, &events, SelectionEvent::Applied { notifications: vec![vec![], vec![0], vec![0, 4]] });
    assert!(matches!(done, SelectionAction::Report(Some(ref m)) if m == "[0, 4]"));
    let again = selection_step(&mut state, &events, SelectionEvent::Request { rows: vec![4, 0], current: vec![0, 4] });
    assert!(matches!(again, SelectionAction::Nothing));
}
