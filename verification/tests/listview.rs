use win32ui::color::Color;
use win32ui::controls::listview::access::{access_outcome, row_name, AccessAction, AccessOutcome};
use win32ui::controls::listview::draw::{
    notification_kind, CellPaint, Fill, NotificationKind, RowDraw, CDDS_ITEMPREPAINT, CDDS_PREPAINT, CDRF_NOTIFYITEMDRAW,
    CDRF_SKIPDEFAULT, LVN_GETDISPINFO, NM_CUSTOMDRAW,
};
use win32ui::controls::listview::events::{action_message, route_event, selection_message, ListViewAction, ListViewEvent, ListViewEvents};
use win32ui::controls::listview::model::{Column, ColumnWidth, SortDirection};
use win32ui::controls::listview::state::{list_style, normalize_selection, ColumnResize, ListViewState, SortIndicator, LVS_SINGLESEL};
use win32ui::controls::listview::style::{RowState, RowStyle};
use win32ui::controls::listview::theme::ListViewTheme;
use win32ui::geometry::Rect;
use win32ui::message::{Key, Modifiers};
use win32ui::theme::Theme;
use win32ui::units::dip;

fn luminance(color: Color) -> f64 {
    let channel = |c: u8| {
        let c = c as f64 / 255.0;
        if c <= 0.03928 { c / 12.92 } else { ((c + 0.055) / 1.055).powf(2.4) }
    };
    0.2126 * channel(color.r) + 0.7152 * channel(color.g) + 0.0722 * channel(color.b)
}

fn contrast_ratio(a: Color, b: Color) -> f64 {
    let (la, lb) = (luminance(a), luminance(b));
    let (hi, lo) = if la > lb { (la, lb) } else { (lb, la) };
    (hi + 0.05) / (lo + 0.05)
}

#[test]
fn row_style_builders_set_only_their_field() {
    let style = RowStyle::new()
        .bold(true)
        .text(Color::rgb(1, 2, 3))
        .background(Color::rgb(4, 5, 6))
        .accent_bar(Color::rgb(7, 8, 9));
    assert!(style.bold);
    assert_eq!(style.text, Some(Color::rgb(1, 2, 3)));
    assert_eq!(style.background, Some(Color::rgb(4, 5, 6)));
    assert_eq!(style.accent_bar, Some(Color::rgb(7, 8, 9)));
}

#[test]
fn row_style_default_overrides_nothing() {
    let style = RowStyle::default();
    assert!(!style.bold);
    assert_eq!(style.text, None);
    assert_eq!(style.background, None);
    assert_eq!(style.accent_bar, None);
}

#[test]
fn row_state_default_is_a_plain_unselected_row() {
    let state = RowState::default();
    assert!(!state.selected && !state.focused && !state.hot && !state.alternate);
}

#[test]
fn derives_from_semantic_tokens() {
    for theme in [Theme::light(), Theme::dark()] {
        let derived = ListViewTheme::from_theme(&theme);
        assert_eq!(derived.background, theme.background);
        assert_eq!(derived.selection, theme.selection);
        assert_eq!(derived.selection_unfocused, theme.selection_unfocused);
        assert_eq!(derived.playing, theme.accent);
        assert_eq!(derived.on_playing, theme.text_on_accent);
        assert_eq!(derived.border, theme.border);
        assert_eq!(derived.header_background, theme.surface);
    }
}

#[test]
fn row_text_stays_readable_in_every_state() {
    for theme in [Theme::light(), Theme::dark()] {
        let palette = ListViewTheme::from_theme(&theme);
        for focused in [true, false] {
            let (background, text) = palette.row_colors(true, focused, false, false);
            assert!(contrast_ratio(text, background) >= 4.5, "selected text unreadable (focused={focused}, {theme:?})");
        }
        for striped in [true, false] {
            let (background, text) = palette.row_colors(false, true, false, striped);
            assert!(contrast_ratio(text, background) >= 4.5, "plain text unreadable (striped={striped}, {theme:?})");
        }
        let (background, text) = palette.row_colors(false, true, true, false);
        assert!(contrast_ratio(text, background) >= 4.5, "playing text unreadable ({theme:?})");
    }
}

#[test]
fn the_zebra_shade_is_the_background_moved_towards_the_text() {
    let palette = ListViewTheme::from_theme(&Theme::light());
    assert_eq!(palette.alternate, Color::rgb(0xf6, 0xf6, 0xf6));
    let palette = ListViewTheme::from_theme(&Theme::dark());
    assert_eq!(palette.alternate, Color::rgb(0x29, 0x29, 0x29));
}

#[test]
fn playing_wins_over_selection() {
    let palette = ListViewTheme::from_theme(&Theme::dark());
    assert_eq!(palette.row_colors(true, true, true, true), (palette.playing, palette.on_playing));
    assert_eq!(palette.row_colors(true, false, false, true), (palette.selection_unfocused, palette.text));
    assert_eq!(palette.row_colors(false, false, false, true), (palette.alternate, palette.text));
}

fn state() -> ListViewState {
    let mut state = ListViewState::new(&Theme::light(), 96);
    state.push_column(Column::new("Title".to_string(), dip(120)));
    state.push_column(Column::fill("Artist".to_string()));
    state.push_column(Column::right("Time".to_string(), dip(60)));
    state.set_model(10, vec![]);
    state
}

#[test]
fn a_new_list_is_single_select_and_empty() {
    let state = ListViewState::new(&Theme::dark(), 144);
    assert_eq!(state.column_count(), 0);
    assert_eq!(state.row_count, 0);
    assert!(state.single_select);
    assert_eq!(state.style(), list_style(true));
    assert_eq!(state.style() & LVS_SINGLESEL, LVS_SINGLESEL);
    assert_eq!(list_style(false) & LVS_SINGLESEL, 0);
}

#[test]
fn columns_are_inserted_at_their_design_width() {
    let mut state = ListViewState::new(&Theme::light(), 144);
    assert_eq!(state.push_column(Column::new("A".to_string(), dip(100))), 150);
    assert_eq!(state.push_column(Column::fill("B".to_string())), 96);
    assert_eq!(state.column_count(), 2);
}

#[test]
fn fill_columns_share_the_leftover_width() {
    let state = state();
    assert_eq!(state.fill_width(500, &vec![120, 64, 60]), Some(320));
    assert_eq!(state.fill_width(100, &vec![120, 64, 60]), Some(48));
    let mut fixed_only = ListViewState::new(&Theme::light(), 96);
    fixed_only.push_column(Column::new("A".to_string(), dip(10)));
    assert_eq!(fixed_only.fill_width(500, &vec![10]), None);
}

#[test]
fn a_requested_selection_is_sorted_deduplicated_and_clamped() {
    assert_eq!(normalize_selection(&vec![5, 1, 5, 12, 3, 1], 10), vec![1, 3, 5]);
    assert_eq!(normalize_selection(&vec![], 10), Vec::<usize>::new());
    assert_eq!(normalize_selection(&vec![4, 2], 0), Vec::<usize>::new());
}

#[test]
fn a_programmatic_selection_reports_once() {
    let mut state = state();
    assert_eq!(state.set_selection(&vec![3, 1, 3], &vec![]), Some(vec![1, 3]));
    assert_eq!(state.last_selection, vec![1, 3]);
    assert_eq!(state.selection_report(vec![1, 3]), None);
    assert_eq!(state.set_selection(&vec![1, 3], &vec![1, 3]), None);
}

#[test]
fn selection_notifications_report_only_real_changes() {
    let mut state = state();
    assert_eq!(state.selection_report(vec![2]), Some(vec![2]));
    assert_eq!(state.selection_report(vec![2]), None);
    state.mute_selection(true);
    assert_eq!(state.selection_report(vec![4]), None);
    state.mute_selection(false);
    assert_eq!(state.selection_report(vec![]), Some(vec![]));
}

#[test]
fn changed_rows_are_clamped_to_the_model() {
    let mut state = state();
    assert_eq!(state.rows_changed(2, 5), Some((2, 4)));
    assert_eq!(state.rows_changed(8, 20), Some((8, 9)));
    assert_eq!(state.rows_changed(12, 20), None);
    assert_eq!(state.recount(12, 4), Some((4, 11)));
    assert_eq!(state.row_count, 12);
    assert_eq!(state.recount(3, 4), None);
}

#[test]
fn column_widths_change_by_kind() {
    let mut state = state();
    assert_eq!(state.set_column_width(0, ColumnWidth::Fixed(dip(80))), ColumnResize::Pixels(80));
    assert_eq!(state.set_column_width(2, ColumnWidth::Fill), ColumnResize::Restretch);
    assert_eq!(state.columns[2].title, "Time");
    assert_eq!(state.set_column_width(9, ColumnWidth::Fill), ColumnResize::NoSuchColumn);
}

#[test]
fn the_sort_arrow_clears_only_on_its_column() {
    let mut state = state();
    state.set_sort_indicator(1, SortDirection::Descending);
    assert_eq!(state.sort, Some(SortIndicator { column: 1, ascending: false }));
    state.clear_sort_indicator(0);
    assert_eq!(state.sort, Some(SortIndicator { column: 1, ascending: false }));
    state.clear_sort_indicator(1);
    assert_eq!(state.sort, None);
}

#[test]
fn row_height_follows_the_dpi() {
    let mut state = state();
    assert_eq!(state.set_dpi(192), None);
    assert_eq!(state.set_row_height(dip(20)), 40);
    assert_eq!(state.set_dpi(96), Some(20));
}

#[test]
fn cells_exist_only_inside_the_model() {
    let state = state();
    assert_eq!(state.cell(0, 2), Some((0, 2)));
    assert_eq!(state.cell(10, 0), None);
    assert_eq!(state.cell(-1, 0), None);
    assert_eq!(state.cell(0, 3), None);
}

#[test]
fn the_list_answers_its_own_notifications() {
    assert_eq!(notification_kind(LVN_GETDISPINFO), NotificationKind::CellText);
    assert_eq!(notification_kind(NM_CUSTOMDRAW), NotificationKind::CustomDraw);
    assert_eq!(notification_kind(0), NotificationKind::Other);
}

#[test]
fn a_row_paint_follows_theme_and_style() {
    let mut state = state();
    state.set_playing(Some(4));
    let cells = vec![Rect::new(0, 20, 120, 40), Rect::new(120, 20, 120, 40), Rect::new(300, 20, 360, 40)];
    let subitems = cells.clone();
    assert!(matches!(state.row_draw(CDDS_PREPAINT, 0, Rect::default(), false, false, None, &cells, &subitems), RowDraw::NotifyItemDraw));
    assert!(matches!(state.row_draw(0, 3, Rect::default(), false, false, None, &cells, &subitems), RowDraw::Default));
    assert!(matches!(state.row_draw(CDDS_ITEMPREPAINT, 3, Rect::default(), false, false, None, &cells, &subitems), RowDraw::Skip));

    let row = Rect::new(0, 20, 360, 40);
    let style = RowStyle::new().bold(true).accent_bar(Color::rgb(9, 9, 9));
    let RowDraw::Paint(paint) = state.row_draw(CDDS_ITEMPREPAINT, 3, row, true, true, Some(style), &cells, &subitems) else {
        panic!("a visible row is painted");
    };
    assert_eq!(paint.background, Fill { rect: row, color: state.theme.selection });
    assert_eq!(paint.text, state.theme.text);
    assert!(paint.bold);
    assert_eq!(
        paint.cells,
        vec![
            CellPaint { column: 0, rect: Rect::new(4, 20, 116, 40), align_right: false },
            CellPaint { column: 2, rect: Rect::new(304, 20, 356, 40), align_right: true },
        ]
    );
    assert_eq!(paint.accent, Some(Fill { rect: Rect::new(0, 20, 3, 40), color: Color::rgb(9, 9, 9) }));
    assert_eq!(paint.separators, vec![Rect::new(120, 20, 121, 40), Rect::new(300, 20, 301, 40)]);

    let RowDraw::Paint(playing) = state.row_draw(CDDS_ITEMPREPAINT, 4, row, false, true, None, &cells, &subitems) else {
        panic!("a visible row is painted");
    };
    assert_eq!(playing.background.color, state.theme.playing);
    assert_eq!(playing.text, state.theme.on_playing);
}

#[test]
fn the_header_paints_titles_separators_and_the_arrow() {
    let mut state = state();
    state.set_sort_indicator(1, SortDirection::Ascending);
    let rect = Rect::new(120, 0, 300, 24);
    let whole = state.header_draw(CDDS_PREPAINT, 0, rect);
    assert_eq!(whole.result, Some(CDRF_NOTIFYITEMDRAW));
    assert!(whole.label.is_none());
    let item = state.header_draw(CDDS_ITEMPREPAINT, 1, rect);
    assert_eq!(item.result, Some(CDRF_SKIPDEFAULT));
    assert_eq!(item.label, Some(CellPaint { column: 1, rect: Rect::new(126, 0, 294, 24), align_right: false }));
    assert_eq!(item.separator.map(|fill| fill.rect), Some(Rect::new(120, 0, 121, 24)));
    assert_eq!(item.arrow, Some((Rect::new(284, 8, 292, 16), true)));
    let first = state.header_draw(CDDS_ITEMPREPAINT, -1, Rect::new(0, 0, 120, 24));
    assert!(first.separator.is_none() && first.arrow.is_none());
    assert_eq!(state.header_draw(7, 0, rect).result, None);
}

#[test]
fn notifications_route_to_actions() {
    assert_eq!(route_event(ListViewEvent::ItemChanged { item: 2, selected: true }), ListViewAction::Selection);
    assert_eq!(route_event(ListViewEvent::SelectionChanged { from: 0, to: 3 }), ListViewAction::Selection);
    assert_eq!(route_event(ListViewEvent::DoubleClick { item: 2 }), ListViewAction::Activate(2));
    assert_eq!(route_event(ListViewEvent::ReturnKey { item: -1 }), ListViewAction::Ignore);
    assert_eq!(route_event(ListViewEvent::RightClick { item: 5 }), ListViewAction::Context(5));
    assert_eq!(route_event(ListViewEvent::ColumnClick { column: 1 }), ListViewAction::Sort(1));
    assert_eq!(route_event(ListViewEvent::Click { item: 1 }), ListViewAction::Ignore);
    let modifiers = Modifiers { ctrl: true, shift: false, alt: false };
    assert_eq!(route_event(ListViewEvent::KeyDown { key: 0x46, modifiers }), ListViewAction::Key(Key(0x46), modifiers));
}

type Rows = fn(&[usize]) -> Option<String>;
type Row = fn(usize) -> Option<String>;
type KeyMap = fn(Key, Modifiers) -> Option<String>;

#[test]
fn actions_map_through_the_app_closures() {
    let mut events: ListViewEvents<Rows, Row, Row, Row, KeyMap> = ListViewEvents::new();
    assert_eq!(action_message(&events, ListViewAction::Activate(1)), None);
    events.on_select = Some(|rows: &[usize]| Some(format!("{rows:?}")));
    events.on_activate = Some(|row: usize| Some(format!("open {row}")));
    events.on_sort = Some(|column: usize| Some(format!("sort {column}")));
    assert_eq!(selection_message(&events, &vec![1, 4]), Some("[1, 4]".to_string()));
    assert_eq!(action_message(&events, ListViewAction::Activate(3)), Some("open 3".to_string()));
    assert_eq!(action_message(&events, ListViewAction::Sort(0)), Some("sort 0".to_string()));
    assert_eq!(action_message(&events, ListViewAction::Context(0)), None);
    assert_eq!(action_message(&events, ListViewAction::Selection), None);
}

#[test]
fn a_row_is_named_after_its_non_empty_cells() {
    let cells = vec!["Song".to_string(), String::new(), "Artist".to_string(), "3:05".to_string()];
    assert_eq!(row_name(&cells), "Song, Artist, 3:05");
    assert_eq!(row_name(&vec![String::new(), "Only".to_string()]), "Only");
    assert_eq!(row_name(&Vec::new()), "");
}

#[test]
fn accessibility_actions_reach_only_listed_rows() {
    assert_eq!(access_outcome(&vec![], AccessAction::Focus, 10, 20), AccessOutcome::FocusList);
    assert_eq!(access_outcome(&vec![], AccessAction::Select, 10, 20), AccessOutcome::Refused);
    assert_eq!(access_outcome(&vec![2], AccessAction::Select, 10, 20), AccessOutcome::Select(12));
    assert_eq!(access_outcome(&vec![9], AccessAction::Invoke, 10, 20), AccessOutcome::Invoke(19));
    assert_eq!(access_outcome(&vec![10], AccessAction::Invoke, 10, 20), AccessOutcome::Refused);
    assert_eq!(access_outcome(&vec![2], AccessAction::Focus, 10, 20), AccessOutcome::Refused);
    assert_eq!(access_outcome(&vec![2, 0], AccessAction::Select, 10, 20), AccessOutcome::Refused);
}
