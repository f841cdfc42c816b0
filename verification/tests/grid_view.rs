use win32ui::controls::grid_view::layout::{
    columns_for_width, content_height_px, index_at_point, navigate, row_count, tile_rect, visible_item_range,
    visible_row_range, Direction,
};
use win32ui::controls::grid_view::model::{GridModel, TileSizeSpec};
use win32ui::controls::grid_view::theme::GridViewTheme;
use win32ui::controls::grid_view::widget::GridWidget;
use win32ui::geometry::Rect;
use win32ui::theme::Theme;
use win32ui::units::dip;

struct Item(u32);

#[test]
fn columns_fit_the_viewport() {
    assert_eq!(columns_for_width(400, 100, 8), 3);
    assert_eq!(columns_for_width(50, 100, 8), 1);
    assert_eq!(columns_for_width(400, 0, 8), 1);
}

#[test]
fn content_height_covers_every_row() {
    assert_eq!(content_height_px(0, 4, 100, 8), 0);
    assert_eq!(content_height_px(4, 4, 100, 8), 100);
    assert_eq!(content_height_px(5, 4, 100, 8), 208);
}

#[test]
fn visible_rows_match_the_scrolled_viewport() {
    let rows = visible_row_range(250, 300, 100, 8, 10);
    assert_eq!(rows, 2..6);
}

#[test]
fn visible_rows_clamp_to_the_model() {
    let rows = visible_row_range(0, 10_000, 100, 8, 3);
    assert_eq!(rows, 0..3);
}

#[test]
fn visible_items_span_only_the_visible_rows() {
    let items = visible_item_range(108, 100, 100, 8, 4, 10);
    assert_eq!(items, 4..8);
}

#[test]
fn empty_or_zero_height_viewport_shows_nothing() {
    assert_eq!(visible_item_range(0, 0, 100, 8, 4, 10), 0..0);
    assert_eq!(visible_item_range(0, 300, 100, 8, 4, 0), 0..0);
}

#[test]
fn hit_test_finds_the_tile_and_skips_gaps() {
    assert_eq!(index_at_point(50, 50, 100, 8, 3, 10), Some(0));
    assert_eq!(index_at_point(105, 50, 100, 8, 3, 10), None);
    assert_eq!(index_at_point(120, 50, 100, 8, 3, 10), Some(1));
    assert_eq!(index_at_point(50, 50, 100, 8, 3, 0), None);
    assert_eq!(index_at_point(-1, 0, 100, 8, 3, 10), None);
}

#[test]
fn left_right_wrap_around_the_whole_model() {
    assert_eq!(navigate(6, 3, 0, Direction::Left), 5);
    assert_eq!(navigate(6, 3, 5, Direction::Right), 0);
    assert_eq!(navigate(6, 3, 2, Direction::Right), 3);
    assert_eq!(navigate(6, 3, 3, Direction::Left), 2);
}

#[test]
fn up_down_move_a_row() {
    assert_eq!(navigate(8, 3, 4, Direction::Up), 1);
    assert_eq!(navigate(8, 3, 1, Direction::Down), 4);
}

#[test]
fn up_wraps_to_the_last_row_same_column_clamped() {
    assert_eq!(navigate(8, 3, 1, Direction::Up), 7);
    assert_eq!(navigate(8, 3, 2, Direction::Up), 7);
}

#[test]
fn down_wraps_to_the_top_row_same_column() {
    assert_eq!(navigate(8, 3, 7, Direction::Down), 1);
    assert_eq!(navigate(8, 3, 6, Direction::Down), 0);
}

#[test]
fn navigation_is_a_no_op_on_an_empty_model() {
    assert_eq!(navigate(0, 3, 0, Direction::Right), 0);
}

#[test]
fn vec_is_a_model() {
    let model = vec![Item(1)];
    assert_eq!(model.len(), 1);
    assert!(!model.is_empty());
    assert_eq!(model.get(0).map(|item| item.0), Some(1));
    assert!(model.get(1).is_none());
    assert!(Vec::<Item>::new().is_empty());
}

#[test]
fn vec_answers_through_the_model_trait() {
    let model = vec![Item(4), Item(5)];
    assert_eq!(GridModel::len(&model), 2);
    assert!(!GridModel::is_empty(&model));
    assert_eq!(GridModel::get(&model, 1).map(|item| item.0), Some(5));
    assert!(GridModel::get(&model, 2).is_none());
}

#[test]
fn a_fixed_size_has_no_range() {
    let spec = TileSizeSpec::fixed(dip(148));
    assert_eq!(spec.initial, dip(148));
    assert!(spec.range.is_none());
}

#[test]
fn a_range_starts_at_its_low_end() {
    let spec = TileSizeSpec::from_range(dip(96)..dip(220));
    assert_eq!(spec.initial, dip(96));
    assert_eq!(spec.range, Some((dip(96), dip(220))));
}

#[test]
fn theme_follows_semantic_tokens() {
    for theme in [Theme::light(), Theme::dark()] {
        let grid = GridViewTheme::from_theme(&theme);
        assert_eq!(grid.background, theme.background);
        assert_eq!(grid.selection, theme.selection);
        assert_eq!(grid.hover, theme.hover);
    }
}

#[test]
fn the_selection_wins_over_the_hover() {
    let grid = GridViewTheme::from_theme(&Theme::dark());
    assert_eq!(grid.tile_fill(true, true), Some(grid.selection));
    assert_eq!(grid.tile_fill(false, true), Some(grid.hover));
    assert_eq!(grid.tile_fill(false, false), None);
}

#[test]
fn rows_round_up_and_tiles_sit_on_the_stride() {
    assert_eq!(row_count(10, 4), 3);
    assert_eq!(row_count(0, 4), 0);
    assert_eq!(tile_rect(5, 4, 100, 8), Rect::new(108, 108, 208, 208));
}

#[test]
fn left_then_right_comes_back() {
    for current in 0..7 {
        assert_eq!(navigate(7, 3, navigate(7, 3, current, Direction::Left), Direction::Right), current);
    }
}


#[test]
fn a_paint_lists_the_visible_tiles_with_their_fills() {
    let mut grid: GridWidget<Vec<Item>> = GridWidget::new(100, None, 8);
    let theme = GridViewTheme::from_theme(&Theme::light());
    assert!(grid.paint_plan(400, Rect::new(0, 0, 400, 300), &theme).is_empty());
    grid.set_model((0..10).map(Item).collect());
    grid.set_selected(Some(4));
    // Three columns at 400 px; a paint of the first 100 px covers row 0 only.
    let tiles = grid.paint_plan(400, Rect::new(0, 0, 400, 100), &theme);
    assert_eq!(tiles.iter().map(|t| t.index).collect::<Vec<_>>(), vec![0, 1, 2]);
    assert_eq!(tiles[1].rect, Rect::new(108, 0, 208, 100));
    assert!(tiles.iter().all(|t| t.fill.is_none()));
    // Rows 1 and 2 hold tiles 3..9; tile 4 is selected.
    let tiles = grid.paint_plan(400, Rect::new(0, 120, 400, 300), &theme);
    assert_eq!(tiles.iter().map(|t| t.index).collect::<Vec<_>>(), vec![3, 4, 5, 6, 7, 8]);
    assert_eq!(tiles[1].fill, Some(theme.selection));
    assert!(tiles[1].state.selected);
    assert_eq!(tiles[0].fill, None);
}

#[test]
fn a_programmatic_selection_is_clamped_to_the_model() {
    let mut grid: GridWidget<Vec<Item>> = GridWidget::new(100, None, 8);
    grid.set_selected(Some(3));
    assert_eq!(grid.selected(), None, "an empty model has nothing to select");
    grid.set_model((0..5).map(Item).collect());
    grid.set_selected(Some(10));
    assert_eq!(grid.selected(), Some(4));
    grid.set_selected(Some(2));
    assert_eq!(grid.selected(), Some(2));
    grid.set_selected(None);
    assert_eq!(grid.selected(), None);
}
