//! The custom widget behind a grid view: selection, hover and keyboard
//! navigation over a [`GridModel`], turned into [`GridEvent`]s.

use vstd::prelude::*;

use crate::controls::custom::widget::{Input, KeyResult, Renderer, WidgetCx, WidgetRequest};
use crate::controls::custom::CustomWidget;
use crate::color::Color;
use crate::controls::grid_view::layout::{self, columns_spec, index_at_spec, navigate_spec, tile_rect_spec, tiles_fit, visible_items_spec, Direction};
use crate::controls::grid_view::theme::GridViewTheme;
use crate::geometry::{Rect, Size};
use crate::controls::grid_view::model::{GridModel, TileState};
use crate::message::{Key, Modifiers, MouseButton, VK_DOWN, VK_LEFT, VK_RETURN, VK_RIGHT, VK_SPACE, VK_UP};

verus! {

/// The events a grid raises.
#[derive(Clone, Copy, Debug, PartialEq, Eq, Structural)]
pub enum GridEvent {
    /// The selection changed to this index.
    Select(usize),
    /// This tile was activated (double-click, or Enter/Space on the selection).
    Activate(usize),
}

/// The direction an arrow key moves the selection, if it is an arrow key.
pub open spec fn arrow_direction(key: Key) -> Option<Direction> {
    if key.0 == VK_LEFT {
        Some(Direction::Left)
    } else if key.0 == VK_RIGHT {
        Some(Direction::Right)
    } else if key.0 == VK_UP {
        Some(Direction::Up)
    } else if key.0 == VK_DOWN {
        Some(Direction::Down)
    } else {
        None
    }
}

/// The width of `b`, saturated into `i32`.
pub open spec fn width_of(left: i32, right: i32) -> int {
    crate::units::saturate_i32(right - left)
}

/// One tile to paint: the host fills `rect` with `fill` (when there is
/// one), then draws the item's content into it.
#[derive(Clone, Copy, Debug, PartialEq, Eq, Structural)]
pub struct TilePaint {
    /// The tile's index in the model.
    pub index: usize,
    /// Its rectangle, in content coordinates.
    pub rect: Rect,
    /// Its state.
    pub state: TileState,
    /// The fill behind it.
    pub fill: Option<Color>,
}

/// The grid's state: the model, the tile geometry in device pixels, the
/// single selection and the hovered tile.
pub struct GridWidget<G> {
    model: Option<G>,
    tile_px: i32,
    tile_range_px: Option<(i32, i32)>,
    spacing_px: i32,
    selected: Option<usize>,
    hovered: Option<usize>,
    direct2d: bool,
}

impl<G: GridModel> GridWidget<G> {
    pub closed spec fn spec_model(&self) -> Option<G> {
        self.model
    }

    /// The number of tiles (zero without a model).
    pub open spec fn spec_len(&self) -> nat {
        match self.spec_model() {
            Some(m) => m.spec_len(),
            None => 0,
        }
    }

    pub closed spec fn spec_tile_px(&self) -> i32 {
        self.tile_px
    }

    pub closed spec fn spec_tile_range_px(&self) -> Option<(i32, i32)> {
        self.tile_range_px
    }

    pub closed spec fn spec_spacing_px(&self) -> i32 {
        self.spacing_px
    }

    pub closed spec fn spec_selected(&self) -> Option<usize> {
        self.selected
    }

    pub closed spec fn spec_hovered(&self) -> Option<usize> {
        self.hovered
    }

    pub closed spec fn spec_direct2d(&self) -> bool {
        self.direct2d
    }

    /// The grid's invariant: a positive tile, a non-negative gap, an ordered
    /// tile range, and a selection inside the model.
    pub open spec fn wf(&self) -> bool {
        &&& self.spec_tile_px() >= 1
        &&& self.spec_spacing_px() >= 0
        &&& self.spec_tile_range_px() matches Some((lo, hi)) ==> lo <= hi
        &&& self.spec_selected() matches Some(i) ==> i < self.spec_len()
    }

    /// The columns at `viewport_width`.
    pub open spec fn spec_columns(&self, viewport_width: int) -> int {
        columns_spec(viewport_width, self.spec_tile_px() as int, self.spec_spacing_px() as int)
    }

    /// The tile under `(x, y)` at `viewport_width`.
    pub open spec fn spec_index_at(&self, x: int, y: int, viewport_width: int) -> Option<int> {
        index_at_spec(x, y, self.spec_tile_px() as int, self.spec_spacing_px() as int,
            self.spec_columns(viewport_width), self.spec_len() as int)
    }

    /// A grid with no model yet: `tile_px` at least one pixel, `spacing_px`
    /// never negative.
    pub fn new(tile_px: i32, tile_range_px: Option<(i32, i32)>, spacing_px: i32) -> (w: GridWidget<G>)
        requires
            tile_range_px matches Some((lo, hi)) ==> lo <= hi,
        ensures
            w.wf(),
            w.spec_model() is None,
            w.spec_tile_px() == if tile_px >= 1 { tile_px } else { 1 },
            w.spec_tile_range_px() == tile_range_px,
            w.spec_spacing_px() == if spacing_px >= 0 { spacing_px } else { 0 },
            w.spec_selected() is None,
            w.spec_hovered() is None,
            !w.spec_direct2d(),
    {
        GridWidget {
            model: None,
            tile_px: if tile_px >= 1 { tile_px } else { 1 },
            tile_range_px,
            spacing_px: if spacing_px >= 0 { spacing_px } else { 0 },
            selected: None,
            hovered: None,
            direct2d: false,
        }
    }

    /// Paints with Direct2D (a Direct2D content painter was set) or GDI.
    pub fn set_direct2d(&mut self, on: bool)
        ensures
            final(self).spec_direct2d() == on,
            final(self).spec_model() == old(self).spec_model(),
            final(self).spec_tile_px() == old(self).spec_tile_px(),
            final(self).spec_tile_range_px() == old(self).spec_tile_range_px(),
            final(self).spec_spacing_px() == old(self).spec_spacing_px(),
            final(self).spec_selected() == old(self).spec_selected(),
            final(self).spec_hovered() == old(self).spec_hovered(),
    {
        self.direct2d = on;
    }

    /// Whether the tiles paint with Direct2D.
    pub fn is_direct2d(&self) -> (b: bool)
        ensures
            b == self.spec_direct2d(),
    {
        self.direct2d
    }

    /// Replaces the model. A selection that is now out of range is cleared.
    pub fn set_model(&mut self, model: G)
        requires
            old(self).wf(),
        ensures
            final(self).wf(),
            final(self).spec_model() == Some(model),
            old(self).spec_selected() matches Some(i) ==> final(self).spec_selected() == if i < model.spec_len() {
                Some(i)
            } else {
                None
            },
            old(self).spec_selected() is None ==> final(self).spec_selected() is None,
            final(self).spec_tile_px() == old(self).spec_tile_px(),
            final(self).spec_spacing_px() == old(self).spec_spacing_px(),
            final(self).spec_tile_range_px() == old(self).spec_tile_range_px(),
    {
        let len = model.len();
        self.model = Some(model);
        if let Some(index) = self.selected {
            if index >= len {
                self.selected = None;
            }
        }
    }

    /// The model, if one was set.
    pub fn model(&self) -> (m: Option<&G>)
        ensures
            m == match self.spec_model() {
                Some(g) => Some(&g),
                None => None::<&G>,
            },
    {
        match &self.model {
            Some(m) => Some(m),
            None => None,
        }
    }

    /// The number of tiles (zero without a model).
    pub fn len(&self) -> (n: usize)
        ensures
            n == self.spec_len(),
    {
        match &self.model {
            Some(m) => m.len(),
            None => 0,
        }
    }

    /// The current (single) selection.
    pub fn selected(&self) -> (s: Option<usize>)
        ensures
            s == self.spec_selected(),
    {
        self.selected
    }

    /// The hovered tile.
    pub fn hovered(&self) -> (h: Option<usize>)
        ensures
            h == self.spec_hovered(),
    {
        self.hovered
    }

    /// Selects `index`, clamped to the model (the last tile for an index
    /// past the end); `None`, or any index of an empty model, clears the
    /// selection.
    pub fn set_selected(&mut self, index: Option<usize>)
        requires
            old(self).wf(),
        ensures
            final(self).wf(),
            final(self).spec_selected() == match index {
                Some(i) => if old(self).spec_len() == 0 {
                    None
                } else if i < old(self).spec_len() {
                    Some(i)
                } else {
                    Some((old(self).spec_len() - 1) as usize)
                },
                None => None,
            },
            final(self).spec_model() == old(self).spec_model(),
            final(self).spec_tile_px() == old(self).spec_tile_px(),
            final(self).spec_spacing_px() == old(self).spec_spacing_px(),
            final(self).spec_tile_range_px() == old(self).spec_tile_range_px(),
    {
        let len = self.len();
        self.selected = match index {
            Some(i) => if len == 0 {
                None
            } else if i < len {
                Some(i)
            } else {
                Some(len - 1)
            },
            None => None,
        };
    }

    /// The tile size in device pixels.
    pub fn tile_px(&self) -> (t: i32)
        ensures
            t == self.spec_tile_px(),
    {
        self.tile_px
    }

    /// The gap between tiles in device pixels.
    pub fn spacing_px(&self) -> (s: i32)
        ensures
            s == self.spec_spacing_px(),
    {
        self.spacing_px
    }

    /// Sets the range later tile sizes are clamped to.
    pub fn set_tile_range_px(&mut self, range_px: Option<(i32, i32)>)
        requires
            old(self).wf(),
            range_px matches Some((lo, hi)) ==> lo <= hi,
        ensures
            final(self).wf(),
            final(self).spec_tile_range_px() == range_px,
            final(self).spec_tile_px() == old(self).spec_tile_px(),
            final(self).spec_model() == old(self).spec_model(),
            final(self).spec_selected() == old(self).spec_selected(),
            final(self).spec_spacing_px() == old(self).spec_spacing_px(),
    {
        self.tile_range_px = range_px;
    }

    /// Sets the tile size, clamped to the tile range if there is one, and
    /// never below one pixel.
    pub fn set_tile_px(&mut self, tile_px: i32)
        requires
            old(self).wf(),
        ensures
            final(self).wf(),
            ({
                let clamped = match old(self).spec_tile_range_px() {
                    Some((lo, hi)) => if tile_px < lo { lo } else if tile_px > hi { hi } else { tile_px },
                    None => tile_px,
                };
                final(self).spec_tile_px() == if clamped >= 1 { clamped } else { 1 }
            }),
            final(self).spec_tile_range_px() == old(self).spec_tile_range_px(),
            final(self).spec_model() == old(self).spec_model(),
            final(self).spec_selected() == old(self).spec_selected(),
            final(self).spec_spacing_px() == old(self).spec_spacing_px(),
    {
        let clamped = match self.tile_range_px {
            Some((lo, hi)) => if tile_px < lo { lo } else if tile_px > hi { hi } else { tile_px },
            None => tile_px,
        };
        self.tile_px = if clamped >= 1 { clamped } else { 1 };
    }

    /// The columns that fit `viewport_width` device pixels.
    pub fn columns(&self, viewport_width: i32) -> (n: usize)
        ensures
            n == self.spec_columns(viewport_width as int),
            n >= 1,
    {
        layout::columns_for_width(viewport_width, self.tile_px, self.spacing_px)
    }

    /// The tile at `(x, y)`, content-relative device pixels.
    pub fn index_at(&self, x: i32, y: i32, viewport_width: i32) -> (i: Option<usize>)
        ensures
            i matches Some(k) ==> self.spec_index_at(x as int, y as int, viewport_width as int) == Some(k as int),
            i is None ==> self.spec_index_at(x as int, y as int, viewport_width as int) is None,
    {
        let columns = self.columns(viewport_width);
        let len = self.len();
        layout::index_at_point(x, y, self.tile_px, self.spacing_px, columns, len)
    }

    /// The tile one step in `direction` from the selection (or from the first
    /// tile when nothing is selected); `None` for an empty model.
    pub fn navigate(&self, viewport_width: i32, direction: Direction) -> (next: Option<usize>)
        ensures
            self.spec_len() == 0 ==> next is None,
            self.spec_len() > 0 ==> next == Some(navigate_spec(self.spec_len() as int,
                self.spec_columns(viewport_width as int),
                match self.spec_selected() { Some(i) => i as int, None => 0 }, direction) as usize),
            next matches Some(k) ==> k < self.spec_len(),
    {
        let len = self.len();
        if len == 0 {
            return None;
        }
        let columns = self.columns(viewport_width);
        let current = match self.selected {
            Some(i) => i,
            None => 0,
        };
        Some(layout::navigate(len, columns, current, direction))
    }

    /// The paint state of tile `index`.
    pub fn tile_state(&self, index: usize) -> (s: TileState)
        ensures
            s.selected == (self.spec_selected() == Some(index)),
            s.hovered == (self.spec_hovered() == Some(index)),
    {
        TileState { selected: self.selected == Some(index), hovered: self.hovered == Some(index) }
    }

    /// The tiles a paint of the update region `paint` covers at
    /// `viewport_width`, in index order: the tiles of the visible rows, each
    /// with its rectangle, its state and the fill behind it (the selection
    /// over the hover, none for a plain tile). Nothing without a model.
    pub fn paint_plan(&self, viewport_width: i32, paint: Rect, theme: &GridViewTheme) -> (tiles: Vec<TilePaint>)
        requires
            self.wf(),
            paint.extents_fit(),
            tiles_fit(self.spec_len() as int, self.spec_columns(viewport_width as int), self.spec_tile_px() as int, self.spec_spacing_px() as int),
        ensures
            ({
                let height = if paint.spec_height() < 0 { 0 } else { paint.spec_height() };
                let (start, end) = visible_items_spec(
                    paint.top as int,
                    height,
                    self.spec_tile_px() as int,
                    self.spec_spacing_px() as int,
                    self.spec_columns(viewport_width as int),
                    self.spec_len() as int,
                );
                &&& tiles@.len() == end - start
                &&& forall|k: int| 0 <= k < tiles@.len() ==> {
                    let i = start + k;
                    let (l, t, r, b) = tile_rect_spec(i, self.spec_columns(viewport_width as int), self.spec_tile_px() as int, self.spec_spacing_px() as int);
                    let state = TileState { selected: self.spec_selected() == Some(i as usize), hovered: self.spec_hovered() == Some(i as usize) };
                    &&& (#[trigger] tiles@[k]).index == i
                    &&& tiles@[k].rect == (Rect { left: l as i32, top: t as i32, right: r as i32, bottom: b as i32 })
                    &&& tiles@[k].state == state
                    &&& tiles@[k].fill == if state.selected { Some(theme.selection) } else if state.hovered { Some(theme.hover) } else { None }
                }
            }),
    {
        let len = self.len();
        let columns = self.columns(viewport_width);
        let tile = self.tile_px;
        let spacing = self.spacing_px;
        let height = if paint.bottom - paint.top < 0 { 0 } else { paint.bottom - paint.top };
        let items = layout::visible_item_range(paint.top, height, tile, spacing, columns, len);
        let mut tiles: Vec<TilePaint> = Vec::new();
        let mut index = items.start;
        while index < items.end
            invariant
                items.start <= index <= items.end <= len,
                len == self.spec_len(),
                columns == self.spec_columns(viewport_width as int),
                columns >= 1,
                tile == self.spec_tile_px(),
                spacing == self.spec_spacing_px(),
                tile >= 1,
                tiles_fit(len as int, columns as int, tile as int, spacing as int),
                tiles@.len() == index - items.start,
                forall|k: int| 0 <= k < tiles@.len() ==> {
                    let i = items.start + k;
                    let (l, t, r, b) = tile_rect_spec(i, columns as int, tile as int, spacing as int);
                    let state = TileState { selected: self.spec_selected() == Some(i as usize), hovered: self.spec_hovered() == Some(i as usize) };
                    &&& (#[trigger] tiles@[k]).index == i
                    &&& tiles@[k].rect == (Rect { left: l as i32, top: t as i32, right: r as i32, bottom: b as i32 })
                    &&& tiles@[k].state == state
                    &&& tiles@[k].fill == if state.selected { Some(theme.selection) } else if state.hovered { Some(theme.hover) } else { None }
                },
            decreases items.end - index,
        {
            assert({
                let (l, t, r, b) = tile_rect_spec(index as int, columns as int, tile as int, spacing as int);
                i32::MIN <= l && r <= i32::MAX && i32::MIN <= t && b <= i32::MAX
            });
            let rect = layout::tile_rect(index, columns, tile, spacing);
            let state = self.tile_state(index);
            let fill = theme.tile_fill(state.selected, state.hovered);
            tiles.push(TilePaint { index, rect, state, fill });
            index = index + 1;
        }
        tiles
    }

    /// What handling `input` with the context `cx` does, `after` and
    /// `cx_after` being the widget and the context afterwards: a move updates
    /// the hover (repainting when it changed), leaving clears it, a left press
    /// focuses the grid and selects the tile under the pointer, a left
    /// double-click activates it, arrow keys move the selection (wrapping),
    /// Enter or Space activates it, and anything else changes nothing.
    pub open spec fn input_handled(&self, after: GridWidget<G>, cx: WidgetCx<GridEvent>, cx_after: WidgetCx<GridEvent>, input: Input) -> bool {
        &&& after.wf()
        &&& after.spec_model() == self.spec_model()
        &&& after.spec_tile_px() == self.spec_tile_px()
        &&& after.spec_spacing_px() == self.spec_spacing_px()
        &&& after.spec_tile_range_px() == self.spec_tile_range_px()
        &&& after.spec_direct2d() == self.spec_direct2d()
        &&& cx_after.spec_bounds() == cx.spec_bounds()
        &&& cx_after.spec_hwnd() == cx.spec_hwnd()
        &&& cx_after.spec_dpi() == cx.spec_dpi()
        &&& cx_after.spec_animate() == cx.spec_animate()
        &&& ({
            let b = cx.spec_bounds();
            let w = width_of(b.left, b.right);
            match input {
                Input::MouseMove { x, y } => {
                    let next = self.spec_index_at(x as int, y as int, w);
                    &&& after.spec_hovered() == match next { Some(k) => Some(k as usize), None => None::<usize> }
                    &&& after.spec_selected() == self.spec_selected()
                    &&& cx_after.spec_events() == cx.spec_events()
                    &&& (after.spec_hovered() != self.spec_hovered()) ==> cx_after.spec_requests()
                        == cx.spec_requests().push(WidgetRequest::Invalidate)
                    &&& (after.spec_hovered() == self.spec_hovered()) ==> cx_after.spec_requests()
                        == cx.spec_requests()
                },
                Input::MouseLeave => {
                    &&& after.spec_hovered() is None
                    &&& after.spec_selected() == self.spec_selected()
                    &&& cx_after.spec_events() == cx.spec_events()
                    &&& (self.spec_hovered() is Some ==> cx_after.spec_requests()
                        == cx.spec_requests().push(WidgetRequest::Invalidate))
                    &&& (self.spec_hovered() is None ==> cx_after.spec_requests() == cx.spec_requests())
                },
                Input::MouseDown { x, y, button: MouseButton::Left } => {
                    let hit = self.spec_index_at(x as int, y as int, w);
                    &&& after.spec_hovered() == self.spec_hovered()
                    &&& (hit matches Some(k) ==> {
                        &&& after.spec_selected() == Some(k as usize)
                        &&& cx_after.spec_events() == cx.spec_events().push(GridEvent::Select(k as usize))
                        &&& cx_after.spec_requests() == cx.spec_requests().push(WidgetRequest::Focus).push(WidgetRequest::Invalidate)
                    })
                    &&& (hit is None ==> {
                        &&& after.spec_selected() == self.spec_selected()
                        &&& cx_after.spec_events() == cx.spec_events()
                        &&& cx_after.spec_requests() == cx.spec_requests().push(WidgetRequest::Focus)
                    })
                },
                Input::MouseDoubleClick { x, y, button: MouseButton::Left } => {
                    let hit = self.spec_index_at(x as int, y as int, w);
                    &&& after.spec_selected() == self.spec_selected()
                    &&& after.spec_hovered() == self.spec_hovered()
                    &&& (hit matches Some(k) ==> cx_after.spec_events() == cx.spec_events().push(GridEvent::Activate(k as usize)))
                    &&& (hit is None ==> cx_after.spec_events() == cx.spec_events())
                    &&& cx_after.spec_requests() == cx.spec_requests()
                },
                Input::KeyDown { key, .. } => {
                    &&& after.spec_hovered() == self.spec_hovered()
                    &&& (arrow_direction(key) matches Some(d) ==> (if self.spec_len() == 0 {
                        after.spec_selected() == self.spec_selected()
                            && cx_after.spec_events() == cx.spec_events()
                            && cx_after.spec_requests() == cx.spec_requests()
                    } else {
                        let n = navigate_spec(self.spec_len() as int, self.spec_columns(w),
                            match self.spec_selected() { Some(i) => i as int, None => 0 }, d) as usize;
                        &&& after.spec_selected() == Some(n)
                        &&& cx_after.spec_events() == cx.spec_events().push(GridEvent::Select(n))
                        &&& cx_after.spec_requests() == cx.spec_requests().push(WidgetRequest::Invalidate)
                    }))
                    &&& ((key.0 == VK_RETURN || key.0 == VK_SPACE) ==> {
                        &&& after.spec_selected() == self.spec_selected()
                        &&& (self.spec_selected() matches Some(i) ==> cx_after.spec_events()
                            == cx.spec_events().push(GridEvent::Activate(i)))
                        &&& (self.spec_selected() is None ==> cx_after.spec_events() == cx.spec_events())
                        &&& cx_after.spec_requests() == cx.spec_requests()
                    })
                    &&& ((arrow_direction(key) is None && key.0 != VK_RETURN && key.0 != VK_SPACE) ==> {
                        &&& after.spec_selected() == self.spec_selected()
                        &&& cx_after.spec_events() == cx.spec_events()
                        &&& cx_after.spec_requests() == cx.spec_requests()
                    })
                },
                _ => {
                    &&& after.spec_selected() == self.spec_selected()
                    &&& after.spec_hovered() == self.spec_hovered()
                    &&& cx_after.spec_events() == cx.spec_events()
                    &&& cx_after.spec_requests() == cx.spec_requests()
                },
            }
        })
    }

    /// Handles one input: a move updates the hover (repainting when it
    /// changed), leaving clears it, a left press focuses the grid and selects
    /// the tile under the pointer, a left double-click activates it, arrow keys
    /// move the selection (wrapping) and Enter or Space activates it.
    pub fn handle_input(&mut self, input: Input, cx: &mut WidgetCx<GridEvent>)
        requires
            old(self).wf(),
        ensures
            old(self).input_handled(*final(self), *old(cx), *final(cx), input),
    {
        let b = cx.bounds();
        let wide: i64 = b.right as i64 - b.left as i64;
        let width: i32 = if wide < i32::MIN as i64 {
            i32::MIN
        } else if wide > i32::MAX as i64 {
            i32::MAX
        } else {
            wide as i32
        };
        match input {
            Input::MouseMove { x, y } => {
                let next = self.index_at(x, y, width);
                let before = self.hovered;
                self.hovered = next;
                if before != next {
                    cx.invalidate();
                }
            },
            Input::MouseLeave => {
                let before = self.hovered;
                self.hovered = None;
                if before.is_some() {
                    cx.invalidate();
                }
            },
            Input::MouseDown { x, y, button: MouseButton::Left } => {
                cx.focus();
                if let Some(index) = self.index_at(x, y, width) {
                    self.selected = Some(index);
                    cx.invalidate();
                    cx.emit(GridEvent::Select(index));
                }
            },
            Input::MouseDoubleClick { x, y, button: MouseButton::Left } => {
                if let Some(index) = self.index_at(x, y, width) {
                    cx.emit(GridEvent::Activate(index));
                }
            },
            Input::KeyDown { key, .. } => {
                let direction = if key.0 == VK_LEFT {
                    Direction::Left
                } else if key.0 == VK_RIGHT {
                    Direction::Right
                } else if key.0 == VK_UP {
                    Direction::Up
                } else if key.0 == VK_DOWN {
                    Direction::Down
                } else if key.0 == VK_RETURN || key.0 == VK_SPACE {
                    if let Some(index) = self.selected {
                        cx.emit(GridEvent::Activate(index));
                    }
                    return;
                } else {
                    return;
                };
                if let Some(index) = self.navigate(width, direction) {
                    self.selected = Some(index);
                    cx.invalidate();
                    cx.emit(GridEvent::Select(index));
                }
            },
            _ => {},
        }
    }
}

impl<G: GridModel> CustomWidget for GridWidget<G> {
    type Event = GridEvent;

    open spec fn inv(&self) -> bool {
        self.wf()
    }

    open spec fn spec_renderer(&self) -> Renderer {
        if self.spec_direct2d() {
            Renderer::Direct2D
        } else {
            Renderer::Gdi
        }
    }

    open spec fn spec_preferred_size(&self, dpi: u32) -> Option<Size> {
        None
    }

    open spec fn spec_wants_arrow_keys(&self) -> bool {
        true
    }

    open spec fn input_step(
        &self,
        after: Self,
        cx: WidgetCx<GridEvent>,
        cx_after: WidgetCx<GridEvent>,
        input: Input,
    ) -> bool {
        self.input_handled(after, cx, cx_after, input)
    }

    open spec fn key_step(
        &self,
        after: Self,
        cx: WidgetCx<GridEvent>,
        cx_after: WidgetCx<GridEvent>,
        key: Key,
        modifiers: Modifiers,
        r: KeyResult,
    ) -> bool {
        &&& r == KeyResult::Ignored
        &&& after == *self
        &&& cx_after == cx
    }

    /// Direct2D when a Direct2D content painter was set, GDI otherwise.
    fn renderer(&self) -> (r: Renderer) {
        if self.direct2d {
            Renderer::Direct2D
        } else {
            Renderer::Gdi
        }
    }

    /// The grid fills whatever the host gives it.
    fn preferred_size(&self, dpi: u32) -> (size: Option<Size>) {
        None
    }

    fn input(&mut self, input: Input, cx: &mut WidgetCx<GridEvent>) {
        self.handle_input(input, cx);
    }

    /// The grid leaves the navigation keys to its scroll host.
    fn key(&mut self, key: Key, modifiers: Modifiers, cx: &mut WidgetCx<GridEvent>) -> (r: KeyResult) {
        KeyResult::Ignored
    }

    /// The grid moves its selection with the arrow keys.
    fn wants_arrow_keys(&self) -> (wants: bool) {
        true
    }
}

} // verus!
