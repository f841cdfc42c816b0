//! A virtualized, themed grid of square tiles over a typed [`GridModel`].

pub mod layout;
pub mod model;
pub mod theme;
pub mod widget;

use vstd::prelude::*;

use crate::controls::custom::widget::Renderer;
use crate::controls::custom::scroll::clamp_spec;
use crate::controls::custom::{Custom, Handled, Route};
use crate::controls::grid_view::layout::content_height_spec;
use crate::controls::grid_view::model::{GridModel, TileSizeSpec};
use crate::controls::grid_view::widget::{GridEvent, GridWidget};
use crate::geometry::Rect;
use crate::hwnd::Hwnd;
use crate::message::Message;
use crate::units::{dip, saturate_i32, Dip, Px};

verus! {

/// The default tile size, in design units.
pub const DEFAULT_TILE_DIP: i32 = 148;
/// The gap between tiles, in both directions, in design units.
pub const SPACING_DIP: i32 = 8;

/// A virtualized grid of tiles hosted in a custom widget with a vertical
/// scroll host. The window is viewport-sized; the scrollable extent is kept
/// equal to the content height of the model at the current width.
pub struct GridView<G> {
    custom: Custom<GridWidget<G>>,
    spacing_px: i32,
}

impl<G: GridModel> GridView<G> {
    pub closed spec fn spec_custom(&self) -> Custom<GridWidget<G>> {
        self.custom
    }

    /// The grid widget.
    pub open spec fn spec_widget(&self) -> GridWidget<G> {
        self.spec_custom().spec_widget()
    }

    /// The grid's invariant: the host and the widget are well-formed, the
    /// host has its scroll host, and the widget's gap is the grid's.
    pub open spec fn wf(&self) -> bool {
        &&& self.spec_custom().wf()
        &&& self.spec_custom().spec_scroll() is Some
    }

    /// The scrollable extent the grid keeps: the model's content height at
    /// the current width, in design units.
    pub open spec fn spec_extent(&self) -> int {
        let w = self.spec_widget();
        let b = self.spec_custom().spec_bounds();
        let columns = w.spec_columns(crate::controls::grid_view::widget::width_of(b.left, b.right));
        let h = saturate_i32(content_height_spec(w.spec_len() as int, columns, w.spec_tile_px() as int, w.spec_spacing_px() as int));
        Px((if h > 0 { h } else { 0 }) as i32).spec_to_dip(self.spec_custom().spec_dpi())
    }

    /// An empty grid in the child window `hwnd` at `dpi`, at the default tile
    /// size (148 design units) and gap (8 design units), with no model yet.
    pub fn new(hwnd: Hwnd, dpi: u32) -> (g: GridView<G>)
        requires
            0 < dpi,
        ensures
            g.wf(),
            g.spec_widget().spec_model() is None,
            g.spec_widget().spec_selected() is None,
            g.spec_custom().spec_hwnd() == hwnd,
            g.spec_custom().spec_dpi() == dpi,
            g.spec_widget().spec_tile_px() == (if Dip(DEFAULT_TILE_DIP).spec_to_px(dpi) >= 1 {
                Dip(DEFAULT_TILE_DIP).spec_to_px(dpi)
            } else {
                1
            }),
    {
        let tile_px = dip(DEFAULT_TILE_DIP).to_px(dpi).value();
        let spacing_px = dip(SPACING_DIP).to_px(dpi).value();
        let widget: GridWidget<G> = GridWidget::new(tile_px, None, spacing_px);
        let custom = Custom::new(hwnd, widget, dpi).with_vscroll();
        let spacing = if spacing_px >= 0 { spacing_px } else { 0 };
        GridView { custom, spacing_px: spacing }
    }

    /// Recomputes the scrollable extent from the model, the tile size and the
    /// current viewport width.
    fn resync(&mut self)
        requires
            old(self).wf(),
        ensures
            final(self).wf(),
            final(self).spec_widget() == old(self).spec_widget(),
            final(self).spec_custom().spec_dpi() == old(self).spec_custom().spec_dpi(),
            final(self).spec_custom().spec_bounds() == old(self).spec_custom().spec_bounds(),
            final(self).spec_custom().spec_scroll() matches Some(s) && s.spec_content_height() == ({
                let px = Dip(old(self).spec_extent() as i32).spec_to_px(old(self).spec_custom().spec_dpi());
                if px > 0 { px } else { 0 }
            }),
            old(self).spec_custom().spec_scroll() matches Some(s) && (final(self).spec_custom().spec_scroll() matches Some(t)
                && t.spec_page() == s.spec_page()
                && t.spec_offset() == clamp_spec(s.spec_offset(), 0, t.spec_max_offset())),
    {
        let b = self.custom.bounds();
        let wide: i64 = b.right as i64 - b.left as i64;
        let width: i32 = if wide < i32::MIN as i64 {
            i32::MIN
        } else if wide > i32::MAX as i64 {
            i32::MAX
        } else {
            wide as i32
        };
        let widget = self.custom.widget();
        let columns = widget.columns(width);
        let height = crate::controls::grid_view::layout::content_height_px(
            widget.len(),
            columns,
            widget.tile_px(),
            widget.spacing_px(),
        );
        let dpi = self.custom_dpi();
        let extent = Px(if height > 0 { height } else { 0 }).to_dip(dpi);
        self.custom.set_content_height(extent);
    }

    fn custom_dpi(&self) -> (d: u32)
        requires
            self.wf(),
        ensures
            d == self.spec_custom().spec_dpi(),
            0 < d,
    {
        self.custom.dpi()
    }

    /// Sets the tile size: a fixed size, or a range the app can vary live with
    /// [`GridView::set_tile_size`]. The range is converted to device pixels now;
    /// the tile then takes the spec's initial size.
    pub fn tile_size(self, spec: TileSizeSpec) -> (g: GridView<G>)
        requires
            self.wf(),
            spec.range matches Some((lo, hi)) ==> lo.spec_to_px(self.spec_custom().spec_dpi())
                <= hi.spec_to_px(self.spec_custom().spec_dpi()),
        ensures
            g.wf(),
            g.spec_widget().spec_model() == self.spec_widget().spec_model(),
            g.spec_widget().spec_tile_range_px() == match spec.range {
                Some((lo, hi)) => Some((lo.spec_to_px(self.spec_custom().spec_dpi()) as i32,
                    hi.spec_to_px(self.spec_custom().spec_dpi()) as i32)),
                None => None::<(i32, i32)>,
            },
    {
        let mut g = self;
        let dpi = g.custom_dpi();
        let range_px = match spec.range {
            Some((lo, hi)) => Some((lo.to_px(dpi).value(), hi.to_px(dpi).value())),
            None => None,
        };
        g.custom.widget_mut().set_tile_range_px(range_px);
        g.set_tile_size(spec.initial);
        g
    }

    /// Replaces the data source: the tile count is re-read from the model, a
    /// selection now out of range is cleared, and the scrollable extent is
    /// resynced.
    pub fn set_model(&mut self, model: G)
        requires
            old(self).wf(),
        ensures
            final(self).wf(),
            final(self).spec_widget().spec_model() == Some(model),
            old(self).spec_widget().spec_selected() matches Some(i) ==> final(self).spec_widget().spec_selected()
                == if i < model.spec_len() { Some(i) } else { None },
            old(self).spec_widget().spec_selected() is None ==> final(self).spec_widget().spec_selected() is None,
            final(self).spec_widget().spec_tile_px() == old(self).spec_widget().spec_tile_px(),
    {
        self.custom.widget_mut().set_model(model);
        self.resync();
    }

    /// The current (single) selection, if any.
    pub fn selected(&self) -> (s: Option<usize>)
        ensures
            s == self.spec_widget().spec_selected(),
    {
        self.custom.widget().selected()
    }

    /// Selects `index` (clamped to the model, `None` clears it) without
    /// raising a selection event.
    pub fn set_selected(&mut self, index: Option<usize>)
        requires
            old(self).wf(),
        ensures
            final(self).wf(),
            final(self).spec_widget().spec_selected() == match index {
                Some(i) => if old(self).spec_widget().spec_len() == 0 {
                    None
                } else if i < old(self).spec_widget().spec_len() {
                    Some(i)
                } else {
                    Some((old(self).spec_widget().spec_len() - 1) as usize)
                },
                None => None,
            },
            final(self).spec_widget().spec_model() == old(self).spec_widget().spec_model(),
    {
        self.custom.widget_mut().set_selected(index);
    }

    /// Switches the tiles to the Direct2D painter (a Direct2D content painter
    /// was set) or back to GDI.
    pub fn set_direct2d(&mut self, on: bool)
        requires
            old(self).wf(),
        ensures
            final(self).wf(),
            final(self).spec_widget().spec_direct2d() == on,
            final(self).spec_widget().spec_model() == old(self).spec_widget().spec_model(),
    {
        self.custom.widget_mut().set_direct2d(on);
    }

    /// The tile size, in design units.
    pub fn current_tile_size(&self) -> (d: Dip)
        requires
            self.wf(),
        ensures
            d.0 == Px(self.spec_widget().spec_tile_px()).spec_to_dip(self.spec_custom().spec_dpi()),
    {
        let dpi = self.custom_dpi();
        Px(self.custom.widget().tile_px()).to_dip(dpi)
    }

    /// Sets the tile size, clamped to the tile range if there is one. A size
    /// that lands on the current device-pixel tile is a no-op; any other
    /// resyncs the scrollable extent.
    pub fn set_tile_size(&mut self, size: Dip)
        requires
            old(self).wf(),
        ensures
            final(self).wf(),
            ({
                let px = size.spec_to_px(old(self).spec_custom().spec_dpi());
                let clamped = match old(self).spec_widget().spec_tile_range_px() {
                    Some((lo, hi)) => if px < lo { lo as int } else if px > hi { hi as int } else { px },
                    None => px,
                };
                final(self).spec_widget().spec_tile_px() == if clamped >= 1 { clamped } else { 1 }
            }),
            final(self).spec_widget().spec_model() == old(self).spec_widget().spec_model(),
            final(self).spec_widget().spec_selected() == old(self).spec_widget().spec_selected(),
            final(self).spec_widget().spec_tile_range_px() == old(self).spec_widget().spec_tile_range_px(),
    {
        let dpi = self.custom_dpi();
        let px = size.to_px(dpi).value();
        let before = self.custom.widget().tile_px();
        self.custom.widget_mut().set_tile_px(px);
        let after = self.custom.widget().tile_px();
        if after != before {
            self.resync();
        }
    }

    /// Handles one message of the grid's window; a resize also resyncs the
    /// scrollable extent to the new width.
    pub fn handle(&mut self, message: Message, wheel_unit: i32, track: i32) -> (h: Handled<GridEvent>)
        requires
            old(self).wf(),
        ensures
            final(self).wf(),
            !(h.route is Resize) ==> old(self).spec_custom().handles(final(self).spec_custom(), message, wheel_unit, track, h),
            h.route matches Route::Resize(w, hh) ==> {
                &&& message == (Message::Size { width: w, height: hh })
                &&& h.result == Some(0isize)
                &&& final(self).spec_custom().spec_bounds() == (Rect { left: 0, top: 0, right: w, bottom: hh })
                &&& final(self).spec_custom().spec_dpi() == old(self).spec_custom().spec_dpi()
                &&& final(self).spec_custom().spec_scroll() matches Some(t) && {
                    &&& t.spec_page() == (if hh > 0 { hh as int } else { 0 })
                    &&& t.spec_content_height() == ({
                        let px = Dip(final(self).spec_extent() as i32).spec_to_px(final(self).spec_custom().spec_dpi());
                        if px > 0 { px } else { 0 }
                    })
                }
            },
    {
        let h = self.custom.handle(message, wheel_unit, track);
        if let Route::Resize(_, _) = h.route {
            self.resync();
        }
        h
    }

    /// The paint route of the grid: Direct2D when a Direct2D painter was set.
    pub fn renderer(&self) -> (r: Renderer)
        ensures
            r == if self.spec_widget().spec_direct2d() { Renderer::Direct2D } else { Renderer::Gdi },
    {
        if self.custom.widget().is_direct2d() {
            Renderer::Direct2D
        } else {
            Renderer::Gdi
        }
    }

    /// The hosting custom widget.
    pub fn custom(&self) -> (c: &Custom<GridWidget<G>>)
        ensures
            *c == self.spec_custom(),
    {
        &self.custom
    }
}

/// The app's mapping of a grid's events.
pub struct GridHandlers<S, A> {
    /// Maps a selection change (click or keyboard navigation) to a message.
    pub on_select: Option<S>,
    /// Maps an activation (double-click, or Enter/Space on the selection).
    pub on_activate: Option<A>,
}

impl<S, A> GridHandlers<S, A> {
    /// No mapping installed.
    pub fn new() -> (h: GridHandlers<S, A>)
        ensures
            h.on_select is None,
            h.on_activate is None,
    {
        GridHandlers { on_select: None, on_activate: None }
    }

    /// Maps the selection to a message whenever it changes.
    pub fn on_select(self, f: S) -> (h: GridHandlers<S, A>)
        ensures
            h.on_select == Some(f),
            h.on_activate == self.on_activate,
    {
        GridHandlers { on_select: Some(f), on_activate: self.on_activate }
    }

    /// Maps a tile activation to a message.
    pub fn on_activate(self, f: A) -> (h: GridHandlers<S, A>)
        ensures
            h.on_activate == Some(f),
            h.on_select == self.on_select,
    {
        GridHandlers { on_select: self.on_select, on_activate: Some(f) }
    }

    /// The app message for one grid event, through the matching mapping.
    pub fn message<M>(&self, event: GridEvent) -> (msg: Option<M>)
        where
            S: Fn(usize) -> Option<M>,
            A: Fn(usize) -> Option<M>,
        requires
            self.on_select matches Some(f) ==> forall|i: usize| call_requires(f, (i,)),
            self.on_activate matches Some(f) ==> forall|i: usize| call_requires(f, (i,)),
        ensures
            match event {
                GridEvent::Select(i) => match self.on_select {
                    Some(f) => call_ensures(f, (i,), msg),
                    None => msg is None,
                },
                GridEvent::Activate(i) => match self.on_activate {
                    Some(f) => call_ensures(f, (i,), msg),
                    None => msg is None,
                },
            },
    {
        match event {
            GridEvent::Select(i) => match &self.on_select {
                Some(f) => f(i),
                None => None,
            },
            GridEvent::Activate(i) => match &self.on_activate {
                Some(f) => f(i),
                None => None,
            },
        }
    }
}

} // verus!
