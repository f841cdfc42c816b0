//! Owner-drawn menu items: the size one item asks for and the plan it is
//! painted with, from the window's theme tokens. The host measures the text
//! and carries the plan out on the item's device context.

use vstd::prelude::*;

use crate::color::Color;
use crate::controls::custom::scroll::trunc_div;
use crate::controls::listview::draw::Fill;
use crate::controls::menu::RenderItem;
use crate::geometry::{Point, Rect, Size};
use crate::theme::Theme;
use crate::units::{fits, larger, px, Dip};

verus! {

/// `ODS_SELECTED`: the item is highlighted.
pub const ODS_SELECTED: u32 = 0x0001;
/// `ODS_DISABLED`: the item is greyed.
pub const ODS_DISABLED: u32 = 0x0004;

/// Theme colours for painting owner-drawn menu items.
#[derive(Clone, Copy, Debug, PartialEq, Eq, Structural)]
pub struct MenuPaint {
    /// Popup and bar background.
    pub background: Color,
    /// Highlighted item background.
    pub selection: Color,
    /// Item label.
    pub text: Color,
    /// Shortcut text.
    pub shortcut: Color,
    /// Disabled label and shortcut text.
    pub text_disabled: Color,
    /// Separator line.
    pub border: Color,
}

impl MenuPaint {
    /// Derives a menu palette from the app [`Theme`]: raised surface,
    /// selection highlight, primary and secondary text, disabled text and
    /// the border for separators.
    pub fn from_theme(theme: &Theme) -> (p: MenuPaint)
        ensures
            p == (MenuPaint {
                background: theme.raised,
                selection: theme.selection,
                text: theme.text,
                shortcut: theme.text_secondary,
                text_disabled: theme.text_disabled,
                border: theme.border,
            }),
    {
        MenuPaint {
            background: theme.raised,
            selection: theme.selection,
            text: theme.text,
            shortcut: theme.text_secondary,
            text_disabled: theme.text_disabled,
            border: theme.border,
        }
    }
}

/// What the host measured with the menu font.
#[derive(Clone, Copy, Debug, PartialEq, Eq, Structural)]
pub struct MenuFont {
    /// The font's pixel height.
    pub pixel_height: i32,
    /// The label's width.
    pub label_width: i32,
    /// The shortcut text's width (0 without a shortcut).
    pub shortcut_width: i32,
}

/// The natural size of an item measured with `font`: the glyph gutter, the
/// label, a gap and the shortcut when there is one, the right padding and
/// the chevron of a submenu; at least the standard item height.
pub open spec fn measured_size(item: RenderItem, dpi: u32, font: MenuFont) -> (int, int) {
    let gap = if font.shortcut_width > 0 { px(24, dpi) } else { 0 };
    let arrow = if item.submenu { px(20, dpi) } else { 0 };
    (
        px(24, dpi) + font.label_width + gap + font.shortcut_width + px(16, dpi) + arrow,
        larger(font.pixel_height + px(8, dpi), px(24, dpi)),
    )
}

/// The size one owner-drawn item asks for, reported from
/// `WM_MEASUREITEM`: a separator is a thin line, an item without a font
/// takes the fallback size.
pub fn measure(item: &RenderItem, dpi: u32, font: Option<MenuFont>) -> (size: Size)
    requires
        font matches Some(f) ==> {
            let (w, h) = measured_size(*item, dpi, f);
            &&& fits(w) && fits(h)
            &&& fits(px(24, dpi) + f.label_width)
            &&& fits(px(24, dpi) + f.label_width + if f.shortcut_width > 0 { px(24, dpi) } else { 0 })
            &&& fits(px(24, dpi) + f.label_width + (if f.shortcut_width > 0 { px(24, dpi) } else { 0 }) + f.shortcut_width)
            &&& fits(px(24, dpi) + f.label_width + (if f.shortcut_width > 0 { px(24, dpi) } else { 0 }) + f.shortcut_width + px(16, dpi))
            &&& fits(f.pixel_height + px(8, dpi))
        },
    ensures
        item.separator ==> size == (Size { width: px(140, dpi) as i32, height: px(7, dpi) as i32 }),
        !item.separator && font is None ==> size == (Size { width: px(140, dpi) as i32, height: px(24, dpi) as i32 }),
        !item.separator ==> (font matches Some(f) ==> size == (Size {
            width: measured_size(*item, dpi, f).0 as i32,
            height: measured_size(*item, dpi, f).1 as i32,
        })),
{
    let fallback_width = Dip::new(140).to_px(dpi).value();
    let item_height = Dip::new(24).to_px(dpi).value();
    if item.separator {
        return Size::new(fallback_width, Dip::new(7).to_px(dpi).value());
    }
    let f = match font {
        Some(f) => f,
        None => {
            return Size::new(fallback_width, item_height);
        },
    };
    let gutter = Dip::new(24).to_px(dpi).value();
    let pad = Dip::new(16).to_px(dpi).value();
    let gap = if f.shortcut_width > 0 {
        Dip::new(24).to_px(dpi).value()
    } else {
        0
    };
    let arrow = if item.submenu {
        Dip::new(20).to_px(dpi).value()
    } else {
        0
    };
    let tall = f.pixel_height + Dip::new(8).to_px(dpi).value();
    let height = if tall < item_height {
        item_height
    } else {
        tall
    };
    Size::new(gutter + f.label_width + gap + f.shortcut_width + pad + arrow, height)
}

/// The check or radio mark in an item's leading gutter.
#[derive(Clone, Copy, Debug, PartialEq, Eq, Structural)]
pub enum Glyph {
    /// A tick: two strokes of `width` through three points.
    Check { from: Point, corner: Point, to: Point, width: i32, color: Color },
    /// A radio dot: a ring round rectangle, then a dot inside it.
    Radio {
        ring: Rect,
        radius: i32,
        fill: Color,
        ring_color: Color,
        dot: Rect,
        dot_radius: i32,
        dot_color: Color,
    },
}

/// A run of text and where it goes.
#[derive(Clone, Copy, Debug, PartialEq, Eq, Structural)]
pub struct TextRun {
    /// The rectangle the text is drawn in.
    pub rect: Rect,
    /// The text colour.
    pub color: Color,
}

/// A submenu chevron: two one-pixel strokes through three points.
#[derive(Clone, Copy, Debug, PartialEq, Eq, Structural)]
pub struct Chevron {
    pub top: Point,
    pub tip: Point,
    pub bottom: Point,
    pub color: Color,
}

/// Everything one item is painted with, in order.
#[derive(Clone, Copy, Debug, PartialEq, Eq, Structural)]
pub struct ItemPaint {
    /// A separator's line.
    pub separator: Option<Fill>,
    /// The item's background.
    pub background: Option<Fill>,
    /// The check or radio mark.
    pub glyph: Option<Glyph>,
    /// The shortcut text, right-aligned.
    pub shortcut: Option<TextRun>,
    /// The label, left-aligned and ellipsised.
    pub label: Option<TextRun>,
    /// The submenu chevron.
    pub chevron: Option<Chevron>,
}

/// The vertical middle of `area`.
pub open spec fn middle(area: Rect) -> int {
    area.top + trunc_div(area.bottom - area.top, 2)
}

/// Whether an item painted in `state` is highlighted.
pub open spec fn is_selected(state: u32) -> bool {
    state & ODS_SELECTED != 0
}

/// Whether an item painted in `state` is greyed.
pub open spec fn is_disabled(state: u32, item: RenderItem) -> bool {
    state & ODS_DISABLED != 0 || !item.enabled
}

/// The mark in the gutter of an item in `area`.
pub open spec fn glyph_spec(area: Rect, item: RenderItem, paint: MenuPaint, dpi: u32, disabled: bool) -> Option<Glyph> {
    let x = area.left + px(6, dpi);
    let center = middle(area);
    if item.radio && item.checked {
        let r = larger(px(5, dpi), 4);
        let dot = r / 2;
        Some(
            Glyph::Radio {
                ring: Rect {
                    left: x as i32,
                    top: (center - r) as i32,
                    right: (x + 2 * r) as i32,
                    bottom: (center + r) as i32,
                },
                radius: r as i32,
                fill: paint.background,
                ring_color: if disabled { paint.text_disabled } else { paint.shortcut },
                dot: Rect {
                    left: (x + r - dot) as i32,
                    top: (center - dot) as i32,
                    right: (x + r + dot) as i32,
                    bottom: (center + dot) as i32,
                },
                dot_radius: dot as i32,
                dot_color: if disabled { paint.text_disabled } else { paint.text },
            },
        )
    } else if item.checked {
        let step = larger(px(4, dpi), 3);
        Some(
            Glyph::Check {
                from: Point { x: x as i32, y: center as i32 },
                corner: Point { x: (x + step) as i32, y: (center + step) as i32 },
                to: Point { x: (x + 2 * step + px(2, dpi)) as i32, y: (center - step) as i32 },
                width: larger(px(2, dpi), 1) as i32,
                color: if disabled { paint.text_disabled } else { paint.text },
            },
        )
    } else {
        None
    }
}

/// The right edge of the label before a shortcut takes its room.
pub open spec fn label_right(area: Rect, item: RenderItem, dpi: u32) -> int {
    area.right - px(16, dpi) - if item.submenu { px(20, dpi) } else { 0 }
}

/// The plan one item in `area` is painted with in `state`.
pub open spec fn item_paint_spec(
    area: Rect,
    state: u32,
    item: RenderItem,
    paint: MenuPaint,
    dpi: u32,
    font: Option<MenuFont>,
) -> ItemPaint {
    if item.separator {
        let mid = middle(area);
        ItemPaint {
            separator: Some(
                Fill {
                    rect: Rect {
                        left: (area.left + px(8, dpi)) as i32,
                        top: mid as i32,
                        right: area.right,
                        bottom: (mid + 1) as i32,
                    },
                    color: paint.border,
                },
            ),
            background: None,
            glyph: None,
            shortcut: None,
            label: None,
            chevron: None,
        }
    } else {
        let disabled = is_disabled(state, item);
        let text = if disabled { paint.text_disabled } else { paint.text };
        let shortcut_color = if disabled { paint.text_disabled } else { paint.shortcut };
        let background = Some(
            Fill { rect: area, color: if is_selected(state) { paint.selection } else { paint.background } },
        );
        let glyph = glyph_spec(area, item, paint, dpi, disabled);
        match font {
            None => ItemPaint { separator: None, background, glyph, shortcut: None, label: None, chevron: None },
            Some(f) => {
                let left = area.left + px(24, dpi);
                let right0 = label_right(area, item, dpi);
                let shortcut_right = right0 - px(8, dpi);
                let shortcut = if item.shortcut is Some {
                    Some(
                        TextRun {
                            rect: Rect {
                                left: (shortcut_right - f.shortcut_width) as i32,
                                top: area.top,
                                right: shortcut_right as i32,
                                bottom: area.bottom,
                            },
                            color: shortcut_color,
                        },
                    )
                } else {
                    None
                };
                let right = if item.shortcut is Some {
                    larger(shortcut_right - f.shortcut_width - px(8, dpi), left)
                } else {
                    right0
                };
                let center = middle(area);
                let x = area.right - px(12, dpi);
                let half = larger(px(3, dpi), 3);
                ItemPaint {
                    separator: None,
                    background,
                    glyph,
                    shortcut,
                    label: Some(
                        TextRun {
                            rect: Rect { left: left as i32, top: area.top, right: right as i32, bottom: area.bottom },
                            color: text,
                        },
                    ),
                    chevron: if item.submenu {
                        Some(
                            Chevron {
                                top: Point { x: (x - half) as i32, y: (center - half) as i32 },
                                tip: Point { x: x as i32, y: center as i32 },
                                bottom: Point { x: (x - half) as i32, y: (center + half) as i32 },
                                color: text,
                            },
                        )
                    } else {
                        None
                    },
                }
            },
        }
    }
}

/// Every coordinate the plan of an item in `area` computes fits an `i32`.
pub open spec fn paint_fits(area: Rect, item: RenderItem, dpi: u32, font: Option<MenuFont>) -> bool {
    let center = middle(area);
    let x = area.left + px(6, dpi);
    let r = larger(px(5, dpi), 4);
    let step = larger(px(4, dpi), 3);
    &&& fits(area.bottom - area.top)
    &&& fits(center + 1)
    &&& item.separator ==> fits(area.left + px(8, dpi))
    &&& !item.separator ==> fits(x)
    &&& (!item.separator && item.radio && item.checked) ==> fits(center - r) && fits(center + r) && fits(x + 2 * r)
    &&& (!item.separator && !item.radio && item.checked) ==> fits(center + step) && fits(center - step) && fits(x + 2 * step + px(2, dpi))
    &&& (!item.separator && font is Some) ==> {
        let f = font->0;
        let right0 = label_right(area, item, dpi);
        let xr = area.right - px(12, dpi);
        let half = larger(px(3, dpi), 3);
        &&& fits(area.left + px(24, dpi))
        &&& fits(area.right - px(16, dpi))
        &&& fits(right0)
        &&& item.shortcut is Some ==> fits(right0 - px(8, dpi)) && fits(right0 - px(8, dpi) - f.shortcut_width)
            && fits(right0 - px(8, dpi) - f.shortcut_width - px(8, dpi))
        &&& item.submenu ==> fits(xr) && fits(xr - half) && fits(center - half) && fits(center + half)
    }
}

/// The plan one owner-drawn item is painted with into the `WM_DRAWITEM`
/// device context. `state` is the raw `ODS_*` flags; only selected and
/// disabled are read. `font` is what the host measured, `None` when no
/// menu font could be had (then only the background and mark are
/// painted).
pub fn paint_item(
    area: Rect,
    state: u32,
    item: &RenderItem,
    paint: &MenuPaint,
    dpi: u32,
    font: Option<MenuFont>,
) -> (plan: ItemPaint)
    requires
        paint_fits(area, *item, dpi, font),
    ensures
        plan == item_paint_spec(area, state, *item, *paint, dpi, font),
{
    let top = area.top as i64;
    let height = area.bottom as i64 - top;
    let center = top + height / 2;
    if item.separator {
        let left = area.left as i64 + Dip::new(8).to_px(dpi).value() as i64;
        return ItemPaint {
            separator: Some(
                Fill {
                    rect: Rect::new(left as i32, center as i32, area.right, (center + 1) as i32),
                    color: paint.border,
                },
            ),
            background: None,
            glyph: None,
            shortcut: None,
            label: None,
            chevron: None,
        };
    }
    let selected = state & ODS_SELECTED != 0;
    let disabled = state & ODS_DISABLED != 0 || !item.enabled;
    let background = Some(
        Fill { rect: area, color: if selected { paint.selection } else { paint.background } },
    );
    let text = if disabled { paint.text_disabled } else { paint.text };
    let shortcut_color = if disabled { paint.text_disabled } else { paint.shortcut };

    let x = area.left as i64 + Dip::new(6).to_px(dpi).value() as i64;
    let glyph = if item.radio && item.checked {
        let five = Dip::new(5).to_px(dpi).value() as i64;
        let r: i64 = if five < 4 { 4 } else { five };
        let dot = r / 2;
        Some(
            Glyph::Radio {
                ring: Rect::new(x as i32, (center - r) as i32, (x + 2 * r) as i32, (center + r) as i32),
                radius: r as i32,
                fill: paint.background,
                ring_color: if disabled { paint.text_disabled } else { paint.shortcut },
                dot: Rect::new(
                    (x + r - dot) as i32,
                    (center - dot) as i32,
                    (x + r + dot) as i32,
                    (center + dot) as i32,
                ),
                dot_radius: dot as i32,
                dot_color: if disabled { paint.text_disabled } else { paint.text },
            },
        )
    } else if item.checked {
        let four = Dip::new(4).to_px(dpi).value() as i64;
        let step: i64 = if four < 3 { 3 } else { four };
        let two = Dip::new(2).to_px(dpi).value() as i64;
        let width: i64 = if two < 1 { 1 } else { two };
        Some(
            Glyph::Check {
                from: Point::new(x as i32, center as i32),
                corner: Point::new((x + step) as i32, (center + step) as i32),
                to: Point::new((x + 2 * step + two) as i32, (center - step) as i32),
                width: width as i32,
                color: if disabled { paint.text_disabled } else { paint.text },
            },
        )
    } else {
        None
    };

    let f = match font {
        Some(f) => f,
        None => {
            return ItemPaint { separator: None, background, glyph, shortcut: None, label: None, chevron: None };
        },
    };
    let left = area.left as i64 + Dip::new(24).to_px(dpi).value() as i64;
    let arrow: i64 = if item.submenu {
        Dip::new(20).to_px(dpi).value() as i64
    } else {
        0
    };
    let right0 = area.right as i64 - Dip::new(16).to_px(dpi).value() as i64 - arrow;
    let eight = Dip::new(8).to_px(dpi).value() as i64;
    let shortcut_right = right0 - eight;
    let sw = f.shortcut_width as i64;
    let (shortcut, right) = match item.shortcut {
        Some(_) => {
            let squeezed = shortcut_right - sw - eight;
            (
                Some(
                    TextRun {
                        rect: Rect::new((shortcut_right - sw) as i32, area.top, shortcut_right as i32, area.bottom),
                        color: shortcut_color,
                    },
                ),
                if squeezed < left { left } else { squeezed },
            )
        },
        None => (None, right0),
    };
    let chevron = if item.submenu {
        let xr = area.right as i64 - Dip::new(12).to_px(dpi).value() as i64;
        let three = Dip::new(3).to_px(dpi).value() as i64;
        let half: i64 = if three < 3 { 3 } else { three };
        Some(
            Chevron {
                top: Point::new((xr - half) as i32, (center - half) as i32),
                tip: Point::new(xr as i32, center as i32),
                bottom: Point::new((xr - half) as i32, (center + half) as i32),
                color: text,
            },
        )
    } else {
        None
    };
    ItemPaint {
        separator: None,
        background,
        glyph,
        shortcut,
        label: Some(TextRun { rect: Rect::new(left as i32, area.top, right as i32, area.bottom), color: text }),
        chevron,
    }
}

} // verus!
