//! The owner-draw plans of the list view: which notifications its hooks
//! answer, and what one row or one header item is painted with. The host
//! carries a plan out on the device context.

use vstd::prelude::*;

use crate::color::Color;
use crate::controls::custom::scroll::trunc_div;
use crate::controls::listview::model::Column;
use crate::controls::listview::state::{ListViewState, SortIndicator};
use crate::controls::listview::style::RowStyle;
use crate::controls::listview::theme::ListViewTheme;
use crate::geometry::Rect;

verus! {

/// `LVN_GETDISPINFOW`: the control asks for a cell's text.
pub const LVN_GETDISPINFO: u32 = 0xFFFF_FF4F;
/// `NM_CUSTOMDRAW`: the control offers a paint stage.
pub const NM_CUSTOMDRAW: u32 = 0xFFFF_FFF4;
/// `CDDS_PREPAINT`, from `commctrl.h`.
pub const CDDS_PREPAINT: u32 = 0x0000_0001;
/// `CDDS_ITEMPREPAINT`, from `commctrl.h`.
pub const CDDS_ITEMPREPAINT: u32 = 0x0001_0001;
/// `CDRF_NOTIFYITEMDRAW`: ask for one notification per item.
pub const CDRF_NOTIFYITEMDRAW: isize = 0x20;
/// `CDRF_SKIPDEFAULT`: the item was painted completely.
pub const CDRF_SKIPDEFAULT: isize = 0x04;
/// Width, in device pixels, of a row's accent bar.
pub const ACCENT_BAR_WIDTH: i32 = 3;
/// Horizontal inset of a cell's text, in device pixels.
pub const CELL_TEXT_INSET: i32 = 4;
/// Horizontal inset of a header label, in device pixels.
pub const HEADER_TEXT_INSET: i32 = 6;
/// Half the height of the header's sort arrow, in device pixels.
pub const SORT_ARROW_HALF: i32 = 4;

/// Which of the list view's own hooks a notification is for.
#[derive(Clone, Copy, Debug, PartialEq, Eq, Structural)]
pub enum NotificationKind {
    /// A cell's text is requested (`LVN_GETDISPINFO`).
    CellText,
    /// A paint stage is offered (`NM_CUSTOMDRAW`).
    CustomDraw,
    /// Not one of the list view's own hooks.
    Other,
}

/// Which hook the notification `code` is for.
pub fn notification_kind(code: u32) -> (kind: NotificationKind)
    ensures
        code == LVN_GETDISPINFO ==> kind == NotificationKind::CellText,
        code == NM_CUSTOMDRAW ==> kind == NotificationKind::CustomDraw,
        code != LVN_GETDISPINFO && code != NM_CUSTOMDRAW ==> kind == NotificationKind::Other,
{
    if code == LVN_GETDISPINFO {
        NotificationKind::CellText
    } else if code == NM_CUSTOMDRAW {
        NotificationKind::CustomDraw
    } else {
        NotificationKind::Other
    }
}

/// The text of one cell and where it goes.
#[derive(Clone, Copy, Debug, PartialEq, Eq, Structural)]
pub struct CellPaint {
    /// The cell's column.
    pub column: usize,
    /// The rectangle the text is drawn in, inset from the cell.
    pub rect: Rect,
    /// Whether the text is right-aligned.
    pub align_right: bool,
}

/// A solid rectangle.
#[derive(Clone, Copy, Debug, PartialEq, Eq, Structural)]
pub struct Fill {
    /// Where.
    pub rect: Rect,
    /// In which colour.
    pub color: Color,
}

/// Everything one row is painted with, in order: the background, the cell
/// texts, the accent bar and the column separators.
pub struct RowPaint {
    /// The row's background.
    pub background: Fill,
    /// The text colour of every cell.
    pub text: Color,
    /// Whether the text uses the bold font.
    pub bold: bool,
    /// The cells with a non-empty rectangle, in column order.
    pub cells: Vec<CellPaint>,
    /// The left-edge accent bar, if the row's style asks for one.
    pub accent: Option<Fill>,
    /// One-pixel separators before every column but the first.
    pub separators: Vec<Rect>,
}

/// How a row's paint stage is answered.
pub enum RowDraw {
    /// Let the control paint (`CDRF_DODEFAULT`).
    Default,
    /// Ask for a notification per item (`CDRF_NOTIFYITEMDRAW`).
    NotifyItemDraw,
    /// The row needs no painting; skip the default (`CDRF_SKIPDEFAULT`).
    Skip,
    /// Paint the row as planned, then skip the default.
    Paint(RowPaint),
}

/// The text cells of a row: for each column whose `cells` rectangle is not
/// empty, its text rectangle inset by [`CELL_TEXT_INSET`] on both sides.
pub open spec fn text_cells(columns: Seq<Column>, cells: Seq<Rect>) -> Seq<CellPaint>
    decreases columns.len(),
{
    if columns.len() == 0 {
        seq![]
    } else {
        let k = columns.len() - 1;
        let rest = text_cells(columns.drop_last(), cells);
        let cell = cells[k];
        if cell.right <= cell.left || cell.bottom <= cell.top {
            rest
        } else {
            rest.push(
                CellPaint {
                    column: k as usize,
                    rect: Rect {
                        left: (cell.left + CELL_TEXT_INSET) as i32,
                        top: cell.top,
                        right: (cell.right - CELL_TEXT_INSET) as i32,
                        bottom: cell.bottom,
                    },
                    align_right: columns.last().align_right,
                },
            )
        }
    }
}

/// The column separators of a row: for each column after the first whose
/// `subitems` rectangle has height and starts right of zero, a one-pixel
/// line along its left edge.
pub open spec fn separator_lines(subitems: Seq<Rect>, n: int) -> Seq<Rect>
    decreases n,
{
    if n <= 1 {
        seq![]
    } else {
        let rest = separator_lines(subitems, n - 1);
        let cell = subitems[n - 1];
        if cell.bottom > cell.top && cell.left > 0 {
            rest.push(Rect { left: cell.left, top: cell.top, right: (cell.left + 1) as i32, bottom: cell.bottom })
        } else {
            rest
        }
    }
}

/// The row's `(background, text)` before its style overrides: the playing
/// row, then selection, then the zebra shade on odd rows when it is on.
pub open spec fn row_base_colors(state: ListViewState, item: int, selected: bool, focused: bool) -> (Color, Color) {
    let playing = state.playing == Some(item as usize);
    let striped = state.zebra && item % 2 == 1;
    let t = state.theme;
    if playing {
        (t.playing, t.on_playing)
    } else if selected {
        (if focused { t.selection } else { t.selection_unfocused }, t.text)
    } else {
        (if striped { t.alternate } else { t.background }, t.text)
    }
}

/// The label, separator and sort arrow of one header item.
pub struct HeaderPaint {
    /// The background over the item's (or the whole header's) rectangle.
    pub fill: Option<Fill>,
    /// The column title's rectangle and alignment, if the column exists.
    pub label: Option<CellPaint>,
    /// The label colour.
    pub label_color: Color,
    /// The one-pixel separator before every item but the first.
    pub separator: Option<Fill>,
    /// The sort arrow's rectangle and direction, on the sorted column.
    pub arrow: Option<(Rect, bool)>,
    /// The answer to the paint stage, `None` to let the header paint.
    pub result: Option<isize>,
}

/// The item a header paint stage is for, negative items counting as the
/// first.
pub open spec fn header_item(item: i32) -> int {
    if item < 0 {
        0
    } else {
        item as int
    }
}

impl ListViewState {
    /// Answers one paint stage of a row. `row` is the row's rectangle,
    /// `cells` the text rectangle of each column and `subitems` each
    /// column's full rectangle; `style` is the row's style override, when
    /// the app gave one. The row painter, when the app installed one and it
    /// painted the row itself, answers before this is asked.
    pub fn row_draw(
        &self,
        stage: u32,
        item: i32,
        row: Rect,
        selected: bool,
        focused: bool,
        style: Option<RowStyle>,
        cells: &Vec<Rect>,
        subitems: &Vec<Rect>,
    ) -> (draw: RowDraw)
        requires
            cells@.len() == self.columns@.len(),
            subitems@.len() == self.columns@.len(),
            forall|k: int|
                0 <= k < cells@.len() ==> (#[trigger] cells@[k]).left <= i32::MAX - CELL_TEXT_INSET
                    && cells@[k].right >= i32::MIN + CELL_TEXT_INSET,
            forall|k: int| 0 <= k < subitems@.len() ==> (#[trigger] subitems@[k]).left < i32::MAX,
            (style matches Some(st) && st.accent_bar is Some) ==> row.left <= i32::MAX - ACCENT_BAR_WIDTH,
        ensures
            stage == CDDS_PREPAINT ==> draw is NotifyItemDraw,
            stage != CDDS_PREPAINT && (stage != CDDS_ITEMPREPAINT || item < 0) ==> draw is Default,
            stage == CDDS_ITEMPREPAINT && item >= 0 && (row.right <= row.left || row.bottom <= row.top)
                ==> draw is Skip,
            stage == CDDS_ITEMPREPAINT && item >= 0 && !(row.right <= row.left || row.bottom <= row.top)
                ==> (draw matches RowDraw::Paint(p) && {
                let (base_back, base_text) = row_base_colors(*self, item as int, selected, focused);
                &&& p.background == (Fill {
                    rect: row,
                    color: match style {
                        Some(st) => match st.background {
                            Some(c) => c,
                            None => base_back,
                        },
                        None => base_back,
                    },
                })
                &&& p.text == match style {
                    Some(st) => match st.text {
                        Some(c) => c,
                        None => base_text,
                    },
                    None => base_text,
                }
                &&& p.bold == (style matches Some(st) && st.bold)
                &&& p.cells@ == text_cells(self.columns@, cells@)
                &&& p.accent == match style {
                    Some(st) => match st.accent_bar {
                        Some(c) => Some(
                            Fill {
                                rect: Rect { left: row.left, top: row.top, right: (row.left + ACCENT_BAR_WIDTH) as i32, bottom: row.bottom },
                                color: c,
                            },
                        ),
                        None => None,
                    },
                    None => None,
                }
                &&& p.separators@ == separator_lines(subitems@, self.columns@.len() as int)
            }),
    {
        if stage == CDDS_PREPAINT {
            return RowDraw::NotifyItemDraw;
        }
        if stage != CDDS_ITEMPREPAINT || item < 0 {
            return RowDraw::Default;
        }
        if row.is_empty() {
            return RowDraw::Skip;
        }
        let index = item as usize;
        let playing = match self.playing {
            Some(p) => p == index,
            None => false,
        };
        let striped = self.zebra && item % 2 == 1;
        let (mut background, mut text) = self.theme.row_colors(selected, focused, playing, striped);
        let mut bold = false;
        let mut accent: Option<Fill> = None;
        match style {
            Some(st) => {
                match st.background {
                    Some(c) => {
                        background = c;
                    },
                    None => {},
                }
                match st.text {
                    Some(c) => {
                        text = c;
                    },
                    None => {},
                }
                bold = st.bold;
                match st.accent_bar {
                    Some(c) => {
                        accent = Some(
                            Fill {
                                rect: Rect::new(row.left, row.top, row.left + ACCENT_BAR_WIDTH, row.bottom),
                                color: c,
                            },
                        );
                    },
                    None => {},
                }
            },
            None => {},
        }

        let mut painted: Vec<CellPaint> = Vec::new();
        let mut i: usize = 0;
        while i < self.columns.len()
            invariant
                i <= self.columns@.len(),
                cells@.len() == self.columns@.len(),
                forall|k: int|
                    0 <= k < cells@.len() ==> (#[trigger] cells@[k]).left <= i32::MAX - CELL_TEXT_INSET
                        && cells@[k].right >= i32::MIN + CELL_TEXT_INSET,
                painted@ == text_cells(self.columns@.take(i as int), cells@),
            decreases self.columns@.len() - i,
        {
            proof {
                let after = self.columns@.take(i as int + 1);
                assert(after.drop_last() =~= self.columns@.take(i as int));
                assert(after.last() == self.columns@[i as int]);
            }
            let cell = cells[i];
            if !cell.is_empty() {
                painted.push(
                    CellPaint {
                        column: i,
                        rect: Rect::new(
                            cell.left + CELL_TEXT_INSET,
                            cell.top,
                            cell.right - CELL_TEXT_INSET,
                            cell.bottom,
                        ),
                        align_right: self.columns[i].align_right,
                    },
                );
            }
            i = i + 1;
        }
        assert(self.columns@.take(self.columns@.len() as int) =~= self.columns@);

        let mut separators: Vec<Rect> = Vec::new();
        let mut c: usize = 1;
        if self.columns.len() == 0 {
            c = 0;
        }
        while c < self.columns.len()
            invariant
                1 <= c <= self.columns@.len() || (c == 0 && self.columns@.len() == 0),
                subitems@.len() == self.columns@.len(),
                forall|k: int| 0 <= k < subitems@.len() ==> (#[trigger] subitems@[k]).left < i32::MAX,
                separators@ == separator_lines(subitems@, c as int),
            decreases self.columns@.len() - c,
        {
            let cell = subitems[c];
            if cell.bottom > cell.top && cell.left > 0 {
                separators.push(Rect::new(cell.left, cell.top, cell.left + 1, cell.bottom));
            }
            c = c + 1;
        }
        RowDraw::Paint(RowPaint { background: Fill { rect: row, color: background }, text, bold, cells: painted, accent, separators })
    }

    /// Answers one paint stage of the header: the background for the whole
    /// header (then asking for one notification per item), or one item's
    /// background, title, separator and sort arrow.
    pub fn header_draw(&self, stage: u32, item: i32, rect: Rect) -> (paint: HeaderPaint)
        requires
            stage == CDDS_ITEMPREPAINT && header_item(item) < self.columns@.len() ==> rect.left
                <= i32::MAX - HEADER_TEXT_INSET && rect.right >= i32::MIN + HEADER_TEXT_INSET,
            stage == CDDS_ITEMPREPAINT && header_item(item) > 0 ==> rect.left < i32::MAX,
            stage == CDDS_ITEMPREPAINT && (self.sort matches Some(s) && s.column == header_item(item)) ==> {
                &&& rect.right >= i32::MIN + 16
                &&& i32::MIN <= rect.top + rect.bottom <= i32::MAX
                &&& i32::MIN + SORT_ARROW_HALF <= trunc_div(rect.top + rect.bottom, 2)
                    <= i32::MAX - SORT_ARROW_HALF
            },
        ensures
            paint.label_color == self.theme.header_text,
            stage == CDDS_PREPAINT ==> {
                &&& paint.fill == Some(Fill { rect, color: self.theme.header_background })
                &&& paint.label is None && paint.separator is None && paint.arrow is None
                &&& paint.result == Some(CDRF_NOTIFYITEMDRAW)
            },
            stage != CDDS_PREPAINT && stage != CDDS_ITEMPREPAINT ==> {
                &&& paint.fill is None && paint.label is None && paint.separator is None
                &&& paint.arrow is None && paint.result is None
            },
            stage == CDDS_ITEMPREPAINT ==> {
                let k = header_item(item);
                &&& paint.fill == Some(Fill { rect, color: self.theme.header_background })
                &&& paint.result == Some(CDRF_SKIPDEFAULT)
                &&& k < self.columns@.len() ==> paint.label == Some(
                    CellPaint {
                        column: k as usize,
                        rect: Rect {
                            left: (rect.left + HEADER_TEXT_INSET) as i32,
                            top: rect.top,
                            right: (rect.right - HEADER_TEXT_INSET) as i32,
                            bottom: rect.bottom,
                        },
                        align_right: self.columns@[k].align_right,
                    },
                )
                &&& k >= self.columns@.len() ==> paint.label is None
                &&& k > 0 ==> paint.separator == Some(
                    Fill {
                        rect: Rect { left: rect.left, top: rect.top, right: (rect.left + 1) as i32, bottom: rect.bottom },
                        color: self.theme.border,
                    },
                )
                &&& k == 0 ==> paint.separator is None
                &&& (self.sort matches Some(s) && s.column == k) ==> {
                    let middle = trunc_div(rect.top + rect.bottom, 2);
                    paint.arrow == Some(
                        (
                            Rect {
                                left: (rect.right - 16) as i32,
                                top: (middle - SORT_ARROW_HALF) as i32,
                                right: (rect.right - 8) as i32,
                                bottom: (middle + SORT_ARROW_HALF) as i32,
                            },
                            self.sort->0.ascending,
                        ),
                    )
                }
                &&& !(self.sort matches Some(s) && s.column == k) ==> paint.arrow is None
            },
    {
        let theme = self.theme;
        if stage == CDDS_PREPAINT {
            return HeaderPaint {
                fill: Some(Fill { rect, color: theme.header_background }),
                label: None,
                label_color: theme.header_text,
                separator: None,
                arrow: None,
                result: Some(CDRF_NOTIFYITEMDRAW),
            };
        }
        if stage != CDDS_ITEMPREPAINT {
            return HeaderPaint {
                fill: None,
                label: None,
                label_color: theme.header_text,
                separator: None,
                arrow: None,
                result: None,
            };
        }
        let k: usize = if item < 0 { 0 } else { item as usize };
        let label = if k < self.columns.len() {
            Some(
                CellPaint {
                    column: k,
                    rect: Rect::new(
                        rect.left + HEADER_TEXT_INSET,
                        rect.top,
                        rect.right - HEADER_TEXT_INSET,
                        rect.bottom,
                    ),
                    align_right: self.columns[k].align_right,
                },
            )
        } else {
            None
        };
        let separator = if k > 0 {
            Some(Fill { rect: Rect::new(rect.left, rect.top, rect.left + 1, rect.bottom), color: theme.border })
        } else {
            None
        };
        let arrow = match self.sort {
            Some(SortIndicator { column, ascending }) => {
                if column == k {
                    let middle = (rect.top + rect.bottom) / 2;
                    Some(
                        (
                            Rect::new(
                                rect.right - 16,
                                middle - SORT_ARROW_HALF,
                                rect.right - 8,
                                middle + SORT_ARROW_HALF,
                            ),
                            ascending,
                        ),
                    )
                } else {
                    None
                }
            },
            None => None,
        };
        HeaderPaint {
            fill: Some(Fill { rect, color: theme.header_background }),
            label,
            label_color: theme.header_text,
            separator,
            arrow,
            result: Some(CDRF_SKIPDEFAULT),
        }
    }
}

} // verus!
