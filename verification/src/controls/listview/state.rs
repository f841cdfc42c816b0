//! The list view's own state: its columns, the rows it shows, the sort arrow,
//! the playing row and the selection it last reported, with the arithmetic
//! that shares the client width among `Fill` columns.

use vstd::prelude::*;

use crate::controls::custom::scroll::trunc_div;
use crate::controls::listview::model::{Column, ColumnWidth, SortDirection};
use crate::controls::listview::theme::ListViewTheme;
use crate::controls::style::{WS_BORDER, WS_CHILD, WS_TABSTOP, WS_VISIBLE, WS_VSCROLL};
use crate::theme::Theme;
use crate::units::{Dip, Px};

verus! {

/// `LVS_REPORT`.
pub const LVS_REPORT: u32 = 0x0000_0001;
/// `LVS_SHOWSELALWAYS`.
pub const LVS_SHOWSELALWAYS: u32 = 0x0000_0008;
/// `LVS_OWNERDATA`: the control never stores rows itself.
pub const LVS_OWNERDATA: u32 = 0x0000_1000;
/// `LVS_EX_FULLROWSELECT`.
pub const LVS_EX_FULLROWSELECT: u32 = 0x0000_0020;
/// `LVS_EX_DOUBLEBUFFER`.
pub const LVS_EX_DOUBLEBUFFER: u32 = 0x0001_0000;

/// The placeholder width a `Fill` column is inserted with, in design units,
/// until the first restretch shares out the client width.
pub const FILL_PLACEHOLDER_DIP: i32 = 64;

/// The narrowest a `Fill` column is stretched to, in design units; under a
/// narrow window the control scrolls horizontally instead.
pub const FILL_MINIMUM_DIP: i32 = 48;

/// `LVS_SINGLESEL`: at most one row can be selected.
pub const LVS_SINGLESEL: u32 = 0x0000_0004;

/// The style bits every list view is created with.
pub open spec fn base_list_style() -> u32 {
    WS_CHILD | WS_VISIBLE | WS_BORDER | WS_TABSTOP | WS_VSCROLL | LVS_REPORT | LVS_SHOWSELALWAYS
        | LVS_OWNERDATA
}

/// The window style of a list view, single-select or not.
pub fn list_style(single_select: bool) -> (style: u32)
    ensures
        single_select ==> style == (base_list_style() | LVS_SINGLESEL),
        !single_select ==> style == base_list_style(),
{
    let base = WS_CHILD | WS_VISIBLE | WS_BORDER | WS_TABSTOP | WS_VSCROLL | LVS_REPORT
        | LVS_SHOWSELALWAYS | LVS_OWNERDATA;
    if single_select {
        base | LVS_SINGLESEL
    } else {
        base
    }
}

/// The sort arrow shown in the header.
#[derive(Clone, Copy, Debug, PartialEq, Eq, Structural)]
pub struct SortIndicator {
    /// The sorted column.
    pub column: usize,
    /// Whether the arrow points up.
    pub ascending: bool,
}

/// How many of `columns` are `Fill` columns.
pub open spec fn fill_count(columns: Seq<Column>) -> nat
    decreases columns.len(),
{
    if columns.len() == 0 {
        0
    } else {
        fill_count(columns.drop_last()) + if columns.last().width == ColumnWidth::Fill {
            1nat
        } else {
            0nat
        }
    }
}

/// The summed current `widths` of the columns of `columns` that are not
/// `Fill` columns (`widths` is indexed like `columns`).
pub open spec fn fixed_total(columns: Seq<Column>, widths: Seq<i32>) -> int
    decreases columns.len(),
{
    if columns.len() == 0 {
        0
    } else {
        fixed_total(columns.drop_last(), widths) + if columns.last().width == ColumnWidth::Fill {
            0
        } else {
            widths[columns.len() - 1] as int
        }
    }
}

/// The width each `Fill` column gets: the client width the fixed columns
/// leave, shared evenly (truncating), but never under the minimum.
pub open spec fn fill_share(client: int, fixed: int, fills: int, minimum: int) -> int {
    let share = trunc_div(client - fixed, fills);
    if share < minimum {
        minimum
    } else {
        share
    }
}

/// The `Fill` columns share the leftover width evenly and never take more
/// than it: with `fills` of them and a leftover `client - fixed` that leaves
/// each at least the minimum, each gets the largest width `w` with
/// `fills * w` within the leftover. Whatever the leftover, no `Fill` column
/// is narrower than the minimum.
pub proof fn lemma_fill_share_splits_leftover(client: int, fixed: int, fills: int, minimum: int)
    requires
        fills >= 1,
    ensures
        fill_share(client, fixed, fills, minimum) >= minimum,
        (client - fixed >= 0 && client - fixed >= fills * minimum) ==> {
            let w = fill_share(client, fixed, fills, minimum);
            &&& fills * w <= client - fixed
            &&& client - fixed < fills * (w + 1)
        },
{
    let left = client - fixed;
    if left >= 0 && left >= fills * minimum {
        let q = left / fills;
        vstd::arithmetic::div_mod::lemma_fundamental_div_mod(left, fills);
        vstd::arithmetic::div_mod::lemma_mod_bound(left, fills);
        assert(q >= minimum) by (nonlinear_arith)
            requires
                left == fills * q + left % fills,
                left % fills < fills,
                left >= fills * minimum,
                fills >= 1,
        ;
        assert(fills * q <= left && left < fills * (q + 1)) by (nonlinear_arith)
            requires
                left == fills * q + left % fills,
                0 <= left % fills < fills,
        ;
    }
}

/// The initial pixel width a column is inserted with at `dpi`.
pub open spec fn initial_width(width: ColumnWidth, dpi: u32) -> int {
    match width {
        ColumnWidth::Fixed(d) => d.spec_to_px(dpi),
        ColumnWidth::Fill => Dip(FILL_PLACEHOLDER_DIP).spec_to_px(dpi),
    }
}

/// Whether `s` is strictly ascending (so it also holds no duplicate).
pub open spec fn strictly_ascending(s: Seq<usize>) -> bool {
    forall|i: int, j: int| 0 <= i < j < s.len() ==> s[i] < s[j]
}

/// Whether `next` is the selection `rows` asks for on a list of `len` rows:
/// the rows of `rows` below `len`, ascending, each once.
pub open spec fn is_normalized_selection(next: Seq<usize>, rows: Seq<usize>, len: usize) -> bool {
    &&& strictly_ascending(next)
    &&& forall|r: usize| next.contains(r) <==> (rows.contains(r) && r < len)
}

/// Two strictly ascending sequences holding the same rows are equal: the
/// normalized form of a selection is unique.
pub proof fn lemma_ascending_unique(a: Seq<usize>, b: Seq<usize>)
    requires
        strictly_ascending(a),
        strictly_ascending(b),
        forall|x: usize| a.contains(x) <==> b.contains(x),
    ensures
        a == b,
    decreases a.len(),
{
    if a.len() == 0 {
        if b.len() > 0 {
            assert(b.contains(b[0]));
        }
        assert(a =~= b);
    } else {
        if b.len() == 0 {
            assert(a.contains(a[0]));
        }
        assert(a.contains(a[0]));
        assert(b.contains(b[0]));
        let ka = choose|k: int| 0 <= k < b.len() && b[k] == a[0];
        let kb = choose|k: int| 0 <= k < a.len() && a[k] == b[0];
        if ka > 0 {
            assert(b[0] < b[ka]);
            assert(a[0] <= a[kb]);
        }
        assert(a[0] == b[0]);
        let ta = a.drop_first();
        let tb = b.drop_first();
        assert forall|x: usize| ta.contains(x) implies tb.contains(x) by {
            let k = choose|k: int| 0 <= k < ta.len() && ta[k] == x;
            assert(a[k + 1] == x);
            assert(a.contains(x));
            let m = choose|m: int| 0 <= m < b.len() && b[m] == x;
            assert(a[0] < a[k + 1]);
            assert(m != 0);
            assert(tb[m - 1] == x);
        }
        assert forall|x: usize| tb.contains(x) implies ta.contains(x) by {
            let k = choose|k: int| 0 <= k < tb.len() && tb[k] == x;
            assert(b[k + 1] == x);
            assert(b.contains(x));
            let m = choose|m: int| 0 <= m < a.len() && a[m] == x;
            assert(b[0] < b[k + 1]);
            assert(m != 0);
            assert(ta[m - 1] == x);
        }
        lemma_ascending_unique(ta, tb);
        assert(a =~= seq![a[0]] + ta);
        assert(b =~= seq![b[0]] + tb);
    }
}

/// Normalizing a normalized selection again changes nothing, so handing the
/// reported rows straight back to `set_selection` finds them already shown
/// and reports nothing: a handler cannot loop.
pub proof fn lemma_normalized_is_fixed_point(next: Seq<usize>, rows: Seq<usize>, len: usize, again: Seq<usize>)
    requires
        is_normalized_selection(next, rows, len),
        is_normalized_selection(again, next, len),
    ensures
        again == next,
{
    assert forall|x: usize| again.contains(x) <==> next.contains(x) by {}
    lemma_ascending_unique(again, next);
}

/// Inserts `row` into the ascending `next` unless it is already there.
fn insert_row(next: &mut Vec<usize>, row: usize)
    requires
        strictly_ascending(old(next)@),
    ensures
        strictly_ascending(final(next)@),
        forall|x: usize| final(next)@.contains(x) <==> (old(next)@.contains(x) || x == row),
{
    let mut i: usize = 0;
    while i < next.len()
        invariant
            i <= next@.len(),
            strictly_ascending(next@),
            forall|k: int| 0 <= k < i ==> next@[k] < row,
        ensures
            i <= next@.len(),
            forall|k: int| 0 <= k < i ==> next@[k] < row,
            i < next@.len() ==> next@[i as int] >= row,
        decreases next@.len() - i,
    {
        if next[i] >= row {
            break;
        }
        i = i + 1;
    }
    if i < next.len() && next[i] == row {
        assert(next@.contains(row));
        return;
    }
    let ghost before = next@;
    next.insert(i, row);
    proof {
        before.insert_ensures(i as int, row);
        let after = next@;
        assert(after =~= before.insert(i as int, row));
        assert forall|a: int, b: int| 0 <= a < b < after.len() implies after[a] < after[b] by {
            if b < i {
            } else if b == i {
                assert(after[a] == before[a]);
            } else if a < i {
                assert(after[b] == before[b - 1]);
                assert(before[a] < row);
                if i < before.len() {
                    assert(before[i as int] > row);
                    assert(before[i as int] <= before[b - 1]);
                }
            } else if a == i {
                assert(after[b] == before[b - 1]);
                assert(before[i as int] > row);
                assert(before[i as int] <= before[b - 1]);
            } else {
                assert(after[a] == before[a - 1]);
                assert(after[b] == before[b - 1]);
            }
        }
        assert forall|x: usize| after.contains(x) <==> (before.contains(x) || x == row) by {
            if before.contains(x) {
                let k = choose|k: int| 0 <= k < before.len() && before[k] == x;
                if k < i {
                    assert(after[k] == x);
                } else {
                    assert(after[k + 1] == x);
                }
            }
            if x == row {
                assert(after[i as int] == row);
            }
            if after.contains(x) {
                let k = choose|k: int| 0 <= k < after.len() && after[k] == x;
                if k < i {
                    assert(before[k] == x);
                } else if k > i {
                    assert(before[k - 1] == x);
                }
            }
        }
    }
}

/// The rows of `rows` below `len`, ascending, each once: what a requested
/// selection becomes once out-of-range and duplicate rows are dropped.
pub fn normalize_selection(rows: &Vec<usize>, len: usize) -> (next: Vec<usize>)
    ensures
        is_normalized_selection(next@, rows@, len),
{
    let mut next: Vec<usize> = Vec::new();
    let mut i: usize = 0;
    while i < rows.len()
        invariant
            i <= rows@.len(),
            strictly_ascending(next@),
            forall|r: usize| next@.contains(r) <==> (rows@.take(i as int).contains(r) && r < len),
        decreases rows@.len() - i,
    {
        let row = rows[i];
        if row < len {
            insert_row(&mut next, row);
        }
        proof {
            let before = rows@.take(i as int);
            let after = rows@.take(i as int + 1);
            assert(after =~= before.push(row));
            assert forall|r: usize| after.contains(r) <==> (before.contains(r) || r == row) by {
                if after.contains(r) {
                    let k = choose|k: int| 0 <= k < after.len() && after[k] == r;
                    if k < i {
                        assert(before[k] == r);
                    }
                }
                if before.contains(r) {
                    let k = choose|k: int| 0 <= k < before.len() && before[k] == r;
                    assert(after[k] == r);
                }
                if r == row {
                    assert(after[i as int] == r);
                }
            }
        }
        i = i + 1;
    }
    assert(rows@.take(rows@.len() as int) =~= rows@);
    next
}

/// Whether `a` and `b` hold the same rows in the same order.
fn same_rows(a: &Vec<usize>, b: &Vec<usize>) -> (same: bool)
    ensures
        same == (a@ == b@),
{
    if a.len() != b.len() {
        return false;
    }
    let mut i: usize = 0;
    while i < a.len()
        invariant
            i <= a@.len(),
            a@.len() == b@.len(),
            forall|k: int| 0 <= k < i ==> a@[k] == b@[k],
        decreases a@.len() - i,
    {
        if a[i] != b[i] {
            return false;
        }
        i = i + 1;
    }
    assert(a@ =~= b@);
    true
}

/// How a column's width change is carried out.
#[derive(Clone, Copy, Debug, PartialEq, Eq, Structural)]
pub enum ColumnResize {
    /// There is no such column; nothing changes.
    NoSuchColumn,
    /// Set the column to this many pixels.
    Pixels(i32),
    /// Share the leftover width among the `Fill` columns again.
    Restretch,
}

/// The state behind one list view.
pub struct ListViewState {
    /// The palette rows and header are painted with.
    pub theme: ListViewTheme,
    /// The columns, in display order.
    pub columns: Vec<Column>,
    /// The number of rows the model holds.
    pub row_count: usize,
    /// The now-playing row, highlighted while painting.
    pub playing: Option<usize>,
    /// The header's sort arrow.
    pub sort: Option<SortIndicator>,
    /// The list's effective DPI.
    pub dpi: u32,
    /// The app's requested row height, reconverted on a DPI change.
    pub row_height: Option<Dip>,
    /// The selection last reported to the app.
    pub last_selection: Vec<usize>,
    /// While set, selection notifications are swallowed: a programmatic
    /// change reports its own single event instead.
    pub selection_muted: bool,
    /// Whether odd rows get the alternate background.
    pub zebra: bool,
    /// Whether at most one row can be selected.
    pub single_select: bool,
}

impl ListViewState {
    /// A fresh list at `dpi` painted from `theme`: single-select, with no
    /// columns, no rows, no sort arrow, no playing row and nothing reported.
    pub fn new(theme: &Theme, dpi: u32) -> (s: ListViewState)
        ensures
            s.theme == ListViewTheme::from_theme_spec(*theme),
            s.columns@.len() == 0,
            s.row_count == 0,
            s.playing is None,
            s.sort is None,
            s.dpi == dpi,
            s.row_height is None,
            s.last_selection@.len() == 0,
            !s.selection_muted,
            !s.zebra,
            s.single_select,
    {
        ListViewState {
            theme: ListViewTheme::from_theme(theme),
            columns: Vec::new(),
            row_count: 0,
            playing: None,
            sort: None,
            dpi,
            row_height: None,
            last_selection: Vec::new(),
            selection_muted: false,
            zebra: false,
            single_select: true,
        }
    }

    /// The window style the control needs for the current selection mode.
    pub fn style(&self) -> (style: u32)
        ensures
            self.single_select ==> style == (base_list_style() | LVS_SINGLESEL),
            !self.single_select ==> style == base_list_style(),
    {
        list_style(self.single_select)
    }

    /// Enables or disables multi-select.
    pub fn multi_select(&mut self, multi: bool)
        ensures
            final(self).single_select == !multi,
            final(self).columns@ == old(self).columns@,
            final(self).dpi == old(self).dpi,
    {
        self.single_select = !multi;
    }

    /// Repaints from `theme`.
    pub fn apply_theme(&mut self, theme: &Theme)
        ensures
            final(self).theme == ListViewTheme::from_theme_spec(*theme),
            final(self).columns@ == old(self).columns@,
            final(self).zebra == old(self).zebra,
    {
        self.theme = ListViewTheme::from_theme(theme);
    }

    /// Turns the alternate-row background on or off.
    pub fn set_zebra(&mut self, on: bool)
        ensures
            final(self).zebra == on,
            final(self).theme == old(self).theme,
            final(self).columns@ == old(self).columns@,
    {
        self.zebra = on;
    }

    /// Appends `column` and returns the pixel width to insert it with: a
    /// fixed column's design width at the current DPI, or a placeholder for
    /// a `Fill` column until the next restretch.
    pub fn push_column(&mut self, column: Column) -> (width: i32)
        requires
        ensures
            final(self).columns@ == old(self).columns@.push(column),
            width == initial_width(column.width, old(self).dpi),
            final(self).dpi == old(self).dpi,
            final(self).row_count == old(self).row_count,
    {
        let width = match column.width {
            ColumnWidth::Fixed(design) => design.to_px(self.dpi).value(),
            ColumnWidth::Fill => Dip::new(FILL_PLACEHOLDER_DIP).to_px(self.dpi).value(),
        };
        self.columns.push(column);
        width
    }

    /// The number of columns.
    pub fn column_count(&self) -> (n: usize)
        ensures
            n == self.columns@.len(),
    {
        self.columns.len()
    }

    /// The width to give every `Fill` column when the client area is
    /// `client` pixels wide and the columns currently have `widths`; `None`
    /// when there is no `Fill` column. Fixed columns keep their current
    /// width, so a header drag the user just finished is honoured.
    pub fn fill_width(&self, client: i32, widths: &Vec<i32>) -> (each: Option<i32>)
        requires
            widths@.len() == self.columns@.len(),
            self.columns@.len() <= i32::MAX,
            forall|k: int|
                0 <= k <= self.columns@.len() ==> i32::MIN <= #[trigger] fixed_total(
                    self.columns@.take(k),
                    widths@,
                ) <= i32::MAX,
            i32::MIN <= client - fixed_total(self.columns@, widths@) <= i32::MAX,
        ensures
            fill_count(self.columns@) == 0 ==> each is None,
            fill_count(self.columns@) > 0 ==> each == Some(
                fill_share(
                    client as int,
                    fixed_total(self.columns@, widths@),
                    fill_count(self.columns@) as int,
                    Dip(FILL_MINIMUM_DIP).spec_to_px(self.dpi),
                ) as i32,
            ),
    {
        let mut fills: usize = 0;
        let mut fixed: i32 = 0;
        let mut i: usize = 0;
        while i < self.columns.len()
            invariant
                i <= self.columns@.len(),
                widths@.len() == self.columns@.len(),
                self.columns@.len() <= i32::MAX,
                forall|k: int|
                    0 <= k <= self.columns@.len() ==> i32::MIN <= #[trigger] fixed_total(
                        self.columns@.take(k),
                        widths@,
                    ) <= i32::MAX,
                fills == fill_count(self.columns@.take(i as int)),
                fills <= i,
                fixed == fixed_total(self.columns@.take(i as int), widths@),
            decreases self.columns@.len() - i,
        {
            let ghost before = self.columns@.take(i as int);
            let ghost after = self.columns@.take(i as int + 1);
            assert(after.drop_last() =~= before);
            assert(after.last() == self.columns@[i as int]);
            assert(i32::MIN <= fixed_total(after, widths@) <= i32::MAX);
            if self.columns[i].width == ColumnWidth::Fill {
                fills = fills + 1;
            } else {
                fixed = fixed + widths[i];
            }
            i = i + 1;
        }
        assert(self.columns@.take(self.columns@.len() as int) =~= self.columns@);
        if fills == 0 {
            return None;
        }
        let minimum = Dip::new(FILL_MINIMUM_DIP).to_px(self.dpi).value();
        let share = (client - fixed) / (fills as i32);
        Some(if share < minimum { minimum } else { share })
    }

    /// Takes a new model of `len` rows. The control keeps its selected rows,
    /// `current`; they become the reported selection silently.
    pub fn set_model(&mut self, len: usize, current: Vec<usize>)
        ensures
            final(self).row_count == len,
            final(self).last_selection@ == current@,
            final(self).columns@ == old(self).columns@,
            final(self).selection_muted == old(self).selection_muted,
    {
        self.row_count = len;
        self.last_selection = current;
    }

    /// The rows `[first, last]` to repaint after rows `start..end` changed in
    /// place, clamped to the model; `None` when nothing is left to repaint.
    pub fn rows_changed(&self, start: usize, end: usize) -> (redraw: Option<(usize, usize)>)
        ensures
            ({
                let first = if start < self.row_count { start } else { self.row_count };
                let last = if end < self.row_count { end } else { self.row_count };
                if first < last {
                    redraw == Some((first, (last - 1) as usize))
                } else {
                    redraw is None
                }
            }),
    {
        let len = self.row_count;
        let first = if start < len { start } else { len };
        let last = if end < len { end } else { len };
        if first < last {
            Some((first, last - 1))
        } else {
            None
        }
    }

    /// Takes the model's new row count `len` after rows were inserted or
    /// removed from `changed_from` on, and returns the rows to repaint:
    /// everything from `changed_from` to the end, which shifted.
    pub fn recount(&mut self, len: usize, changed_from: usize) -> (redraw: Option<(usize, usize)>)
        ensures
            final(self).row_count == len,
            changed_from < len ==> redraw == Some((changed_from, (len - 1) as usize)),
            changed_from >= len ==> redraw is None,
            final(self).last_selection@ == old(self).last_selection@,
            final(self).columns@ == old(self).columns@,
    {
        self.row_count = len;
        if changed_from < len {
            Some((changed_from, len - 1))
        } else {
            None
        }
    }

    /// Makes `rows` the selection while the control currently shows
    /// `current`. Out-of-range and duplicate rows are dropped and the rest
    /// sorted; the result becomes the reported selection. Returns the rows to
    /// apply and report when they differ from `current`, or `None` when the
    /// selection already matches (then nothing is applied or reported).
    pub fn set_selection(&mut self, rows: &Vec<usize>, current: &Vec<usize>) -> (apply: Option<Vec<usize>>)
        ensures
            is_normalized_selection(final(self).last_selection@, rows@, old(self).row_count),
            final(self).last_selection@ == current@ ==> apply is None,
            final(self).last_selection@ != current@ ==> (apply matches Some(next) && next@ == final(self).last_selection@),
            final(self).row_count == old(self).row_count,
            final(self).selection_muted == old(self).selection_muted,
            final(self).columns@ == old(self).columns@,
    {
        let next = normalize_selection(rows, self.row_count);
        if same_rows(&next, current) {
            self.last_selection = next;
            return None;
        }
        let report = next.clone();
        self.last_selection = next;
        Some(report)
    }

    /// Starts making `rows` the selection while the control shows `current`
    /// (see [`ListViewState::set_selection`]). When the selection changes,
    /// returns the rows to apply to the control, focusing the first, with
    /// selection reports muted until
    /// [`finish_selection`](crate::controls::listview::events::finish_selection),
    /// so the per-item notifications the control sends meanwhile report
    /// nothing. `None` when the selection already matches: nothing is muted,
    /// applied or reported.
    pub fn begin_selection(&mut self, rows: &Vec<usize>, current: &Vec<usize>) -> (apply: Option<Vec<usize>>)
        ensures
            is_normalized_selection(final(self).last_selection@, rows@, old(self).row_count),
            final(self).last_selection@ == current@ ==> apply is None
                && final(self).selection_muted == old(self).selection_muted,
            final(self).last_selection@ != current@ ==> (apply matches Some(next)
                && next@ == final(self).last_selection@)
                && final(self).selection_muted,
            final(self).row_count == old(self).row_count,
            final(self).columns@ == old(self).columns@,
    {
        let apply = self.set_selection(rows, current);
        if apply.is_some() {
            self.mute_selection(true);
        }
        apply
    }

    /// Mutes (or unmutes) selection reports while a programmatic change is
    /// being applied to the control.
    pub fn mute_selection(&mut self, muted: bool)
        ensures
            final(self).selection_muted == muted,
            final(self).last_selection@ == old(self).last_selection@,
            final(self).row_count == old(self).row_count,
            final(self).columns@ == old(self).columns@,
    {
        self.selection_muted = muted;
    }

    /// What to report after the control said its selection changed and now
    /// shows `selection`: nothing while muted or when it matches the last
    /// report, else `selection`, which becomes the last report. Several
    /// notifications raised by one gesture so report at most once.
    pub fn selection_report(&mut self, selection: Vec<usize>) -> (report: Option<Vec<usize>>)
        ensures
            (old(self).selection_muted || selection@ == old(self).last_selection@) ==> {
                &&& report is None
                &&& final(self).last_selection@ == old(self).last_selection@
            },
            !(old(self).selection_muted || selection@ == old(self).last_selection@) ==> {
                &&& (report matches Some(r) && r@ == selection@)
                &&& final(self).last_selection@ == selection@
            },
            final(self).selection_muted == old(self).selection_muted,
            final(self).row_count == old(self).row_count,
            final(self).columns@ == old(self).columns@,
    {
        if self.selection_muted || same_rows(&selection, &self.last_selection) {
            return None;
        }
        let report = selection.clone();
        self.last_selection = selection;
        Some(report)
    }

    /// Sets one column's width: a fixed width in pixels at the current DPI,
    /// or a `Fill` column rejoining the share of the leftover width.
    pub fn set_column_width(&mut self, column: usize, width: ColumnWidth) -> (change: ColumnResize)
        requires
        ensures
            column >= old(self).columns@.len() ==> (change == ColumnResize::NoSuchColumn
                && final(self).columns@ == old(self).columns@),
            column < old(self).columns@.len() ==> {
                &&& final(self).columns@.len() == old(self).columns@.len()
                &&& final(self).columns@[column as int].width == width
                &&& final(self).columns@[column as int].title@ == old(self).columns@[column as int].title@
                &&& final(self).columns@[column as int].align_right == old(self).columns@[column as int].align_right
                &&& forall|k: int| 0 <= k < old(self).columns@.len() && k != column ==> final(self).columns@[k] == old(self).columns@[k]
                &&& change == match width {
                    ColumnWidth::Fixed(d) => ColumnResize::Pixels(d.spec_to_px(old(self).dpi) as i32),
                    ColumnWidth::Fill => ColumnResize::Restretch,
                }
            },
            final(self).dpi == old(self).dpi,
            final(self).row_count == old(self).row_count,
    {
        if column >= self.columns.len() {
            return ColumnResize::NoSuchColumn;
        }
        let title = self.columns[column].title.clone();
        let align_right = self.columns[column].align_right;
        self.columns.set(column, Column { title, width, align_right });
        match width {
            ColumnWidth::Fixed(design) => ColumnResize::Pixels(design.to_px(self.dpi).value()),
            ColumnWidth::Fill => ColumnResize::Restretch,
        }
    }

    /// Marks `row` as the now-playing row.
    pub fn set_playing(&mut self, row: Option<usize>)
        ensures
            final(self).playing == row,
            final(self).sort == old(self).sort,
            final(self).columns@ == old(self).columns@,
    {
        self.playing = row;
    }

    /// Shows the sort arrow on `column`.
    pub fn set_sort_indicator(&mut self, column: usize, direction: SortDirection)
        ensures
            final(self).sort == Some(SortIndicator { column, ascending: direction == SortDirection::Ascending }),
            final(self).playing == old(self).playing,
            final(self).columns@ == old(self).columns@,
    {
        let ascending = match direction {
            SortDirection::Ascending => true,
            SortDirection::Descending => false,
        };
        self.sort = Some(SortIndicator { column, ascending });
    }

    /// Removes the sort arrow if it is on `column`; an arrow on another
    /// column stays.
    pub fn clear_sort_indicator(&mut self, column: usize)
        ensures
            (old(self).sort matches Some(s) && s.column == column) ==> final(self).sort is None,
            !(old(self).sort matches Some(s) && s.column == column) ==> final(self).sort == old(self).sort,
            final(self).playing == old(self).playing,
            final(self).columns@ == old(self).columns@,
    {
        match self.sort {
            Some(indicator) => {
                if indicator.column == column {
                    self.sort = None;
                }
            },
            None => {},
        }
    }

    /// Fixes the row height at `height` and returns it in pixels at the
    /// current DPI.
    pub fn set_row_height(&mut self, height: Dip) -> (px: i32)
        requires
        ensures
            final(self).row_height == Some(height),
            px == height.spec_to_px(old(self).dpi),
            final(self).dpi == old(self).dpi,
            final(self).columns@ == old(self).columns@,
    {
        self.row_height = Some(height);
        height.to_px(self.dpi).value()
    }

    /// Moves the list to `dpi`; returns the row height to reapply in pixels,
    /// when one was set.
    pub fn set_dpi(&mut self, dpi: u32) -> (px: Option<i32>)
        requires
        ensures
            final(self).dpi == dpi,
            final(self).row_height == old(self).row_height,
            match old(self).row_height {
                Some(h) => px == Some(h.spec_to_px(dpi) as i32),
                None => px is None,
            },
            final(self).columns@ == old(self).columns@,
    {
        self.dpi = dpi;
        match self.row_height {
            Some(height) => Some(height.to_px(dpi).value()),
            None => None,
        }
    }

    /// The `(row, column)` a cell request is for, when both exist.
    pub fn cell(&self, item: i32, column: i32) -> (cell: Option<(usize, usize)>)
        ensures
            (0 <= item < self.row_count && 0 <= column < self.columns@.len()) ==> cell == Some(
                (item as usize, column as usize),
            ),
            !(0 <= item < self.row_count && 0 <= column < self.columns@.len()) ==> cell is None,
    {
        if item < 0 || column < 0 {
            return None;
        }
        let row = item as usize;
        let col = column as usize;
        if row < self.row_count && col < self.columns.len() {
            Some((row, col))
        } else {
            None
        }
    }
}

} // verus!
