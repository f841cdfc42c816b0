//! Pure tile-grid arithmetic: virtualization ranges, hit testing and keyboard
//! navigation.

use std::ops::Range;

use vstd::prelude::*;

use crate::geometry::Rect;

verus! {

/// A keyboard navigation direction.
#[derive(Clone, Copy, Debug, PartialEq, Eq, Structural)]
pub enum Direction {
    Left,
    Right,
    Up,
    Down,
}

/// `spacing` with negative values treated as zero.
pub open spec fn gap(spacing: int) -> int {
    if spacing > 0 { spacing } else { 0 }
}

/// The distance from one tile's origin to the next one's.
pub open spec fn stride(tile: int, spacing: int) -> int {
    tile + gap(spacing)
}

/// `a / b` rounded up, for `a >= 0` and `b > 0`.
pub open spec fn ceil_div(a: int, b: int) -> int {
    (a + b - 1) / b
}

/// How many tiles fit across `viewport_width`, at least one.
pub open spec fn columns_spec(viewport_width: int, tile: int, spacing: int) -> int {
    if tile <= 0 {
        1
    } else {
        let n = (viewport_width + gap(spacing)) / stride(tile, spacing);
        if n >= 1 { n } else { 1 }
    }
}

/// The number of rows `len` tiles need at `columns` per row (at least one column).
pub open spec fn rows_spec(len: int, columns: int) -> int {
    let c = if columns >= 1 { columns } else { 1 };
    ceil_div(len, c)
}

/// The content height of `len` tiles at `columns` per row.
pub open spec fn content_height_spec(len: int, columns: int, tile: int, spacing: int) -> int {
    let rows = rows_spec(len, columns);
    if rows == 0 {
        0
    } else {
        rows * stride(tile, spacing) - gap(spacing)
    }
}

/// The first and one-past-last rows intersecting `[offset, offset + height)`,
/// before clamping to the model.
pub open spec fn first_row_spec(offset: int, tile: int, spacing: int) -> int {
    let top = if offset > 0 { offset } else { 0 };
    top / stride(tile, spacing)
}

pub open spec fn last_row_spec(offset: int, height: int, tile: int, spacing: int) -> int {
    let top = if offset > 0 { offset } else { 0 };
    ceil_div(top + height, stride(tile, spacing))
}

pub open spec fn min_int(a: int, b: int) -> int {
    if a <= b { a } else { b }
}

/// Whether the row range for these inputs is empty by definition.
pub open spec fn no_rows(height: int, tile: int, row_count: int) -> bool {
    tile <= 0 || row_count == 0 || height <= 0
}

/// The tile under `(x, y)`, if any.
pub open spec fn index_at_spec(x: int, y: int, tile: int, spacing: int, columns: int, len: int) -> Option<int> {
    if tile <= 0 || x < 0 || y < 0 {
        None
    } else {
        let s = stride(tile, spacing);
        let col = x / s;
        let row = y / s;
        let c = if columns >= 1 { columns } else { 1 };
        if x - col * s >= tile || y - row * s >= tile {
            None
        } else if col >= c {
            None
        } else if row * c + col < len {
            Some(row * c + col)
        } else {
            None
        }
    }
}

/// The rectangle tile `index` occupies at `columns` per row.
pub open spec fn tile_rect_spec(index: int, columns: int, tile: int, spacing: int) -> (int, int, int, int) {
    let s = stride(tile, spacing);
    let x = (index % columns) * s;
    let y = (index / columns) * s;
    (x, y, x + tile, y + tile)
}

/// The tile in `target_row`, same column as `current`, clamped onto the model.
pub open spec fn wrap_vertical_spec(len: int, columns: int, current: int, target_row: int) -> int {
    min_int(target_row * columns + current % columns, len - 1)
}

/// One navigation step, wrapping at every edge.
pub open spec fn navigate_spec(len: int, columns: int, current: int, direction: Direction) -> int {
    if len == 0 {
        0
    } else {
        let c = if columns >= 1 { columns } else { 1 };
        let cur = min_int(current, len - 1);
        let last_row = rows_spec(len, c) - 1;
        match direction {
            Direction::Left => if cur == 0 { len - 1 } else { cur - 1 },
            Direction::Right => if cur + 1 >= len { 0 } else { cur + 1 },
            Direction::Up => if cur >= c { cur - c } else { wrap_vertical_spec(len, c, cur, last_row) },
            Direction::Down => if cur / c < last_row {
                min_int(cur + c, len - 1)
            } else {
                wrap_vertical_spec(len, c, cur, 0)
            },
        }
    }
}

/// How many tiles fit across `viewport_width`, at least one. A non-positive
/// tile size yields one column rather than dividing by zero.
pub fn columns_for_width(viewport_width: i32, tile: i32, spacing: i32) -> (n: usize)
    ensures
        n == columns_spec(viewport_width as int, tile as int, spacing as int),
        n >= 1,
{
    if tile <= 0 {
        return 1;
    }
    let g: i64 = if spacing > 0 { spacing as i64 } else { 0 };
    let s: i64 = tile as i64 + g;
    let num: i64 = viewport_width as i64 + g;
    if num < 0 {
        assert((num as int) / (s as int) < 1) by (nonlinear_arith)
            requires
                num < 0,
                s > 0,
        ;
        return 1;
    }
    let n: i64 = num / s;
    assert(n <= num) by (nonlinear_arith)
        requires
            n == num as int / s as int,
            num >= 0,
            s >= 1,
    ;
    if n >= 1 {
        n as usize
    } else {
        1
    }
}

/// The number of rows `len` tiles need at `columns` per row.
pub fn row_count(len: usize, columns: usize) -> (rows: usize)
    ensures
        rows == rows_spec(len as int, columns as int),
{
    let c: usize = if columns >= 1 { columns } else { 1 };
    let q = len / c;
    let r = len % c;
    proof {
        vstd::arithmetic::div_mod::lemma_fundamental_div_mod(len as int, c as int);
        assert(len == c * q + r);
        assert((q + 1) * c + (r - 1) == len + c - 1 && q * c + (c - 1) == len + c - 1 - r) by (nonlinear_arith)
            requires
                len == c * q + r,
        ;
        if r != 0 {
            vstd::arithmetic::div_mod::lemma_fundamental_div_mod_converse(
                len + c - 1, c as int, q + 1, r - 1);
        } else {
            vstd::arithmetic::div_mod::lemma_fundamental_div_mod_converse(
                len + c - 1, c as int, q as int, c - 1);
        }
    }
    if r != 0 {
        assert(q < len) by (nonlinear_arith)
            requires
                len == c * q + r,
                r > 0,
                c >= 1,
                q >= 0,
        ;
        q + 1
    } else {
        q
    }
}

/// The full content height, in device pixels, for `len` tiles at `columns`
/// per row: every row plus the gaps between them, without a trailing gap.
/// Saturates at the `i32` range.
pub fn content_height_px(len: usize, columns: usize, tile: i32, spacing: i32) -> (h: i32)
    ensures
        h == crate::units::saturate_i32(content_height_spec(len as int, columns as int, tile as int, spacing as int)),
{
    let rows = row_count(len, columns);
    if rows == 0 {
        return 0;
    }
    let g: i128 = if spacing > 0 { spacing as i128 } else { 0 };
    let s: i128 = tile as i128 + g;
    assert(-4294967296 * 18446744073709551615 <= rows * s <= 4294967296 * 18446744073709551615) by (nonlinear_arith)
        requires
            0 <= rows <= 18446744073709551615,
            -4294967296 <= s <= 4294967296,
    ;
    let total: i128 = rows as i128 * s - g;
    if total < i32::MIN as i128 {
        i32::MIN
    } else if total > i32::MAX as i128 {
        i32::MAX
    } else {
        total as i32
    }
}

/// The rows that intersect `[offset, offset + viewport_height)`, clamped to
/// `[0, row_count)`.
pub fn visible_row_range(offset: i32, viewport_height: i32, tile: i32, spacing: i32, row_count: usize) -> (rows: Range<usize>)
    ensures
        no_rows(viewport_height as int, tile as int, row_count as int) ==> rows.start == 0 && rows.end == 0,
        !no_rows(viewport_height as int, tile as int, row_count as int) ==> {
            &&& rows.start == min_int(first_row_spec(offset as int, tile as int, spacing as int), row_count as int)
            &&& rows.end == min_int(last_row_spec(offset as int, viewport_height as int, tile as int, spacing as int), row_count as int)
        },
        rows.start <= rows.end <= row_count,
{
    if tile <= 0 || row_count == 0 || viewport_height <= 0 {
        return 0..0;
    }
    let g: i64 = if spacing > 0 { spacing as i64 } else { 0 };
    let s: i64 = tile as i64 + g;
    let top: i64 = if offset > 0 { offset as i64 } else { 0 };
    let bottom: i64 = top + viewport_height as i64;
    let first_wide: i64 = top / s;
    let last_wide: i64 = (bottom + (s - 1)) / s;
    assert(0 <= first_wide <= top && 0 <= last_wide <= bottom) by (nonlinear_arith)
        requires
            first_wide == top as int / s as int,
            last_wide == (bottom + s - 1) as int / s as int,
            top >= 0,
            bottom >= 1,
            s >= 1,
    {
        assert((bottom + s - 1) <= bottom * s);
    }
    let first = first_wide as usize;
    let last = last_wide as usize;
    assert(first <= last) by (nonlinear_arith)
        requires
            first == (top as int) / (s as int),
            last == (bottom + s - 1) as int / (s as int),
            bottom >= top >= 0,
            s > 0,
    ;
    let start = if first < row_count { first } else { row_count };
    let end = if last < row_count { last } else { row_count };
    start..end
}

/// The tile indices `[start, end)` visible in `[offset, offset +
/// viewport_height)`: the visible rows at `columns` per row, clamped to
/// `len`.
pub open spec fn visible_items_spec(offset: int, viewport_height: int, tile: int, spacing: int, columns: int, len: int) -> (int, int) {
    let c = if columns >= 1 { columns } else { 1int };
    let rc = rows_spec(len, columns);
    if no_rows(viewport_height, tile, rc) {
        (0, 0)
    } else {
        (
            min_int(min_int(first_row_spec(offset, tile, spacing), rc) * c, len),
            min_int(min_int(last_row_spec(offset, viewport_height, tile, spacing), rc) * c, len),
        )
    }
}

/// Whether every tile of a model of `len` tiles, laid out `columns` per
/// row, has coordinates that fit an `i32`.
pub open spec fn tiles_fit(len: int, columns: int, tile: int, spacing: int) -> bool {
    &&& stride(tile, spacing) <= i32::MAX
    &&& forall|i: int| 0 <= i < len ==> {
        let (l, t, r, b) = #[trigger] tile_rect_spec(i, columns, tile, spacing);
        i32::MIN <= l && r <= i32::MAX && i32::MIN <= t && b <= i32::MAX
    }
}

/// The tile indices visible in `[offset, offset + viewport_height)`: the
/// visible rows at `columns` per row, clamped to `len`.
pub fn visible_item_range(offset: i32, viewport_height: i32, tile: i32, spacing: i32, columns: usize, len: usize) -> (items: Range<usize>)
    ensures
        items.start <= items.end <= len,
        (items.start as int, items.end as int) == visible_items_spec(
            offset as int,
            viewport_height as int,
            tile as int,
            spacing as int,
            columns as int,
            len as int,
        ),
        ({
            let c = if columns >= 1 { columns as int } else { 1int };
            let rc = rows_spec(len as int, columns as int);
            if no_rows(viewport_height as int, tile as int, rc) {
                items.start == 0 && items.end == 0
            } else {
                &&& items.start == min_int(min_int(first_row_spec(offset as int, tile as int, spacing as int), rc) * c, len as int)
                &&& items.end == min_int(min_int(last_row_spec(offset as int, viewport_height as int, tile as int, spacing as int), rc) * c, len as int)
            }
        }),
{
    let c: usize = if columns >= 1 { columns } else { 1 };
    let rc = row_count(len, c);
    let rows = visible_row_range(offset, viewport_height, tile, spacing, rc);
    proof {
        lemma_rows_times_columns(len as int, c as int);
        lemma_mul_le(rows.start as int, rows.end as int, rc as int, c as int);
    }
    assert(rows.end as int * c as int <= 18446744073709551615 * 18446744073709551615) by (nonlinear_arith)
        requires
            0 <= rows.end <= 18446744073709551615,
            1 <= c <= 18446744073709551615,
    ;
    let start_full: u128 = rows.start as u128 * c as u128;
    let end_full: u128 = rows.end as u128 * c as u128;
    assert(rows.start == 0 ==> start_full == 0) by (nonlinear_arith)
        requires
            start_full == rows.start * c,
    ;
    let start: usize = if start_full < len as u128 { start_full as usize } else { len };
    let end: usize = if end_full < len as u128 { end_full as usize } else { len };
    start..end
}

proof fn lemma_rows_times_columns(len: int, c: int)
    requires
        len >= 0,
        c >= 1,
    ensures
        rows_spec(len, c) * c < len + c,
        rows_spec(len, c) * c >= len,
{
    let q = (len + c - 1) / c;
    let r = (len + c - 1) % c;
    assert(len + c - 1 == q * c + r && 0 <= r < c) by (nonlinear_arith)
        requires
            q == (len + c - 1) / c,
            r == (len + c - 1) % c,
            c >= 1,
    ;
}

proof fn lemma_mul_le(a: int, b: int, n: int, c: int)
    requires
        0 <= a <= b <= n,
        c >= 1,
    ensures
        a * c <= b * c <= n * c,
{
    assert(a * c <= b * c <= n * c) by (nonlinear_arith)
        requires
            0 <= a <= b <= n,
            c >= 1,
    ;
}

/// The tile index under `(x, y)` (in the coordinate space `tile` and `spacing`
/// are given in), or `None` outside every tile: in a spacing gap, past the
/// last column, past the last item, or at negative coordinates.
pub fn index_at_point(x: i32, y: i32, tile: i32, spacing: i32, columns: usize, len: usize) -> (index: Option<usize>)
    ensures
        index matches Some(i) ==> index_at_spec(x as int, y as int, tile as int, spacing as int, columns as int, len as int) == Some(i as int),
        index is None ==> index_at_spec(x as int, y as int, tile as int, spacing as int, columns as int, len as int) is None,
{
    if tile <= 0 || x < 0 || y < 0 {
        return None;
    }
    let g: i64 = if spacing > 0 { spacing as i64 } else { 0 };
    let s: i64 = tile as i64 + g;
    let col: i64 = x as i64 / s;
    let row: i64 = y as i64 / s;
    assert(0 <= col <= x && 0 <= row <= y) by (nonlinear_arith)
        requires
            col == x as int / s as int,
            row == y as int / s as int,
            x >= 0,
            y >= 0,
            s > 0,
    ;
    assert(col * s <= x && row * s <= y) by (nonlinear_arith)
        requires
            col == x as int / s as int,
            row == y as int / s as int,
            x >= 0,
            y >= 0,
            s > 0,
    ;
    let col_start: i64 = col * s;
    let row_start: i64 = row * s;
    if x as i64 - col_start >= tile as i64 || y as i64 - row_start >= tile as i64 {
        return None;
    }
    let c: u128 = if columns >= 1 { columns as u128 } else { 1 };
    if col as u128 >= c {
        return None;
    }
    assert(row * c <= 2147483647 * 18446744073709551615) by (nonlinear_arith)
        requires
            0 <= row <= 2147483647,
            1 <= c <= 18446744073709551615,
    ;
    let index: u128 = row as u128 * c + col as u128;
    if index < len as u128 {
        Some(index as usize)
    } else {
        None
    }
}

/// The rectangle of tile `index` at `columns` per row: column `index %
/// columns` and row `index / columns`, one stride apart.
pub fn tile_rect(index: usize, columns: usize, tile: i32, spacing: i32) -> (r: Rect)
    requires
        columns >= 1,
        tile >= 0,
        ({
            let (l, t, rr, b) = tile_rect_spec(index as int, columns as int, tile as int, spacing as int);
            i32::MIN <= l && rr <= i32::MAX && i32::MIN <= t && b <= i32::MAX && stride(tile as int, spacing as int) <= i32::MAX
        }),
    ensures
        ({
            let (l, t, rr, b) = tile_rect_spec(index as int, columns as int, tile as int, spacing as int);
            r.left == l && r.top == t && r.right == rr && r.bottom == b
        }),
{
    let g: i32 = if spacing > 0 { spacing } else { 0 };
    let s: i32 = tile + g;
    let row = index / columns;
    let col = index % columns;
    proof {
        let (l, t, rr, b) = tile_rect_spec(index as int, columns as int, tile as int, spacing as int);
        assert(0 <= col * s <= i32::MAX) by (nonlinear_arith)
            requires
                l == col * s,
                0 <= col,
                s >= 0,
                rr == l + tile,
                tile >= 0,
                rr <= i32::MAX,
        ;
        assert(0 <= row * s <= i32::MAX) by (nonlinear_arith)
            requires
                t == row * s,
                0 <= row,
                s >= 0,
                b == t + tile,
                tile >= 0,
                b <= i32::MAX,
        ;
    }
    assert(col * s <= 18446744073709551615 * 2147483647 && row * s <= 18446744073709551615 * 2147483647) by (nonlinear_arith)
        requires
            0 <= col <= 18446744073709551615,
            0 <= row <= 18446744073709551615,
            0 <= s <= 2147483647,
    ;
    let x: i32 = (col as i128 * s as i128) as i32;
    let y: i32 = (row as i128 * s as i128) as i32;
    Rect::new(x, y, x + tile, y + tile)
}

/// Moves `current` one step in `direction` over `len` tiles laid out at
/// `columns` per row, wrapping at every edge: `Left`/`Right` wrap around the
/// whole model, `Up`/`Down` wrap to the same column in the last/first row
/// (clamped onto that row when it is shorter than `columns`). An empty model
/// always yields 0.
pub fn navigate(len: usize, columns: usize, current: usize, direction: Direction) -> (next: usize)
    ensures
        next == navigate_spec(len as int, columns as int, current as int, direction),
        len > 0 ==> next < len,
{
    if len == 0 {
        return 0;
    }
    let c: usize = if columns >= 1 { columns } else { 1 };
    let cur: usize = if current < len - 1 { current } else { len - 1 };
    let rows = row_count(len, c);
    proof {
        lemma_rows_times_columns(len as int, c as int);
        assert(rows >= 1) by (nonlinear_arith)
            requires
                rows * c >= len,
                len >= 1,
                c >= 1,
        ;
    }
    let last_row = rows - 1;
    match direction {
        Direction::Left => {
            if cur == 0 {
                len - 1
            } else {
                cur - 1
            }
        },
        Direction::Right => {
            if cur + 1 >= len {
                0
            } else {
                cur + 1
            }
        },
        Direction::Up => {
            if cur >= c {
                cur - c
            } else {
                wrap_vertical(len, c, cur, last_row)
            }
        },
        Direction::Down => {
            if cur / c < last_row {
                if c >= len - cur {
                    len - 1
                } else {
                    cur + c
                }
            } else {
                wrap_vertical(len, c, cur, 0)
            }
        },
    }
}

/// The tile in `target_row`, same column as `current`, clamped onto the model
/// when that row runs short of `columns` tiles.
fn wrap_vertical(len: usize, columns: usize, current: usize, target_row: usize) -> (next: usize)
    requires
        len >= 1,
        columns >= 1,
        target_row < rows_spec(len as int, columns as int),
    ensures
        next == wrap_vertical_spec(len as int, columns as int, current as int, target_row as int),
        next < len,
{
    proof {
        lemma_rows_times_columns(len as int, columns as int);
        assert(target_row * columns < len) by (nonlinear_arith)
            requires
                target_row < rows_spec(len as int, columns as int),
                rows_spec(len as int, columns as int) * columns < len + columns,
                columns >= 1,
                target_row >= 0,
        {
            assert(target_row + 1 <= rows_spec(len as int, columns as int));
            assert((target_row + 1) * columns <= rows_spec(len as int, columns as int) * columns);
        }
    }
    let base: usize = target_row * columns;
    let col: usize = current % columns;
    if col >= len - 1 - base {
        len - 1
    } else {
        base + col
    }
}

/// Stepping left undoes stepping right, and stepping right undoes stepping
/// left, for every tile of a non-empty model.
pub proof fn lemma_left_right_inverse(len: int, columns: int, current: int)
    requires
        0 <= current < len,
    ensures
        navigate_spec(len, columns, navigate_spec(len, columns, current, Direction::Right), Direction::Left) == current,
        navigate_spec(len, columns, navigate_spec(len, columns, current, Direction::Left), Direction::Right) == current,
{
}

/// Every navigation step of a non-empty model lands on a tile of the model.
pub proof fn lemma_navigate_in_range(len: int, columns: int, current: int, direction: Direction)
    requires
        len > 0,
        current >= 0,
    ensures
        0 <= navigate_spec(len, columns, current, direction) < len,
{
    let c = if columns >= 1 { columns } else { 1 };
    lemma_rows_times_columns(len, c);
    let cur = min_int(current, len - 1);
    let last_row = rows_spec(len, c) - 1;
    assert(last_row >= 0) by (nonlinear_arith)
        requires
            rows_spec(len, c) * c >= len,
            len >= 1,
            c >= 1,
            last_row == rows_spec(len, c) - 1,
    ;
    assert(0 <= cur % c) by (nonlinear_arith)
        requires
            c >= 1,
    ;
}

/// Hit testing agrees with the tile layout: a point that hits tile `i` lies
/// inside the rectangle tile `i` is painted in.
pub proof fn lemma_hit_is_inside_tile(x: int, y: int, tile: int, spacing: int, columns: int, len: int)
    requires
        columns >= 1,
        index_at_spec(x, y, tile, spacing, columns, len) is Some,
    ensures
        ({
            let i = index_at_spec(x, y, tile, spacing, columns, len)->0;
            let (l, t, r, b) = tile_rect_spec(i, columns, tile, spacing);
            0 <= i < len && l <= x < r && t <= y < b
        }),
{
    let s = stride(tile, spacing);
    let col = x / s;
    let row = y / s;
    let i = row * columns + col;
    assert(i % columns == col && i / columns == row) by (nonlinear_arith)
        requires
            i == row * columns + col,
            0 <= col < columns,
            row >= 0,
            columns >= 1,
    {
        vstd::arithmetic::div_mod::lemma_fundamental_div_mod_converse(i, columns, row, col);
    }
    assert(0 <= row) by (nonlinear_arith)
        requires
            row == y / s,
            y >= 0,
            s > 0,
    ;
    assert(col * s <= x && row * s <= y) by (nonlinear_arith)
        requires
            col == x / s,
            row == y / s,
            x >= 0,
            y >= 0,
            s > 0,
    ;
}

/// A visible item range never reaches past the model.
pub proof fn lemma_visible_items_within_model(offset: int, height: int, tile: int, spacing: int, columns: int, len: int)
    requires
        len >= 0,
    ensures
        ({
            let c = if columns >= 1 { columns } else { 1int };
            let rc = rows_spec(len, columns);
            !no_rows(height, tile, rc) ==> min_int(min_int(last_row_spec(offset, height, tile, spacing), rc) * c, len) <= len
        }),
{
}

/// Down moves one row: from a tile that is not in the last row it lands in
/// the next row, in the same column when that row reaches it and on the
/// model's last tile otherwise.
pub proof fn lemma_down_moves_one_row(len: int, columns: int, current: int)
    requires
        columns >= 1,
        0 <= current < len,
        current / columns < rows_spec(len, columns) - 1,
    ensures
        ({
            let next = navigate_spec(len, columns, current, Direction::Down);
            &&& next / columns == current / columns + 1
            &&& current + columns < len ==> next % columns == current % columns
            &&& current + columns >= len ==> next == len - 1
        }),
{
    let c = columns;
    let q = current / c;
    let r = current % c;
    vstd::arithmetic::div_mod::lemma_fundamental_div_mod(current, c);
    let rows = rows_spec(len, c);
    vstd::arithmetic::div_mod::lemma_fundamental_div_mod(len + c - 1, c);
    assert((q + 1) * c <= len - 1) by (nonlinear_arith)
        requires
            rows == (len + c - 1) / c,
            (len + c - 1) == c * ((len + c - 1) / c) + (len + c - 1) % c,
            0 <= (len + c - 1) % c,
            q + 2 <= rows,
            c >= 1,
    ;
    assert(0 <= r < c) by {
        vstd::arithmetic::div_mod::lemma_mod_bound(current, c);
    }
    let next = navigate_spec(len, c, current, Direction::Down);
    if current + c < len {
        assert(next == current + c);
        assert(current + c == (q + 1) * c + r) by (nonlinear_arith)
            requires
                current == c * q + r,
        ;
        vstd::arithmetic::div_mod::lemma_fundamental_div_mod_converse(current + c, c, q + 1, r);
    } else {
        assert(next == len - 1);
        let rest = len - 1 - (q + 1) * c;
        assert(0 <= rest < c) by (nonlinear_arith)
            requires
                rest == len - 1 - (q + 1) * c,
                (q + 1) * c <= len - 1,
                len <= current + c,
                current == c * q + r,
                r < c,
        ;
        assert(len - 1 == (q + 1) * c + rest);
        vstd::arithmetic::div_mod::lemma_fundamental_div_mod_converse(len - 1, c, q + 1, rest);
    }
}

/// Up moves one row: from a tile that is not in the first row it lands on
/// the tile straight above it.
pub proof fn lemma_up_moves_one_row(len: int, columns: int, current: int)
    requires
        columns >= 1,
        0 <= current < len,
        current / columns >= 1,
    ensures
        ({
            let next = navigate_spec(len, columns, current, Direction::Up);
            &&& next / columns == current / columns - 1
            &&& next % columns == current % columns
        }),
{
    let c = columns;
    let q = current / c;
    let r = current % c;
    vstd::arithmetic::div_mod::lemma_fundamental_div_mod(current, c);
    vstd::arithmetic::div_mod::lemma_mod_bound(current, c);
    assert(current >= c) by (nonlinear_arith)
        requires
            current == c * q + r,
            q >= 1,
            r >= 0,
            c >= 1,
    ;
    assert(current - c == (q - 1) * c + r) by (nonlinear_arith)
        requires
            current == c * q + r,
    ;
    vstd::arithmetic::div_mod::lemma_fundamental_div_mod_converse(current - c, c, q - 1, r);
}

} // verus!
