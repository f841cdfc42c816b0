//! The list view's column specs, its row source and the header sort arrow.

use vstd::prelude::*;

use crate::units::Dip;

verus! {

/// How wide a column is: a fixed design width, or a share of the client
/// width the fixed columns leave behind.
#[derive(Clone, Copy, Debug, PartialEq, Eq, Structural)]
pub enum ColumnWidth {
    /// A fixed width in design units.
    Fixed(Dip),
    /// An even share of the leftover client width.
    Fill,
}

/// A report-mode column.
#[derive(Clone, Debug)]
pub struct Column {
    /// Header label.
    pub title: String,
    /// The column's width.
    pub width: ColumnWidth,
    /// Whether the column's cells are right-aligned.
    pub align_right: bool,
}

impl Column {
    /// A left-aligned column of fixed design `width`.
    pub fn new(title: String, width: Dip) -> (c: Column)
        ensures
            c.title@ == title@,
            c.width == ColumnWidth::Fixed(width),
            !c.align_right,
    {
        Column { title, width: ColumnWidth::Fixed(width), align_right: false }
    }

    /// A right-aligned column (numbers, durations) of fixed design `width`.
    pub fn right(title: String, width: Dip) -> (c: Column)
        ensures
            c.title@ == title@,
            c.width == ColumnWidth::Fixed(width),
            c.align_right,
    {
        Column { title, width: ColumnWidth::Fixed(width), align_right: true }
    }

    /// A left-aligned column that shares the leftover width.
    pub fn fill(title: String) -> (c: Column)
        ensures
            c.title@ == title@,
            c.width == ColumnWidth::Fill,
            !c.align_right,
    {
        Column { title, width: ColumnWidth::Fill, align_right: false }
    }
}

/// Supplies the virtual list view with its row count and cell text.
pub trait ListSource {
    /// The number of rows.
    fn item_count(&self) -> usize;

    /// The text of the cell at `item`/`column` (both zero-based).
    fn text(&self, item: usize, column: usize) -> String;
}

/// Which way a column is sorted, for the header arrow.
#[derive(Clone, Copy, Debug, PartialEq, Eq, Structural)]
pub enum SortDirection {
    /// Ascending (`HDF_SORTUP`).
    Ascending,
    /// Descending (`HDF_SORTDOWN`).
    Descending,
}

} // verus!
