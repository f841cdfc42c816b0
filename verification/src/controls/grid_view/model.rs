//! The grid's data model ([`GridModel`]), the per-tile paint state
//! ([`TileState`]) and the tile-size spec ([`TileSizeSpec`]).

use vstd::prelude::*;

use crate::units::Dip;

verus! {

/// Supplies a grid with tiles. The grid never stores the items itself: paint
/// borrows each visible item fresh from [`get`](GridModel::get).
pub trait GridModel {
    /// The tile type.
    type Item;

    /// The number of tiles, as a mathematical value.
    spec fn spec_len(&self) -> nat;

    /// The number of tiles.
    fn len(&self) -> (n: usize)
        ensures
            n == self.spec_len();

    /// Whether the model holds no tiles.
    fn is_empty(&self) -> (b: bool)
        ensures
            b == (self.spec_len() == 0),
    {
        self.len() == 0
    }

    /// The tile at `index`, or `None` past the end.
    fn get(&self, index: usize) -> (item: Option<&Self::Item>)
        ensures
            item is Some <==> index < self.spec_len();
}

impl<T> GridModel for Vec<T> {
    type Item = T;

    open spec fn spec_len(&self) -> nat {
        self@.len()
    }

    fn len(&self) -> (n: usize)
        ensures
            n == self@.len(),
    {
        self.len()
    }

    fn is_empty(&self) -> (b: bool)
        ensures
            b == (self@.len() == 0),
    {
        self.len() == 0
    }

    fn get(&self, index: usize) -> (item: Option<&T>)
        ensures
            index < self@.len() ==> item == Some(&self@[index as int]),
            index >= self@.len() ==> item is None,
    {
        if index < self.len() {
            Some(&self[index])
        } else {
            None
        }
    }
}

/// The state a tile is painted in: whether it is the (single) selection and
/// whether the pointer is over it.
#[derive(Clone, Copy, Debug, Default, PartialEq, Eq, Structural)]
pub struct TileState {
    pub selected: bool,
    pub hovered: bool,
}

/// A tile size: either fixed, or a range the app can vary live through the
/// grid's `set_tile_size`.
#[derive(Clone, Copy, Debug, PartialEq, Eq)]
pub struct TileSizeSpec {
    pub initial: Dip,
    pub range: Option<(Dip, Dip)>,
}

impl TileSizeSpec {
    /// A fixed tile size: no range.
    pub fn fixed(size: Dip) -> (spec: TileSizeSpec)
        ensures
            spec.initial == size,
            spec.range is None,
    {
        TileSizeSpec { initial: size, range: None }
    }

    /// A variable tile size from `start` to `end`, starting at its low end.
    pub fn between(start: Dip, end: Dip) -> (spec: TileSizeSpec)
        ensures
            spec.initial == start,
            spec.range == Some((start, end)),
    {
        TileSizeSpec { initial: start, range: Some((start, end)) }
    }

    /// A variable tile size over `range`, starting at its low end.
    pub fn from_range(range: std::ops::Range<Dip>) -> (spec: TileSizeSpec)
        ensures
            spec.initial == range.start,
            spec.range == Some((range.start, range.end)),
    {
        TileSizeSpec { initial: range.start, range: Some((range.start, range.end)) }
    }
}

} // verus!
