//! Window handles as plain values.

use vstd::prelude::*;

verus! {

/// A window handle. The library only compares and stores handles; the
/// platform layer owns the windows behind them.
#[derive(Clone, Copy, Debug, PartialEq, Eq, Structural, Hash, Default)]
pub struct Hwnd(pub usize);

impl Hwnd {
    /// The null handle.
    pub fn null() -> (h: Hwnd)
        ensures
            h.0 == 0,
    {
        Hwnd(0)
    }

    /// A handle from its raw value.
    pub fn from_raw(raw: usize) -> (h: Hwnd)
        ensures
            h.0 == raw,
    {
        Hwnd(raw)
    }

    /// The raw value.
    pub fn raw(&self) -> (r: usize)
        ensures
            r == self.0,
    {
        self.0
    }

    /// Whether this is the null handle.
    pub fn is_null(&self) -> (b: bool)
        ensures
            b == (self.0 == 0),
    {
        self.0 == 0
    }
}

} // verus!
