//! Keyboard shortcuts: a key and the modifiers held with it.

use vstd::prelude::*;

use crate::message::{Key, Modifiers};

verus! {

/// A key together with the modifier keys held with it, as shown next to a
/// menu item and matched by the accelerator table.
#[derive(Clone, Copy, Debug, PartialEq, Eq, Structural, Hash)]
pub struct Shortcut {
    /// The key.
    pub key: Key,
    /// The modifiers held with it.
    pub modifiers: Modifiers,
}

impl Shortcut {
    /// `key` with exactly `modifiers` held.
    pub fn new(key: Key, modifiers: Modifiers) -> (s: Shortcut)
        ensures
            s == (Shortcut { key, modifiers }),
    {
        Shortcut { key, modifiers }
    }

    /// Ctrl+`key`.
    pub fn ctrl(key: Key) -> (s: Shortcut)
        ensures
            s == (Shortcut { key, modifiers: Modifiers { ctrl: true, shift: false, alt: false } }),
    {
        Shortcut { key, modifiers: Modifiers { ctrl: true, shift: false, alt: false } }
    }
}

} // verus!
