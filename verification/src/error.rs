//! Why a window or a control could not be made.

use vstd::prelude::*;

verus! {

/// Why a window or a control could not be made.
#[derive(Debug, PartialEq, Eq)]
pub enum Error {
    /// The named control could not be created.
    CreateControl(String),
}

} // verus!
