//! Standard child-window style bits, as raw values.

use vstd::prelude::*;

verus! {

/// `WS_CHILD`.
pub const WS_CHILD: u32 = 0x4000_0000;
/// `WS_VISIBLE`.
pub const WS_VISIBLE: u32 = 0x1000_0000;
/// `WS_BORDER`.
pub const WS_BORDER: u32 = 0x0080_0000;
/// `WS_TABSTOP`.
pub const WS_TABSTOP: u32 = 0x0001_0000;
/// `WS_VSCROLL`.
pub const WS_VSCROLL: u32 = 0x0020_0000;
/// `WS_EX_CLIENTEDGE`.
pub const WS_EX_CLIENTEDGE: u32 = 0x0000_0200;

} // verus!
