//! A container window that owns a layout subtree of standard controls, so a
//! form of native controls can scroll as one inside a scroll view.

use vstd::prelude::*;

use crate::controls::control::{AsControl, Control};
use crate::controls::style::{WS_CHILD, WS_VISIBLE};
use crate::geometry::Rect;
use crate::hwnd::Hwnd;

verus! {

/// `WS_CLIPCHILDREN`.
pub const WS_CLIPCHILDREN: u32 = 0x0200_0000;
/// `WS_CLIPSIBLINGS`.
pub const WS_CLIPSIBLINGS: u32 = 0x0400_0000;
/// `WS_EX_CONTROLPARENT`: dialog navigation enters the panel's children.
pub const WS_EX_CONTROLPARENT: u32 = 0x0001_0000;

/// Where the layout put one child, and whether its window still exists.
#[derive(Clone, Copy, Debug, PartialEq, Eq, Structural)]
pub struct Placement {
    /// The child window.
    pub hwnd: Hwnd,
    /// Its new bounds in the panel.
    pub rect: Rect,
    /// Whether the window is still alive.
    pub alive: bool,
}

/// The placements of `placed` whose windows are alive, in order.
pub open spec fn live_placements(placed: Seq<Placement>) -> Seq<Placement>
    decreases placed.len(),
{
    if placed.len() == 0 {
        seq![]
    } else {
        let rest = live_placements(placed.drop_last());
        if placed.last().alive {
            rest.push(placed.last())
        } else {
            rest
        }
    }
}

/// A child window owning a layout subtree.
pub struct Panel {
    /// The panel's window and bounds; the window is owned by the panel's
    /// window object, not by this control.
    pub control: Control,
    /// Whether a layout subtree was installed.
    pub has_layout: bool,
}

impl Panel {
    /// An empty panel in the child window `hwnd`.
    pub fn new(hwnd: Hwnd) -> (p: Panel)
        ensures
            p.control == (Control { hwnd, owned: false, bounds: Rect { left: 0, top: 0, right: 0, bottom: 0 }, visible: true, enabled: true }),
            !p.has_layout,
    {
        Panel { control: Control::borrowed(hwnd, Rect::new(0, 0, 0, 0)), has_layout: false }
    }

    /// The window style the panel needs: a visible child clipping its
    /// children and siblings.
    pub fn style(&self) -> (style: u32)
        ensures
            style == (WS_CHILD | WS_VISIBLE | WS_CLIPCHILDREN | WS_CLIPSIBLINGS),
    {
        WS_CHILD | WS_VISIBLE | WS_CLIPCHILDREN | WS_CLIPSIBLINGS
    }

    /// The extended style: dialog navigation enters the panel.
    pub fn ex_style(&self) -> (style: u32)
        ensures
            style == WS_EX_CONTROLPARENT,
    {
        WS_EX_CONTROLPARENT
    }

    /// Installs the layout subtree; the panel then lays it out at once.
    pub fn set_layout(&mut self)
        ensures
            final(self).has_layout,
            final(self).control == old(self).control,
    {
        self.has_layout = true;
    }

    /// The moves one relayout makes: nothing while the panel's window is
    /// gone or no layout was installed, else every placement whose child is
    /// still alive, in order, applied as one batch.
    pub fn relayout(&self, panel_alive: bool, placed: &Vec<Placement>) -> (moves: Vec<Placement>)
        ensures
            !(panel_alive && self.has_layout) ==> moves@.len() == 0,
            panel_alive && self.has_layout ==> moves@ == live_placements(placed@),
    {
        let mut moves: Vec<Placement> = Vec::new();
        if !(panel_alive && self.has_layout) {
            return moves;
        }
        let mut i: usize = 0;
        while i < placed.len()
            invariant
                i <= placed@.len(),
                moves@ == live_placements(placed@.take(i as int)),
            decreases placed@.len() - i,
        {
            proof {
                let after = placed@.take(i as int + 1);
                assert(after.drop_last() =~= placed@.take(i as int));
                assert(after.last() == placed@[i as int]);
            }
            let p = placed[i];
            if p.alive {
                moves.push(p);
            }
            i = i + 1;
        }
        assert(placed@.take(placed@.len() as int) =~= placed@);
        moves
    }
}

impl AsControl for Panel {
    open spec fn control_view(&self) -> Control {
        self.control
    }

    fn control(&self) -> (c: &Control) {
        &self.control
    }
}

} // verus!
