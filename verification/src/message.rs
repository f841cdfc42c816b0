//! Decoded window messages: the typed subset of the platform's messages that
//! the widgets react to.

use vstd::prelude::*;

use crate::controls::listview::events::ListViewEvent;
use crate::geometry::Rect;
use crate::hwnd::Hwnd;

verus! {

// Virtual-key codes, from `WinUser.h`.
pub const VK_RETURN: u16 = 0x0D;
pub const VK_SPACE: u16 = 0x20;
pub const VK_PRIOR: u16 = 0x21;
pub const VK_NEXT: u16 = 0x22;
pub const VK_END: u16 = 0x23;
pub const VK_HOME: u16 = 0x24;
pub const VK_LEFT: u16 = 0x25;
pub const VK_UP: u16 = 0x26;
pub const VK_RIGHT: u16 = 0x27;
pub const VK_DOWN: u16 = 0x28;

/// A virtual key.
#[derive(Clone, Copy, Debug, PartialEq, Eq, Structural, Hash)]
pub struct Key(pub u16);

impl Key {
    /// The key with virtual-key code `code`.
    pub fn from_code(code: u16) -> (k: Key)
        ensures
            k.0 == code,
    {
        Key(code)
    }

    /// The virtual-key code.
    pub fn code(&self) -> (c: u16)
        ensures
            c == self.0,
    {
        self.0
    }
}

/// The modifier keys held during an input event.
#[derive(Clone, Copy, Debug, PartialEq, Eq, Structural, Default, Hash)]
pub struct Modifiers {
    pub ctrl: bool,
    pub shift: bool,
    pub alt: bool,
}

/// A mouse button.
#[derive(Clone, Copy, Debug, PartialEq, Eq, Structural)]
pub enum MouseButton {
    Left,
    Right,
    Middle,
}

/// A timer's identifier.
#[derive(Clone, Copy, Debug, PartialEq, Eq, Structural, Hash)]
pub struct TimerId(pub usize);

/// The notification code of a `WM_COMMAND`.
#[derive(Clone, Copy, Debug, PartialEq, Eq, Structural)]
pub enum CommandNotification {
    /// `BN_CLICKED`.
    Clicked,
    /// Any other code, as reported in `HIWORD(wparam)`.
    Other(u16),
}

/// A decoded `WM_COMMAND`.
#[derive(Clone, Copy, Debug, PartialEq, Eq, Structural)]
pub struct Command {
    /// The command or control id.
    pub id: u16,
    /// The control that sent it, if a control did.
    pub control: Option<Hwnd>,
    /// The notification code.
    pub notification: CommandNotification,
}

/// A decoded `WM_NOTIFY`.
#[derive(Clone, Copy, Debug, PartialEq, Eq, Structural)]
pub enum Notify {
    /// A list view notification.
    ListView {
        /// The list view.
        control: Hwnd,
        /// What happened.
        event: ListViewEvent,
    },
}

/// A decoded window message.
#[derive(Clone, Copy, Debug, PartialEq, Eq, Structural)]
pub enum Message {
    Paint,
    Size { width: i32, height: i32 },
    Timer { id: TimerId },
    MouseDown { x: i32, y: i32, button: MouseButton },
    MouseUp { x: i32, y: i32, button: MouseButton },
    MouseMove { x: i32, y: i32 },
    MouseDoubleClick { x: i32, y: i32, button: MouseButton },
    MouseWheel { delta: i16, horizontal: bool, x: i32, y: i32, modifiers: Modifiers },
    MouseLeave,
    CaptureChanged,
    KeyDown { key: Key, modifiers: Modifiers, repeat: u16, system: bool },
    KeyUp { key: Key, modifiers: Modifiers, system: bool },
    Char(char),
    SetFocus,
    KillFocus,
    Command(Command),
    DrawItem { control: Hwnd, dc: isize, area: Rect, state: u32 },
    Notify(Notify),
    Other { code: u32, wparam: usize, lparam: isize },
}

} // verus!
