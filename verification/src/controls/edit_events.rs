//! The event mapping of an edit: `EN_CHANGE`, `EN_SETFOCUS` and
//! `EN_KILLFOCUS` arrive through `WM_COMMAND` and become the app's message.

use vstd::prelude::*;

use crate::hwnd::Hwnd;
use crate::message::{Command, CommandNotification, Message};

verus! {

// `EN_*` notification codes, from `WinUser.h`. They share their numeric values
// with other controls' codes, so the message's control handle disambiguates
// them.
pub const EN_SETFOCUS: u16 = 0x0100;
pub const EN_KILLFOCUS: u16 = 0x0200;
pub const EN_CHANGE: u16 = 0x0300;

/// The app-level events an edit maps to the app's message: `on_change`
/// receives the new text, `on_submit` runs on Enter in a single-line edit,
/// `on_focus` receives whether the edit gained the focus.
pub struct EditEvents<C, S, G> {
    pub on_change: Option<C>,
    pub on_submit: Option<S>,
    pub on_focus: Option<G>,
}

impl<C, S, G> EditEvents<C, S, G> {
    /// No mapping installed.
    pub fn new() -> (e: EditEvents<C, S, G>)
        ensures
            e.on_change is None,
            e.on_submit is None,
            e.on_focus is None,
    {
        EditEvents { on_change: None, on_submit: None, on_focus: None }
    }
}

/// The notification code of `message` when it is a `WM_COMMAND` from `hwnd`
/// carrying a raw code.
pub open spec fn edit_code(message: Message, hwnd: Hwnd) -> Option<u16> {
    match message {
        Message::Command(Command { control: Some(control), notification: CommandNotification::Other(code), .. }) =>
            if control == hwnd { Some(code) } else { None },
        _ => None,
    }
}

/// Whether `message` is one of `hwnd`'s change or focus notifications.
pub open spec fn is_edit_notification(message: Message, hwnd: Hwnd) -> bool {
    edit_code(message, hwnd) matches Some(code)
        && (code == EN_CHANGE || code == EN_SETFOCUS || code == EN_KILLFOCUS)
}

/// Maps `message` when it is an edit notification raised by `hwnd`.
///
/// Returns `None` when the message is not this edit's, and `Some(mapped)` when
/// it is: `mapped` is the app's message (`None` when no mapper was installed).
/// The `Some(None)` case still consumes the notification. `text` reads the
/// current text, and is only consulted for `EN_CHANGE` with an `on_change`
/// mapper installed.
pub fn command_message<M, T: FnOnce() -> String, C: Fn(&str) -> Option<M>, S, G: Fn(bool) -> Option<M>>(
    message: &Message,
    hwnd: Hwnd,
    text: T,
    events: &EditEvents<C, S, G>,
) -> (r: Option<Option<M>>)
    requires
        call_requires(text, ()),
        events.on_change matches Some(f) ==> forall|s: &str| call_requires(f, (s,)),
        events.on_focus matches Some(f) ==> forall|b: bool| call_requires(f, (b,)),
    ensures
        !is_edit_notification(*message, hwnd) ==> r is None,
        is_edit_notification(*message, hwnd) ==> r is Some,
        edit_code(*message, hwnd) == Some(EN_CHANGE) ==> match events.on_change {
            Some(f) => exists|t: String, s: &str| call_ensures(text, (), t) && s@ == t@ && call_ensures(f, (s,), r->0),
            None => r->0 is None,
        },
        edit_code(*message, hwnd) == Some(EN_SETFOCUS) ==> match events.on_focus {
            Some(f) => call_ensures(f, (true,), r->0),
            None => r->0 is None,
        },
        edit_code(*message, hwnd) == Some(EN_KILLFOCUS) ==> match events.on_focus {
            Some(f) => call_ensures(f, (false,), r->0),
            None => r->0 is None,
        },
{
    let code = match message {
        Message::Command(Command { control: Some(control), notification: CommandNotification::Other(code), .. }) => {
            if *control == hwnd {
                *code
            } else {
                return None;
            }
        },
        _ => return None,
    };
    if code == EN_CHANGE {
        let mapped = match &events.on_change {
            Some(f) => {
                let current = text();
                f(current.as_str())
            },
            None => None,
        };
        Some(mapped)
    } else if code == EN_SETFOCUS {
        Some(match &events.on_focus {
            Some(f) => f(true),
            None => None,
        })
    } else if code == EN_KILLFOCUS {
        Some(match &events.on_focus {
            Some(f) => f(false),
            None => None,
        })
    } else {
        None
    }
}

} // verus!
