//! The event mapping of a combo box: a `CBN_SELCHANGE` becomes the selected
//! typed value, then the app's message.

use vstd::prelude::*;

use crate::controls::combobox_model::ComboBoxItems;
use crate::hwnd::Hwnd;
use crate::message::{Command, CommandNotification, Message};

verus! {

/// `CBN_SELCHANGE`, from `WinUser.h`. It shares its numeric value with other
/// controls' codes, so the message's control handle disambiguates it.
pub const CBN_SELCHANGE: u16 = 1;

/// The app-level events a combo box maps to the app's message: `on_select`
/// receives the selected typed value.
pub struct ComboBoxEvents<F> {
    pub on_select: Option<F>,
}

impl<F> ComboBoxEvents<F> {
    /// No mapping installed.
    pub fn new() -> (e: ComboBoxEvents<F>)
        ensures
            e.on_select is None,
    {
        ComboBoxEvents { on_select: None }
    }
}

/// Whether `message` is a `CBN_SELCHANGE` raised by `hwnd`.
pub open spec fn is_selection_change(message: Message, hwnd: Hwnd) -> bool {
    message matches Message::Command(Command { control: Some(control), notification: CommandNotification::Other(code), .. })
        && control == hwnd && code == CBN_SELCHANGE
}

/// Maps `message` when it is a `CBN_SELCHANGE` raised by `hwnd`.
///
/// Returns `None` when the message is not this combo's selection change, and
/// `Some(mapped)` when it is: `mapped` is the app's message, `None` when
/// nothing (or nothing in range) is selected or no `on_select` was installed.
/// The `Some(None)` case still consumes the notification, so the app never
/// sees a bare index.
pub fn selection_message<T, M, F: Fn(&T) -> Option<M>>(
    message: &Message,
    hwnd: Hwnd,
    selected_index: Option<usize>,
    items: &ComboBoxItems<T>,
    events: &ComboBoxEvents<F>,
) -> (r: Option<Option<M>>)
    requires
        events.on_select matches Some(f) ==> forall|v: &T| call_requires(f, (v,)),
    ensures
        !is_selection_change(*message, hwnd) ==> r is None,
        is_selection_change(*message, hwnd) ==> r is Some,
        is_selection_change(*message, hwnd) ==> match selected_index {
            Some(i) => if i < items.spec_items().len() {
                match events.on_select {
                    Some(f) => call_ensures(f, (&items.spec_items()[i as int].value,), r->0),
                    None => r->0 is None,
                }
            } else {
                r->0 is None
            },
            None => r->0 is None,
        },
{
    let is_change = match message {
        Message::Command(Command { control: Some(control), notification: CommandNotification::Other(code), .. }) => {
            *control == hwnd && *code == CBN_SELCHANGE
        },
        _ => false,
    };
    if !is_change {
        return None;
    }
    let mapped = match selected_index {
        Some(index) => match items.value(index) {
            Some(value) => match &events.on_select {
                Some(f) => f(value),
                None => None,
            },
            None => None,
        },
        None => None,
    };
    Some(mapped)
}

} // verus!
