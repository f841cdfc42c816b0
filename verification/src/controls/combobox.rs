//! A drop-down list of typed values.
//!
//! The native control stores only the labels and reports selection as an
//! index; the typed values live in [`ComboBoxItems`], and the selection is
//! carried across an item swap by value, not by index.

use vstd::prelude::*;
use vstd::std_specs::cmp::PartialEqSpec;

use crate::controls::combobox_events::{is_selection_change, selection_message, ComboBoxEvents};
use crate::controls::combobox_model::{has_no_match, is_first_match, ComboBoxItems};
use crate::controls::control::{owned_control, AsControl, Control};
use crate::controls::style::{WS_CHILD, WS_TABSTOP, WS_VISIBLE, WS_VSCROLL};
use crate::geometry::Rect;
use crate::hwnd::Hwnd;
use crate::message::Message;

verus! {

/// `CBS_DROPDOWNLIST`: a closed field with a list that drops down.
pub const CBS_DROPDOWNLIST: u32 = 0x0003;
/// `CBS_HASSTRINGS`: the control stores the labels.
pub const CBS_HASSTRINGS: u32 = 0x0200;
/// How many items the dropped list shows at least.
pub const DEFAULT_VISIBLE_ITEMS: usize = 8;

/// A drop-down list of typed values.
pub struct ComboBox<T, F> {
    /// The combo's window and bounds.
    pub control: Control,
    /// The labels and typed values, in order.
    pub items: ComboBoxItems<T>,
    /// The selected item's index.
    pub selected: Option<usize>,
    /// The app's mapping of a selection change.
    pub events: ComboBoxEvents<F>,
    /// Whether the list is dropped down.
    pub dropped: bool,
}

impl<T, F> ComboBox<T, F> {
    /// The combo in the child window `hwnd` holding `items` in order, with
    /// nothing selected; its closed field is `item_height` pixels high (at
    /// least one).
    pub fn new(hwnd: Hwnd, items: Vec<(String, T)>, item_height: i32) -> (c: ComboBox<T, F>)
        ensures
            c.control == owned_control(
                hwnd,
                Rect { left: 0, top: 0, right: 0, bottom: if item_height < 1 { 1 } else { item_height } },
            ),
            c.items.spec_items().len() == items@.len(),
            forall|i: int| 0 <= i < items@.len() ==> {
                &&& (#[trigger] c.items.spec_items()[i]).label == items@[i].0
                &&& c.items.spec_items()[i].value == items@[i].1
            },
            c.selected is None,
            c.events.on_select is None,
            !c.dropped,
    {
        let height = if item_height < 1 { 1 } else { item_height };
        ComboBox {
            control: Control::own(hwnd, Rect::new(0, 0, 0, height)),
            items: ComboBoxItems::from_pairs(items),
            selected: None,
            events: ComboBoxEvents::new(),
            dropped: false,
        }
    }

    /// The window style the combo needs.
    pub fn style(&self) -> (style: u32)
        ensures
            style == (WS_CHILD | WS_VISIBLE | WS_TABSTOP | WS_VSCROLL | CBS_DROPDOWNLIST | CBS_HASSTRINGS),
    {
        WS_CHILD | WS_VISIBLE | WS_TABSTOP | WS_VSCROLL | CBS_DROPDOWNLIST | CBS_HASSTRINGS
    }

    /// Maps a selection change to a message, given the selected value.
    pub fn on_select(self, f: F) -> (c: ComboBox<T, F>)
        ensures
            c.events.on_select == Some(f),
            c.items == self.items,
            c.selected == self.selected,
            c.control == self.control,
    {
        let ComboBox { control, items, selected, events: _, dropped } = self;
        ComboBox { control, items, selected, events: ComboBoxEvents { on_select: Some(f) }, dropped }
    }

    /// Selects the first item whose value equals `value`, or clears the
    /// selection when none does.
    pub fn set_selected(&mut self, value: &T)
        where
            T: PartialEq,
        requires
            T::obeys_eq_spec(),
        ensures
            match final(self).selected {
                Some(i) => is_first_match(old(self).items.spec_items(), *value, i as int),
                None => has_no_match(old(self).items.spec_items(), *value),
            },
            final(self).items == old(self).items,
            final(self).control == old(self).control,
            final(self).events == old(self).events,
    {
        self.selected = self.items.position(value);
    }

    /// Selects the first item whose value equals `value` (or nothing).
    /// Chainable.
    pub fn select(self, value: &T) -> (c: ComboBox<T, F>)
        where
            T: PartialEq,
        requires
            T::obeys_eq_spec(),
        ensures
            match c.selected {
                Some(i) => is_first_match(self.items.spec_items(), *value, i as int),
                None => has_no_match(self.items.spec_items(), *value),
            },
            c.items == self.items,
            c.control == self.control,
            c.events == self.events,
    {
        let mut c = self;
        c.set_selected(value);
        c
    }

    /// The selected value, if any.
    pub fn selected(&self) -> (v: Option<&T>)
        ensures
            match self.selected {
                Some(i) => if i < self.items.spec_items().len() {
                    v == Some(&self.items.spec_items()[i as int].value)
                } else {
                    v is None
                },
                None => v is None,
            },
    {
        match self.selected {
            Some(index) => self.items.value(index),
            None => None,
        }
    }

    /// The selected item's index, if any.
    pub fn selected_index(&self) -> (i: Option<usize>)
        ensures
            i == self.selected,
    {
        self.selected
    }

    /// Takes the index the native control reports as selected.
    pub fn set_selected_index(&mut self, index: Option<usize>)
        ensures
            final(self).selected == index,
            final(self).items == old(self).items,
            final(self).control == old(self).control,
            final(self).events == old(self).events,
    {
        self.selected = index;
    }

    /// Replaces the items, keeping the selection when its value is still
    /// present: the new selection is the first new item equal to the old
    /// selected value.
    pub fn set_items(&mut self, items: Vec<(String, T)>)
        where
            T: PartialEq,
        requires
            T::obeys_eq_spec(),
        ensures
            final(self).items.spec_items().len() == items@.len(),
            forall|i: int| 0 <= i < items@.len() ==> {
                &&& (#[trigger] final(self).items.spec_items()[i]).label == items@[i].0
                &&& final(self).items.spec_items()[i].value == items@[i].1
            },
            match old(self).selected {
                Some(i) => if i < old(self).items.spec_items().len() {
                    let kept = old(self).items.spec_items()[i as int].value;
                    match final(self).selected {
                        Some(k) => is_first_match(final(self).items.spec_items(), kept, k as int),
                        None => has_no_match(final(self).items.spec_items(), kept),
                    }
                } else {
                    final(self).selected is None
                },
                None => final(self).selected is None,
            },
            final(self).control == old(self).control,
            final(self).events == old(self).events,
    {
        let new_items = ComboBoxItems::from_pairs(items);
        let keep = match self.selected {
            Some(index) => match self.items.value(index) {
                Some(value) => new_items.position(value),
                None => None,
            },
            None => None,
        };
        self.items = new_items;
        self.selected = keep;
    }

    /// The number of items.
    pub fn len(&self) -> (n: usize)
        ensures
            n == self.items.spec_items().len(),
    {
        self.items.len()
    }

    /// Whether the combo holds no items.
    pub fn is_empty(&self) -> (b: bool)
        ensures
            b == (self.items.spec_items().len() == 0),
    {
        self.items.is_empty()
    }

    /// The label at `index`, if it is in range.
    pub fn label(&self, index: usize) -> (l: Option<&str>)
        ensures
            index < self.items.spec_items().len() ==> (l matches Some(s) && s@ == self.items.spec_items()[index as int].label@),
            index >= self.items.spec_items().len() ==> l is None,
    {
        self.items.label(index)
    }

    /// The labels the native list is filled with, in order.
    pub fn labels(&self) -> (labels: Vec<&str>)
        ensures
            labels@.len() == self.items.spec_items().len(),
            forall|i: int| 0 <= i < labels@.len() ==> (#[trigger] labels@[i])@ == self.items.spec_items()[i].label@,
    {
        self.items.labels()
    }

    /// Opens or closes the dropped list.
    pub fn show_drop_down(&mut self, show: bool)
        ensures
            final(self).dropped == show,
            final(self).selected == old(self).selected,
            final(self).items == old(self).items,
            final(self).control == old(self).control,
    {
        self.dropped = show;
    }

    /// Maps `message` when it is this combo's selection change, given the
    /// index the native control now reports: the typed value goes to
    /// `on_select`. Returns `None` for any other message.
    pub fn selection_message<M>(&mut self, message: &Message, reported: Option<usize>) -> (r: Option<Option<M>>)
        where
            F: Fn(&T) -> Option<M>,
        requires
            old(self).events.on_select matches Some(f) ==> forall|v: &T| call_requires(f, (v,)),
        ensures
            !is_selection_change(*message, old(self).control.hwnd) ==> r is None && final(self).selected == old(self).selected,
            is_selection_change(*message, old(self).control.hwnd) ==> r is Some && final(self).selected == reported,
            is_selection_change(*message, old(self).control.hwnd) ==> match reported {
                Some(i) => if i < old(self).items.spec_items().len() {
                    match old(self).events.on_select {
                        Some(f) => call_ensures(f, (&old(self).items.spec_items()[i as int].value,), r->0),
                        None => r->0 is None,
                    }
                } else {
                    r->0 is None
                },
                None => r->0 is None,
            },
            final(self).items == old(self).items,
            final(self).control == old(self).control,
            final(self).events == old(self).events,
    {
        let r = selection_message(message, self.control.hwnd, reported, &self.items, &self.events);
        if r.is_some() {
            self.selected = reported;
        }
        r
    }
}

impl<T, F> AsControl for ComboBox<T, F> {
    open spec fn control_view(&self) -> Control {
        self.control
    }

    fn control(&self) -> (c: &Control) {
        &self.control
    }
}

} // verus!
