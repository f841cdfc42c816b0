//! The typed item list behind a combo box.
//!
//! The native control stores the labels (and reports selection as an index);
//! this maps that index back to the application's value type.

use vstd::prelude::*;
use vstd::std_specs::cmp::PartialEqSpec;

verus! {

/// One combo item: its display `label` and its typed `value`.
pub struct ComboBoxItem<T> {
    pub label: String,
    pub value: T,
}

/// The ordered items a combo box holds, looked up by index or by value.
pub struct ComboBoxItems<T> {
    items: Vec<ComboBoxItem<T>>,
}

/// Whether `i` is the first index of `items` whose value equals `value`.
pub open spec fn is_first_match<T: PartialEq>(items: Seq<ComboBoxItem<T>>, value: T, i: int) -> bool {
    &&& 0 <= i < items.len()
    &&& items[i].value.eq_spec(&value)
    &&& forall|j: int| 0 <= j < i ==> !(#[trigger] items[j].value).eq_spec(&value)
}

/// Whether no item's value equals `value`.
pub open spec fn has_no_match<T: PartialEq>(items: Seq<ComboBoxItem<T>>, value: T) -> bool {
    forall|j: int| 0 <= j < items.len() ==> !(#[trigger] items[j].value).eq_spec(&value)
}

impl<T> ComboBoxItems<T> {
    /// The items, in order.
    pub closed spec fn spec_items(&self) -> Seq<ComboBoxItem<T>> {
        self.items@
    }

    /// The items of `pairs`, in order.
    pub fn from_pairs(pairs: Vec<(String, T)>) -> (items: ComboBoxItems<T>)
        ensures
            items.spec_items().len() == pairs@.len(),
            forall|i: int| 0 <= i < pairs@.len() ==> {
                &&& (#[trigger] items.spec_items()[i]).label == pairs@[i].0
                &&& items.spec_items()[i].value == pairs@[i].1
            },
    {
        let mut pairs = pairs;
        let ghost original = pairs@;
        let mut reversed: Vec<ComboBoxItem<T>> = Vec::new();
        while pairs.len() > 0
            invariant
                pairs@.len() + reversed@.len() == original.len(),
                forall|i: int| 0 <= i < pairs@.len() ==> pairs@[i] == original[i],
                forall|k: int| 0 <= k < reversed@.len() ==> {
                    &&& (#[trigger] reversed@[k]).label == original[original.len() - 1 - k].0
                    &&& reversed@[k].value == original[original.len() - 1 - k].1
                },
            decreases pairs@.len(),
        {
            let (label, value) = pairs.pop().unwrap();
            reversed.push(ComboBoxItem { label, value });
        }
        let mut items: Vec<ComboBoxItem<T>> = Vec::new();
        while reversed.len() > 0
            invariant
                items@.len() + reversed@.len() == original.len(),
                forall|k: int| 0 <= k < reversed@.len() ==> {
                    &&& (#[trigger] reversed@[k]).label == original[original.len() - 1 - k].0
                    &&& reversed@[k].value == original[original.len() - 1 - k].1
                },
                forall|i: int| 0 <= i < items@.len() ==> {
                    &&& (#[trigger] items@[i]).label == original[i].0
                    &&& items@[i].value == original[i].1
                },
            decreases reversed@.len(),
        {
            let item = reversed.pop().unwrap();
            items.push(item);
        }
        ComboBoxItems { items }
    }

    /// The number of items.
    pub fn len(&self) -> (n: usize)
        ensures
            n == self.spec_items().len(),
    {
        self.items.len()
    }

    /// Whether there are no items.
    pub fn is_empty(&self) -> (b: bool)
        ensures
            b == (self.spec_items().len() == 0),
    {
        self.items.len() == 0
    }

    /// The display labels, in item order.
    pub fn labels(&self) -> (labels: Vec<&str>)
        ensures
            labels@.len() == self.spec_items().len(),
            forall|i: int| 0 <= i < labels@.len() ==> (#[trigger] labels@[i])@ == self.spec_items()[i].label@,
    {
        let mut labels: Vec<&str> = Vec::new();
        let mut i: usize = 0;
        while i < self.items.len()
            invariant
                i <= self.items@.len(),
                labels@.len() == i,
                forall|k: int| 0 <= k < i ==> (#[trigger] labels@[k])@ == self.items@[k].label@,
            decreases self.items@.len() - i,
        {
            labels.push(self.items[i].label.as_str());
            i = i + 1;
        }
        labels
    }

    /// The value at `index`, if it is in range.
    pub fn value(&self, index: usize) -> (v: Option<&T>)
        ensures
            index < self.spec_items().len() ==> v == Some(&self.spec_items()[index as int].value),
            index >= self.spec_items().len() ==> v is None,
    {
        if index < self.items.len() {
            Some(&self.items[index].value)
        } else {
            None
        }
    }

    /// The label at `index`, if it is in range.
    pub fn label(&self, index: usize) -> (l: Option<&str>)
        ensures
            index < self.spec_items().len() ==> (l matches Some(s) && s@ == self.spec_items()[index as int].label@),
            index >= self.spec_items().len() ==> l is None,
    {
        if index < self.items.len() {
            Some(self.items[index].label.as_str())
        } else {
            None
        }
    }
}

impl<T: PartialEq> ComboBoxItems<T> {
    /// The index of the first item whose value equals `value`, by `PartialEq`.
    pub fn position(&self, value: &T) -> (p: Option<usize>)
        requires
            T::obeys_eq_spec(),
        ensures
            p matches Some(i) ==> is_first_match(self.spec_items(), *value, i as int),
            p is None ==> has_no_match(self.spec_items(), *value),
    {
        let mut i: usize = 0;
        while i < self.items.len()
            invariant
                T::obeys_eq_spec(),
                i <= self.items@.len(),
                forall|j: int| 0 <= j < i ==> !(#[trigger] self.items@[j].value).eq_spec(value),
            decreases self.items@.len() - i,
        {
            if self.items[i].value.eq(value) {
                return Some(i);
            }
            i = i + 1;
        }
        None
    }
}

} // verus!
