//! The list view as an accessibility client reads it: only the rows in view
//! are listed, each named after its non-empty cells, and a client's action
//! on a listed row selects or activates it.

use vstd::prelude::*;

use crate::controls::edit_text::{chars_of, push_char};

verus! {

/// What an accessibility client asks of a node.
#[derive(Clone, Copy, Debug, PartialEq, Eq, Structural)]
pub enum AccessAction {
    /// Move the keyboard focus to it.
    Focus,
    /// Select it.
    Select,
    /// Activate it (the default action).
    Invoke,
    /// Anything else.
    Other,
}

/// What the list does for a client's action.
#[derive(Clone, Copy, Debug, PartialEq, Eq, Structural)]
pub enum AccessOutcome {
    /// Focus the list itself.
    FocusList,
    /// Make this row the selection.
    Select(usize),
    /// Activate this row.
    Invoke(usize),
    /// Refuse the action.
    Refused,
}

/// The outcome of `action` on the node at `path`, when the rows
/// `first..end` are the ones in view and listed: the list itself takes only
/// the focus, a listed row takes selection and activation.
pub open spec fn outcome_spec(path: Seq<usize>, action: AccessAction, first: usize, end: usize) -> AccessOutcome {
    if path.len() == 0 {
        if action == AccessAction::Focus {
            AccessOutcome::FocusList
        } else {
            AccessOutcome::Refused
        }
    } else if path.len() == 1 && first + path[0] < end {
        match action {
            AccessAction::Select => AccessOutcome::Select((first + path[0]) as usize),
            AccessAction::Invoke => AccessOutcome::Invoke((first + path[0]) as usize),
            _ => AccessOutcome::Refused,
        }
    } else {
        AccessOutcome::Refused
    }
}

/// The outcome of a client's `action` on the node at `path`.
pub fn access_outcome(path: &Vec<usize>, action: AccessAction, first: usize, end: usize) -> (o: AccessOutcome)
    ensures
        o == outcome_spec(path@, action, first, end),
{
    if path.len() == 0 {
        return match action {
            AccessAction::Focus => AccessOutcome::FocusList,
            _ => AccessOutcome::Refused,
        };
    }
    if path.len() != 1 {
        return AccessOutcome::Refused;
    }
    let index = path[0];
    if index >= end || first >= end - index {
        return AccessOutcome::Refused;
    }
    let row = first + index;
    match action {
        AccessAction::Select => AccessOutcome::Select(row),
        AccessAction::Invoke => AccessOutcome::Invoke(row),
        _ => AccessOutcome::Refused,
    }
}

/// The non-empty texts of `cells`, in order, joined by `", "`.
pub open spec fn joined(cells: Seq<Seq<char>>) -> Seq<char>
    decreases cells.len(),
{
    if cells.len() == 0 {
        seq![]
    } else {
        let rest = joined(cells.drop_last());
        let last = cells.last();
        if last.len() == 0 {
            rest
        } else if rest.len() == 0 {
            last
        } else {
            rest + seq![',', ' '] + last
        }
    }
}

/// The views of `cells`.
pub open spec fn views(cells: Seq<String>) -> Seq<Seq<char>> {
    cells.map_values(|c: String| c@)
}

/// A row's accessible name: its non-empty cells in column order, so a
/// screen reader announces the whole record.
pub fn row_name(cells: &Vec<String>) -> (name: String)
    ensures
        name@ == joined(views(cells@)),
{
    let mut name = String::new();
    let mut i: usize = 0;
    while i < cells.len()
        invariant
            i <= cells@.len(),
            name@ == joined(views(cells@.take(i as int))),
        decreases cells@.len() - i,
    {
        proof {
            let after = views(cells@.take(i as int + 1));
            assert(after.drop_last() =~= views(cells@.take(i as int)));
            assert(after.last() == cells@[i as int]@);
        }
        let text = chars_of(cells[i].as_str());
        if text.len() > 0 {
            if !name.as_str().is_empty() {
                push_char(&mut name, ',');
                push_char(&mut name, ' ');
            }
            let ghost before = name@;
            let mut k: usize = 0;
            while k < text.len()
                invariant
                    k <= text@.len(),
                    name@ == before + text@.take(k as int),
                decreases text@.len() - k,
            {
                push_char(&mut name, text[k]);
                assert(text@.take(k as int + 1) =~= text@.take(k as int).push(text@[k as int]));
                k = k + 1;
            }
            assert(text@.take(text@.len() as int) =~= text@);
        }
        proof {
            let after = views(cells@.take(i as int + 1));
            let rest = joined(views(cells@.take(i as int)));
            if cells@[i as int]@.len() > 0 && rest.len() > 0 {
                assert(name@ =~= rest + seq![',', ' '] + cells@[i as int]@);
            } else if cells@[i as int]@.len() > 0 {
                assert(name@ =~= cells@[i as int]@);
            }
        }
        i = i + 1;
    }
    assert(cells@.take(cells@.len() as int) =~= cells@);
    name
}

} // verus!
