//! The list view's decoded notifications.

use vstd::prelude::*;

use crate::controls::listview::state::{is_normalized_selection, ListViewState};
use crate::message::{Key, Modifiers};

verus! {

/// An event from the list view, delivered to the parent window.
#[derive(Clone, Copy, Debug, PartialEq, Eq, Structural)]
pub enum ListViewEvent {
    /// The selection changed.
    ItemChanged { item: i32, selected: bool },
    /// An owner-data range changed its selection state.
    SelectionChanged { from: i32, to: i32 },
    /// A row was clicked (`-1` for empty space).
    Click { item: i32 },
    /// A row was double-clicked.
    DoubleClick { item: i32 },
    /// A row was right-clicked.
    RightClick { item: i32 },
    /// Enter was pressed on the focused row.
    ReturnKey { item: i32 },
    /// A column header was clicked.
    ColumnClick { column: i32 },
    /// A key was pressed while the list had focus.
    KeyDown { key: u16, modifiers: Modifiers },
}

/// What a list view notification asks of the app.
#[derive(Clone, Copy, Debug, PartialEq, Eq, Structural)]
pub enum ListViewAction {
    /// The selection may have moved: read it and report it if it did.
    Selection,
    /// A row was activated (double-click or Enter).
    Activate(usize),
    /// A row was right-clicked.
    Context(usize),
    /// A column header was clicked.
    Sort(usize),
    /// A key was pressed while the list had focus.
    Key(Key, Modifiers),
    /// Nothing for the app.
    Ignore,
}

/// The action `event` maps to: both selection notifications funnel into one
/// selection read, activation, context and sort need a row or column that is
/// not negative, and every key press is passed on.
pub open spec fn route_spec(event: ListViewEvent) -> ListViewAction {
    match event {
        ListViewEvent::SelectionChanged { .. } => ListViewAction::Selection,
        ListViewEvent::ItemChanged { .. } => ListViewAction::Selection,
        ListViewEvent::DoubleClick { item } => if item >= 0 {
            ListViewAction::Activate(item as usize)
        } else {
            ListViewAction::Ignore
        },
        ListViewEvent::ReturnKey { item } => if item >= 0 {
            ListViewAction::Activate(item as usize)
        } else {
            ListViewAction::Ignore
        },
        ListViewEvent::RightClick { item } => if item >= 0 {
            ListViewAction::Context(item as usize)
        } else {
            ListViewAction::Ignore
        },
        ListViewEvent::ColumnClick { column } => if column >= 0 {
            ListViewAction::Sort(column as usize)
        } else {
            ListViewAction::Ignore
        },
        ListViewEvent::KeyDown { key, modifiers } => ListViewAction::Key(Key(key), modifiers),
        ListViewEvent::Click { .. } => ListViewAction::Ignore,
    }
}

/// Enter on a row activates it exactly as a double-click does; a right-click
/// asks for that row's context menu instead; the action always names the
/// row the event came from, and an event outside the rows (a negative item)
/// asks for nothing.
pub proof fn lemma_row_events_route_to_their_row(item: i32)
    ensures
        route_spec(ListViewEvent::ReturnKey { item }) == route_spec(ListViewEvent::DoubleClick { item }),
        item >= 0 ==> route_spec(ListViewEvent::DoubleClick { item }) == ListViewAction::Activate(item as usize),
        item >= 0 ==> route_spec(ListViewEvent::RightClick { item }) == ListViewAction::Context(item as usize),
        route_spec(ListViewEvent::RightClick { item }) != route_spec(ListViewEvent::DoubleClick { item }) || item < 0,
        item < 0 ==> {
            &&& route_spec(ListViewEvent::DoubleClick { item }) == ListViewAction::Ignore
            &&& route_spec(ListViewEvent::ReturnKey { item }) == ListViewAction::Ignore
            &&& route_spec(ListViewEvent::RightClick { item }) == ListViewAction::Ignore
        },
        route_spec(ListViewEvent::Click { item }) == ListViewAction::Ignore,
{
}

/// The action `event` maps to.
pub fn route_event(event: ListViewEvent) -> (action: ListViewAction)
    ensures
        action == route_spec(event),
{
    match event {
        ListViewEvent::SelectionChanged { .. } => ListViewAction::Selection,
        ListViewEvent::ItemChanged { .. } => ListViewAction::Selection,
        ListViewEvent::DoubleClick { item } => if item >= 0 {
            ListViewAction::Activate(item as usize)
        } else {
            ListViewAction::Ignore
        },
        ListViewEvent::ReturnKey { item } => if item >= 0 {
            ListViewAction::Activate(item as usize)
        } else {
            ListViewAction::Ignore
        },
        ListViewEvent::RightClick { item } => if item >= 0 {
            ListViewAction::Context(item as usize)
        } else {
            ListViewAction::Ignore
        },
        ListViewEvent::ColumnClick { column } => if column >= 0 {
            ListViewAction::Sort(column as usize)
        } else {
            ListViewAction::Ignore
        },
        ListViewEvent::KeyDown { key, modifiers } => ListViewAction::Key(Key::from_code(key), modifiers),
        ListViewEvent::Click { .. } => ListViewAction::Ignore,
    }
}

/// The app-level events a list view maps to the app's message.
pub struct ListViewEvents<S, A, C, O, K> {
    /// Maps the whole selection, ascending, to a message.
    pub on_select: Option<S>,
    /// Maps an activated row to a message.
    pub on_activate: Option<A>,
    /// Maps a right-clicked row to a message.
    pub on_context: Option<C>,
    /// Maps a clicked column header to a message.
    pub on_sort: Option<O>,
    /// Maps a key press and its modifiers to a message.
    pub on_key: Option<K>,
}

impl<S, A, C, O, K> ListViewEvents<S, A, C, O, K> {
    /// No mapping installed.
    pub fn new() -> (e: ListViewEvents<S, A, C, O, K>)
        ensures
            e.on_select is None,
            e.on_activate is None,
            e.on_context is None,
            e.on_sort is None,
            e.on_key is None,
    {
        ListViewEvents { on_select: None, on_activate: None, on_context: None, on_sort: None, on_key: None }
    }
}

/// The app's message for a reported selection `rows`, through `on_select`.
pub fn selection_message<M, S: Fn(&[usize]) -> Option<M>, A, C, O, K>(
    events: &ListViewEvents<S, A, C, O, K>,
    rows: &Vec<usize>,
) -> (msg: Option<M>)
    requires
        events.on_select matches Some(f) ==> forall|r: &[usize]| call_requires(f, (r,)),
    ensures
        match events.on_select {
            Some(f) => exists|slice: &[usize]| slice@ == rows@ && #[trigger] call_ensures(f, (slice,), msg),
            None => msg is None,
        },
{
    match &events.on_select {
        Some(f) => {
            let slice = rows.as_slice();
            let msg = f(slice);
            assert(slice@ == rows@ && call_ensures(*f, (slice,), msg));
            msg
        },
        None => None,
    }
}

/// Ends a programmatic selection change begun with
/// [`ListViewState::begin_selection`], once the rows were applied to the
/// control: reports are unmuted and the new selection is mapped through
/// `on_select` exactly once.
pub fn finish_selection<M, S: Fn(&[usize]) -> Option<M>, A, C, O, K>(
    state: &mut ListViewState,
    events: &ListViewEvents<S, A, C, O, K>,
) -> (msg: Option<M>)
    requires
        events.on_select matches Some(f) ==> forall|r: &[usize]| call_requires(f, (r,)),
    ensures
        !final(state).selection_muted,
        final(state).last_selection@ == old(state).last_selection@,
        final(state).row_count == old(state).row_count,
        final(state).columns@ == old(state).columns@,
        match events.on_select {
            Some(f) => exists|slice: &[usize]| slice@ == old(state).last_selection@ && #[trigger] call_ensures(f, (slice,), msg),
            None => msg is None,
        },
{
    state.mute_selection(false);
    selection_message(events, &state.last_selection)
}

/// Whether `msg` is what the app's `on_select` makes of `rows`: one call
/// with them, or nothing without the closure.
pub open spec fn reports<M, S: Fn(&[usize]) -> Option<M>, A, C, O, K>(
    events: ListViewEvents<S, A, C, O, K>,
    rows: Seq<usize>,
    msg: Option<M>,
) -> bool {
    match events.on_select {
        Some(f) => exists|slice: &[usize]| slice@ == rows && #[trigger] call_ensures(f, (slice,), msg),
        None => msg is None,
    }
}

/// One step of a programmatic selection change.
pub enum SelectionEvent {
    /// The app asks for `rows` while the control shows `current`.
    Request { rows: Vec<usize>, current: Vec<usize> },
    /// The control applied the rows asked for; `notifications` are the
    /// selections its per-item change notifications reported meanwhile, in
    /// order.
    Applied { notifications: Vec<Vec<usize>> },
}

/// What the host does after a step of a programmatic selection change.
pub enum SelectionAction<M> {
    /// Nothing: the selection already matches, and nothing is reported.
    Nothing,
    /// Apply these rows to the control, focusing the first, then hand the
    /// outcome back as [`SelectionEvent::Applied`].
    Apply(Vec<usize>),
    /// The change is done: raise this message, if any, the one report of it.
    Report(Option<M>),
}

/// What one step of a programmatic selection change does: `before` and
/// `after` are the list's state around it and `action` what the host does
/// next.
pub open spec fn selection_step_spec<M, S: Fn(&[usize]) -> Option<M>, A, C, O, K>(
    before: ListViewState,
    events: ListViewEvents<S, A, C, O, K>,
    event: SelectionEvent,
    after: ListViewState,
    action: SelectionAction<M>,
) -> bool {
    &&& after.row_count == before.row_count
    &&& after.columns@ == before.columns@
    &&& match event {
        SelectionEvent::Request { rows, current } => {
            &&& is_normalized_selection(after.last_selection@, rows@, before.row_count)
            &&& after.last_selection@ == current@ ==> action is Nothing
                && after.selection_muted == before.selection_muted
            &&& after.last_selection@ != current@ ==> (action matches SelectionAction::Apply(next)
                && next@ == after.last_selection@)
                && after.selection_muted
        },
        SelectionEvent::Applied { .. } => {
            &&& after.last_selection@ == before.last_selection@
            &&& !after.selection_muted
            &&& action matches SelectionAction::Report(msg) && reports(events, before.last_selection@, msg)
        },
    }
}

/// A programmatic selection change, one step at a time. Asked for `rows`,
/// the list drops out-of-range and duplicate rows and sorts the rest; when
/// that matches what the control shows nothing happens, otherwise the rows
/// are to be applied with selection reports muted. Once they are applied,
/// the per-item notifications the control sent meanwhile report nothing,
/// the reports are unmuted and the new selection goes through `on_select`
/// exactly once. So a change is reported once if and only if the selection
/// changed, and calling this from an `on_select` handler for the same rows
/// cannot loop.
pub fn selection_step<M, S: Fn(&[usize]) -> Option<M>, A, C, O, K>(
    state: &mut ListViewState,
    events: &ListViewEvents<S, A, C, O, K>,
    event: SelectionEvent,
) -> (action: SelectionAction<M>)
    requires
        events.on_select matches Some(f) ==> forall|r: &[usize]| call_requires(f, (r,)),
        event is Applied ==> old(state).selection_muted,
    ensures
        selection_step_spec(*old(state), *events, event, *final(state), action),
{
    match event {
        SelectionEvent::Request { rows, current } => match state.begin_selection(&rows, &current) {
            Some(next) => SelectionAction::Apply(next),
            None => SelectionAction::Nothing,
        },
        SelectionEvent::Applied { notifications } => {
            let ghost before = *state;
            let mut i: usize = 0;
            while i < notifications.len()
                invariant
                    i <= notifications@.len(),
                    state.selection_muted,
                    state.last_selection@ == before.last_selection@,
                    state.row_count == before.row_count,
                    state.columns@ == before.columns@,
                decreases notifications@.len() - i,
            {
                let reported = state.selection_report(notifications[i].clone());
                assert(reported is None);
                i = i + 1;
            }
            SelectionAction::Report(finish_selection(state, events))
        },
    }
}

/// The app's message for every action but a selection read, through the
/// matching closure; `None` for a selection, an ignored event or a missing
/// closure.
pub fn action_message<M, S, A: Fn(usize) -> Option<M>, C: Fn(usize) -> Option<M>, O: Fn(usize) -> Option<M>, K: Fn(Key, Modifiers) -> Option<M>>(
    events: &ListViewEvents<S, A, C, O, K>,
    action: ListViewAction,
) -> (msg: Option<M>)
    requires
        events.on_activate matches Some(f) ==> forall|i: usize| call_requires(f, (i,)),
        events.on_context matches Some(f) ==> forall|i: usize| call_requires(f, (i,)),
        events.on_sort matches Some(f) ==> forall|i: usize| call_requires(f, (i,)),
        events.on_key matches Some(f) ==> forall|k: Key, m: Modifiers| call_requires(f, (k, m)),
    ensures
        match action {
            ListViewAction::Activate(row) => match events.on_activate {
                Some(f) => call_ensures(f, (row,), msg),
                None => msg is None,
            },
            ListViewAction::Context(row) => match events.on_context {
                Some(f) => call_ensures(f, (row,), msg),
                None => msg is None,
            },
            ListViewAction::Sort(column) => match events.on_sort {
                Some(f) => call_ensures(f, (column,), msg),
                None => msg is None,
            },
            ListViewAction::Key(key, modifiers) => match events.on_key {
                Some(f) => call_ensures(f, (key, modifiers), msg),
                None => msg is None,
            },
            _ => msg is None,
        },
{
    match action {
        ListViewAction::Activate(row) => match &events.on_activate {
            Some(f) => f(row),
            None => None,
        },
        ListViewAction::Context(row) => match &events.on_context {
            Some(f) => f(row),
            None => None,
        },
        ListViewAction::Sort(column) => match &events.on_sort {
            Some(f) => f(column),
            None => None,
        },
        ListViewAction::Key(key, modifiers) => match &events.on_key {
            Some(f) => f(key, modifiers),
            None => None,
        },
        _ => None,
    }
}


/// A programmatic selection change is reported once exactly when the
/// selection changed: asked for rows that, normalised, match what the
/// control shows, the list applies and reports nothing; otherwise it asks
/// for the normalised rows to be applied and, once they are, reports them
/// through `on_select` exactly once, with its reports unmuted again.
pub proof fn lemma_selection_reported_once_iff_changed<M, S: Fn(&[usize]) -> Option<M>, A, C, O, K>(
    events: ListViewEvents<S, A, C, O, K>,
    s0: ListViewState,
    rows: Vec<usize>,
    current: Vec<usize>,
    s1: ListViewState,
    a1: SelectionAction<M>,
    notifications: Vec<Vec<usize>>,
    s2: ListViewState,
    a2: SelectionAction<M>,
)
    requires
        selection_step_spec(s0, events, SelectionEvent::Request { rows, current }, s1, a1),
        a1 is Apply ==> selection_step_spec(s1, events, SelectionEvent::Applied { notifications }, s2, a2),
    ensures
        is_normalized_selection(s1.last_selection@, rows@, s0.row_count),
        a1 is Apply <==> s1.last_selection@ != current@,
        a1 is Nothing <==> s1.last_selection@ == current@,
        a1 is Apply ==> {
            &&& a2 matches SelectionAction::Report(msg) && reports(events, s1.last_selection@, msg)
            &&& s2.last_selection@ == s1.last_selection@
            &&& !s2.selection_muted
        },
{
}

} // verus!
