use vstd::prelude::*;

use crate::id::ViewId;
use floem_reactive::RwSignal;

verus! {

/// floem_reactive's reactive cell, carried through as an opaque handle.
#[verifier::external_type_specification]
#[verifier::external_body]
#[verifier::reject_recursive_types(T)]
pub struct ExRwSignal<T>(RwSignal<T>);

/// Relies on floem_reactive::create_rw_signal: makes a reactive cell that
/// starts out with no selection. Its value lives in the reactive runtime.
#[verifier::external_body]
fn new_selection_cell() -> (r: RwSignal<Option<usize>>) {
    floem_reactive::create_rw_signal(None)
}

/// Relies on floem_reactive::RwSignal::try_get_untracked: the cell's current
/// value, or `None` once the cell has been disposed. Does not subscribe.
#[verifier::external_body]
fn read_selection_cell(cell: &RwSignal<Option<usize>>) -> (r: Option<Option<usize>>) {
    cell.try_get_untracked()
}

/// Relies on floem_reactive::RwSignal::set: stores `value` in the cell, if the
/// cell still exists, and runs the effects that track it.
#[verifier::external_body]
fn write_selection_cell(cell: &RwSignal<Option<usize>>, value: Option<usize>) {
    cell.set(value)
}

/// The keys a list reacts to; every other key is `Other`.
#[derive(Clone, Copy, PartialEq, Eq, Structural, Debug)]
pub enum ListKey {
    Home,
    End,
    ArrowUp,
    ArrowDown,
    Enter,
    Other,
}

/// The messages a list queues to itself.
#[derive(Clone, Copy, PartialEq, Eq, Structural, Debug)]
pub enum ListUpdate {
    SelectionChanged,
    ScrollToSelected,
    Accept,
}

/// Whether an event handler consumed the event.
#[derive(Clone, Copy, PartialEq, Eq, Structural, Debug)]
pub enum EventPropagation {
    Stop,
    Continue,
}

/// What a list does in answer to an input: the selection it stores (if it
/// stores one), the message it queues to itself (if any), and whether the
/// event goes on to other handlers.
#[derive(Clone, Copy, PartialEq, Eq, Structural, Debug)]
pub struct ListReaction {
    pub select: Option<usize>,
    pub message: Option<ListUpdate>,
    pub propagation: EventPropagation,
}

/// The side effect a list performs when one of its messages is delivered.
#[derive(Clone, Copy, PartialEq, Eq, Structural, Debug)]
pub enum ListEffect {
    /// Recompute the style of the list and all of its items.
    RestyleAll,
    /// Scroll the item at this index into view.
    ScrollTo(usize),
    /// Hand this selection to the accept callback, if one is registered.
    Accept(Option<usize>),
    Nothing,
}

/// The selection that `key` stores in a list of `length` items whose
/// selection is `current`, or `None` when the key stores nothing.
pub open spec fn key_selection(key: ListKey, length: nat, current: Option<usize>) -> Option<nat> {
    match key {
        ListKey::Home => if length > 0 { Some(0) } else { None },
        ListKey::End => if length > 0 { Some((length - 1) as nat) } else { None },
        ListKey::ArrowUp => match current {
            Some(i) => if i > 0 { Some((i - 1) as nat) } else { None },
            None => if length > 0 { Some((length - 1) as nat) } else { None },
        },
        ListKey::ArrowDown => match current {
            Some(i) => if i + 1 < length { Some((i + 1) as nat) } else { None },
            None => if length > 0 { Some(0) } else { None },
        },
        _ => None,
    }
}

/// The full reaction of a list of `length` items, with selection `current`,
/// to a key press.
pub open spec fn key_reaction(key: ListKey, length: nat, current: Option<usize>) -> ListReaction {
    let sel = key_selection(key, length, current);
    ListReaction {
        select: match sel {
            Some(i) => Some(i as usize),
            None => None,
        },
        message: if key == ListKey::Enter {
            Some(ListUpdate::Accept)
        } else if sel is Some {
            Some(ListUpdate::ScrollToSelected)
        } else {
            None
        },
        propagation: if key == ListKey::Other {
            EventPropagation::Continue
        } else {
            EventPropagation::Stop
        },
    }
}

/// The reaction of a list with selection `current` to a click on the item
/// at `index`: a click on an item that is not selected selects it and
/// accepts; a click on the selected item does nothing more.
pub open spec fn click_reaction(index: usize, current: Option<usize>) -> ListReaction {
    if current == Some(index) {
        ListReaction { select: None, message: None, propagation: EventPropagation::Stop }
    } else {
        ListReaction {
            select: Some(index),
            message: Some(ListUpdate::Accept),
            propagation: EventPropagation::Stop,
        }
    }
}

/// The effect of delivering `message` to a list of `length` items whose
/// selection is `selection`.
pub open spec fn update_effect(message: ListUpdate, selection: Option<usize>, length: nat) -> ListEffect {
    match message {
        ListUpdate::SelectionChanged => ListEffect::RestyleAll,
        ListUpdate::ScrollToSelected => match selection {
            Some(i) => if i < length { ListEffect::ScrollTo(i) } else { ListEffect::Nothing },
            None => ListEffect::Nothing,
        },
        ListUpdate::Accept => ListEffect::Accept(selection),
    }
}

/// Decides how a list of `length` items with selection `current` reacts to
/// `key`: arrows move by one within the bounds, `Home` and `End` jump to the
/// bounds of a non-empty list, `Enter` always accepts.
pub fn navigate(key: ListKey, length: usize, current: Option<usize>) -> (r: ListReaction)
    ensures
        r == key_reaction(key, length as nat, current),
{
    let select: Option<usize> = match key {
        ListKey::Home => if length > 0 { Some(0) } else { None },
        ListKey::End => if length > 0 { Some(length - 1) } else { None },
        ListKey::ArrowUp => match current {
            Some(i) => if i > 0 { Some(i - 1) } else { None },
            None => if length > 0 { Some(length - 1) } else { None },
        },
        ListKey::ArrowDown => match current {
            Some(i) => if i < length && i + 1 < length { Some(i + 1) } else { None },
            None => if length > 0 { Some(0) } else { None },
        },
        _ => None,
    };
    let message = match key {
        ListKey::Enter => Some(ListUpdate::Accept),
        _ => if select.is_some() { Some(ListUpdate::ScrollToSelected) } else { None },
    };
    let propagation = match key {
        ListKey::Other => EventPropagation::Continue,
        _ => EventPropagation::Stop,
    };
    ListReaction { select, message, propagation }
}

/// Decides how a list with selection `current` reacts to a click on the
/// item at `index`.
pub fn click(index: usize, current: Option<usize>) -> (r: ListReaction)
    ensures
        r == click_reaction(index, current),
{
    if current == Some(index) {
        ListReaction { select: None, message: None, propagation: EventPropagation::Stop }
    } else {
        ListReaction {
            select: Some(index),
            message: Some(ListUpdate::Accept),
            propagation: EventPropagation::Stop,
        }
    }
}

/// Decides what a list of `length` items does when `message` is delivered
/// while its selection is `selection`.
pub fn effect_of(message: ListUpdate, selection: Option<usize>, length: usize) -> (r: ListEffect)
    ensures
        r == update_effect(message, selection, length as nat),
{
    match message {
        ListUpdate::SelectionChanged => ListEffect::RestyleAll,
        ListUpdate::ScrollToSelected => match selection {
            Some(i) => if i < length { ListEffect::ScrollTo(i) } else { ListEffect::Nothing },
            None => ListEffect::Nothing,
        },
        ListUpdate::Accept => ListEffect::Accept(selection),
    }
}

/// Whether the item at `index` is drawn as selected.
pub fn is_selected(index: usize, selection: Option<usize>) -> (r: bool)
    ensures
        r == (selection == Some(index)),
{
    selection == Some(index)
}

/// A list of `length` items that supports selecting one of them. The
/// selection is kept in a reactive cell; the messages the list queues to
/// itself only trigger side effects of a selection already stored.
pub struct List {
    pub id: ViewId,
    pub length: usize,
    pub selection: RwSignal<Option<usize>>,
}

impl List {
    /// The reactive cell that holds the selection.
    pub fn selection(&self) -> (r: RwSignal<Option<usize>>)
        ensures
            r == self.selection,
    {
        self.selection
    }

    /// Handles a key press and returns the reaction, after storing the new
    /// selection if the key sets one. `Home`, `End` and `Enter` do not depend
    /// on the current selection, and other keys pass through; only the
    /// arrows read the selection. An arrow on a disposed selection cell is
    /// consumed and does nothing.
    pub fn key_down(&self, key: ListKey) -> (r: ListReaction)
        ensures
            key != ListKey::ArrowUp && key != ListKey::ArrowDown ==> r == key_reaction(
                key,
                self.length as nat,
                None,
            ),
            key == ListKey::ArrowUp || key == ListKey::ArrowDown ==> r.propagation
                == EventPropagation::Stop && (r == (ListReaction {
                select: None,
                message: None,
                propagation: EventPropagation::Stop,
            }) || exists|current: Option<usize>| r == key_reaction(key, self.length as nat, current)),
    {
        let r = match key {
            ListKey::ArrowUp | ListKey::ArrowDown => match read_selection_cell(&self.selection) {
                Some(current) => navigate(key, self.length, current),
                None => ListReaction { select: None, message: None, propagation: EventPropagation::Stop },
            },
            _ => navigate(key, self.length, None),
        };
        if let Some(i) = r.select {
            write_selection_cell(&self.selection, Some(i));
        }
        r
    }

    /// Handles a click on the item at `index`. The click is always consumed;
    /// on a disposed selection cell it does nothing more.
    pub fn item_clicked(&self, index: usize) -> (r: ListReaction)
        ensures
            r.propagation == EventPropagation::Stop,
            r == (ListReaction { select: None, message: None, propagation: EventPropagation::Stop })
                || exists|current: Option<usize>| r == click_reaction(index, current),
    {
        match read_selection_cell(&self.selection) {
            Some(current) => {
                let r = click(index, current);
                if let Some(i) = r.select {
                    write_selection_cell(&self.selection, Some(i));
                }
                r
            },
            None => ListReaction { select: None, message: None, propagation: EventPropagation::Stop },
        }
    }

    /// Handles a delivered message: reads the selection and decides the
    /// effect. A disposed selection cell counts as no selection.
    pub fn update(&self, message: ListUpdate) -> (r: ListEffect)
        ensures
            exists|selection: Option<usize>| r == update_effect(message, selection, self.length as nat),
            message == ListUpdate::SelectionChanged ==> r == ListEffect::RestyleAll,
    {
        let selection = match read_selection_cell(&self.selection) {
            Some(s) => s,
            None => None,
        };
        effect_of(message, selection, self.length)
    }
}

/// A list named `id` over `length` items, with no selection.
pub fn list(id: ViewId, length: usize) -> (r: List)
    ensures
        r.id == id,
        r.length == length,
{
    List { id, length, selection: new_selection_cell() }
}

} // verus!
