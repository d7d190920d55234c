//! Which entity is selected: at most one at a time.

use vstd::prelude::*;

verus! {

/// What the query for the selected entity found, entities given by their bits.
#[derive(Debug, Copy, Clone, PartialEq, Eq, Structural)]
pub enum SelectedLookup {
    One(u64),
    NoEntities,
    MultipleEntities,
}

/// What becomes of the selection when a selection event arrives.
#[derive(Debug, Copy, Clone, PartialEq, Eq, Structural)]
pub enum SelectionChange {
    /// Leave the selection as it is.
    Unchanged,
    /// Move the selection from one entity to another.
    Move { from: u64, to: u64 },
    /// Deselect the entity.
    Deselect(u64),
    /// Select the entity.
    Select(u64),
    /// More than one entity is selected, which is an error.
    ReportMultiple,
}

/// The change that a selection event makes.
pub open spec fn selection_change_spec(current: SelectedLookup, new_selection: Option<u64>) -> SelectionChange {
    match (current, new_selection) {
        (SelectedLookup::One(old), Some(new)) => if old != new {
            SelectionChange::Move { from: old, to: new }
        } else {
            SelectionChange::Unchanged
        },
        (SelectedLookup::One(old), None) => SelectionChange::Deselect(old),
        (SelectedLookup::NoEntities, Some(new)) => SelectionChange::Select(new),
        (SelectedLookup::MultipleEntities, _) => SelectionChange::ReportMultiple,
        (SelectedLookup::NoEntities, None) => SelectionChange::Unchanged,
    }
}

/// Decides how the newest selection event changes the selection.
pub fn selection_change(current: SelectedLookup, new_selection: Option<u64>) -> (r: SelectionChange)
    ensures
        r == selection_change_spec(current, new_selection),
{
    match (current, new_selection) {
        (SelectedLookup::One(old), Some(new)) => {
            if old != new {
                SelectionChange::Move { from: old, to: new }
            } else {
                SelectionChange::Unchanged
            }
        },
        (SelectedLookup::One(old), None) => SelectionChange::Deselect(old),
        (SelectedLookup::NoEntities, Some(new)) => SelectionChange::Select(new),
        (SelectedLookup::MultipleEntities, _) => SelectionChange::ReportMultiple,
        (SelectedLookup::NoEntities, None) => SelectionChange::Unchanged,
    }
}

/// The entity that is selected after a change, where one was found before.
pub open spec fn selected_after(current: SelectedLookup, change: SelectionChange) -> Option<u64> {
    match change {
        SelectionChange::Unchanged => match current {
            SelectedLookup::One(e) => Some(e),
            _ => None,
        },
        SelectionChange::Move { to, .. } => Some(to),
        SelectionChange::Deselect(_) => None,
        SelectionChange::Select(e) => Some(e),
        SelectionChange::ReportMultiple => None,
    }
}

/// A selection event is obeyed: unless more than one entity was selected, after the
/// change exactly the requested entity is selected, or none when none was asked for.
pub proof fn lemma_selection_follows_event(current: SelectedLookup, new_selection: Option<u64>)
    requires
        current != SelectedLookup::MultipleEntities,
    ensures
        selected_after(current, selection_change_spec(current, new_selection)) == new_selection,
{
}

} // verus!
