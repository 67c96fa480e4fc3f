//! The selection: which pet is shown, and in which theme.

use vstd::prelude::*;
use crate::theme::Theme;

verus! {

/// What a selection is to the contracts: the position of the pet in the
/// registry, and the theme.
pub ghost struct Selection {
    pub pet: int,
    pub theme: Theme,
}

/// The record of which pet is shown and in which theme. The menu writes it,
/// the scheduler reads it. The two fields are independent: a write to one
/// leaves the other as it was, and the last write to a field is what a read
/// of it gives.
#[derive(Clone, Copy, Debug, PartialEq, Eq, Structural)]
pub struct SelectionState {
    pet: usize,
    theme: Theme,
}

impl View for SelectionState {
    type V = Selection;

    closed spec fn view(&self) -> Selection {
        Selection { pet: self.pet as int, theme: self.theme }
    }
}

impl SelectionState {
    /// The selection of the pet at position `pet` in `theme`.
    pub fn new(pet: usize, theme: Theme) -> (state: SelectionState)
        ensures
            state@ == (Selection { pet: pet as int, theme }),
    {
        SelectionState { pet, theme }
    }

    /// The selection at start-up: the first pet of the registry, in the theme
    /// that was found for the platform.
    pub fn initial(theme: Theme) -> (state: SelectionState)
        ensures
            state@ == (Selection { pet: 0, theme }),
    {
        SelectionState { pet: 0, theme }
    }

    /// Selects the pet at position `pet`; the theme stays.
    pub fn set_pet(&mut self, pet: usize)
        ensures
            final(self)@ == old(self)@.with_pet(pet as int),
    {
        self.pet = pet;
    }

    /// Selects `theme`; the pet stays.
    pub fn set_theme(&mut self, theme: Theme)
        ensures
            final(self)@ == old(self)@.with_theme(theme),
    {
        self.theme = theme;
    }

    /// The selected pet and theme.
    pub fn get(&self) -> (selected: (usize, Theme))
        ensures
            selected.0 == self@.pet,
            selected.1 == self@.theme,
    {
        (self.pet, self.theme)
    }

    /// The position of the selected pet.
    pub fn pet(&self) -> (pet: usize)
        ensures
            pet == self@.pet,
    {
        self.pet
    }

    /// The selected theme.
    pub fn theme(&self) -> (theme: Theme)
        ensures
            theme == self@.theme,
    {
        self.theme
    }

    /// Whether `self` and `other` select the same pet in the same theme.
    pub fn same_as(&self, other: &SelectionState) -> (same: bool)
        ensures
            same == (self@ == other@),
    {
        self.pet == other.pet && self.theme == other.theme
    }
}

/// One write to the selection.
pub ghost enum Write {
    Pet(int),
    Theme(Theme),
}

impl Selection {
    /// This selection with the pet replaced.
    pub open spec fn with_pet(self, pet: int) -> Selection {
        Selection { pet, theme: self.theme }
    }

    /// This selection with the theme replaced.
    pub open spec fn with_theme(self, theme: Theme) -> Selection {
        Selection { pet: self.pet, theme }
    }

    /// This selection after `write`.
    pub open spec fn after(self, write: Write) -> Selection {
        match write {
            Write::Pet(pet) => self.with_pet(pet),
            Write::Theme(theme) => self.with_theme(theme),
        }
    }

    /// This selection after `writes`, applied one after the other.
    pub open spec fn after_all(self, writes: Seq<Write>) -> Selection
        decreases writes.len(),
    {
        if writes.len() == 0 {
            self
        } else {
            self.after_all(writes.drop_last()).after(writes.last())
        }
    }
}

/// The pet of the last write to the pet among `writes`, or `initial` where
/// there is none.
pub open spec fn last_pet(initial: int, writes: Seq<Write>) -> int
    decreases writes.len(),
{
    if writes.len() == 0 {
        initial
    } else {
        match writes.last() {
            Write::Pet(pet) => pet,
            Write::Theme(_) => last_pet(initial, writes.drop_last()),
        }
    }
}

/// The theme of the last write to the theme among `writes`, or `initial`
/// where there is none.
pub open spec fn last_theme(initial: Theme, writes: Seq<Write>) -> Theme
    decreases writes.len(),
{
    if writes.len() == 0 {
        initial
    } else {
        match writes.last() {
            Write::Theme(theme) => theme,
            Write::Pet(_) => last_theme(initial, writes.drop_last()),
        }
    }
}

/// Writes to the pet and writes to the theme, in whatever order they are
/// served, never mix: after them each field holds what the last write to
/// that field gave it, or its first value where nothing wrote to it.
pub proof fn lemma_last_writer_wins(initial: Selection, writes: Seq<Write>)
    ensures
        initial.after_all(writes).pet == last_pet(initial.pet, writes),
        initial.after_all(writes).theme == last_theme(initial.theme, writes),
    decreases writes.len(),
{
    if writes.len() > 0 {
        lemma_last_writer_wins(initial, writes.drop_last());
    }
}

/// A read never gives a value that nobody wrote: after any writes each field
/// holds its first value or the value of one of the writes to it.
pub proof fn lemma_read_was_written(initial: Selection, writes: Seq<Write>)
    ensures
        initial.after_all(writes).pet == initial.pet || exists|i: int|
            0 <= i < writes.len() && #[trigger] writes[i] == Write::Pet(
                initial.after_all(writes).pet,
            ),
        initial.after_all(writes).theme == initial.theme || exists|i: int|
            0 <= i < writes.len() && #[trigger] writes[i] == Write::Theme(
                initial.after_all(writes).theme,
            ),
    decreases writes.len(),
{
    if writes.len() > 0 {
        let before = writes.drop_last();
        lemma_read_was_written(initial, before);
        let mid = initial.after_all(before);
        // what an earlier write gave is still a write of the longer run
        if mid.pet != initial.pet {
            let at = choose|i: int| 0 <= i < before.len() && #[trigger] before[i] == Write::Pet(mid.pet);
            assert(writes[at] == Write::Pet(mid.pet));
        }
        if mid.theme != initial.theme {
            let at = choose|i: int|
                0 <= i < before.len() && #[trigger] before[i] == Write::Theme(mid.theme);
            assert(writes[at] == Write::Theme(mid.theme));
        }
        assert(writes[writes.len() - 1] == writes.last());
    }
}

} // verus!
