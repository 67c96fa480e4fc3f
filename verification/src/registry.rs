//! The frame source registry: every pet that can be shown, found by position
//! or by name.

use vstd::prelude::*;
use crate::frames::{AnimationSet, Pet, PetView};
use crate::selection::Selection;
use crate::text::same_text;
use crate::theme::Theme;

verus! {

/// Whether every pet of `pets` has a frame to show, and as many in one theme
/// as in the other.
pub open spec fn all_wf(pets: Seq<PetView>) -> bool {
    forall|i: int| 0 <= i < pets.len() ==> (#[trigger] pets[i]).wf()
}

/// Whether `selection` names a pet of `pets`.
pub open spec fn known(pets: Seq<PetView>, selection: Selection) -> bool {
    0 <= selection.pet < pets.len()
}

/// Whether `index` is the first position in `pets` of a pet called `name`.
pub open spec fn first_named(pets: Seq<PetView>, name: Seq<char>, index: int) -> bool {
    &&& 0 <= index < pets.len()
    &&& pets[index].name == name
    &&& forall|j: int| 0 <= j < index ==> (#[trigger] pets[j]).name != name
}

/// Whether no pet of `pets` is called `name`.
pub open spec fn none_named(pets: Seq<PetView>, name: Seq<char>) -> bool {
    forall|j: int| 0 <= j < pets.len() ==> (#[trigger] pets[j]).name != name
}

/// The pets that can be shown, in the order in which they were added. A pet
/// is identified by its position. The view is the sequence of the pets' views.
#[derive(Debug)]
pub struct FrameRegistry {
    pets: Vec<Pet>,
}

impl View for FrameRegistry {
    type V = Seq<PetView>;

    closed spec fn view(&self) -> Seq<PetView> {
        Seq::new(self.pets@.len(), |i: int| self.pets@[i]@)
    }
}

impl FrameRegistry {
    /// Whether every pet in the registry is well-formed.
    pub open spec fn wf(&self) -> bool {
        all_wf(self@)
    }

    /// Whether `pet` identifies a pet of this registry.
    pub open spec fn knows(&self, pet: usize) -> bool {
        pet < self@.len()
    }

    /// A registry without pets.
    pub fn new() -> (registry: FrameRegistry)
        ensures
            registry.wf(),
            registry@ == Seq::<PetView>::empty(),
    {
        FrameRegistry { pets: Vec::new() }
    }

    /// Adds `pet` behind the pets that are there.
    pub fn add(&mut self, pet: Pet)
        requires
            old(self).wf(),
            pet.wf(),
        ensures
            final(self).wf(),
            final(self)@ == old(self)@.push(pet@),
    {
        self.pets.push(pet);
    }

    /// The number of pets.
    pub fn len(&self) -> (n: usize)
        ensures
            n == self@.len(),
    {
        self.pets.len()
    }

    /// Whether `pet` identifies a pet of this registry.
    pub fn contains(&self, pet: usize) -> (known: bool)
        ensures
            known == self.knows(pet),
    {
        pet < self.pets.len()
    }

    /// The pet at position `pet`.
    pub fn pet(&self, pet: usize) -> (found: &Pet)
        requires
            self.wf(),
            self.knows(pet),
        ensures
            found.wf(),
            found@ == self@[pet as int],
    {
        assert(self@[pet as int].wf());
        &self.pets[pet]
    }

    /// The animation set of the pet at position `pet` in `theme`.
    ///
    /// A position that the registry does not know is a fault of the caller.
    pub fn resolve(&self, pet: usize, theme: Theme) -> (set: &AnimationSet)
        requires
            self.wf(),
            self.knows(pet),
        ensures
            set.wf(),
            set@ == self@[pet as int].frames(theme),
    {
        self.pet(pet).frames(theme)
    }

    /// The position of the first pet called `name`, if there is one.
    pub fn find(&self, name: &str) -> (found: Option<usize>)
        ensures
            match found {
                Some(index) => first_named(self@, name@, index as int),
                None => none_named(self@, name@),
            },
    {
        let n: usize = self.pets.len();
        let mut i: usize = 0;
        while i < n
            invariant
                n == self.pets@.len(),
                i <= n,
                forall|j: int| 0 <= j < i ==> (#[trigger] self@[j]).name != name@,
            decreases n - i,
        {
            if same_text(self.pets[i].name(), name) {
                return Some(i);
            }
            i = i + 1;
        }
        None
    }
}

} // verus!
