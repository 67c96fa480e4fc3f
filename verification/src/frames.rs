//! Frames, the animation sets they form, and the pets that own one set for
//! each theme.

use vstd::prelude::*;
use crate::theme::Theme;

verus! {

/// A reference to one icon image that the display can load: the place where
/// the image is kept. The view is that place, as text.
#[derive(Debug, PartialEq, Eq)]
pub struct FrameHandle {
    path: String,
}

impl View for FrameHandle {
    type V = Seq<char>;

    closed spec fn view(&self) -> Seq<char> {
        self.path@
    }
}

impl Clone for FrameHandle {
    fn clone(&self) -> (copy: FrameHandle)
        ensures
            copy@ == self@,
    {
        FrameHandle { path: self.path.clone() }
    }
}

impl FrameHandle {
    /// The handle of the image kept at `path`.
    pub fn new(path: String) -> (handle: FrameHandle)
        ensures
            handle@ == path@,
    {
        FrameHandle { path }
    }

    /// The place where the image is kept.
    pub fn path(&self) -> (path: &str)
        ensures
            path@ == self@,
    {
        self.path.as_str()
    }
}

/// The frames of one pet in one theme, in the order in which they are shown,
/// over and over. The view is the sequence of the frames' places.
///
/// A well-formed set has at least one frame.
#[derive(Debug)]
pub struct AnimationSet {
    frames: Vec<FrameHandle>,
}

impl View for AnimationSet {
    type V = Seq<Seq<char>>;

    closed spec fn view(&self) -> Seq<Seq<char>> {
        Seq::new(self.frames@.len(), |i: int| self.frames@[i]@)
    }
}

/// The places of `frames`, in order.
pub open spec fn places_of(frames: Seq<FrameHandle>) -> Seq<Seq<char>> {
    Seq::new(frames.len(), |i: int| frames[i]@)
}

impl AnimationSet {
    /// Whether the set has a frame to show.
    pub open spec fn wf(&self) -> bool {
        self@.len() > 0
    }

    /// The set of `frames`, or nothing where there is no frame.
    pub fn new(frames: Vec<FrameHandle>) -> (set: Option<AnimationSet>)
        ensures
            match set {
                Some(s) => s.wf() && s@ == places_of(frames@),
                None => frames@.len() == 0,
            },
    {
        if frames.len() == 0 {
            None
        } else {
            Some(AnimationSet { frames })
        }
    }

    /// The number of frames.
    pub fn len(&self) -> (n: usize)
        ensures
            n == self@.len(),
    {
        self.frames.len()
    }

    /// The frame at `index`.
    pub fn frame(&self, index: usize) -> (handle: &FrameHandle)
        requires
            index < self@.len(),
        ensures
            handle@ == self@[index as int],
    {
        &self.frames[index]
    }
}

/// What a pet is to the contracts: its name and, for each theme, the places
/// of its frames.
pub ghost struct PetView {
    pub name: Seq<char>,
    pub dark: Seq<Seq<char>>,
    pub light: Seq<Seq<char>>,
}

impl PetView {
    /// The places of the frames for `theme`.
    pub open spec fn frames(self, theme: Theme) -> Seq<Seq<char>> {
        match theme {
            Theme::Dark => self.dark,
            Theme::Light => self.light,
        }
    }

    /// A pet has a frame to show, and as many frames in one theme as in the
    /// other.
    pub open spec fn wf(self) -> bool {
        self.dark.len() > 0 && self.dark.len() == self.light.len()
    }
}

/// A pet: a name and one animation set for each theme.
#[derive(Debug)]
pub struct Pet {
    name: String,
    dark: AnimationSet,
    light: AnimationSet,
}

impl View for Pet {
    type V = PetView;

    closed spec fn view(&self) -> PetView {
        PetView { name: self.name@, dark: self.dark@, light: self.light@ }
    }
}

impl Pet {
    /// Whether the pet has a frame to show, and as many in one theme as in
    /// the other.
    pub open spec fn wf(&self) -> bool {
        self@.wf()
    }

    /// The pet called `name` with the frames `dark` and `light`, or nothing
    /// where the two sets differ in length.
    pub fn new(name: String, dark: AnimationSet, light: AnimationSet) -> (pet: Option<Pet>)
        requires
            dark.wf(),
            light.wf(),
        ensures
            match pet {
                Some(p) => p.wf() && p@ == (PetView { name: name@, dark: dark@, light: light@ }),
                None => dark@.len() != light@.len(),
            },
    {
        if dark.len() != light.len() {
            None
        } else {
            Some(Pet { name, dark, light })
        }
    }

    /// The pet's name.
    pub fn name(&self) -> (name: &str)
        ensures
            name@ == self@.name,
    {
        self.name.as_str()
    }

    /// The animation set for `theme`.
    pub fn frames(&self, theme: Theme) -> (set: &AnimationSet)
        requires
            self.wf(),
        ensures
            set.wf(),
            set@ == self@.frames(theme),
    {
        match theme {
            Theme::Dark => &self.dark,
            Theme::Light => &self.light,
        }
    }

    /// The number of frames in either theme.
    pub fn frame_count(&self) -> (n: usize)
        requires
            self.wf(),
        ensures
            n > 0,
            n == self@.dark.len(),
            n == self@.light.len(),
    {
        self.dark.len()
    }
}

} // verus!
