//! From the files found in a pet's icon directory to the pet: which file is a
//! frame of which theme, and which directories give a pet that can be shown.

use vstd::prelude::*;
use vstd::string::StringExecFns;
use crate::frames::{places_of, AnimationSet, FrameHandle, Pet, PetView};
use crate::registry::{all_wf, FrameRegistry};
use crate::text::{contains_word, has_infix, same_text};
use crate::theme::Theme;

verus! {

/// The names of the pets whose icons are looked for, in the order in which
/// the pets are offered.
pub fn stock_pets() -> (names: Vec<&'static str>)
    ensures
        names@.len() == 3,
        names@[0]@ == "cat"@,
        names@[1]@ == "horse"@,
        names@[2]@ == "parrot"@,
{
    let mut names: Vec<&'static str> = Vec::new();
    names.push("cat");
    names.push("horse");
    names.push("parrot");
    names
}

/// The directory in which the icons of the pet called `name` are kept.
pub fn icon_dir(name: &str) -> (dir: String)
    ensures
        dir@ == "icons/"@ + name@,
{
    let mut dir: String = "icons/".to_owned();
    dir.append(name);
    dir
}

/// One entry of an icon directory: where it is kept, and the stem and the
/// extension of its file name where it has them.
#[derive(Debug)]
pub struct IconFile {
    pub path: String,
    pub stem: Option<String>,
    pub extension: Option<String>,
}

/// What an icon file is to the contracts.
pub ghost struct IconFileView {
    pub path: Seq<char>,
    pub stem: Option<Seq<char>>,
    pub extension: Option<Seq<char>>,
}

/// The text in `text`, if there is one.
pub open spec fn text_of(text: Option<String>) -> Option<Seq<char>> {
    match text {
        Some(t) => Some(t@),
        None => None,
    }
}

impl View for IconFile {
    type V = IconFileView;

    open spec fn view(&self) -> IconFileView {
        IconFileView {
            path: self.path@,
            stem: text_of(self.stem),
            extension: text_of(self.extension),
        }
    }
}

/// The views of `files`, in order.
pub open spec fn files_of(files: Seq<IconFile>) -> Seq<IconFileView> {
    Seq::new(files.len(), |i: int| files[i]@)
}

/// Whether a file with this extension holds an icon.
pub open spec fn is_icon_extension(extension: Seq<char>) -> bool {
    extension == "ico"@ || extension == "png"@
}

impl IconFileView {
    /// The theme that the file is a frame of, if it is a frame at all: an icon
    /// whose stem says "light" is a light frame, and one whose stem says
    /// "dark" and not "light" is a dark frame.
    pub open spec fn theme(self) -> Option<Theme> {
        match (self.extension, self.stem) {
            (Some(extension), Some(stem)) => {
                if !is_icon_extension(extension) {
                    None
                } else if has_infix(stem, "light"@) {
                    Some(Theme::Light)
                } else if has_infix(stem, "dark"@) {
                    Some(Theme::Dark)
                } else {
                    None
                }
            },
            _ => None,
        }
    }
}

/// The places of those of `files` that are frames of `theme`, in the order
/// of `files`.
pub open spec fn frames_in(files: Seq<IconFileView>, theme: Theme) -> Seq<Seq<char>>
    decreases files.len(),
{
    if files.len() == 0 {
        Seq::empty()
    } else if files.last().theme() == Some(theme) {
        frames_in(files.drop_last(), theme).push(files.last().path)
    } else {
        frames_in(files.drop_last(), theme)
    }
}

/// The pet called `name` that `files` give: its frames in each theme are the
/// frames among `files`. There is none where `files` hold no light frame, or
/// not as many dark frames as light ones.
pub open spec fn pet_in(name: Seq<char>, files: Seq<IconFileView>) -> Option<PetView> {
    let dark = frames_in(files, Theme::Dark);
    let light = frames_in(files, Theme::Light);
    if light.len() == 0 || light.len() != dark.len() {
        None
    } else {
        Some(PetView { name, dark, light })
    }
}

impl IconFile {
    /// The theme that the file is a frame of, if it is a frame at all.
    pub fn theme(&self) -> (theme: Option<Theme>)
        ensures
            theme == self@.theme(),
    {
        match (&self.extension, &self.stem) {
            (Some(extension), Some(stem)) => {
                if !(same_text(extension.as_str(), "ico") || same_text(extension.as_str(), "png")) {
                    None
                } else if contains_word(stem.as_str(), "light") {
                    Some(Theme::Light)
                } else if contains_word(stem.as_str(), "dark") {
                    Some(Theme::Dark)
                } else {
                    None
                }
            },
            _ => None,
        }
    }
}

/// The pet called `name` whose frames are those among `files`, or nothing
/// where `files` hold no light frame or not as many dark frames as light ones.
pub fn pet_from_files(name: &str, files: &Vec<IconFile>) -> (pet: Option<Pet>)
    ensures
        match pet {
            Some(p) => p.wf() && pet_in(name@, files_of(files@)) == Some(p@),
            None => pet_in(name@, files_of(files@)) is None,
        },
{
    let mut dark: Vec<FrameHandle> = Vec::new();
    let mut light: Vec<FrameHandle> = Vec::new();
    let n: usize = files.len();
    let mut i: usize = 0;
    while i < n
        invariant
            n == files.len(),
            i <= n,
            places_of(dark@) == frames_in(files_of(files@).take(i as int), Theme::Dark),
            places_of(light@) == frames_in(files_of(files@).take(i as int), Theme::Light),
        decreases n - i,
    {
        let file: &IconFile = &files[i];
        assert(files_of(files@).take(i + 1).drop_last() =~= files_of(files@).take(i as int));
        match file.theme() {
            Some(Theme::Light) => {
                light.push(FrameHandle::new(file.path.clone()));
            },
            Some(Theme::Dark) => {
                dark.push(FrameHandle::new(file.path.clone()));
            },
            None => {},
        }
        i = i + 1;
    }
    assert(files_of(files@).take(n as int) =~= files_of(files@));
    if light.len() == 0 || light.len() != dark.len() {
        return None;
    }
    let dark_set: AnimationSet = match AnimationSet::new(dark) {
        Some(set) => set,
        None => { return None; },
    };
    let light_set: AnimationSet = match AnimationSet::new(light) {
        Some(set) => set,
        None => { return None; },
    };
    Pet::new(name.to_owned(), dark_set, light_set)
}

/// What was found for one pet: its name and the entries of its icon
/// directory, in the order in which the directory gave them.
#[derive(Debug)]
pub struct PetListing {
    pub name: String,
    pub files: Vec<IconFile>,
}

/// What a listing is to the contracts.
pub ghost struct PetListingView {
    pub name: Seq<char>,
    pub files: Seq<IconFileView>,
}

impl View for PetListing {
    type V = PetListingView;

    open spec fn view(&self) -> PetListingView {
        PetListingView { name: self.name@, files: files_of(self.files@) }
    }
}

/// The views of `listings`, in order.
pub open spec fn listings_of(listings: Seq<PetListing>) -> Seq<PetListingView> {
    Seq::new(listings.len(), |i: int| listings[i]@)
}

/// The pets that `listings` give, in the order of `listings`; a listing that
/// gives no pet is left out.
pub open spec fn pets_in(listings: Seq<PetListingView>) -> Seq<PetView>
    decreases listings.len(),
{
    if listings.len() == 0 {
        Seq::empty()
    } else {
        let before = pets_in(listings.drop_last());
        match pet_in(listings.last().name, listings.last().files) {
            Some(pet) => before.push(pet),
            None => before,
        }
    }
}

/// The registry of the pets that `listings` give.
pub fn registry_from_listings(listings: &Vec<PetListing>) -> (registry: FrameRegistry)
    ensures
        registry.wf(),
        registry@ == pets_in(listings_of(listings@)),
{
    let mut registry: FrameRegistry = FrameRegistry::new();
    let n: usize = listings.len();
    let mut i: usize = 0;
    while i < n
        invariant
            n == listings.len(),
            i <= n,
            registry.wf(),
            registry@ == pets_in(listings_of(listings@).take(i as int)),
        decreases n - i,
    {
        let listing: &PetListing = &listings[i];
        assert(listings_of(listings@).take(i + 1).drop_last() =~= listings_of(listings@).take(
            i as int,
        ));
        match pet_from_files(listing.name.as_str(), &listing.files) {
            Some(pet) => {
                registry.add(pet);
            },
            None => {},
        }
        i = i + 1;
    }
    assert(listings_of(listings@).take(n as int) =~= listings_of(listings@));
    registry
}

/// Every pet that listings give has a frame to show, and as many in one
/// theme as in the other.
pub proof fn lemma_pets_in_wf(listings: Seq<PetListingView>)
    ensures
        all_wf(pets_in(listings)),
    decreases listings.len(),
{
    if listings.len() > 0 {
        lemma_pets_in_wf(listings.drop_last());
    }
}

} // verus!
