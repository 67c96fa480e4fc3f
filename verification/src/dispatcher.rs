//! The command dispatcher: from what the user picked in the menu to the one
//! change that it makes.

use vstd::prelude::*;
use crate::frames::PetView;
use crate::registry::{first_named, known, none_named, FrameRegistry};
use crate::selection::{Selection, SelectionState};
use crate::text::same_text;
use crate::theme::Theme;

verus! {

/// The menu entry that ends the program.
pub const QUIT_ID: &'static str = "quit";

/// The menu entry that shows or hides the settings panel.
pub const SETTINGS_ID: &'static str = "setting";

/// The menu entry for the dark theme.
pub const DARK_ID: &'static str = "dark";

/// The menu entry for the light theme.
pub const LIGHT_ID: &'static str = "light";

/// The menu entry for the theme of the platform.
pub const DEFAULT_ID: &'static str = "default";

/// The entry of the theme menu that carries the check mark.
#[derive(Clone, Copy, Debug, PartialEq, Eq, Structural)]
pub enum ThemeChoice {
    /// Whatever the platform uses.
    System,
    Dark,
    Light,
}

impl ThemeChoice {
    /// The entry that stands for `theme`.
    pub open spec fn of(theme: Theme) -> ThemeChoice {
        match theme {
            Theme::Dark => ThemeChoice::Dark,
            Theme::Light => ThemeChoice::Light,
        }
    }

    /// The menu entry of this choice.
    pub fn menu_id(self) -> (id: &'static str)
        ensures
            id@ == match self {
                ThemeChoice::System => DEFAULT_ID@,
                ThemeChoice::Dark => DARK_ID@,
                ThemeChoice::Light => LIGHT_ID@,
            },
    {
        match self {
            ThemeChoice::System => DEFAULT_ID,
            ThemeChoice::Dark => DARK_ID,
            ThemeChoice::Light => LIGHT_ID,
        }
    }
}

/// One thing the user can ask for.
#[derive(Clone, Copy, Debug, PartialEq, Eq, Structural)]
pub enum Command {
    /// End the program.
    Quit,
    /// Show the settings panel if it is hidden, hide it if it is shown.
    ToggleSettings,
    /// Show the pet at this position of the registry.
    SelectPet(usize),
    /// Show the pets in this theme.
    SelectTheme(Theme),
    /// Show the pets in the theme of the platform.
    SelectDefaultTheme,
}

/// What is to be done outside the dispatcher once a command has been applied.
#[derive(Clone, Copy, Debug, PartialEq, Eq, Structural)]
pub enum Effect {
    /// End the process at once.
    Exit,
    /// Show the settings panel.
    ShowSettings,
    /// Hide the settings panel.
    HideSettings,
    /// Put the check mark of the theme menu on this entry and on no other.
    MarkTheme(ThemeChoice),
    /// Nothing.
    Nothing,
}

/// Whether `command` is what the menu entry `id` asks for, given the pets in
/// the menu. The five fixed entries come first; any other entry asks for the
/// first pet of that name, and for nothing where no pet has that name.
pub open spec fn asks_for(id: Seq<char>, pets: Seq<PetView>, command: Option<Command>) -> bool {
    if id == QUIT_ID@ {
        command == Some(Command::Quit)
    } else if id == SETTINGS_ID@ {
        command == Some(Command::ToggleSettings)
    } else if id == DARK_ID@ {
        command == Some(Command::SelectTheme(Theme::Dark))
    } else if id == LIGHT_ID@ {
        command == Some(Command::SelectTheme(Theme::Light))
    } else if id == DEFAULT_ID@ {
        command == Some(Command::SelectDefaultTheme)
    } else {
        match command {
            Some(Command::SelectPet(pet)) => first_named(pets, id, pet as int),
            Some(_) => false,
            None => none_named(pets, id),
        }
    }
}

impl Command {
    /// The command that the menu entry `id` asks for, if it asks for one.
    pub fn from_menu_id(id: &str, registry: &FrameRegistry) -> (command: Option<Command>)
        ensures
            asks_for(id@, registry@, command),
            command matches Some(Command::SelectPet(pet)) ==> registry.knows(pet),
    {
        if same_text(id, QUIT_ID) {
            Some(Command::Quit)
        } else if same_text(id, SETTINGS_ID) {
            Some(Command::ToggleSettings)
        } else if same_text(id, DARK_ID) {
            Some(Command::SelectTheme(Theme::Dark))
        } else if same_text(id, LIGHT_ID) {
            Some(Command::SelectTheme(Theme::Light))
        } else if same_text(id, DEFAULT_ID) {
            Some(Command::SelectDefaultTheme)
        } else {
            match registry.find(id) {
                Some(pet) => Some(Command::SelectPet(pet)),
                None => None,
            }
        }
    }

    /// Whether the command can only be applied once the platform has been
    /// asked for its theme.
    pub fn needs_system_theme(&self) -> (needed: bool)
        ensures
            needed == (*self == Command::SelectDefaultTheme),
    {
        match self {
            Command::SelectDefaultTheme => true,
            _ => false,
        }
    }
}

/// What the dispatcher and the selection are after a command, and what is to
/// be done outside.
pub ghost struct Dispatched {
    pub settings_hidden: bool,
    pub selection: Selection,
    pub effect: Effect,
}

/// What `command` does where the settings panel is hidden or not, the
/// selection is `selection`, the platform's theme is `system_theme` and the
/// registry holds `pets` pets. Each command changes one thing:
///
/// - `Quit` changes nothing and asks for the process to end.
/// - `ToggleSettings` turns the panel's flag over.
/// - `SelectPet` replaces the selected pet; a pet that the registry does not
///   hold is not selected.
/// - `SelectTheme` replaces the selected theme.
/// - `SelectDefaultTheme` replaces the selected theme by the platform's.
pub open spec fn dispatched(
    settings_hidden: bool,
    selection: Selection,
    command: Command,
    system_theme: Theme,
    pets: int,
) -> Dispatched {
    match command {
        Command::Quit => Dispatched { settings_hidden, selection, effect: Effect::Exit },
        Command::ToggleSettings => Dispatched {
            settings_hidden: !settings_hidden,
            selection,
            effect: if settings_hidden {
                Effect::ShowSettings
            } else {
                Effect::HideSettings
            },
        },
        Command::SelectPet(pet) => Dispatched {
            settings_hidden,
            selection: if pet < pets {
                selection.with_pet(pet as int)
            } else {
                selection
            },
            effect: Effect::Nothing,
        },
        Command::SelectTheme(theme) => Dispatched {
            settings_hidden,
            selection: selection.with_theme(theme),
            effect: Effect::MarkTheme(ThemeChoice::of(theme)),
        },
        Command::SelectDefaultTheme => Dispatched {
            settings_hidden,
            selection: selection.with_theme(system_theme),
            effect: Effect::MarkTheme(ThemeChoice::System),
        },
    }
}

/// The command dispatcher. It keeps whether the settings panel is hidden; its
/// view is that flag.
#[derive(Clone, Copy, Debug)]
pub struct Dispatcher {
    settings_hidden: bool,
}

impl View for Dispatcher {
    type V = bool;

    closed spec fn view(&self) -> bool {
        self.settings_hidden
    }
}

impl Dispatcher {
    /// A dispatcher for a settings panel that is hidden.
    pub fn new() -> (dispatcher: Dispatcher)
        ensures
            dispatcher@ == true,
    {
        Dispatcher { settings_hidden: true }
    }

    /// Whether the settings panel is hidden.
    pub fn settings_hidden(&self) -> (hidden: bool)
        ensures
            hidden == self@,
    {
        self.settings_hidden
    }

    /// Applies `command` to the dispatcher and to `selection`, and says what
    /// is to be done outside. `system_theme` is the theme that the platform
    /// uses now; only `Command::SelectDefaultTheme` looks at it.
    pub fn dispatch(
        &mut self,
        command: Command,
        selection: &mut SelectionState,
        registry: &FrameRegistry,
        system_theme: Theme,
    ) -> (effect: Effect)
        ensures
            dispatched(
                old(self)@,
                old(selection)@,
                command,
                system_theme,
                registry@.len() as int,
            ) == (Dispatched {
                settings_hidden: final(self)@,
                selection: final(selection)@,
                effect,
            }),
    {
        match command {
            Command::Quit => Effect::Exit,
            Command::ToggleSettings => {
                if self.settings_hidden {
                    self.settings_hidden = false;
                    Effect::ShowSettings
                } else {
                    self.settings_hidden = true;
                    Effect::HideSettings
                }
            },
            Command::SelectPet(pet) => {
                if registry.contains(pet) {
                    selection.set_pet(pet);
                }
                Effect::Nothing
            },
            Command::SelectTheme(theme) => {
                selection.set_theme(theme);
                match theme {
                    Theme::Dark => Effect::MarkTheme(ThemeChoice::Dark),
                    Theme::Light => Effect::MarkTheme(ThemeChoice::Light),
                }
            },
            Command::SelectDefaultTheme => {
                selection.set_theme(system_theme);
                Effect::MarkTheme(ThemeChoice::System)
            },
        }
    }
}

/// What a run of commands leaves behind: the commands are applied in the
/// order in which they arrived, each to what the one before left.
pub open spec fn dispatched_all(
    settings_hidden: bool,
    selection: Selection,
    commands: Seq<(Command, Theme)>,
    pets: int,
) -> Dispatched
    decreases commands.len(),
{
    if commands.len() == 0 {
        Dispatched { settings_hidden, selection, effect: Effect::Nothing }
    } else {
        let before = dispatched_all(settings_hidden, selection, commands.drop_last(), pets);
        dispatched(
            before.settings_hidden,
            before.selection,
            commands.last().0,
            commands.last().1,
            pets,
        )
    }
}

/// No command leads to a pet that the registry does not hold: a selection
/// that names a pet of the registry still does after any command.
pub proof fn lemma_dispatch_keeps_known(
    settings_hidden: bool,
    selection: Selection,
    command: Command,
    system_theme: Theme,
    pets: Seq<PetView>,
)
    requires
        known(pets, selection),
    ensures
        known(
            pets,
            dispatched(settings_hidden, selection, command, system_theme, pets.len() as int).selection,
        ),
{
}

/// Nor does any run of commands, each paired with the platform's theme at
/// the time.
pub proof fn lemma_dispatch_all_keeps_known(
    settings_hidden: bool,
    selection: Selection,
    commands: Seq<(Command, Theme)>,
    pets: Seq<PetView>,
)
    requires
        known(pets, selection),
    ensures
        known(
            pets,
            dispatched_all(settings_hidden, selection, commands, pets.len() as int).selection,
        ),
    decreases commands.len(),
{
    if commands.len() > 0 {
        lemma_dispatch_all_keeps_known(settings_hidden, selection, commands.drop_last(), pets);
    }
}

/// A command changes one thing at most: the panel's flag, the selected pet or
/// the selected theme.
pub proof fn lemma_one_change_per_command(
    settings_hidden: bool,
    selection: Selection,
    command: Command,
    system_theme: Theme,
    pets: int,
)
    ensures
        ({
            let after = dispatched(settings_hidden, selection, command, system_theme, pets);
            let flag = after.settings_hidden != settings_hidden;
            let pet = after.selection.pet != selection.pet;
            let theme = after.selection.theme != selection.theme;
            &&& !(flag && pet)
            &&& !(flag && theme)
            &&& !(pet && theme)
            &&& after.effect == Effect::Exit ==> !flag && !pet && !theme
        }),
{
}

} // verus!
