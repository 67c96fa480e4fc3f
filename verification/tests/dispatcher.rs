use tray_pet::assets::{registry_from_listings, IconFile, PetListing};
use tray_pet::dispatcher::{
    Command, Dispatcher, Effect, ThemeChoice, DARK_ID, DEFAULT_ID, LIGHT_ID, QUIT_ID, SETTINGS_ID,
};
use tray_pet::registry::FrameRegistry;
use tray_pet::selection::SelectionState;
use tray_pet::theme::Theme;

fn listing(name: &str) -> PetListing {
    let files = ["dark", "light"]
        .iter()
        .map(|theme| IconFile {
            path: format!("icons/{name}/{theme}.png"),
            stem: Some(theme.to_string()),
            extension: Some("png".to_string()),
        })
        .collect();
    PetListing { name: name.to_string(), files }
}

fn registry() -> FrameRegistry {
    registry_from_listings(&vec![listing("cat"), listing("horse"), listing("parrot")])
}

#[test]
fn menu_entries() {
    assert_eq!(QUIT_ID, "quit");
    assert_eq!(SETTINGS_ID, "setting");
    assert_eq!(DARK_ID, "dark");
    assert_eq!(LIGHT_ID, "light");
    assert_eq!(DEFAULT_ID, "default");
    assert_eq!(ThemeChoice::System.menu_id(), "default");
    assert_eq!(ThemeChoice::Dark.menu_id(), "dark");
    assert_eq!(ThemeChoice::Light.menu_id(), "light");
}

#[test]
fn fixed_entries_ask_for_their_commands() {
    let registry = registry();
    assert_eq!(Command::from_menu_id("quit", &registry), Some(Command::Quit));
    assert_eq!(Command::from_menu_id("setting", &registry), Some(Command::ToggleSettings));
    assert_eq!(Command::from_menu_id("dark", &registry), Some(Command::SelectTheme(Theme::Dark)));
    assert_eq!(Command::from_menu_id("light", &registry), Some(Command::SelectTheme(Theme::Light)));
    assert_eq!(Command::from_menu_id("default", &registry), Some(Command::SelectDefaultTheme));
}

#[test]
fn pet_entries_ask_for_the_pet_of_that_name() {
    let registry = registry();
    assert_eq!(Command::from_menu_id("cat", &registry), Some(Command::SelectPet(0)));
    assert_eq!(Command::from_menu_id("horse", &registry), Some(Command::SelectPet(1)));
    assert_eq!(Command::from_menu_id("parrot", &registry), Some(Command::SelectPet(2)));
}

#[test]
fn unknown_entries_ask_for_nothing() {
    let registry = registry();
    assert_eq!(Command::from_menu_id("dog", &registry), None);
    assert_eq!(Command::from_menu_id("", &registry), None);
    assert_eq!(Command::from_menu_id("Quit", &registry), None);
    assert_eq!(Command::from_menu_id("cat ", &registry), None);
    assert_eq!(Command::from_menu_id("cat", &FrameRegistry::new()), None);
}

#[test]
fn fixed_entries_come_before_pets_of_the_same_name() {
    let registry = registry_from_listings(&vec![listing("quit"), listing("dark")]);
    assert_eq!(registry.len(), 2);
    assert_eq!(Command::from_menu_id("quit", &registry), Some(Command::Quit));
    assert_eq!(Command::from_menu_id("dark", &registry), Some(Command::SelectTheme(Theme::Dark)));
}

#[test]
fn every_pet_entry_leads_to_a_pet_of_the_registry() {
    let registry = registry();
    for name in ["cat", "horse", "parrot", "dog", "quit", "x"] {
        if let Some(Command::SelectPet(pet)) = Command::from_menu_id(name, &registry) {
            assert!(registry.contains(pet));
            assert_eq!(registry.pet(pet).name(), name);
        }
    }
}

#[test]
fn only_the_default_theme_needs_the_platform() {
    assert!(Command::SelectDefaultTheme.needs_system_theme());
    assert!(!Command::Quit.needs_system_theme());
    assert!(!Command::ToggleSettings.needs_system_theme());
    assert!(!Command::SelectPet(0).needs_system_theme());
    assert!(!Command::SelectTheme(Theme::Dark).needs_system_theme());
}

#[test]
fn settings_panel_starts_hidden() {
    assert!(Dispatcher::new().settings_hidden());
}

#[test]
fn quit_asks_for_the_exit_and_changes_nothing() {
    let registry = registry();
    let mut dispatcher = Dispatcher::new();
    let mut selection = SelectionState::new(1, Theme::Light);
    let effect = dispatcher.dispatch(Command::Quit, &mut selection, &registry, Theme::Dark);
    assert_eq!(effect, Effect::Exit);
    assert_eq!(selection.get(), (1, Theme::Light));
    assert!(dispatcher.settings_hidden());
}

#[test]
fn toggle_shows_then_hides_the_settings_panel() {
    let registry = registry();
    let mut dispatcher = Dispatcher::new();
    let mut selection = SelectionState::new(1, Theme::Light);
    let effect = dispatcher.dispatch(Command::ToggleSettings, &mut selection, &registry, Theme::Dark);
    assert_eq!(effect, Effect::ShowSettings);
    assert!(!dispatcher.settings_hidden());
    let effect = dispatcher.dispatch(Command::ToggleSettings, &mut selection, &registry, Theme::Dark);
    assert_eq!(effect, Effect::HideSettings);
    assert!(dispatcher.settings_hidden());
    assert_eq!(selection.get(), (1, Theme::Light));
}

#[test]
fn select_pet_replaces_the_pet_only() {
    let registry = registry();
    let mut dispatcher = Dispatcher::new();
    let mut selection = SelectionState::new(0, Theme::Light);
    let effect = dispatcher.dispatch(Command::SelectPet(2), &mut selection, &registry, Theme::Dark);
    assert_eq!(effect, Effect::Nothing);
    assert_eq!(selection.get(), (2, Theme::Light));
    assert!(dispatcher.settings_hidden());
}

#[test]
fn select_pet_outside_the_registry_selects_nothing() {
    let registry = registry();
    let mut dispatcher = Dispatcher::new();
    let mut selection = SelectionState::new(1, Theme::Dark);
    let effect = dispatcher.dispatch(Command::SelectPet(3), &mut selection, &registry, Theme::Light);
    assert_eq!(effect, Effect::Nothing);
    assert_eq!(selection.get(), (1, Theme::Dark));
    dispatcher.dispatch(Command::SelectPet(usize::MAX), &mut selection, &registry, Theme::Light);
    assert_eq!(selection.get(), (1, Theme::Dark));
}

#[test]
fn select_theme_replaces_the_theme_only_and_marks_its_entry() {
    let registry = registry();
    let mut dispatcher = Dispatcher::new();
    let mut selection = SelectionState::new(1, Theme::Dark);
    let effect =
        dispatcher.dispatch(Command::SelectTheme(Theme::Light), &mut selection, &registry, Theme::Dark);
    assert_eq!(effect, Effect::MarkTheme(ThemeChoice::Light));
    assert_eq!(selection.get(), (1, Theme::Light));
    let effect =
        dispatcher.dispatch(Command::SelectTheme(Theme::Dark), &mut selection, &registry, Theme::Light);
    assert_eq!(effect, Effect::MarkTheme(ThemeChoice::Dark));
    assert_eq!(selection.get(), (1, Theme::Dark));
}

#[test]
fn default_theme_takes_the_theme_of_the_platform() {
    let registry = registry();
    let mut dispatcher = Dispatcher::new();
    let mut selection = SelectionState::new(2, Theme::Dark);
    let effect =
        dispatcher.dispatch(Command::SelectDefaultTheme, &mut selection, &registry, Theme::Light);
    assert_eq!(effect, Effect::MarkTheme(ThemeChoice::System));
    assert_eq!(selection.get(), (2, Theme::Light));
    let effect =
        dispatcher.dispatch(Command::SelectDefaultTheme, &mut selection, &registry, Theme::Dark);
    assert_eq!(effect, Effect::MarkTheme(ThemeChoice::System));
    assert_eq!(selection.get(), (2, Theme::Dark));
}

#[test]
fn commands_are_applied_in_the_order_they_arrive() {
    let registry = registry();
    let mut dispatcher = Dispatcher::new();
    let mut selection = SelectionState::initial(Theme::Dark);
    for id in ["horse", "light", "setting", "parrot", "dark", "dog", "cat", "light"] {
        if let Some(command) = Command::from_menu_id(id, &registry) {
            dispatcher.dispatch(command, &mut selection, &registry, Theme::Dark);
        }
        assert!(registry.contains(selection.pet()));
    }
    assert_eq!(selection.get(), (0, Theme::Light));
    assert!(!dispatcher.settings_hidden());
}
