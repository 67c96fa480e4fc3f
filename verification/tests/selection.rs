use tray_pet::selection::SelectionState;
use tray_pet::theme::Theme;

#[test]
fn selection_starts_with_the_first_pet() {
    assert_eq!(SelectionState::initial(Theme::Light).get(), (0, Theme::Light));
    assert_eq!(SelectionState::initial(Theme::Dark).get(), (0, Theme::Dark));
}

#[test]
fn selection_holds_what_it_was_made_with() {
    let selection = SelectionState::new(2, Theme::Light);
    assert_eq!(selection.get(), (2, Theme::Light));
    assert_eq!(selection.pet(), 2);
    assert_eq!(selection.theme(), Theme::Light);
}

#[test]
fn set_pet_leaves_the_theme() {
    let mut selection = SelectionState::new(0, Theme::Light);
    selection.set_pet(7);
    assert_eq!(selection.get(), (7, Theme::Light));
}

#[test]
fn set_theme_leaves_the_pet() {
    let mut selection = SelectionState::new(3, Theme::Dark);
    selection.set_theme(Theme::Light);
    assert_eq!(selection.get(), (3, Theme::Light));
}

#[test]
fn last_write_to_each_field_wins() {
    let mut selection = SelectionState::new(0, Theme::Dark);
    selection.set_pet(1);
    selection.set_theme(Theme::Light);
    selection.set_pet(2);
    selection.set_theme(Theme::Dark);
    selection.set_theme(Theme::Light);
    selection.set_pet(1);
    assert_eq!(selection.get(), (1, Theme::Light));
}

#[test]
fn writes_to_one_field_in_any_order_never_touch_the_other() {
    let mut pet_first = SelectionState::new(0, Theme::Dark);
    pet_first.set_pet(2);
    pet_first.set_theme(Theme::Light);
    let mut theme_first = SelectionState::new(0, Theme::Dark);
    theme_first.set_theme(Theme::Light);
    theme_first.set_pet(2);
    assert_eq!(pet_first, theme_first);
    assert_eq!(pet_first.get(), (2, Theme::Light));
}

#[test]
fn same_as_compares_both_fields() {
    let selection = SelectionState::new(1, Theme::Dark);
    assert!(selection.same_as(&SelectionState::new(1, Theme::Dark)));
    assert!(!selection.same_as(&SelectionState::new(1, Theme::Light)));
    assert!(!selection.same_as(&SelectionState::new(2, Theme::Dark)));
}
