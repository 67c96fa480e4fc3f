use tray_pet::load::Percentage;
use tray_pet::tooltip::tooltip_for;

#[test]
fn tooltip_of_an_idle_machine() {
    assert_eq!(tooltip_for(Percentage::from_tenths(0)), "CPU: 0.0%");
}

#[test]
fn tooltip_of_a_tenth_of_a_percent() {
    assert_eq!(tooltip_for(Percentage::from_tenths(1)), "CPU: 0.1%");
}

#[test]
fn tooltip_has_one_decimal_place() {
    assert_eq!(tooltip_for(Percentage::from_tenths(123)), "CPU: 12.3%");
    assert_eq!(tooltip_for(Percentage::from_tenths(50)), "CPU: 5.0%");
    assert_eq!(tooltip_for(Percentage::from_tenths(909)), "CPU: 90.9%");
}

#[test]
fn tooltip_of_a_fully_loaded_machine() {
    assert_eq!(tooltip_for(Percentage::from_tenths(1000)), "CPU: 100.0%");
    assert_eq!(tooltip_for(Percentage::from_tenths(2000)), "CPU: 100.0%");
}

#[test]
fn tooltip_agrees_with_the_formatter_on_every_load() {
    for tenths in 0..=1000u32 {
        let expected = format!("CPU: {}.{}%", tenths / 10, tenths % 10);
        assert_eq!(tooltip_for(Percentage::from_tenths(tenths)), expected);
    }
}
