use tray_pet::load::{average, Percentage, FULL_LOAD_TENTHS};

fn loads(tenths: &[u32]) -> Vec<Percentage> {
    tenths.iter().map(|t| Percentage::from_tenths(*t)).collect()
}

#[test]
fn percentage_keeps_its_tenths() {
    assert_eq!(Percentage::from_tenths(0).tenths(), 0);
    assert_eq!(Percentage::from_tenths(123).tenths(), 123);
    assert_eq!(Percentage::from_tenths(1000).tenths(), 1000);
    assert_eq!(Percentage::zero().tenths(), 0);
}

#[test]
fn percentage_stops_at_full_load() {
    assert_eq!(FULL_LOAD_TENTHS, 1000);
    assert_eq!(Percentage::from_tenths(1001).tenths(), 1000);
    assert_eq!(Percentage::from_tenths(65536).tenths(), 1000);
    assert_eq!(Percentage::from_tenths(u32::MAX).tenths(), 1000);
}

#[test]
fn average_of_no_cores_is_nothing() {
    assert_eq!(average(&Vec::new()), None);
}

#[test]
fn average_of_one_core_is_its_load() {
    assert_eq!(average(&loads(&[437])), Some(Percentage::from_tenths(437)));
}

#[test]
fn average_is_the_mean_over_all_cores() {
    assert_eq!(average(&loads(&[100, 200])), Some(Percentage::from_tenths(150)));
    assert_eq!(average(&loads(&[0, 0, 0, 1000])), Some(Percentage::from_tenths(250)));
    assert_eq!(average(&loads(&[1000, 1000, 1000])), Some(Percentage::from_tenths(1000)));
}

#[test]
fn average_rounds_down_to_a_tenth() {
    assert_eq!(average(&loads(&[1, 2])), Some(Percentage::from_tenths(1)));
    assert_eq!(average(&loads(&[0, 0, 1])), Some(Percentage::from_tenths(0)));
    assert_eq!(average(&loads(&[999, 1000])), Some(Percentage::from_tenths(999)));
}

#[test]
fn average_of_many_busy_cores_does_not_overflow() {
    let cores = loads(&vec![1000u32; 100_000]);
    assert_eq!(average(&cores), Some(Percentage::from_tenths(1000)));
}
