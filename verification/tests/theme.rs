use tray_pet::theme::{ProbeReply, ProbeStep, Theme, KIND_DWORD, STATUS_SUCCESS};

fn ok(value: u32) -> ProbeReply {
    ProbeReply { status: STATUS_SUCCESS, value }
}

fn failed(status: u32) -> ProbeReply {
    ProbeReply { status, value: 0 }
}

#[test]
fn themes_have_their_slots() {
    assert_eq!(Theme::Dark.index(), 0);
    assert_eq!(Theme::Light.index(), 1);
}

#[test]
fn fallback_theme_is_dark() {
    assert_eq!(Theme::fallback(), Theme::Dark);
}

#[test]
fn platform_codes() {
    assert_eq!(STATUS_SUCCESS, 0);
    assert_eq!(KIND_DWORD, 4);
}

#[test]
fn probe_starts_by_opening_the_key() {
    assert_eq!(ProbeStep::start(), ProbeStep::OpenKey);
    assert_eq!(ProbeStep::start().outcome(), None);
}

#[test]
fn probe_finds_the_light_theme() {
    let step = ProbeStep::start().next(ok(0));
    assert_eq!(step, ProbeStep::QueryKind);
    let step = step.next(ok(KIND_DWORD));
    assert_eq!(step, ProbeStep::ReadValue);
    let step = step.next(ok(1));
    assert_eq!(step, ProbeStep::Done(Theme::Light));
    assert_eq!(step.outcome(), Some(Theme::Light));
}

#[test]
fn probe_finds_the_dark_theme() {
    let step = ProbeStep::start().next(ok(0)).next(ok(KIND_DWORD)).next(ok(0));
    assert_eq!(step, ProbeStep::Done(Theme::Dark));
}

#[test]
fn any_value_but_zero_means_light() {
    let step = ProbeStep::start().next(ok(0)).next(ok(KIND_DWORD)).next(ok(u32::MAX));
    assert_eq!(step, ProbeStep::Done(Theme::Light));
}

#[test]
fn probe_falls_back_when_the_key_cannot_be_opened() {
    assert_eq!(ProbeStep::start().next(failed(2)), ProbeStep::Done(Theme::Dark));
}

#[test]
fn probe_falls_back_when_the_value_cannot_be_queried() {
    let step = ProbeStep::start().next(ok(0)).next(ProbeReply { status: 2, value: KIND_DWORD });
    assert_eq!(step, ProbeStep::Done(Theme::Dark));
}

#[test]
fn probe_falls_back_on_a_value_of_another_kind() {
    // 1 is the kind of a text value
    let step = ProbeStep::start().next(ok(0)).next(ok(1));
    assert_eq!(step, ProbeStep::Done(Theme::Dark));
}

#[test]
fn probe_falls_back_when_the_value_cannot_be_read() {
    let step = ProbeStep::start().next(ok(0)).next(ok(KIND_DWORD)).next(ProbeReply {
        status: 234,
        value: 1,
    });
    assert_eq!(step, ProbeStep::Done(Theme::Dark));
}

#[test]
fn finished_probe_stays_finished() {
    let done = ProbeStep::Done(Theme::Light);
    assert_eq!(done.next(ok(0)), done);
    assert_eq!(done.next(failed(5)), done);
    assert_eq!(ProbeStep::Done(Theme::Dark).next(ok(1)), ProbeStep::Done(Theme::Dark));
}

#[test]
fn unfinished_probe_has_no_outcome() {
    assert_eq!(ProbeStep::OpenKey.outcome(), None);
    assert_eq!(ProbeStep::QueryKind.outcome(), None);
    assert_eq!(ProbeStep::ReadValue.outcome(), None);
    assert_eq!(ProbeStep::Done(Theme::Dark).outcome(), Some(Theme::Dark));
}
