use tray_pet::cursor::PlaybackCursor;

#[test]
fn cursor_starts_at_the_first_frame() {
    assert_eq!(PlaybackCursor::start().index(), 0);
}

#[test]
fn cursor_moves_on_by_one_frame() {
    let mut cursor = PlaybackCursor::start();
    cursor.advance(5);
    assert_eq!(cursor.index(), 1);
    cursor.advance(5);
    assert_eq!(cursor.index(), 2);
}

#[test]
fn cursor_wraps_after_the_last_frame() {
    let mut cursor = PlaybackCursor::start();
    for _ in 0..4 {
        cursor.advance(5);
    }
    assert_eq!(cursor.index(), 4);
    cursor.advance(5);
    assert_eq!(cursor.index(), 0);
}

#[test]
fn cursor_is_back_at_the_start_after_every_full_round() {
    let len = 7;
    let mut cursor = PlaybackCursor::start();
    for round in 0..10 {
        for frame in 0..len {
            assert_eq!(cursor.index(), frame, "round {round}");
            cursor.advance(len);
        }
        assert_eq!(cursor.index(), 0);
    }
}

#[test]
fn cursor_of_a_single_frame_stays() {
    let mut cursor = PlaybackCursor::start();
    cursor.advance(1);
    assert_eq!(cursor.index(), 0);
    cursor.advance(1);
    assert_eq!(cursor.index(), 0);
}

#[test]
fn cursor_counts_frames_round_the_set() {
    let len = 3;
    let mut cursor = PlaybackCursor::start();
    for shown in 1..=100usize {
        cursor.advance(len);
        assert_eq!(cursor.index(), shown % len);
    }
}

#[test]
fn reset_goes_back_to_the_first_frame() {
    let mut cursor = PlaybackCursor::start();
    cursor.advance(4);
    cursor.advance(4);
    cursor.reset();
    assert_eq!(cursor.index(), 0);
}
