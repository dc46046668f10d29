use vspreview_rs::input::{seek_frame, KeyInput, SeekKey};

fn no_keys() -> KeyInput {
    KeyInput {
        no_modifiers: true,
        arrow_left: false,
        arrow_right: false,
        arrow_up: false,
        arrow_down: false,
        h: false,
        j: false,
        k: false,
        l: false,
        q: false,
        r: false,
        escape: false,
        number_row: [false; 10],
    }
}

#[test]
fn seek_key_follows_key_priority() {
    let mut input = no_keys();
    assert_eq!(input.seek_key(), SeekKey::NoSeek);
    input.j = true;
    assert_eq!(input.seek_key(), SeekKey::ForwardOneSecond);
    input.arrow_up = true;
    assert_eq!(input.seek_key(), SeekKey::BackOneSecond);
    input.l = true;
    assert_eq!(input.seek_key(), SeekKey::NextFrame);
    input.h = true;
    assert_eq!(input.seek_key(), SeekKey::PreviousFrame);
}

#[test]
fn number_row_selects_outputs() {
    let mut input = no_keys();
    assert_eq!(input.requested_output(), -1);
    input.number_row[9] = true; // key `0`
    assert_eq!(input.requested_output(), 9);
    input.number_row[0] = true; // key `1`
    assert_eq!(input.requested_output(), 0);
    let mut input = no_keys();
    input.number_row[2] = true; // key `3`
    input.number_row[5] = true; // key `6`
    assert_eq!(input.requested_output(), 2);
}

#[test]
fn quit_and_reload_keys() {
    let mut input = no_keys();
    assert!(!input.quit_requested());
    assert!(!input.reload_requested());
    input.escape = true;
    assert!(input.quit_requested());
    let mut input = no_keys();
    input.q = true;
    input.r = true;
    assert!(input.quit_requested());
    assert!(input.reload_requested());
}

#[test]
fn previous_frame() {
    assert_eq!(seek_frame(SeekKey::PreviousFrame, 5, 10, 24), (4, true));
    assert_eq!(seek_frame(SeekKey::PreviousFrame, 0, 10, 24), (0, false));
    // a frame past the end is clamped after stepping back
    assert_eq!(seek_frame(SeekKey::PreviousFrame, 20, 10, 24), (9, true));
    // a frame past the end by one lands on the last frame
    assert_eq!(seek_frame(SeekKey::PreviousFrame, 10, 10, 24), (9, true));
}

#[test]
fn next_frame() {
    assert_eq!(seek_frame(SeekKey::NextFrame, 5, 10, 24), (6, true));
    assert_eq!(seek_frame(SeekKey::NextFrame, 8, 10, 24), (9, true));
    assert_eq!(seek_frame(SeekKey::NextFrame, 9, 10, 24), (9, false));
    assert_eq!(seek_frame(SeekKey::NextFrame, 0, 1, 24), (0, false));
}

#[test]
fn back_one_second() {
    assert_eq!(seek_frame(SeekKey::BackOneSecond, 50, 100, 24), (26, true));
    assert_eq!(seek_frame(SeekKey::BackOneSecond, 24, 100, 24), (0, true));
    assert_eq!(seek_frame(SeekKey::BackOneSecond, 10, 100, 24), (0, true));
    // at the first frame the seek does not move, so no render
    assert_eq!(seek_frame(SeekKey::BackOneSecond, 0, 100, 24), (0, false));
    // a framerate of 0 does not move either
    assert_eq!(seek_frame(SeekKey::BackOneSecond, 7, 100, 0), (7, false));
}

#[test]
fn forward_one_second() {
    assert_eq!(seek_frame(SeekKey::ForwardOneSecond, 10, 100, 24), (34, true));
    // landing exactly on the last frame moves the frame: render
    assert_eq!(seek_frame(SeekKey::ForwardOneSecond, 75, 100, 24), (99, true));
    assert_eq!(seek_frame(SeekKey::ForwardOneSecond, 6, 10, 3), (9, true));
    // past the end is clamped to the last frame
    assert_eq!(seek_frame(SeekKey::ForwardOneSecond, 90, 100, 24), (99, true));
    assert_eq!(seek_frame(SeekKey::ForwardOneSecond, u32::MAX - 24, u32::MAX, 24), (u32::MAX - 1, true));
    // already on the last frame: no move, no render
    assert_eq!(seek_frame(SeekKey::ForwardOneSecond, 99, 100, 24), (99, false));
    assert_eq!(seek_frame(SeekKey::ForwardOneSecond, 7, 100, 0), (7, false));
}

#[test]
fn no_seek_only_clamps() {
    assert_eq!(seek_frame(SeekKey::NoSeek, 3, 10, 24), (3, false));
    // a frame past the end of the output moves to its last frame: render
    assert_eq!(seek_frame(SeekKey::NoSeek, 12345, 10, 24), (9, true));
}

#[test]
fn step_back_then_forward_returns() {
    for frame in 1..10u32 {
        let (back, _) = seek_frame(SeekKey::PreviousFrame, frame, 10, 24);
        let (fwd, _) = seek_frame(SeekKey::NextFrame, back, 10, 24);
        assert_eq!(fwd, frame);
    }
    for frame in 0..9u32 {
        let (fwd, _) = seek_frame(SeekKey::NextFrame, frame, 10, 24);
        let (back, _) = seek_frame(SeekKey::PreviousFrame, fwd, 10, 24);
        assert_eq!(back, frame);
    }
}
