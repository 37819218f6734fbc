use text_scroller::font::{get_char_moves, move_to_image, Image};
use text_scroller::{Animate, CapacityError, ScrollMessage};

/// The frames that one character contributes: its eight raw frames, each
/// run through the converter.
fn expected_frames(code: u8) -> Vec<Image> {
    get_char_moves(code).iter().map(|mv| move_to_image(*mv)).collect()
}

/// A two-letter message yields exactly sixteen frames: the first letter's
/// eight converted frames, then the second's, and `is_finished` flips to
/// true only after the sixteenth pull.
#[test]
fn scroll_ab_end_to_end() {
    let mut anim = ScrollMessage::<16>::new("AB").unwrap();
    let expected: Vec<Image> =
        expected_frames(b'A').into_iter().chain(expected_frames(b'B')).collect();
    for i in 0..16 {
        assert!(!anim.is_finished());
        assert_eq!(*anim.next(), expected[i]);
    }
    assert!(anim.is_finished());
}

/// A message with one unsupported byte yields the eight converted frames of
/// the hollow-square fallback.
#[test]
fn scroll_unsupported_byte() {
    let mut anim = ScrollMessage::<8>::new("\u{0}").unwrap();
    let expected = expected_frames(0);
    for i in 0..8 {
        assert!(!anim.is_finished());
        assert_eq!(*anim.next(), expected[i]);
    }
    assert!(anim.is_finished());
}

/// Construction fails exactly when the expansion exceeds the capacity;
/// nothing is truncated.
#[test]
fn capacity_is_checked_at_construction() {
    assert_eq!(ScrollMessage::<15>::new("AB").err(), Some(CapacityError));
    assert!(ScrollMessage::<16>::new("AB").is_ok());
    assert!(ScrollMessage::<17>::new("AB").is_ok());
    assert_eq!(ScrollMessage::<7>::new("A").err(), Some(CapacityError));
    assert!(ScrollMessage::<8>::new("A").is_ok());
    assert_eq!(ScrollMessage::<0>::new("A").err(), Some(CapacityError));
}

/// An empty message fits any capacity and is finished from the start.
#[test]
fn empty_message_is_finished_immediately() {
    let mut anim = ScrollMessage::<0>::new("").unwrap();
    assert!(anim.is_finished());
    anim.reset();
    assert!(anim.is_finished());
}

/// After a reset the animation replays from its first frame.
#[test]
fn reset_replays_from_first_frame() {
    let mut anim = ScrollMessage::<16>::new("AB").unwrap();
    let first = *anim.next();
    for _ in 0..7 {
        anim.next();
    }
    assert!(!anim.is_finished());
    anim.reset();
    assert!(!anim.is_finished());
    assert_eq!(*anim.next(), first);
}

/// A reset from the finished state replays the whole sequence.
#[test]
fn reset_after_finish() {
    let mut anim = ScrollMessage::<8>::new("Z").unwrap();
    let expected = expected_frames(b'Z');
    while !anim.is_finished() {
        anim.next();
    }
    anim.reset();
    for i in 0..8 {
        assert!(!anim.is_finished());
        assert_eq!(*anim.next(), expected[i]);
    }
    assert!(anim.is_finished());
}

/// The frame count is eight times the message length.
#[test]
fn frame_count_is_eight_per_character() {
    let mut anim = ScrollMessage::<40>::new("HELLO").unwrap();
    let mut count = 0;
    while !anim.is_finished() {
        anim.next();
        count += 1;
    }
    assert_eq!(count, 40);
}
