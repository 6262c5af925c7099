use rustsam::parser::{parse_phonemes, Phoneme};
use rustsam::renderer::{render, transition_widths};

#[test]
fn output_length_formula() {
    let events = vec![Phoneme { length: 10, index: 5, stress: 0 }];
    assert_eq!(render(&events, 64, 128, 128, 72, false).len(), 127008);
    let short = vec![Phoneme { length: 1, index: 5, stress: 0 }];
    assert_eq!(render(&short, 64, 128, 128, 1, false).len(), 177);
}

#[test]
fn zero_speed_or_no_events() {
    let events = vec![Phoneme { length: 10, index: 5, stress: 0 }];
    assert_eq!(render(&events, 64, 128, 128, 0, false).len(), 0);
    assert_eq!(render(&[], 64, 128, 128, 72, false).len(), 0);
}

#[test]
fn compiled_word_renders() {
    let events = parse_phonemes("TRAE4K").unwrap();
    let samples = render(&events, 64, 128, 128, 72, false);
    assert_eq!(samples.len(), 508032);
    assert!(samples.iter().any(|s| *s != 0));
}

#[test]
fn equal_rank_uses_out_widths() {
    assert_eq!(transition_widths(18, 5), (3, 4));
    assert_eq!(transition_widths(5, 18), (4, 3));
}

#[test]
fn unequal_rank_widths() {
    // LX (rank 8) is stronger than S* (rank 18): its out and in widths are used.
    assert_eq!(transition_widths(19, 32), (2, 3));
    assert_eq!(transition_widths(32, 19), (3, 2));
}

#[test]
fn sing_mode_keeps_the_pitch_contour_flat() {
    let events = parse_phonemes("AA5").unwrap();
    let spoken = render(&events, 64, 128, 128, 72, false);
    let sung = render(&events, 64, 128, 128, 72, true);
    assert_eq!(spoken.len(), sung.len());
    assert_ne!(spoken, sung);
}

#[test]
fn rendering_is_repeatable() {
    let events = parse_phonemes("/HEH4LOW WERLD?").unwrap();
    let a = render(&events, 64, 128, 128, 72, false);
    let b = render(&events, 64, 128, 128, 72, false);
    assert_eq!(a, b);
}

#[test]
fn text_to_samples() {
    let codes = rustsam::reciter::text_to_phonemes("me").unwrap();
    let events = parse_phonemes(&codes).unwrap();
    let total: usize = events.iter().map(|e| e.length as usize).sum();
    let samples = render(&events, 64, 128, 128, 72, false);
    assert_eq!(samples.len(), (total * 72 * 1764 + 9) / 10);
}
