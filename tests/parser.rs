use rustsam::parser::{parse_phonemes, ParseError, Phoneme};

fn ev(index: usize, length: u8, stress: u8) -> Phoneme {
    Phoneme { length, index, stress }
}

#[test]
fn t_before_r_becomes_ch() {
    let events = parse_phonemes("TRAE4K").unwrap();
    assert_eq!(
        events,
        vec![ev(42, 6, 0), ev(23, 10, 5), ev(8, 13, 4), ev(75, 6, 0), ev(76, 1, 0), ev(77, 4, 0)]
    );
}

#[test]
fn d_before_r_becomes_j() {
    let events = parse_phonemes("DRAY5").unwrap();
    assert_eq!(events, vec![ev(44, 8, 0), ev(23, 10, 6), ev(49, 15, 5), ev(21, 8, 5)]);
}

#[test]
fn syllabic_ul_splits_in_two() {
    let events = parse_phonemes("UL3").unwrap();
    assert_eq!(events.len(), 2);
    assert_eq!(events[0], ev(13, 6, 3));
    assert_eq!(events[1].stress, 3);
}

#[test]
fn compile_is_repeatable() {
    let a = parse_phonemes("/HEH4LOW WERLD.").unwrap();
    let b = parse_phonemes("/HEH4LOW WERLD.").unwrap();
    assert_eq!(a, b);
}

#[test]
fn no_pause_in_output() {
    let events = parse_phonemes("/HEH4LOW WERLD.").unwrap();
    assert!(!events.is_empty());
    assert!(events.iter().all(|e| e.index != 0));
}

#[test]
fn stress_without_phoneme() {
    assert_eq!(parse_phonemes("3").unwrap_err(), ParseError::StressWithoutPhoneme);
}

#[test]
fn unrecognized_character() {
    assert_eq!(parse_phonemes("AH$").unwrap_err(), ParseError::UnrecognizedCharacter('$'));
}

#[test]
fn empty_code_compiles_to_nothing() {
    assert_eq!(parse_phonemes("").unwrap(), vec![]);
}
