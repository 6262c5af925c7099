use rustsam::reciter::{text_to_phonemes, ReciterError, RuleSet};

#[test]
fn sanity() {
    assert_eq!(text_to_phonemes("").unwrap(), "");
}

#[test]
fn single_letter_words() {
    assert_eq!(text_to_phonemes("A").unwrap(), "AH");
    assert_eq!(text_to_phonemes("i").unwrap(), "AY4");
}

#[test]
fn no_trailing_boundary_blank() {
    let out = text_to_phonemes("me").unwrap();
    assert_eq!(out, "MIY");
    assert!(!out.ends_with(' '));
}

#[test]
fn custom_rules_replace_letters() {
    let characters: Vec<(&'static str, &'static str)> = vec![];
    let letters: Vec<(&'static str, &'static str)> = vec![("(A)", "EY")];
    let rules = RuleSet::from_tables(&characters, &letters).unwrap();
    assert_eq!(rules.transcribe("aa").unwrap(), "EYEY");
    assert_eq!(rules.transcribe("a a").unwrap(), "EY EY");
}

#[test]
fn missing_letter_rules() {
    let characters: Vec<(&'static str, &'static str)> = vec![];
    let letters: Vec<(&'static str, &'static str)> = vec![("(A)", "EY")];
    let rules = RuleSet::from_tables(&characters, &letters).unwrap();
    assert_eq!(rules.transcribe("b").unwrap_err(), ReciterError::NoRulesForCharacter('B'));
}

#[test]
fn no_matching_character_rule() {
    let characters: Vec<(&'static str, &'static str)> = vec![];
    let letters: Vec<(&'static str, &'static str)> = vec![];
    let rules = RuleSet::from_tables(&characters, &letters).unwrap();
    assert_eq!(rules.transcribe("1").unwrap_err(), ReciterError::NoMatchingCharacterRuleFoundAtIndex(1));
}

#[test]
fn no_matching_letter_rule() {
    let characters: Vec<(&'static str, &'static str)> = vec![];
    let letters: Vec<(&'static str, &'static str)> = vec![(" (A) ", "EY")];
    let rules = RuleSet::from_tables(&characters, &letters).unwrap();
    assert_eq!(rules.transcribe("a").unwrap(), "EY");
    assert_eq!(rules.transcribe("aa").unwrap_err(), ReciterError::NoMatchingRuleFoundAtIndex(1));
}

#[test]
fn bad_punctuation() {
    assert_eq!(text_to_phonemes("`").unwrap_err(), ReciterError::BadPunctuation);
}

#[test]
fn malformed_patterns() {
    let characters: Vec<(&'static str, &'static str)> = vec![];
    let no_open: Vec<(&'static str, &'static str)> = vec![("A)", "EY")];
    let no_close: Vec<(&'static str, &'static str)> = vec![("(A", "EY")];
    assert_eq!(RuleSet::from_tables(&characters, &no_open).err(), Some(ReciterError::MissingOpenParenthesis));
    assert_eq!(RuleSet::from_tables(&characters, &no_close).err(), Some(ReciterError::MissingCloseParenthesis));
}

#[test]
fn period_not_before_digit() {
    assert_eq!(text_to_phonemes("i.").unwrap(), "AY4.");
}
