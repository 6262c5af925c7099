//! The transcriber: English text becomes a phoneme-code string through
//! context-sensitive rewrite rules, the first matching rule winning.

use vstd::prelude::*;
use crate::text::chars_of;
use crate::rules::{character_patterns, character_table, letter_patterns, letter_table};

verus! {

/// Why a text could not be transcribed, or a rule pattern not read.
#[derive(Debug, PartialEq, Eq, Structural)]
pub enum ReciterError {
    BadPunctuation,
    MissingOpenParenthesis,
    MissingCloseParenthesis,
    NoRulesForCharacter(char),
    NoMatchingRuleFoundAtIndex(usize),
    NoMatchingCharacterRuleFoundAtIndex(usize),
}

/// The class flags of a character (zero for characters outside the table).
pub open spec fn char_flags(c: char) -> u8 {
    match c {
        '!' => 0x02,
        '"' => 0x02,
        '#' => 0x02,
        '$' => 0x02,
        '%' => 0x02,
        '&' => 0x02,
        '\'' => 0x82,
        '*' => 0x02,
        '+' => 0x02,
        ',' => 0x02,
        '-' => 0x02,
        '.' => 0x02,
        '/' => 0x02,
        '0' => 0x03,
        '1' => 0x03,
        '2' => 0x03,
        '3' => 0x03,
        '4' => 0x03,
        '5' => 0x03,
        '6' => 0x03,
        '7' => 0x03,
        '8' => 0x03,
        '9' => 0x03,
        ':' => 0x02,
        ';' => 0x02,
        '<' => 0x02,
        '=' => 0x02,
        '>' => 0x02,
        '?' => 0x02,
        '@' => 0x02,
        'A' => 0xc0,
        'B' => 0xa8,
        'C' => 0xb0,
        'D' => 0xac,
        'E' => 0xc0,
        'F' => 0xa0,
        'G' => 0xb8,
        'H' => 0xa0,
        'I' => 0xc0,
        'J' => 0xbc,
        'K' => 0xa0,
        'L' => 0xac,
        'M' => 0xa8,
        'N' => 0xac,
        'O' => 0xc0,
        'P' => 0xa0,
        'Q' => 0xa0,
        'R' => 0xac,
        'S' => 0xb4,
        'T' => 0xa4,
        'U' => 0xc0,
        'V' => 0xa8,
        'W' => 0xa8,
        'X' => 0xb0,
        'Y' => 0xc0,
        'Z' => 0xbc,
        '^' => 0x02,
        '`' => 0x20,
        _ => 0x00,
    }
}

/// The class flags of a character (zero for characters outside the table).
pub fn flags_for_character(c: char) -> (r: u8)
    ensures
        r == char_flags(c),
{
    match c {
        '!' => 0x02,
        '"' => 0x02,
        '#' => 0x02,
        '$' => 0x02,
        '%' => 0x02,
        '&' => 0x02,
        '\'' => 0x82,
        '*' => 0x02,
        '+' => 0x02,
        ',' => 0x02,
        '-' => 0x02,
        '.' => 0x02,
        '/' => 0x02,
        '0' => 0x03,
        '1' => 0x03,
        '2' => 0x03,
        '3' => 0x03,
        '4' => 0x03,
        '5' => 0x03,
        '6' => 0x03,
        '7' => 0x03,
        '8' => 0x03,
        '9' => 0x03,
        ':' => 0x02,
        ';' => 0x02,
        '<' => 0x02,
        '=' => 0x02,
        '>' => 0x02,
        '?' => 0x02,
        '@' => 0x02,
        'A' => 0xc0,
        'B' => 0xa8,
        'C' => 0xb0,
        'D' => 0xac,
        'E' => 0xc0,
        'F' => 0xa0,
        'G' => 0xb8,
        'H' => 0xa0,
        'I' => 0xc0,
        'J' => 0xbc,
        'K' => 0xa0,
        'L' => 0xac,
        'M' => 0xa8,
        'N' => 0xac,
        'O' => 0xc0,
        'P' => 0xa0,
        'Q' => 0xa0,
        'R' => 0xac,
        'S' => 0xb4,
        'T' => 0xa4,
        'U' => 0xc0,
        'V' => 0xa8,
        'W' => 0xa8,
        'X' => 0xb0,
        'Y' => 0xc0,
        'Z' => 0xbc,
        '^' => 0x02,
        '`' => 0x20,
        _ => 0x00,
    }
}

/// Whether a character has no class flag at all.
pub open spec fn is_unflagged(c: char) -> bool {
    char_flags(c) == 0
}

/// Whether a character is a digit.
pub open spec fn is_numeric(c: char) -> bool {
    match c {
        '0' | '1' | '2' | '3' | '4' | '5' | '6' | '7' | '8' | '9' => true,
        _ => false,
    }
}

fn is_numeric_char(c: char) -> (r: bool)
    ensures
        r == is_numeric(c),
{
    match c {
        '0' | '1' | '2' | '3' | '4' | '5' | '6' | '7' | '8' | '9' => true,
        _ => false,
    }
}

/// Whether a character is handled by the character rules.
pub open spec fn uses_character_rules(c: char) -> bool {
    match c {
        '!' | '"' | '#' | '$' | '%' | '&' | '\'' | '*' | '+' | ',' | '-' | '.' | '/' | '0' | '1' | '2' | '3' | '4' | '5' | '6' | '7' | '8' | '9' | ':' | ';' | '<' | '=' | '>' | '?' | '@' | '^' => true,
        _ => false,
    }
}

fn uses_character_rules_char(c: char) -> (r: bool)
    ensures
        r == uses_character_rules(c),
{
    match c {
        '!' | '"' | '#' | '$' | '%' | '&' | '\'' | '*' | '+' | ',' | '-' | '.' | '/' | '0' | '1' | '2' | '3' | '4' | '5' | '6' | '7' | '8' | '9' | ':' | ';' | '<' | '=' | '>' | '?' | '@' | '^' => true,
        _ => false,
    }
}

/// Whether a character is voiced.
pub open spec fn is_voiced_letter(c: char) -> bool {
    match c {
        'D' | 'J' | 'L' | 'N' | 'R' | 'S' | 'T' | 'Z' => true,
        _ => false,
    }
}

fn is_voiced_letter_char(c: char) -> (r: bool)
    ensures
        r == is_voiced_letter(c),
{
    match c {
        'D' | 'J' | 'L' | 'N' | 'R' | 'S' | 'T' | 'Z' => true,
        _ => false,
    }
}

/// Whether a character is in class 8 (B D G J L M N R V W Z).
pub open spec fn is_class8_letter(c: char) -> bool {
    match c {
        'B' | 'D' | 'G' | 'J' | 'L' | 'M' | 'N' | 'R' | 'V' | 'W' | 'Z' => true,
        _ => false,
    }
}

fn is_class8_letter_char(c: char) -> (r: bool)
    ensures
        r == is_class8_letter(c),
{
    match c {
        'B' | 'D' | 'G' | 'J' | 'L' | 'M' | 'N' | 'R' | 'V' | 'W' | 'Z' => true,
        _ => false,
    }
}

/// Whether a character is a diphthong starter (C G J S X Z).
pub open spec fn is_diphthong_letter(c: char) -> bool {
    match c {
        'C' | 'G' | 'J' | 'S' | 'X' | 'Z' => true,
        _ => false,
    }
}

fn is_diphthong_letter_char(c: char) -> (r: bool)
    ensures
        r == is_diphthong_letter(c),
{
    match c {
        'C' | 'G' | 'J' | 'S' | 'X' | 'Z' => true,
        _ => false,
    }
}

/// Whether a character is a consonant.
pub open spec fn is_consonant_letter(c: char) -> bool {
    match c {
        'B' | 'C' | 'D' | 'F' | 'G' | 'H' | 'J' | 'K' | 'L' | 'M' | 'N' | 'P' | 'Q' | 'R' | 'S' | 'T' | 'V' | 'W' | 'X' | 'Z' | '`' => true,
        _ => false,
    }
}

fn is_consonant_letter_char(c: char) -> (r: bool)
    ensures
        r == is_consonant_letter(c),
{
    match c {
        'B' | 'C' | 'D' | 'F' | 'G' | 'H' | 'J' | 'K' | 'L' | 'M' | 'N' | 'P' | 'Q' | 'R' | 'S' | 'T' | 'V' | 'W' | 'X' | 'Z' | '`' => true,
        _ => false,
    }
}

/// Whether a character is a vowel or Y.
pub open spec fn is_vowel_or_y(c: char) -> bool {
    match c {
        'A' | 'E' | 'I' | 'O' | 'U' | 'Y' => true,
        _ => false,
    }
}

fn is_vowel_or_y_char(c: char) -> (r: bool)
    ensures
        r == is_vowel_or_y(c),
{
    match c {
        'A' | 'E' | 'I' | 'O' | 'U' | 'Y' => true,
        _ => false,
    }
}

/// Whether a character is a letter or an apostrophe.
pub open spec fn is_alpha_or_quote(c: char) -> bool {
    match c {
        '\'' | 'A' | 'B' | 'C' | 'D' | 'E' | 'F' | 'G' | 'H' | 'I' | 'J' | 'K' | 'L' | 'M' | 'N' | 'O' | 'P' | 'Q' | 'R' | 'S' | 'T' | 'U' | 'V' | 'W' | 'X' | 'Y' | 'Z' => true,
        _ => false,
    }
}

fn is_alpha_or_quote_char(c: char) -> (r: bool)
    ensures
        r == is_alpha_or_quote(c),
{
    match c {
        '\'' | 'A' | 'B' | 'C' | 'D' | 'E' | 'F' | 'G' | 'H' | 'I' | 'J' | 'K' | 'L' | 'M' | 'N' | 'O' | 'P' | 'Q' | 'R' | 'S' | 'T' | 'U' | 'V' | 'W' | 'X' | 'Y' | 'Z' => true,
        _ => false,
    }
}

// ---------------------------------------------------------------- rules

/// A rewrite rule `prefix(source)suffix=target`: `source` is replaced by
/// `target` where the context patterns hold to its left and right.
pub struct ReciterRule<'a> {
    pub prefix: Vec<char>,
    pub source: Vec<char>,
    pub suffix: Vec<char>,
    pub target: &'a str,
}

/// The mathematical content of a rule.
pub struct RuleView {
    pub prefix: Seq<char>,
    pub source: Seq<char>,
    pub suffix: Seq<char>,
    pub target: Seq<char>,
}

impl<'a> ReciterRule<'a> {
    pub open spec fn view(&self) -> RuleView {
        RuleView {
            prefix: self.prefix@,
            source: self.source@,
            suffix: self.suffix@,
            target: self.target@,
        }
    }
}

/// The first position at or after `from` where `s` holds `c`.
pub open spec fn index_of(s: Seq<char>, c: char, from: int) -> Option<int>
    decreases s.len() - from,
{
    if from < 0 || from >= s.len() {
        None
    } else if s[from] == c {
        Some(from)
    } else {
        index_of(s, c, from + 1)
    }
}

/// A pattern `prefix(source)suffix` split into its three parts.
pub open spec fn split_pattern(p: Seq<char>) -> Result<(Seq<char>, Seq<char>, Seq<char>), ReciterError> {
    match index_of(p, '(', 0) {
        None => Err(ReciterError::MissingOpenParenthesis),
        Some(open) => match index_of(p, ')', open + 1) {
            None => Err(ReciterError::MissingCloseParenthesis),
            Some(close) => Ok((p.subrange(0, open), p.subrange(open + 1, close), p.subrange(close + 1, p.len() as int))),
        },
    }
}

proof fn lemma_index_of_bounds(s: Seq<char>, c: char, from: int)
    ensures
        index_of(s, c, from) matches Some(k) ==> from <= k < s.len() && s[k] == c,
    decreases s.len() - from,
{
    if 0 <= from < s.len() && s[from] != c {
        lemma_index_of_bounds(s, c, from + 1);
    }
}

fn find_char(s: &Vec<char>, c: char, from: usize) -> (r: Option<usize>)
    ensures
        r matches Some(k) ==> index_of(s@, c, from as int) == Some(k as int),
        r is None ==> index_of(s@, c, from as int) is None,
{
    let mut i = from;
    while i < s.len()
        invariant
            from <= i,
            index_of(s@, c, from as int) == index_of(s@, c, i as int),
        decreases s@.len() - i,
    {
        if s[i] == c {
            return Some(i);
        }
        i += 1;
    }
    None
}

fn copy_range(s: &Vec<char>, lo: usize, hi: usize) -> (r: Vec<char>)
    requires
        lo <= hi <= s@.len(),
    ensures
        r@ == s@.subrange(lo as int, hi as int),
{
    let mut out: Vec<char> = Vec::new();
    let mut i = lo;
    while i < hi
        invariant
            lo <= i <= hi <= s@.len(),
            out@ == s@.subrange(lo as int, i as int),
        decreases hi - i,
    {
        out.push(s[i]);
        i += 1;
        assert(out@ =~= s@.subrange(lo as int, i as int));
    }
    out
}

impl<'a> ReciterRule<'a> {
    /// Read a rule from its pattern `prefix(source)suffix` and its replacement.
    pub fn new(pattern: &'a str, replacement: &'a str) -> (r: Result<Self, ReciterError>)
        ensures
            match r {
                Ok(rule) => split_pattern(pattern@) == Ok::<_, ReciterError>(
                    (rule.prefix@, rule.source@, rule.suffix@),
                ) && rule.target@ == replacement@,
                Err(e) => split_pattern(pattern@) == Err::<(Seq<char>, Seq<char>, Seq<char>), _>(e),
            },
    {
        let p = chars_of(pattern);
        let open = match find_char(&p, '(', 0) {
            Some(open) => open,
            None => {
                return Err(ReciterError::MissingOpenParenthesis);
            },
        };
        proof {
            lemma_index_of_bounds(p@, '(', 0);
        }
        let close = match find_char(&p, ')', open + 1) {
            Some(close) => close,
            None => {
                return Err(ReciterError::MissingCloseParenthesis);
            },
        };
        proof {
            lemma_index_of_bounds(p@, ')', open + 1);
        }
        let prefix = copy_range(&p, 0, open);
        let source = copy_range(&p, open + 1, close);
        let suffix = copy_range(&p, close + 1, p.len());
        Ok(ReciterRule { prefix, source, suffix, target: replacement })
    }
}

// ---------------------------------------------------------------- context

/// The start of the run of consonants that ends right before `pos`.
pub open spec fn run_start(t: Seq<char>, pos: int) -> int
    decreases pos,
{
    if pos >= 1 && is_consonant_letter(t[pos - 1]) {
        run_start(t, pos - 1)
    } else {
        pos
    }
}

/// The end of the run of consonants that starts right after `pos`.
pub open spec fn run_end(t: Seq<char>, pos: int) -> int
    decreases t.len() - pos,
{
    if 0 <= pos && pos + 1 < t.len() && is_consonant_letter(t[pos + 1]) {
        run_end(t, pos + 1)
    } else {
        pos
    }
}

/// The last `k` characters of a prefix pattern hold walking left from `pos`
/// (the first character left of the source is `t[pos - 1]`).
pub open spec fn prefix_ok(t: Seq<char>, pre: Seq<char>, k: int, pos: int) -> bool
    decreases k,
{
    if k <= 0 {
        true
    } else {
        let c = pre[k - 1];
        if is_alpha_or_quote(c) {
            pos >= 1 && t[pos - 1] == c && prefix_ok(t, pre, k - 1, pos - 1)
        } else if c == ' ' {
            pos >= 1 && !is_alpha_or_quote(t[pos - 1]) && prefix_ok(t, pre, k - 1, pos - 1)
        } else if c == '#' {
            pos >= 1 && is_vowel_or_y(t[pos - 1]) && prefix_ok(t, pre, k - 1, pos - 1)
        } else if c == '.' {
            pos >= 1 && is_class8_letter(t[pos - 1]) && prefix_ok(t, pre, k - 1, pos - 1)
        } else if c == '&' {
            if pos >= 1 && is_diphthong_letter(t[pos - 1]) {
                prefix_ok(t, pre, k - 1, pos - 1)
            } else if pos >= 2 && t[pos - 2] == 'C' && t[pos - 1] == 'H' {
                prefix_ok(t, pre, k - 1, pos - 2)
            } else if pos >= 2 && t[pos - 2] == 'S' && t[pos - 1] == 'H' {
                prefix_ok(t, pre, k - 1, pos - 2)
            } else {
                false
            }
        } else if c == '@' {
            pos >= 1 && is_voiced_letter(t[pos - 1]) && prefix_ok(t, pre, k - 1, pos - 1)
        } else if c == '^' {
            pos >= 1 && is_consonant_letter(t[pos - 1]) && prefix_ok(t, pre, k - 1, pos - 1)
        } else if c == '+' {
            pos >= 1 && (t[pos - 1] == 'E' || t[pos - 1] == 'I' || t[pos - 1] == 'Y') && prefix_ok(
                t,
                pre,
                k - 1,
                pos - 1,
            )
        } else if c == ':' {
            prefix_ok(t, pre, k - 1, run_start(t, pos))
        } else {
            false
        }
    }
}

/// How far the `%` pattern reaches right of `pos` (ING, E at a word end,
/// ER/ES/ED, ELY, EFUL), if it matches.
pub open spec fn percent_reach(t: Seq<char>, pos: int) -> Option<int> {
    let n = t.len();
    if pos + 3 < n && t[pos + 1] == 'I' && t[pos + 2] == 'N' && t[pos + 3] == 'G' {
        Some(3)
    } else if pos + 1 < n && t[pos + 1] == 'E' && (pos + 2 >= n || !is_alpha_or_quote(t[pos + 2])) {
        Some(1)
    } else if pos + 2 < n && t[pos + 1] == 'E' && (t[pos + 2] == 'R' || t[pos + 2] == 'S' || t[pos
        + 2] == 'D') {
        Some(2)
    } else if pos + 3 < n && t[pos + 1] == 'E' && t[pos + 2] == 'L' && t[pos + 3] == 'Y' {
        Some(3)
    } else if pos + 4 < n && t[pos + 1] == 'E' && t[pos + 2] == 'F' && t[pos + 3] == 'U' && t[pos
        + 4] == 'L' {
        Some(4)
    } else {
        None
    }
}

/// The suffix pattern from its `j`-th character holds walking right from
/// `pos` (the first character right of the source is `t[pos + 1]`).
pub open spec fn suffix_ok(t: Seq<char>, suf: Seq<char>, j: int, pos: int) -> bool
    decreases suf.len() - j,
{
    if j < 0 || j >= suf.len() || pos < 0 {
        j >= suf.len()
    } else {
        let c = suf[j];
        let n = t.len();
        if is_alpha_or_quote(c) {
            pos + 1 < n && t[pos + 1] == c && suffix_ok(t, suf, j + 1, pos + 1)
        } else if c == ' ' {
            pos + 1 < n && !is_alpha_or_quote(t[pos + 1]) && suffix_ok(t, suf, j + 1, pos + 1)
        } else if c == '#' {
            pos + 1 < n && is_vowel_or_y(t[pos + 1]) && suffix_ok(t, suf, j + 1, pos + 1)
        } else if c == '.' {
            pos + 1 < n && is_class8_letter(t[pos]) && suffix_ok(t, suf, j + 1, pos + 1)
        } else if c == '&' {
            if pos + 1 < n && is_diphthong_letter(t[pos + 1]) {
                suffix_ok(t, suf, j + 1, pos + 1)
            } else if pos + 2 < n && t[pos + 1] == 'H' && (t[pos + 2] == 'C' || t[pos + 2] == 'S') {
                suffix_ok(t, suf, j + 1, pos + 2)
            } else {
                false
            }
        } else if c == '@' {
            pos + 1 < n && (is_voiced_letter(t[pos + 1]) || t[pos + 1] == 'H') && suffix_ok(
                t,
                suf,
                j + 1,
                pos + 1,
            )
        } else if c == '^' {
            pos + 1 < n && is_consonant_letter(t[pos + 1]) && suffix_ok(t, suf, j + 1, pos + 1)
        } else if c == '+' {
            pos + 1 < n && (t[pos + 1] == 'E' || t[pos + 1] == 'I' || t[pos + 1] == 'Y') && suffix_ok(
                t,
                suf,
                j + 1,
                pos + 1,
            )
        } else if c == ':' {
            suffix_ok(t, suf, j + 1, run_end(t, pos))
        } else if c == '%' {
            match percent_reach(t, pos) {
                Some(d) => suffix_ok(t, suf, j + 1, pos + d),
                None => false,
            }
        } else {
            false
        }
    }
}

proof fn lemma_run_start_bounds(t: Seq<char>, pos: int)
    requires
        0 <= pos,
    ensures
        0 <= run_start(t, pos) <= pos,
    decreases pos,
{
    if pos >= 1 && is_consonant_letter(t[pos - 1]) {
        lemma_run_start_bounds(t, pos - 1);
    }
}

proof fn lemma_run_end_bounds(t: Seq<char>, pos: int)
    requires
        0 <= pos < t.len(),
    ensures
        pos <= run_end(t, pos) < t.len(),
    decreases t.len() - pos,
{
    if pos + 1 < t.len() && is_consonant_letter(t[pos + 1]) {
        lemma_run_end_bounds(t, pos + 1);
    }
}

impl<'a> ReciterRule<'a> {
    /// Whether the prefix pattern holds left of `position`.
    pub fn check_prefix(&self, text: &Vec<char>, position: usize) -> (r: bool)
        requires
            position <= text@.len(),
        ensures
            r == prefix_ok(text@, self.prefix@, self.prefix@.len() as int, position as int),
    {
        let mut k = self.prefix.len();
        let mut pos = position;
        while k > 0
            invariant
                k <= self.prefix@.len(),
                pos <= text@.len(),
                prefix_ok(text@, self.prefix@, self.prefix@.len() as int, position as int)
                    == prefix_ok(text@, self.prefix@, k as int, pos as int),
            decreases k,
        {
            let c = self.prefix[k - 1];
            if is_alpha_or_quote_char(c) {
                if pos == 0 || text[pos - 1] != c {
                    return false;
                }
                pos -= 1;
            } else if c == ' ' {
                if pos >= 1 && !is_alpha_or_quote_char(text[pos - 1]) {
                    pos -= 1;
                } else {
                    return false;
                }
            } else if c == '#' {
                if pos >= 1 && is_vowel_or_y_char(text[pos - 1]) {
                    pos -= 1;
                } else {
                    return false;
                }
            } else if c == '.' {
                if pos >= 1 && is_class8_letter_char(text[pos - 1]) {
                    pos -= 1;
                } else {
                    return false;
                }
            } else if c == '&' {
                if pos >= 1 && is_diphthong_letter_char(text[pos - 1]) {
                    pos -= 1;
                } else if pos >= 2 && text[pos - 2] == 'C' && text[pos - 1] == 'H' {
                    pos -= 2;
                } else if pos >= 2 && text[pos - 2] == 'S' && text[pos - 1] == 'H' {
                    pos -= 2;
                } else {
                    return false;
                }
            } else if c == '@' {
                if pos >= 1 && is_voiced_letter_char(text[pos - 1]) {
                    pos -= 1;
                } else {
                    return false;
                }
            } else if c == '^' {
                if pos >= 1 && is_consonant_letter_char(text[pos - 1]) {
                    pos -= 1;
                } else {
                    return false;
                }
            } else if c == '+' {
                if pos >= 1 && (text[pos - 1] == 'E' || text[pos - 1] == 'I' || text[pos - 1] == 'Y') {
                    pos -= 1;
                } else {
                    return false;
                }
            } else if c == ':' {
                let ghost from = pos as int;
                while pos >= 1 && is_consonant_letter_char(text[pos - 1])
                    invariant
                        pos <= from <= text@.len(),
                        run_start(text@, from) == run_start(text@, pos as int),
                    decreases pos,
                {
                    pos -= 1;
                }
            } else {
                return false;
            }
            k -= 1;
        }
        true
    }

    /// Whether the suffix pattern holds right of `position`, the last
    /// character of the source.
    pub fn check_suffix(&self, text: &Vec<char>, position: usize) -> (r: bool)
        requires
            position < text@.len(),
        ensures
            r == suffix_ok(text@, self.suffix@, 0, position as int),
    {
        let n = text.len();
        let mut j: usize = 0;
        let mut pos = position;
        while j < self.suffix.len()
            invariant
                n == text@.len(),
                j <= self.suffix@.len(),
                pos < n,
                suffix_ok(text@, self.suffix@, 0, position as int) == suffix_ok(
                    text@,
                    self.suffix@,
                    j as int,
                    pos as int,
                ),
            decreases self.suffix@.len() - j,
        {
            let c = self.suffix[j];
            if is_alpha_or_quote_char(c) {
                if pos + 1 >= n || text[pos + 1] != c {
                    return false;
                }
                pos += 1;
            } else if c == ' ' {
                if pos + 1 < n && !is_alpha_or_quote_char(text[pos + 1]) {
                    pos += 1;
                } else {
                    return false;
                }
            } else if c == '#' {
                if pos + 1 < n && is_vowel_or_y_char(text[pos + 1]) {
                    pos += 1;
                } else {
                    return false;
                }
            } else if c == '.' {
                if pos + 1 < n && is_class8_letter_char(text[pos]) {
                    pos += 1;
                } else {
                    return false;
                }
            } else if c == '&' {
                if pos + 1 < n && is_diphthong_letter_char(text[pos + 1]) {
                    pos += 1;
                } else if n - pos > 2 && text[pos + 1] == 'H' && (text[pos + 2] == 'C' || text[pos + 2]
                    == 'S') {
                    pos += 2;
                } else {
                    return false;
                }
            } else if c == '@' {
                if pos + 1 < n && (is_voiced_letter_char(text[pos + 1]) || text[pos + 1] == 'H') {
                    pos += 1;
                } else {
                    return false;
                }
            } else if c == '^' {
                if pos + 1 < n && is_consonant_letter_char(text[pos + 1]) {
                    pos += 1;
                } else {
                    return false;
                }
            } else if c == '+' {
                if pos + 1 < n && (text[pos + 1] == 'E' || text[pos + 1] == 'I' || text[pos + 1] == 'Y') {
                    pos += 1;
                } else {
                    return false;
                }
            } else if c == ':' {
                let ghost from = pos as int;
                while pos + 1 < n && is_consonant_letter_char(text[pos + 1])
                    invariant
                        n == text@.len(),
                        from <= pos < n,
                        run_end(text@, from) == run_end(text@, pos as int),
                    decreases n - pos,
                {
                    pos += 1;
                }
            } else if c == '%' {
                if n - pos > 3 && text[pos + 1] == 'I' && text[pos + 2] == 'N' && text[pos + 3] == 'G' {
                    pos += 3;
                } else if pos + 1 < n && text[pos + 1] == 'E' && (n - pos <= 2 || !is_alpha_or_quote_char(text[pos + 2])) {
                    pos += 1;
                } else if n - pos > 2 && text[pos + 1] == 'E' && (text[pos + 2] == 'R' || text[pos + 2] == 'S'
                    || text[pos + 2] == 'D') {
                    pos += 2;
                } else if n - pos > 3 && text[pos + 1] == 'E' && text[pos + 2] == 'L' && text[pos + 3] == 'Y' {
                    pos += 3;
                } else if n - pos > 4 && text[pos + 1] == 'E' && text[pos + 2] == 'F' && text[pos + 3] == 'U'
                    && text[pos + 4] == 'L' {
                    pos += 4;
                } else {
                    return false;
                }
            } else {
                return false;
            }
            j += 1;
        }
        true
    }
}

// ---------------------------------------------------------------- matching

/// Rule `r` applies at position `pos` of the padded text `t`: its source is
/// spelled there and both context patterns hold.
pub open spec fn rule_matches(r: RuleView, t: Seq<char>, pos: int) -> bool {
    &&& r.source.len() > 0
    &&& 0 <= pos
    &&& pos + r.source.len() <= t.len()
    &&& t.subrange(pos, pos + r.source.len()) == r.source
    &&& prefix_ok(t, r.prefix, r.prefix.len() as int, pos)
    &&& suffix_ok(t, r.suffix, 0, pos + r.source.len() - 1)
}

impl<'a> ReciterRule<'a> {
    /// Whether this rule applies at `position` of `text`.
    pub fn matches(&self, text: &Vec<char>, position: usize) -> (r: bool)
        requires
            position < text@.len(),
        ensures
            r == rule_matches(self.view(), text@, position as int),
    {
        let m = self.source.len();
        if m == 0 || m > text.len() - position {
            return false;
        }
        let tl = text.len();
        let mut i: usize = 0;
        while i < m
            invariant
                tl == text@.len(),
                m == self.source@.len(),
                position + m <= text@.len(),
                i <= m,
                text@.subrange(position as int, position + i) == self.source@.subrange(0, i as int),
            decreases m - i,
        {
            if text[position + i] != self.source[i] {
                assert(text@.subrange(position as int, position + m)[i as int] != self.source@[i as int]);
                return false;
            }
            i += 1;
            assert(text@.subrange(position as int, position + i) =~= self.source@.subrange(0, i as int));
        }
        assert(self.source@.subrange(0, m as int) =~= self.source@);
        if !self.check_prefix(text, position) {
            return false;
        }
        self.check_suffix(text, position + m - 1)
    }
}

/// The views of a list of rules.
pub open spec fn views<'a>(rules: Seq<ReciterRule<'a>>) -> Seq<RuleView> {
    rules.map_values(|r: ReciterRule<'a>| r.view())
}

/// The first rule at or after `from` that applies at `pos`.
pub open spec fn first_match(rules: Seq<RuleView>, t: Seq<char>, pos: int, from: int) -> Option<int>
    decreases rules.len() - from,
{
    if from < 0 || from >= rules.len() {
        None
    } else if rule_matches(rules[from], t, pos) {
        Some(from)
    } else {
        first_match(rules, t, pos, from + 1)
    }
}

/// Some rule of the list has a source starting with `c`.
pub open spec fn has_rules_for(rules: Seq<RuleView>, c: char) -> bool {
    exists|k: int| 0 <= k < rules.len() && rules[k].source.len() > 0 && #[trigger] rules[k].source[0] == c
}

proof fn lemma_first_match_sound(rules: Seq<RuleView>, t: Seq<char>, pos: int, from: int)
    ensures
        first_match(rules, t, pos, from) matches Some(k) ==> 0 <= k < rules.len() && rule_matches(
            rules[k],
            t,
            pos,
        ),
    decreases rules.len() - from,
{
    if 0 <= from < rules.len() && !rule_matches(rules[from], t, pos) {
        lemma_first_match_sound(rules, t, pos, from + 1);
    }
}

fn find_rule<'a>(rules: &Vec<ReciterRule<'a>>, text: &Vec<char>, position: usize) -> (r: Option<usize>)
    requires
        position < text@.len(),
    ensures
        r matches Some(k) ==> first_match(views(rules@), text@, position as int, 0) == Some(k as int),
        r is None ==> first_match(views(rules@), text@, position as int, 0) is None,
{
    let mut k: usize = 0;
    while k < rules.len()
        invariant
            position < text@.len(),
            first_match(views(rules@), text@, position as int, 0) == first_match(
                views(rules@),
                text@,
                position as int,
                k as int,
            ),
        decreases rules@.len() - k,
    {
        assert(views(rules@)[k as int] == rules@[k as int].view());
        if rules[k].matches(text, position) {
            return Some(k);
        }
        k += 1;
    }
    None
}

fn has_rules_for_char<'a>(rules: &Vec<ReciterRule<'a>>, c: char) -> (r: bool)
    ensures
        r == has_rules_for(views(rules@), c),
{
    let mut k: usize = 0;
    while k < rules.len()
        invariant
            forall|j: int|
                0 <= j < k ==> !(views(rules@)[j].source.len() > 0 && #[trigger] views(
                    rules@,
                )[j].source[0] == c),
        decreases rules@.len() - k,
    {
        assert(views(rules@)[k as int] == rules@[k as int].view());
        if rules[k].source.len() > 0 && rules[k].source[0] == c {
            assert(views(rules@)[k as int].source[0] == c);
            return true;
        }
        k += 1;
    }
    false
}

// ---------------------------------------------------------------- transcribing

/// A rule set: the unconditional character rules, and the letter rules
/// (searched among those whose source starts with the letter at hand).
pub struct RuleSet<'a> {
    pub character_rules: Vec<ReciterRule<'a>>,
    pub letter_rules: Vec<ReciterRule<'a>>,
}

/// How far the scan moves past a matched source.
pub open spec fn advance(n: int) -> int {
    if n > 0 {
        n
    } else {
        1
    }
}

/// How many characters are left from `pos`.
pub open spec fn remaining(t: Seq<char>, pos: int) -> nat {
    if pos < t.len() {
        (t.len() - pos) as nat
    } else {
        0
    }
}

/// Scanning the padded text `t` from `pos`, with `out` the phoneme codes
/// emitted so far.
pub open spec fn scan(cr: Seq<RuleView>, lr: Seq<RuleView>, t: Seq<char>, pos: int, out: Seq<char>) -> Result<Seq<char>, ReciterError>
    decreases remaining(t, pos),
{
    if pos < 0 || pos >= t.len() {
        Ok(out)
    } else {
        let c = t[pos];
        if c == '.' && (pos + 1 >= t.len() || !is_numeric(t[pos + 1])) {
            scan(cr, lr, t, pos + 1, out.push('.'))
        } else if is_unflagged(c) {
            scan(cr, lr, t, pos + 1, out.push(' '))
        } else if uses_character_rules(c) {
            match first_match(cr, t, pos, 0) {
                Some(k) => scan(cr, lr, t, pos + advance(cr[k].source.len() as int), out + cr[k].target),
                None => Err(ReciterError::NoMatchingCharacterRuleFoundAtIndex(pos as usize)),
            }
        } else if !is_alpha_or_quote(c) {
            Err(ReciterError::BadPunctuation)
        } else if !has_rules_for(lr, c) {
            Err(ReciterError::NoRulesForCharacter(c))
        } else {
            match first_match(lr, t, pos, 0) {
                Some(k) => scan(cr, lr, t, pos + advance(lr[k].source.len() as int), out + lr[k].target),
                None => Err(ReciterError::NoMatchingRuleFoundAtIndex(pos as usize)),
            }
        }
    }
}

/// ASCII upper-casing of one character.
pub open spec fn upper_char(c: char) -> char {
    if 'a' <= c && c <= 'z' {
        ((c as u8) - 32) as u8 as char
    } else {
        c
    }
}

fn upper(c: char) -> (r: char)
    ensures
        r == upper_char(c),
{
    if 'a' <= c && c <= 'z' {
        ((c as u8) - 32) as char
    } else {
        c
    }
}

/// The text upper-cased, with one boundary blank on each side.
pub open spec fn padded(text: Seq<char>) -> Seq<char> {
    seq![' '] + text.map_values(|c: char| upper_char(c)) + seq![' ']
}

/// What transcribing `text` with the rules `cr` and `lr` yields: the scan
/// starts after the leading boundary blank, and the output of the trailing
/// one is stripped.
pub open spec fn transcription(cr: Seq<RuleView>, lr: Seq<RuleView>, text: Seq<char>) -> Result<Seq<char>, ReciterError> {
    match scan(cr, lr, padded(text), 1, Seq::empty()) {
        Ok(o) => Ok(
            if o.len() > 0 {
                o.drop_last()
            } else {
                o
            },
        ),
        Err(e) => Err(e),
    }
}

fn padded_input(text: &str) -> (r: Vec<char>)
    ensures
        r@ == padded(text@),
{
    let chars = chars_of(text);
    let mut input: Vec<char> = Vec::new();
    input.push(' ');
    let mut i: usize = 0;
    while i < chars.len()
        invariant
            chars@ == text@,
            i <= chars@.len(),
            input@ == seq![' '] + text@.subrange(0, i as int).map_values(|c: char| upper_char(c)),
        decreases chars@.len() - i,
    {
        let c = upper(chars[i]);
        input.push(c);
        i += 1;
        assert(input@ =~= seq![' '] + text@.subrange(0, i as int).map_values(|c: char| upper_char(c)));
    }
    input.push(' ');
    assert(text@.subrange(0, i as int) =~= text@);
    assert(input@ =~= padded(text@));
    input
}

impl<'a> RuleSet<'a> {
    /// Transcribe `text` to phoneme codes with these rules.
    pub fn transcribe(&self, text: &str) -> (r: Result<String, ReciterError>)
        ensures
            match r {
                Ok(s) => transcription(views(self.character_rules@), views(self.letter_rules@), text@)
                    == Ok::<Seq<char>, ReciterError>(s@),
                Err(e) => transcription(views(self.character_rules@), views(self.letter_rules@), text@)
                    == Err::<Seq<char>, ReciterError>(e),
            },
    {
        let ghost cr = views(self.character_rules@);
        let ghost lr = views(self.letter_rules@);
        let input = padded_input(text);
        let ghost t = input@;
        let n = input.len();
        let mut output = String::new();
        let mut index: usize = 1;
        proof {
            reveal_strlit(".");
            reveal_strlit(" ");
        }
        while index < n
            invariant
                n == t.len(),
                t == input@,
                t == padded(text@),
                cr == views(self.character_rules@),
                lr == views(self.letter_rules@),
                1 <= index,
                scan(cr, lr, t, 1, Seq::empty()) == scan(cr, lr, t, index as int, output@),
                "."@ == seq!['.'],
                " "@ == seq![' '],
            decreases n - index,
        {
            let c = input[index];
            let ghost before = output@;
            if c == '.' && (index + 1 >= n || !is_numeric_char(input[index + 1])) {
                output.append(".");
                assert(output@ =~= before.push('.'));
                index += 1;
                continue;
            }
            if flags_for_character(c) == 0 {
                output.append(" ");
                assert(output@ =~= before.push(' '));
                index += 1;
                continue;
            }
            if uses_character_rules_char(c) {
                match find_rule(&self.character_rules, &input, index) {
                    Some(k) => {
                        proof {
                            lemma_first_match_sound(cr, t, index as int, 0);
                        }
                        let rule = &self.character_rules[k];
                        assert(cr[k as int] == rule.view());
                        index += rule.source.len();
                        output.append(rule.target);
                    },
                    None => {
                        return Err(ReciterError::NoMatchingCharacterRuleFoundAtIndex(index));
                    },
                }
                continue;
            }
            if !is_alpha_or_quote_char(c) {
                return Err(ReciterError::BadPunctuation);
            }
            if !has_rules_for_char(&self.letter_rules, c) {
                return Err(ReciterError::NoRulesForCharacter(c));
            }
            match find_rule(&self.letter_rules, &input, index) {
                Some(k) => {
                    proof {
                        lemma_first_match_sound(lr, t, index as int, 0);
                    }
                    let rule = &self.letter_rules[k];
                    assert(lr[k as int] == rule.view());
                    index += rule.source.len();
                    output.append(rule.target);
                },
                None => {
                    return Err(ReciterError::NoMatchingRuleFoundAtIndex(index));
                },
            }
        }
        let count = output.as_str().unicode_len();
        if count == 0 {
            return Ok(output);
        }
        let trimmed = output.as_str().substring_char(0, count - 1);
        Ok(String::from_str(trimmed))
    }
}

// ---------------------------------------------------------------- rule sets

/// The rule read from a pattern and its replacement.
pub open spec fn rule_view_of(pattern: Seq<char>, replacement: Seq<char>) -> Result<RuleView, ReciterError> {
    match split_pattern(pattern) {
        Ok(parts) => Ok(RuleView { prefix: parts.0, source: parts.1, suffix: parts.2, target: replacement }),
        Err(e) => Err(e),
    }
}

/// Reading the first `n` entries of a table: the first malformed pattern
/// fails the whole table.
pub open spec fn read_table(table: Seq<(&'static str, &'static str)>, n: nat) -> Result<Seq<RuleView>, ReciterError>
    decreases n,
{
    if n == 0 {
        Ok(Seq::empty())
    } else {
        match read_table(table, (n - 1) as nat) {
            Err(e) => Err(e),
            Ok(done) => match rule_view_of(table[n - 1].0@, table[n - 1].1@) {
                Ok(v) => Ok(done.push(v)),
                Err(e) => Err(e),
            },
        }
    }
}

proof fn lemma_read_table_error_stays(table: Seq<(&'static str, &'static str)>, n: nat, m: nat)
    requires
        n <= m,
        read_table(table, n) is Err,
    ensures
        read_table(table, m) == read_table(table, n),
    decreases m - n,
{
    if n < m {
        lemma_read_table_error_stays(table, n, (m - 1) as nat);
    }
}

fn read_rules(table: &Vec<(&'static str, &'static str)>) -> (r: Result<Vec<ReciterRule<'static>>, ReciterError>)
    ensures
        match r {
            Ok(rules) => read_table(table@, table@.len()) == Ok::<Seq<RuleView>, ReciterError>(views(rules@)),
            Err(e) => read_table(table@, table@.len()) == Err::<Seq<RuleView>, ReciterError>(e),
        },
{
    let mut rules: Vec<ReciterRule<'static>> = Vec::new();
    let mut i: usize = 0;
    assert(views(rules@) =~= Seq::<RuleView>::empty());
    while i < table.len()
        invariant
            i <= table@.len(),
            read_table(table@, i as nat) == Ok::<Seq<RuleView>, ReciterError>(views(rules@)),
        decreases table@.len() - i,
    {
        let (pattern, replacement) = table[i];
        match ReciterRule::new(pattern, replacement) {
            Ok(rule) => {
                let ghost before = rules@;
                rules.push(rule);
                assert(views(rules@) =~= views(before).push(rule.view()));
            },
            Err(e) => {
                proof {
                    lemma_read_table_error_stays(table@, (i + 1) as nat, table@.len());
                }
                return Err(e);
            },
        }
        i += 1;
    }
    Ok(rules)
}

/// Transcription with the rules read from two tables.
pub open spec fn table_transcription(
    characters: Seq<(&'static str, &'static str)>,
    letters: Seq<(&'static str, &'static str)>,
    text: Seq<char>,
) -> Result<Seq<char>, ReciterError> {
    match read_table(characters, characters.len()) {
        Err(e) => Err(e),
        Ok(cr) => match read_table(letters, letters.len()) {
            Err(e) => Err(e),
            Ok(lr) => transcription(cr, lr, text),
        },
    }
}

impl RuleSet<'static> {
    /// The rule set read from a table of character rules and a table of
    /// letter rules.
    pub fn from_tables(
        characters: &Vec<(&'static str, &'static str)>,
        letters: &Vec<(&'static str, &'static str)>,
    ) -> (r: Result<Self, ReciterError>)
        ensures
            match r {
                Ok(rs) => read_table(characters@, characters@.len()) == Ok::<
                    Seq<RuleView>,
                    ReciterError,
                >(views(rs.character_rules@)) && read_table(letters@, letters@.len()) == Ok::<
                    Seq<RuleView>,
                    ReciterError,
                >(views(rs.letter_rules@)),
                Err(e) => match read_table(characters@, characters@.len()) {
                    Err(first) => e == first,
                    Ok(_) => read_table(letters@, letters@.len()) == Err::<Seq<RuleView>, ReciterError>(e),
                },
            },
    {
        let character_rules = match read_rules(characters) {
            Ok(rules) => rules,
            Err(e) => {
                return Err(e);
            },
        };
        let letter_rules = match read_rules(letters) {
            Ok(rules) => rules,
            Err(e) => {
                return Err(e);
            },
        };
        Ok(RuleSet { character_rules, letter_rules })
    }

    /// The English rule set.
    pub fn english() -> (r: Result<Self, ReciterError>)
        ensures
            match r {
                Ok(rs) => read_table(character_table(), character_table().len()) == Ok::<
                    Seq<RuleView>,
                    ReciterError,
                >(views(rs.character_rules@)) && read_table(letter_table(), letter_table().len())
                    == Ok::<Seq<RuleView>, ReciterError>(views(rs.letter_rules@)),
                Err(e) => match read_table(character_table(), character_table().len()) {
                    Err(first) => e == first,
                    Ok(_) => read_table(letter_table(), letter_table().len()) == Err::<
                        Seq<RuleView>,
                        ReciterError,
                    >(e),
                },
            },
    {
        let characters = character_patterns();
        let letters = letter_patterns();
        RuleSet::from_tables(&characters, &letters)
    }
}

/// Convert English text to phoneme codes with the English rule set.
pub fn text_to_phonemes(text: &str) -> (r: Result<String, ReciterError>)
    ensures
        match r {
            Ok(s) => table_transcription(character_table(), letter_table(), text@) == Ok::<
                Seq<char>,
                ReciterError,
            >(s@),
            Err(e) => table_transcription(character_table(), letter_table(), text@) == Err::<
                Seq<char>,
                ReciterError,
            >(e),
        },
{
    let rules = match RuleSet::english() {
        Ok(rules) => rules,
        Err(e) => {
            return Err(e);
        },
    };
    rules.transcribe(text)
}

// ---------------------------------------------------------------- laws

/// No rule of the list has a blank in its source.
pub open spec fn sources_without_blank(rules: Seq<RuleView>) -> bool {
    forall|k: int, i: int|
        0 <= k < rules.len() && 0 <= i < rules[k].source.len() ==> #[trigger] rules[k].source[i] != ' '
}

/// The empty text transcribes to the empty phoneme string, whatever the rules.
pub proof fn lemma_empty_text(cr: Seq<RuleView>, lr: Seq<RuleView>)
    ensures
        transcription(cr, lr, Seq::empty()) == Ok::<Seq<char>, ReciterError>(Seq::empty()),
{
    let t = padded(Seq::<char>::empty());
    assert(t =~= seq![' ', ' ']);
    assert(is_unflagged(' '));
    assert(scan(cr, lr, t, 2, seq![' ']) == Ok::<Seq<char>, ReciterError>(seq![' ']));
    assert(seq![' '].drop_last() =~= Seq::<char>::empty());
}

proof fn lemma_scan_ends_with_blank(cr: Seq<RuleView>, lr: Seq<RuleView>, t: Seq<char>, pos: int, out: Seq<char>)
    requires
        t.len() >= 1,
        t.last() == ' ',
        0 <= pos < t.len(),
        sources_without_blank(cr),
        sources_without_blank(lr),
    ensures
        scan(cr, lr, t, pos, out) matches Ok(o) ==> o.len() > 0 && o.last() == ' ',
    decreases remaining(t, pos),
{
    let c = t[pos];
    let n = t.len();
    if c == '.' && (pos + 1 >= n || !is_numeric(t[pos + 1])) {
        if pos + 1 < n {
            lemma_scan_ends_with_blank(cr, lr, t, pos + 1, out.push('.'));
        } else {
            assert(c == ' ');
        }
    } else if is_unflagged(c) {
        if pos + 1 < n {
            lemma_scan_ends_with_blank(cr, lr, t, pos + 1, out.push(' '));
        }
    } else if pos == n - 1 {
        assert(is_unflagged(c));
    } else if uses_character_rules(c) {
        lemma_first_match_sound(cr, t, pos, 0);
        if let Some(k) = first_match(cr, t, pos, 0) {
            let m = cr[k].source.len() as int;
            if pos + m >= n {
                assert(t.subrange(pos, pos + m)[n - 1 - pos] == t[n - 1]);
                assert(cr[k].source[n - 1 - pos] != ' ');
            }
            lemma_scan_ends_with_blank(cr, lr, t, pos + m, out + cr[k].target);
        }
    } else if is_alpha_or_quote(c) && has_rules_for(lr, c) {
        lemma_first_match_sound(lr, t, pos, 0);
        if let Some(k) = first_match(lr, t, pos, 0) {
            let m = lr[k].source.len() as int;
            if pos + m >= n {
                assert(t.subrange(pos, pos + m)[n - 1 - pos] == t[n - 1]);
                assert(lr[k].source[n - 1 - pos] != ' ');
            }
            lemma_scan_ends_with_blank(cr, lr, t, pos + m, out + lr[k].target);
        }
    }
}

/// Where no rule source holds a blank, the scan's output ends with the blank
/// of the trailing boundary, and the transcription is that output without
/// it: no trailing boundary marker is returned.
pub proof fn lemma_trailing_boundary_stripped(cr: Seq<RuleView>, lr: Seq<RuleView>, text: Seq<char>)
    requires
        sources_without_blank(cr),
        sources_without_blank(lr),
    ensures
        scan(cr, lr, padded(text), 1, Seq::empty()) matches Ok(raw) ==> raw.len() > 0 && raw.last()
            == ' ' && transcription(cr, lr, text) == Ok::<Seq<char>, ReciterError>(raw.drop_last()),
{
    let t = padded(text);
    assert(t.last() == ' ');
    lemma_scan_ends_with_blank(cr, lr, t, 1, Seq::empty());
}

} // verus!
