//! The phoneme compiler: a phoneme-code string becomes a sequence of timed,
//! stressed phoneme events through tokenization and several rewrite passes.

use vstd::prelude::*;
use crate::catalog::{
    CATALOG_SIZE, LENGTH_TABLE_SIZE, PHONEME_AX, PHONEME_CH, PHONEME_CH_RELEASE, PHONEME_DX, PHONEME_D_STAR, PHONEME_GX, PHONEME_G_STAR, PHONEME_J_RELEASE, PHONEME_J_STAR, PHONEME_KX, PHONEME_K_STAR, PHONEME_LX, PHONEME_L_STAR, PHONEME_M_STAR, PHONEME_N_STAR, PHONEME_PAUSE, PHONEME_Q_STAR, PHONEME_RX, PHONEME_R_STAR, PHONEME_SLASH_H, PHONEME_SLASH_X, PHONEME_S_STAR, PHONEME_T_STAR, PHONEME_UL, PHONEME_UM, PHONEME_UN, PHONEME_UW, PHONEME_UX, PHONEME_WX, PHONEME_YX, PHONEME_Z_STAR, flags_at, flags_of, is_alveolar, is_alveolar_at, is_consonant, is_consonant_at, is_diphthong, is_diphthong_at, is_diphthong_yx, is_diphthong_yx_at, is_fricative, is_fricative_at, is_liquid, is_liquid_at, is_nasal, is_nasal_at, is_plosive, is_plosive_at, is_punctuation, is_punctuation_at, is_stop_release, is_stop_release_at, is_unvoiced_plosive, is_unvoiced_plosive_at, is_voiced, is_voiced_at, is_vowel, is_vowel_at, name_first, name_first_at, name_second, name_second_at, stressed_length, stressed_length_at, unstressed_length, unstressed_length_at,
};
use crate::text::chars_of;

verus! {

/// Why a phoneme-code string could not be compiled.
#[derive(Debug, PartialEq, Eq, Structural)]
pub enum ParseError {
    /// A character that is neither a phoneme name nor a stress digit.
    UnrecognizedCharacter(char),
    /// A stress digit with no phoneme before it.
    StressWithoutPhoneme,
}

/// The event sequence being built by the compiler.
#[derive(Debug)]
pub struct ParseResult {
    pub phonemes: Vec<Phoneme>,
}

/// One phoneme event: a catalog id, a duration in frames and a stress level.
#[derive(Clone, Copy, Debug, PartialEq, Eq, Structural)]
pub struct Phoneme {
    pub length: u8,
    pub index: usize,
    pub stress: u8,
}

impl Phoneme {
    /// Whether the catalog flags of this phoneme share a bit with `flag`.
    pub fn has_flag(&self, flag: u16) -> (r: bool)
        requires
            self.index < CATALOG_SIZE,
        ensures
            r == (flags_of(self.index) & flag != 0),
    {
        flags_at(self.index) & flag != 0
    }
}

impl ParseResult {
    pub fn new() -> (r: Self)
        ensures
            r.phonemes@.len() == 0,
    {
        ParseResult { phonemes: Vec::new() }
    }
}

/// A fresh event with no duration yet.
pub open spec fn event(index: usize, stress: u8) -> Phoneme {
    Phoneme { length: 0, index, stress }
}

/// Every event of `s` has a catalog id.
pub open spec fn ids_in_catalog(s: Seq<Phoneme>) -> bool {
    forall|i: int| 0 <= i < s.len() ==> #[trigger] s[i].index < CATALOG_SIZE
}

// ---------------------------------------------------------------- tokenizing

/// Catalog entry `id` has the two-letter name `c1 c2`.
pub open spec fn full_name_is(id: usize, c1: char, c2: char) -> bool {
    name_second(id) != '*' && name_first(id) == c1 && name_second(id) == c2
}

/// Catalog entry `id` has the one-letter name `c1`.
pub open spec fn wildcard_name_is(id: usize, c1: char) -> bool {
    name_first(id) == c1 && name_second(id) == '*'
}

/// The first id at or after `from` named `c1 c2`.
pub open spec fn find_full(c1: char, c2: char, from: nat) -> Option<usize>
    decreases CATALOG_SIZE - from,
{
    if from >= CATALOG_SIZE {
        None
    } else if full_name_is(from as usize, c1, c2) {
        Some(from as usize)
    } else {
        find_full(c1, c2, from + 1)
    }
}

/// The first id at or after `from` named `c1` alone.
pub open spec fn find_wildcard(c1: char, from: nat) -> Option<usize>
    decreases CATALOG_SIZE - from,
{
    if from >= CATALOG_SIZE {
        None
    } else if wildcard_name_is(from as usize, c1) {
        Some(from as usize)
    } else {
        find_wildcard(c1, from + 1)
    }
}

/// The stress level that a digit sets, if `c` is a stress digit.
pub open spec fn stress_digit(c: char) -> Option<u8> {
    if '1' <= c && c <= '8' {
        Some((c as u32 - '0' as u32) as u8)
    } else {
        None
    }
}

/// Tokenizing `t` from position `i`, with `acc` the events read so far.
pub open spec fn tokenize_from(t: Seq<char>, i: nat, acc: Seq<Phoneme>) -> Result<Seq<Phoneme>, ParseError>
    decreases t.len() - i,
{
    if i >= t.len() {
        Ok(acc)
    } else if i + 1 < t.len() && find_full(t[i as int], t[i as int + 1], 0) is Some {
        tokenize_from(t, i + 2, acc.push(event(find_full(t[i as int], t[i as int + 1], 0)->0, 0)))
    } else if find_wildcard(t[i as int], 0) is Some {
        tokenize_from(t, i + 1, acc.push(event(find_wildcard(t[i as int], 0)->0, 0)))
    } else if stress_digit(t[i as int]) is Some {
        if acc.len() == 0 {
            Err(ParseError::StressWithoutPhoneme)
        } else {
            let last = acc.last();
            tokenize_from(
                t,
                i + 1,
                acc.update(acc.len() - 1, Phoneme { stress: stress_digit(t[i as int])->0, ..last }),
            )
        }
    } else {
        Err(ParseError::UnrecognizedCharacter(t[i as int]))
    }
}

/// The events named by a phoneme-code string, before any rewriting.
pub open spec fn tokenize(t: Seq<char>) -> Result<Seq<Phoneme>, ParseError> {
    tokenize_from(t, 0, Seq::empty())
}

/// Match both characters against a two-letter name.
fn full_match(sign1: char, sign2: char) -> (r: Option<usize>)
    ensures
        r == find_full(sign1, sign2, 0),
{
    let mut id: usize = 0;
    while id < CATALOG_SIZE
        invariant
            id <= CATALOG_SIZE,
            find_full(sign1, sign2, 0) == find_full(sign1, sign2, id as nat),
        decreases CATALOG_SIZE - id,
    {
        let second = name_second_at(id);
        if second != '*' && name_first_at(id) == sign1 && second == sign2 {
            return Some(id);
        }
        id += 1;
    }
    None
}

/// Match one character against a one-letter name.
fn wildcard_match(sign1: char) -> (r: Option<usize>)
    ensures
        r == find_wildcard(sign1, 0),
{
    let mut id: usize = 0;
    while id < CATALOG_SIZE
        invariant
            id <= CATALOG_SIZE,
            find_wildcard(sign1, 0) == find_wildcard(sign1, id as nat),
        decreases CATALOG_SIZE - id,
    {
        if name_first_at(id) == sign1 && name_second_at(id) == '*' {
            return Some(id);
        }
        id += 1;
    }
    None
}

fn stress_digit_of(c: char) -> (r: Option<u8>)
    ensures
        r == stress_digit(c),
        r matches Some(k) ==> k <= 8,
{
    if '1' <= c && c <= '8' {
        Some((c as u32 - '0' as u32) as u8)
    } else {
        None
    }
}

proof fn lemma_find_full_in_catalog(c1: char, c2: char, from: nat)
    ensures
        find_full(c1, c2, from) matches Some(k) ==> k < CATALOG_SIZE,
    decreases CATALOG_SIZE - from,
{
    if from < CATALOG_SIZE && !full_name_is(from as usize, c1, c2) {
        lemma_find_full_in_catalog(c1, c2, from + 1);
    }
}

proof fn lemma_find_wildcard_in_catalog(c1: char, from: nat)
    ensures
        find_wildcard(c1, from) matches Some(k) ==> k < CATALOG_SIZE,
    decreases CATALOG_SIZE - from,
{
    if from < CATALOG_SIZE && !wildcard_name_is(from as usize, c1) {
        lemma_find_wildcard_in_catalog(c1, from + 1);
    }
}

/// Tokenize a phoneme-code string: two-letter names take priority over
/// one-letter names, and a stress digit sets the stress of the last event.
fn parser1(text: &Vec<char>) -> (r: Result<ParseResult, ParseError>)
    ensures
        match r {
            Ok(p) => tokenize(text@) == Ok::<Seq<Phoneme>, ParseError>(p.phonemes@)
                && ids_in_catalog(p.phonemes@) && stress_at_most(p.phonemes@, 8),
            Err(e) => tokenize(text@) == Err::<Seq<Phoneme>, ParseError>(e),
        },
{
    let mut result = ParseResult::new();
    assert(result.phonemes@ =~= Seq::<Phoneme>::empty());
    let n = text.len();
    let mut i: usize = 0;
    while i < n
        invariant
            n == text@.len(),
            i <= n,
            tokenize(text@) == tokenize_from(text@, i as nat, result.phonemes@),
            ids_in_catalog(result.phonemes@),
            stress_at_most(result.phonemes@, 8),
        decreases n - i,
    {
        let sign1 = text[i];
        if i + 1 < n {
            let full = full_match(sign1, text[i + 1]);
            if let Some(id) = full {
                proof { lemma_find_full_in_catalog(sign1, text@[i + 1], 0); }
                result.phonemes.push(Phoneme { index: id, length: 0, stress: 0 });
                i += 2;
                continue;
            }
        }
        let wild = wildcard_match(sign1);
        if let Some(id) = wild {
            proof { lemma_find_wildcard_in_catalog(sign1, 0); }
            result.phonemes.push(Phoneme { index: id, length: 0, stress: 0 });
            i += 1;
            continue;
        }
        let digit = stress_digit_of(sign1);
        match digit {
            Some(stress) => {
                let len = result.phonemes.len();
                if len == 0 {
                    return Err(ParseError::StressWithoutPhoneme);
                }
                let mut last = result.phonemes[len - 1];
                last.stress = stress;
                result.phonemes.set(len - 1, last);
                i += 1;
            },
            None => {
                return Err(ParseError::UnrecognizedCharacter(sign1));
            },
        }
    }
    Ok(result)
}

// ---------------------------------------------------------------- rewriting

/// `x` with its catalog id replaced.
pub open spec fn with_index(x: Phoneme, id: usize) -> Phoneme {
    Phoneme { index: id, ..x }
}

/// `UW` after an alveolar becomes `UX`; `CH` and `J*` get their release
/// event inserted after them.
pub open spec fn rewrite_uw_ch_j(s: Seq<Phoneme>, p: int) -> Seq<Phoneme> {
    let x = s[p];
    if x.index == PHONEME_UW && p > 0 && is_alveolar(s[p - 1].index) {
        s.update(p, with_index(x, PHONEME_UX))
    } else if x.index == PHONEME_CH {
        s.insert(p + 1, event(PHONEME_CH_RELEASE, x.stress))
    } else if x.index == PHONEME_J_STAR {
        s.insert(p + 1, event(PHONEME_J_RELEASE, x.stress))
    } else {
        s
    }
}

/// `T*` or `D*` at `p` (after a vowel) is followed, across at most one pause,
/// by a vowel, and the event right after it is unstressed.
pub open spec fn softens(s: Seq<Phoneme>, p: int) -> bool {
    let target = if s[p + 1].index == PHONEME_PAUSE { p + 2 } else { p + 1 };
    target < s.len() && is_vowel(s[target].index) && s[p + 1].stress == 0
}

/// The rules tried last: `K*` to `KX`, voicing after `S*`, the `UW`/`CH`/`J*`
/// rule for the rest, and softening of `T*` and `D*` to `DX`.
pub open spec fn rewrite_tail(s: Seq<Phoneme>, p: int) -> Seq<Phoneme> {
    let s1 = if s[p].index == PHONEME_K_STAR && (p + 1 >= s.len() || !is_diphthong_yx(
        s[p + 1].index,
    )) {
        s.update(p, with_index(s[p], PHONEME_KX))
    } else {
        s
    };
    let s2 = if is_unvoiced_plosive(s1[p].index) && p > 0 && s1[p - 1].index == PHONEME_S_STAR {
        s1.update(p, with_index(s1[p], (s1[p].index - 12) as usize))
    } else if !is_unvoiced_plosive(s1[p].index) {
        rewrite_uw_ch_j(s1, p)
    } else {
        s1
    };
    if (s2[p].index == PHONEME_T_STAR || s2[p].index == PHONEME_D_STAR) && p > 0 && is_vowel(
        s2[p - 1].index,
    ) && p + 1 < s2.len() && softens(s2, p) {
        s2.update(p, with_index(s2[p], PHONEME_DX))
    } else {
        s2
    }
}

/// The event that continues a diphthong.
pub open spec fn diphthong_continuation(id: usize) -> usize {
    if is_diphthong_yx(id) {
        PHONEME_YX
    } else {
        PHONEME_WX
    }
}

/// What the rewrite pass does when its scan stands at position `p`.
pub open spec fn rewrite_step(s: Seq<Phoneme>, p: int) -> Seq<Phoneme> {
    let x = s[p];
    if x.index == PHONEME_PAUSE {
        s
    } else if is_diphthong(x.index) {
        rewrite_uw_ch_j(s.insert(p + 1, event(diphthong_continuation(x.index), x.stress)), p)
    } else if x.index == PHONEME_UL {
        s.update(p, with_index(x, PHONEME_AX)).insert(p + 1, event(PHONEME_L_STAR, x.stress))
    } else if x.index == PHONEME_UM {
        s.update(p, with_index(x, PHONEME_AX)).insert(p + 1, event(PHONEME_M_STAR, x.stress))
    } else if x.index == PHONEME_UN {
        s.update(p, with_index(x, PHONEME_AX)).insert(p + 1, event(PHONEME_N_STAR, x.stress))
    } else if is_vowel(x.index) && x.stress != 0 {
        if p + 2 < s.len() && s[p + 1].index == PHONEME_PAUSE && is_vowel(s[p + 2].index) && s[p
            + 2].stress != 0 {
            s.insert(p + 2, event(PHONEME_Q_STAR, 0))
        } else {
            s
        }
    } else if x.index == PHONEME_R_STAR {
        if p > 0 && s[p - 1].index == PHONEME_T_STAR {
            s.update(p - 1, with_index(s[p - 1], PHONEME_CH))
        } else if p > 0 && s[p - 1].index == PHONEME_D_STAR {
            s.update(p - 1, with_index(s[p - 1], PHONEME_J_STAR))
        } else if p > 0 && is_vowel(s[p - 1].index) {
            s.update(p, with_index(x, PHONEME_RX))
        } else {
            s
        }
    } else if x.index == PHONEME_L_STAR && p > 0 && is_vowel(s[p - 1].index) {
        s.update(p, with_index(x, PHONEME_LX))
    } else if x.index == PHONEME_S_STAR && p > 0 && s[p - 1].index == PHONEME_G_STAR {
        s.update(p, with_index(x, PHONEME_Z_STAR))
    } else if x.index == PHONEME_G_STAR {
        if p + 1 < s.len() && !is_diphthong_yx(s[p + 1].index) {
            s.update(p, with_index(x, PHONEME_GX))
        } else {
            s
        }
    } else {
        rewrite_tail(s, p)
    }
}

/// How much rewriting is left from position `p`: a diphthong may still grow
/// by two events, a vowel, `CH` or `J*` by one.
pub open spec fn weight(id: usize) -> nat {
    if is_diphthong(id) {
        3
    } else if is_vowel(id) || id == PHONEME_CH || id == PHONEME_J_STAR {
        2
    } else {
        1
    }
}

pub open spec fn potential(s: Seq<Phoneme>, p: nat) -> nat
    decreases s.len() - p,
{
    if p >= s.len() {
        0
    } else {
        weight(s[p as int].index) + potential(s, p + 1)
    }
}

/// The rewrite pass from position `p` on: each position is visited once, in
/// order, and what a visit inserts is visited in turn.
pub open spec fn rewrite_from(s: Seq<Phoneme>, p: nat) -> Seq<Phoneme>
    decreases potential(s, p),
    via rewrite_from_decreases
{
    if p >= s.len() {
        s
    } else {
        rewrite_from(rewrite_step(s, p as int), p + 1)
    }
}

#[via_fn]
proof fn rewrite_from_decreases(s: Seq<Phoneme>, p: nat) {
    if p < s.len() {
        lemma_step_potential(s, p);
    }
}

/// The rewrite pass over a whole event sequence.
pub open spec fn rewrite_pass(s: Seq<Phoneme>) -> Seq<Phoneme> {
    rewrite_from(s, 0)
}

proof fn lemma_potential_update(s: Seq<Phoneme>, i: int, x: Phoneme, p: nat)
    requires
        0 <= i < p,
        i < s.len(),
    ensures
        potential(s.update(i, x), p) == potential(s, p),
    decreases s.len() - p,
{
    if p < s.len() {
        lemma_potential_update(s, i, x, p + 1);
    }
}

proof fn lemma_potential_shift(s: Seq<Phoneme>, i: int, x: Phoneme, q: nat)
    requires
        0 <= i <= q,
        i <= s.len(),
    ensures
        potential(s.insert(i, x), q + 1) == potential(s, q),
    decreases s.len() - q,
{
    if q < s.len() {
        assert(s.insert(i, x)[q as int + 1] == s[q as int]);
        lemma_potential_shift(s, i, x, q + 1);
    }
}

proof fn lemma_potential_insert(s: Seq<Phoneme>, i: int, x: Phoneme, p: nat)
    requires
        p <= i <= s.len(),
    ensures
        potential(s.insert(i, x), p) == potential(s, p) + weight(x.index),
    decreases i - p,
{
    if p == i {
        lemma_potential_shift(s, i, x, p);
    } else {
        assert(s.insert(i, x)[p as int] == s[p as int]);
        lemma_potential_insert(s, i, x, p + 1);
    }
}

proof fn lemma_uw_ch_j_potential(s: Seq<Phoneme>, p: nat)
    requires
        p < s.len(),
    ensures
        potential(rewrite_uw_ch_j(s, p as int), p + 1) <= potential(s, p + 1) + 1,
        (s[p as int].index == PHONEME_CH || s[p as int].index == PHONEME_J_STAR) || potential(
            rewrite_uw_ch_j(s, p as int),
            p + 1,
        ) == potential(s, p + 1),
{
    let x = s[p as int];
    if x.index == PHONEME_UW && p > 0 && is_alveolar(s[p - 1].index) {
        lemma_potential_update(s, p as int, with_index(x, PHONEME_UX), p + 1);
    } else if x.index == PHONEME_CH {
        lemma_potential_insert(s, p as int + 1, event(PHONEME_CH_RELEASE, x.stress), p + 1);
    } else if x.index == PHONEME_J_STAR {
        lemma_potential_insert(s, p as int + 1, event(PHONEME_J_RELEASE, x.stress), p + 1);
    }
}

proof fn lemma_step_potential(s: Seq<Phoneme>, p: nat)
    requires
        p < s.len(),
    ensures
        potential(rewrite_step(s, p as int), p + 1) < potential(s, p),
{
    let x = s[p as int];
    let i = p as int;
    assert(potential(s, p) == weight(x.index) + potential(s, p + 1));
    if x.index == PHONEME_PAUSE {
    } else if is_diphthong(x.index) {
        let c = event(diphthong_continuation(x.index), x.stress);
        let s1 = s.insert(i + 1, c);
        lemma_potential_insert(s, i + 1, c, p + 1);
        assert(s1[i] == x);
        lemma_uw_ch_j_potential(s1, p);
    } else if x.index == PHONEME_UL || x.index == PHONEME_UM || x.index == PHONEME_UN {
        let s1 = s.update(i, with_index(x, PHONEME_AX));
        lemma_potential_update(s, i, with_index(x, PHONEME_AX), p + 1);
        let y = if x.index == PHONEME_UL {
            event(PHONEME_L_STAR, x.stress)
        } else if x.index == PHONEME_UM {
            event(PHONEME_M_STAR, x.stress)
        } else {
            event(PHONEME_N_STAR, x.stress)
        };
        lemma_potential_insert(s1, i + 1, y, p + 1);
    } else if is_vowel(x.index) && x.stress != 0 {
        if i + 2 < s.len() && s[i + 1].index == PHONEME_PAUSE && is_vowel(s[i + 2].index) && s[i
            + 2].stress != 0 {
            lemma_potential_insert(s, i + 2, event(PHONEME_Q_STAR, 0), p + 1);
        }
    } else if x.index == PHONEME_R_STAR {
        if p > 0 && s[i - 1].index == PHONEME_T_STAR {
            lemma_potential_update(s, i - 1, with_index(s[i - 1], PHONEME_CH), p + 1);
        } else if p > 0 && s[i - 1].index == PHONEME_D_STAR {
            lemma_potential_update(s, i - 1, with_index(s[i - 1], PHONEME_J_STAR), p + 1);
        } else if p > 0 && is_vowel(s[i - 1].index) {
            lemma_potential_update(s, i, with_index(x, PHONEME_RX), p + 1);
        }
    } else if x.index == PHONEME_L_STAR && p > 0 && is_vowel(s[i - 1].index) {
        lemma_potential_update(s, i, with_index(x, PHONEME_LX), p + 1);
    } else if x.index == PHONEME_S_STAR && p > 0 && s[i - 1].index == PHONEME_G_STAR {
        lemma_potential_update(s, i, with_index(x, PHONEME_Z_STAR), p + 1);
    } else if x.index == PHONEME_G_STAR {
        if i + 1 < s.len() && !is_diphthong_yx(s[i + 1].index) {
            lemma_potential_update(s, i, with_index(x, PHONEME_GX), p + 1);
        }
    } else {
        let s1 = if s[i].index == PHONEME_K_STAR && (i + 1 >= s.len() || !is_diphthong_yx(
            s[i + 1].index,
        )) {
            s.update(i, with_index(s[i], PHONEME_KX))
        } else {
            s
        };
        if s[i].index == PHONEME_K_STAR && (i + 1 >= s.len() || !is_diphthong_yx(s[i + 1].index)) {
            lemma_potential_update(s, i, with_index(s[i], PHONEME_KX), p + 1);
        }
        let s2 = if is_unvoiced_plosive(s1[i].index) && p > 0 && s1[i - 1].index
            == PHONEME_S_STAR {
            s1.update(i, with_index(s1[i], (s1[i].index - 12) as usize))
        } else if !is_unvoiced_plosive(s1[i].index) {
            rewrite_uw_ch_j(s1, i)
        } else {
            s1
        };
        if is_unvoiced_plosive(s1[i].index) && p > 0 && s1[i - 1].index == PHONEME_S_STAR {
            lemma_potential_update(s1, i, with_index(s1[i], (s1[i].index - 12) as usize), p + 1);
        } else if !is_unvoiced_plosive(s1[i].index) {
            lemma_uw_ch_j_potential(s1, p);
        }
        if (s2[i].index == PHONEME_T_STAR || s2[i].index == PHONEME_D_STAR) && p > 0 && is_vowel(
            s2[i - 1].index,
        ) && i + 1 < s2.len() && softens(s2, i) {
            lemma_potential_update(s2, i, with_index(s2[i], PHONEME_DX), p + 1);
        }
    }
}

/// Neither `UL`, `UM` nor `UN`: the rewrite pass leaves no syllabic event.
pub open spec fn not_syllabic(id: usize) -> bool {
    id != PHONEME_UL && id != PHONEME_UM && id != PHONEME_UN
}

proof fn lemma_step_ids(s: Seq<Phoneme>, p: nat)
    requires
        p < s.len(),
        ids_in_catalog(s),
        stress_at_most(s, 8),
        forall|q: int| 0 <= q < p ==> not_syllabic(#[trigger] s[q].index),
    ensures
        ids_in_catalog(rewrite_step(s, p as int)),
        stress_at_most(rewrite_step(s, p as int), 8),
        rewrite_step(s, p as int).len() >= s.len(),
        forall|q: int| 0 <= q <= p ==> not_syllabic(#[trigger] rewrite_step(s, p as int)[q].index),
{
    let r = rewrite_step(s, p as int);
    assert forall|q: int| 0 <= q < r.len() implies #[trigger] r[q].index < CATALOG_SIZE && r[q].stress
        <= 8 && (q <= p ==> not_syllabic(r[q].index)) by {
        let i = p as int;
        let x = s[i];
        if x.index == PHONEME_PAUSE {
        } else if is_diphthong(x.index) {
            let s1 = s.insert(i + 1, event(diphthong_continuation(x.index), x.stress));
            assert(s1[i] == x);
        } else if x.index == PHONEME_UL || x.index == PHONEME_UM || x.index == PHONEME_UN {
        } else if is_vowel(x.index) && x.stress != 0 {
        } else if x.index == PHONEME_R_STAR {
        } else if x.index == PHONEME_L_STAR && p > 0 && is_vowel(s[i - 1].index) {
        } else if x.index == PHONEME_S_STAR && p > 0 && s[i - 1].index == PHONEME_G_STAR {
        } else if x.index == PHONEME_G_STAR {
        } else {
            let s1 = if s[i].index == PHONEME_K_STAR && (i + 1 >= s.len() || !is_diphthong_yx(
                s[i + 1].index,
            )) {
                s.update(i, with_index(s[i], PHONEME_KX))
            } else {
                s
            };
            assert(s1.len() == s.len());
            assert(ids_in_catalog(s1));
            assert(stress_at_most(s1, 8));
            assert(forall|q: int| 0 <= q < p ==> not_syllabic(#[trigger] s1[q].index));
            assert(not_syllabic(s1[i].index));
        }
    }
}

proof fn lemma_rewrite_from_ids(s: Seq<Phoneme>, p: nat)
    requires
        p <= s.len(),
        ids_in_catalog(s),
        stress_at_most(s, 8),
        forall|q: int| 0 <= q < p ==> not_syllabic(#[trigger] s[q].index),
    ensures
        ids_in_catalog(rewrite_from(s, p)),
        stress_at_most(rewrite_from(s, p), 8),
        forall|q: int| 0 <= q < rewrite_from(s, p).len() ==> not_syllabic(
            #[trigger] rewrite_from(s, p)[q].index,
        ),
    decreases potential(s, p),
{
    if p < s.len() {
        lemma_step_potential(s, p);
        lemma_step_ids(s, p);
        lemma_rewrite_from_ids(rewrite_step(s, p as int), p + 1);
    }
}

/// Apply the `UW`/`CH`/`J*` rule at `position`.
fn handle_uw_ch_j(phonemes: &mut Vec<Phoneme>, position: usize)
    requires
        position < old(phonemes).len(),
        ids_in_catalog(old(phonemes)@),
    ensures
        final(phonemes)@ == rewrite_uw_ch_j(old(phonemes)@, position as int),
{
    let phoneme = phonemes[position];
    if phoneme.index == PHONEME_UW && position > 0 && is_alveolar_at(phonemes[position - 1].index) {
        phonemes.set(position, Phoneme { index: PHONEME_UX, ..phoneme });
    } else if phoneme.index == PHONEME_CH {
        phonemes.insert(
            position + 1,
            Phoneme { length: 0, index: PHONEME_CH_RELEASE, stress: phoneme.stress },
        );
    } else if phoneme.index == PHONEME_J_STAR {
        phonemes.insert(
            position + 1,
            Phoneme { length: 0, index: PHONEME_J_RELEASE, stress: phoneme.stress },
        );
    }
}

/// The rules tried last at `position` (see `rewrite_tail`).
fn rewrite_tail_at(phonemes: &mut Vec<Phoneme>, position: usize)
    requires
        position < old(phonemes).len(),
        ids_in_catalog(old(phonemes)@),
    ensures
        final(phonemes)@ == rewrite_tail(old(phonemes)@, position as int),
{
    let phoneme = phonemes[position];
    if phoneme.index == PHONEME_K_STAR && (position + 1 >= phonemes.len() || !is_diphthong_yx_at(
        phonemes[position + 1].index,
    )) {
        phonemes.set(position, Phoneme { index: PHONEME_KX, ..phoneme });
    }
    let phoneme = phonemes[position];
    if is_unvoiced_plosive_at(phoneme.index) && position > 0 && phonemes[position - 1].index
        == PHONEME_S_STAR {
        phonemes.set(position, Phoneme { index: phoneme.index - 12, ..phoneme });
    } else if !is_unvoiced_plosive_at(phoneme.index) {
        handle_uw_ch_j(phonemes, position);
    }
    let phoneme = phonemes[position];
    if (phoneme.index == PHONEME_T_STAR || phoneme.index == PHONEME_D_STAR) && position > 0
        && is_vowel_at(phonemes[position - 1].index) && position + 1 < phonemes.len() {
        let next = phonemes[position + 1];
        let target = if next.index == PHONEME_PAUSE {
            position + 2
        } else {
            position + 1
        };
        if target < phonemes.len() && is_vowel_at(phonemes[target].index) && next.stress == 0 {
            phonemes.set(position, Phoneme { index: PHONEME_DX, ..phoneme });
        }
    }
}

/// What the rewrite pass does at `position` (see `rewrite_step`).
fn rewrite_at(phonemes: &mut Vec<Phoneme>, position: usize)
    requires
        position < old(phonemes).len(),
        ids_in_catalog(old(phonemes)@),
    ensures
        final(phonemes)@ == rewrite_step(old(phonemes)@, position as int),
{
    let len = phonemes.len();
    let phoneme = phonemes[position];
    let index = phoneme.index;
    if index == PHONEME_PAUSE {
        return;
    }
    if is_diphthong_at(index) {
        let continuation = if is_diphthong_yx_at(index) {
            PHONEME_YX
        } else {
            PHONEME_WX
        };
        phonemes.insert(position + 1, Phoneme { length: 0, index: continuation, stress: phoneme.stress });
        handle_uw_ch_j(phonemes, position);
        return;
    }
    if index == PHONEME_UL || index == PHONEME_UM || index == PHONEME_UN {
        let follower = if index == PHONEME_UL {
            PHONEME_L_STAR
        } else if index == PHONEME_UM {
            PHONEME_M_STAR
        } else {
            PHONEME_N_STAR
        };
        phonemes.set(position, Phoneme { index: PHONEME_AX, ..phoneme });
        phonemes.insert(position + 1, Phoneme { length: 0, index: follower, stress: phoneme.stress });
        return;
    }
    if is_vowel_at(index) && phoneme.stress != 0 {
        if len - position > 2 && phonemes[position + 1].index == PHONEME_PAUSE && is_vowel_at(
            phonemes[position + 2].index,
        ) && phonemes[position + 2].stress != 0 {
            phonemes.insert(position + 2, Phoneme { length: 0, index: PHONEME_Q_STAR, stress: 0 });
        }
        return;
    }
    if index == PHONEME_R_STAR {
        if position > 0 {
            let prior = phonemes[position - 1];
            if prior.index == PHONEME_T_STAR {
                phonemes.set(position - 1, Phoneme { index: PHONEME_CH, ..prior });
            } else if prior.index == PHONEME_D_STAR {
                phonemes.set(position - 1, Phoneme { index: PHONEME_J_STAR, ..prior });
            } else if is_vowel_at(prior.index) {
                phonemes.set(position, Phoneme { index: PHONEME_RX, ..phoneme });
            }
        }
        return;
    }
    if index == PHONEME_L_STAR && position > 0 && is_vowel_at(phonemes[position - 1].index) {
        phonemes.set(position, Phoneme { index: PHONEME_LX, ..phoneme });
        return;
    }
    if index == PHONEME_S_STAR && position > 0 && phonemes[position - 1].index == PHONEME_G_STAR {
        phonemes.set(position, Phoneme { index: PHONEME_Z_STAR, ..phoneme });
        return;
    }
    if index == PHONEME_G_STAR {
        if position + 1 < len && !is_diphthong_yx_at(phonemes[position + 1].index) {
            phonemes.set(position, Phoneme { index: PHONEME_GX, ..phoneme });
        }
        return;
    }
    rewrite_tail_at(phonemes, position);
}

/// The rewrite pass: one forward scan in which each rule's splices are seen
/// by the positions that follow.
fn parser2(result: &mut ParseResult)
    requires
        ids_in_catalog(old(result).phonemes@),
        stress_at_most(old(result).phonemes@, 8),
    ensures
        final(result).phonemes@ == rewrite_pass(old(result).phonemes@),
        ids_in_catalog(final(result).phonemes@),
        stress_at_most(final(result).phonemes@, 8),
        forall|q: int|
            0 <= q < final(result).phonemes@.len() ==> not_syllabic(
                #[trigger] final(result).phonemes@[q].index,
            ),
{
    let ghost start = result.phonemes@;
    proof {
        lemma_rewrite_from_ids(start, 0);
    }
    let mut position: usize = 0;
    while position < result.phonemes.len()
        invariant
            position <= result.phonemes@.len(),
            ids_in_catalog(result.phonemes@),
            stress_at_most(result.phonemes@, 8),
            rewrite_from(result.phonemes@, position as nat) == rewrite_pass(start),
            forall|q: int| 0 <= q < position ==> not_syllabic(#[trigger] result.phonemes@[q].index),
        decreases potential(result.phonemes@, position as nat),
    {
        let ghost before = result.phonemes@;
        proof {
            lemma_step_potential(before, position as nat);
            lemma_step_ids(before, position as nat);
        }
        rewrite_at(&mut result.phonemes, position);
        position += 1;
    }
}

// ---------------------------------------------------------------- stress and lengths

/// Event `i` after stress copying: a consonant right before a stressed vowel
/// takes that vowel's stress plus one.
pub open spec fn stress_copied(s: Seq<Phoneme>, i: int) -> Phoneme {
    let x = s[i];
    if is_consonant(x.index) && i + 1 < s.len() && is_vowel(s[i + 1].index) && s[i + 1].stress != 0
        && s[i + 1].stress < 0x80 {
        Phoneme { stress: (s[i + 1].stress + 1) as u8, ..x }
    } else {
        x
    }
}

pub open spec fn copy_stress_pass(s: Seq<Phoneme>) -> Seq<Phoneme> {
    Seq::new(s.len(), |i: int| stress_copied(s, i))
}

fn copy_stress(phonemes: &mut Vec<Phoneme>)
    requires
        ids_in_catalog(old(phonemes)@),
        stress_at_most(old(phonemes)@, 8),
    ensures
        final(phonemes)@ == copy_stress_pass(old(phonemes)@),
        stress_at_most(final(phonemes)@, 9),
{
    let ghost s = phonemes@;
    let len = phonemes.len();
    let mut i: usize = 0;
    while i < len
        invariant
            len == s.len(),
            phonemes@.len() == len,
            i <= len,
            ids_in_catalog(s),
            stress_at_most(s, 8),
            forall|j: int| 0 <= j < i ==> #[trigger] phonemes@[j] == stress_copied(s, j),
            forall|j: int| i <= j < len ==> #[trigger] phonemes@[j] == s[j],
        decreases len - i,
    {
        let phoneme = phonemes[i];
        if is_consonant_at(phoneme.index) && i + 1 < len {
            let next = phonemes[i + 1];
            if is_vowel_at(next.index) && next.stress != 0 && next.stress < 0x80 {
                phonemes.set(i, Phoneme { stress: next.stress + 1, ..phoneme });
            }
        }
        i += 1;
    }
    assert(phonemes@ =~= copy_stress_pass(s));
}

/// Event `x` with the catalog's base duration for its stress band.
pub open spec fn length_assigned(x: Phoneme) -> Phoneme {
    if x.stress == 0 || x.stress > 0x7F {
        Phoneme { length: unstressed_length(x.index), ..x }
    } else {
        Phoneme { length: stressed_length(x.index), ..x }
    }
}

pub open spec fn assign_lengths(s: Seq<Phoneme>) -> Seq<Phoneme> {
    Seq::new(s.len(), |i: int| length_assigned(s[i]))
}

/// Every event of `s` has a base duration in the catalog.
pub open spec fn ids_have_lengths(s: Seq<Phoneme>) -> bool {
    forall|i: int| 0 <= i < s.len() ==> #[trigger] s[i].index < LENGTH_TABLE_SIZE
}

fn set_phoneme_length(phonemes: &mut Vec<Phoneme>)
    requires
        ids_have_lengths(old(phonemes)@),
    ensures
        final(phonemes)@ == assign_lengths(old(phonemes)@),
{
    let ghost s = phonemes@;
    let len = phonemes.len();
    let mut i: usize = 0;
    while i < len
        invariant
            len == s.len(),
            phonemes@.len() == len,
            i <= len,
            ids_have_lengths(s),
            forall|j: int| 0 <= j < i ==> #[trigger] phonemes@[j] == length_assigned(s[j]),
            forall|j: int| i <= j < len ==> #[trigger] phonemes@[j] == s[j],
        decreases len - i,
    {
        let phoneme = phonemes[i];
        let length = if phoneme.stress == 0 || phoneme.stress > 0x7F {
            unstressed_length_at(phoneme.index)
        } else {
            stressed_length_at(phoneme.index)
        };
        phonemes.set(i, Phoneme { length, ..phoneme });
        i += 1;
    }
    assert(phonemes@ =~= assign_lengths(s));
}

/// `x` with duration `l`, taken modulo 256 as a byte register would.
pub open spec fn with_length(x: Phoneme, l: int) -> Phoneme {
    Phoneme { length: (l % 256) as u8, ..x }
}

/// Walking left from `v` over non-vowels.
pub open spec fn walk_back(s: Seq<Phoneme>, v: int) -> int
    decreases v,
{
    if v > 0 && !is_vowel(s[v - 1].index) {
        walk_back(s, v - 1)
    } else {
        v
    }
}

/// Where the lengthening before the punctuation at `pos` starts: the nearest
/// vowel to its left (or the start of the sequence).
pub open spec fn span_start(s: Seq<Phoneme>, pos: int) -> int {
    let v = walk_back(s, pos);
    if v > 0 {
        v - 1
    } else {
        0
    }
}

/// A fricative-or-voiced event grows to `len * 1.5 + 1`.
pub open spec fn lengthened(x: Phoneme) -> Phoneme {
    if !is_fricative(x.index) || is_voiced(x.index) {
        with_length(x, x.length + x.length / 2 + 1)
    } else {
        x
    }
}

pub open spec fn lengthen_span(s: Seq<Phoneme>, lo: int, hi: int) -> Seq<Phoneme> {
    Seq::new(s.len(), |i: int| if lo <= i < hi { lengthened(s[i]) } else { s[i] })
}

/// The first sweep over positions `0 .. n`: each punctuation lengthens the
/// span back to the nearest vowel.
pub open spec fn punctuation_sweep(s: Seq<Phoneme>, n: nat) -> Seq<Phoneme>
    decreases n,
{
    if n == 0 {
        s
    } else {
        let t = punctuation_sweep(s, (n - 1) as nat);
        if is_punctuation(t[n - 1].index) {
            lengthen_span(t, span_start(t, n - 1), n - 1)
        } else {
            t
        }
    }
}

/// The first position at or after `q` that is not a pause.
pub open spec fn first_non_pause(s: Seq<Phoneme>, q: int) -> int
    decreases s.len() - q,
{
    if 0 <= q < s.len() && s[q].index == PHONEME_PAUSE {
        first_non_pause(s, q + 1)
    } else {
        q
    }
}

/// The contextual length rule applied at position `lp`.
pub open spec fn adjust_step(s: Seq<Phoneme>, lp: int) -> Seq<Phoneme> {
    let x = s[lp];
    if is_vowel(x.index) {
        if lp + 1 >= s.len() {
            s
        } else if !is_consonant(s[lp + 1].index) {
            if (s[lp + 1].index == PHONEME_RX || s[lp + 1].index == PHONEME_LX) && lp + 2 < s.len()
                && is_consonant(s[lp + 2].index) {
                s.update(lp, with_length(x, x.length - 1))
            } else {
                s
            }
        } else if !is_voiced(s[lp + 1].index) {
            if is_unvoiced_plosive(s[lp + 1].index) {
                s.update(lp, with_length(x, x.length - x.length / 8))
            } else {
                s
            }
        } else {
            s.update(lp, with_length(x, x.length + x.length / 4 + 1))
        }
    } else if is_nasal(x.index) {
        if lp + 1 < s.len() && is_plosive(s[lp + 1].index) {
            s.update(lp + 1, with_length(s[lp + 1], 6)).update(lp, with_length(x, 5))
        } else {
            s
        }
    } else if is_plosive(x.index) {
        let q = first_non_pause(s, lp + 1);
        if q < s.len() && is_plosive(s[q].index) {
            s.update(q, with_length(s[q], s[q].length / 2 + 1)).update(
                lp,
                with_length(x, x.length / 2 + 1),
            )
        } else {
            s
        }
    } else if lp > 0 && is_liquid(x.index) && is_plosive(s[lp - 1].index) {
        s.update(lp, with_length(x, x.length - 2))
    } else {
        s
    }
}

/// The second sweep over positions `0 .. n`.
pub open spec fn context_sweep(s: Seq<Phoneme>, n: nat) -> Seq<Phoneme>
    decreases n,
{
    if n == 0 {
        s
    } else {
        adjust_step(context_sweep(s, (n - 1) as nat), n - 1)
    }
}

pub open spec fn adjust_pass(s: Seq<Phoneme>) -> Seq<Phoneme> {
    let t = punctuation_sweep(s, s.len());
    context_sweep(t, t.len())
}

/// Two events that differ at most in their duration.
pub open spec fn same_but_length(x: Phoneme, y: Phoneme) -> bool {
    x.index == y.index && x.stress == y.stress
}

/// Two sequences whose events differ at most in their durations.
pub open spec fn same_ids(a: Seq<Phoneme>, b: Seq<Phoneme>) -> bool {
    a.len() == b.len() && forall|i: int| 0 <= i < a.len() ==> same_but_length(#[trigger] a[i], b[i])
}

/// No event of `s` has a stress above `k`.
pub open spec fn stress_at_most(s: Seq<Phoneme>, k: u8) -> bool {
    forall|i: int| 0 <= i < s.len() ==> #[trigger] s[i].stress <= k
}

proof fn lemma_punctuation_sweep_ids(s: Seq<Phoneme>, n: nat)
    ensures
        same_ids(punctuation_sweep(s, n), s),
    decreases n,
{
    if n > 0 {
        lemma_punctuation_sweep_ids(s, (n - 1) as nat);
        let t = punctuation_sweep(s, (n - 1) as nat);
        if is_punctuation(t[n - 1].index) {
            let r = lengthen_span(t, span_start(t, n - 1), n - 1);
            assert forall|i: int| 0 <= i < r.len() implies same_but_length(#[trigger] r[i], s[i]) by {
                assert(same_but_length(r[i], t[i]));
            }
        }
    }
}

proof fn lemma_context_sweep_ids(s: Seq<Phoneme>, n: nat)
    requires
        n <= s.len(),
    ensures
        same_ids(context_sweep(s, n), s),
    decreases n,
{
    if n > 0 {
        lemma_context_sweep_ids(s, (n - 1) as nat);
        let t = context_sweep(s, (n - 1) as nat);
        lemma_adjust_step_ids(t, n - 1);
    }
}

proof fn lemma_adjust_step_ids(s: Seq<Phoneme>, lp: int)
    requires
        0 <= lp < s.len(),
    ensures
        same_ids(adjust_step(s, lp), s),
{
    let x = s[lp];
    let r = adjust_step(s, lp);
    if is_vowel(x.index) {
    } else if is_nasal(x.index) {
        if lp + 1 < s.len() && is_plosive(s[lp + 1].index) {
            let s1 = s.update(lp + 1, with_length(s[lp + 1], 6));
            assert(same_ids(s1, s));
        }
    } else if is_plosive(x.index) {
        let q = first_non_pause(s, lp + 1);
        lemma_first_non_pause_bounds(s, lp + 1);
        if q < s.len() && is_plosive(s[q].index) {
            let s1 = s.update(q, with_length(s[q], s[q].length / 2 + 1));
            assert(same_ids(s1, s));
        }
    }
}

proof fn lemma_first_non_pause_bounds(s: Seq<Phoneme>, q: int)
    requires
        0 <= q,
    ensures
        q <= first_non_pause(s, q),
        q <= s.len() ==> first_non_pause(s, q) <= s.len(),
    decreases s.len() - q,
{
    if 0 <= q < s.len() && s[q].index == PHONEME_PAUSE {
        lemma_first_non_pause_bounds(s, q + 1);
    }
}

fn walk_back_from(phonemes: &Vec<Phoneme>, position: usize) -> (r: usize)
    requires
        position < phonemes@.len(),
        ids_in_catalog(phonemes@),
    ensures
        r == span_start(phonemes@, position as int),
        r <= position,
{
    let mut v = position;
    while v > 0 && !is_vowel_at(phonemes[v - 1].index)
        invariant
            v <= position,
            position < phonemes@.len(),
            ids_in_catalog(phonemes@),
            walk_back(phonemes@, position as int) == walk_back(phonemes@, v as int),
        decreases v,
    {
        v -= 1;
    }
    if v > 0 {
        v - 1
    } else {
        0
    }
}

fn lengthen_before_punctuation(phonemes: &mut Vec<Phoneme>)
    requires
        ids_in_catalog(old(phonemes)@),
    ensures
        final(phonemes)@ == punctuation_sweep(old(phonemes)@, old(phonemes)@.len()),
{
    let ghost s = phonemes@;
    let len = phonemes.len();
    let mut position: usize = 0;
    while position < len
        invariant
            len == s.len(),
            position <= len,
            phonemes@ == punctuation_sweep(s, position as nat),
            same_ids(phonemes@, s),
            ids_in_catalog(s),
        decreases len - position,
    {
        proof {
            lemma_punctuation_sweep_ids(s, (position + 1) as nat);
        }
        if is_punctuation_at(phonemes[position].index) {
            let start = walk_back_from(phonemes, position);
            let ghost t = phonemes@;
            let mut k = start;
            while k < position
                invariant
                    start <= k <= position,
                    position < len,
                    phonemes@ == lengthen_span(t, start as int, k as int),
                    same_ids(t, s),
                    len == s.len(),
                    ids_in_catalog(s),
                decreases position - k,
            {
                let ph = phonemes[k];
                if !is_fricative_at(ph.index) || is_voiced_at(ph.index) {
                    let grown = ((ph.length as u16 + (ph.length / 2) as u16 + 1) % 256) as u8;
                    phonemes.set(k, Phoneme { length: grown, ..ph });
                }
                k += 1;
                assert(phonemes@ =~= lengthen_span(t, start as int, k as int));
            }
        }
        position += 1;
    }
}

fn skip_pauses(phonemes: &Vec<Phoneme>, from: usize) -> (r: usize)
    requires
        from <= phonemes@.len(),
    ensures
        r == first_non_pause(phonemes@, from as int),
        from <= r <= phonemes@.len(),
{
    let mut q = from;
    while q < phonemes.len() && phonemes[q].index == PHONEME_PAUSE
        invariant
            from <= q <= phonemes@.len(),
            first_non_pause(phonemes@, from as int) == first_non_pause(phonemes@, q as int),
        decreases phonemes@.len() - q,
    {
        q += 1;
    }
    q
}

/// The contextual length rule at `lp` (see `adjust_step`).
fn adjust_at(phonemes: &mut Vec<Phoneme>, lp: usize)
    requires
        lp < old(phonemes)@.len(),
        ids_in_catalog(old(phonemes)@),
    ensures
        final(phonemes)@ == adjust_step(old(phonemes)@, lp as int),
{
    let len = phonemes.len();
    let x = phonemes[lp];
    if is_vowel_at(x.index) {
        if lp + 1 >= len {
            return;
        }
        let next = phonemes[lp + 1];
        if !is_consonant_at(next.index) {
            if (next.index == PHONEME_RX || next.index == PHONEME_LX) && lp + 2 < len
                && is_consonant_at(phonemes[lp + 2].index) {
                let l = ((x.length as u16 + 255) % 256) as u8;
                phonemes.set(lp, Phoneme { length: l, ..x });
            }
        } else if !is_voiced_at(next.index) {
            if is_unvoiced_plosive_at(next.index) {
                phonemes.set(lp, Phoneme { length: x.length - x.length / 8, ..x });
            }
        } else {
            let l = ((x.length as u16 + (x.length / 4) as u16 + 1) % 256) as u8;
            phonemes.set(lp, Phoneme { length: l, ..x });
        }
    } else if is_nasal_at(x.index) {
        if lp + 1 < len && is_plosive_at(phonemes[lp + 1].index) {
            let next = phonemes[lp + 1];
            phonemes.set(lp + 1, Phoneme { length: 6, ..next });
            phonemes.set(lp, Phoneme { length: 5, ..x });
        }
    } else if is_plosive_at(x.index) {
        let q = skip_pauses(phonemes, lp + 1);
        if q < len && is_plosive_at(phonemes[q].index) {
            let other = phonemes[q];
            phonemes.set(q, Phoneme { length: other.length / 2 + 1, ..other });
            phonemes.set(lp, Phoneme { length: x.length / 2 + 1, ..x });
        }
    } else if lp > 0 && is_liquid_at(x.index) && is_plosive_at(phonemes[lp - 1].index) {
        let l = ((x.length as u16 + 254) % 256) as u8;
        phonemes.set(lp, Phoneme { length: l, ..x });
    }
}

fn adjust_lengths(phonemes: &mut Vec<Phoneme>)
    requires
        ids_in_catalog(old(phonemes)@),
    ensures
        final(phonemes)@ == adjust_pass(old(phonemes)@),
        same_ids(final(phonemes)@, old(phonemes)@),
{
    let ghost s = phonemes@;
    lengthen_before_punctuation(phonemes);
    let ghost t = phonemes@;
    proof {
        lemma_punctuation_sweep_ids(s, s.len());
        lemma_context_sweep_ids(t, t.len());
    }
    let len = phonemes.len();
    let mut lp: usize = 0;
    while lp < len
        invariant
            len == t.len(),
            lp <= len,
            same_ids(t, s),
            ids_in_catalog(s),
            phonemes@ == context_sweep(t, lp as nat),
            same_ids(phonemes@, t),
        decreases len - lp,
    {
        proof {
            lemma_context_sweep_ids(t, (lp + 1) as nat);
        }
        adjust_at(phonemes, lp);
        lp += 1;
    }
}

// ---------------------------------------------------------------- plosives and pauses

/// An unvoiced plosive at `p` whose next non-pause event is a class-8
/// phoneme, `/H` or `/X` is not prolonged.
pub open spec fn stays_short(s: Seq<Phoneme>, p: int) -> bool {
    let q = first_non_pause(s, p + 1);
    is_unvoiced_plosive(s[p].index) && q < s.len() && (is_stop_release(s[q].index) || s[q].index
        == PHONEME_SLASH_H || s[q].index == PHONEME_SLASH_X)
}

/// The `k`-th synthetic event that follows plosive `x`.
pub open spec fn release_event(x: Phoneme, k: usize) -> Phoneme {
    Phoneme {
        index: (x.index + k) as usize,
        stress: x.stress,
        length: unstressed_length((x.index + k) as usize),
    }
}

/// Prolonging plosives from position `p` on.
pub open spec fn prolong_from(s: Seq<Phoneme>, p: nat) -> Seq<Phoneme>
    decreases s.len() - p,
{
    if p >= s.len() {
        s
    } else if !is_plosive(s[p as int].index) || stays_short(s, p as int) {
        prolong_from(s, p + 1)
    } else {
        prolong_from(
            s.insert(p as int + 1, release_event(s[p as int], 1)).insert(
                p as int + 2,
                release_event(s[p as int], 2),
            ),
            p + 3,
        )
    }
}

pub open spec fn prolong_pass(s: Seq<Phoneme>) -> Seq<Phoneme> {
    prolong_from(s, 0)
}

fn prolong_plosives(phonemes: &mut Vec<Phoneme>)
    requires
        ids_have_lengths(old(phonemes)@),
        stress_at_most(old(phonemes)@, 9),
    ensures
        final(phonemes)@ == prolong_pass(old(phonemes)@),
        ids_have_lengths(final(phonemes)@),
        stress_at_most(final(phonemes)@, 9),
{
    let ghost s = phonemes@;
    let mut position: usize = 0;
    while position < phonemes.len()
        invariant
            ids_have_lengths(phonemes@),
            stress_at_most(phonemes@, 9),
            prolong_from(phonemes@, position as nat) == prolong_pass(s),
        decreases phonemes@.len() - position,
    {
        let x = phonemes[position];
        if !is_plosive_at(x.index) {
            position += 1;
            continue;
        }
        if is_unvoiced_plosive_at(x.index) {
            let q = skip_pauses(phonemes, position + 1);
            if q < phonemes.len() {
                let next = phonemes[q].index;
                if is_stop_release_at(next) || next == PHONEME_SLASH_H || next == PHONEME_SLASH_X {
                    position += 1;
                    continue;
                }
            }
        }
        phonemes.insert(
            position + 1,
            Phoneme {
                index: x.index + 1,
                stress: x.stress,
                length: unstressed_length_at(x.index + 1),
            },
        );
        let grown = phonemes.len();
        assert(position + 2 <= grown);
        phonemes.insert(
            position + 2,
            Phoneme {
                index: x.index + 2,
                stress: x.stress,
                length: unstressed_length_at(x.index + 2),
            },
        );
        let grown = phonemes.len();
        assert(position + 3 <= grown);
        position += 3;
    }
}

/// The events of `s` that are not pauses, in order.
pub open spec fn drop_pauses(s: Seq<Phoneme>) -> Seq<Phoneme>
    decreases s.len(),
{
    if s.len() == 0 {
        s
    } else {
        let r = drop_pauses(s.drop_last());
        if s.last().index == PHONEME_PAUSE {
            r
        } else {
            r.push(s.last())
        }
    }
}

fn remove_pauses(phonemes: &Vec<Phoneme>) -> (r: Vec<Phoneme>)
    requires
        ids_have_lengths(phonemes@),
        stress_at_most(phonemes@, 9),
    ensures
        r@ == drop_pauses(phonemes@),
        compiled_events(r@),
{
    let mut out: Vec<Phoneme> = Vec::new();
    let mut i: usize = 0;
    assert(phonemes@.subrange(0, 0) =~= Seq::<Phoneme>::empty());
    while i < phonemes.len()
        invariant
            i <= phonemes@.len(),
            out@ == drop_pauses(phonemes@.subrange(0, i as int)),
            ids_have_lengths(phonemes@),
            stress_at_most(phonemes@, 9),
            compiled_events(out@),
        decreases phonemes@.len() - i,
    {
        assert(phonemes@.subrange(0, i + 1).drop_last() =~= phonemes@.subrange(0, i as int));
        let x = phonemes[i];
        if x.index != PHONEME_PAUSE {
            out.push(x);
        }
        i += 1;
    }
    assert(phonemes@.subrange(0, i as int) =~= phonemes@);
    out
}

/// What every compiled event satisfies: no pause, an id with synthesis data
/// and a stress level from 0 to 9.
pub open spec fn compiled_events(s: Seq<Phoneme>) -> bool {
    forall|i: int|
        0 <= i < s.len() ==> #[trigger] s[i].index != PHONEME_PAUSE && s[i].index < LENGTH_TABLE_SIZE
            && s[i].stress <= 9
}

/// The events compiled from tokenized events `t`.
pub open spec fn compile_events(t: Seq<Phoneme>) -> Seq<Phoneme> {
    drop_pauses(prolong_pass(adjust_pass(assign_lengths(copy_stress_pass(rewrite_pass(t))))))
}

/// What compiling a phoneme-code string yields.
pub open spec fn compile(text: Seq<char>) -> Result<Seq<Phoneme>, ParseError> {
    match tokenize(text) {
        Ok(t) => Ok(compile_events(t)),
        Err(e) => Err(e),
    }
}

/// Compile a phoneme-code string into timed phoneme events.
pub fn parse_phonemes(text: &str) -> (r: Result<Vec<Phoneme>, ParseError>)
    ensures
        match r {
            Ok(v) => compile(text@) == Ok::<Seq<Phoneme>, ParseError>(v@) && compiled_events(v@),
            Err(e) => compile(text@) == Err::<Seq<Phoneme>, ParseError>(e),
        },
{
    let chars = chars_of(text);
    let mut result = match parser1(&chars) {
        Ok(result) => result,
        Err(e) => {
            return Err(e);
        },
    };
    parser2(&mut result);
    let ghost rewritten = result.phonemes@;
    copy_stress(&mut result.phonemes);
    let ghost stressed = result.phonemes@;
    assert(stressed.len() == rewritten.len());
    assert(ids_have_lengths(stressed)) by {
        assert forall|i: int| 0 <= i < stressed.len() implies #[trigger] stressed[i].index
            < LENGTH_TABLE_SIZE by {
            assert(stressed[i].index == rewritten[i].index);
            assert(not_syllabic(rewritten[i].index));
        }
    }
    set_phoneme_length(&mut result.phonemes);
    let ghost timed = result.phonemes@;
    assert(same_ids(timed, stressed));
    assert(ids_have_lengths(timed) && stress_at_most(timed, 9)) by {
        assert forall|i: int| 0 <= i < timed.len() implies #[trigger] timed[i].index
            < LENGTH_TABLE_SIZE && timed[i].stress <= 9 by {
            assert(same_but_length(timed[i], stressed[i]));
        }
    }
    adjust_lengths(&mut result.phonemes);
    let ghost adjusted = result.phonemes@;
    assert(ids_have_lengths(adjusted) && stress_at_most(adjusted, 9)) by {
        assert forall|i: int| 0 <= i < adjusted.len() implies #[trigger] adjusted[i].index
            < LENGTH_TABLE_SIZE && adjusted[i].stress <= 9 by {
            assert(same_but_length(adjusted[i], timed[i]));
        }
    }
    prolong_plosives(&mut result.phonemes);
    Ok(remove_pauses(&result.phonemes))
}

// ---------------------------------------------------------------- laws

/// Compiling is a pure function of the text: the same text always yields the
/// same events, or the same error.
pub proof fn lemma_compile_is_pure(
    a: Seq<char>,
    b: Seq<char>,
    ra: Result<Seq<Phoneme>, ParseError>,
    rb: Result<Seq<Phoneme>, ParseError>,
)
    requires
        a == b,
        ra == compile(a),
        rb == compile(b),
    ensures
        ra == rb,
{
}

/// When the scan reaches an `R*` right after a `T*`, the `T*` becomes `CH`
/// and the `R*` stays; after a `D*`, the `D*` becomes `J*`.
pub proof fn lemma_stop_before_r(s: Seq<Phoneme>, p: int)
    requires
        0 < p < s.len(),
        s[p].index == PHONEME_R_STAR,
        s[p - 1].index == PHONEME_T_STAR || s[p - 1].index == PHONEME_D_STAR,
    ensures
        rewrite_step(s, p).len() == s.len(),
        rewrite_step(s, p)[p] == s[p],
        s[p - 1].index == PHONEME_T_STAR ==> rewrite_step(s, p)[p - 1].index == PHONEME_CH,
        s[p - 1].index == PHONEME_D_STAR ==> rewrite_step(s, p)[p - 1].index == PHONEME_J_STAR,
        forall|q: int| 0 <= q < s.len() && q != p - 1 ==> #[trigger] rewrite_step(s, p)[q] == s[q],
{
}

/// A syllabic `UL` with stress `k` becomes `AX` with stress `k` followed by
/// `L*` with stress `k`: the sequence grows by exactly one event.
pub proof fn lemma_syllabic_ul_splits(s: Seq<Phoneme>, p: int)
    requires
        0 <= p < s.len(),
        s[p].index == PHONEME_UL,
    ensures
        rewrite_step(s, p).len() == s.len() + 1,
        rewrite_step(s, p)[p].index == PHONEME_AX,
        rewrite_step(s, p)[p].stress == s[p].stress,
        rewrite_step(s, p)[p + 1].index == PHONEME_L_STAR,
        rewrite_step(s, p)[p + 1].stress == s[p].stress,
        forall|q: int| 0 <= q < p ==> #[trigger] rewrite_step(s, p)[q] == s[q],
        forall|q: int| p < q < s.len() ==> #[trigger] rewrite_step(s, p)[q + 1] == s[q],
{
}

/// The rewrite pass leaves no syllabic `UL`, `UM` or `UN`: a second pass
/// finds none of them left to split.
pub proof fn lemma_rewrite_leaves_no_syllabic(s: Seq<Phoneme>)
    requires
        ids_in_catalog(s),
        stress_at_most(s, 8),
    ensures
        forall|i: int| 0 <= i < rewrite_pass(s).len() ==> not_syllabic(#[trigger] rewrite_pass(s)[i].index),
{
    lemma_rewrite_from_ids(s, 0);
}

} // verus!
