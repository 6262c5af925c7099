//! The phoneme catalog: names, articulation flags and base durations of every
//! phoneme id, with one spec function per table and an executable lookup
//! that is proved to agree with it.

use vstd::prelude::*;

verus! {

/// Number of catalog ids (`0 ..= 80`).
pub const CATALOG_SIZE: usize = 81;

/// Number of ids that have base durations (`UN`, id 80, has none).
pub const LENGTH_TABLE_SIZE: usize = 80;

pub const FRICATIVE: u16 = 0x2000;
pub const LIQUID: u16 = 0x1000;
pub const NASAL: u16 = 0x0800;
pub const ALVEOLAR: u16 = 0x0400;
pub const PUNCTUATION: u16 = 0x0100;
pub const VOWEL: u16 = 0x0080;
pub const CONSONANT: u16 = 0x0040;
pub const DIPHTHONG_YX: u16 = 0x0020;
pub const DIPHTHONG: u16 = 0x0010;
pub const STOP_RELEASE: u16 = 0x0008;
pub const VOICED: u16 = 0x0004;
pub const PLOSIVE: u16 = 0x0002;
pub const UNVOICED_PLOSIVE: u16 = 0x0001;

pub const PHONEME_PAUSE: usize = 0;
pub const PHONEME_PERIOD: usize = 1;
pub const PHONEME_QUESTION_MARK: usize = 2;
pub const PHONEME_AX: usize = 13;
pub const PHONEME_UX: usize = 16;
pub const PHONEME_RX: usize = 18;
pub const PHONEME_LX: usize = 19;
pub const PHONEME_WX: usize = 20;
pub const PHONEME_YX: usize = 21;
pub const PHONEME_R_STAR: usize = 23;
pub const PHONEME_L_STAR: usize = 24;
pub const PHONEME_M_STAR: usize = 27;
pub const PHONEME_N_STAR: usize = 28;
pub const PHONEME_DX: usize = 30;
pub const PHONEME_Q_STAR: usize = 31;
pub const PHONEME_S_STAR: usize = 32;
pub const PHONEME_SLASH_H: usize = 36;
pub const PHONEME_SLASH_X: usize = 37;
pub const PHONEME_Z_STAR: usize = 38;
pub const PHONEME_CH: usize = 42;
pub const PHONEME_CH_RELEASE: usize = 43;
pub const PHONEME_J_STAR: usize = 44;
pub const PHONEME_J_RELEASE: usize = 45;
pub const PHONEME_UW: usize = 53;
pub const PHONEME_D_STAR: usize = 57;
pub const PHONEME_G_STAR: usize = 60;
pub const PHONEME_GX: usize = 63;
pub const PHONEME_T_STAR: usize = 69;
pub const PHONEME_K_STAR: usize = 72;
pub const PHONEME_KX: usize = 75;
pub const PHONEME_UL: usize = 78;
pub const PHONEME_UM: usize = 79;
pub const PHONEME_UN: usize = 80;

/// First character of each catalog name.
pub open spec fn name_first(id: usize) -> char {
    match id {
        0 => ' ',
        1 => '.',
        2 => '?',
        3 => ',',
        4 => '-',
        5 => 'I',
        6 => 'I',
        7 => 'E',
        8 => 'A',
        9 => 'A',
        10 => 'A',
        11 => 'A',
        12 => 'U',
        13 => 'A',
        14 => 'I',
        15 => 'E',
        16 => 'U',
        17 => 'O',
        18 => 'R',
        19 => 'L',
        20 => 'W',
        21 => 'Y',
        22 => 'W',
        23 => 'R',
        24 => 'L',
        25 => 'W',
        26 => 'Y',
        27 => 'M',
        28 => 'N',
        29 => 'N',
        30 => 'D',
        31 => 'Q',
        32 => 'S',
        33 => 'S',
        34 => 'F',
        35 => 'T',
        36 => '/',
        37 => '/',
        38 => 'Z',
        39 => 'Z',
        40 => 'V',
        41 => 'D',
        42 => 'C',
        43 => '*',
        44 => 'J',
        45 => '*',
        46 => '*',
        47 => '*',
        48 => 'E',
        49 => 'A',
        50 => 'O',
        51 => 'A',
        52 => 'O',
        53 => 'U',
        54 => 'B',
        55 => '*',
        56 => '*',
        57 => 'D',
        58 => '*',
        59 => '*',
        60 => 'G',
        61 => '*',
        62 => '*',
        63 => 'G',
        64 => '*',
        65 => '*',
        66 => 'P',
        67 => '*',
        68 => '*',
        69 => 'T',
        70 => '*',
        71 => '*',
        72 => 'K',
        73 => '*',
        74 => '*',
        75 => 'K',
        76 => '*',
        77 => '*',
        78 => 'U',
        79 => 'U',
        80 => 'U',
        _ => '*',
    }
}

/// Second character of each catalog name (`*` where the name has one letter).
pub open spec fn name_second(id: usize) -> char {
    match id {
        0 => '*',
        1 => '*',
        2 => '*',
        3 => '*',
        4 => '*',
        5 => 'Y',
        6 => 'H',
        7 => 'H',
        8 => 'E',
        9 => 'A',
        10 => 'H',
        11 => 'O',
        12 => 'H',
        13 => 'X',
        14 => 'X',
        15 => 'R',
        16 => 'X',
        17 => 'H',
        18 => 'X',
        19 => 'X',
        20 => 'X',
        21 => 'X',
        22 => 'H',
        23 => '*',
        24 => '*',
        25 => '*',
        26 => '*',
        27 => '*',
        28 => '*',
        29 => 'X',
        30 => 'X',
        31 => '*',
        32 => '*',
        33 => 'H',
        34 => '*',
        35 => 'H',
        36 => 'H',
        37 => 'X',
        38 => '*',
        39 => 'H',
        40 => '*',
        41 => 'H',
        42 => 'H',
        43 => '*',
        44 => '*',
        45 => '*',
        46 => '*',
        47 => '*',
        48 => 'Y',
        49 => 'Y',
        50 => 'Y',
        51 => 'W',
        52 => 'W',
        53 => 'W',
        54 => '*',
        55 => '*',
        56 => '*',
        57 => '*',
        58 => '*',
        59 => '*',
        60 => '*',
        61 => '*',
        62 => '*',
        63 => 'X',
        64 => '*',
        65 => '*',
        66 => '*',
        67 => '*',
        68 => '*',
        69 => '*',
        70 => '*',
        71 => '*',
        72 => '*',
        73 => '*',
        74 => '*',
        75 => 'X',
        76 => '*',
        77 => '*',
        78 => 'L',
        79 => 'M',
        80 => 'N',
        _ => '*',
    }
}

/// Articulation flags of each catalog entry.
pub open spec fn flags_of(id: usize) -> u16 {
    match id {
        0 => 0x8000,
        1 => 0xc100,
        2 => 0xc100,
        3 => 0xc100,
        4 => 0xc100,
        5 => 0x00a4,
        6 => 0x00a4,
        7 => 0x00a4,
        8 => 0x00a4,
        9 => 0x00a4,
        10 => 0x00a4,
        11 => 0x0084,
        12 => 0x0084,
        13 => 0x00a4,
        14 => 0x00a4,
        15 => 0x0084,
        16 => 0x0084,
        17 => 0x0084,
        18 => 0x0084,
        19 => 0x0084,
        20 => 0x0084,
        21 => 0x0084,
        22 => 0x0044,
        23 => 0x1044,
        24 => 0x1044,
        25 => 0x1044,
        26 => 0x1044,
        27 => 0x084c,
        28 => 0x0c4c,
        29 => 0x084c,
        30 => 0x0448,
        31 => 0x404c,
        32 => 0x2440,
        33 => 0x2040,
        34 => 0x2040,
        35 => 0x2440,
        36 => 0x0040,
        37 => 0x0040,
        38 => 0x2444,
        39 => 0x2044,
        40 => 0x2044,
        41 => 0x2444,
        42 => 0x2048,
        43 => 0x2040,
        44 => 0x004c,
        45 => 0x2044,
        46 => 0x0000,
        47 => 0x0000,
        48 => 0x00b4,
        49 => 0x00b4,
        50 => 0x00b4,
        51 => 0x0094,
        52 => 0x0094,
        53 => 0x0094,
        54 => 0x004e,
        55 => 0x004e,
        56 => 0x004e,
        57 => 0x044e,
        58 => 0x044e,
        59 => 0x044e,
        60 => 0x004e,
        61 => 0x004e,
        62 => 0x004e,
        63 => 0x004e,
        64 => 0x004e,
        65 => 0x004e,
        66 => 0x004b,
        67 => 0x004b,
        68 => 0x004b,
        69 => 0x044b,
        70 => 0x044b,
        71 => 0x044b,
        72 => 0x004b,
        73 => 0x004b,
        74 => 0x004b,
        75 => 0x004b,
        76 => 0x004b,
        77 => 0x004b,
        78 => 0x0080,
        79 => 0x00c1,
        80 => 0x00c1,
        _ => 0,
    }
}

/// Unstressed base duration of each catalog entry.
pub open spec fn unstressed_length(id: usize) -> u8 {
    match id {
        0 => 0x00,
        1 => 0x12,
        2 => 0x12,
        3 => 0x12,
        4 => 0x08,
        5 => 0x08,
        6 => 0x08,
        7 => 0x08,
        8 => 0x08,
        9 => 0x0B,
        10 => 0x06,
        11 => 0x0C,
        12 => 0x0A,
        13 => 0x05,
        14 => 0x05,
        15 => 0x0B,
        16 => 0x0A,
        17 => 0x0A,
        18 => 0x0A,
        19 => 0x09,
        20 => 0x08,
        21 => 0x07,
        22 => 0x09,
        23 => 0x07,
        24 => 0x06,
        25 => 0x08,
        26 => 0x06,
        27 => 0x07,
        28 => 0x07,
        29 => 0x07,
        30 => 0x02,
        31 => 0x05,
        32 => 0x02,
        33 => 0x02,
        34 => 0x02,
        35 => 0x02,
        36 => 0x02,
        37 => 0x02,
        38 => 0x06,
        39 => 0x06,
        40 => 0x07,
        41 => 0x06,
        42 => 0x06,
        43 => 0x02,
        44 => 0x08,
        45 => 0x03,
        46 => 0x01,
        47 => 0x1E,
        48 => 0x0D,
        49 => 0x0C,
        50 => 0x0C,
        51 => 0x0C,
        52 => 0x0E,
        53 => 0x09,
        54 => 0x06,
        55 => 0x01,
        56 => 0x02,
        57 => 0x05,
        58 => 0x01,
        59 => 0x01,
        60 => 0x06,
        61 => 0x01,
        62 => 0x02,
        63 => 0x06,
        64 => 0x01,
        65 => 0x02,
        66 => 0x08,
        67 => 0x02,
        68 => 0x02,
        69 => 0x04,
        70 => 0x02,
        71 => 0x02,
        72 => 0x06,
        73 => 0x01,
        74 => 0x04,
        75 => 0x06,
        76 => 0x01,
        77 => 0x04,
        78 => 0xC7,
        79 => 0xFF,
        _ => 0,
    }
}

/// Stressed base duration of each catalog entry.
pub open spec fn stressed_length(id: usize) -> u8 {
    match id {
        0 => 0x00,
        1 => 0x12,
        2 => 0x12,
        3 => 0x12,
        4 => 0x08,
        5 => 0x0B,
        6 => 0x09,
        7 => 0x0B,
        8 => 0x0E,
        9 => 0x0F,
        10 => 0x0B,
        11 => 0x10,
        12 => 0x0C,
        13 => 0x06,
        14 => 0x06,
        15 => 0x0E,
        16 => 0x0C,
        17 => 0x0E,
        18 => 0x0C,
        19 => 0x0B,
        20 => 0x08,
        21 => 0x08,
        22 => 0x0B,
        23 => 0x0A,
        24 => 0x09,
        25 => 0x08,
        26 => 0x08,
        27 => 0x08,
        28 => 0x08,
        29 => 0x08,
        30 => 0x03,
        31 => 0x05,
        32 => 0x02,
        33 => 0x02,
        34 => 0x02,
        35 => 0x02,
        36 => 0x02,
        37 => 0x02,
        38 => 0x06,
        39 => 0x06,
        40 => 0x08,
        41 => 0x06,
        42 => 0x06,
        43 => 0x02,
        44 => 0x09,
        45 => 0x04,
        46 => 0x02,
        47 => 0x01,
        48 => 0x0E,
        49 => 0x0F,
        50 => 0x0F,
        51 => 0x0F,
        52 => 0x0E,
        53 => 0x0E,
        54 => 0x08,
        55 => 0x02,
        56 => 0x02,
        57 => 0x07,
        58 => 0x02,
        59 => 0x01,
        60 => 0x07,
        61 => 0x02,
        62 => 0x02,
        63 => 0x07,
        64 => 0x02,
        65 => 0x02,
        66 => 0x08,
        67 => 0x02,
        68 => 0x02,
        69 => 0x06,
        70 => 0x02,
        71 => 0x02,
        72 => 0x07,
        73 => 0x02,
        74 => 0x04,
        75 => 0x07,
        76 => 0x01,
        77 => 0x04,
        78 => 0x05,
        79 => 0x05,
        _ => 0,
    }
}

pub fn name_first_at(id: usize) -> (r: char)
    requires
        id < CATALOG_SIZE,
    ensures
        r == name_first(id),
{
    match id {
        0 => ' ',
        1 => '.',
        2 => '?',
        3 => ',',
        4 => '-',
        5 => 'I',
        6 => 'I',
        7 => 'E',
        8 => 'A',
        9 => 'A',
        10 => 'A',
        11 => 'A',
        12 => 'U',
        13 => 'A',
        14 => 'I',
        15 => 'E',
        16 => 'U',
        17 => 'O',
        18 => 'R',
        19 => 'L',
        20 => 'W',
        21 => 'Y',
        22 => 'W',
        23 => 'R',
        24 => 'L',
        25 => 'W',
        26 => 'Y',
        27 => 'M',
        28 => 'N',
        29 => 'N',
        30 => 'D',
        31 => 'Q',
        32 => 'S',
        33 => 'S',
        34 => 'F',
        35 => 'T',
        36 => '/',
        37 => '/',
        38 => 'Z',
        39 => 'Z',
        40 => 'V',
        41 => 'D',
        42 => 'C',
        43 => '*',
        44 => 'J',
        45 => '*',
        46 => '*',
        47 => '*',
        48 => 'E',
        49 => 'A',
        50 => 'O',
        51 => 'A',
        52 => 'O',
        53 => 'U',
        54 => 'B',
        55 => '*',
        56 => '*',
        57 => 'D',
        58 => '*',
        59 => '*',
        60 => 'G',
        61 => '*',
        62 => '*',
        63 => 'G',
        64 => '*',
        65 => '*',
        66 => 'P',
        67 => '*',
        68 => '*',
        69 => 'T',
        70 => '*',
        71 => '*',
        72 => 'K',
        73 => '*',
        74 => '*',
        75 => 'K',
        76 => '*',
        77 => '*',
        78 => 'U',
        79 => 'U',
        80 => 'U',
        _ => '*',
    }
}

pub fn name_second_at(id: usize) -> (r: char)
    requires
        id < CATALOG_SIZE,
    ensures
        r == name_second(id),
{
    match id {
        0 => '*',
        1 => '*',
        2 => '*',
        3 => '*',
        4 => '*',
        5 => 'Y',
        6 => 'H',
        7 => 'H',
        8 => 'E',
        9 => 'A',
        10 => 'H',
        11 => 'O',
        12 => 'H',
        13 => 'X',
        14 => 'X',
        15 => 'R',
        16 => 'X',
        17 => 'H',
        18 => 'X',
        19 => 'X',
        20 => 'X',
        21 => 'X',
        22 => 'H',
        23 => '*',
        24 => '*',
        25 => '*',
        26 => '*',
        27 => '*',
        28 => '*',
        29 => 'X',
        30 => 'X',
        31 => '*',
        32 => '*',
        33 => 'H',
        34 => '*',
        35 => 'H',
        36 => 'H',
        37 => 'X',
        38 => '*',
        39 => 'H',
        40 => '*',
        41 => 'H',
        42 => 'H',
        43 => '*',
        44 => '*',
        45 => '*',
        46 => '*',
        47 => '*',
        48 => 'Y',
        49 => 'Y',
        50 => 'Y',
        51 => 'W',
        52 => 'W',
        53 => 'W',
        54 => '*',
        55 => '*',
        56 => '*',
        57 => '*',
        58 => '*',
        59 => '*',
        60 => '*',
        61 => '*',
        62 => '*',
        63 => 'X',
        64 => '*',
        65 => '*',
        66 => '*',
        67 => '*',
        68 => '*',
        69 => '*',
        70 => '*',
        71 => '*',
        72 => '*',
        73 => '*',
        74 => '*',
        75 => 'X',
        76 => '*',
        77 => '*',
        78 => 'L',
        79 => 'M',
        80 => 'N',
        _ => '*',
    }
}

pub fn flags_at(id: usize) -> (r: u16)
    requires
        id < CATALOG_SIZE,
    ensures
        r == flags_of(id),
{
    match id {
        0 => 0x8000,
        1 => 0xc100,
        2 => 0xc100,
        3 => 0xc100,
        4 => 0xc100,
        5 => 0x00a4,
        6 => 0x00a4,
        7 => 0x00a4,
        8 => 0x00a4,
        9 => 0x00a4,
        10 => 0x00a4,
        11 => 0x0084,
        12 => 0x0084,
        13 => 0x00a4,
        14 => 0x00a4,
        15 => 0x0084,
        16 => 0x0084,
        17 => 0x0084,
        18 => 0x0084,
        19 => 0x0084,
        20 => 0x0084,
        21 => 0x0084,
        22 => 0x0044,
        23 => 0x1044,
        24 => 0x1044,
        25 => 0x1044,
        26 => 0x1044,
        27 => 0x084c,
        28 => 0x0c4c,
        29 => 0x084c,
        30 => 0x0448,
        31 => 0x404c,
        32 => 0x2440,
        33 => 0x2040,
        34 => 0x2040,
        35 => 0x2440,
        36 => 0x0040,
        37 => 0x0040,
        38 => 0x2444,
        39 => 0x2044,
        40 => 0x2044,
        41 => 0x2444,
        42 => 0x2048,
        43 => 0x2040,
        44 => 0x004c,
        45 => 0x2044,
        46 => 0x0000,
        47 => 0x0000,
        48 => 0x00b4,
        49 => 0x00b4,
        50 => 0x00b4,
        51 => 0x0094,
        52 => 0x0094,
        53 => 0x0094,
        54 => 0x004e,
        55 => 0x004e,
        56 => 0x004e,
        57 => 0x044e,
        58 => 0x044e,
        59 => 0x044e,
        60 => 0x004e,
        61 => 0x004e,
        62 => 0x004e,
        63 => 0x004e,
        64 => 0x004e,
        65 => 0x004e,
        66 => 0x004b,
        67 => 0x004b,
        68 => 0x004b,
        69 => 0x044b,
        70 => 0x044b,
        71 => 0x044b,
        72 => 0x004b,
        73 => 0x004b,
        74 => 0x004b,
        75 => 0x004b,
        76 => 0x004b,
        77 => 0x004b,
        78 => 0x0080,
        79 => 0x00c1,
        80 => 0x00c1,
        _ => 0,
    }
}

pub fn unstressed_length_at(id: usize) -> (r: u8)
    requires
        id < LENGTH_TABLE_SIZE,
    ensures
        r == unstressed_length(id),
{
    match id {
        0 => 0x00,
        1 => 0x12,
        2 => 0x12,
        3 => 0x12,
        4 => 0x08,
        5 => 0x08,
        6 => 0x08,
        7 => 0x08,
        8 => 0x08,
        9 => 0x0B,
        10 => 0x06,
        11 => 0x0C,
        12 => 0x0A,
        13 => 0x05,
        14 => 0x05,
        15 => 0x0B,
        16 => 0x0A,
        17 => 0x0A,
        18 => 0x0A,
        19 => 0x09,
        20 => 0x08,
        21 => 0x07,
        22 => 0x09,
        23 => 0x07,
        24 => 0x06,
        25 => 0x08,
        26 => 0x06,
        27 => 0x07,
        28 => 0x07,
        29 => 0x07,
        30 => 0x02,
        31 => 0x05,
        32 => 0x02,
        33 => 0x02,
        34 => 0x02,
        35 => 0x02,
        36 => 0x02,
        37 => 0x02,
        38 => 0x06,
        39 => 0x06,
        40 => 0x07,
        41 => 0x06,
        42 => 0x06,
        43 => 0x02,
        44 => 0x08,
        45 => 0x03,
        46 => 0x01,
        47 => 0x1E,
        48 => 0x0D,
        49 => 0x0C,
        50 => 0x0C,
        51 => 0x0C,
        52 => 0x0E,
        53 => 0x09,
        54 => 0x06,
        55 => 0x01,
        56 => 0x02,
        57 => 0x05,
        58 => 0x01,
        59 => 0x01,
        60 => 0x06,
        61 => 0x01,
        62 => 0x02,
        63 => 0x06,
        64 => 0x01,
        65 => 0x02,
        66 => 0x08,
        67 => 0x02,
        68 => 0x02,
        69 => 0x04,
        70 => 0x02,
        71 => 0x02,
        72 => 0x06,
        73 => 0x01,
        74 => 0x04,
        75 => 0x06,
        76 => 0x01,
        77 => 0x04,
        78 => 0xC7,
        79 => 0xFF,
        _ => 0,
    }
}

pub fn stressed_length_at(id: usize) -> (r: u8)
    requires
        id < LENGTH_TABLE_SIZE,
    ensures
        r == stressed_length(id),
{
    match id {
        0 => 0x00,
        1 => 0x12,
        2 => 0x12,
        3 => 0x12,
        4 => 0x08,
        5 => 0x0B,
        6 => 0x09,
        7 => 0x0B,
        8 => 0x0E,
        9 => 0x0F,
        10 => 0x0B,
        11 => 0x10,
        12 => 0x0C,
        13 => 0x06,
        14 => 0x06,
        15 => 0x0E,
        16 => 0x0C,
        17 => 0x0E,
        18 => 0x0C,
        19 => 0x0B,
        20 => 0x08,
        21 => 0x08,
        22 => 0x0B,
        23 => 0x0A,
        24 => 0x09,
        25 => 0x08,
        26 => 0x08,
        27 => 0x08,
        28 => 0x08,
        29 => 0x08,
        30 => 0x03,
        31 => 0x05,
        32 => 0x02,
        33 => 0x02,
        34 => 0x02,
        35 => 0x02,
        36 => 0x02,
        37 => 0x02,
        38 => 0x06,
        39 => 0x06,
        40 => 0x08,
        41 => 0x06,
        42 => 0x06,
        43 => 0x02,
        44 => 0x09,
        45 => 0x04,
        46 => 0x02,
        47 => 0x01,
        48 => 0x0E,
        49 => 0x0F,
        50 => 0x0F,
        51 => 0x0F,
        52 => 0x0E,
        53 => 0x0E,
        54 => 0x08,
        55 => 0x02,
        56 => 0x02,
        57 => 0x07,
        58 => 0x02,
        59 => 0x01,
        60 => 0x07,
        61 => 0x02,
        62 => 0x02,
        63 => 0x07,
        64 => 0x02,
        65 => 0x02,
        66 => 0x08,
        67 => 0x02,
        68 => 0x02,
        69 => 0x06,
        70 => 0x02,
        71 => 0x02,
        72 => 0x07,
        73 => 0x02,
        74 => 0x04,
        75 => 0x07,
        76 => 0x01,
        77 => 0x04,
        78 => 0x05,
        79 => 0x05,
        _ => 0,
    }
}

/// Whether catalog entry `id` carries the fricative flag.
pub open spec fn is_fricative(id: usize) -> bool {
    match id {
        32 | 33 | 34 | 35 | 38 | 39 | 40 | 41 | 42 | 43 | 45 => true,
        _ => false,
    }
}

pub fn is_fricative_at(id: usize) -> (r: bool)
    ensures
        r == is_fricative(id),
{
    match id {
        32 | 33 | 34 | 35 | 38 | 39 | 40 | 41 | 42 | 43 | 45 => true,
        _ => false,
    }
}

/// Whether catalog entry `id` carries the liquid flag.
pub open spec fn is_liquid(id: usize) -> bool {
    match id {
        23 | 24 | 25 | 26 => true,
        _ => false,
    }
}

pub fn is_liquid_at(id: usize) -> (r: bool)
    ensures
        r == is_liquid(id),
{
    match id {
        23 | 24 | 25 | 26 => true,
        _ => false,
    }
}

/// Whether catalog entry `id` carries the nasal flag.
pub open spec fn is_nasal(id: usize) -> bool {
    match id {
        27 | 28 | 29 => true,
        _ => false,
    }
}

pub fn is_nasal_at(id: usize) -> (r: bool)
    ensures
        r == is_nasal(id),
{
    match id {
        27 | 28 | 29 => true,
        _ => false,
    }
}

/// Whether catalog entry `id` carries the alveolar flag.
pub open spec fn is_alveolar(id: usize) -> bool {
    match id {
        28 | 30 | 32 | 35 | 38 | 41 | 57 | 58 | 59 | 69 | 70 | 71 => true,
        _ => false,
    }
}

pub fn is_alveolar_at(id: usize) -> (r: bool)
    ensures
        r == is_alveolar(id),
{
    match id {
        28 | 30 | 32 | 35 | 38 | 41 | 57 | 58 | 59 | 69 | 70 | 71 => true,
        _ => false,
    }
}

/// Whether catalog entry `id` carries the punctuation flag.
pub open spec fn is_punctuation(id: usize) -> bool {
    match id {
        1 | 2 | 3 | 4 => true,
        _ => false,
    }
}

pub fn is_punctuation_at(id: usize) -> (r: bool)
    ensures
        r == is_punctuation(id),
{
    match id {
        1 | 2 | 3 | 4 => true,
        _ => false,
    }
}

/// Whether catalog entry `id` carries the vowel flag.
pub open spec fn is_vowel(id: usize) -> bool {
    match id {
        5 | 6 | 7 | 8 | 9 | 10 | 11 | 12 | 13 | 14 | 15 | 16 | 17 | 18 | 19 | 20 | 21 | 48 | 49 | 50 | 51 | 52 | 53 | 78 | 79 | 80 => true,
        _ => false,
    }
}

pub fn is_vowel_at(id: usize) -> (r: bool)
    ensures
        r == is_vowel(id),
{
    match id {
        5 | 6 | 7 | 8 | 9 | 10 | 11 | 12 | 13 | 14 | 15 | 16 | 17 | 18 | 19 | 20 | 21 | 48 | 49 | 50 | 51 | 52 | 53 | 78 | 79 | 80 => true,
        _ => false,
    }
}

/// Whether catalog entry `id` carries the consonant flag.
pub open spec fn is_consonant(id: usize) -> bool {
    match id {
        22 | 23 | 24 | 25 | 26 | 27 | 28 | 29 | 30 | 31 | 32 | 33 | 34 | 35 | 36 | 37 | 38 | 39 | 40 | 41 | 42 | 43 | 44 | 45 | 54 | 55 | 56 | 57 | 58 | 59 | 60 | 61 | 62 | 63 | 64 | 65 | 66 | 67 | 68 | 69 | 70 | 71 | 72 | 73 | 74 | 75 | 76 | 77 | 79 | 80 => true,
        _ => false,
    }
}

pub fn is_consonant_at(id: usize) -> (r: bool)
    ensures
        r == is_consonant(id),
{
    match id {
        22 | 23 | 24 | 25 | 26 | 27 | 28 | 29 | 30 | 31 | 32 | 33 | 34 | 35 | 36 | 37 | 38 | 39 | 40 | 41 | 42 | 43 | 44 | 45 | 54 | 55 | 56 | 57 | 58 | 59 | 60 | 61 | 62 | 63 | 64 | 65 | 66 | 67 | 68 | 69 | 70 | 71 | 72 | 73 | 74 | 75 | 76 | 77 | 79 | 80 => true,
        _ => false,
    }
}

/// Whether catalog entry `id` carries the diphthong ending in YX flag.
pub open spec fn is_diphthong_yx(id: usize) -> bool {
    match id {
        5 | 6 | 7 | 8 | 9 | 10 | 13 | 14 | 48 | 49 | 50 => true,
        _ => false,
    }
}

pub fn is_diphthong_yx_at(id: usize) -> (r: bool)
    ensures
        r == is_diphthong_yx(id),
{
    match id {
        5 | 6 | 7 | 8 | 9 | 10 | 13 | 14 | 48 | 49 | 50 => true,
        _ => false,
    }
}

/// Whether catalog entry `id` carries the diphthong flag.
pub open spec fn is_diphthong(id: usize) -> bool {
    match id {
        48 | 49 | 50 | 51 | 52 | 53 => true,
        _ => false,
    }
}

pub fn is_diphthong_at(id: usize) -> (r: bool)
    ensures
        r == is_diphthong(id),
{
    match id {
        48 | 49 | 50 | 51 | 52 | 53 => true,
        _ => false,
    }
}

/// Whether catalog entry `id` carries the class-8 (stops, nasals and affricates) flag.
pub open spec fn is_stop_release(id: usize) -> bool {
    match id {
        27 | 28 | 29 | 30 | 31 | 42 | 44 | 54 | 55 | 56 | 57 | 58 | 59 | 60 | 61 | 62 | 63 | 64 | 65 | 66 | 67 | 68 | 69 | 70 | 71 | 72 | 73 | 74 | 75 | 76 | 77 => true,
        _ => false,
    }
}

pub fn is_stop_release_at(id: usize) -> (r: bool)
    ensures
        r == is_stop_release(id),
{
    match id {
        27 | 28 | 29 | 30 | 31 | 42 | 44 | 54 | 55 | 56 | 57 | 58 | 59 | 60 | 61 | 62 | 63 | 64 | 65 | 66 | 67 | 68 | 69 | 70 | 71 | 72 | 73 | 74 | 75 | 76 | 77 => true,
        _ => false,
    }
}

/// Whether catalog entry `id` carries the voiced flag.
pub open spec fn is_voiced(id: usize) -> bool {
    match id {
        5 | 6 | 7 | 8 | 9 | 10 | 11 | 12 | 13 | 14 | 15 | 16 | 17 | 18 | 19 | 20 | 21 | 22 | 23 | 24 | 25 | 26 | 27 | 28 | 29 | 31 | 38 | 39 | 40 | 41 | 44 | 45 | 48 | 49 | 50 | 51 | 52 | 53 | 54 | 55 | 56 | 57 | 58 | 59 | 60 | 61 | 62 | 63 | 64 | 65 => true,
        _ => false,
    }
}

pub fn is_voiced_at(id: usize) -> (r: bool)
    ensures
        r == is_voiced(id),
{
    match id {
        5 | 6 | 7 | 8 | 9 | 10 | 11 | 12 | 13 | 14 | 15 | 16 | 17 | 18 | 19 | 20 | 21 | 22 | 23 | 24 | 25 | 26 | 27 | 28 | 29 | 31 | 38 | 39 | 40 | 41 | 44 | 45 | 48 | 49 | 50 | 51 | 52 | 53 | 54 | 55 | 56 | 57 | 58 | 59 | 60 | 61 | 62 | 63 | 64 | 65 => true,
        _ => false,
    }
}

/// Whether catalog entry `id` carries the plosive flag.
pub open spec fn is_plosive(id: usize) -> bool {
    match id {
        54 | 55 | 56 | 57 | 58 | 59 | 60 | 61 | 62 | 63 | 64 | 65 | 66 | 67 | 68 | 69 | 70 | 71 | 72 | 73 | 74 | 75 | 76 | 77 => true,
        _ => false,
    }
}

pub fn is_plosive_at(id: usize) -> (r: bool)
    ensures
        r == is_plosive(id),
{
    match id {
        54 | 55 | 56 | 57 | 58 | 59 | 60 | 61 | 62 | 63 | 64 | 65 | 66 | 67 | 68 | 69 | 70 | 71 | 72 | 73 | 74 | 75 | 76 | 77 => true,
        _ => false,
    }
}

/// Whether catalog entry `id` carries the unvoiced plosive flag.
pub open spec fn is_unvoiced_plosive(id: usize) -> bool {
    match id {
        66 | 67 | 68 | 69 | 70 | 71 | 72 | 73 | 74 | 75 | 76 | 77 | 79 | 80 => true,
        _ => false,
    }
}

pub fn is_unvoiced_plosive_at(id: usize) -> (r: bool)
    ensures
        r == is_unvoiced_plosive(id),
{
    match id {
        66 | 67 | 68 | 69 | 70 | 71 | 72 | 73 | 74 | 75 | 76 | 77 | 79 | 80 => true,
        _ => false,
    }
}

} // verus!
