//! The formant synthesizer: phoneme events become frames of synthesis
//! parameters, the frames are blended at each phoneme boundary, and the
//! frames drive three oscillators and a sampled-noise player that write
//! 8-bit unsigned samples.

use vstd::prelude::*;
use crate::parser::{compiled_events, Phoneme};
use crate::catalog::{PHONEME_PERIOD, PHONEME_QUESTION_MARK};

verus! {

/// Number of phoneme ids that the synthesizer has data for.
pub const PHONEME_TABLE_SIZE: usize = 80;

/// Number of stress levels that have a pitch offset.
pub const STRESS_LEVELS: usize = 10;

/// Size of the sampled-consonant noise table.
pub const SAMPLE_TABLE_SIZE: usize = 1280;

/// Formant 1 frequency of each phoneme, before the mouth is applied.
pub open spec fn formant1_base(i: usize) -> u8 {
    match i {
        0 => 0x00,
        1 => 0x13,
        2 => 0x13,
        3 => 0x13,
        4 => 0x13,
        5 => 0x0A,
        6 => 0x0E,
        7 => 0x13,
        8 => 0x18,
        9 => 0x1B,
        10 => 0x17,
        11 => 0x15,
        12 => 0x10,
        13 => 0x14,
        14 => 0x0E,
        15 => 0x12,
        16 => 0x0E,
        17 => 0x12,
        18 => 0x12,
        19 => 0x10,
        20 => 0x0D,
        21 => 0x0F,
        22 => 0x0B,
        23 => 0x12,
        24 => 0x0E,
        25 => 0x0B,
        26 => 0x09,
        27 => 0x06,
        28 => 0x06,
        29 => 0x06,
        30 => 0x06,
        31 => 0x11,
        32 => 0x06,
        33 => 0x06,
        34 => 0x06,
        35 => 0x06,
        36 => 0x0E,
        37 => 0x10,
        38 => 0x09,
        39 => 0x0A,
        40 => 0x08,
        41 => 0x0A,
        42 => 0x06,
        43 => 0x06,
        44 => 0x06,
        45 => 0x05,
        46 => 0x06,
        47 => 0x00,
        48 => 0x13,
        49 => 0x1B,
        50 => 0x15,
        51 => 0x1B,
        52 => 0x12,
        53 => 0x0D,
        54 => 0x06,
        55 => 0x06,
        56 => 0x06,
        57 => 0x06,
        58 => 0x06,
        59 => 0x06,
        60 => 0x06,
        61 => 0x06,
        62 => 0x06,
        63 => 0x06,
        64 => 0x06,
        65 => 0x06,
        66 => 0x06,
        67 => 0x06,
        68 => 0x06,
        69 => 0x06,
        70 => 0x06,
        71 => 0x06,
        72 => 0x06,
        73 => 0x0A,
        74 => 0x0A,
        75 => 0x06,
        76 => 0x06,
        77 => 0x06,
        78 => 0x2C,
        79 => 0x13,
        _ => 0,
    }
}

fn formant1_base_at(i: usize) -> (r: u8)
    requires
        i < PHONEME_TABLE_SIZE,
    ensures
        r == formant1_base(i),
{
    match i {
        0 => 0x00,
        1 => 0x13,
        2 => 0x13,
        3 => 0x13,
        4 => 0x13,
        5 => 0x0A,
        6 => 0x0E,
        7 => 0x13,
        8 => 0x18,
        9 => 0x1B,
        10 => 0x17,
        11 => 0x15,
        12 => 0x10,
        13 => 0x14,
        14 => 0x0E,
        15 => 0x12,
        16 => 0x0E,
        17 => 0x12,
        18 => 0x12,
        19 => 0x10,
        20 => 0x0D,
        21 => 0x0F,
        22 => 0x0B,
        23 => 0x12,
        24 => 0x0E,
        25 => 0x0B,
        26 => 0x09,
        27 => 0x06,
        28 => 0x06,
        29 => 0x06,
        30 => 0x06,
        31 => 0x11,
        32 => 0x06,
        33 => 0x06,
        34 => 0x06,
        35 => 0x06,
        36 => 0x0E,
        37 => 0x10,
        38 => 0x09,
        39 => 0x0A,
        40 => 0x08,
        41 => 0x0A,
        42 => 0x06,
        43 => 0x06,
        44 => 0x06,
        45 => 0x05,
        46 => 0x06,
        47 => 0x00,
        48 => 0x13,
        49 => 0x1B,
        50 => 0x15,
        51 => 0x1B,
        52 => 0x12,
        53 => 0x0D,
        54 => 0x06,
        55 => 0x06,
        56 => 0x06,
        57 => 0x06,
        58 => 0x06,
        59 => 0x06,
        60 => 0x06,
        61 => 0x06,
        62 => 0x06,
        63 => 0x06,
        64 => 0x06,
        65 => 0x06,
        66 => 0x06,
        67 => 0x06,
        68 => 0x06,
        69 => 0x06,
        70 => 0x06,
        71 => 0x06,
        72 => 0x06,
        73 => 0x0A,
        74 => 0x0A,
        75 => 0x06,
        76 => 0x06,
        77 => 0x06,
        78 => 0x2C,
        79 => 0x13,
        _ => 0,
    }
}

/// Formant 2 frequency of each phoneme, before the throat is applied.
pub open spec fn formant2_base(i: usize) -> u8 {
    match i {
        0 => 0x00,
        1 => 0x43,
        2 => 0x43,
        3 => 0x43,
        4 => 0x43,
        5 => 0x54,
        6 => 0x49,
        7 => 0x43,
        8 => 0x3F,
        9 => 0x28,
        10 => 0x2C,
        11 => 0x1F,
        12 => 0x25,
        13 => 0x2D,
        14 => 0x49,
        15 => 0x31,
        16 => 0x24,
        17 => 0x1E,
        18 => 0x33,
        19 => 0x25,
        20 => 0x1D,
        21 => 0x45,
        22 => 0x18,
        23 => 0x32,
        24 => 0x1E,
        25 => 0x18,
        26 => 0x53,
        27 => 0x2E,
        28 => 0x36,
        29 => 0x56,
        30 => 0x36,
        31 => 0x43,
        32 => 0x49,
        33 => 0x4F,
        34 => 0x1A,
        35 => 0x42,
        36 => 0x49,
        37 => 0x25,
        38 => 0x33,
        39 => 0x42,
        40 => 0x28,
        41 => 0x2F,
        42 => 0x4F,
        43 => 0x4F,
        44 => 0x42,
        45 => 0x4F,
        46 => 0x6E,
        47 => 0x00,
        48 => 0x48,
        49 => 0x27,
        50 => 0x1F,
        51 => 0x2B,
        52 => 0x1E,
        53 => 0x22,
        54 => 0x1A,
        55 => 0x1A,
        56 => 0x1A,
        57 => 0x42,
        58 => 0x42,
        59 => 0x42,
        60 => 0x6E,
        61 => 0x6E,
        62 => 0x6E,
        63 => 0x54,
        64 => 0x54,
        65 => 0x54,
        66 => 0x1A,
        67 => 0x1A,
        68 => 0x1A,
        69 => 0x42,
        70 => 0x42,
        71 => 0x42,
        72 => 0x6D,
        73 => 0x56,
        74 => 0x6D,
        75 => 0x54,
        76 => 0x54,
        77 => 0x54,
        78 => 0x7F,
        79 => 0x7F,
        _ => 0,
    }
}

fn formant2_base_at(i: usize) -> (r: u8)
    requires
        i < PHONEME_TABLE_SIZE,
    ensures
        r == formant2_base(i),
{
    match i {
        0 => 0x00,
        1 => 0x43,
        2 => 0x43,
        3 => 0x43,
        4 => 0x43,
        5 => 0x54,
        6 => 0x49,
        7 => 0x43,
        8 => 0x3F,
        9 => 0x28,
        10 => 0x2C,
        11 => 0x1F,
        12 => 0x25,
        13 => 0x2D,
        14 => 0x49,
        15 => 0x31,
        16 => 0x24,
        17 => 0x1E,
        18 => 0x33,
        19 => 0x25,
        20 => 0x1D,
        21 => 0x45,
        22 => 0x18,
        23 => 0x32,
        24 => 0x1E,
        25 => 0x18,
        26 => 0x53,
        27 => 0x2E,
        28 => 0x36,
        29 => 0x56,
        30 => 0x36,
        31 => 0x43,
        32 => 0x49,
        33 => 0x4F,
        34 => 0x1A,
        35 => 0x42,
        36 => 0x49,
        37 => 0x25,
        38 => 0x33,
        39 => 0x42,
        40 => 0x28,
        41 => 0x2F,
        42 => 0x4F,
        43 => 0x4F,
        44 => 0x42,
        45 => 0x4F,
        46 => 0x6E,
        47 => 0x00,
        48 => 0x48,
        49 => 0x27,
        50 => 0x1F,
        51 => 0x2B,
        52 => 0x1E,
        53 => 0x22,
        54 => 0x1A,
        55 => 0x1A,
        56 => 0x1A,
        57 => 0x42,
        58 => 0x42,
        59 => 0x42,
        60 => 0x6E,
        61 => 0x6E,
        62 => 0x6E,
        63 => 0x54,
        64 => 0x54,
        65 => 0x54,
        66 => 0x1A,
        67 => 0x1A,
        68 => 0x1A,
        69 => 0x42,
        70 => 0x42,
        71 => 0x42,
        72 => 0x6D,
        73 => 0x56,
        74 => 0x6D,
        75 => 0x54,
        76 => 0x54,
        77 => 0x54,
        78 => 0x7F,
        79 => 0x7F,
        _ => 0,
    }
}

/// Formant 3 frequency of each phoneme.
pub open spec fn formant3_base(i: usize) -> u8 {
    match i {
        0 => 0x00,
        1 => 0x5B,
        2 => 0x5B,
        3 => 0x5B,
        4 => 0x5B,
        5 => 0x6E,
        6 => 0x5D,
        7 => 0x5B,
        8 => 0x58,
        9 => 0x59,
        10 => 0x57,
        11 => 0x58,
        12 => 0x52,
        13 => 0x59,
        14 => 0x5D,
        15 => 0x3E,
        16 => 0x52,
        17 => 0x58,
        18 => 0x3E,
        19 => 0x6E,
        20 => 0x50,
        21 => 0x5D,
        22 => 0x5A,
        23 => 0x3C,
        24 => 0x6E,
        25 => 0x5A,
        26 => 0x6E,
        27 => 0x51,
        28 => 0x79,
        29 => 0x65,
        30 => 0x79,
        31 => 0x5B,
        32 => 0x63,
        33 => 0x6A,
        34 => 0x51,
        35 => 0x79,
        36 => 0x5D,
        37 => 0x52,
        38 => 0x5D,
        39 => 0x67,
        40 => 0x4C,
        41 => 0x5D,
        42 => 0x65,
        43 => 0x65,
        44 => 0x79,
        45 => 0x65,
        46 => 0x79,
        47 => 0x00,
        48 => 0x5A,
        49 => 0x58,
        50 => 0x58,
        51 => 0x58,
        52 => 0x58,
        53 => 0x52,
        54 => 0x51,
        55 => 0x51,
        56 => 0x51,
        57 => 0x79,
        58 => 0x79,
        59 => 0x79,
        60 => 0x70,
        61 => 0x6E,
        62 => 0x6E,
        63 => 0x5E,
        64 => 0x5E,
        65 => 0x5E,
        66 => 0x51,
        67 => 0x51,
        68 => 0x51,
        69 => 0x79,
        70 => 0x79,
        71 => 0x79,
        72 => 0x65,
        73 => 0x65,
        74 => 0x70,
        75 => 0x5E,
        76 => 0x5E,
        77 => 0x5E,
        78 => 0x08,
        79 => 0x01,
        _ => 0,
    }
}

fn formant3_base_at(i: usize) -> (r: u8)
    requires
        i < PHONEME_TABLE_SIZE,
    ensures
        r == formant3_base(i),
{
    match i {
        0 => 0x00,
        1 => 0x5B,
        2 => 0x5B,
        3 => 0x5B,
        4 => 0x5B,
        5 => 0x6E,
        6 => 0x5D,
        7 => 0x5B,
        8 => 0x58,
        9 => 0x59,
        10 => 0x57,
        11 => 0x58,
        12 => 0x52,
        13 => 0x59,
        14 => 0x5D,
        15 => 0x3E,
        16 => 0x52,
        17 => 0x58,
        18 => 0x3E,
        19 => 0x6E,
        20 => 0x50,
        21 => 0x5D,
        22 => 0x5A,
        23 => 0x3C,
        24 => 0x6E,
        25 => 0x5A,
        26 => 0x6E,
        27 => 0x51,
        28 => 0x79,
        29 => 0x65,
        30 => 0x79,
        31 => 0x5B,
        32 => 0x63,
        33 => 0x6A,
        34 => 0x51,
        35 => 0x79,
        36 => 0x5D,
        37 => 0x52,
        38 => 0x5D,
        39 => 0x67,
        40 => 0x4C,
        41 => 0x5D,
        42 => 0x65,
        43 => 0x65,
        44 => 0x79,
        45 => 0x65,
        46 => 0x79,
        47 => 0x00,
        48 => 0x5A,
        49 => 0x58,
        50 => 0x58,
        51 => 0x58,
        52 => 0x58,
        53 => 0x52,
        54 => 0x51,
        55 => 0x51,
        56 => 0x51,
        57 => 0x79,
        58 => 0x79,
        59 => 0x79,
        60 => 0x70,
        61 => 0x6E,
        62 => 0x6E,
        63 => 0x5E,
        64 => 0x5E,
        65 => 0x5E,
        66 => 0x51,
        67 => 0x51,
        68 => 0x51,
        69 => 0x79,
        70 => 0x79,
        71 => 0x79,
        72 => 0x65,
        73 => 0x65,
        74 => 0x70,
        75 => 0x5E,
        76 => 0x5E,
        77 => 0x5E,
        78 => 0x08,
        79 => 0x01,
        _ => 0,
    }
}

/// Formant 1 amplitude of each phoneme.
pub open spec fn amplitude1(i: usize) -> u8 {
    match i {
        0 => 0x00,
        1 => 0x00,
        2 => 0x00,
        3 => 0x00,
        4 => 0x00,
        5 => 0x0D,
        6 => 0x0D,
        7 => 0x0E,
        8 => 0x0F,
        9 => 0x0F,
        10 => 0x0F,
        11 => 0x0F,
        12 => 0x0F,
        13 => 0x0C,
        14 => 0x0D,
        15 => 0x0C,
        16 => 0x0F,
        17 => 0x0F,
        18 => 0x0D,
        19 => 0x0D,
        20 => 0x0D,
        21 => 0x0E,
        22 => 0x0D,
        23 => 0x0C,
        24 => 0x0D,
        25 => 0x0D,
        26 => 0x0D,
        27 => 0x0C,
        28 => 0x09,
        29 => 0x09,
        30 => 0x00,
        31 => 0x00,
        32 => 0x00,
        33 => 0x00,
        34 => 0x00,
        35 => 0x00,
        36 => 0x00,
        37 => 0x00,
        38 => 0x0B,
        39 => 0x0B,
        40 => 0x0B,
        41 => 0x0B,
        42 => 0x00,
        43 => 0x00,
        44 => 0x01,
        45 => 0x0B,
        46 => 0x00,
        47 => 0x02,
        48 => 0x0E,
        49 => 0x0F,
        50 => 0x0F,
        51 => 0x0F,
        52 => 0x0F,
        53 => 0x0D,
        54 => 0x02,
        55 => 0x04,
        56 => 0x00,
        57 => 0x02,
        58 => 0x04,
        59 => 0x00,
        60 => 0x01,
        61 => 0x04,
        62 => 0x00,
        63 => 0x01,
        64 => 0x04,
        65 => 0x00,
        66 => 0x00,
        67 => 0x00,
        68 => 0x00,
        69 => 0x00,
        70 => 0x00,
        71 => 0x00,
        72 => 0x00,
        73 => 0x0C,
        74 => 0x00,
        75 => 0x00,
        76 => 0x00,
        77 => 0x00,
        78 => 0x0F,
        79 => 0x0F,
        _ => 0,
    }
}

fn amplitude1_at(i: usize) -> (r: u8)
    requires
        i < PHONEME_TABLE_SIZE,
    ensures
        r == amplitude1(i),
{
    match i {
        0 => 0x00,
        1 => 0x00,
        2 => 0x00,
        3 => 0x00,
        4 => 0x00,
        5 => 0x0D,
        6 => 0x0D,
        7 => 0x0E,
        8 => 0x0F,
        9 => 0x0F,
        10 => 0x0F,
        11 => 0x0F,
        12 => 0x0F,
        13 => 0x0C,
        14 => 0x0D,
        15 => 0x0C,
        16 => 0x0F,
        17 => 0x0F,
        18 => 0x0D,
        19 => 0x0D,
        20 => 0x0D,
        21 => 0x0E,
        22 => 0x0D,
        23 => 0x0C,
        24 => 0x0D,
        25 => 0x0D,
        26 => 0x0D,
        27 => 0x0C,
        28 => 0x09,
        29 => 0x09,
        30 => 0x00,
        31 => 0x00,
        32 => 0x00,
        33 => 0x00,
        34 => 0x00,
        35 => 0x00,
        36 => 0x00,
        37 => 0x00,
        38 => 0x0B,
        39 => 0x0B,
        40 => 0x0B,
        41 => 0x0B,
        42 => 0x00,
        43 => 0x00,
        44 => 0x01,
        45 => 0x0B,
        46 => 0x00,
        47 => 0x02,
        48 => 0x0E,
        49 => 0x0F,
        50 => 0x0F,
        51 => 0x0F,
        52 => 0x0F,
        53 => 0x0D,
        54 => 0x02,
        55 => 0x04,
        56 => 0x00,
        57 => 0x02,
        58 => 0x04,
        59 => 0x00,
        60 => 0x01,
        61 => 0x04,
        62 => 0x00,
        63 => 0x01,
        64 => 0x04,
        65 => 0x00,
        66 => 0x00,
        67 => 0x00,
        68 => 0x00,
        69 => 0x00,
        70 => 0x00,
        71 => 0x00,
        72 => 0x00,
        73 => 0x0C,
        74 => 0x00,
        75 => 0x00,
        76 => 0x00,
        77 => 0x00,
        78 => 0x0F,
        79 => 0x0F,
        _ => 0,
    }
}

/// Formant 2 amplitude of each phoneme.
pub open spec fn amplitude2(i: usize) -> u8 {
    match i {
        0 => 0x00,
        1 => 0x00,
        2 => 0x00,
        3 => 0x00,
        4 => 0x00,
        5 => 0x0A,
        6 => 0x0B,
        7 => 0x0D,
        8 => 0x0E,
        9 => 0x0D,
        10 => 0x0C,
        11 => 0x0C,
        12 => 0x0B,
        13 => 0x09,
        14 => 0x0B,
        15 => 0x0B,
        16 => 0x0C,
        17 => 0x0C,
        18 => 0x0C,
        19 => 0x08,
        20 => 0x08,
        21 => 0x0C,
        22 => 0x08,
        23 => 0x0A,
        24 => 0x08,
        25 => 0x08,
        26 => 0x0A,
        27 => 0x03,
        28 => 0x09,
        29 => 0x06,
        30 => 0x00,
        31 => 0x00,
        32 => 0x00,
        33 => 0x00,
        34 => 0x00,
        35 => 0x00,
        36 => 0x00,
        37 => 0x00,
        38 => 0x03,
        39 => 0x05,
        40 => 0x03,
        41 => 0x04,
        42 => 0x00,
        43 => 0x00,
        44 => 0x00,
        45 => 0x05,
        46 => 0x0A,
        47 => 0x02,
        48 => 0x0E,
        49 => 0x0D,
        50 => 0x0C,
        51 => 0x0D,
        52 => 0x0C,
        53 => 0x08,
        54 => 0x00,
        55 => 0x01,
        56 => 0x00,
        57 => 0x00,
        58 => 0x01,
        59 => 0x00,
        60 => 0x00,
        61 => 0x01,
        62 => 0x00,
        63 => 0x00,
        64 => 0x01,
        65 => 0x00,
        66 => 0x00,
        67 => 0x00,
        68 => 0x00,
        69 => 0x00,
        70 => 0x00,
        71 => 0x00,
        72 => 0x00,
        73 => 0x0A,
        74 => 0x00,
        75 => 0x00,
        76 => 0x0A,
        77 => 0x00,
        78 => 0x00,
        79 => 0x00,
        _ => 0,
    }
}

fn amplitude2_at(i: usize) -> (r: u8)
    requires
        i < PHONEME_TABLE_SIZE,
    ensures
        r == amplitude2(i),
{
    match i {
        0 => 0x00,
        1 => 0x00,
        2 => 0x00,
        3 => 0x00,
        4 => 0x00,
        5 => 0x0A,
        6 => 0x0B,
        7 => 0x0D,
        8 => 0x0E,
        9 => 0x0D,
        10 => 0x0C,
        11 => 0x0C,
        12 => 0x0B,
        13 => 0x09,
        14 => 0x0B,
        15 => 0x0B,
        16 => 0x0C,
        17 => 0x0C,
        18 => 0x0C,
        19 => 0x08,
        20 => 0x08,
        21 => 0x0C,
        22 => 0x08,
        23 => 0x0A,
        24 => 0x08,
        25 => 0x08,
        26 => 0x0A,
        27 => 0x03,
        28 => 0x09,
        29 => 0x06,
        30 => 0x00,
        31 => 0x00,
        32 => 0x00,
        33 => 0x00,
        34 => 0x00,
        35 => 0x00,
        36 => 0x00,
        37 => 0x00,
        38 => 0x03,
        39 => 0x05,
        40 => 0x03,
        41 => 0x04,
        42 => 0x00,
        43 => 0x00,
        44 => 0x00,
        45 => 0x05,
        46 => 0x0A,
        47 => 0x02,
        48 => 0x0E,
        49 => 0x0D,
        50 => 0x0C,
        51 => 0x0D,
        52 => 0x0C,
        53 => 0x08,
        54 => 0x00,
        55 => 0x01,
        56 => 0x00,
        57 => 0x00,
        58 => 0x01,
        59 => 0x00,
        60 => 0x00,
        61 => 0x01,
        62 => 0x00,
        63 => 0x00,
        64 => 0x01,
        65 => 0x00,
        66 => 0x00,
        67 => 0x00,
        68 => 0x00,
        69 => 0x00,
        70 => 0x00,
        71 => 0x00,
        72 => 0x00,
        73 => 0x0A,
        74 => 0x00,
        75 => 0x00,
        76 => 0x0A,
        77 => 0x00,
        78 => 0x00,
        79 => 0x00,
        _ => 0,
    }
}

/// Formant 3 amplitude of each phoneme.
pub open spec fn amplitude3(i: usize) -> u8 {
    match i {
        0 => 0x00,
        1 => 0x00,
        2 => 0x00,
        3 => 0x00,
        4 => 0x00,
        5 => 0x08,
        6 => 0x07,
        7 => 0x08,
        8 => 0x08,
        9 => 0x01,
        10 => 0x01,
        11 => 0x00,
        12 => 0x01,
        13 => 0x00,
        14 => 0x07,
        15 => 0x05,
        16 => 0x01,
        17 => 0x00,
        18 => 0x06,
        19 => 0x01,
        20 => 0x00,
        21 => 0x07,
        22 => 0x00,
        23 => 0x05,
        24 => 0x01,
        25 => 0x00,
        26 => 0x08,
        27 => 0x00,
        28 => 0x00,
        29 => 0x03,
        30 => 0x00,
        31 => 0x00,
        32 => 0x00,
        33 => 0x00,
        34 => 0x00,
        35 => 0x00,
        36 => 0x00,
        37 => 0x00,
        38 => 0x00,
        39 => 0x01,
        40 => 0x00,
        41 => 0x00,
        42 => 0x00,
        43 => 0x00,
        44 => 0x00,
        45 => 0x01,
        46 => 0x0E,
        47 => 0x01,
        48 => 0x09,
        49 => 0x01,
        50 => 0x00,
        51 => 0x01,
        52 => 0x00,
        53 => 0x00,
        54 => 0x00,
        55 => 0x00,
        56 => 0x00,
        57 => 0x00,
        58 => 0x00,
        59 => 0x00,
        60 => 0x00,
        61 => 0x00,
        62 => 0x00,
        63 => 0x00,
        64 => 0x00,
        65 => 0x00,
        66 => 0x00,
        67 => 0x00,
        68 => 0x00,
        69 => 0x00,
        70 => 0x00,
        71 => 0x00,
        72 => 0x00,
        73 => 0x07,
        74 => 0x00,
        75 => 0x00,
        76 => 0x05,
        77 => 0x00,
        78 => 0x13,
        79 => 0x10,
        _ => 0,
    }
}

fn amplitude3_at(i: usize) -> (r: u8)
    requires
        i < PHONEME_TABLE_SIZE,
    ensures
        r == amplitude3(i),
{
    match i {
        0 => 0x00,
        1 => 0x00,
        2 => 0x00,
        3 => 0x00,
        4 => 0x00,
        5 => 0x08,
        6 => 0x07,
        7 => 0x08,
        8 => 0x08,
        9 => 0x01,
        10 => 0x01,
        11 => 0x00,
        12 => 0x01,
        13 => 0x00,
        14 => 0x07,
        15 => 0x05,
        16 => 0x01,
        17 => 0x00,
        18 => 0x06,
        19 => 0x01,
        20 => 0x00,
        21 => 0x07,
        22 => 0x00,
        23 => 0x05,
        24 => 0x01,
        25 => 0x00,
        26 => 0x08,
        27 => 0x00,
        28 => 0x00,
        29 => 0x03,
        30 => 0x00,
        31 => 0x00,
        32 => 0x00,
        33 => 0x00,
        34 => 0x00,
        35 => 0x00,
        36 => 0x00,
        37 => 0x00,
        38 => 0x00,
        39 => 0x01,
        40 => 0x00,
        41 => 0x00,
        42 => 0x00,
        43 => 0x00,
        44 => 0x00,
        45 => 0x01,
        46 => 0x0E,
        47 => 0x01,
        48 => 0x09,
        49 => 0x01,
        50 => 0x00,
        51 => 0x01,
        52 => 0x00,
        53 => 0x00,
        54 => 0x00,
        55 => 0x00,
        56 => 0x00,
        57 => 0x00,
        58 => 0x00,
        59 => 0x00,
        60 => 0x00,
        61 => 0x00,
        62 => 0x00,
        63 => 0x00,
        64 => 0x00,
        65 => 0x00,
        66 => 0x00,
        67 => 0x00,
        68 => 0x00,
        69 => 0x00,
        70 => 0x00,
        71 => 0x00,
        72 => 0x00,
        73 => 0x07,
        74 => 0x00,
        75 => 0x00,
        76 => 0x05,
        77 => 0x00,
        78 => 0x13,
        79 => 0x10,
        _ => 0,
    }
}

/// Sampled-consonant flag of each phoneme: the low three bits pick the noise class, the high bits the offset.
pub open spec fn sampled_consonant_flag(i: usize) -> u8 {
    match i {
        0 => 0x00,
        1 => 0x00,
        2 => 0x00,
        3 => 0x00,
        4 => 0x00,
        5 => 0x00,
        6 => 0x00,
        7 => 0x00,
        8 => 0x00,
        9 => 0x00,
        10 => 0x00,
        11 => 0x00,
        12 => 0x00,
        13 => 0x00,
        14 => 0x00,
        15 => 0x00,
        16 => 0x00,
        17 => 0x00,
        18 => 0x00,
        19 => 0x00,
        20 => 0x00,
        21 => 0x00,
        22 => 0x00,
        23 => 0x00,
        24 => 0x00,
        25 => 0x00,
        26 => 0x00,
        27 => 0x00,
        28 => 0x00,
        29 => 0x00,
        30 => 0x00,
        31 => 0x00,
        32 => 0xF1,
        33 => 0xE2,
        34 => 0xD3,
        35 => 0xBB,
        36 => 0x7C,
        37 => 0x95,
        38 => 0x01,
        39 => 0x02,
        40 => 0x03,
        41 => 0x03,
        42 => 0x00,
        43 => 0x72,
        44 => 0x00,
        45 => 0x02,
        46 => 0x00,
        47 => 0x00,
        48 => 0x00,
        49 => 0x00,
        50 => 0x00,
        51 => 0x00,
        52 => 0x00,
        53 => 0x00,
        54 => 0x00,
        55 => 0x00,
        56 => 0x00,
        57 => 0x00,
        58 => 0x00,
        59 => 0x00,
        60 => 0x00,
        61 => 0x00,
        62 => 0x00,
        63 => 0x00,
        64 => 0x00,
        65 => 0x00,
        66 => 0x00,
        67 => 0x1B,
        68 => 0x00,
        69 => 0x00,
        70 => 0x19,
        71 => 0x00,
        72 => 0x00,
        73 => 0x00,
        74 => 0x00,
        75 => 0x00,
        76 => 0x00,
        77 => 0x00,
        78 => 0x00,
        79 => 0x00,
        _ => 0,
    }
}

fn sampled_consonant_flag_at(i: usize) -> (r: u8)
    requires
        i < PHONEME_TABLE_SIZE,
    ensures
        r == sampled_consonant_flag(i),
{
    match i {
        0 => 0x00,
        1 => 0x00,
        2 => 0x00,
        3 => 0x00,
        4 => 0x00,
        5 => 0x00,
        6 => 0x00,
        7 => 0x00,
        8 => 0x00,
        9 => 0x00,
        10 => 0x00,
        11 => 0x00,
        12 => 0x00,
        13 => 0x00,
        14 => 0x00,
        15 => 0x00,
        16 => 0x00,
        17 => 0x00,
        18 => 0x00,
        19 => 0x00,
        20 => 0x00,
        21 => 0x00,
        22 => 0x00,
        23 => 0x00,
        24 => 0x00,
        25 => 0x00,
        26 => 0x00,
        27 => 0x00,
        28 => 0x00,
        29 => 0x00,
        30 => 0x00,
        31 => 0x00,
        32 => 0xF1,
        33 => 0xE2,
        34 => 0xD3,
        35 => 0xBB,
        36 => 0x7C,
        37 => 0x95,
        38 => 0x01,
        39 => 0x02,
        40 => 0x03,
        41 => 0x03,
        42 => 0x00,
        43 => 0x72,
        44 => 0x00,
        45 => 0x02,
        46 => 0x00,
        47 => 0x00,
        48 => 0x00,
        49 => 0x00,
        50 => 0x00,
        51 => 0x00,
        52 => 0x00,
        53 => 0x00,
        54 => 0x00,
        55 => 0x00,
        56 => 0x00,
        57 => 0x00,
        58 => 0x00,
        59 => 0x00,
        60 => 0x00,
        61 => 0x00,
        62 => 0x00,
        63 => 0x00,
        64 => 0x00,
        65 => 0x00,
        66 => 0x00,
        67 => 0x1B,
        68 => 0x00,
        69 => 0x00,
        70 => 0x19,
        71 => 0x00,
        72 => 0x00,
        73 => 0x00,
        74 => 0x00,
        75 => 0x00,
        76 => 0x00,
        77 => 0x00,
        78 => 0x00,
        79 => 0x00,
        _ => 0,
    }
}

/// Pitch offset of each stress level.
pub open spec fn stress_pitch(i: usize) -> u8 {
    match i {
        0 => 0x00,
        1 => 0xE0,
        2 => 0xE6,
        3 => 0xEC,
        4 => 0xF3,
        5 => 0xF9,
        6 => 0x00,
        7 => 0x06,
        8 => 0x0C,
        9 => 0x06,
        _ => 0,
    }
}

fn stress_pitch_at(i: usize) -> (r: u8)
    requires
        i < STRESS_LEVELS,
    ensures
        r == stress_pitch(i),
{
    match i {
        0 => 0x00,
        1 => 0xE0,
        2 => 0xE6,
        3 => 0xEC,
        4 => 0xF3,
        5 => 0xF9,
        6 => 0x00,
        7 => 0x06,
        8 => 0x0C,
        9 => 0x06,
        _ => 0,
    }
}

/// Blend rank of each phoneme: the lower, the stronger at a transition.
pub open spec fn blend_rank(i: usize) -> u8 {
    match i {
        0 => 0x00,
        1 => 0x1F,
        2 => 0x1F,
        3 => 0x1F,
        4 => 0x1F,
        5 => 0x02,
        6 => 0x02,
        7 => 0x02,
        8 => 0x02,
        9 => 0x02,
        10 => 0x02,
        11 => 0x02,
        12 => 0x02,
        13 => 0x02,
        14 => 0x05,
        15 => 0x05,
        16 => 0x02,
        17 => 0x0A,
        18 => 0x02,
        19 => 0x08,
        20 => 0x05,
        21 => 0x05,
        22 => 0x0B,
        23 => 0x0A,
        24 => 0x09,
        25 => 0x08,
        26 => 0x08,
        27 => 0xA0,
        28 => 0x08,
        29 => 0x08,
        30 => 0x17,
        31 => 0x1F,
        32 => 0x12,
        33 => 0x12,
        34 => 0x12,
        35 => 0x12,
        36 => 0x1E,
        37 => 0x1E,
        38 => 0x14,
        39 => 0x14,
        40 => 0x14,
        41 => 0x14,
        42 => 0x17,
        43 => 0x17,
        44 => 0x1A,
        45 => 0x1A,
        46 => 0x1D,
        47 => 0x1D,
        48 => 0x02,
        49 => 0x02,
        50 => 0x02,
        51 => 0x02,
        52 => 0x02,
        53 => 0x02,
        54 => 0x1A,
        55 => 0x1D,
        56 => 0x1B,
        57 => 0x1A,
        58 => 0x1D,
        59 => 0x1B,
        60 => 0x1A,
        61 => 0x1D,
        62 => 0x1B,
        63 => 0x1A,
        64 => 0x1D,
        65 => 0x1B,
        66 => 0x17,
        67 => 0x1D,
        68 => 0x17,
        69 => 0x17,
        70 => 0x1D,
        71 => 0x17,
        72 => 0x17,
        73 => 0x1D,
        74 => 0x17,
        75 => 0x17,
        76 => 0x1D,
        77 => 0x17,
        78 => 0x17,
        79 => 0x17,
        _ => 0,
    }
}

fn blend_rank_at(i: usize) -> (r: u8)
    requires
        i < PHONEME_TABLE_SIZE,
    ensures
        r == blend_rank(i),
{
    match i {
        0 => 0x00,
        1 => 0x1F,
        2 => 0x1F,
        3 => 0x1F,
        4 => 0x1F,
        5 => 0x02,
        6 => 0x02,
        7 => 0x02,
        8 => 0x02,
        9 => 0x02,
        10 => 0x02,
        11 => 0x02,
        12 => 0x02,
        13 => 0x02,
        14 => 0x05,
        15 => 0x05,
        16 => 0x02,
        17 => 0x0A,
        18 => 0x02,
        19 => 0x08,
        20 => 0x05,
        21 => 0x05,
        22 => 0x0B,
        23 => 0x0A,
        24 => 0x09,
        25 => 0x08,
        26 => 0x08,
        27 => 0xA0,
        28 => 0x08,
        29 => 0x08,
        30 => 0x17,
        31 => 0x1F,
        32 => 0x12,
        33 => 0x12,
        34 => 0x12,
        35 => 0x12,
        36 => 0x1E,
        37 => 0x1E,
        38 => 0x14,
        39 => 0x14,
        40 => 0x14,
        41 => 0x14,
        42 => 0x17,
        43 => 0x17,
        44 => 0x1A,
        45 => 0x1A,
        46 => 0x1D,
        47 => 0x1D,
        48 => 0x02,
        49 => 0x02,
        50 => 0x02,
        51 => 0x02,
        52 => 0x02,
        53 => 0x02,
        54 => 0x1A,
        55 => 0x1D,
        56 => 0x1B,
        57 => 0x1A,
        58 => 0x1D,
        59 => 0x1B,
        60 => 0x1A,
        61 => 0x1D,
        62 => 0x1B,
        63 => 0x1A,
        64 => 0x1D,
        65 => 0x1B,
        66 => 0x17,
        67 => 0x1D,
        68 => 0x17,
        69 => 0x17,
        70 => 0x1D,
        71 => 0x17,
        72 => 0x17,
        73 => 0x1D,
        74 => 0x17,
        75 => 0x17,
        76 => 0x1D,
        77 => 0x17,
        78 => 0x17,
        79 => 0x17,
        _ => 0,
    }
}

/// Frames a phoneme blends out over.
pub open spec fn out_blend_length(i: usize) -> u8 {
    match i {
        0 => 0x00,
        1 => 0x02,
        2 => 0x02,
        3 => 0x02,
        4 => 0x02,
        5 => 0x04,
        6 => 0x04,
        7 => 0x04,
        8 => 0x04,
        9 => 0x04,
        10 => 0x04,
        11 => 0x04,
        12 => 0x04,
        13 => 0x04,
        14 => 0x04,
        15 => 0x04,
        16 => 0x04,
        17 => 0x04,
        18 => 0x03,
        19 => 0x02,
        20 => 0x04,
        21 => 0x04,
        22 => 0x02,
        23 => 0x02,
        24 => 0x02,
        25 => 0x02,
        26 => 0x02,
        27 => 0x01,
        28 => 0x01,
        29 => 0x01,
        30 => 0x01,
        31 => 0x01,
        32 => 0x01,
        33 => 0x01,
        34 => 0x01,
        35 => 0x01,
        36 => 0x01,
        37 => 0x01,
        38 => 0x02,
        39 => 0x02,
        40 => 0x02,
        41 => 0x01,
        42 => 0x00,
        43 => 0x01,
        44 => 0x00,
        45 => 0x01,
        46 => 0x00,
        47 => 0x05,
        48 => 0x05,
        49 => 0x05,
        50 => 0x05,
        51 => 0x05,
        52 => 0x04,
        53 => 0x04,
        54 => 0x02,
        55 => 0x00,
        56 => 0x01,
        57 => 0x02,
        58 => 0x00,
        59 => 0x01,
        60 => 0x02,
        61 => 0x00,
        62 => 0x01,
        63 => 0x02,
        64 => 0x00,
        65 => 0x01,
        66 => 0x02,
        67 => 0x00,
        68 => 0x02,
        69 => 0x02,
        70 => 0x00,
        71 => 0x01,
        72 => 0x03,
        73 => 0x00,
        74 => 0x02,
        75 => 0x03,
        76 => 0x00,
        77 => 0x02,
        78 => 0xA0,
        79 => 0xA0,
        _ => 0,
    }
}

fn out_blend_length_at(i: usize) -> (r: u8)
    requires
        i < PHONEME_TABLE_SIZE,
    ensures
        r == out_blend_length(i),
{
    match i {
        0 => 0x00,
        1 => 0x02,
        2 => 0x02,
        3 => 0x02,
        4 => 0x02,
        5 => 0x04,
        6 => 0x04,
        7 => 0x04,
        8 => 0x04,
        9 => 0x04,
        10 => 0x04,
        11 => 0x04,
        12 => 0x04,
        13 => 0x04,
        14 => 0x04,
        15 => 0x04,
        16 => 0x04,
        17 => 0x04,
        18 => 0x03,
        19 => 0x02,
        20 => 0x04,
        21 => 0x04,
        22 => 0x02,
        23 => 0x02,
        24 => 0x02,
        25 => 0x02,
        26 => 0x02,
        27 => 0x01,
        28 => 0x01,
        29 => 0x01,
        30 => 0x01,
        31 => 0x01,
        32 => 0x01,
        33 => 0x01,
        34 => 0x01,
        35 => 0x01,
        36 => 0x01,
        37 => 0x01,
        38 => 0x02,
        39 => 0x02,
        40 => 0x02,
        41 => 0x01,
        42 => 0x00,
        43 => 0x01,
        44 => 0x00,
        45 => 0x01,
        46 => 0x00,
        47 => 0x05,
        48 => 0x05,
        49 => 0x05,
        50 => 0x05,
        51 => 0x05,
        52 => 0x04,
        53 => 0x04,
        54 => 0x02,
        55 => 0x00,
        56 => 0x01,
        57 => 0x02,
        58 => 0x00,
        59 => 0x01,
        60 => 0x02,
        61 => 0x00,
        62 => 0x01,
        63 => 0x02,
        64 => 0x00,
        65 => 0x01,
        66 => 0x02,
        67 => 0x00,
        68 => 0x02,
        69 => 0x02,
        70 => 0x00,
        71 => 0x01,
        72 => 0x03,
        73 => 0x00,
        74 => 0x02,
        75 => 0x03,
        76 => 0x00,
        77 => 0x02,
        78 => 0xA0,
        79 => 0xA0,
        _ => 0,
    }
}

/// Frames a phoneme blends in over.
pub open spec fn in_blend_length(i: usize) -> u8 {
    match i {
        0 => 0x00,
        1 => 0x02,
        2 => 0x02,
        3 => 0x02,
        4 => 0x02,
        5 => 0x04,
        6 => 0x04,
        7 => 0x04,
        8 => 0x04,
        9 => 0x04,
        10 => 0x04,
        11 => 0x04,
        12 => 0x04,
        13 => 0x04,
        14 => 0x04,
        15 => 0x04,
        16 => 0x04,
        17 => 0x04,
        18 => 0x03,
        19 => 0x03,
        20 => 0x04,
        21 => 0x04,
        22 => 0x03,
        23 => 0x03,
        24 => 0x03,
        25 => 0x03,
        26 => 0x03,
        27 => 0x01,
        28 => 0x02,
        29 => 0x03,
        30 => 0x02,
        31 => 0x01,
        32 => 0x03,
        33 => 0x03,
        34 => 0x03,
        35 => 0x03,
        36 => 0x01,
        37 => 0x01,
        38 => 0x03,
        39 => 0x03,
        40 => 0x03,
        41 => 0x02,
        42 => 0x02,
        43 => 0x03,
        44 => 0x02,
        45 => 0x03,
        46 => 0x00,
        47 => 0x00,
        48 => 0x05,
        49 => 0x05,
        50 => 0x05,
        51 => 0x05,
        52 => 0x04,
        53 => 0x04,
        54 => 0x02,
        55 => 0x00,
        56 => 0x02,
        57 => 0x02,
        58 => 0x00,
        59 => 0x03,
        60 => 0x02,
        61 => 0x00,
        62 => 0x04,
        63 => 0x02,
        64 => 0x00,
        65 => 0x03,
        66 => 0x02,
        67 => 0x00,
        68 => 0x02,
        69 => 0x02,
        70 => 0x00,
        71 => 0x02,
        72 => 0x03,
        73 => 0x00,
        74 => 0x03,
        75 => 0x03,
        76 => 0x00,
        77 => 0x03,
        78 => 0xB0,
        79 => 0xA0,
        _ => 0,
    }
}

fn in_blend_length_at(i: usize) -> (r: u8)
    requires
        i < PHONEME_TABLE_SIZE,
    ensures
        r == in_blend_length(i),
{
    match i {
        0 => 0x00,
        1 => 0x02,
        2 => 0x02,
        3 => 0x02,
        4 => 0x02,
        5 => 0x04,
        6 => 0x04,
        7 => 0x04,
        8 => 0x04,
        9 => 0x04,
        10 => 0x04,
        11 => 0x04,
        12 => 0x04,
        13 => 0x04,
        14 => 0x04,
        15 => 0x04,
        16 => 0x04,
        17 => 0x04,
        18 => 0x03,
        19 => 0x03,
        20 => 0x04,
        21 => 0x04,
        22 => 0x03,
        23 => 0x03,
        24 => 0x03,
        25 => 0x03,
        26 => 0x03,
        27 => 0x01,
        28 => 0x02,
        29 => 0x03,
        30 => 0x02,
        31 => 0x01,
        32 => 0x03,
        33 => 0x03,
        34 => 0x03,
        35 => 0x03,
        36 => 0x01,
        37 => 0x01,
        38 => 0x03,
        39 => 0x03,
        40 => 0x03,
        41 => 0x02,
        42 => 0x02,
        43 => 0x03,
        44 => 0x02,
        45 => 0x03,
        46 => 0x00,
        47 => 0x00,
        48 => 0x05,
        49 => 0x05,
        50 => 0x05,
        51 => 0x05,
        52 => 0x04,
        53 => 0x04,
        54 => 0x02,
        55 => 0x00,
        56 => 0x02,
        57 => 0x02,
        58 => 0x00,
        59 => 0x03,
        60 => 0x02,
        61 => 0x00,
        62 => 0x04,
        63 => 0x02,
        64 => 0x00,
        65 => 0x03,
        66 => 0x02,
        67 => 0x00,
        68 => 0x02,
        69 => 0x02,
        70 => 0x00,
        71 => 0x02,
        72 => 0x03,
        73 => 0x00,
        74 => 0x03,
        75 => 0x03,
        76 => 0x00,
        77 => 0x03,
        78 => 0xB0,
        79 => 0xA0,
        _ => 0,
    }
}

/// Amplitude levels mapped from the perceptual to the linear scale.
pub open spec fn amplitude_rescale(i: usize) -> u8 {
    match i {
        0 => 0x00,
        1 => 0x01,
        2 => 0x02,
        3 => 0x02,
        4 => 0x02,
        5 => 0x03,
        6 => 0x03,
        7 => 0x04,
        8 => 0x04,
        9 => 0x05,
        10 => 0x06,
        11 => 0x08,
        12 => 0x09,
        13 => 0x0B,
        14 => 0x0D,
        15 => 0x0F,
        _ => 0,
    }
}

fn amplitude_rescale_at(i: usize) -> (r: u8)
    requires
        i < 16,
    ensures
        r == amplitude_rescale(i),
{
    match i {
        0 => 0x00,
        1 => 0x01,
        2 => 0x02,
        3 => 0x02,
        4 => 0x02,
        5 => 0x03,
        6 => 0x03,
        7 => 0x04,
        8 => 0x04,
        9 => 0x05,
        10 => 0x06,
        11 => 0x08,
        12 => 0x09,
        13 => 0x0B,
        14 => 0x0D,
        15 => 0x0F,
        _ => 0,
    }
}

/// Sample value written for a zero bit of an unvoiced burst, per noise class.
pub open spec fn sampled_consonant_low_value(i: usize) -> u8 {
    match i {
        0 => 0x18,
        1 => 0x1A,
        2 => 0x17,
        3 => 0x17,
        4 => 0x17,
        _ => 0,
    }
}

fn sampled_consonant_low_value_at(i: usize) -> (r: u8)
    requires
        i < 5,
    ensures
        r == sampled_consonant_low_value(i),
{
    match i {
        0 => 0x18,
        1 => 0x1A,
        2 => 0x17,
        3 => 0x17,
        4 => 0x17,
        _ => 0,
    }
}

/// One period of a sine wave over 256 phase steps, scaled to 127.
pub open spec fn sine(i: usize) -> i8 {
    match i {
        0 => 0i8,
        1 => 3i8,
        2 => 6i8,
        3 => 9i8,
        4 => 12i8,
        5 => 15i8,
        6 => 18i8,
        7 => 21i8,
        8 => 24i8,
        9 => 27i8,
        10 => 30i8,
        11 => 33i8,
        12 => 36i8,
        13 => 39i8,
        14 => 42i8,
        15 => 45i8,
        16 => 48i8,
        17 => 51i8,
        18 => 54i8,
        19 => 57i8,
        20 => 59i8,
        21 => 62i8,
        22 => 65i8,
        23 => 67i8,
        24 => 70i8,
        25 => 73i8,
        26 => 75i8,
        27 => 78i8,
        28 => 80i8,
        29 => 82i8,
        30 => 85i8,
        31 => 87i8,
        32 => 89i8,
        33 => 91i8,
        34 => 94i8,
        35 => 96i8,
        36 => 98i8,
        37 => 100i8,
        38 => 102i8,
        39 => 103i8,
        40 => 105i8,
        41 => 107i8,
        42 => 108i8,
        43 => 110i8,
        44 => 112i8,
        45 => 113i8,
        46 => 114i8,
        47 => 116i8,
        48 => 117i8,
        49 => 118i8,
        50 => 119i8,
        51 => 120i8,
        52 => 121i8,
        53 => 122i8,
        54 => 123i8,
        55 => 123i8,
        56 => 124i8,
        57 => 125i8,
        58 => 125i8,
        59 => 126i8,
        60 => 126i8,
        61 => 126i8,
        62 => 126i8,
        63 => 126i8,
        64 => 127i8,
        65 => 126i8,
        66 => 126i8,
        67 => 126i8,
        68 => 126i8,
        69 => 126i8,
        70 => 125i8,
        71 => 125i8,
        72 => 124i8,
        73 => 123i8,
        74 => 123i8,
        75 => 122i8,
        76 => 121i8,
        77 => 120i8,
        78 => 119i8,
        79 => 118i8,
        80 => 117i8,
        81 => 116i8,
        82 => 114i8,
        83 => 113i8,
        84 => 112i8,
        85 => 110i8,
        86 => 108i8,
        87 => 107i8,
        88 => 105i8,
        89 => 103i8,
        90 => 102i8,
        91 => 100i8,
        92 => 98i8,
        93 => 96i8,
        94 => 94i8,
        95 => 91i8,
        96 => 89i8,
        97 => 87i8,
        98 => 85i8,
        99 => 82i8,
        100 => 80i8,
        101 => 78i8,
        102 => 75i8,
        103 => 73i8,
        104 => 70i8,
        105 => 67i8,
        106 => 65i8,
        107 => 62i8,
        108 => 59i8,
        109 => 57i8,
        110 => 54i8,
        111 => 51i8,
        112 => 48i8,
        113 => 45i8,
        114 => 42i8,
        115 => 39i8,
        116 => 36i8,
        117 => 33i8,
        118 => 30i8,
        119 => 27i8,
        120 => 24i8,
        121 => 21i8,
        122 => 18i8,
        123 => 15i8,
        124 => 12i8,
        125 => 9i8,
        126 => 6i8,
        127 => 3i8,
        128 => 0i8,
        129 => -3i8,
        130 => -6i8,
        131 => -9i8,
        132 => -12i8,
        133 => -15i8,
        134 => -18i8,
        135 => -21i8,
        136 => -24i8,
        137 => -27i8,
        138 => -30i8,
        139 => -33i8,
        140 => -36i8,
        141 => -39i8,
        142 => -42i8,
        143 => -45i8,
        144 => -48i8,
        145 => -51i8,
        146 => -54i8,
        147 => -57i8,
        148 => -59i8,
        149 => -62i8,
        150 => -65i8,
        151 => -67i8,
        152 => -70i8,
        153 => -73i8,
        154 => -75i8,
        155 => -78i8,
        156 => -80i8,
        157 => -82i8,
        158 => -85i8,
        159 => -87i8,
        160 => -89i8,
        161 => -91i8,
        162 => -94i8,
        163 => -96i8,
        164 => -98i8,
        165 => -100i8,
        166 => -102i8,
        167 => -103i8,
        168 => -105i8,
        169 => -107i8,
        170 => -108i8,
        171 => -110i8,
        172 => -112i8,
        173 => -113i8,
        174 => -114i8,
        175 => -116i8,
        176 => -117i8,
        177 => -118i8,
        178 => -119i8,
        179 => -120i8,
        180 => -121i8,
        181 => -122i8,
        182 => -123i8,
        183 => -123i8,
        184 => -124i8,
        185 => -125i8,
        186 => -125i8,
        187 => -126i8,
        188 => -126i8,
        189 => -126i8,
        190 => -126i8,
        191 => -126i8,
        192 => -127i8,
        193 => -126i8,
        194 => -126i8,
        195 => -126i8,
        196 => -126i8,
        197 => -126i8,
        198 => -125i8,
        199 => -125i8,
        200 => -124i8,
        201 => -123i8,
        202 => -123i8,
        203 => -122i8,
        204 => -121i8,
        205 => -120i8,
        206 => -119i8,
        207 => -118i8,
        208 => -117i8,
        209 => -116i8,
        210 => -114i8,
        211 => -113i8,
        212 => -112i8,
        213 => -110i8,
        214 => -108i8,
        215 => -107i8,
        216 => -105i8,
        217 => -103i8,
        218 => -102i8,
        219 => -100i8,
        220 => -98i8,
        221 => -96i8,
        222 => -94i8,
        223 => -91i8,
        224 => -89i8,
        225 => -87i8,
        226 => -85i8,
        227 => -82i8,
        228 => -80i8,
        229 => -78i8,
        230 => -75i8,
        231 => -73i8,
        232 => -70i8,
        233 => -67i8,
        234 => -65i8,
        235 => -62i8,
        236 => -59i8,
        237 => -57i8,
        238 => -54i8,
        239 => -51i8,
        240 => -48i8,
        241 => -45i8,
        242 => -42i8,
        243 => -39i8,
        244 => -36i8,
        245 => -33i8,
        246 => -30i8,
        247 => -27i8,
        248 => -24i8,
        249 => -21i8,
        250 => -18i8,
        251 => -15i8,
        252 => -12i8,
        253 => -9i8,
        254 => -6i8,
        255 => -3i8,
        _ => 0,
    }
}

fn sine_at(i: usize) -> (r: i8)
    requires
        i < 256,
    ensures
        r == sine(i),
{
    match i {
        0 => 0i8,
        1 => 3i8,
        2 => 6i8,
        3 => 9i8,
        4 => 12i8,
        5 => 15i8,
        6 => 18i8,
        7 => 21i8,
        8 => 24i8,
        9 => 27i8,
        10 => 30i8,
        11 => 33i8,
        12 => 36i8,
        13 => 39i8,
        14 => 42i8,
        15 => 45i8,
        16 => 48i8,
        17 => 51i8,
        18 => 54i8,
        19 => 57i8,
        20 => 59i8,
        21 => 62i8,
        22 => 65i8,
        23 => 67i8,
        24 => 70i8,
        25 => 73i8,
        26 => 75i8,
        27 => 78i8,
        28 => 80i8,
        29 => 82i8,
        30 => 85i8,
        31 => 87i8,
        32 => 89i8,
        33 => 91i8,
        34 => 94i8,
        35 => 96i8,
        36 => 98i8,
        37 => 100i8,
        38 => 102i8,
        39 => 103i8,
        40 => 105i8,
        41 => 107i8,
        42 => 108i8,
        43 => 110i8,
        44 => 112i8,
        45 => 113i8,
        46 => 114i8,
        47 => 116i8,
        48 => 117i8,
        49 => 118i8,
        50 => 119i8,
        51 => 120i8,
        52 => 121i8,
        53 => 122i8,
        54 => 123i8,
        55 => 123i8,
        56 => 124i8,
        57 => 125i8,
        58 => 125i8,
        59 => 126i8,
        60 => 126i8,
        61 => 126i8,
        62 => 126i8,
        63 => 126i8,
        64 => 127i8,
        65 => 126i8,
        66 => 126i8,
        67 => 126i8,
        68 => 126i8,
        69 => 126i8,
        70 => 125i8,
        71 => 125i8,
        72 => 124i8,
        73 => 123i8,
        74 => 123i8,
        75 => 122i8,
        76 => 121i8,
        77 => 120i8,
        78 => 119i8,
        79 => 118i8,
        80 => 117i8,
        81 => 116i8,
        82 => 114i8,
        83 => 113i8,
        84 => 112i8,
        85 => 110i8,
        86 => 108i8,
        87 => 107i8,
        88 => 105i8,
        89 => 103i8,
        90 => 102i8,
        91 => 100i8,
        92 => 98i8,
        93 => 96i8,
        94 => 94i8,
        95 => 91i8,
        96 => 89i8,
        97 => 87i8,
        98 => 85i8,
        99 => 82i8,
        100 => 80i8,
        101 => 78i8,
        102 => 75i8,
        103 => 73i8,
        104 => 70i8,
        105 => 67i8,
        106 => 65i8,
        107 => 62i8,
        108 => 59i8,
        109 => 57i8,
        110 => 54i8,
        111 => 51i8,
        112 => 48i8,
        113 => 45i8,
        114 => 42i8,
        115 => 39i8,
        116 => 36i8,
        117 => 33i8,
        118 => 30i8,
        119 => 27i8,
        120 => 24i8,
        121 => 21i8,
        122 => 18i8,
        123 => 15i8,
        124 => 12i8,
        125 => 9i8,
        126 => 6i8,
        127 => 3i8,
        128 => 0i8,
        129 => -3i8,
        130 => -6i8,
        131 => -9i8,
        132 => -12i8,
        133 => -15i8,
        134 => -18i8,
        135 => -21i8,
        136 => -24i8,
        137 => -27i8,
        138 => -30i8,
        139 => -33i8,
        140 => -36i8,
        141 => -39i8,
        142 => -42i8,
        143 => -45i8,
        144 => -48i8,
        145 => -51i8,
        146 => -54i8,
        147 => -57i8,
        148 => -59i8,
        149 => -62i8,
        150 => -65i8,
        151 => -67i8,
        152 => -70i8,
        153 => -73i8,
        154 => -75i8,
        155 => -78i8,
        156 => -80i8,
        157 => -82i8,
        158 => -85i8,
        159 => -87i8,
        160 => -89i8,
        161 => -91i8,
        162 => -94i8,
        163 => -96i8,
        164 => -98i8,
        165 => -100i8,
        166 => -102i8,
        167 => -103i8,
        168 => -105i8,
        169 => -107i8,
        170 => -108i8,
        171 => -110i8,
        172 => -112i8,
        173 => -113i8,
        174 => -114i8,
        175 => -116i8,
        176 => -117i8,
        177 => -118i8,
        178 => -119i8,
        179 => -120i8,
        180 => -121i8,
        181 => -122i8,
        182 => -123i8,
        183 => -123i8,
        184 => -124i8,
        185 => -125i8,
        186 => -125i8,
        187 => -126i8,
        188 => -126i8,
        189 => -126i8,
        190 => -126i8,
        191 => -126i8,
        192 => -127i8,
        193 => -126i8,
        194 => -126i8,
        195 => -126i8,
        196 => -126i8,
        197 => -126i8,
        198 => -125i8,
        199 => -125i8,
        200 => -124i8,
        201 => -123i8,
        202 => -123i8,
        203 => -122i8,
        204 => -121i8,
        205 => -120i8,
        206 => -119i8,
        207 => -118i8,
        208 => -117i8,
        209 => -116i8,
        210 => -114i8,
        211 => -113i8,
        212 => -112i8,
        213 => -110i8,
        214 => -108i8,
        215 => -107i8,
        216 => -105i8,
        217 => -103i8,
        218 => -102i8,
        219 => -100i8,
        220 => -98i8,
        221 => -96i8,
        222 => -94i8,
        223 => -91i8,
        224 => -89i8,
        225 => -87i8,
        226 => -85i8,
        227 => -82i8,
        228 => -80i8,
        229 => -78i8,
        230 => -75i8,
        231 => -73i8,
        232 => -70i8,
        233 => -67i8,
        234 => -65i8,
        235 => -62i8,
        236 => -59i8,
        237 => -57i8,
        238 => -54i8,
        239 => -51i8,
        240 => -48i8,
        241 => -45i8,
        242 => -42i8,
        243 => -39i8,
        244 => -36i8,
        245 => -33i8,
        246 => -30i8,
        247 => -27i8,
        248 => -24i8,
        249 => -21i8,
        250 => -18i8,
        251 => -15i8,
        252 => -12i8,
        253 => -9i8,
        254 => -6i8,
        255 => -3i8,
        _ => 0,
    }
}

/// Noise bits 0 to 127.
pub open spec fn noise_part0(i: usize) -> u8 {
    match i {
        0 => 0x38,
        1 => 0x84,
        2 => 0x6B,
        3 => 0x19,
        4 => 0xC6,
        5 => 0x63,
        6 => 0x18,
        7 => 0x86,
        8 => 0x73,
        9 => 0x98,
        10 => 0xC6,
        11 => 0xB1,
        12 => 0x1C,
        13 => 0xCA,
        14 => 0x31,
        15 => 0x8C,
        16 => 0xC7,
        17 => 0x31,
        18 => 0x88,
        19 => 0xC2,
        20 => 0x30,
        21 => 0x98,
        22 => 0x46,
        23 => 0x31,
        24 => 0x18,
        25 => 0xC6,
        26 => 0x35,
        27 => 0x0C,
        28 => 0xCA,
        29 => 0x31,
        30 => 0x0C,
        31 => 0xC6,
        32 => 0x21,
        33 => 0x10,
        34 => 0x24,
        35 => 0x69,
        36 => 0x12,
        37 => 0xC2,
        38 => 0x31,
        39 => 0x14,
        40 => 0xC4,
        41 => 0x71,
        42 => 0x08,
        43 => 0x4A,
        44 => 0x22,
        45 => 0x49,
        46 => 0xAB,
        47 => 0x6A,
        48 => 0xA8,
        49 => 0xAC,
        50 => 0x49,
        51 => 0x51,
        52 => 0x32,
        53 => 0xD5,
        54 => 0x52,
        55 => 0x88,
        56 => 0x93,
        57 => 0x6C,
        58 => 0x94,
        59 => 0x22,
        60 => 0x15,
        61 => 0x54,
        62 => 0xD2,
        63 => 0x25,
        64 => 0x96,
        65 => 0xD4,
        66 => 0x50,
        67 => 0xA5,
        68 => 0x46,
        69 => 0x21,
        70 => 0x08,
        71 => 0x85,
        72 => 0x6B,
        73 => 0x18,
        74 => 0xC4,
        75 => 0x63,
        76 => 0x10,
        77 => 0xCE,
        78 => 0x6B,
        79 => 0x18,
        80 => 0x8C,
        81 => 0x71,
        82 => 0x19,
        83 => 0x8C,
        84 => 0x63,
        85 => 0x35,
        86 => 0x0C,
        87 => 0xC6,
        88 => 0x33,
        89 => 0x99,
        90 => 0xCC,
        91 => 0x6C,
        92 => 0xB5,
        93 => 0x4E,
        94 => 0xA2,
        95 => 0x99,
        96 => 0x46,
        97 => 0x21,
        98 => 0x28,
        99 => 0x82,
        100 => 0x95,
        101 => 0x2E,
        102 => 0xE3,
        103 => 0x30,
        104 => 0x9C,
        105 => 0xC5,
        106 => 0x30,
        107 => 0x9C,
        108 => 0xA2,
        109 => 0xB1,
        110 => 0x9C,
        111 => 0x67,
        112 => 0x31,
        113 => 0x88,
        114 => 0x66,
        115 => 0x59,
        116 => 0x2C,
        117 => 0x53,
        118 => 0x18,
        119 => 0x84,
        120 => 0x67,
        121 => 0x50,
        122 => 0xCA,
        123 => 0xE3,
        124 => 0x0A,
        125 => 0xAC,
        126 => 0xAB,
        127 => 0x30,
        _ => 0,
    }
}

fn noise_part0_at(i: usize) -> (r: u8)
    requires
        i < 128,
    ensures
        r == noise_part0(i),
{
    match i {
        0 => 0x38,
        1 => 0x84,
        2 => 0x6B,
        3 => 0x19,
        4 => 0xC6,
        5 => 0x63,
        6 => 0x18,
        7 => 0x86,
        8 => 0x73,
        9 => 0x98,
        10 => 0xC6,
        11 => 0xB1,
        12 => 0x1C,
        13 => 0xCA,
        14 => 0x31,
        15 => 0x8C,
        16 => 0xC7,
        17 => 0x31,
        18 => 0x88,
        19 => 0xC2,
        20 => 0x30,
        21 => 0x98,
        22 => 0x46,
        23 => 0x31,
        24 => 0x18,
        25 => 0xC6,
        26 => 0x35,
        27 => 0x0C,
        28 => 0xCA,
        29 => 0x31,
        30 => 0x0C,
        31 => 0xC6,
        32 => 0x21,
        33 => 0x10,
        34 => 0x24,
        35 => 0x69,
        36 => 0x12,
        37 => 0xC2,
        38 => 0x31,
        39 => 0x14,
        40 => 0xC4,
        41 => 0x71,
        42 => 0x08,
        43 => 0x4A,
        44 => 0x22,
        45 => 0x49,
        46 => 0xAB,
        47 => 0x6A,
        48 => 0xA8,
        49 => 0xAC,
        50 => 0x49,
        51 => 0x51,
        52 => 0x32,
        53 => 0xD5,
        54 => 0x52,
        55 => 0x88,
        56 => 0x93,
        57 => 0x6C,
        58 => 0x94,
        59 => 0x22,
        60 => 0x15,
        61 => 0x54,
        62 => 0xD2,
        63 => 0x25,
        64 => 0x96,
        65 => 0xD4,
        66 => 0x50,
        67 => 0xA5,
        68 => 0x46,
        69 => 0x21,
        70 => 0x08,
        71 => 0x85,
        72 => 0x6B,
        73 => 0x18,
        74 => 0xC4,
        75 => 0x63,
        76 => 0x10,
        77 => 0xCE,
        78 => 0x6B,
        79 => 0x18,
        80 => 0x8C,
        81 => 0x71,
        82 => 0x19,
        83 => 0x8C,
        84 => 0x63,
        85 => 0x35,
        86 => 0x0C,
        87 => 0xC6,
        88 => 0x33,
        89 => 0x99,
        90 => 0xCC,
        91 => 0x6C,
        92 => 0xB5,
        93 => 0x4E,
        94 => 0xA2,
        95 => 0x99,
        96 => 0x46,
        97 => 0x21,
        98 => 0x28,
        99 => 0x82,
        100 => 0x95,
        101 => 0x2E,
        102 => 0xE3,
        103 => 0x30,
        104 => 0x9C,
        105 => 0xC5,
        106 => 0x30,
        107 => 0x9C,
        108 => 0xA2,
        109 => 0xB1,
        110 => 0x9C,
        111 => 0x67,
        112 => 0x31,
        113 => 0x88,
        114 => 0x66,
        115 => 0x59,
        116 => 0x2C,
        117 => 0x53,
        118 => 0x18,
        119 => 0x84,
        120 => 0x67,
        121 => 0x50,
        122 => 0xCA,
        123 => 0xE3,
        124 => 0x0A,
        125 => 0xAC,
        126 => 0xAB,
        127 => 0x30,
        _ => 0,
    }
}

/// Noise bits 128 to 255.
pub open spec fn noise_part1(i: usize) -> u8 {
    match i {
        0 => 0xAC,
        1 => 0x62,
        2 => 0x30,
        3 => 0x8C,
        4 => 0x63,
        5 => 0x10,
        6 => 0x94,
        7 => 0x62,
        8 => 0xB1,
        9 => 0x8C,
        10 => 0x82,
        11 => 0x28,
        12 => 0x96,
        13 => 0x33,
        14 => 0x98,
        15 => 0xD6,
        16 => 0xB5,
        17 => 0x4C,
        18 => 0x62,
        19 => 0x29,
        20 => 0xA5,
        21 => 0x4A,
        22 => 0xB5,
        23 => 0x9C,
        24 => 0xC6,
        25 => 0x31,
        26 => 0x14,
        27 => 0xD6,
        28 => 0x38,
        29 => 0x9C,
        30 => 0x4B,
        31 => 0xB4,
        32 => 0x86,
        33 => 0x65,
        34 => 0x18,
        35 => 0xAE,
        36 => 0x67,
        37 => 0x1C,
        38 => 0xA6,
        39 => 0x63,
        40 => 0x19,
        41 => 0x96,
        42 => 0x23,
        43 => 0x19,
        44 => 0x84,
        45 => 0x13,
        46 => 0x08,
        47 => 0xA6,
        48 => 0x52,
        49 => 0xAC,
        50 => 0xCA,
        51 => 0x22,
        52 => 0x89,
        53 => 0x6E,
        54 => 0xAB,
        55 => 0x19,
        56 => 0x8C,
        57 => 0x62,
        58 => 0x34,
        59 => 0xC4,
        60 => 0x62,
        61 => 0x19,
        62 => 0x86,
        63 => 0x63,
        64 => 0x18,
        65 => 0xC4,
        66 => 0x23,
        67 => 0x58,
        68 => 0xD6,
        69 => 0xA3,
        70 => 0x50,
        71 => 0x42,
        72 => 0x54,
        73 => 0x4A,
        74 => 0xAD,
        75 => 0x4A,
        76 => 0x25,
        77 => 0x11,
        78 => 0x6B,
        79 => 0x64,
        80 => 0x89,
        81 => 0x4A,
        82 => 0x63,
        83 => 0x39,
        84 => 0x8A,
        85 => 0x23,
        86 => 0x31,
        87 => 0x2A,
        88 => 0xEA,
        89 => 0xA2,
        90 => 0xA9,
        91 => 0x44,
        92 => 0xC5,
        93 => 0x12,
        94 => 0xCD,
        95 => 0x42,
        96 => 0x34,
        97 => 0x8C,
        98 => 0x62,
        99 => 0x18,
        100 => 0x8C,
        101 => 0x63,
        102 => 0x11,
        103 => 0x48,
        104 => 0x66,
        105 => 0x31,
        106 => 0x9D,
        107 => 0x44,
        108 => 0x33,
        109 => 0x1D,
        110 => 0x46,
        111 => 0x31,
        112 => 0x9C,
        113 => 0xC6,
        114 => 0xB1,
        115 => 0x0C,
        116 => 0xCD,
        117 => 0x32,
        118 => 0x88,
        119 => 0xC4,
        120 => 0x73,
        121 => 0x18,
        122 => 0x86,
        123 => 0x73,
        124 => 0x08,
        125 => 0xD6,
        126 => 0x63,
        127 => 0x58,
        _ => 0,
    }
}

fn noise_part1_at(i: usize) -> (r: u8)
    requires
        i < 128,
    ensures
        r == noise_part1(i),
{
    match i {
        0 => 0xAC,
        1 => 0x62,
        2 => 0x30,
        3 => 0x8C,
        4 => 0x63,
        5 => 0x10,
        6 => 0x94,
        7 => 0x62,
        8 => 0xB1,
        9 => 0x8C,
        10 => 0x82,
        11 => 0x28,
        12 => 0x96,
        13 => 0x33,
        14 => 0x98,
        15 => 0xD6,
        16 => 0xB5,
        17 => 0x4C,
        18 => 0x62,
        19 => 0x29,
        20 => 0xA5,
        21 => 0x4A,
        22 => 0xB5,
        23 => 0x9C,
        24 => 0xC6,
        25 => 0x31,
        26 => 0x14,
        27 => 0xD6,
        28 => 0x38,
        29 => 0x9C,
        30 => 0x4B,
        31 => 0xB4,
        32 => 0x86,
        33 => 0x65,
        34 => 0x18,
        35 => 0xAE,
        36 => 0x67,
        37 => 0x1C,
        38 => 0xA6,
        39 => 0x63,
        40 => 0x19,
        41 => 0x96,
        42 => 0x23,
        43 => 0x19,
        44 => 0x84,
        45 => 0x13,
        46 => 0x08,
        47 => 0xA6,
        48 => 0x52,
        49 => 0xAC,
        50 => 0xCA,
        51 => 0x22,
        52 => 0x89,
        53 => 0x6E,
        54 => 0xAB,
        55 => 0x19,
        56 => 0x8C,
        57 => 0x62,
        58 => 0x34,
        59 => 0xC4,
        60 => 0x62,
        61 => 0x19,
        62 => 0x86,
        63 => 0x63,
        64 => 0x18,
        65 => 0xC4,
        66 => 0x23,
        67 => 0x58,
        68 => 0xD6,
        69 => 0xA3,
        70 => 0x50,
        71 => 0x42,
        72 => 0x54,
        73 => 0x4A,
        74 => 0xAD,
        75 => 0x4A,
        76 => 0x25,
        77 => 0x11,
        78 => 0x6B,
        79 => 0x64,
        80 => 0x89,
        81 => 0x4A,
        82 => 0x63,
        83 => 0x39,
        84 => 0x8A,
        85 => 0x23,
        86 => 0x31,
        87 => 0x2A,
        88 => 0xEA,
        89 => 0xA2,
        90 => 0xA9,
        91 => 0x44,
        92 => 0xC5,
        93 => 0x12,
        94 => 0xCD,
        95 => 0x42,
        96 => 0x34,
        97 => 0x8C,
        98 => 0x62,
        99 => 0x18,
        100 => 0x8C,
        101 => 0x63,
        102 => 0x11,
        103 => 0x48,
        104 => 0x66,
        105 => 0x31,
        106 => 0x9D,
        107 => 0x44,
        108 => 0x33,
        109 => 0x1D,
        110 => 0x46,
        111 => 0x31,
        112 => 0x9C,
        113 => 0xC6,
        114 => 0xB1,
        115 => 0x0C,
        116 => 0xCD,
        117 => 0x32,
        118 => 0x88,
        119 => 0xC4,
        120 => 0x73,
        121 => 0x18,
        122 => 0x86,
        123 => 0x73,
        124 => 0x08,
        125 => 0xD6,
        126 => 0x63,
        127 => 0x58,
        _ => 0,
    }
}

/// Noise bits 256 to 383.
pub open spec fn noise_part2(i: usize) -> u8 {
    match i {
        0 => 0x07,
        1 => 0x81,
        2 => 0xE0,
        3 => 0xF0,
        4 => 0x3C,
        5 => 0x07,
        6 => 0x87,
        7 => 0x90,
        8 => 0x3C,
        9 => 0x7C,
        10 => 0x0F,
        11 => 0xC7,
        12 => 0xC0,
        13 => 0xC0,
        14 => 0xF0,
        15 => 0x7C,
        16 => 0x1E,
        17 => 0x07,
        18 => 0x80,
        19 => 0x80,
        20 => 0x00,
        21 => 0x1C,
        22 => 0x78,
        23 => 0x70,
        24 => 0xF1,
        25 => 0xC7,
        26 => 0x1F,
        27 => 0xC0,
        28 => 0x0C,
        29 => 0xFE,
        30 => 0x1C,
        31 => 0x1F,
        32 => 0x1F,
        33 => 0x0E,
        34 => 0x0A,
        35 => 0x7A,
        36 => 0xC0,
        37 => 0x71,
        38 => 0xF2,
        39 => 0x83,
        40 => 0x8F,
        41 => 0x03,
        42 => 0x0F,
        43 => 0x0F,
        44 => 0x0C,
        45 => 0x00,
        46 => 0x79,
        47 => 0xF8,
        48 => 0x61,
        49 => 0xE0,
        50 => 0x43,
        51 => 0x0F,
        52 => 0x83,
        53 => 0xE7,
        54 => 0x18,
        55 => 0xF9,
        56 => 0xC1,
        57 => 0x13,
        58 => 0xDA,
        59 => 0xE9,
        60 => 0x63,
        61 => 0x8F,
        62 => 0x0F,
        63 => 0x83,
        64 => 0x83,
        65 => 0x87,
        66 => 0xC3,
        67 => 0x1F,
        68 => 0x3C,
        69 => 0x70,
        70 => 0xF0,
        71 => 0xE1,
        72 => 0xE1,
        73 => 0xE3,
        74 => 0x87,
        75 => 0xB8,
        76 => 0x71,
        77 => 0x0E,
        78 => 0x20,
        79 => 0xE3,
        80 => 0x8D,
        81 => 0x48,
        82 => 0x78,
        83 => 0x1C,
        84 => 0x93,
        85 => 0x87,
        86 => 0x30,
        87 => 0xE1,
        88 => 0xC1,
        89 => 0xC1,
        90 => 0xE4,
        91 => 0x78,
        92 => 0x21,
        93 => 0x83,
        94 => 0x83,
        95 => 0xC3,
        96 => 0x87,
        97 => 0x06,
        98 => 0x39,
        99 => 0xE5,
        100 => 0xC3,
        101 => 0x87,
        102 => 0x07,
        103 => 0x0E,
        104 => 0x1C,
        105 => 0x1C,
        106 => 0x70,
        107 => 0xF4,
        108 => 0x71,
        109 => 0x9C,
        110 => 0x60,
        111 => 0x36,
        112 => 0x32,
        113 => 0xC3,
        114 => 0x1E,
        115 => 0x3C,
        116 => 0xF3,
        117 => 0x8F,
        118 => 0x0E,
        119 => 0x3C,
        120 => 0x70,
        121 => 0xE3,
        122 => 0xC7,
        123 => 0x8F,
        124 => 0x0F,
        125 => 0x0F,
        126 => 0x0E,
        127 => 0x3C,
        _ => 0,
    }
}

fn noise_part2_at(i: usize) -> (r: u8)
    requires
        i < 128,
    ensures
        r == noise_part2(i),
{
    match i {
        0 => 0x07,
        1 => 0x81,
        2 => 0xE0,
        3 => 0xF0,
        4 => 0x3C,
        5 => 0x07,
        6 => 0x87,
        7 => 0x90,
        8 => 0x3C,
        9 => 0x7C,
        10 => 0x0F,
        11 => 0xC7,
        12 => 0xC0,
        13 => 0xC0,
        14 => 0xF0,
        15 => 0x7C,
        16 => 0x1E,
        17 => 0x07,
        18 => 0x80,
        19 => 0x80,
        20 => 0x00,
        21 => 0x1C,
        22 => 0x78,
        23 => 0x70,
        24 => 0xF1,
        25 => 0xC7,
        26 => 0x1F,
        27 => 0xC0,
        28 => 0x0C,
        29 => 0xFE,
        30 => 0x1C,
        31 => 0x1F,
        32 => 0x1F,
        33 => 0x0E,
        34 => 0x0A,
        35 => 0x7A,
        36 => 0xC0,
        37 => 0x71,
        38 => 0xF2,
        39 => 0x83,
        40 => 0x8F,
        41 => 0x03,
        42 => 0x0F,
        43 => 0x0F,
        44 => 0x0C,
        45 => 0x00,
        46 => 0x79,
        47 => 0xF8,
        48 => 0x61,
        49 => 0xE0,
        50 => 0x43,
        51 => 0x0F,
        52 => 0x83,
        53 => 0xE7,
        54 => 0x18,
        55 => 0xF9,
        56 => 0xC1,
        57 => 0x13,
        58 => 0xDA,
        59 => 0xE9,
        60 => 0x63,
        61 => 0x8F,
        62 => 0x0F,
        63 => 0x83,
        64 => 0x83,
        65 => 0x87,
        66 => 0xC3,
        67 => 0x1F,
        68 => 0x3C,
        69 => 0x70,
        70 => 0xF0,
        71 => 0xE1,
        72 => 0xE1,
        73 => 0xE3,
        74 => 0x87,
        75 => 0xB8,
        76 => 0x71,
        77 => 0x0E,
        78 => 0x20,
        79 => 0xE3,
        80 => 0x8D,
        81 => 0x48,
        82 => 0x78,
        83 => 0x1C,
        84 => 0x93,
        85 => 0x87,
        86 => 0x30,
        87 => 0xE1,
        88 => 0xC1,
        89 => 0xC1,
        90 => 0xE4,
        91 => 0x78,
        92 => 0x21,
        93 => 0x83,
        94 => 0x83,
        95 => 0xC3,
        96 => 0x87,
        97 => 0x06,
        98 => 0x39,
        99 => 0xE5,
        100 => 0xC3,
        101 => 0x87,
        102 => 0x07,
        103 => 0x0E,
        104 => 0x1C,
        105 => 0x1C,
        106 => 0x70,
        107 => 0xF4,
        108 => 0x71,
        109 => 0x9C,
        110 => 0x60,
        111 => 0x36,
        112 => 0x32,
        113 => 0xC3,
        114 => 0x1E,
        115 => 0x3C,
        116 => 0xF3,
        117 => 0x8F,
        118 => 0x0E,
        119 => 0x3C,
        120 => 0x70,
        121 => 0xE3,
        122 => 0xC7,
        123 => 0x8F,
        124 => 0x0F,
        125 => 0x0F,
        126 => 0x0E,
        127 => 0x3C,
        _ => 0,
    }
}

/// Noise bits 384 to 511.
pub open spec fn noise_part3(i: usize) -> u8 {
    match i {
        0 => 0x78,
        1 => 0xF0,
        2 => 0xE3,
        3 => 0x87,
        4 => 0x06,
        5 => 0xF0,
        6 => 0xE3,
        7 => 0x07,
        8 => 0xC1,
        9 => 0x99,
        10 => 0x87,
        11 => 0x0F,
        12 => 0x18,
        13 => 0x78,
        14 => 0x70,
        15 => 0x70,
        16 => 0xFC,
        17 => 0xF3,
        18 => 0x10,
        19 => 0xB1,
        20 => 0x8C,
        21 => 0x8C,
        22 => 0x31,
        23 => 0x7C,
        24 => 0x70,
        25 => 0xE1,
        26 => 0x86,
        27 => 0x3C,
        28 => 0x64,
        29 => 0x6C,
        30 => 0xB0,
        31 => 0xE1,
        32 => 0xE3,
        33 => 0x0F,
        34 => 0x23,
        35 => 0x8F,
        36 => 0x0F,
        37 => 0x1E,
        38 => 0x3E,
        39 => 0x38,
        40 => 0x3C,
        41 => 0x38,
        42 => 0x7B,
        43 => 0x8F,
        44 => 0x07,
        45 => 0x0E,
        46 => 0x3C,
        47 => 0xF4,
        48 => 0x17,
        49 => 0x1E,
        50 => 0x3C,
        51 => 0x78,
        52 => 0xF2,
        53 => 0x9E,
        54 => 0x72,
        55 => 0x49,
        56 => 0xE3,
        57 => 0x25,
        58 => 0x36,
        59 => 0x38,
        60 => 0x58,
        61 => 0x39,
        62 => 0xE2,
        63 => 0xDE,
        64 => 0x3C,
        65 => 0x78,
        66 => 0x78,
        67 => 0xE1,
        68 => 0xC7,
        69 => 0x61,
        70 => 0xE1,
        71 => 0xE1,
        72 => 0xB0,
        73 => 0xF0,
        74 => 0xF0,
        75 => 0xC3,
        76 => 0xC7,
        77 => 0x0E,
        78 => 0x38,
        79 => 0xC0,
        80 => 0xF0,
        81 => 0xCE,
        82 => 0x73,
        83 => 0x73,
        84 => 0x18,
        85 => 0x34,
        86 => 0xB0,
        87 => 0xE1,
        88 => 0xC7,
        89 => 0x8E,
        90 => 0x1C,
        91 => 0x3C,
        92 => 0xF8,
        93 => 0x38,
        94 => 0xF0,
        95 => 0xE1,
        96 => 0xC1,
        97 => 0x8B,
        98 => 0x86,
        99 => 0x8F,
        100 => 0x1C,
        101 => 0x78,
        102 => 0x70,
        103 => 0xF0,
        104 => 0x78,
        105 => 0xAC,
        106 => 0xB1,
        107 => 0x8F,
        108 => 0x39,
        109 => 0x31,
        110 => 0xDB,
        111 => 0x38,
        112 => 0x61,
        113 => 0xC3,
        114 => 0x0E,
        115 => 0x0E,
        116 => 0x38,
        117 => 0x78,
        118 => 0x73,
        119 => 0x17,
        120 => 0x1E,
        121 => 0x39,
        122 => 0x1E,
        123 => 0x38,
        124 => 0x64,
        125 => 0xE1,
        126 => 0xF1,
        127 => 0xC1,
        _ => 0,
    }
}

fn noise_part3_at(i: usize) -> (r: u8)
    requires
        i < 128,
    ensures
        r == noise_part3(i),
{
    match i {
        0 => 0x78,
        1 => 0xF0,
        2 => 0xE3,
        3 => 0x87,
        4 => 0x06,
        5 => 0xF0,
        6 => 0xE3,
        7 => 0x07,
        8 => 0xC1,
        9 => 0x99,
        10 => 0x87,
        11 => 0x0F,
        12 => 0x18,
        13 => 0x78,
        14 => 0x70,
        15 => 0x70,
        16 => 0xFC,
        17 => 0xF3,
        18 => 0x10,
        19 => 0xB1,
        20 => 0x8C,
        21 => 0x8C,
        22 => 0x31,
        23 => 0x7C,
        24 => 0x70,
        25 => 0xE1,
        26 => 0x86,
        27 => 0x3C,
        28 => 0x64,
        29 => 0x6C,
        30 => 0xB0,
        31 => 0xE1,
        32 => 0xE3,
        33 => 0x0F,
        34 => 0x23,
        35 => 0x8F,
        36 => 0x0F,
        37 => 0x1E,
        38 => 0x3E,
        39 => 0x38,
        40 => 0x3C,
        41 => 0x38,
        42 => 0x7B,
        43 => 0x8F,
        44 => 0x07,
        45 => 0x0E,
        46 => 0x3C,
        47 => 0xF4,
        48 => 0x17,
        49 => 0x1E,
        50 => 0x3C,
        51 => 0x78,
        52 => 0xF2,
        53 => 0x9E,
        54 => 0x72,
        55 => 0x49,
        56 => 0xE3,
        57 => 0x25,
        58 => 0x36,
        59 => 0x38,
        60 => 0x58,
        61 => 0x39,
        62 => 0xE2,
        63 => 0xDE,
        64 => 0x3C,
        65 => 0x78,
        66 => 0x78,
        67 => 0xE1,
        68 => 0xC7,
        69 => 0x61,
        70 => 0xE1,
        71 => 0xE1,
        72 => 0xB0,
        73 => 0xF0,
        74 => 0xF0,
        75 => 0xC3,
        76 => 0xC7,
        77 => 0x0E,
        78 => 0x38,
        79 => 0xC0,
        80 => 0xF0,
        81 => 0xCE,
        82 => 0x73,
        83 => 0x73,
        84 => 0x18,
        85 => 0x34,
        86 => 0xB0,
        87 => 0xE1,
        88 => 0xC7,
        89 => 0x8E,
        90 => 0x1C,
        91 => 0x3C,
        92 => 0xF8,
        93 => 0x38,
        94 => 0xF0,
        95 => 0xE1,
        96 => 0xC1,
        97 => 0x8B,
        98 => 0x86,
        99 => 0x8F,
        100 => 0x1C,
        101 => 0x78,
        102 => 0x70,
        103 => 0xF0,
        104 => 0x78,
        105 => 0xAC,
        106 => 0xB1,
        107 => 0x8F,
        108 => 0x39,
        109 => 0x31,
        110 => 0xDB,
        111 => 0x38,
        112 => 0x61,
        113 => 0xC3,
        114 => 0x0E,
        115 => 0x0E,
        116 => 0x38,
        117 => 0x78,
        118 => 0x73,
        119 => 0x17,
        120 => 0x1E,
        121 => 0x39,
        122 => 0x1E,
        123 => 0x38,
        124 => 0x64,
        125 => 0xE1,
        126 => 0xF1,
        127 => 0xC1,
        _ => 0,
    }
}

/// Noise bits 512 to 639.
pub open spec fn noise_part4(i: usize) -> u8 {
    match i {
        0 => 0x4E,
        1 => 0x0F,
        2 => 0x40,
        3 => 0xA2,
        4 => 0x02,
        5 => 0xC5,
        6 => 0x8F,
        7 => 0x81,
        8 => 0xA1,
        9 => 0xFC,
        10 => 0x12,
        11 => 0x08,
        12 => 0x64,
        13 => 0xE0,
        14 => 0x3C,
        15 => 0x22,
        16 => 0xE0,
        17 => 0x45,
        18 => 0x07,
        19 => 0x8E,
        20 => 0x0C,
        21 => 0x32,
        22 => 0x90,
        23 => 0xF0,
        24 => 0x1F,
        25 => 0x20,
        26 => 0x49,
        27 => 0xE0,
        28 => 0xF8,
        29 => 0x0C,
        30 => 0x60,
        31 => 0xF0,
        32 => 0x17,
        33 => 0x1A,
        34 => 0x41,
        35 => 0xAA,
        36 => 0xA4,
        37 => 0xD0,
        38 => 0x8D,
        39 => 0x12,
        40 => 0x82,
        41 => 0x1E,
        42 => 0x1E,
        43 => 0x03,
        44 => 0xF8,
        45 => 0x3E,
        46 => 0x03,
        47 => 0x0C,
        48 => 0x73,
        49 => 0x80,
        50 => 0x70,
        51 => 0x44,
        52 => 0x26,
        53 => 0x03,
        54 => 0x24,
        55 => 0xE1,
        56 => 0x3E,
        57 => 0x04,
        58 => 0x4E,
        59 => 0x04,
        60 => 0x1C,
        61 => 0xC1,
        62 => 0x09,
        63 => 0xCC,
        64 => 0x9E,
        65 => 0x90,
        66 => 0x21,
        67 => 0x07,
        68 => 0x90,
        69 => 0x43,
        70 => 0x64,
        71 => 0xC0,
        72 => 0x0F,
        73 => 0xC6,
        74 => 0x90,
        75 => 0x9C,
        76 => 0xC1,
        77 => 0x5B,
        78 => 0x03,
        79 => 0xE2,
        80 => 0x1D,
        81 => 0x81,
        82 => 0xE0,
        83 => 0x5E,
        84 => 0x1D,
        85 => 0x03,
        86 => 0x84,
        87 => 0xB8,
        88 => 0x2C,
        89 => 0x0F,
        90 => 0x80,
        91 => 0xB1,
        92 => 0x83,
        93 => 0xE0,
        94 => 0x30,
        95 => 0x41,
        96 => 0x1E,
        97 => 0x43,
        98 => 0x89,
        99 => 0x83,
        100 => 0x50,
        101 => 0xFC,
        102 => 0x24,
        103 => 0x2E,
        104 => 0x13,
        105 => 0x83,
        106 => 0xF1,
        107 => 0x7C,
        108 => 0x4C,
        109 => 0x2C,
        110 => 0xC9,
        111 => 0x0D,
        112 => 0x83,
        113 => 0xB0,
        114 => 0xB5,
        115 => 0x82,
        116 => 0xE4,
        117 => 0xE8,
        118 => 0x06,
        119 => 0x9C,
        120 => 0x07,
        121 => 0xA0,
        122 => 0x99,
        123 => 0x1D,
        124 => 0x07,
        125 => 0x3E,
        126 => 0x82,
        127 => 0x8F,
        _ => 0,
    }
}

fn noise_part4_at(i: usize) -> (r: u8)
    requires
        i < 128,
    ensures
        r == noise_part4(i),
{
    match i {
        0 => 0x4E,
        1 => 0x0F,
        2 => 0x40,
        3 => 0xA2,
        4 => 0x02,
        5 => 0xC5,
        6 => 0x8F,
        7 => 0x81,
        8 => 0xA1,
        9 => 0xFC,
        10 => 0x12,
        11 => 0x08,
        12 => 0x64,
        13 => 0xE0,
        14 => 0x3C,
        15 => 0x22,
        16 => 0xE0,
        17 => 0x45,
        18 => 0x07,
        19 => 0x8E,
        20 => 0x0C,
        21 => 0x32,
        22 => 0x90,
        23 => 0xF0,
        24 => 0x1F,
        25 => 0x20,
        26 => 0x49,
        27 => 0xE0,
        28 => 0xF8,
        29 => 0x0C,
        30 => 0x60,
        31 => 0xF0,
        32 => 0x17,
        33 => 0x1A,
        34 => 0x41,
        35 => 0xAA,
        36 => 0xA4,
        37 => 0xD0,
        38 => 0x8D,
        39 => 0x12,
        40 => 0x82,
        41 => 0x1E,
        42 => 0x1E,
        43 => 0x03,
        44 => 0xF8,
        45 => 0x3E,
        46 => 0x03,
        47 => 0x0C,
        48 => 0x73,
        49 => 0x80,
        50 => 0x70,
        51 => 0x44,
        52 => 0x26,
        53 => 0x03,
        54 => 0x24,
        55 => 0xE1,
        56 => 0x3E,
        57 => 0x04,
        58 => 0x4E,
        59 => 0x04,
        60 => 0x1C,
        61 => 0xC1,
        62 => 0x09,
        63 => 0xCC,
        64 => 0x9E,
        65 => 0x90,
        66 => 0x21,
        67 => 0x07,
        68 => 0x90,
        69 => 0x43,
        70 => 0x64,
        71 => 0xC0,
        72 => 0x0F,
        73 => 0xC6,
        74 => 0x90,
        75 => 0x9C,
        76 => 0xC1,
        77 => 0x5B,
        78 => 0x03,
        79 => 0xE2,
        80 => 0x1D,
        81 => 0x81,
        82 => 0xE0,
        83 => 0x5E,
        84 => 0x1D,
        85 => 0x03,
        86 => 0x84,
        87 => 0xB8,
        88 => 0x2C,
        89 => 0x0F,
        90 => 0x80,
        91 => 0xB1,
        92 => 0x83,
        93 => 0xE0,
        94 => 0x30,
        95 => 0x41,
        96 => 0x1E,
        97 => 0x43,
        98 => 0x89,
        99 => 0x83,
        100 => 0x50,
        101 => 0xFC,
        102 => 0x24,
        103 => 0x2E,
        104 => 0x13,
        105 => 0x83,
        106 => 0xF1,
        107 => 0x7C,
        108 => 0x4C,
        109 => 0x2C,
        110 => 0xC9,
        111 => 0x0D,
        112 => 0x83,
        113 => 0xB0,
        114 => 0xB5,
        115 => 0x82,
        116 => 0xE4,
        117 => 0xE8,
        118 => 0x06,
        119 => 0x9C,
        120 => 0x07,
        121 => 0xA0,
        122 => 0x99,
        123 => 0x1D,
        124 => 0x07,
        125 => 0x3E,
        126 => 0x82,
        127 => 0x8F,
        _ => 0,
    }
}

/// Noise bits 640 to 767.
pub open spec fn noise_part5(i: usize) -> u8 {
    match i {
        0 => 0x70,
        1 => 0x30,
        2 => 0x74,
        3 => 0x40,
        4 => 0xCA,
        5 => 0x10,
        6 => 0xE4,
        7 => 0xE8,
        8 => 0x0F,
        9 => 0x92,
        10 => 0x14,
        11 => 0x3F,
        12 => 0x06,
        13 => 0xF8,
        14 => 0x84,
        15 => 0x88,
        16 => 0x43,
        17 => 0x81,
        18 => 0x0A,
        19 => 0x34,
        20 => 0x39,
        21 => 0x41,
        22 => 0xC6,
        23 => 0xE3,
        24 => 0x1C,
        25 => 0x47,
        26 => 0x03,
        27 => 0xB0,
        28 => 0xB8,
        29 => 0x13,
        30 => 0x0A,
        31 => 0xC2,
        32 => 0x64,
        33 => 0xF8,
        34 => 0x18,
        35 => 0xF9,
        36 => 0x60,
        37 => 0xB3,
        38 => 0xC0,
        39 => 0x65,
        40 => 0x20,
        41 => 0x60,
        42 => 0xA6,
        43 => 0x8C,
        44 => 0xC3,
        45 => 0x81,
        46 => 0x20,
        47 => 0x30,
        48 => 0x26,
        49 => 0x1E,
        50 => 0x1C,
        51 => 0x38,
        52 => 0xD3,
        53 => 0x01,
        54 => 0xB0,
        55 => 0x26,
        56 => 0x40,
        57 => 0xF4,
        58 => 0x0B,
        59 => 0xC3,
        60 => 0x42,
        61 => 0x1F,
        62 => 0x85,
        63 => 0x32,
        64 => 0x26,
        65 => 0x60,
        66 => 0x40,
        67 => 0xC9,
        68 => 0xCB,
        69 => 0x01,
        70 => 0xEC,
        71 => 0x11,
        72 => 0x28,
        73 => 0x40,
        74 => 0xFA,
        75 => 0x04,
        76 => 0x34,
        77 => 0xE0,
        78 => 0x70,
        79 => 0x4C,
        80 => 0x8C,
        81 => 0x1D,
        82 => 0x07,
        83 => 0x69,
        84 => 0x03,
        85 => 0x16,
        86 => 0xC8,
        87 => 0x04,
        88 => 0x23,
        89 => 0xE8,
        90 => 0xC6,
        91 => 0x9A,
        92 => 0x0B,
        93 => 0x1A,
        94 => 0x03,
        95 => 0xE0,
        96 => 0x76,
        97 => 0x06,
        98 => 0x05,
        99 => 0xCF,
        100 => 0x1E,
        101 => 0xBC,
        102 => 0x58,
        103 => 0x31,
        104 => 0x71,
        105 => 0x66,
        106 => 0x00,
        107 => 0xF8,
        108 => 0x3F,
        109 => 0x04,
        110 => 0xFC,
        111 => 0x0C,
        112 => 0x74,
        113 => 0x27,
        114 => 0x8A,
        115 => 0x80,
        116 => 0x71,
        117 => 0xC2,
        118 => 0x3A,
        119 => 0x26,
        120 => 0x06,
        121 => 0xC0,
        122 => 0x1F,
        123 => 0x05,
        124 => 0x0F,
        125 => 0x98,
        126 => 0x40,
        127 => 0xAE,
        _ => 0,
    }
}

fn noise_part5_at(i: usize) -> (r: u8)
    requires
        i < 128,
    ensures
        r == noise_part5(i),
{
    match i {
        0 => 0x70,
        1 => 0x30,
        2 => 0x74,
        3 => 0x40,
        4 => 0xCA,
        5 => 0x10,
        6 => 0xE4,
        7 => 0xE8,
        8 => 0x0F,
        9 => 0x92,
        10 => 0x14,
        11 => 0x3F,
        12 => 0x06,
        13 => 0xF8,
        14 => 0x84,
        15 => 0x88,
        16 => 0x43,
        17 => 0x81,
        18 => 0x0A,
        19 => 0x34,
        20 => 0x39,
        21 => 0x41,
        22 => 0xC6,
        23 => 0xE3,
        24 => 0x1C,
        25 => 0x47,
        26 => 0x03,
        27 => 0xB0,
        28 => 0xB8,
        29 => 0x13,
        30 => 0x0A,
        31 => 0xC2,
        32 => 0x64,
        33 => 0xF8,
        34 => 0x18,
        35 => 0xF9,
        36 => 0x60,
        37 => 0xB3,
        38 => 0xC0,
        39 => 0x65,
        40 => 0x20,
        41 => 0x60,
        42 => 0xA6,
        43 => 0x8C,
        44 => 0xC3,
        45 => 0x81,
        46 => 0x20,
        47 => 0x30,
        48 => 0x26,
        49 => 0x1E,
        50 => 0x1C,
        51 => 0x38,
        52 => 0xD3,
        53 => 0x01,
        54 => 0xB0,
        55 => 0x26,
        56 => 0x40,
        57 => 0xF4,
        58 => 0x0B,
        59 => 0xC3,
        60 => 0x42,
        61 => 0x1F,
        62 => 0x85,
        63 => 0x32,
        64 => 0x26,
        65 => 0x60,
        66 => 0x40,
        67 => 0xC9,
        68 => 0xCB,
        69 => 0x01,
        70 => 0xEC,
        71 => 0x11,
        72 => 0x28,
        73 => 0x40,
        74 => 0xFA,
        75 => 0x04,
        76 => 0x34,
        77 => 0xE0,
        78 => 0x70,
        79 => 0x4C,
        80 => 0x8C,
        81 => 0x1D,
        82 => 0x07,
        83 => 0x69,
        84 => 0x03,
        85 => 0x16,
        86 => 0xC8,
        87 => 0x04,
        88 => 0x23,
        89 => 0xE8,
        90 => 0xC6,
        91 => 0x9A,
        92 => 0x0B,
        93 => 0x1A,
        94 => 0x03,
        95 => 0xE0,
        96 => 0x76,
        97 => 0x06,
        98 => 0x05,
        99 => 0xCF,
        100 => 0x1E,
        101 => 0xBC,
        102 => 0x58,
        103 => 0x31,
        104 => 0x71,
        105 => 0x66,
        106 => 0x00,
        107 => 0xF8,
        108 => 0x3F,
        109 => 0x04,
        110 => 0xFC,
        111 => 0x0C,
        112 => 0x74,
        113 => 0x27,
        114 => 0x8A,
        115 => 0x80,
        116 => 0x71,
        117 => 0xC2,
        118 => 0x3A,
        119 => 0x26,
        120 => 0x06,
        121 => 0xC0,
        122 => 0x1F,
        123 => 0x05,
        124 => 0x0F,
        125 => 0x98,
        126 => 0x40,
        127 => 0xAE,
        _ => 0,
    }
}

/// Noise bits 768 to 895.
pub open spec fn noise_part6(i: usize) -> u8 {
    match i {
        0 => 0x01,
        1 => 0x7F,
        2 => 0xC0,
        3 => 0x07,
        4 => 0xFF,
        5 => 0x00,
        6 => 0x0E,
        7 => 0xFE,
        8 => 0x00,
        9 => 0x03,
        10 => 0xDF,
        11 => 0x80,
        12 => 0x03,
        13 => 0xEF,
        14 => 0x80,
        15 => 0x1B,
        16 => 0xF1,
        17 => 0xC2,
        18 => 0x00,
        19 => 0xE7,
        20 => 0xE0,
        21 => 0x18,
        22 => 0xFC,
        23 => 0xE0,
        24 => 0x21,
        25 => 0xFC,
        26 => 0x80,
        27 => 0x3C,
        28 => 0xFC,
        29 => 0x40,
        30 => 0x0E,
        31 => 0x7E,
        32 => 0x00,
        33 => 0x3F,
        34 => 0x3E,
        35 => 0x00,
        36 => 0x0F,
        37 => 0xFE,
        38 => 0x00,
        39 => 0x1F,
        40 => 0xFF,
        41 => 0x00,
        42 => 0x3E,
        43 => 0xF0,
        44 => 0x07,
        45 => 0xFC,
        46 => 0x00,
        47 => 0x7E,
        48 => 0x10,
        49 => 0x3F,
        50 => 0xFF,
        51 => 0x00,
        52 => 0x3F,
        53 => 0x38,
        54 => 0x0E,
        55 => 0x7C,
        56 => 0x01,
        57 => 0x87,
        58 => 0x0C,
        59 => 0xFC,
        60 => 0xC7,
        61 => 0x00,
        62 => 0x3E,
        63 => 0x04,
        64 => 0x0F,
        65 => 0x3E,
        66 => 0x1F,
        67 => 0x0F,
        68 => 0x0F,
        69 => 0x1F,
        70 => 0x0F,
        71 => 0x02,
        72 => 0x83,
        73 => 0x87,
        74 => 0xCF,
        75 => 0x03,
        76 => 0x87,
        77 => 0x0F,
        78 => 0x3F,
        79 => 0xC0,
        80 => 0x07,
        81 => 0x9E,
        82 => 0x60,
        83 => 0x3F,
        84 => 0xC0,
        85 => 0x03,
        86 => 0xFE,
        87 => 0x00,
        88 => 0x3F,
        89 => 0xE0,
        90 => 0x77,
        91 => 0xE1,
        92 => 0xC0,
        93 => 0xFE,
        94 => 0xE0,
        95 => 0xC3,
        96 => 0xE0,
        97 => 0x01,
        98 => 0xDF,
        99 => 0xF8,
        100 => 0x03,
        101 => 0x07,
        102 => 0x00,
        103 => 0x7E,
        104 => 0x70,
        105 => 0x00,
        106 => 0x7C,
        107 => 0x38,
        108 => 0x18,
        109 => 0xFE,
        110 => 0x0C,
        111 => 0x1E,
        112 => 0x78,
        113 => 0x1C,
        114 => 0x7C,
        115 => 0x3E,
        116 => 0x0E,
        117 => 0x1F,
        118 => 0x1E,
        119 => 0x1E,
        120 => 0x3E,
        121 => 0x00,
        122 => 0x7F,
        123 => 0x83,
        124 => 0x07,
        125 => 0xDB,
        126 => 0x87,
        127 => 0x83,
        _ => 0,
    }
}

fn noise_part6_at(i: usize) -> (r: u8)
    requires
        i < 128,
    ensures
        r == noise_part6(i),
{
    match i {
        0 => 0x01,
        1 => 0x7F,
        2 => 0xC0,
        3 => 0x07,
        4 => 0xFF,
        5 => 0x00,
        6 => 0x0E,
        7 => 0xFE,
        8 => 0x00,
        9 => 0x03,
        10 => 0xDF,
        11 => 0x80,
        12 => 0x03,
        13 => 0xEF,
        14 => 0x80,
        15 => 0x1B,
        16 => 0xF1,
        17 => 0xC2,
        18 => 0x00,
        19 => 0xE7,
        20 => 0xE0,
        21 => 0x18,
        22 => 0xFC,
        23 => 0xE0,
        24 => 0x21,
        25 => 0xFC,
        26 => 0x80,
        27 => 0x3C,
        28 => 0xFC,
        29 => 0x40,
        30 => 0x0E,
        31 => 0x7E,
        32 => 0x00,
        33 => 0x3F,
        34 => 0x3E,
        35 => 0x00,
        36 => 0x0F,
        37 => 0xFE,
        38 => 0x00,
        39 => 0x1F,
        40 => 0xFF,
        41 => 0x00,
        42 => 0x3E,
        43 => 0xF0,
        44 => 0x07,
        45 => 0xFC,
        46 => 0x00,
        47 => 0x7E,
        48 => 0x10,
        49 => 0x3F,
        50 => 0xFF,
        51 => 0x00,
        52 => 0x3F,
        53 => 0x38,
        54 => 0x0E,
        55 => 0x7C,
        56 => 0x01,
        57 => 0x87,
        58 => 0x0C,
        59 => 0xFC,
        60 => 0xC7,
        61 => 0x00,
        62 => 0x3E,
        63 => 0x04,
        64 => 0x0F,
        65 => 0x3E,
        66 => 0x1F,
        67 => 0x0F,
        68 => 0x0F,
        69 => 0x1F,
        70 => 0x0F,
        71 => 0x02,
        72 => 0x83,
        73 => 0x87,
        74 => 0xCF,
        75 => 0x03,
        76 => 0x87,
        77 => 0x0F,
        78 => 0x3F,
        79 => 0xC0,
        80 => 0x07,
        81 => 0x9E,
        82 => 0x60,
        83 => 0x3F,
        84 => 0xC0,
        85 => 0x03,
        86 => 0xFE,
        87 => 0x00,
        88 => 0x3F,
        89 => 0xE0,
        90 => 0x77,
        91 => 0xE1,
        92 => 0xC0,
        93 => 0xFE,
        94 => 0xE0,
        95 => 0xC3,
        96 => 0xE0,
        97 => 0x01,
        98 => 0xDF,
        99 => 0xF8,
        100 => 0x03,
        101 => 0x07,
        102 => 0x00,
        103 => 0x7E,
        104 => 0x70,
        105 => 0x00,
        106 => 0x7C,
        107 => 0x38,
        108 => 0x18,
        109 => 0xFE,
        110 => 0x0C,
        111 => 0x1E,
        112 => 0x78,
        113 => 0x1C,
        114 => 0x7C,
        115 => 0x3E,
        116 => 0x0E,
        117 => 0x1F,
        118 => 0x1E,
        119 => 0x1E,
        120 => 0x3E,
        121 => 0x00,
        122 => 0x7F,
        123 => 0x83,
        124 => 0x07,
        125 => 0xDB,
        126 => 0x87,
        127 => 0x83,
        _ => 0,
    }
}

/// Noise bits 896 to 1023.
pub open spec fn noise_part7(i: usize) -> u8 {
    match i {
        0 => 0x07,
        1 => 0xC7,
        2 => 0x07,
        3 => 0x10,
        4 => 0x71,
        5 => 0xFF,
        6 => 0x00,
        7 => 0x3F,
        8 => 0xE2,
        9 => 0x01,
        10 => 0xE0,
        11 => 0xC1,
        12 => 0xC3,
        13 => 0xE1,
        14 => 0x00,
        15 => 0x7F,
        16 => 0xC0,
        17 => 0x05,
        18 => 0xF0,
        19 => 0x20,
        20 => 0xF8,
        21 => 0xF0,
        22 => 0x70,
        23 => 0xFE,
        24 => 0x78,
        25 => 0x79,
        26 => 0xF8,
        27 => 0x02,
        28 => 0x3F,
        29 => 0x0C,
        30 => 0x8F,
        31 => 0x03,
        32 => 0x0F,
        33 => 0x9F,
        34 => 0xE0,
        35 => 0xC1,
        36 => 0xC7,
        37 => 0x87,
        38 => 0x03,
        39 => 0xC3,
        40 => 0xC3,
        41 => 0xB0,
        42 => 0xE1,
        43 => 0xE1,
        44 => 0xC1,
        45 => 0xE3,
        46 => 0xE0,
        47 => 0x71,
        48 => 0xF0,
        49 => 0x00,
        50 => 0xFC,
        51 => 0x70,
        52 => 0x7C,
        53 => 0x0C,
        54 => 0x3E,
        55 => 0x38,
        56 => 0x0E,
        57 => 0x1C,
        58 => 0x70,
        59 => 0xC3,
        60 => 0xC7,
        61 => 0x03,
        62 => 0x81,
        63 => 0xC1,
        64 => 0xC7,
        65 => 0xE7,
        66 => 0x00,
        67 => 0x0F,
        68 => 0xC7,
        69 => 0x87,
        70 => 0x19,
        71 => 0x09,
        72 => 0xEF,
        73 => 0xC4,
        74 => 0x33,
        75 => 0xE0,
        76 => 0xC1,
        77 => 0xFC,
        78 => 0xF8,
        79 => 0x70,
        80 => 0xF0,
        81 => 0x78,
        82 => 0xF8,
        83 => 0xF0,
        84 => 0x61,
        85 => 0xC7,
        86 => 0x00,
        87 => 0x1F,
        88 => 0xF8,
        89 => 0x01,
        90 => 0x7C,
        91 => 0xF8,
        92 => 0xF0,
        93 => 0x78,
        94 => 0x70,
        95 => 0x3C,
        96 => 0x7C,
        97 => 0xCE,
        98 => 0x0E,
        99 => 0x21,
        100 => 0x83,
        101 => 0xCF,
        102 => 0x08,
        103 => 0x07,
        104 => 0x8F,
        105 => 0x08,
        106 => 0xC1,
        107 => 0x87,
        108 => 0x8F,
        109 => 0x80,
        110 => 0xC7,
        111 => 0xE3,
        112 => 0x00,
        113 => 0x07,
        114 => 0xF8,
        115 => 0xE0,
        116 => 0xEF,
        117 => 0x00,
        118 => 0x39,
        119 => 0xF7,
        120 => 0x80,
        121 => 0x0E,
        122 => 0xF8,
        123 => 0xE1,
        124 => 0xE3,
        125 => 0xF8,
        126 => 0x21,
        127 => 0x9F,
        _ => 0,
    }
}

fn noise_part7_at(i: usize) -> (r: u8)
    requires
        i < 128,
    ensures
        r == noise_part7(i),
{
    match i {
        0 => 0x07,
        1 => 0xC7,
        2 => 0x07,
        3 => 0x10,
        4 => 0x71,
        5 => 0xFF,
        6 => 0x00,
        7 => 0x3F,
        8 => 0xE2,
        9 => 0x01,
        10 => 0xE0,
        11 => 0xC1,
        12 => 0xC3,
        13 => 0xE1,
        14 => 0x00,
        15 => 0x7F,
        16 => 0xC0,
        17 => 0x05,
        18 => 0xF0,
        19 => 0x20,
        20 => 0xF8,
        21 => 0xF0,
        22 => 0x70,
        23 => 0xFE,
        24 => 0x78,
        25 => 0x79,
        26 => 0xF8,
        27 => 0x02,
        28 => 0x3F,
        29 => 0x0C,
        30 => 0x8F,
        31 => 0x03,
        32 => 0x0F,
        33 => 0x9F,
        34 => 0xE0,
        35 => 0xC1,
        36 => 0xC7,
        37 => 0x87,
        38 => 0x03,
        39 => 0xC3,
        40 => 0xC3,
        41 => 0xB0,
        42 => 0xE1,
        43 => 0xE1,
        44 => 0xC1,
        45 => 0xE3,
        46 => 0xE0,
        47 => 0x71,
        48 => 0xF0,
        49 => 0x00,
        50 => 0xFC,
        51 => 0x70,
        52 => 0x7C,
        53 => 0x0C,
        54 => 0x3E,
        55 => 0x38,
        56 => 0x0E,
        57 => 0x1C,
        58 => 0x70,
        59 => 0xC3,
        60 => 0xC7,
        61 => 0x03,
        62 => 0x81,
        63 => 0xC1,
        64 => 0xC7,
        65 => 0xE7,
        66 => 0x00,
        67 => 0x0F,
        68 => 0xC7,
        69 => 0x87,
        70 => 0x19,
        71 => 0x09,
        72 => 0xEF,
        73 => 0xC4,
        74 => 0x33,
        75 => 0xE0,
        76 => 0xC1,
        77 => 0xFC,
        78 => 0xF8,
        79 => 0x70,
        80 => 0xF0,
        81 => 0x78,
        82 => 0xF8,
        83 => 0xF0,
        84 => 0x61,
        85 => 0xC7,
        86 => 0x00,
        87 => 0x1F,
        88 => 0xF8,
        89 => 0x01,
        90 => 0x7C,
        91 => 0xF8,
        92 => 0xF0,
        93 => 0x78,
        94 => 0x70,
        95 => 0x3C,
        96 => 0x7C,
        97 => 0xCE,
        98 => 0x0E,
        99 => 0x21,
        100 => 0x83,
        101 => 0xCF,
        102 => 0x08,
        103 => 0x07,
        104 => 0x8F,
        105 => 0x08,
        106 => 0xC1,
        107 => 0x87,
        108 => 0x8F,
        109 => 0x80,
        110 => 0xC7,
        111 => 0xE3,
        112 => 0x00,
        113 => 0x07,
        114 => 0xF8,
        115 => 0xE0,
        116 => 0xEF,
        117 => 0x00,
        118 => 0x39,
        119 => 0xF7,
        120 => 0x80,
        121 => 0x0E,
        122 => 0xF8,
        123 => 0xE1,
        124 => 0xE3,
        125 => 0xF8,
        126 => 0x21,
        127 => 0x9F,
        _ => 0,
    }
}

/// Noise bits 1024 to 1151.
pub open spec fn noise_part8(i: usize) -> u8 {
    match i {
        0 => 0xC0,
        1 => 0xFF,
        2 => 0x03,
        3 => 0xF8,
        4 => 0x07,
        5 => 0xC0,
        6 => 0x1F,
        7 => 0xF8,
        8 => 0xC4,
        9 => 0x04,
        10 => 0xFC,
        11 => 0xC4,
        12 => 0xC1,
        13 => 0xBC,
        14 => 0x87,
        15 => 0xF0,
        16 => 0x0F,
        17 => 0xC0,
        18 => 0x7F,
        19 => 0x05,
        20 => 0xE0,
        21 => 0x25,
        22 => 0xEC,
        23 => 0xC0,
        24 => 0x3E,
        25 => 0x84,
        26 => 0x47,
        27 => 0xF0,
        28 => 0x8E,
        29 => 0x03,
        30 => 0xF8,
        31 => 0x03,
        32 => 0xFB,
        33 => 0xC0,
        34 => 0x19,
        35 => 0xF8,
        36 => 0x07,
        37 => 0x9C,
        38 => 0x0C,
        39 => 0x17,
        40 => 0xF8,
        41 => 0x07,
        42 => 0xE0,
        43 => 0x1F,
        44 => 0xA1,
        45 => 0xFC,
        46 => 0x0F,
        47 => 0xFC,
        48 => 0x01,
        49 => 0xF0,
        50 => 0x3F,
        51 => 0x00,
        52 => 0xFE,
        53 => 0x03,
        54 => 0xF0,
        55 => 0x1F,
        56 => 0x00,
        57 => 0xFD,
        58 => 0x00,
        59 => 0xFF,
        60 => 0x88,
        61 => 0x0D,
        62 => 0xF9,
        63 => 0x01,
        64 => 0xFF,
        65 => 0x00,
        66 => 0x70,
        67 => 0x07,
        68 => 0xC0,
        69 => 0x3E,
        70 => 0x42,
        71 => 0xF3,
        72 => 0x0D,
        73 => 0xC4,
        74 => 0x7F,
        75 => 0x80,
        76 => 0xFC,
        77 => 0x07,
        78 => 0xF0,
        79 => 0x5E,
        80 => 0xC0,
        81 => 0x3F,
        82 => 0x00,
        83 => 0x78,
        84 => 0x3F,
        85 => 0x81,
        86 => 0xFF,
        87 => 0x01,
        88 => 0xF8,
        89 => 0x01,
        90 => 0xC3,
        91 => 0xE8,
        92 => 0x0C,
        93 => 0xE4,
        94 => 0x64,
        95 => 0x8F,
        96 => 0xE4,
        97 => 0x0F,
        98 => 0xF0,
        99 => 0x07,
        100 => 0xF0,
        101 => 0xC2,
        102 => 0x1F,
        103 => 0x00,
        104 => 0x7F,
        105 => 0xC0,
        106 => 0x6F,
        107 => 0x80,
        108 => 0x7E,
        109 => 0x03,
        110 => 0xF8,
        111 => 0x07,
        112 => 0xF0,
        113 => 0x3F,
        114 => 0xC0,
        115 => 0x78,
        116 => 0x0F,
        117 => 0x82,
        118 => 0x07,
        119 => 0xFE,
        120 => 0x22,
        121 => 0x77,
        122 => 0x70,
        123 => 0x02,
        124 => 0x76,
        125 => 0x03,
        126 => 0xFE,
        127 => 0x00,
        _ => 0,
    }
}

fn noise_part8_at(i: usize) -> (r: u8)
    requires
        i < 128,
    ensures
        r == noise_part8(i),
{
    match i {
        0 => 0xC0,
        1 => 0xFF,
        2 => 0x03,
        3 => 0xF8,
        4 => 0x07,
        5 => 0xC0,
        6 => 0x1F,
        7 => 0xF8,
        8 => 0xC4,
        9 => 0x04,
        10 => 0xFC,
        11 => 0xC4,
        12 => 0xC1,
        13 => 0xBC,
        14 => 0x87,
        15 => 0xF0,
        16 => 0x0F,
        17 => 0xC0,
        18 => 0x7F,
        19 => 0x05,
        20 => 0xE0,
        21 => 0x25,
        22 => 0xEC,
        23 => 0xC0,
        24 => 0x3E,
        25 => 0x84,
        26 => 0x47,
        27 => 0xF0,
        28 => 0x8E,
        29 => 0x03,
        30 => 0xF8,
        31 => 0x03,
        32 => 0xFB,
        33 => 0xC0,
        34 => 0x19,
        35 => 0xF8,
        36 => 0x07,
        37 => 0x9C,
        38 => 0x0C,
        39 => 0x17,
        40 => 0xF8,
        41 => 0x07,
        42 => 0xE0,
        43 => 0x1F,
        44 => 0xA1,
        45 => 0xFC,
        46 => 0x0F,
        47 => 0xFC,
        48 => 0x01,
        49 => 0xF0,
        50 => 0x3F,
        51 => 0x00,
        52 => 0xFE,
        53 => 0x03,
        54 => 0xF0,
        55 => 0x1F,
        56 => 0x00,
        57 => 0xFD,
        58 => 0x00,
        59 => 0xFF,
        60 => 0x88,
        61 => 0x0D,
        62 => 0xF9,
        63 => 0x01,
        64 => 0xFF,
        65 => 0x00,
        66 => 0x70,
        67 => 0x07,
        68 => 0xC0,
        69 => 0x3E,
        70 => 0x42,
        71 => 0xF3,
        72 => 0x0D,
        73 => 0xC4,
        74 => 0x7F,
        75 => 0x80,
        76 => 0xFC,
        77 => 0x07,
        78 => 0xF0,
        79 => 0x5E,
        80 => 0xC0,
        81 => 0x3F,
        82 => 0x00,
        83 => 0x78,
        84 => 0x3F,
        85 => 0x81,
        86 => 0xFF,
        87 => 0x01,
        88 => 0xF8,
        89 => 0x01,
        90 => 0xC3,
        91 => 0xE8,
        92 => 0x0C,
        93 => 0xE4,
        94 => 0x64,
        95 => 0x8F,
        96 => 0xE4,
        97 => 0x0F,
        98 => 0xF0,
        99 => 0x07,
        100 => 0xF0,
        101 => 0xC2,
        102 => 0x1F,
        103 => 0x00,
        104 => 0x7F,
        105 => 0xC0,
        106 => 0x6F,
        107 => 0x80,
        108 => 0x7E,
        109 => 0x03,
        110 => 0xF8,
        111 => 0x07,
        112 => 0xF0,
        113 => 0x3F,
        114 => 0xC0,
        115 => 0x78,
        116 => 0x0F,
        117 => 0x82,
        118 => 0x07,
        119 => 0xFE,
        120 => 0x22,
        121 => 0x77,
        122 => 0x70,
        123 => 0x02,
        124 => 0x76,
        125 => 0x03,
        126 => 0xFE,
        127 => 0x00,
        _ => 0,
    }
}

/// Noise bits 1152 to 1279.
pub open spec fn noise_part9(i: usize) -> u8 {
    match i {
        0 => 0xFE,
        1 => 0x67,
        2 => 0x00,
        3 => 0x7C,
        4 => 0xC7,
        5 => 0xF1,
        6 => 0x8E,
        7 => 0xC6,
        8 => 0x3B,
        9 => 0xE0,
        10 => 0x3F,
        11 => 0x84,
        12 => 0xF3,
        13 => 0x19,
        14 => 0xD8,
        15 => 0x03,
        16 => 0x99,
        17 => 0xFC,
        18 => 0x09,
        19 => 0xB8,
        20 => 0x0F,
        21 => 0xF8,
        22 => 0x00,
        23 => 0x9D,
        24 => 0x24,
        25 => 0x61,
        26 => 0xF9,
        27 => 0x0D,
        28 => 0x00,
        29 => 0xFD,
        30 => 0x03,
        31 => 0xF0,
        32 => 0x1F,
        33 => 0x90,
        34 => 0x3F,
        35 => 0x01,
        36 => 0xF8,
        37 => 0x1F,
        38 => 0xD0,
        39 => 0x0F,
        40 => 0xF8,
        41 => 0x37,
        42 => 0x01,
        43 => 0xF8,
        44 => 0x07,
        45 => 0xF0,
        46 => 0x0F,
        47 => 0xC0,
        48 => 0x3F,
        49 => 0x00,
        50 => 0xFE,
        51 => 0x03,
        52 => 0xF8,
        53 => 0x0F,
        54 => 0xC0,
        55 => 0x3F,
        56 => 0x00,
        57 => 0xFA,
        58 => 0x03,
        59 => 0xF0,
        60 => 0x0F,
        61 => 0x80,
        62 => 0xFF,
        63 => 0x01,
        64 => 0xB8,
        65 => 0x07,
        66 => 0xF0,
        67 => 0x01,
        68 => 0xFC,
        69 => 0x01,
        70 => 0xBC,
        71 => 0x80,
        72 => 0x13,
        73 => 0x1E,
        74 => 0x00,
        75 => 0x7F,
        76 => 0xE1,
        77 => 0x40,
        78 => 0x7F,
        79 => 0xA0,
        80 => 0x7F,
        81 => 0xB0,
        82 => 0x00,
        83 => 0x3F,
        84 => 0xC0,
        85 => 0x1F,
        86 => 0xC0,
        87 => 0x38,
        88 => 0x0F,
        89 => 0xF0,
        90 => 0x1F,
        91 => 0x80,
        92 => 0xFF,
        93 => 0x01,
        94 => 0xFC,
        95 => 0x03,
        96 => 0xF1,
        97 => 0x7E,
        98 => 0x01,
        99 => 0xFE,
        100 => 0x01,
        101 => 0xF0,
        102 => 0xFF,
        103 => 0x00,
        104 => 0x7F,
        105 => 0xC0,
        106 => 0x1D,
        107 => 0x07,
        108 => 0xF0,
        109 => 0x0F,
        110 => 0xC0,
        111 => 0x7E,
        112 => 0x06,
        113 => 0xE0,
        114 => 0x07,
        115 => 0xE0,
        116 => 0x0F,
        117 => 0xF8,
        118 => 0x06,
        119 => 0xC1,
        120 => 0xFE,
        121 => 0x01,
        122 => 0xFC,
        123 => 0x03,
        124 => 0xE0,
        125 => 0x0F,
        126 => 0x00,
        127 => 0xFC,
        _ => 0,
    }
}

fn noise_part9_at(i: usize) -> (r: u8)
    requires
        i < 128,
    ensures
        r == noise_part9(i),
{
    match i {
        0 => 0xFE,
        1 => 0x67,
        2 => 0x00,
        3 => 0x7C,
        4 => 0xC7,
        5 => 0xF1,
        6 => 0x8E,
        7 => 0xC6,
        8 => 0x3B,
        9 => 0xE0,
        10 => 0x3F,
        11 => 0x84,
        12 => 0xF3,
        13 => 0x19,
        14 => 0xD8,
        15 => 0x03,
        16 => 0x99,
        17 => 0xFC,
        18 => 0x09,
        19 => 0xB8,
        20 => 0x0F,
        21 => 0xF8,
        22 => 0x00,
        23 => 0x9D,
        24 => 0x24,
        25 => 0x61,
        26 => 0xF9,
        27 => 0x0D,
        28 => 0x00,
        29 => 0xFD,
        30 => 0x03,
        31 => 0xF0,
        32 => 0x1F,
        33 => 0x90,
        34 => 0x3F,
        35 => 0x01,
        36 => 0xF8,
        37 => 0x1F,
        38 => 0xD0,
        39 => 0x0F,
        40 => 0xF8,
        41 => 0x37,
        42 => 0x01,
        43 => 0xF8,
        44 => 0x07,
        45 => 0xF0,
        46 => 0x0F,
        47 => 0xC0,
        48 => 0x3F,
        49 => 0x00,
        50 => 0xFE,
        51 => 0x03,
        52 => 0xF8,
        53 => 0x0F,
        54 => 0xC0,
        55 => 0x3F,
        56 => 0x00,
        57 => 0xFA,
        58 => 0x03,
        59 => 0xF0,
        60 => 0x0F,
        61 => 0x80,
        62 => 0xFF,
        63 => 0x01,
        64 => 0xB8,
        65 => 0x07,
        66 => 0xF0,
        67 => 0x01,
        68 => 0xFC,
        69 => 0x01,
        70 => 0xBC,
        71 => 0x80,
        72 => 0x13,
        73 => 0x1E,
        74 => 0x00,
        75 => 0x7F,
        76 => 0xE1,
        77 => 0x40,
        78 => 0x7F,
        79 => 0xA0,
        80 => 0x7F,
        81 => 0xB0,
        82 => 0x00,
        83 => 0x3F,
        84 => 0xC0,
        85 => 0x1F,
        86 => 0xC0,
        87 => 0x38,
        88 => 0x0F,
        89 => 0xF0,
        90 => 0x1F,
        91 => 0x80,
        92 => 0xFF,
        93 => 0x01,
        94 => 0xFC,
        95 => 0x03,
        96 => 0xF1,
        97 => 0x7E,
        98 => 0x01,
        99 => 0xFE,
        100 => 0x01,
        101 => 0xF0,
        102 => 0xFF,
        103 => 0x00,
        104 => 0x7F,
        105 => 0xC0,
        106 => 0x1D,
        107 => 0x07,
        108 => 0xF0,
        109 => 0x0F,
        110 => 0xC0,
        111 => 0x7E,
        112 => 0x06,
        113 => 0xE0,
        114 => 0x07,
        115 => 0xE0,
        116 => 0x0F,
        117 => 0xF8,
        118 => 0x06,
        119 => 0xC1,
        120 => 0xFE,
        121 => 0x01,
        122 => 0xFC,
        123 => 0x03,
        124 => 0xE0,
        125 => 0x0F,
        126 => 0x00,
        127 => 0xFC,
        _ => 0,
    }
}

/// Noise bits of the sampled consonants: five pages of 256 bytes, one per
/// noise class.
pub open spec fn noise_sample(i: usize) -> u8 {
    let k = i % 128;
    if i / 128 == 0 {
        noise_part0(k)
    } else if i / 128 == 1 {
        noise_part1(k)
    } else if i / 128 == 2 {
        noise_part2(k)
    } else if i / 128 == 3 {
        noise_part3(k)
    } else if i / 128 == 4 {
        noise_part4(k)
    } else if i / 128 == 5 {
        noise_part5(k)
    } else if i / 128 == 6 {
        noise_part6(k)
    } else if i / 128 == 7 {
        noise_part7(k)
    } else if i / 128 == 8 {
        noise_part8(k)
    } else {
        noise_part9(k)
    }
}

fn noise_sample_at(i: usize) -> (r: u8)
    requires
        i < SAMPLE_TABLE_SIZE,
    ensures
        r == noise_sample(i),
{
    let part = i / 128;
    let k = i % 128;
    if part == 0 {
        noise_part0_at(k)
    } else if part == 1 {
        noise_part1_at(k)
    } else if part == 2 {
        noise_part2_at(k)
    } else if part == 3 {
        noise_part3_at(k)
    } else if part == 4 {
        noise_part4_at(k)
    } else if part == 5 {
        noise_part5_at(k)
    } else if part == 6 {
        noise_part6_at(k)
    } else if part == 7 {
        noise_part7_at(k)
    } else if part == 8 {
        noise_part8_at(k)
    } else {
        noise_part9_at(k)
    }
}

// ---------------------------------------------------------------- vocal tract

/// A formant frequency scaled by a mouth or throat factor:
/// `((factor * frequency) >> 8) * 2`, kept to a byte.
pub open spec fn scaled_formant(factor: u8, frequency: u8) -> u8 {
    ((((factor as int * frequency as int) / 256) % 256) * 2 % 256) as u8
}

/// The ids whose formants 1 and 2 follow the mouth and throat.
pub open spec fn tract_scaled(i: int) -> bool {
    (5 <= i < 30) || (48 <= i < 54)
}

proof fn lemma_byte_product(a: int, b: int)
    requires
        0 <= a <= 255,
        0 <= b <= 255,
    ensures
        0 <= a * b <= 65025,
{
    assert(0 <= a * b <= 65025) by (nonlinear_arith)
        requires
            0 <= a <= 255,
            0 <= b <= 255,
    ;
}

fn trans(factor: u8, frequency: u8) -> (r: u8)
    ensures
        r == scaled_formant(factor, frequency),
{
    proof {
        lemma_byte_product(factor as int, frequency as int);
    }
    ((((factor as u32 * frequency as u32) / 256) % 256) * 2 % 256) as u8
}

/// The three formant frequency tables after the mouth and throat are applied.
pub struct FrequencyData {
    pub f1: Vec<u8>,
    pub f2: Vec<u8>,
    pub f3: Vec<u8>,
}

/// Scale formant 1 by `mouth` and formant 2 by `throat` over the vowel and
/// diphthong ranges of the catalog.
fn set_mouth_and_throat(mouth: u8, throat: u8) -> (r: FrequencyData)
    ensures
        r.f1@.len() == PHONEME_TABLE_SIZE,
        r.f2@.len() == PHONEME_TABLE_SIZE,
        r.f3@.len() == PHONEME_TABLE_SIZE,
        forall|i: int|
            0 <= i < PHONEME_TABLE_SIZE ==> #[trigger] r.f1@[i] == if tract_scaled(i) {
                scaled_formant(mouth, formant1_base(i as usize))
            } else {
                formant1_base(i as usize)
            },
        forall|i: int|
            0 <= i < PHONEME_TABLE_SIZE ==> #[trigger] r.f2@[i] == if tract_scaled(i) {
                scaled_formant(throat, formant2_base(i as usize))
            } else {
                formant2_base(i as usize)
            },
        forall|i: int| 0 <= i < PHONEME_TABLE_SIZE ==> #[trigger] r.f3@[i] == formant3_base(i as usize),
        r.f1@ == tract_table1(mouth),
        r.f2@ == tract_table2(throat),
        r.f3@ == formant3_table(),
{
    let mut f1: Vec<u8> = Vec::new();
    let mut f2: Vec<u8> = Vec::new();
    let mut f3: Vec<u8> = Vec::new();
    let mut i: usize = 0;
    while i < PHONEME_TABLE_SIZE
        invariant
            i <= PHONEME_TABLE_SIZE,
            f1@.len() == i,
            f2@.len() == i,
            f3@.len() == i,
            forall|j: int|
                0 <= j < i ==> #[trigger] f1@[j] == if tract_scaled(j) {
                    scaled_formant(mouth, formant1_base(j as usize))
                } else {
                    formant1_base(j as usize)
                },
            forall|j: int|
                0 <= j < i ==> #[trigger] f2@[j] == if tract_scaled(j) {
                    scaled_formant(throat, formant2_base(j as usize))
                } else {
                    formant2_base(j as usize)
                },
            forall|j: int| 0 <= j < i ==> #[trigger] f3@[j] == formant3_base(j as usize),
        decreases PHONEME_TABLE_SIZE - i,
    {
        let scaled = (5 <= i && i < 30) || (48 <= i && i < 54);
        let a = formant1_base_at(i);
        let b = formant2_base_at(i);
        f1.push(
            if scaled {
                trans(mouth, a)
            } else {
                a
            },
        );
        f2.push(
            if scaled {
                trans(throat, b)
            } else {
                b
            },
        );
        f3.push(formant3_base_at(i));
        i += 1;
    }
    assert(f1@ =~= tract_table1(mouth));
    assert(f2@ =~= tract_table2(throat));
    assert(f3@ =~= formant3_table());
    FrequencyData { f1, f2, f3 }
}

// ---------------------------------------------------------------- frames

/// One tick's synthesis parameters.
#[derive(Clone, Copy, Debug, PartialEq, Eq, Structural)]
pub struct Frame {
    pub pitch: u8,
    pub f1: u8,
    pub f2: u8,
    pub f3: u8,
    pub a1: u8,
    pub a2: u8,
    pub a3: u8,
    pub sampled_consonant_flag: u8,
}

impl Frame {
    /// A frame with every parameter zero.
    pub fn new() -> (r: Self)
        ensures
            r == zero_frame(),
    {
        Frame { pitch: 0, f1: 0, f2: 0, f3: 0, a1: 0, a2: 0, a3: 0, sampled_consonant_flag: 0 }
    }
}

pub open spec fn zero_frame() -> Frame {
    Frame { pitch: 0, f1: 0, f2: 0, f3: 0, a1: 0, a2: 0, a3: 0, sampled_consonant_flag: 0 }
}

/// A sampled-consonant flag the sample player can take: zero, or a noise
/// class from 1 to 5 in the low three bits.
pub open spec fn valid_sample_flag(f: u8) -> bool {
    f == 0 || (1 <= f % 8 && f % 8 <= 5)
}

pub open spec fn frames_valid(frames: Seq<Frame>) -> bool {
    forall|i: int| 0 <= i < frames.len() ==> valid_sample_flag(#[trigger] frames[i].sampled_consonant_flag)
}

/// Total duration of a sequence of events, in frames.
pub open spec fn total_length(s: Seq<Phoneme>) -> nat
    decreases s.len(),
{
    if s.len() == 0 {
        0
    } else {
        total_length(s.drop_last()) + s.last().length as nat
    }
}

proof fn lemma_total_length_prefix(s: Seq<Phoneme>, k: int)
    requires
        0 <= k < s.len(),
    ensures
        total_length(s.subrange(0, k + 1)) == total_length(s.subrange(0, k)) + s[k].length,
        total_length(s.subrange(0, k + 1)) <= total_length(s),
    decreases s.len() - k,
{
    assert(s.subrange(0, k + 1).drop_last() =~= s.subrange(0, k));
    if k + 1 < s.len() {
        lemma_total_length_prefix(s, k + 1);
    } else {
        assert(s.subrange(0, k + 1) =~= s);
    }
}

/// Events the synthesizer can take: no pause, ids with data, stress levels
/// with a pitch offset.
pub open spec fn renderable(s: Seq<Phoneme>) -> bool {
    forall|i: int|
        0 <= i < s.len() ==> #[trigger] s[i].index != 0 && s[i].index < PHONEME_TABLE_SIZE
            && s[i].stress < STRESS_LEVELS
}

/// Frame `a` differs from frame `b` at most in its pitch.
pub open spec fn same_but_pitch(a: Frame, b: Frame) -> bool {
    a == Frame { pitch: a.pitch, ..b }
}


/// One inflection step of the pitch: up for a falling inflection, down for
/// a rising one, wrapping as a byte.
pub open spec fn inflect_step(a: u8, rising: bool) -> u8 {
    if rising {
        ((a as int - 1) % 256) as u8
    } else {
        ((a as int + 1) % 256) as u8
    }
}

/// The first position at or after `q` whose pitch is not 127.
pub open spec fn skip_level(frames: Seq<Frame>, q: int) -> int
    decreases frames.len() - q,
{
    if 0 <= q < frames.len() && frames[q].pitch == 127 {
        skip_level(frames, q + 1)
    } else {
        q
    }
}

/// The inflection from position `pos` on, `a` being the pitch last written:
/// saturated frames (pitch 255) are passed over.
pub open spec fn inflect_rest(frames: Seq<Frame>, pos: int, a: u8, rising: bool) -> Seq<Frame>
    decreases frames.len() - pos,
{
    if pos < 0 || pos >= frames.len() {
        frames
    } else if frames[pos].pitch == 255 {
        inflect_rest(frames, pos + 1, a, rising)
    } else {
        let b = inflect_step(a, rising);
        inflect_rest(frames.update(pos, Frame { pitch: b, ..frames[pos] }), pos + 1, b, rising)
    }
}

/// The inflection over the last 30 frames: it starts at the first of them
/// whose pitch is not 127.
pub open spec fn inflect(frames: Seq<Frame>, rising: bool) -> Seq<Frame> {
    let start = if frames.len() >= 30 {
        frames.len() - 30
    } else {
        0
    };
    let first = skip_level(frames, start);
    if first >= frames.len() {
        frames
    } else {
        let b = inflect_step(frames[first].pitch, rising);
        inflect_rest(frames.update(first, Frame { pitch: b, ..frames[first] }), first + 1, b, rising)
    }
}

proof fn lemma_inflect_rest_keeps(frames: Seq<Frame>, pos: int, a: u8, rising: bool)
    ensures
        inflect_rest(frames, pos, a, rising).len() == frames.len(),
        forall|i: int|
            0 <= i < frames.len() ==> same_but_pitch(
                #[trigger] inflect_rest(frames, pos, a, rising)[i],
                frames[i],
            ),
    decreases frames.len() - pos,
{
    if 0 <= pos < frames.len() {
        if frames[pos].pitch == 255 {
            lemma_inflect_rest_keeps(frames, pos + 1, a, rising);
        } else {
            let b = inflect_step(a, rising);
            let f2 = frames.update(pos, Frame { pitch: b, ..frames[pos] });
            lemma_inflect_rest_keeps(f2, pos + 1, b, rising);
            assert forall|i: int| 0 <= i < frames.len() implies same_but_pitch(
                #[trigger] inflect_rest(frames, pos, a, rising)[i],
                frames[i],
            ) by {
                assert(same_but_pitch(inflect_rest(f2, pos + 1, b, rising)[i], f2[i]));
            }
        }
    }
}

proof fn lemma_skip_level_bounds(frames: Seq<Frame>, q: int)
    requires
        0 <= q,
    ensures
        q <= skip_level(frames, q),
    decreases frames.len() - q,
{
    if 0 <= q < frames.len() && frames[q].pitch == 127 {
        lemma_skip_level_bounds(frames, q + 1);
    }
}

/// The direction of an inflection at the end of a sentence.
pub enum Inflection {
    Rising,
    Falling,
}

/// Apply a rising or falling inflection to the last 30 frames.
fn add_inflection(inflection: Inflection, frames: &mut Vec<Frame>)
    ensures
        final(frames)@ == inflect(old(frames)@, inflection is Rising),
        final(frames)@.len() == old(frames)@.len(),
        forall|i: int|
            0 <= i < final(frames)@.len() ==> same_but_pitch(#[trigger] final(frames)@[i], old(frames)@[i]),
{
    let ghost start = frames@;
    let ghost rising = inflection is Rising;
    let end = frames.len();
    let mut position = if end >= 30 {
        end - 30
    } else {
        0
    };
    proof {
        lemma_skip_level_bounds(start, position as int);
    }
    while position < end && frames[position].pitch == 127
        invariant
            end == frames@.len(),
            position <= end,
            frames@ == start,
            skip_level(start, if end >= 30 { end - 30 } else { 0 }) == skip_level(start, position as int),
        decreases end - position,
    {
        position += 1;
    }
    if position >= end {
        return;
    }
    let first = frames[position];
    let mut a = match inflection {
        Inflection::Falling => first.pitch.wrapping_add(1),
        Inflection::Rising => first.pitch.wrapping_sub(1),
    };
    frames.set(position, Frame { pitch: a, ..first });
    position += 1;
    proof {
        lemma_inflect_rest_keeps(frames@, position as int, a, rising);
        assert forall|i: int| 0 <= i < start.len() implies same_but_pitch(
            #[trigger] inflect(start, rising)[i],
            start[i],
        ) by {
            assert(same_but_pitch(inflect_rest(frames@, position as int, a, rising)[i], frames@[i]));
        }
    }
    while position < end
        invariant
            end == frames@.len(),
            position <= end,
            rising == inflection is Rising,
            inflect_rest(frames@, position as int, a, rising) == inflect(start, rising),
            forall|i: int| 0 <= i < start.len() ==> same_but_pitch(#[trigger] inflect(start, rising)[i], start[i]),
            inflect(start, rising).len() == start.len(),
            start.len() == end,
        decreases end - position,
    {
        let f = frames[position];
        if f.pitch != 255 {
            a = match inflection {
                Inflection::Falling => a.wrapping_add(1),
                Inflection::Rising => a.wrapping_sub(1),
            };
            frames.set(position, Frame { pitch: a, ..f });
        }
        position += 1;
    }
}

/// The tract-scaled formant 1 table.
pub open spec fn tract_table1(mouth: u8) -> Seq<u8> {
    Seq::new(
        PHONEME_TABLE_SIZE as nat,
        |i: int|
            if tract_scaled(i) {
                scaled_formant(mouth, formant1_base(i as usize))
            } else {
                formant1_base(i as usize)
            },
    )
}

/// The tract-scaled formant 2 table.
pub open spec fn tract_table2(throat: u8) -> Seq<u8> {
    Seq::new(
        PHONEME_TABLE_SIZE as nat,
        |i: int|
            if tract_scaled(i) {
                scaled_formant(throat, formant2_base(i as usize))
            } else {
                formant2_base(i as usize)
            },
    )
}

pub open spec fn formant3_table() -> Seq<u8> {
    Seq::new(PHONEME_TABLE_SIZE as nat, |i: int| formant3_base(i as usize))
}

/// The frame of event `ph` before any blending.
pub open spec fn event_frame(pitch: u8, ph: Phoneme, f1: Seq<u8>, f2: Seq<u8>, f3: Seq<u8>) -> Frame {
    Frame {
        pitch: ((pitch as int + stress_pitch(ph.stress as usize) as int) % 256) as u8,
        f1: f1[ph.index as int],
        f2: f2[ph.index as int],
        f3: f3[ph.index as int],
        a1: amplitude1(ph.index),
        a2: amplitude2(ph.index),
        a3: amplitude3(ph.index),
        sampled_consonant_flag: sampled_consonant_flag(ph.index),
    }
}

/// The frames of the first `k` events: each event inflects what came before
/// it if it is a period or question mark, then adds `length` copies of its
/// frame.
pub open spec fn frames_upto(pitch: u8, s: Seq<Phoneme>, f1: Seq<u8>, f2: Seq<u8>, f3: Seq<u8>, k: nat) -> Seq<Frame>
    decreases k,
{
    if k == 0 {
        Seq::empty()
    } else {
        let prev = frames_upto(pitch, s, f1, f2, f3, (k - 1) as nat);
        let ph = s[k - 1];
        let inflected = if ph.index == PHONEME_PERIOD {
            inflect(prev, false)
        } else if ph.index == PHONEME_QUESTION_MARK {
            inflect(prev, true)
        } else {
            prev
        };
        inflected + Seq::new(ph.length as nat, |i: int| event_frame(pitch, ph, f1, f2, f3))
    }
}

/// The frames of each event, in order, before blending.
fn create_frames(pitch: u8, phonemes: &[Phoneme], frequency_data: &FrequencyData) -> (r: Vec<Frame>)
    requires
        renderable(phonemes@),
        frequency_data.f1@.len() == PHONEME_TABLE_SIZE,
        frequency_data.f2@.len() == PHONEME_TABLE_SIZE,
        frequency_data.f3@.len() == PHONEME_TABLE_SIZE,
    ensures
        r@ == frames_upto(
            pitch,
            phonemes@,
            frequency_data.f1@,
            frequency_data.f2@,
            frequency_data.f3@,
            phonemes@.len(),
        ),
        r@.len() == total_length(phonemes@),
        frames_valid(r@),
{
    let ghost f1 = frequency_data.f1@;
    let ghost f2 = frequency_data.f2@;
    let ghost f3 = frequency_data.f3@;
    let mut frames: Vec<Frame> = Vec::new();
    let mut k: usize = 0;
    assert(phonemes@.subrange(0, 0) =~= Seq::<Phoneme>::empty());
    while k < phonemes.len()
        invariant
            k <= phonemes@.len(),
            renderable(phonemes@),
            f1 == frequency_data.f1@,
            f2 == frequency_data.f2@,
            f3 == frequency_data.f3@,
            f1.len() == PHONEME_TABLE_SIZE,
            f2.len() == PHONEME_TABLE_SIZE,
            f3.len() == PHONEME_TABLE_SIZE,
            frames@ == frames_upto(pitch, phonemes@, f1, f2, f3, k as nat),
            frames@.len() == total_length(phonemes@.subrange(0, k as int)),
            frames_valid(frames@),
        decreases phonemes@.len() - k,
    {
        proof {
            lemma_total_length_prefix(phonemes@, k as int);
        }
        let phoneme = phonemes[k];
        let ghost before = frames@;
        if phoneme.index == PHONEME_PERIOD {
            add_inflection(Inflection::Falling, &mut frames);
        } else if phoneme.index == PHONEME_QUESTION_MARK {
            add_inflection(Inflection::Rising, &mut frames);
        }
        let ghost inflected = frames@;
        assert(frames_valid(frames@)) by {
            assert forall|i: int| 0 <= i < frames@.len() implies valid_sample_flag(
                #[trigger] frames@[i].sampled_consonant_flag,
            ) by {
                assert(frames@[i].sampled_consonant_flag == before[i].sampled_consonant_flag);
            }
        }
        let id = phoneme.index;
        let frame = Frame {
            pitch: pitch.wrapping_add(stress_pitch_at(phoneme.stress as usize)),
            f1: frequency_data.f1[id],
            f2: frequency_data.f2[id],
            f3: frequency_data.f3[id],
            a1: amplitude1_at(id),
            a2: amplitude2_at(id),
            a3: amplitude3_at(id),
            sampled_consonant_flag: sampled_consonant_flag_at(id),
        };
        assert(frame == event_frame(pitch, phoneme, f1, f2, f3));
        assert(valid_sample_flag(frame.sampled_consonant_flag));
        let mut n: u8 = 0;
        let ghost base = frames@.len();
        assert(frames@ =~= inflected + Seq::new(0, |i: int| frame));
        while n < phoneme.length
            invariant
                frames@ == inflected + Seq::new(n as nat, |i: int| frame),
                inflected.len() == base,
                n <= phoneme.length,
                frames_valid(frames@),
                valid_sample_flag(frame.sampled_consonant_flag),
            decreases phoneme.length - n,
        {
            frames.push(frame);
            n += 1;
            assert(frames@ =~= inflected + Seq::new(n as nat, |i: int| frame));
        }
        k += 1;
        assert(frames@ =~= frames_upto(pitch, phonemes@, f1, f2, f3, k as nat));
    }
    assert(phonemes@.subrange(0, k as int) =~= phonemes@);
    frames
}

// ---------------------------------------------------------------- transitions

/// A frame parameter that transitions blend.
#[derive(Clone, Copy, Debug, PartialEq, Eq, Structural)]
pub enum Channel {
    Pitch,
    F1,
    F2,
    F3,
    A1,
    A2,
    A3,
}

pub open spec fn channel_value(f: Frame, c: Channel) -> u8 {
    match c {
        Channel::Pitch => f.pitch,
        Channel::F1 => f.f1,
        Channel::F2 => f.f2,
        Channel::F3 => f.f3,
        Channel::A1 => f.a1,
        Channel::A2 => f.a2,
        Channel::A3 => f.a3,
    }
}

pub open spec fn with_channel(f: Frame, c: Channel, v: u8) -> Frame {
    match c {
        Channel::Pitch => Frame { pitch: v, ..f },
        Channel::F1 => Frame { f1: v, ..f },
        Channel::F2 => Frame { f2: v, ..f },
        Channel::F3 => Frame { f3: v, ..f },
        Channel::A1 => Frame { a1: v, ..f },
        Channel::A2 => Frame { a2: v, ..f },
        Channel::A3 => Frame { a3: v, ..f },
    }
}

/// Channel `c` at `index`, zero outside the frames.
pub open spec fn channel_at(frames: Seq<Frame>, c: Channel, index: int) -> u8 {
    if 0 <= index < frames.len() {
        channel_value(frames[index], c)
    } else {
        0
    }
}

/// The frames with channel `c` at `index` set to `v`: the pitch channel
/// first grows the frames with zero frames to reach `index`; the others
/// leave frames outside the sequence alone.
#[verifier::opaque]
pub open spec fn channel_written(frames: Seq<Frame>, c: Channel, index: int, v: u8) -> Seq<Frame> {
    if c == Channel::Pitch && index >= 0 {
        let grown = if index < frames.len() {
            frames
        } else {
            frames + Seq::new((index + 1 - frames.len()) as nat, |i: int| zero_frame())
        };
        grown.update(index, with_channel(grown[index], c, v))
    } else if 0 <= index < frames.len() {
        frames.update(index, with_channel(frames[index], c, v))
    } else {
        frames
    }
}

/// The value of channel `c` at `index`, zero past the last frame.
fn read_channel(frames: &Vec<Frame>, c: Channel, index: usize) -> (r: u8)
    ensures
        r == channel_at(frames@, c, index as int),
        index < frames@.len() ==> r == channel_value(frames@[index as int], c),
        index >= frames@.len() ==> r == 0,
{
    if index >= frames.len() {
        return 0;
    }
    let f = frames[index];
    match c {
        Channel::Pitch => f.pitch,
        Channel::F1 => f.f1,
        Channel::F2 => f.f2,
        Channel::F3 => f.f3,
        Channel::A1 => f.a1,
        Channel::A2 => f.a2,
        Channel::A3 => f.a3,
    }
}

/// Set channel `c` at `index`. The pitch channel extends the frames with zero
/// frames to reach `index`; the other channels leave frames past the end alone.
fn write_channel(frames: &mut Vec<Frame>, c: Channel, index: usize, v: u8)
    requires
        frames_valid(old(frames)@),
        index < usize::MAX,
    ensures
        frames_valid(final(frames)@),
        final(frames)@.len() >= old(frames)@.len(),
        c != Channel::Pitch ==> final(frames)@.len() == old(frames)@.len(),
        final(frames)@ == channel_written(old(frames)@, c, index as int, v),
{
    let ghost start = frames@;
    if c == Channel::Pitch {
        while frames.len() <= index
            invariant
                frames_valid(frames@),
                index < usize::MAX,
                start.len() <= frames@.len() <= if index < start.len() {
                    start.len() as int
                } else {
                    index + 1
                },
                forall|i: int|
                    0 <= i < frames@.len() ==> #[trigger] frames@[i] == if i < start.len() {
                        start[i]
                    } else {
                        zero_frame()
                    },
            decreases index + 1 - frames@.len(),
        {
            frames.push(Frame::new());
        }
    }
    if index < frames.len() {
        let f = frames[index];
        let updated = match c {
            Channel::Pitch => Frame { pitch: v, ..f },
            Channel::F1 => Frame { f1: v, ..f },
            Channel::F2 => Frame { f2: v, ..f },
            Channel::F3 => Frame { f3: v, ..f },
            Channel::A1 => Frame { a1: v, ..f },
            Channel::A2 => Frame { a2: v, ..f },
            Channel::A3 => Frame { a3: v, ..f },
        };
        frames.set(index, updated);
    }
    proof {
        reveal(channel_written);
        let w = channel_written(start, c, index as int, v);
        if c == Channel::Pitch {
            assert(frames@.len() == w.len());
            assert forall|i: int| 0 <= i < w.len() implies #[trigger] frames@[i] == w[i] by {
                if i < start.len() {
                } else {
                }
            }
            assert(frames@ =~= w);
        } else {
            assert(frames@ =~= w);
        }
    }
}

/// `change / width` as the byte registers divide: truncating, and zero where
/// the quotient does not fit (width read as a signed byte).
pub open spec fn step_quotient(change: i8, width: u8) -> i8 {
    let d = if width < 128 {
        width as int
    } else {
        width as int - 256
    };
    let q = if (change < 0) == (d < 0) {
        abs(change as int) / abs(d)
    } else {
        -(abs(change as int) / abs(d))
    };
    if d == 0 || q > 127 {
        0
    } else {
        q as i8
    }
}

pub open spec fn abs(x: int) -> int {
    if x < 0 {
        -x
    } else {
        x
    }
}

fn quotient(change: i8, width: u8) -> (r: i8)
    requires
        width > 0,
    ensures
        r == step_quotient(change, width),
{
    let d: i16 = if width < 128 {
        width as i16
    } else {
        width as i16 - 256
    };
    let c_mag: i16 = if change < 0 {
        -(change as i16)
    } else {
        change as i16
    };
    let d_mag: i16 = if d < 0 {
        -d
    } else {
        d
    };
    let q_mag: i16 = c_mag / d_mag;
    let q: i16 = if (change < 0) == (d < 0) {
        q_mag
    } else {
        -q_mag
    };
    if q > 127 {
        0
    } else {
        q as i8
    }
}

/// A value taken modulo 256, as a byte register keeps it.
pub open spec fn wrap_byte(v: int) -> u8 {
    (v % 256) as u8
}

/// A value taken modulo 256 into the signed byte range.
pub open spec fn wrap_signed(v: int) -> i8 {
    ((v + 128) % 256 - 128) as i8
}

/// A byte read as a signed byte.
pub open spec fn signed_byte(u: u8) -> int {
    if u < 128 {
        u as int
    } else {
        u as int - 256
    }
}

fn wrap_to_byte(v: i16) -> (r: u8)
    requires
        -256 <= v < 512,
    ensures
        r == wrap_byte(v as int),
{
    if v < 0 {
        (v + 256) as u8
    } else if v > 255 {
        (v - 256) as u8
    } else {
        v as u8
    }
}

fn wrap_to_signed(v: i16) -> (r: i8)
    requires
        -384 <= v < 384,
    ensures
        r == wrap_signed(v as int),
{
    if v > 127 {
        (v - 256) as i8
    } else if v < -128 {
        (v + 256) as i8
    } else {
        v as i8
    }
}

/// The line drawn on channel `c` from position `pos` to `end`: each frame is
/// the one before it plus `div`, with `rem` gathered in `error`, which adds
/// (or, for a falling line, takes) one step when it reaches `width`; a value
/// of zero is not raised. Negative positions are skipped and position zero is
/// set to zero.
pub open spec fn interp_rest(
    frames: Seq<Frame>,
    c: Channel,
    width: u8,
    pos: int,
    end: int,
    div: i8,
    rem: u8,
    sign: bool,
    error: u8,
) -> Seq<Frame>
    decreases end - pos,
{
    if pos >= end {
        frames
    } else if pos < 1 {
        interp_rest(
            if pos == 0 {
                channel_written(frames, c, 0, 0)
            } else {
                frames
            },
            c,
            width,
            pos + 1,
            end,
            div,
            rem,
            sign,
            error,
        )
    } else {
        let v0 = channel_at(frames, c, pos - 1) as int + div as int;
        let e1 = ((error as int + rem as int) % 256) as u8;
        let v = if e1 >= width {
            if sign {
                v0 - 1
            } else if v0 != 0 {
                v0 + 1
            } else {
                v0
            }
        } else {
            v0
        };
        let e2 = if e1 >= width {
            (e1 - width) as u8
        } else {
            e1
        };
        interp_rest(channel_written(frames, c, pos, wrap_byte(v)), c, width, pos + 1, end, div, rem, sign, e2)
    }
}

/// Channel `c` after a line of `width` steps that changes it by `change`
/// is drawn from `frame`.
#[verifier::opaque]
pub open spec fn interpolated(frames: Seq<Frame>, c: Channel, width: u8, frame: int, change: i8) -> Seq<Frame> {
    if width == 0 {
        frames
    } else {
        interp_rest(
            frames,
            c,
            width,
            frame + 1,
            frame + width,
            step_quotient(change, width),
            (abs(change as int) % width as int) as u8,
            change < 0,
            0,
        )
    }
}

/// Draw a line on channel `c` over the `width - 1` frames after `frame`.
#[verifier::rlimit(50)]
fn interpolate(frames: &mut Vec<Frame>, c: Channel, width: u8, frame: i64, change: i8)
    requires
        frames_valid(old(frames)@),
        -256 <= frame <= frame_limit(),
    ensures
        final(frames)@ == interpolated(old(frames)@, c, width, frame as int, change),
        frames_valid(final(frames)@),
        final(frames)@.len() >= old(frames)@.len(),
        c != Channel::Pitch ==> final(frames)@.len() == old(frames)@.len(),
{
    reveal(interpolated);
    if width == 0 {
        return;
    }
    let ghost start = frames@;
    let sign = change < 0;
    let magnitude: u8 = if change < 0 {
        (-(change as i16)) as u8
    } else {
        change as u8
    };
    let remainder = magnitude % width;
    assert(remainder < width) by (nonlinear_arith)
        requires
            width > 0,
            remainder == magnitude % width,
    ;
    let div = quotient(change, width);
    let mut error: u8 = 0;
    let end: i64 = frame + width as i64;
    let mut position: i64 = frame + 1;
    let ghost start_len = frames@.len();
    while position < end
        invariant
            frames_valid(frames@),
            frames@.len() >= start_len,
            start_len == start.len(),
            c != Channel::Pitch ==> frames@.len() == start_len,
            end == frame + width,
            width > 0,
            -256 <= frame <= frame_limit(),
            frame + 1 <= position <= end,
            error < width,
            remainder < width,
            remainder == (abs(change as int) % width as int) as u8,
            div == step_quotient(change, width),
            sign == (change < 0),
            interp_rest(frames@, c, width, position as int, end as int, div, remainder, sign, error)
                == interpolated(start, c, width, frame as int, change),
        decreases end - position,
    {
        if position < 1 {
            if position == 0 {
                write_channel(frames, c, 0, 0);
            }
            position += 1;
            continue;
        }
        let prev = read_channel(frames, c, (position - 1) as usize);
        let mut value: i16 = prev as i16 + div as i16;
        error = error.wrapping_add(remainder);
        if error >= width {
            error -= width;
            if sign {
                value -= 1;
            } else if value != 0 {
                value += 1;
            }
        }
        write_channel(frames, c, position as usize, wrap_to_byte(value));
        position += 1;
    }
}

/// The out and in widths used at the boundary between `ph` and `next`: with
/// equal blend ranks each side's own out-width; otherwise the widths of the
/// stronger side (the lower rank), in before out when it is the later one.
pub open spec fn blend_widths(ph: usize, next: usize) -> (u8, u8) {
    if blend_rank(ph) == blend_rank(next) {
        (out_blend_length(ph), out_blend_length(next))
    } else if blend_rank(next) < blend_rank(ph) {
        (in_blend_length(next), out_blend_length(next))
    } else {
        (out_blend_length(ph), in_blend_length(ph))
    }
}

/// The out and in widths used at the boundary between `ph` and `next`.
pub fn transition_widths(ph: usize, next: usize) -> (r: (u8, u8))
    requires
        ph < PHONEME_TABLE_SIZE,
        next < PHONEME_TABLE_SIZE,
    ensures
        r == blend_widths(ph, next),
{
    let rank = blend_rank_at(ph);
    let next_rank = blend_rank_at(next);
    if rank == next_rank {
        (out_blend_length_at(ph), out_blend_length_at(next))
    } else if next_rank < rank {
        (in_blend_length_at(next), out_blend_length_at(next))
    } else {
        (out_blend_length_at(ph), in_blend_length_at(ph))
    }
}

/// The largest frame position whose output sample fits in memory.
pub open spec fn frame_limit() -> int {
    usize::MAX as int / 1764
}

/// A total frame count whose output size fits in memory.
pub open spec fn frames_fit(n: nat) -> bool {
    n * 1764 <= usize::MAX
}

/// The channel blended `k`-th at a boundary: the three formants, then the
/// three amplitudes.
pub open spec fn blended_channel(k: int) -> Channel {
    if k == 0 {
        Channel::F1
    } else if k == 1 {
        Channel::F2
    } else if k == 2 {
        Channel::F3
    } else if k == 3 {
        Channel::A1
    } else if k == 4 {
        Channel::A2
    } else {
        Channel::A3
    }
}

fn blended_channel_at(k: usize) -> (r: Channel)
    ensures
        r == blended_channel(k as int),
{
    if k == 0 {
        Channel::F1
    } else if k == 1 {
        Channel::F2
    } else if k == 2 {
        Channel::F3
    } else if k == 3 {
        Channel::A1
    } else if k == 4 {
        Channel::A2
    } else {
        Channel::A3
    }
}

/// One channel blended over `width` frames from `start`, changing by the
/// difference between the frames at `end` and at `start`.
pub open spec fn channel_blend(frames: Seq<Frame>, c: Channel, start: int, end: int, width: u8) -> Seq<Frame> {
    let change = if start >= 0 {
        wrap_signed(signed_byte(channel_at(frames, c, end)) - signed_byte(channel_at(frames, c, start)))
    } else {
        0
    };
    interpolated(frames, c, width, start, change)
}

/// The first `k` formant and amplitude channels blended.
pub open spec fn channels_blended(frames: Seq<Frame>, k: nat, start: int, end: int, width: u8) -> Seq<Frame>
    decreases k,
{
    if k == 0 {
        frames
    } else {
        channel_blend(channels_blended(frames, (k - 1) as nat, start, end, width), blended_channel(k - 1), start, end, width)
    }
}

/// The blend at the boundary after event `position`, which ends at frame
/// `boundary`: the pitch is drawn between the middles of the two events,
/// then, when the blend ends inside the frames, the formants and amplitudes
/// over the out and in widths around the boundary.
pub open spec fn transition_at(frames: Seq<Frame>, s: Seq<Phoneme>, position: int, boundary: int) -> Seq<Frame> {
    let ph = s[position];
    let next = s[position + 1];
    let widths = blend_widths(ph.index, next.index);
    let trans_end = boundary + widths.1;
    let trans_start = boundary - widths.0;
    let trans_length = ((widths.0 + widths.1) % 256) as u8;
    if (trans_length as int - 2) % 256 < 128 {
        let cur_width = ph.length / 2;
        let next_width = next.length / 2;
        let change = wrap_signed(
            channel_at(frames, Channel::Pitch, boundary + next_width) - channel_at(
                frames,
                Channel::Pitch,
                boundary - cur_width,
            ),
        );
        let pitched = interpolated(frames, Channel::Pitch, (cur_width + next_width) as u8, trans_start, change);
        if trans_end < pitched.len() {
            channels_blended(pitched, 6, trans_start, trans_end, trans_length)
        } else {
            pitched
        }
    } else {
        frames
    }
}

/// The blends at the first `k` boundaries.
pub open spec fn transitions_upto(frames: Seq<Frame>, s: Seq<Phoneme>, k: nat) -> Seq<Frame>
    decreases k,
{
    if k == 0 {
        frames
    } else {
        transition_at(transitions_upto(frames, s, (k - 1) as nat), s, k - 1, total_length(s.subrange(0, k as int)) as int)
    }
}

/// The frames blended at every boundary between adjacent events.
pub open spec fn blended(frames: Seq<Frame>, s: Seq<Phoneme>) -> Seq<Frame> {
    if s.len() == 0 {
        frames
    } else {
        transitions_upto(frames, s, (s.len() - 1) as nat)
    }
}

/// Blend the formant and amplitude channels over `width` frames from `start`
/// (see `channels_blended`).
fn blend_channels(frames: &mut Vec<Frame>, trans_start: i64, trans_end: usize, trans_length: u8)
    requires
        frames_valid(old(frames)@),
        trans_end < old(frames)@.len(),
        trans_start <= trans_end,
        -256 <= trans_start <= frame_limit(),
    ensures
        final(frames)@ == channels_blended(old(frames)@, 6, trans_start as int, trans_end as int, trans_length),
        final(frames)@.len() == old(frames)@.len(),
        frames_valid(final(frames)@),
{
    let ghost pitched = frames@;
    let mut k: usize = 0;
    while k < 6
        invariant
            k <= 6,
            frames_valid(frames@),
            frames@.len() == pitched.len(),
            trans_end < frames@.len(),
            trans_start <= trans_end,
            -256 <= trans_start <= frame_limit(),
            frames@ == channels_blended(pitched, k as nat, trans_start as int, trans_end as int, trans_length),
        decreases 6 - k,
    {
        let c = blended_channel_at(k);
        let change: i8 = if trans_start >= 0 {
            let to = read_channel(frames, c, trans_end);
            let from = read_channel(frames, c, trans_start as usize);
            let to_signed: i16 = if to < 128 {
                to as i16
            } else {
                to as i16 - 256
            };
            let from_signed: i16 = if from < 128 {
                from as i16
            } else {
                from as i16 - 256
            };
            wrap_to_signed(to_signed - from_signed)
        } else {
            0
        };
        interpolate(frames, c, trans_length, trans_start, change);
        k += 1;
    }
}

/// The blend at the boundary after event `position`, which ends at frame
/// `boundary` (see `transition_at`).
#[verifier::rlimit(100)]
fn apply_transition(frames: &mut Vec<Frame>, phonemes: &[Phoneme], position: usize, boundary: usize)
    requires
        renderable(phonemes@),
        position + 1 < phonemes@.len(),
        phonemes@[position as int].length <= boundary,
        boundary <= total_length(phonemes@),
        old(frames)@.len() >= total_length(phonemes@),
        frames_fit(total_length(phonemes@)),
        frames_valid(old(frames)@),
    ensures
        final(frames)@ == transition_at(old(frames)@, phonemes@, position as int, boundary as int),
        final(frames)@.len() >= old(frames)@.len(),
        frames_valid(final(frames)@),
{
    let ph = phonemes[position];
    let next = phonemes[position + 1];
    let (out_frames, in_frames) = transition_widths(ph.index, next.index);
    let trans_end: usize = boundary + in_frames as usize;
    let trans_start: i64 = boundary as i64 - out_frames as i64;
    let trans_length: u8 = out_frames.wrapping_add(in_frames);
    if trans_length.wrapping_sub(2) < 128 {
        let cur_width = ph.length / 2;
        let next_width = next.length / 2;
        let high = read_channel(frames, Channel::Pitch, boundary + next_width as usize);
        let low = read_channel(frames, Channel::Pitch, boundary - cur_width as usize);
        let pitch_change = wrap_to_signed(high as i16 - low as i16);
        interpolate(frames, Channel::Pitch, cur_width + next_width, trans_start, pitch_change);
        if trans_end < frames.len() {
            blend_channels(frames, trans_start, trans_end, trans_length);
        }
    }
}

/// Blend the frames at each boundary between adjacent events; returns the
/// number of frames the events span.
#[verifier::rlimit(50)]
fn create_transitions(frames: &mut Vec<Frame>, phonemes: &[Phoneme]) -> (r: usize)
    requires
        renderable(phonemes@),
        phonemes@.len() >= 1,
        old(frames)@.len() >= total_length(phonemes@),
        frames_fit(total_length(phonemes@)),
        frames_valid(old(frames)@),
    ensures
        r == total_length(phonemes@),
        final(frames)@ == blended(old(frames)@, phonemes@),
        final(frames)@.len() >= r,
        frames_valid(final(frames)@),
{
    let ghost start = frames@;
    let n = phonemes.len();
    let mut boundary: usize = 0;
    let mut position: usize = 0;
    assert(phonemes@.subrange(0, 0) =~= Seq::<Phoneme>::empty());
    while position + 1 < n
        invariant
            n == phonemes@.len(),
            n >= 1,
            position < n,
            renderable(phonemes@),
            boundary == total_length(phonemes@.subrange(0, position as int)),
            frames@.len() >= total_length(phonemes@),
            frames_fit(total_length(phonemes@)),
            frames_valid(frames@),
            frames@ == transitions_upto(start, phonemes@, position as nat),
        decreases n - position,
    {
        proof {
            lemma_total_length_prefix(phonemes@, position as int);
        }
        let ph = phonemes[position];
        boundary = boundary + ph.length as usize;
        apply_transition(frames, phonemes, position, boundary);
        position += 1;
        assert(frames@ == transitions_upto(start, phonemes@, position as nat));
    }
    proof {
        lemma_total_length_prefix(phonemes@, position as int);
        assert(phonemes@.subrange(0, position + 1) =~= phonemes@);
    }
    boundary + phonemes[n - 1].length as usize
}
// ---------------------------------------------------------------- preparing

/// Frames ready for synthesis, with the number of frames the events span.
pub struct PreparedFrames {
    pub frame_count: usize,
    pub frames: Vec<Frame>,
}

/// An amplitude level mapped to the linear scale (levels above 15 count as 15).
pub open spec fn rescaled(level: u8) -> u8 {
    if level < 16 {
        amplitude_rescale(level as usize)
    } else {
        amplitude_rescale(15)
    }
}

/// A blended frame made ready for synthesis: outside sing mode the pitch
/// drops by half of formant 1 (not below zero), and the amplitudes are
/// rescaled.
pub open spec fn finished_frame(f: Frame, sing_mode: bool) -> Frame {
    Frame {
        pitch: if sing_mode {
            f.pitch
        } else if f.pitch >= f.f1 / 2 {
            (f.pitch - f.f1 / 2) as u8
        } else {
            0
        },
        a1: rescaled(f.a1),
        a2: rescaled(f.a2),
        a3: rescaled(f.a3),
        ..f
    }
}

/// The frames that drive the synthesizer.
pub open spec fn prepared(s: Seq<Phoneme>, pitch: u8, mouth: u8, throat: u8, sing_mode: bool) -> Seq<Frame> {
    let raw = frames_upto(pitch, s, tract_table1(mouth), tract_table2(throat), formant3_table(), s.len());
    let b = blended(raw, s);
    Seq::new(b.len(), |i: int| finished_frame(b[i], sing_mode))
}

fn rescale(level: u8) -> (r: u8)
    ensures
        r == rescaled(level),
{
    if level < 16 {
        amplitude_rescale_at(level as usize)
    } else {
        amplitude_rescale_at(15)
    }
}

/// Build the frames of the events, blend them at each boundary, apply the
/// pitch contour outside sing mode and rescale the amplitudes.
fn prepare_frames(phonemes: &[Phoneme], pitch: u8, mouth: u8, throat: u8, sing_mode: bool) -> (r: PreparedFrames)
    requires
        renderable(phonemes@),
        phonemes@.len() >= 1,
        frames_fit(total_length(phonemes@)),
    ensures
        r.frame_count == total_length(phonemes@),
        r.frames@ == prepared(phonemes@, pitch, mouth, throat, sing_mode),
        r.frames@.len() >= r.frame_count,
        frames_valid(r.frames@),
{
    let frequency_data = set_mouth_and_throat(mouth, throat);
    let mut frames = create_frames(pitch, phonemes, &frequency_data);
    let frame_count = create_transitions(&mut frames, phonemes);
    let ghost b = frames@;
    let n = frames.len();
    let mut i: usize = 0;
    while i < n
        invariant
            n == frames@.len(),
            n == b.len(),
            i <= n,
            frames_valid(frames@),
            forall|j: int| 0 <= j < i ==> #[trigger] frames@[j] == finished_frame(b[j], sing_mode),
            forall|j: int| i <= j < n ==> #[trigger] frames@[j] == b[j],
        decreases n - i,
    {
        let f = frames[i];
        let contour = if sing_mode {
            f.pitch
        } else {
            f.pitch.saturating_sub(f.f1 / 2)
        };
        frames.set(
            i,
            Frame { pitch: contour, a1: rescale(f.a1), a2: rescale(f.a2), a3: rescale(f.a3), ..f },
        );
        i += 1;
    }
    assert(frames@ =~= prepared(phonemes@, pitch, mouth, throat, sing_mode));
    PreparedFrames { frame_count, frames }
}

// ---------------------------------------------------------------- output

/// Position steps of the output clock, by the kind of the last write and the
/// kind of this one (formant synthesis, two unvoiced and two voiced sample
/// kinds).
pub open spec fn timetable(from: usize, to: usize) -> u8 {
    match (from, to) {
        (0, 0) => 162,
        (0, 1) => 167,
        (0, 2) => 167,
        (0, 3) => 127,
        (0, 4) => 128,
        (1, 0) => 226,
        (1, 1) => 60,
        (1, 2) => 60,
        (1, 3) => 0,
        (1, 4) => 0,
        (2, 0) => 225,
        (2, 1) => 60,
        (2, 2) => 59,
        (2, 3) => 0,
        (2, 4) => 0,
        (3, 0) => 200,
        (3, 1) => 0,
        (3, 2) => 0,
        (3, 3) => 54,
        (3, 4) => 55,
        (4, 0) => 199,
        (4, 1) => 0,
        (4, 2) => 0,
        (4, 3) => 54,
        (4, 4) => 54,
        _ => 0,
    }
}

fn timetable_at(from: usize, to: usize) -> (r: u8)
    requires
        from < 5,
        to < 5,
    ensures
        r == timetable(from, to),
{
    match (from, to) {
        (0, 0) => 162,
        (0, 1) => 167,
        (0, 2) => 167,
        (0, 3) => 127,
        (0, 4) => 128,
        (1, 0) => 226,
        (1, 1) => 60,
        (1, 2) => 60,
        (1, 3) => 0,
        (1, 4) => 0,
        (2, 0) => 225,
        (2, 1) => 60,
        (2, 2) => 59,
        (2, 3) => 0,
        (2, 4) => 0,
        (3, 0) => 200,
        (3, 1) => 0,
        (3, 2) => 0,
        (3, 3) => 54,
        (3, 4) => 55,
        (4, 0) => 199,
        (4, 1) => 0,
        (4, 2) => 0,
        (4, 3) => 54,
        (4, 4) => 54,
        _ => 0,
    }
}

/// The sample buffer with its clock: a position in fiftieths of a sample and
/// the kind of the last write.
pub struct OutputBuffer {
    pub buffer: Vec<u8>,
    pub position: usize,
    pub old_timetable_index: usize,
}

/// The mathematical content of an output buffer.
pub struct Clock {
    pub buffer: Seq<u8>,
    pub position: int,
    pub kind: int,
}

/// The clock advanced by a write of kind `index`, with five samples written
/// from its new position on (those past the end are dropped).
pub open spec fn advanced(ck: Clock, index: int, samples: Seq<u8>) -> Clock {
    let p = ck.position + timetable(ck.kind as usize, index as usize);
    let q = if p > usize::MAX {
        usize::MAX as int
    } else {
        p
    };
    let base = q / 50;
    Clock {
        buffer: Seq::new(
            ck.buffer.len(),
            |i: int|
                if base <= i < base + 5 {
                    samples[i - base]
                } else {
                    ck.buffer[i]
                },
        ),
        position: q,
        kind: index,
    }
}

/// Five copies of the low nibble of `a`, scaled by 16, written as kind `index`.
pub open spec fn written(ck: Clock, index: int, a: u8) -> Clock {
    let v = ((a % 16) * 16) as u8;
    advanced(ck, index, seq![v, v, v, v, v])
}

impl OutputBuffer {
    pub open spec fn wf(&self) -> bool {
        self.old_timetable_index < 5
    }

    pub open spec fn clock(&self) -> Clock {
        Clock { buffer: self.buffer@, position: self.position as int, kind: self.old_timetable_index as int }
    }

    /// A silent buffer of `size` samples.
    pub fn new(size: usize) -> (r: Self)
        ensures
            r.wf(),
            r.clock() == silent_clock(size as nat),
    {
        let mut buffer: Vec<u8> = Vec::new();
        let mut i: usize = 0;
        while i < size
            invariant
                i <= size,
                buffer@ == Seq::new(i as nat, |j: int| 0u8),
            decreases size - i,
        {
            buffer.push(0);
            i += 1;
            assert(buffer@ =~= Seq::new(i as nat, |j: int| 0u8));
        }
        OutputBuffer { buffer, position: 0, old_timetable_index: 0 }
    }

    /// Advance the clock by the step from the last kind of write to `index`,
    /// then write five samples from there on (those past the end are dropped).
    pub fn ary(&mut self, index: usize, array: [u8; 5])
        requires
            old(self).wf(),
            index < 5,
        ensures
            final(self).wf(),
            final(self).clock() == advanced(old(self).clock(), index as int, array@),
            final(self).buffer@.len() == old(self).buffer@.len(),
    {
        let ghost ck = self.clock();
        let step = timetable_at(self.old_timetable_index, index);
        self.position = self.position.saturating_add(step as usize);
        self.old_timetable_index = index;
        let base = self.position / 50;
        let ghost old_buffer = ck.buffer;
        let ghost new_position = self.position;
        let mut k: usize = 0;
        while k < 5
            invariant
                self.wf(),
                self.old_timetable_index == index,
                self.position == new_position,
                k <= 5,
                base == self.position / 50,
                base <= usize::MAX / 50,
                self.buffer@ == Seq::new(
                    old_buffer.len(),
                    |i: int|
                        if base <= i < base + k {
                            array@[i - base]
                        } else {
                            old_buffer[i]
                        },
                ),
            decreases 5 - k,
        {
            let at = base + k;
            if at < self.buffer.len() {
                self.buffer.set(at, array[k]);
            }
            k += 1;
            assert(self.buffer@ =~= Seq::new(
                old_buffer.len(),
                |i: int|
                    if base <= i < base + k {
                        array@[i - base]
                    } else {
                        old_buffer[i]
                    },
            ));
        }
        let ghost target = advanced(ck, index as int, array@);
        assert(self.buffer@ =~= target.buffer);
        assert(self.position as int == target.position);
    }

    /// Write the low nibble of `a`, scaled by 16, five times.
    pub fn write(&mut self, index: usize, a: u8)
        requires
            old(self).wf(),
            index < 5,
        ensures
            final(self).wf(),
            final(self).clock() == written(old(self).clock(), index as int, a),
            final(self).buffer@.len() == old(self).buffer@.len(),
    {
        let scaled = (a % 16) * 16;
        let array = [scaled, scaled, scaled, scaled, scaled];
        assert(array@ =~= seq![scaled, scaled, scaled, scaled, scaled]);
        self.ary(index, array);
    }
}

/// A silent buffer of `size` samples with its clock at zero.
pub open spec fn silent_clock(size: nat) -> Clock {
    Clock { buffer: Seq::new(size, |i: int| 0u8), position: 0, kind: 0 }
}

// ---------------------------------------------------------------- samples

/// The bits of `sample` from the top, `bit` of them left: a one bit writes
/// `value1` as kind `index1`, a zero bit `value0` as kind `index0`.
pub open spec fn bits_played(ck: Clock, sample: u8, bit: nat, index1: int, value1: u8, index0: int, value0: u8) -> Clock
    decreases bit,
{
    if bit == 0 {
        ck
    } else {
        let next = if sample >= 128 {
            written(ck, index1, value1)
        } else {
            written(ck, index0, value0)
        };
        bits_played(next, ((sample as int * 2) % 256) as u8, (bit - 1) as nat, index1, value1, index0, value0)
    }
}

/// `count` noise bytes of page `page` played from offset `off` on, the
/// offset wrapping within the page.
pub open spec fn burst(ck: Clock, page: int, off: int, count: nat, index1: int, value1: u8, index0: int, value0: u8) -> Clock
    decreases count,
{
    if count == 0 {
        ck
    } else {
        burst(
            bits_played(ck, noise_sample((page + off) as usize), 8, index1, value1, index0, value0),
            page,
            (off + 1) % 256,
            (count - 1) as nat,
            index1,
            value1,
            index0,
            value0,
        )
    }
}

/// A sampled consonant played, and the offset a voiced burst continues from.
/// A voiced one (high flag bits zero) plays `pitch / 16 + 1` bytes from where
/// the last voiced burst stopped; an unvoiced one plays from its own offset
/// to the end of its page.
pub open spec fn sample_played(ck: Clock, last: int, flag: u8, pitch: u8) -> (Clock, int) {
    let kind = flag % 8 - 1;
    let page = kind * 256;
    let high = flag - flag % 8;
    if high == 0 {
        let n = pitch / 16 + 1;
        (burst(ck, page, last % 256, n as nat, 3, 26, 4, 6), (last % 256 + n) % 256)
    } else {
        (
            burst(ck, page, 255 - high, (high + 1) as nat, 2, 5, 1, sampled_consonant_low_value(kind as usize)),
            last,
        )
    }
}

/// Play the eight bits of one noise byte.
fn render_sample_inner(
    output: &mut OutputBuffer,
    sample_page: usize,
    off: u8,
    index1: usize,
    value1: u8,
    index0: usize,
    value0: u8,
)
    requires
        old(output).wf(),
        sample_page <= 1024,
        index1 < 5,
        index0 < 5,
    ensures
        final(output).wf(),
        final(output).buffer@.len() == old(output).buffer@.len(),
        final(output).clock() == bits_played(
            old(output).clock(),
            noise_sample((sample_page + off) as usize),
            8,
            index1 as int,
            value1,
            index0 as int,
            value0,
        ),
{
    let ghost target = bits_played(
        output.clock(),
        noise_sample((sample_page + off) as usize),
        8,
        index1 as int,
        value1,
        index0 as int,
        value0,
    );
    let mut sample = noise_sample_at(sample_page + off as usize);
    let mut bit: u8 = 8;
    while bit > 0
        invariant
            output.wf(),
            output.buffer@.len() == old(output).buffer@.len(),
            index1 < 5,
            index0 < 5,
            bits_played(output.clock(), sample, bit as nat, index1 as int, value1, index0 as int, value0)
                == target,
        decreases bit,
    {
        if sample >= 128 {
            output.write(index1, value1);
        } else {
            output.write(index0, value0);
        }
        sample = ((sample as u16 * 2) % 256) as u8;
        bit -= 1;
    }
}

/// Play a sampled consonant (see `sample_played`).
fn render_sample(output: &mut OutputBuffer, last_sample_offset: usize, consonant_flag: u8, pitch: u8) -> (r: usize)
    requires
        old(output).wf(),
        valid_sample_flag(consonant_flag),
        consonant_flag != 0,
    ensures
        final(output).wf(),
        final(output).buffer@.len() == old(output).buffer@.len(),
        (final(output).clock(), r as int) == sample_played(
            old(output).clock(),
            last_sample_offset as int,
            consonant_flag,
            pitch,
        ),
{
    let ghost played = sample_played(output.clock(), last_sample_offset as int, consonant_flag, pitch);
    let kind = consonant_flag % 8 - 1;
    let sample_page: usize = kind as usize * 256;
    let high: u8 = consonant_flag - consonant_flag % 8;
    if high == 0 {
        let n: u8 = pitch / 16 + 1;
        let mut off: u8 = (last_sample_offset % 256) as u8;
        let mut i: u8 = 0;
        while i < n
            invariant
                output.wf(),
                output.buffer@.len() == old(output).buffer@.len(),
                sample_page <= 1024,
                i <= n,
                n == pitch / 16 + 1,
                off == (last_sample_offset % 256 + i) % 256,
                burst(output.clock(), sample_page as int, off as int, (n - i) as nat, 3, 26, 4, 6)
                    == played.0,
                played.1 == (last_sample_offset % 256 + n) % 256,
            decreases n - i,
        {
            render_sample_inner(output, sample_page, off, 3, 26, 4, 6);
            off = off.wrapping_add(1);
            i += 1;
        }
        return off as usize;
    }
    let value0 = sampled_consonant_low_value_at(kind as usize);
    let mut off: u8 = 255 - high;
    let mut remaining: u16 = high as u16 + 1;
    while remaining > 0
        invariant
            output.wf(),
            output.buffer@.len() == old(output).buffer@.len(),
            sample_page <= 1024,
            remaining <= 256,
            remaining > 0 ==> off as int == 256 - remaining,
            burst(output.clock(), sample_page as int, off as int, remaining as nat, 2, 5, 1, value0)
                == played.0,
            played.1 == last_sample_offset,
        decreases remaining,
    {
        render_sample_inner(output, sample_page, off, 2, 5, 1, value0);
        off = off.wrapping_add(1);
        remaining -= 1;
    }
    last_sample_offset
}

proof fn lemma_oscillator_product(x: int, y: int)
    requires
        -128 <= x <= 127,
        0 <= y <= 15,
    ensures
        -1920 <= x * y <= 1905,
{
    assert(-1920 <= x * y <= 1905) by (nonlinear_arith)
        requires
            -128 <= x <= 127,
            0 <= y <= 15,
    ;
}

/// One sample of the formant oscillators at phases `p1`, `p2`, `p3` (in
/// 256ths): two sines and a rectangle wave, each weighted by the low nibble
/// of its amplitude, summed, divided by 32 and kept to a byte.
#[verifier::opaque]
pub open spec fn oscillator(p1: u32, p2: u32, p3: u32, f: Frame) -> u8 {
    let sp1 = sine(((p1 / 256) % 256) as usize) as int;
    let sp2 = sine(((p2 / 256) % 256) as usize) as int;
    let rp3: int = if (p3 / 256) % 256 < 129 {
        -0x70
    } else {
        0x70
    };
    let sum = sp1 * (f.a1 % 16) + sp2 * (f.a2 % 16) + rp3 * (f.a3 % 16) + 4096;
    let mix = if sum >= 0 {
        sum / 32
    } else {
        -((-sum) / 32)
    };
    wrap_byte(mix)
}

fn oscillator_sample(p1: u32, p2: u32, p3: u32, frame: Frame) -> (r: u8)
    ensures
        r == oscillator(p1, p2, p3, frame),
{
    reveal(oscillator);
    let sp1 = sine_at(((p1 / 256) % 256) as usize) as i32;
    let sp2 = sine_at(((p2 / 256) % 256) as usize) as i32;
    let rp3: i32 = if (p3 / 256) % 256 < 129 {
        -0x70
    } else {
        0x70
    };
    let w1 = (frame.a1 % 16) as i32;
    let w2 = (frame.a2 % 16) as i32;
    let w3 = (frame.a3 % 16) as i32;
    proof {
        lemma_oscillator_product(sp1 as int, w1 as int);
        lemma_oscillator_product(sp2 as int, w2 as int);
        lemma_oscillator_product(rp3 as int, w3 as int);
    }
    let sum: i32 = sp1 * w1 + sp2 * w2 + rp3 * w3 + 4096;
    let mix: i32 = if sum >= 0 {
        sum / 32
    } else {
        -((-sum) / 32)
    };
    if mix < 0 {
        (mix + 256) as u8
    } else if mix > 255 {
        (mix - 256) as u8
    } else {
        mix as u8
    }
}

/// A value taken modulo 2^32.
pub open spec fn wrap32(v: int) -> u32 {
    (v % 0x1_0000_0000) as u32
}

/// The synthesizer's registers between two ticks.
#[derive(Clone, Copy)]
pub struct Synth {
    pub pos: usize,
    pub frame_count: usize,
    pub speed_counter: u8,
    pub phase1: u32,
    pub phase2: u32,
    pub phase3: u32,
    pub glottal_pulse: i32,
    pub mem38: i32,
    pub last_sample_offset: usize,
}

/// The five samples of one formant tick from frame `f`: the oscillators
/// start at the registers' phases (in 256ths) and advance by a quarter of
/// each formant frequency per sample.
pub open spec fn tick_samples(st: Synth, f: Frame) -> Seq<u8> {
    let d1 = f.f1 * 64;
    let d2 = f.f2 * 64;
    let d3 = f.f3 * 64;
    let a1 = wrap32(st.phase1 * 256);
    let a2 = wrap32(st.phase2 * 256);
    let a3 = wrap32(st.phase3 * 256);
    let b1 = wrap32(a1 + d1);
    let b2 = wrap32(a2 + d2);
    let b3 = wrap32(a3 + d3);
    let c1 = wrap32(b1 + d1);
    let c2 = wrap32(b2 + d2);
    let c3 = wrap32(b3 + d3);
    let e1 = wrap32(c1 + d1);
    let e2 = wrap32(c2 + d2);
    let e3 = wrap32(c3 + d3);
    let g1 = wrap32(e1 + d1);
    let g2 = wrap32(e2 + d2);
    let g3 = wrap32(e3 + d3);
    seq![
        oscillator(a1, a2, a3, f),
        oscillator(b1, b2, b3, f),
        oscillator(c1, c2, c3, f),
        oscillator(e1, e2, e3, f),
        oscillator(g1, g2, g3, f),
    ]
}

/// After a glottal pulse ends (or a sample was played), the pulse restarts
/// from the current frame's pitch and the oscillators from phase zero.
pub open spec fn pulse_restarted(st: Synth, frames: Seq<Frame>) -> Synth {
    if st.frame_count == 0 {
        st
    } else {
        let g = frames[st.pos as int].pitch as i32;
        Synth {
            glottal_pulse: g,
            mem38: if g > 0 {
                (g * 3 / 4) as i32
            } else {
                st.mem38
            },
            phase1: 0,
            phase2: 0,
            phase3: 0,
            ..st
        }
    }
}

/// One step of the synthesizer. A frame with high sampled-consonant bits
/// plays its sample and skips two frames. Otherwise one formant tick is
/// written; every `speed` ticks the next frame is taken; the glottal pulse
/// counts down, and in its last quarter a voiced sampled consonant plays;
/// when it ends it restarts from the frame's pitch.
pub open spec fn synth_step(ck: Clock, st: Synth, frames: Seq<Frame>, speed: u8) -> (Clock, Synth) {
    let flags = frames[st.pos as int].sampled_consonant_flag;
    if flags / 8 != 0 {
        sampled_step(ck, st, frames, speed)
    } else {
        pulse_step(advanced(ck, 0, tick_samples(st, frames[st.pos as int])), st, frames, speed)
    }
}

/// A frame with high sampled-consonant bits plays its sample and skips two
/// frames.
pub open spec fn sampled_step(ck: Clock, st: Synth, frames: Seq<Frame>, speed: u8) -> (Clock, Synth) {
    let flags = frames[st.pos as int].sampled_consonant_flag;
    let played = sample_played(ck, st.last_sample_offset as int, flags, frames[(st.pos % 256) as int].pitch);
    let moved = if st.frame_count >= 2 {
        Synth { pos: (st.pos + 2) as usize, frame_count: (st.frame_count - 2) as usize, ..st }
    } else {
        Synth { frame_count: 0, ..st }
    };
    (
        played.0,
        pulse_restarted(Synth { speed_counter: speed, last_sample_offset: played.1 as usize, ..moved }, frames),
    )
}

/// After a formant tick: the speed counter, the frame, and the glottal pulse.
pub open spec fn pulse_step(ck1: Clock, st: Synth, frames: Seq<Frame>, speed: u8) -> (Clock, Synth) {
    let flags = frames[st.pos as int].sampled_consonant_flag;
    let sc = (st.speed_counter - 1) as u8;
    if sc == 0 && st.frame_count == 1 {
        (ck1, Synth { pos: (st.pos + 1) as usize, frame_count: 0, speed_counter: 0, ..st })
    } else {
        let st1 = if sc == 0 {
            Synth {
                pos: (st.pos + 1) as usize,
                frame_count: (st.frame_count - 1) as usize,
                speed_counter: speed,
                ..st
            }
        } else {
            Synth { speed_counter: sc, ..st }
        };
        let g: i32 = if st1.glottal_pulse > 0 {
            (st1.glottal_pulse - 1) as i32
        } else {
            -1i32
        };
        if g != 0 {
            let m: i32 = if st1.mem38 > 0 {
                (st1.mem38 - 1) as i32
            } else {
                -1i32
            };
            if m != 0 || flags == 0 {
                let cur = frames[st1.pos as int];
                (
                    ck1,
                    Synth {
                        glottal_pulse: g,
                        mem38: m,
                        phase1: wrap32(st1.phase1 + cur.f1),
                        phase2: wrap32(st1.phase2 + cur.f2),
                        phase3: wrap32(st1.phase3 + cur.f3),
                        ..st1
                    },
                )
            } else {
                let played = sample_played(
                    ck1,
                    st1.last_sample_offset as int,
                    flags,
                    frames[(st1.pos % 256) as int].pitch,
                );
                (
                    played.0,
                    pulse_restarted(
                        Synth { glottal_pulse: g, mem38: m, last_sample_offset: played.1 as usize, ..st1 },
                        frames,
                    ),
                )
            }
        } else {
            (ck1, pulse_restarted(Synth { glottal_pulse: g, ..st1 }, frames))
        }
    }
}

/// The registers the synthesizer can run from.
pub open spec fn runnable(st: Synth, frames: Seq<Frame>, speed: u8) -> bool {
    &&& speed >= 1
    &&& st.speed_counter >= 1
    &&& st.pos + st.frame_count <= frames.len()
    &&& -1 <= st.glottal_pulse <= 255
    &&& -1 <= st.mem38 <= 255
    &&& frames_valid(frames)
    &&& frames.len() <= usize::MAX
}

/// The synthesizer run until no frame is left.
pub open spec fn synth_run(ck: Clock, st: Synth, frames: Seq<Frame>, speed: u8) -> Clock
    decreases st.frame_count, st.speed_counter,
    via synth_run_decreases
{
    if st.frame_count == 0 || !runnable(st, frames, speed) {
        ck
    } else {
        let next = synth_step(ck, st, frames, speed);
        synth_run(next.0, next.1, frames, speed)
    }
}

#[via_fn]
proof fn synth_run_decreases(ck: Clock, st: Synth, frames: Seq<Frame>, speed: u8) {
}

/// The registers at the start: the first frame's pitch starts the glottal
/// pulse.
pub open spec fn initial_synth(frames: Seq<Frame>, frame_count: usize, speed: u8) -> Synth {
    let g = frames[0].pitch as i32;
    Synth {
        pos: 0,
        frame_count,
        speed_counter: speed,
        phase1: 0,
        phase2: 0,
        phase3: 0,
        glottal_pulse: g,
        mem38: (g * 3 / 4) as i32,
        last_sample_offset: 0,
    }
}

/// One step of the synthesizer (see `synth_step`).
fn synth_tick(output: &mut OutputBuffer, frames: &Vec<Frame>, speed: u8, st: Synth) -> (r: Synth)
    requires
        old(output).wf(),
        st.frame_count > 0,
        runnable(st, frames@, speed),
    ensures
        final(output).wf(),
        final(output).buffer@.len() == old(output).buffer@.len(),
        (final(output).clock(), r) == synth_step(old(output).clock(), st, frames@, speed),
        r.frame_count > 0 ==> runnable(r, frames@, speed),
{
    let flags = frames[st.pos].sampled_consonant_flag;
    if flags / 8 != 0 {
        sampled_tick(output, frames, speed, st)
    } else {
        formant_tick(output, frames, st);
        pulse_tick(output, frames, speed, st)
    }
}

/// Play the sample of the current frame (see `sampled_step`).
fn sampled_tick(output: &mut OutputBuffer, frames: &Vec<Frame>, speed: u8, st: Synth) -> (r: Synth)
    requires
        old(output).wf(),
        st.frame_count > 0,
        runnable(st, frames@, speed),
        frames@[st.pos as int].sampled_consonant_flag / 8 != 0,
    ensures
        final(output).wf(),
        final(output).buffer@.len() == old(output).buffer@.len(),
        (final(output).clock(), r) == sampled_step(old(output).clock(), st, frames@, speed),
        r.frame_count > 0 ==> runnable(r, frames@, speed),
{
    let flags = frames[st.pos].sampled_consonant_flag;
    let last = render_sample(output, st.last_sample_offset, flags, frames[st.pos % 256].pitch);
    let moved = if st.frame_count >= 2 {
        Synth { pos: st.pos + 2, frame_count: st.frame_count - 2, ..st }
    } else {
        Synth { frame_count: 0, ..st }
    };
    restart_pulse(Synth { speed_counter: speed, last_sample_offset: last, ..moved }, frames)
}

/// Write one formant tick from the current frame.
#[verifier::rlimit(50)]
fn formant_tick(output: &mut OutputBuffer, frames: &Vec<Frame>, st: Synth)
    requires
        old(output).wf(),
        st.pos < frames@.len(),
    ensures
        final(output).wf(),
        final(output).buffer@.len() == old(output).buffer@.len(),
        final(output).clock() == advanced(old(output).clock(), 0, tick_samples(st, frames@[st.pos as int])),
{
    let frame = frames[st.pos];
    let d1: u64 = frame.f1 as u64 * 64;
    let d2: u64 = frame.f2 as u64 * 64;
    let d3: u64 = frame.f3 as u64 * 64;
    let a1 = ((st.phase1 as u64 * 256) % 0x1_0000_0000) as u32;
    let a2 = ((st.phase2 as u64 * 256) % 0x1_0000_0000) as u32;
    let a3 = ((st.phase3 as u64 * 256) % 0x1_0000_0000) as u32;
    let b1 = ((a1 as u64 + d1) % 0x1_0000_0000) as u32;
    let b2 = ((a2 as u64 + d2) % 0x1_0000_0000) as u32;
    let b3 = ((a3 as u64 + d3) % 0x1_0000_0000) as u32;
    let c1 = ((b1 as u64 + d1) % 0x1_0000_0000) as u32;
    let c2 = ((b2 as u64 + d2) % 0x1_0000_0000) as u32;
    let c3 = ((b3 as u64 + d3) % 0x1_0000_0000) as u32;
    let e1 = ((c1 as u64 + d1) % 0x1_0000_0000) as u32;
    let e2 = ((c2 as u64 + d2) % 0x1_0000_0000) as u32;
    let e3 = ((c3 as u64 + d3) % 0x1_0000_0000) as u32;
    let g1 = ((e1 as u64 + d1) % 0x1_0000_0000) as u32;
    let g2 = ((e2 as u64 + d2) % 0x1_0000_0000) as u32;
    let g3 = ((e3 as u64 + d3) % 0x1_0000_0000) as u32;
    let samples = [
        oscillator_sample(a1, a2, a3, frame),
        oscillator_sample(b1, b2, b3, frame),
        oscillator_sample(c1, c2, c3, frame),
        oscillator_sample(e1, e2, e3, frame),
        oscillator_sample(g1, g2, g3, frame),
    ];
    proof {
        assert(samples@ =~= tick_samples(st, frame));
    }
    output.ary(0, samples);
}

/// The speed counter, frame and glottal pulse after a formant tick (see
/// `pulse_step`).
#[verifier::rlimit(50)]
fn pulse_tick(output: &mut OutputBuffer, frames: &Vec<Frame>, speed: u8, st: Synth) -> (r: Synth)
    requires
        old(output).wf(),
        st.frame_count > 0,
        runnable(st, frames@, speed),
        frames@[st.pos as int].sampled_consonant_flag / 8 == 0,
    ensures
        final(output).wf(),
        final(output).buffer@.len() == old(output).buffer@.len(),
        (final(output).clock(), r) == pulse_step(old(output).clock(), st, frames@, speed),
        r.frame_count > 0 ==> runnable(r, frames@, speed),
{
    let flags = frames[st.pos].sampled_consonant_flag;
    let sc = st.speed_counter - 1;
    if sc == 0 && st.frame_count == 1 {
        return Synth { pos: st.pos + 1, frame_count: 0, speed_counter: 0, ..st };
    }
    let st1 = if sc == 0 {
        Synth { pos: st.pos + 1, frame_count: st.frame_count - 1, speed_counter: speed, ..st }
    } else {
        Synth { speed_counter: sc, ..st }
    };
    // Past zero the pulse counters only need to stay non-zero.
    let g: i32 = if st1.glottal_pulse > 0 {
        st1.glottal_pulse - 1
    } else {
        -1
    };
    if g != 0 {
        let m: i32 = if st1.mem38 > 0 {
            st1.mem38 - 1
        } else {
            -1
        };
        if m != 0 || flags == 0 {
            let cur = frames[st1.pos];
            return Synth {
                glottal_pulse: g,
                mem38: m,
                phase1: st1.phase1.wrapping_add(cur.f1 as u32),
                phase2: st1.phase2.wrapping_add(cur.f2 as u32),
                phase3: st1.phase3.wrapping_add(cur.f3 as u32),
                ..st1
            };
        }
        let last = render_sample(output, st1.last_sample_offset, flags, frames[st1.pos % 256].pitch);
        return restart_pulse(Synth { glottal_pulse: g, mem38: m, last_sample_offset: last, ..st1 }, frames);
    }
    restart_pulse(Synth { glottal_pulse: g, ..st1 }, frames)
}

/// Restart the glottal pulse (see `pulse_restarted`).
fn restart_pulse(st: Synth, frames: &Vec<Frame>) -> (r: Synth)
    requires
        st.frame_count > 0 ==> st.pos < frames@.len(),
    ensures
        r == pulse_restarted(st, frames@),
{
    if st.frame_count == 0 {
        return st;
    }
    let g = frames[st.pos].pitch as i32;
    Synth {
        glottal_pulse: g,
        mem38: if g > 0 {
            g * 3 / 4
        } else {
            st.mem38
        },
        phase1: 0,
        phase2: 0,
        phase3: 0,
        ..st
    }
}

/// Run the frames through the synthesizer, writing into `output`.
fn process_frames(output: &mut OutputBuffer, speed: u8, prepared: &PreparedFrames)
    requires
        old(output).wf(),
        speed >= 1,
        prepared.frames@.len() >= prepared.frame_count,
        prepared.frame_count >= 1,
        frames_valid(prepared.frames@),
    ensures
        final(output).wf(),
        final(output).buffer@.len() == old(output).buffer@.len(),
        final(output).clock() == synth_run(
            old(output).clock(),
            initial_synth(prepared.frames@, prepared.frame_count, speed),
            prepared.frames@,
            speed,
        ),
{
    let frames = &prepared.frames;
    let count = frames.len();
    let g = frames[0].pitch as i32;
    let mut st = Synth {
        pos: 0,
        frame_count: prepared.frame_count,
        speed_counter: speed,
        phase1: 0,
        phase2: 0,
        phase3: 0,
        glottal_pulse: g,
        mem38: g * 3 / 4,
        last_sample_offset: 0,
    };
    let ghost target = synth_run(output.clock(), st, frames@, speed);
    while st.frame_count > 0
        invariant
            output.wf(),
            output.buffer@.len() == old(output).buffer@.len(),
            frames == &prepared.frames,
            st.frame_count > 0 ==> runnable(st, frames@, speed),
            synth_run(output.clock(), st, frames@, speed) == target,
        decreases st.frame_count, st.speed_counter,
    {
        st = synth_tick(output, frames, speed, st);
    }
}

// ---------------------------------------------------------------- rendering

/// `ceil(176.4 * speed * total)`: the number of samples rendered for events
/// spanning `total` frames at `speed`.
pub open spec fn output_length(total: nat, speed: u8) -> nat {
    ((total * speed * 1764 + 9) / 10) as nat
}

proof fn lemma_scaled_fit(total: nat, speed: nat)
    requires
        speed >= 1,
        total * speed * 1764 <= usize::MAX,
    ensures
        total * 1764 <= usize::MAX,
{
    assert(total * 1764 <= total * speed * 1764) by (nonlinear_arith)
        requires
            speed >= 1,
    ;
}

/// The samples rendered from events `s`.
pub open spec fn rendered(s: Seq<Phoneme>, pitch: u8, mouth: u8, throat: u8, speed: u8, sing_mode: bool) -> Seq<u8> {
    let total = total_length(s);
    let size = output_length(total, speed);
    if speed == 0 || total == 0 {
        Seq::new(size, |i: int| 0u8)
    } else {
        let frames = prepared(s, pitch, mouth, throat, sing_mode);
        synth_run(silent_clock(size), initial_synth(frames, total as usize, speed), frames, speed).buffer
    }
}

/// Render phoneme events to 8-bit unsigned PCM samples at 22050 Hz.
pub fn render(phonemes: &[Phoneme], pitch: u8, mouth: u8, throat: u8, speed: u8, sing_mode: bool) -> (r: Vec<u8>)
    requires
        renderable(phonemes@),
        total_length(phonemes@) * speed * 1764 <= usize::MAX,
    ensures
        r@.len() == output_length(total_length(phonemes@), speed),
        r@ == rendered(phonemes@, pitch, mouth, throat, speed, sing_mode),
{
    if speed == 0 {
        return OutputBuffer::new(0).buffer;
    }
    proof {
        lemma_scaled_fit(total_length(phonemes@), speed as nat);
    }
    let mut total: usize = 0;
    let mut k: usize = 0;
    assert(phonemes@.subrange(0, 0) =~= Seq::<Phoneme>::empty());
    while k < phonemes.len()
        invariant
            k <= phonemes@.len(),
            total == total_length(phonemes@.subrange(0, k as int)),
            total_length(phonemes@) * 1764 <= usize::MAX,
        decreases phonemes@.len() - k,
    {
        proof {
            lemma_total_length_prefix(phonemes@, k as int);
        }
        total = total + phonemes[k].length as usize;
        k += 1;
    }
    assert(phonemes@.subrange(0, k as int) =~= phonemes@);
    let timed: usize = total * speed as usize;
    let scaled: usize = timed * 1764;
    let size: usize = scaled / 10 + if scaled % 10 != 0 {
        1
    } else {
        0
    };
    assert(size == (scaled + 9) / 10);
    let mut output = OutputBuffer::new(size);
    if total == 0 {
        return output.buffer;
    }
    let prepared = prepare_frames(phonemes, pitch, mouth, throat, sing_mode);
    process_frames(&mut output, speed, &prepared);
    output.buffer
}

/// Where two adjacent events have equal blend ranks, each side blends over
/// its own out-width.
pub proof fn lemma_equal_rank_widths(ph: usize, next: usize)
    requires
        blend_rank(ph) == blend_rank(next),
    ensures
        blend_widths(ph, next) == (out_blend_length(ph), out_blend_length(next)),
{
}

/// The rendered length is the ceiling of `176.4 * speed * total`.
pub proof fn lemma_output_length_is_ceiling(total: nat, speed: u8)
    ensures
        output_length(total, speed) * 10 >= total * speed * 1764,
        output_length(total, speed) * 10 < total * speed * 1764 + 10,
{
    let x = total * speed * 1764;
    assert(x >= 0) by (nonlinear_arith)
        requires
            total >= 0,
            speed >= 0,
            x == total * speed * 1764,
    ;
}

/// Compiled events hold no pause and are accepted by the synthesizer as they
/// are; the synthesizer accepts no pause.
pub proof fn lemma_compiled_events_renderable(s: Seq<Phoneme>)
    requires
        compiled_events(s),
    ensures
        renderable(s),
        forall|i: int| 0 <= i < s.len() ==> #[trigger] s[i].index != 0,
{
}

} // verus!
