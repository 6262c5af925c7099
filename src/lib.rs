//! A deterministic allophone speech synthesizer: English text is transcribed
//! to phoneme codes, the codes are compiled to timed phoneme events, and the
//! events are rendered to 8-bit unsigned PCM samples.

pub mod catalog;
pub mod parser;
pub mod text;
pub mod reciter;
pub mod rules;
pub mod renderer;
