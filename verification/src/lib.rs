//! Decision logic of a chromatic instrument tuner.
//!
//! The crate holds the parts of the audio-to-display pipeline that decide
//! something: which pitch estimates are forwarded, when the display falls
//! back to its placeholder, how the needle eases towards a deviation, which
//! capture device a name resolves to, and which stream is the active one.
//! Threads, channels, clocks and audio hardware stay with the caller, who
//! feeds the state machines here with plain values and carries out what they
//! answer.

pub mod sample;
pub mod stream;
pub mod gauge;
pub mod silence;
pub mod resolver;
pub mod mixer;
pub mod selection;
pub mod note;
pub mod settings;
