//! The core of a terminal music player: the decoder session, the output
//! engine and the playback state machine, with the rules of the screen
//! around them.
//!
//! Nothing here reads a file, a clock or a device. The caller does, and
//! hands in what it read. Positions, offsets and lengths of audio are
//! nanoseconds; the timers of the screen count milliseconds. Samples are
//! the bit patterns of 32-bit floating-point values.
pub mod config;
pub mod decoder;
pub mod engine;
pub mod help;
pub mod input;
pub mod library;
pub mod meta;
pub mod player;
pub mod session;
pub mod shell;
pub mod text;
pub mod timestamp;
pub mod util;
pub mod volume;
