//! Decision core of an acoustic echo canceller that feeds a virtual microphone.
//!
//! The library holds the rules: which devices are chosen, how the audio engine
//! moves from one state to the next, how audio packets are cut, padded and
//! queued, what the tray menu shows and what its items do, and how the saved
//! device selection is written and read. The program around it talks to the
//! operating system and to the echo canceller itself.
pub mod aec;
pub mod audio;
pub mod autostart;
pub mod config;
pub mod engine;
pub mod startup;
pub mod sync;
pub mod text;
pub mod tray;
