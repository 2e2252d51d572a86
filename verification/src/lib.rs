//! The decisions of a local voice-to-text dictation app: which key starts and
//! stops a recording, what a clip goes through on its way to the focused window,
//! when a language model's cleanup of a transcript is kept, and how the tray, the
//! overlay and the helper processes follow along.
//!
//! Devices, processes and the network are the caller's. Each function takes what
//! such a call brought back and says what to do next.

pub mod asr;
pub mod audio;
pub mod cli;
pub mod config;
pub mod engine;
pub mod enhance;
pub mod hotkey;
pub mod http;
pub mod inject;
pub mod markers;
pub mod ollama;
pub mod overlay;
pub mod parakeet;
pub mod scope;
pub mod single;
pub mod text;
pub mod ui;
