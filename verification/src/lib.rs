//! Paste engine: clipboard decoding, keystroke synthesis, and the
//! interruptible playback controller that types clipboard text into the
//! focused application, together with the hotkey configuration model that
//! decides which key combination triggers playback.

pub mod clipboard;
pub mod controller;
pub mod errors;
pub mod hotkey;
pub mod keystroke;
pub mod timing;
