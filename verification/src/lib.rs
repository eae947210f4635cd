//! Core of a chat bot that announces, once per empty-to-occupied cycle, when
//! someone joins a voice channel.
//!
//! The library holds the session state machine and the pure decision
//! functions that the two event listeners apply: one for the arming command,
//! one for voice-presence changes. All gateway, HTTP and signal plumbing
//! lives outside the library and hands these functions plain values.

pub mod command;
pub mod laws;
pub mod session;
pub mod text;
pub mod token;
pub mod voice;
