//! Voice-session and playback-queue manager for a music bot.
//!
//! The library owns, per guild, the lifecycle of a voice session, the
//! ordered track queue, the metadata cache, and the per-channel playback
//! settings. Every state transition is an ordinary function from plain
//! values to plain values with a verified contract; the surrounding
//! program performs the network and audio-engine calls and feeds the
//! resulting events back in.

pub mod config;
pub mod error;
pub mod laws;
pub mod manager;
pub mod query;
pub mod session;
pub mod track;

pub use error::PlayerError;
