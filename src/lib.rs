//! Per-room playback queues for a voice-streaming client: each room keeps an
//! ordered queue of songs, plays at most one at a time, and is torn down once
//! it has nothing left to play.
pub mod config;
pub mod error;
pub mod registry;
pub mod resolve;
pub mod room;
