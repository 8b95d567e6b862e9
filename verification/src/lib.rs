//! Core logic of a small audio recorder: engine states and their
//! transitions, captured sample buffers, playback cursors and the
//! bookkeeping of recorded takes.

pub mod engine;
pub mod config;
pub mod sample;
pub mod recording;
pub mod manager;
pub mod device;
