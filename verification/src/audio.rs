//! Multi-channel streamed audio playback.

pub mod channel;
pub mod chunking;
pub mod laws;
pub mod manager;
pub mod model;
pub mod sound;
pub mod worker;
