//! Frame extraction and playback scheduling for a terminal video player.

pub mod error;
pub mod extract;
pub mod frame;
pub mod packed;
pub mod playback;
pub mod scheduler;
