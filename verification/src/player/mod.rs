pub mod cache;
pub mod playback;
pub mod queue;
pub mod draws;
