//! A replay recorder core: a bounded store of captured frames, the decisions of
//! the capture loop, the timing of an exported frame stream, and the choice of
//! the window to capture by its title.
pub mod ring;
pub mod export;
pub mod recorder;
pub mod title;
