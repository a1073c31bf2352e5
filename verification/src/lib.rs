//! Sprite-sheet animation: a grid that cuts a texture atlas into equal tiles,
//! and a looping sequence of tiles played back at a fixed frame time.
//!
//! Time is counted in whole ticks. The unit of a tick is the caller's choice;
//! the frame time and every elapsed-time delta are given in the same unit.

pub mod animation;
pub mod grid;
pub mod playback;
