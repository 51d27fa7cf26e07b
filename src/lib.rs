//! Real-time piano visualizer core: the live key-state tracker fed by a MIDI
//! input device, the score timeline of falling note tiles, and the per-frame
//! scene that a renderer draws.

pub mod keys;
pub mod key_state;
pub mod tracker;
pub mod timeline;
pub mod render;
