//! Decision logic of a transparent overlay that follows a target window.
//!
//! The library decides; the program around it talks to the operating system.
//! Every function here maps plain values (window handles, rectangles, flags,
//! key events) to plain values (visibility, commands, key strokes to send).

pub mod command;
pub mod focus;
pub mod geometry;
pub mod hotkey;
pub mod keys;
pub mod position;
pub mod remap;
pub mod settings;
pub mod tracker;
pub mod window;
