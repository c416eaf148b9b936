//! Verified core of a bridge between a multi-window desktop host and an
//! immediate-mode GUI toolkit: input translation, window registration and
//! the per-frame input hand-off.

pub mod cursor;
pub mod input;
pub mod keys;
pub mod plugin;
pub mod surface;
pub mod window;
