//! Per-frame input state: what is held, and what changed this frame.

pub mod key_listener;
pub mod mouse_listener;
