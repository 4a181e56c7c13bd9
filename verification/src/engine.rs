//! The window session, the event dispatcher and the surface state.

pub mod handler;
pub mod surface;
pub mod window;
