//! Kernel of a small game engine: the window session, the dispatcher that
//! routes window events, the swapchain bookkeeping of the presentation
//! surface, and the per-frame input latches for keyboard and pointer.

pub mod engine;
pub mod event;
pub mod input;
