//! The window session: the geometry and title a window is opened with.

use crate::engine::handler::{App, HandlerState};
use vstd::prelude::*;

verus! {

/// Width of the window, in logical pixels, unless another is asked for.
pub const DEFAULT_WIDTH: u32 = 800;

/// Height of the window, in logical pixels, unless another is asked for.
pub const DEFAULT_HEIGHT: u32 = 600;

/// Title of the window unless another is asked for.
pub open spec fn default_title() -> Seq<char> {
    "Kreeda Engine"@
}

/// What the session holds, as plain data.
pub struct SessionState {
    pub width: u32,
    pub height: u32,
    pub title: Seq<char>,
    pub running: bool,
}

/// The session of the one window that the engine owns.
pub struct Window {
    width: u32,
    height: u32,
    title: String,
    running: bool,
}

impl View for Window {
    type V = SessionState;

    closed spec fn view(&self) -> SessionState {
        SessionState {
            width: self.width,
            height: self.height,
            title: self.title@,
            running: self.running,
        }
    }
}

impl Window {
    /// A session with the default geometry and title, marked as running.
    pub fn new() -> (session: Window)
        ensures
            session@ == (SessionState {
                width: DEFAULT_WIDTH,
                height: DEFAULT_HEIGHT,
                title: default_title(),
                running: true,
            }),
    {
        Window {
            width: DEFAULT_WIDTH,
            height: DEFAULT_HEIGHT,
            title: String::from_str("Kreeda Engine"),
            running: true,
        }
    }

    /// Starts the session: hands out the dispatcher for a window of the
    /// session's geometry and title, for the event loop to drive. The
    /// session itself stays as it is.
    pub fn run(&mut self) -> (app: App)
        ensures
            final(self)@ == old(self)@,
            app@ == (HandlerState {
                desired_width: old(self)@.width,
                desired_height: old(self)@.height,
                title: old(self)@.title,
                surface: None,
            }),
    {
        App::new(self.width, self.height, self.title.clone())
    }

    /// The logical width that the window is opened with.
    pub fn width(&self) -> (width: u32)
        ensures
            width == self@.width,
    {
        self.width
    }

    /// The logical height that the window is opened with.
    pub fn height(&self) -> (height: u32)
        ensures
            height == self@.height,
    {
        self.height
    }

    /// The title that the window is opened with.
    pub fn title(&self) -> (title: &String)
        ensures
            title@ == self@.title,
    {
        &self.title
    }

    /// Whether the session is marked as running.
    pub fn is_running(&self) -> (running: bool)
        ensures
            running == self@.running,
    {
        self.running
    }
}

} // verus!
