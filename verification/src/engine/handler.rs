//! The dispatcher: it takes the events of the window, feeds the input
//! latches, keeps the surface state, and says what the platform has to do.

use crate::engine::surface::{GpuState, RenderPass, SurfaceError, SurfaceState};
use crate::event::{PixelSize, WindowEvent, WindowId};
use crate::input::key_listener::KeyInput;
use crate::input::mouse_listener::MouseInput;
use vstd::prelude::*;

verus! {

/// What the platform has to do after the dispatcher took something in.
#[derive(Clone, Copy, Debug, PartialEq, Eq, Structural)]
pub enum Action {
    /// Nothing.
    Nothing,
    /// Leave the event loop.
    Exit,
    /// Ask for a redraw of the window.
    RequestRedraw,
    /// Apply the configuration in force to the surface.
    Reconfigure,
    /// Apply the configuration in force to the surface, then ask for a
    /// redraw of the window.
    ReconfigureAndRedraw,
    /// Draw a frame with the given pass, and tell how that went.
    Render(RenderPass),
}

/// What the dispatcher holds, as plain data.
pub struct HandlerState {
    pub desired_width: u32,
    pub desired_height: u32,
    pub title: Seq<char>,
    /// The state of the surface, once the window exists.
    pub surface: Option<SurfaceState>,
}

/// What a new size asks of the platform: a redraw, and before it a
/// reconfiguration unless the size is degenerate.
pub open spec fn action_after_resize(new_size: PixelSize) -> Action {
    if new_size.is_degenerate() {
        Action::RequestRedraw
    } else {
        Action::ReconfigureAndRedraw
    }
}

/// What the surface state is after `event`.
pub open spec fn surface_after_event(surface: SurfaceState, event: WindowEvent) -> SurfaceState {
    match event {
        WindowEvent::Resized(new_size) => surface.resized(new_size),
        WindowEvent::ScaleFactorChanged { inner_size } => surface.resized(inner_size),
        _ => surface,
    }
}

/// What `event` asks of the platform.
pub open spec fn action_for_event(surface: SurfaceState, event: WindowEvent) -> Action {
    match event {
        WindowEvent::CloseRequested => Action::Exit,
        WindowEvent::Resized(new_size) => action_after_resize(new_size),
        WindowEvent::ScaleFactorChanged { inner_size } => action_after_resize(inner_size),
        WindowEvent::RedrawRequested => Action::Render(surface.frame_pass()),
        _ => Action::Nothing,
    }
}

/// What the surface state is after a frame was drawn with `outcome`, in a
/// window of inner size `inner_size`: a lost or outdated surface takes the
/// size of the window as a resize does.
pub open spec fn surface_after_frame(
    surface: SurfaceState,
    outcome: Result<(), SurfaceError>,
    inner_size: PixelSize,
) -> SurfaceState {
    match outcome {
        Err(SurfaceError::Lost) | Err(SurfaceError::Outdated) => surface.resized(inner_size),
        _ => surface,
    }
}

/// What the outcome of a frame asks of the platform: a lost or outdated
/// surface is configured again unless the window is degenerate, a surface
/// out of memory ends the loop, and a timeout only drops the frame.
pub open spec fn action_for_frame(outcome: Result<(), SurfaceError>, inner_size: PixelSize) -> Action {
    match outcome {
        Ok(_) => Action::Nothing,
        Err(SurfaceError::Lost) | Err(SurfaceError::Outdated) => if inner_size.is_degenerate() {
            Action::Nothing
        } else {
            Action::Reconfigure
        },
        Err(SurfaceError::OutOfMemory) => Action::Exit,
        Err(SurfaceError::Timeout) => Action::Nothing,
    }
}

/// The dispatcher of one window.
pub struct App {
    desired_w: u32,
    desired_h: u32,
    title: String,
    state: Option<GpuState>,
}

impl View for App {
    type V = HandlerState;

    closed spec fn view(&self) -> HandlerState {
        HandlerState {
            desired_width: self.desired_w,
            desired_height: self.desired_h,
            title: self.title@,
            surface: match self.state {
                Some(state) => Some(state@),
                None => None,
            },
        }
    }
}

impl App {
    /// A dispatcher for a window of the given logical size and title, which
    /// does not exist yet.
    pub fn new(w: u32, h: u32, title: String) -> (app: App)
        ensures
            app@ == (HandlerState {
                desired_width: w,
                desired_height: h,
                title: title@,
                surface: None,
            }),
    {
        App { desired_w: w, desired_h: h, title, state: None }
    }

    /// The logical width to open the window with.
    pub fn desired_width(&self) -> (width: u32)
        ensures
            width == self@.desired_width,
    {
        self.desired_w
    }

    /// The logical height to open the window with.
    pub fn desired_height(&self) -> (height: u32)
        ensures
            height == self@.desired_height,
    {
        self.desired_h
    }

    /// The title to open the window with.
    pub fn title(&self) -> (title: &String)
        ensures
            title@ == self@.title,
    {
        &self.title
    }

    /// The state of the surface, once the window exists.
    pub fn surface(&self) -> (surface: Option<&GpuState>)
        ensures
            match surface {
                Some(state) => self@.surface == Some(state@),
                None => self@.surface is None,
            },
    {
        self.state.as_ref()
    }

    /// The platform lets the window be made. The caller has made the
    /// window `window`, with inner size `inner_size`, on a surface that
    /// offers `formats` and `alpha_modes`; the dispatcher takes up the state
    /// of that surface, and has its configuration applied.
    pub fn resumed(
        &mut self,
        window: WindowId,
        inner_size: PixelSize,
        formats: &Vec<wgpu::TextureFormat>,
        alpha_modes: &Vec<wgpu::CompositeAlphaMode>,
    ) -> (action: Action)
        requires
            formats@.len() > 0,
            alpha_modes@.len() > 0,
        ensures
            final(self)@.desired_width == old(self)@.desired_width,
            final(self)@.desired_height == old(self)@.desired_height,
            final(self)@.title == old(self)@.title,
            final(self)@.surface matches Some(surface) && surface.is_initial(
                window,
                inner_size,
                formats@,
                alpha_modes@,
            ),
            action == Action::Reconfigure,
    {
        let state = GpuState::new_from_window(window, inner_size, formats, alpha_modes);
        self.state = Some(state);
        Action::Reconfigure
    }

    /// Takes an event of the window `window`. Before the surface exists,
    /// and for another window than that of the surface, nothing happens at
    /// all. Otherwise both latches take the event in, the surface state
    /// follows it, and the result says what the platform has to do.
    pub fn window_event(
        &mut self,
        keys: &mut KeyInput,
        mouse: &mut MouseInput,
        window: WindowId,
        event: &WindowEvent,
    ) -> (action: Action)
        ensures
            final(self)@.desired_width == old(self)@.desired_width,
            final(self)@.desired_height == old(self)@.desired_height,
            final(self)@.title == old(self)@.title,
            match old(self)@.surface {
                Some(surface) if window == surface.window => {
                    &&& final(keys)@ == old(keys)@.after_event(*event)
                    &&& final(mouse)@ == old(mouse)@.after_event(*event)
                    &&& final(self)@.surface == Some(surface_after_event(surface, *event))
                    &&& action == action_for_event(surface, *event)
                },
                _ => {
                    &&& final(keys)@ == old(keys)@
                    &&& final(mouse)@ == old(mouse)@
                    &&& final(self)@.surface == old(self)@.surface
                    &&& action == Action::Nothing
                },
            },
    {
        match &mut self.state {
            Some(state) => {
                if window != state.window() {
                    return Action::Nothing;
                }
                mouse.handle_event(event);
                keys.handle_event(event);
                match event {
                    WindowEvent::CloseRequested => Action::Exit,
                    WindowEvent::Resized(new_size) => {
                        if state.resize(*new_size) {
                            Action::ReconfigureAndRedraw
                        } else {
                            Action::RequestRedraw
                        }
                    },
                    WindowEvent::ScaleFactorChanged { inner_size } => {
                        if state.resize(*inner_size) {
                            Action::ReconfigureAndRedraw
                        } else {
                            Action::RequestRedraw
                        }
                    },
                    WindowEvent::RedrawRequested => Action::Render(state.render()),
                    _ => Action::Nothing,
                }
            },
            None => Action::Nothing,
        }
    }

    /// Takes the outcome of the frame that the platform drew, in a window
    /// of inner size `inner_size`, and says what the platform has to do.
    pub fn rendered(&mut self, outcome: Result<(), SurfaceError>, inner_size: PixelSize) -> (action:
        Action)
        ensures
            final(self)@.desired_width == old(self)@.desired_width,
            final(self)@.desired_height == old(self)@.desired_height,
            final(self)@.title == old(self)@.title,
            match old(self)@.surface {
                Some(surface) => {
                    &&& final(self)@.surface == Some(
                        surface_after_frame(surface, outcome, inner_size),
                    )
                    &&& action == action_for_frame(outcome, inner_size)
                },
                None => {
                    &&& final(self)@.surface is None
                    &&& action == Action::Nothing
                },
            },
    {
        match &mut self.state {
            Some(state) => {
                match outcome {
                    Ok(_) => Action::Nothing,
                    Err(SurfaceError::Lost) | Err(SurfaceError::Outdated) => {
                        if state.resize(inner_size) {
                            Action::Reconfigure
                        } else {
                            Action::Nothing
                        }
                    },
                    Err(SurfaceError::OutOfMemory) => Action::Exit,
                    Err(SurfaceError::Timeout) => Action::Nothing,
                }
            },
            None => Action::Nothing,
        }
    }

    /// The event loop is about to wait: the frame ends here. Once the
    /// surface exists a redraw is asked for, and in any case both latches
    /// forget what changed in the frame.
    pub fn about_to_wait(&self, keys: &mut KeyInput, mouse: &mut MouseInput) -> (action: Action)
        ensures
            final(keys)@ == old(keys)@.end_frame(),
            final(mouse)@ == old(mouse)@.end_frame(),
            action == if self@.surface is Some {
                Action::RequestRedraw
            } else {
                Action::Nothing
            },
    {
        mouse.end_frame();
        keys.end_frame();
        match &self.state {
            Some(_) => Action::RequestRedraw,
            None => Action::Nothing,
        }
    }
}

/// Whatever event or frame outcome the dispatcher takes in, the swapchain
/// keeps a valid configuration: its dimensions are at least 1.
pub proof fn lemma_dispatch_keeps_surface_valid(
    surface: SurfaceState,
    event: WindowEvent,
    outcome: Result<(), SurfaceError>,
    inner_size: PixelSize,
)
    requires
        surface.config.valid(),
    ensures
        surface_after_event(surface, event).config.valid(),
        surface_after_frame(surface, outcome, inner_size).config.valid(),
{
}

} // verus!
