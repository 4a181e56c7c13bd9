use kreeda::engine::handler::{Action, App};
use kreeda::engine::surface::{Color, LoadOp, RenderPass, StoreOp, SurfaceError};
use kreeda::event::{
    ElementState, MouseButton, MouseScrollDelta, PixelSize, WindowEvent, WindowId,
};
use kreeda::input::key_listener::KeyInput;
use kreeda::input::mouse_listener::MouseInput;
use wgpu::{CompositeAlphaMode, TextureFormat};

const OURS: WindowId = 11;
const THEIRS: WindowId = 12;

struct Session {
    app: App,
    keys: KeyInput,
    mouse: MouseInput,
}

impl Session {
    fn created() -> Session {
        Session {
            app: App::new(800, 600, String::from("Kreeda Engine")),
            keys: KeyInput::new(),
            mouse: MouseInput::new(),
        }
    }

    fn running(width: u32, height: u32) -> Session {
        let mut session = Session::created();
        session.app.resumed(
            OURS,
            PixelSize { width, height },
            &vec![TextureFormat::Bgra8UnormSrgb],
            &vec![CompositeAlphaMode::Opaque],
        );
        session
    }

    fn take(&mut self, window: WindowId, event: WindowEvent) -> Action {
        self.app.window_event(&mut self.keys, &mut self.mouse, window, &event)
    }

    fn idle(&mut self) -> Action {
        self.app.about_to_wait(&mut self.keys, &mut self.mouse)
    }

    fn dimensions(&self) -> Option<(u32, u32)> {
        self.app.surface().map(|state| {
            let config = state.reconfigure();
            (config.width, config.height)
        })
    }
}

fn clear_pass() -> RenderPass {
    RenderPass {
        load: LoadOp::Clear(Color { r: 255, g: 255, b: 255, a: 255 }),
        store: StoreOp::Store,
    }
}

fn key_down_event(key: u64) -> WindowEvent {
    WindowEvent::KeyboardInput { logical_key: key, state: ElementState::Pressed }
}

#[test]
fn new_dispatcher_has_no_surface() {
    let app = App::new(320, 200, String::from("title"));
    assert_eq!(app.desired_width(), 320);
    assert_eq!(app.desired_height(), 200);
    assert_eq!(app.title(), "title");
    assert!(app.surface().is_none());
}

#[test]
fn resume_takes_up_the_surface_and_has_it_configured() {
    let mut app = App::new(800, 600, String::from("title"));
    let action = app.resumed(
        OURS,
        PixelSize { width: 1600, height: 1200 },
        &vec![TextureFormat::Rgba8Unorm, TextureFormat::Rgba8UnormSrgb],
        &vec![CompositeAlphaMode::Inherit],
    );
    assert_eq!(action, Action::Reconfigure);
    let state = app.surface().unwrap();
    assert_eq!(state.window(), OURS);
    assert_eq!(state.size(), PixelSize { width: 1600, height: 1200 });
    assert_eq!(state.reconfigure().width, 1600);
    assert_eq!(state.reconfigure().height, 1200);
    assert_eq!(state.reconfigure().format, TextureFormat::Rgba8UnormSrgb);
    assert_eq!(state.reconfigure().alpha_mode, CompositeAlphaMode::Inherit);
    assert_eq!(app.desired_width(), 800);
    assert_eq!(app.desired_height(), 600);
    assert_eq!(app.title(), "title");
}

#[test]
fn minimize_then_restore() {
    let mut session = Session::running(800, 600);
    let first = session.take(OURS, WindowEvent::Resized(PixelSize { width: 0, height: 0 }));
    assert_eq!(first, Action::RequestRedraw);
    assert_eq!(session.dimensions(), Some((800, 600)));

    let second = session.take(OURS, WindowEvent::Resized(PixelSize { width: 640, height: 480 }));
    assert_eq!(second, Action::ReconfigureAndRedraw);
    assert_eq!(session.dimensions(), Some((640, 480)));

    let redraw = session.take(OURS, WindowEvent::RedrawRequested);
    assert_eq!(redraw, Action::Render(clear_pass()));
    let after = session.app.rendered(Ok(()), PixelSize { width: 640, height: 480 });
    assert_eq!(after, Action::Nothing);
    assert_eq!(session.dimensions(), Some((640, 480)));
}

#[test]
fn events_before_resume_are_dropped() {
    let mut session = Session::created();
    let events = [
        WindowEvent::CloseRequested,
        WindowEvent::RedrawRequested,
        WindowEvent::Resized(PixelSize { width: 640, height: 480 }),
        key_down_event(1),
        WindowEvent::CursorMoved { x: 5, y: 6 },
    ];
    for event in events {
        assert_eq!(session.take(OURS, event), Action::Nothing);
    }
    assert!(session.app.surface().is_none());
    assert!(!session.keys.key_down(&1));
    assert_eq!(session.mouse.get_x(), 0);
    assert_eq!(session.mouse.get_y(), 0);
}

#[test]
fn events_of_another_window_are_dropped() {
    let mut session = Session::running(800, 600);
    let events = [
        WindowEvent::CloseRequested,
        WindowEvent::RedrawRequested,
        WindowEvent::Resized(PixelSize { width: 640, height: 480 }),
        WindowEvent::ScaleFactorChanged { inner_size: PixelSize { width: 640, height: 480 } },
        key_down_event(1),
        WindowEvent::CursorMoved { x: 5, y: 6 },
    ];
    for event in events {
        assert_eq!(session.take(THEIRS, event), Action::Nothing);
    }
    assert_eq!(session.dimensions(), Some((800, 600)));
    assert!(!session.keys.key_down(&1));
    assert_eq!(session.mouse.get_x(), 0);
}

#[test]
fn close_request_exits() {
    let mut session = Session::running(800, 600);
    assert_eq!(session.take(OURS, WindowEvent::CloseRequested), Action::Exit);
    assert_eq!(session.dimensions(), Some((800, 600)));
}

#[test]
fn scale_factor_change_takes_the_inner_size() {
    let mut session = Session::running(800, 600);
    let event = WindowEvent::ScaleFactorChanged { inner_size: PixelSize { width: 1600, height: 1200 } };
    assert_eq!(session.take(OURS, event), Action::ReconfigureAndRedraw);
    assert_eq!(session.dimensions(), Some((1600, 1200)));

    let event = WindowEvent::ScaleFactorChanged { inner_size: PixelSize { width: 0, height: 1200 } };
    assert_eq!(session.take(OURS, event), Action::RequestRedraw);
    assert_eq!(session.dimensions(), Some((1600, 1200)));
}

#[test]
fn redraw_request_renders_the_clear_pass() {
    let mut session = Session::running(800, 600);
    assert_eq!(session.take(OURS, WindowEvent::RedrawRequested), Action::Render(clear_pass()));
    assert_eq!(session.dimensions(), Some((800, 600)));
}

#[test]
fn input_events_feed_both_latches_and_ask_nothing() {
    let mut session = Session::running(800, 600);
    assert_eq!(session.take(OURS, key_down_event(9)), Action::Nothing);
    assert_eq!(session.take(OURS, WindowEvent::CursorMoved { x: 100, y: 100 }), Action::Nothing);
    let press = WindowEvent::MouseInput { state: ElementState::Pressed, button: MouseButton::Left };
    assert_eq!(session.take(OURS, press), Action::Nothing);
    assert_eq!(session.take(OURS, WindowEvent::CursorMoved { x: 150, y: 120 }), Action::Nothing);
    let wheel = WindowEvent::MouseWheel { delta: MouseScrollDelta::LineDelta(0, 3) };
    assert_eq!(session.take(OURS, wheel), Action::Nothing);
    assert_eq!(session.take(OURS, WindowEvent::Other), Action::Nothing);

    assert!(session.keys.key_down(&9));
    assert!(session.keys.key_just_pressed(&9));
    assert_eq!(session.mouse.get_x(), 150);
    assert_eq!(session.mouse.get_dx(), -50);
    assert_eq!(session.mouse.get_scroll_y(), 3);
    assert!(session.mouse.is_dragging());
    assert_eq!(session.dimensions(), Some((800, 600)));
}

#[test]
fn idle_hook_ends_the_frame_and_asks_for_a_redraw() {
    let mut session = Session::running(800, 600);
    session.take(OURS, key_down_event(9));
    session.take(OURS, WindowEvent::CursorMoved { x: 3, y: 4 });
    session.take(OURS, WindowEvent::MouseWheel { delta: MouseScrollDelta::PixelDelta(1, 2) });
    assert_eq!(session.idle(), Action::RequestRedraw);
    assert!(session.keys.key_down(&9));
    assert!(!session.keys.key_just_pressed(&9));
    assert_eq!(session.mouse.get_x(), 3);
    assert_eq!(session.mouse.get_dx(), 0);
    assert_eq!(session.mouse.get_dy(), 0);
    assert_eq!(session.mouse.get_scroll_x(), 0);
    assert_eq!(session.mouse.get_scroll_y(), 0);
}

#[test]
fn idle_hook_before_resume_only_ends_the_frame() {
    let mut session = Session::created();
    session.keys.handle_event(&key_down_event(9));
    session.mouse.handle_event(&WindowEvent::MouseWheel { delta: MouseScrollDelta::LineDelta(0, 3) });
    assert_eq!(session.idle(), Action::Nothing);
    assert!(session.keys.key_down(&9));
    assert!(!session.keys.key_just_pressed(&9));
    assert_eq!(session.mouse.get_scroll_y(), 0);
}

#[test]
fn frame_that_went_well_asks_nothing() {
    let mut session = Session::running(800, 600);
    let action = session.app.rendered(Ok(()), PixelSize { width: 640, height: 480 });
    assert_eq!(action, Action::Nothing);
    assert_eq!(session.dimensions(), Some((800, 600)));
}

#[test]
fn lost_or_outdated_surface_is_configured_for_the_window() {
    for error in [SurfaceError::Lost, SurfaceError::Outdated] {
        let mut session = Session::running(800, 600);
        let action = session.app.rendered(Err(error), PixelSize { width: 640, height: 480 });
        assert_eq!(action, Action::Reconfigure);
        assert_eq!(session.dimensions(), Some((640, 480)));
    }
}

#[test]
fn lost_surface_of_a_window_without_area_is_left_alone() {
    for error in [SurfaceError::Lost, SurfaceError::Outdated] {
        let mut session = Session::running(800, 600);
        let action = session.app.rendered(Err(error), PixelSize { width: 0, height: 0 });
        assert_eq!(action, Action::Nothing);
        assert_eq!(session.dimensions(), Some((800, 600)));
    }
}

#[test]
fn surface_out_of_memory_exits() {
    let mut session = Session::running(800, 600);
    let action = session.app.rendered(Err(SurfaceError::OutOfMemory), PixelSize { width: 640, height: 480 });
    assert_eq!(action, Action::Exit);
    assert_eq!(session.dimensions(), Some((800, 600)));
}

#[test]
fn frame_timeout_drops_the_frame() {
    let mut session = Session::running(800, 600);
    let action = session.app.rendered(Err(SurfaceError::Timeout), PixelSize { width: 640, height: 480 });
    assert_eq!(action, Action::Nothing);
    assert_eq!(session.dimensions(), Some((800, 600)));
}

#[test]
fn frame_outcome_before_resume_asks_nothing() {
    let mut session = Session::created();
    for outcome in [Ok(()), Err(SurfaceError::Lost), Err(SurfaceError::OutOfMemory)] {
        let action = session.app.rendered(outcome, PixelSize { width: 640, height: 480 });
        assert_eq!(action, Action::Nothing);
        assert!(session.app.surface().is_none());
    }
}
