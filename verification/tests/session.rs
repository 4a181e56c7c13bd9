use kreeda::engine::window::{Window, DEFAULT_HEIGHT, DEFAULT_WIDTH};

#[test]
fn new_session_has_the_default_geometry_and_title() {
    let window = Window::new();
    assert_eq!(window.width(), 800);
    assert_eq!(window.height(), 600);
    assert_eq!(window.title(), "Kreeda Engine");
    assert!(window.is_running());
    assert_eq!((DEFAULT_WIDTH, DEFAULT_HEIGHT), (800, 600));
}

#[test]
fn run_hands_out_a_dispatcher_for_the_session() {
    let mut window = Window::new();
    let app = window.run();
    assert_eq!(app.desired_width(), 800);
    assert_eq!(app.desired_height(), 600);
    assert_eq!(app.title(), "Kreeda Engine");
    assert!(app.surface().is_none());

    assert_eq!(window.width(), 800);
    assert_eq!(window.height(), 600);
    assert_eq!(window.title(), "Kreeda Engine");
    assert!(window.is_running());
}
