use kreeda::event::{ElementState, Key, MouseButton, PixelSize, WindowEvent};
use kreeda::input::key_listener::KeyInput;

const A: Key = 65;
const B: Key = 66;

fn press(key: Key) -> WindowEvent {
    WindowEvent::KeyboardInput { logical_key: key, state: ElementState::Pressed }
}

fn release(key: Key) -> WindowEvent {
    WindowEvent::KeyboardInput { logical_key: key, state: ElementState::Released }
}

#[test]
fn new_key_latch_is_empty() {
    let keys = KeyInput::new();
    assert!(!keys.key_down(&A));
    assert!(!keys.key_just_pressed(&A));
    assert!(!keys.key_just_released(&A));
}

#[test]
fn key_repeat_suppression() {
    let mut keys = KeyInput::new();
    keys.handle_event(&press(A));
    keys.handle_event(&press(A));
    keys.handle_event(&press(A));
    assert!(keys.key_just_pressed(&A));
    assert!(keys.key_down(&A));
    assert!(!keys.key_just_released(&A));
    assert!(!keys.key_just_pressed(&B));
    assert!(!keys.key_down(&B));

    keys.end_frame();
    assert!(!keys.key_just_pressed(&A));
    assert!(keys.key_down(&A));
}

#[test]
fn repeat_in_a_later_frame_is_no_new_press() {
    let mut keys = KeyInput::new();
    keys.handle_event(&press(A));
    keys.end_frame();
    keys.handle_event(&press(A));
    assert!(keys.key_down(&A));
    assert!(!keys.key_just_pressed(&A));
}

#[test]
fn press_then_release_same_frame() {
    let mut keys = KeyInput::new();
    keys.handle_event(&press(B));
    keys.handle_event(&release(B));
    assert!(keys.key_just_pressed(&B));
    assert!(keys.key_just_released(&B));
    assert!(!keys.key_down(&B));

    keys.end_frame();
    assert!(!keys.key_just_pressed(&B));
    assert!(!keys.key_just_released(&B));
    assert!(!keys.key_down(&B));
}

#[test]
fn release_then_press_same_frame() {
    let mut keys = KeyInput::new();
    keys.handle_event(&press(A));
    keys.end_frame();
    keys.handle_event(&release(A));
    keys.handle_event(&press(A));
    assert!(keys.key_down(&A));
    assert!(keys.key_just_pressed(&A));
    assert!(keys.key_just_released(&A));
}

#[test]
fn release_of_a_key_held_since_an_earlier_frame() {
    let mut keys = KeyInput::new();
    keys.handle_event(&press(A));
    keys.end_frame();
    keys.handle_event(&release(A));
    assert!(!keys.key_down(&A));
    assert!(!keys.key_just_pressed(&A));
    assert!(keys.key_just_released(&A));
}

#[test]
fn release_of_a_key_that_was_never_down() {
    let mut keys = KeyInput::new();
    keys.handle_event(&release(A));
    assert!(!keys.key_down(&A));
    assert!(!keys.key_just_pressed(&A));
    assert!(keys.key_just_released(&A));
}

#[test]
fn just_pressed_keys_are_down() {
    let mut keys = KeyInput::new();
    keys.handle_event(&press(A));
    keys.handle_event(&press(B));
    keys.handle_event(&press(A));
    for key in [A, B, 67] {
        assert!(!keys.key_just_pressed(&key) || keys.key_down(&key));
    }
    assert!(keys.key_just_pressed(&A) && keys.key_down(&A));
    assert!(keys.key_just_pressed(&B) && keys.key_down(&B));
}

#[test]
fn no_key_has_both_edges_unless_it_turns_back() {
    let mut keys = KeyInput::new();
    keys.handle_event(&press(B));
    keys.end_frame();
    keys.handle_event(&press(A));
    keys.handle_event(&release(B));
    for key in [A, B, 67] {
        assert!(!(keys.key_just_pressed(&key) && keys.key_just_released(&key)));
        assert!(!(keys.key_just_released(&key) && keys.key_down(&key)));
    }
    assert!(keys.key_just_pressed(&A));
    assert!(keys.key_just_released(&B));
}

#[test]
fn end_frame_clears_edges_and_keeps_held_keys() {
    let mut keys = KeyInput::new();
    keys.handle_event(&press(A));
    keys.handle_event(&press(B));
    keys.handle_event(&release(B));
    keys.end_frame();
    for key in [A, B] {
        assert!(!keys.key_just_pressed(&key));
        assert!(!keys.key_just_released(&key));
    }
    assert!(keys.key_down(&A));
    assert!(!keys.key_down(&B));
}

#[test]
fn key_end_frame_twice_is_end_frame_once() {
    let mut keys = KeyInput::new();
    keys.handle_event(&press(A));
    keys.handle_event(&release(B));
    keys.end_frame();
    let once = [
        keys.key_down(&A),
        keys.key_just_pressed(&A),
        keys.key_just_released(&A),
        keys.key_down(&B),
        keys.key_just_pressed(&B),
        keys.key_just_released(&B),
    ];
    keys.end_frame();
    let twice = [
        keys.key_down(&A),
        keys.key_just_pressed(&A),
        keys.key_just_released(&A),
        keys.key_down(&B),
        keys.key_just_pressed(&B),
        keys.key_just_released(&B),
    ];
    assert_eq!(once, twice);
    assert_eq!(once, [true, false, false, false, false, false]);
}

#[test]
fn keys_ignore_events_of_other_kinds() {
    let mut keys = KeyInput::new();
    keys.handle_event(&press(A));
    let others = [
        WindowEvent::CloseRequested,
        WindowEvent::Resized(PixelSize { width: 3, height: 4 }),
        WindowEvent::ScaleFactorChanged { inner_size: PixelSize { width: 3, height: 4 } },
        WindowEvent::RedrawRequested,
        WindowEvent::CursorMoved { x: 1, y: 2 },
        WindowEvent::MouseInput { state: ElementState::Released, button: MouseButton::Left },
        WindowEvent::Other,
    ];
    for event in others.iter() {
        keys.handle_event(event);
    }
    assert!(keys.key_down(&A));
    assert!(keys.key_just_pressed(&A));
    assert!(!keys.key_just_released(&A));
}

#[test]
fn keys_at_the_ends_of_the_range_are_told_apart() {
    let mut keys = KeyInput::new();
    keys.handle_event(&press(0));
    keys.handle_event(&press(u64::MAX));
    keys.handle_event(&release(0));
    assert!(!keys.key_down(&0));
    assert!(keys.key_down(&u64::MAX));
    assert!(!keys.key_down(&1));
    assert!(keys.key_just_released(&0));
    assert!(!keys.key_just_released(&u64::MAX));
}
