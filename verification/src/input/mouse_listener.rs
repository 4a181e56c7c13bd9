//! The pointer latch: where the pointer is and was, how far the wheel
//! turned this frame, which buttons are held, and whether the pointer drags.
//!
//! Positions and wheel turns are integers in a unit that the caller fixes.

use crate::event::{ElementState, MouseButton, MouseScrollDelta, WindowEvent};
use vstd::prelude::*;

verus! {

/// Number of buttons that the latch follows: left, right and middle.
pub const BUTTONS: usize = 3;

/// What the pointer latch holds, as plain data.
pub struct MouseState {
    pub scroll_x: int,
    pub scroll_y: int,
    pub x: int,
    pub y: int,
    pub last_x: int,
    pub last_y: int,
    /// For each followed button, whether it is held.
    pub buttons: Seq<bool>,
    pub dragging: bool,
}

/// The slot of a button in the latch, if the latch follows the button.
pub open spec fn button_slot(button: MouseButton) -> Option<int> {
    match button {
        MouseButton::Left => Some(0),
        MouseButton::Right => Some(1),
        MouseButton::Middle => Some(2),
        _ => None,
    }
}

impl MouseState {
    /// The state of a new latch: all at rest at the origin.
    pub open spec fn initial() -> MouseState {
        MouseState {
            scroll_x: 0,
            scroll_y: 0,
            x: 0,
            y: 0,
            last_x: 0,
            last_y: 0,
            buttons: seq![false, false, false],
            dragging: false,
        }
    }

    /// Whether any followed button is held.
    pub open spec fn any_button_down(self) -> bool {
        exists|slot: int| 0 <= slot < BUTTONS && self.buttons[slot]
    }

    /// Whether the latch follows three buttons, and drags only while one of
    /// them is held.
    pub open spec fn well_formed(self) -> bool {
        &&& self.buttons.len() == BUTTONS
        &&& self.dragging ==> self.any_button_down()
    }

    /// How far the pointer is from where it was, taken from the new
    /// position to the old.
    pub open spec fn dx(self) -> int {
        self.last_x - self.x
    }

    /// As `dx`, for the vertical axis.
    pub open spec fn dy(self) -> int {
        self.last_y - self.y
    }

    /// The state after the pointer moved to `(x, y)`: the position before
    /// becomes the last one, and the pointer drags if a button is held.
    pub open spec fn moved(self, x: int, y: int) -> MouseState {
        MouseState {
            x,
            y,
            last_x: self.x,
            last_y: self.y,
            dragging: self.any_button_down(),
            ..self
        }
    }

    /// The state after `button` went down or came up. A button that the
    /// latch does not follow changes nothing; one that comes up ends the drag.
    pub open spec fn button_changed(self, state: ElementState, button: MouseButton) -> MouseState {
        match (button_slot(button), state) {
            (Some(slot), ElementState::Pressed) => MouseState {
                buttons: self.buttons.update(slot, true),
                ..self
            },
            (Some(slot), ElementState::Released) => MouseState {
                buttons: self.buttons.update(slot, false),
                dragging: false,
                ..self
            },
            (None, _) => self,
        }
    }

    /// The state after the wheel turned: the turn replaces that of the
    /// frame so far, whatever its unit.
    pub open spec fn wheel_turned(self, delta: MouseScrollDelta) -> MouseState {
        match delta {
            MouseScrollDelta::LineDelta(x, y) => MouseState {
                scroll_x: x as int,
                scroll_y: y as int,
                ..self
            },
            MouseScrollDelta::PixelDelta(x, y) => MouseState {
                scroll_x: x as int,
                scroll_y: y as int,
                ..self
            },
        }
    }

    /// The state after `event`. Only events of the pointer change it.
    pub open spec fn after_event(self, event: WindowEvent) -> MouseState {
        match event {
            WindowEvent::CursorMoved { x, y } => self.moved(x as int, y as int),
            WindowEvent::MouseInput { state, button } => self.button_changed(state, button),
            WindowEvent::MouseWheel { delta } => self.wheel_turned(delta),
            _ => self,
        }
    }

    /// The state after `events`, taken in order.
    pub open spec fn after_events(self, events: Seq<WindowEvent>) -> MouseState
        decreases events.len(),
    {
        if events.len() == 0 {
            self
        } else {
            self.after_events(events.drop_last()).after_event(events.last())
        }
    }

    /// The state after the frame boundary: the wheel is at rest, and the
    /// pointer has not moved yet in the new frame.
    pub open spec fn end_frame(self) -> MouseState {
        MouseState { scroll_x: 0, scroll_y: 0, last_x: self.x, last_y: self.y, ..self }
    }
}

/// The pointer latch.
pub struct MouseInput {
    scroll_x: i32,
    scroll_y: i32,
    x_pos: i32,
    y_pos: i32,
    last_y: i32,
    last_x: i32,
    mouse_button_pressed: [bool; 3],
    is_dragging: bool,
}

impl View for MouseInput {
    type V = MouseState;

    closed spec fn view(&self) -> MouseState {
        MouseState {
            scroll_x: self.scroll_x as int,
            scroll_y: self.scroll_y as int,
            x: self.x_pos as int,
            y: self.y_pos as int,
            last_x: self.last_x as int,
            last_y: self.last_y as int,
            buttons: self.mouse_button_pressed@,
            dragging: self.is_dragging,
        }
    }
}

impl MouseInput {
    #[verifier::type_invariant]
    spec fn drags_with_button(&self) -> bool {
        self.is_dragging ==> (self.mouse_button_pressed[0] || self.mouse_button_pressed[1]
            || self.mouse_button_pressed[2])
    }

    /// The latch's own invariant, said of what it holds.
    proof fn lemma_view_well_formed(&self)
        requires
            self.drags_with_button(),
        ensures
            self@.well_formed(),
    {
        if self.is_dragging {
            let slot: int = if self.mouse_button_pressed[0] {
                0
            } else if self.mouse_button_pressed[1] {
                1
            } else {
                2
            };
            assert(self@.buttons[slot]);
        }
    }

    /// A latch at rest at the origin, with no button held.
    pub fn new() -> (latch: MouseInput)
        ensures
            latch@ == MouseState::initial(),
            latch@.well_formed(),
    {
        let latch = MouseInput {
            scroll_x: 0,
            scroll_y: 0,
            x_pos: 0,
            y_pos: 0,
            last_y: 0,
            last_x: 0,
            mouse_button_pressed: [false;3],
            is_dragging: false,
        };
        assert(latch.mouse_button_pressed@ =~= seq![false, false, false]);
        proof {
            lemma_dragging_needs_button(MouseState::initial(), WindowEvent::Other);
        }
        latch
    }

    /// Takes an event in. Only events of the pointer change the latch.
    pub fn handle_event(&mut self, event: &WindowEvent)
        ensures
            final(self)@ == old(self)@.after_event(*event),
            final(self)@.well_formed(),
    {
        proof {
            use_type_invariant(&*self);
            self.lemma_view_well_formed();
            lemma_dragging_needs_button(self@, *event);
        }
        match event {
            WindowEvent::CursorMoved { x, y } => {
                let held = self.mouse_button_pressed[0] || self.mouse_button_pressed[1]
                    || self.mouse_button_pressed[2];
                assert(held == self@.any_button_down());
                self.last_x = self.x_pos;
                self.last_y = self.y_pos;
                self.x_pos = *x;
                self.y_pos = *y;
                self.is_dragging = held;
            },
            WindowEvent::MouseInput { state, button } => {
                let index: usize = match button {
                    MouseButton::Left => 0,
                    MouseButton::Right => 1,
                    MouseButton::Middle => 2,
                    _ => {
                        return ;
                    },
                };
                match state {
                    ElementState::Pressed => {
                        self.mouse_button_pressed[index] = true;
                    },
                    ElementState::Released => {
                        self.is_dragging = false;
                        self.mouse_button_pressed[index] = false;
                    },
                }
            },
            WindowEvent::MouseWheel { delta } => {
                match delta {
                    MouseScrollDelta::LineDelta(x, y) => {
                        self.scroll_x = *x;
                        self.scroll_y = *y;
                    },
                    MouseScrollDelta::PixelDelta(x, y) => {
                        self.scroll_x = *x;
                        self.scroll_y = *y;
                    },
                }
            },
            _ => {},
        }
    }

    /// Marks the frame boundary: the wheel comes to rest, and the pointer
    /// has not moved yet in the new frame.
    pub fn end_frame(&mut self)
        ensures
            final(self)@ == old(self)@.end_frame(),
            final(self)@.scroll_x == 0,
            final(self)@.scroll_y == 0,
            final(self)@.dx() == 0,
            final(self)@.dy() == 0,
            final(self)@.well_formed(),
    {
        proof {
            use_type_invariant(&*self);
            self.lemma_view_well_formed();
            lemma_dragging_needs_button(self@, WindowEvent::Other);
        }
        self.scroll_x = 0;
        self.scroll_y = 0;
        self.last_x = self.x_pos;
        self.last_y = self.y_pos;
    }

    /// Where the pointer is, horizontally.
    pub fn get_x(&self) -> (x: i32)
        ensures
            x == self@.x,
    {
        self.x_pos
    }

    /// Where the pointer is, vertically.
    pub fn get_y(&self) -> (y: i32)
        ensures
            y == self@.y,
    {
        self.y_pos
    }

    /// The last horizontal position less the present one.
    pub fn get_dx(&self) -> (dx: i64)
        ensures
            dx == self@.dx(),
    {
        self.last_x as i64 - self.x_pos as i64
    }

    /// The last vertical position less the present one.
    pub fn get_dy(&self) -> (dy: i64)
        ensures
            dy == self@.dy(),
    {
        self.last_y as i64 - self.y_pos as i64
    }

    /// How far the wheel turned sideways this frame.
    pub fn get_scroll_x(&self) -> (scroll: i32)
        ensures
            scroll == self@.scroll_x,
    {
        self.scroll_x
    }

    /// How far the wheel turned this frame.
    pub fn get_scroll_y(&self) -> (scroll: i32)
        ensures
            scroll == self@.scroll_y,
    {
        self.scroll_y
    }

    /// Whether the pointer drags: it moved while a button was held, and no
    /// button came up since.
    pub fn is_dragging(&self) -> (dragging: bool)
        ensures
            dragging == self@.dragging,
            dragging ==> self@.any_button_down(),
    {
        proof {
            use_type_invariant(self);
            self.lemma_view_well_formed();
        }
        self.is_dragging
    }

    /// Whether the button in slot `button` is held: 0 is the left button,
    /// 1 the right, 2 the middle. No other slot is ever held.
    pub fn mouse_button_down(&self, button: usize) -> (down: bool)
        ensures
            down == (button < BUTTONS && self@.buttons[button as int]),
    {
        if button < self.mouse_button_pressed.len() {
            self.mouse_button_pressed[button]
        } else {
            false
        }
    }
}

/// In a frame in which the pointer has not moved, it is where it was: after
/// a frame boundary and any events but pointer motion, both deltas are zero.
pub proof fn lemma_still_pointer_has_no_delta(state: MouseState, events: Seq<WindowEvent>)
    requires
        forall|i: int| 0 <= i < events.len() ==> !(events[i] is CursorMoved),
    ensures
        state.end_frame().after_events(events).dx() == 0,
        state.end_frame().after_events(events).dy() == 0,
    decreases events.len(),
{
    if events.len() > 0 {
        let front = events.drop_last();
        assert forall|i: int| 0 <= i < front.len() implies !(front[i] is CursorMoved) by {
            assert(front[i] == events[i]);
        }
        lemma_still_pointer_has_no_delta(state, front);
        assert(!(events[events.len() - 1] is CursorMoved));
    }
}

/// The pointer drags only while a button is held: that holds of a new
/// latch, and neither an event nor a frame boundary undoes it.
pub proof fn lemma_dragging_needs_button(state: MouseState, event: WindowEvent)
    requires
        state.well_formed(),
    ensures
        MouseState::initial().well_formed(),
        state.after_event(event).well_formed(),
        state.end_frame().well_formed(),
{
    let after = state.after_event(event);
    if after.dragging {
        let slot: int = choose|slot: int| 0 <= slot < BUTTONS && state.buttons[slot];
        match event {
            WindowEvent::MouseInput { state: ElementState::Pressed, button } => {
                match button_slot(button) {
                    Some(changed) => {
                        assert(after.buttons[changed]);
                    },
                    None => {
                        assert(after.buttons[slot]);
                    },
                }
            },
            _ => {
                assert(after.buttons[slot]);
            },
        }
    }
    if state.dragging {
        let slot: int = choose|slot: int| 0 <= slot < BUTTONS && state.buttons[slot];
        assert(state.end_frame().buttons[slot]);
    }
}

/// A second frame boundary with no event since the first changes nothing.
pub proof fn lemma_pointer_end_frame_idempotent(state: MouseState)
    ensures
        state.end_frame().end_frame() == state.end_frame(),
{
}

} // verus!
