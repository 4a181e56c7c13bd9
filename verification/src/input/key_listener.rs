//! The key latch: which keys are held, and which went down or came up since
//! the last frame boundary.

use crate::event::{ElementState, Key, WindowEvent};
use std::collections::HashSet;
use vstd::prelude::*;

verus! {

broadcast use vstd::std_specs::hash::group_hash_axioms;

/// What the key latch holds, as plain data.
pub struct KeyState {
    /// The keys that are held.
    pub pressed: Set<Key>,
    /// The keys that went down this frame while not held.
    pub just_pressed: Set<Key>,
    /// The keys that came up this frame.
    pub just_released: Set<Key>,
}

impl KeyState {
    /// The state in which no key is held and none has changed.
    pub open spec fn empty() -> KeyState {
        KeyState { pressed: Set::empty(), just_pressed: Set::empty(), just_released: Set::empty() }
    }

    /// The state after `key` went down. A key that is held already, as one
    /// that repeats is, does not go down anew.
    pub open spec fn press(self, key: Key) -> KeyState {
        KeyState {
            pressed: self.pressed.insert(key),
            just_pressed: if self.pressed.contains(key) {
                self.just_pressed
            } else {
                self.just_pressed.insert(key)
            },
            just_released: self.just_released,
        }
    }

    /// The state after `key` came up.
    pub open spec fn release(self, key: Key) -> KeyState {
        KeyState {
            pressed: self.pressed.remove(key),
            just_pressed: self.just_pressed,
            just_released: self.just_released.insert(key),
        }
    }

    /// The state after `event`. Only keyboard input changes it.
    pub open spec fn after_event(self, event: WindowEvent) -> KeyState {
        match event {
            WindowEvent::KeyboardInput { logical_key, state: ElementState::Pressed } => self.press(
                logical_key,
            ),
            WindowEvent::KeyboardInput { logical_key, state: ElementState::Released } => self.release(
                logical_key,
            ),
            _ => self,
        }
    }

    /// The state after `events`, taken in order.
    pub open spec fn after_events(self, events: Seq<WindowEvent>) -> KeyState
        decreases events.len(),
    {
        if events.len() == 0 {
            self
        } else {
            self.after_events(events.drop_last()).after_event(events.last())
        }
    }

    /// The state after the frame boundary: what is held stays held, and
    /// nothing has changed yet in the new frame.
    pub open spec fn end_frame(self) -> KeyState {
        KeyState { pressed: self.pressed, just_pressed: Set::empty(), just_released: Set::empty() }
    }

    /// Every key that went down this frame is held.
    pub open spec fn just_pressed_are_down(self) -> bool {
        forall|key: Key| self.just_pressed.contains(key) ==> self.pressed.contains(key)
    }

    /// No key both went down and came up this frame.
    pub open spec fn edges_are_apart(self) -> bool {
        forall|key: Key| !(self.just_pressed.contains(key) && self.just_released.contains(key))
    }

    /// No key that came up this frame is held.
    pub open spec fn just_released_are_up(self) -> bool {
        forall|key: Key| self.just_released.contains(key) ==> !self.pressed.contains(key)
    }

    /// Whether `event` lets a key come up that went down in this same frame.
    pub open spec fn releases_fresh_key(self, event: WindowEvent) -> bool {
        event matches WindowEvent::KeyboardInput { logical_key, state: ElementState::Released }
            && self.just_pressed.contains(logical_key)
    }

    /// Whether `event` lets a key go down anew that came up in this same
    /// frame.
    pub open spec fn presses_released_key(self, event: WindowEvent) -> bool {
        event matches WindowEvent::KeyboardInput { logical_key, state: ElementState::Pressed }
            && !self.pressed.contains(logical_key) && self.just_released.contains(logical_key)
    }

    /// Whether none of `events`, taken in order from this state, lets a key
    /// come up that went down in the frame.
    pub open spec fn no_fresh_key_released(self, events: Seq<WindowEvent>) -> bool {
        forall|i: int|
            0 <= i < events.len() ==> !self.after_events(events.take(i)).releases_fresh_key(
                #[trigger] events[i],
            )
    }

    /// Whether none of `events`, taken in order from this state, turns a
    /// key back that has turned in the frame already.
    pub open spec fn no_key_turned_back(self, events: Seq<WindowEvent>) -> bool {
        forall|i: int|
            0 <= i < events.len() ==> {
                &&& !self.after_events(events.take(i)).releases_fresh_key(#[trigger] events[i])
                &&& !self.after_events(events.take(i)).presses_released_key(events[i])
            }
    }
}

/// The key latch.
pub struct KeyInput {
    keys_pressed: HashSet<Key>,
    keys_just_pressed: HashSet<Key>,
    keys_just_released: HashSet<Key>,
}

impl View for KeyInput {
    type V = KeyState;

    closed spec fn view(&self) -> KeyState {
        KeyState {
            pressed: self.keys_pressed@,
            just_pressed: self.keys_just_pressed@,
            just_released: self.keys_just_released@,
        }
    }
}

impl KeyInput {
    /// A latch in which no key is held and none has changed.
    pub fn new() -> (latch: KeyInput)
        ensures
            latch@ == KeyState::empty(),
    {
        KeyInput {
            keys_pressed: HashSet::new(),
            keys_just_pressed: HashSet::new(),
            keys_just_released: HashSet::new(),
        }
    }

    /// Takes an event in. Only keyboard input changes the latch.
    pub fn handle_event(&mut self, event: &WindowEvent)
        ensures
            final(self)@ == old(self)@.after_event(*event),
    {
        match event {
            WindowEvent::KeyboardInput { logical_key, state } => {
                match state {
                    ElementState::Pressed => {
                        if !self.keys_pressed.contains(logical_key) {
                            self.keys_just_pressed.insert(*logical_key);
                        }
                        self.keys_pressed.insert(*logical_key);
                    },
                    ElementState::Released => {
                        self.keys_pressed.remove(logical_key);
                        self.keys_just_released.insert(*logical_key);
                    },
                }
            },
            _ => {},
        }
    }

    /// Marks the frame boundary: forgets which keys went down or came up,
    /// and keeps which are held.
    pub fn end_frame(&mut self)
        ensures
            final(self)@ == old(self)@.end_frame(),
            final(self)@.just_pressed == Set::<Key>::empty(),
            final(self)@.just_released == Set::<Key>::empty(),
            final(self)@.pressed == old(self)@.pressed,
    {
        self.keys_just_pressed.clear();
        self.keys_just_released.clear();
    }

    /// Whether `key` is held.
    pub fn key_down(&self, key: &Key) -> (down: bool)
        ensures
            down == self@.pressed.contains(*key),
    {
        self.keys_pressed.contains(key)
    }

    /// Whether `key` went down this frame while not held.
    pub fn key_just_pressed(&self, key: &Key) -> (pressed: bool)
        ensures
            pressed == self@.just_pressed.contains(*key),
    {
        self.keys_just_pressed.contains(key)
    }

    /// Whether `key` came up this frame.
    pub fn key_just_released(&self, key: &Key) -> (released: bool)
        ensures
            released == self@.just_released.contains(*key),
    {
        self.keys_just_released.contains(key)
    }
}

/// At a frame boundary, and in a new latch, every key that went down is
/// held, none both went down and came up, and none that came up is held.
pub proof fn lemma_frame_boundary_is_settled(state: KeyState)
    ensures
        state.end_frame().just_pressed_are_down(),
        state.end_frame().edges_are_apart(),
        state.end_frame().just_released_are_up(),
        KeyState::empty().just_pressed_are_down(),
        KeyState::empty().edges_are_apart(),
        KeyState::empty().just_released_are_up(),
{
}

/// At every point of a frame every key that went down in it is held, as
/// long as no key came up in the frame in which it went down.
pub proof fn lemma_just_pressed_implies_down(start: KeyState, events: Seq<WindowEvent>)
    requires
        start.end_frame().no_fresh_key_released(events),
    ensures
        forall|key: Key|
            start.end_frame().after_events(events).just_pressed.contains(key)
                ==> start.end_frame().after_events(events).pressed.contains(key),
    decreases events.len(),
{
    let frame = start.end_frame();
    if events.len() > 0 {
        let front = events.drop_last();
        assert forall|i: int| 0 <= i < front.len() implies !frame.after_events(
            front.take(i),
        ).releases_fresh_key(#[trigger] front[i]) by {
            assert(front.take(i) =~= events.take(i));
            assert(front[i] == events[i]);
        }
        lemma_just_pressed_implies_down(start, front);
        let last: int = events.len() - 1;
        assert(events.take(last) =~= front);
        assert(!frame.after_events(front).releases_fresh_key(events[last]));
        lemma_just_pressed_stay_down(frame.after_events(front), events.last());
    }
}

/// At every point of a frame no key has both gone down and come up in it,
/// as long as no key turned twice in the frame: none came up after it went
/// down, and none went down anew after it came up.
pub proof fn lemma_not_both_edges(start: KeyState, events: Seq<WindowEvent>)
    requires
        start.end_frame().no_key_turned_back(events),
    ensures
        forall|key: Key|
            !(start.end_frame().after_events(events).just_pressed.contains(key)
                && start.end_frame().after_events(events).just_released.contains(key)),
    decreases events.len(),
{
    let frame = start.end_frame();
    if events.len() > 0 {
        let front = events.drop_last();
        assert forall|i: int| 0 <= i < front.len() implies {
            &&& !frame.after_events(front.take(i)).releases_fresh_key(#[trigger] front[i])
            &&& !frame.after_events(front.take(i)).presses_released_key(front[i])
        } by {
            assert(front.take(i) =~= events.take(i));
            assert(front[i] == events[i]);
        }
        lemma_not_both_edges(start, front);
        let last: int = events.len() - 1;
        assert(events.take(last) =~= front);
        assert(!frame.after_events(front).releases_fresh_key(events[last]));
        assert(!frame.after_events(front).presses_released_key(events[last]));
        lemma_edges_stay_apart(frame.after_events(front), events.last());
    }
}

/// Within a frame, every key that went down stays held through an event,
/// unless the event lets such a key come up again: then, and only then,
/// that key went down this frame and is not held.
pub proof fn lemma_just_pressed_stay_down(state: KeyState, event: WindowEvent)
    requires
        state.just_pressed_are_down(),
    ensures
        state.after_event(event).just_pressed_are_down() <==> !state.releases_fresh_key(event),
{
    if let WindowEvent::KeyboardInput { logical_key, state: ElementState::Released } = event {
        if state.just_pressed.contains(logical_key) {
            let after = state.after_event(event);
            assert(after.just_pressed.contains(logical_key));
            assert(!after.pressed.contains(logical_key));
        }
    }
}

/// Within a frame, no key both went down and came up after an event,
/// unless the event turns a key back that has turned in this frame already:
/// it lets a key come up that went down, or go down anew that came up.
pub proof fn lemma_edges_stay_apart(state: KeyState, event: WindowEvent)
    requires
        state.edges_are_apart(),
    ensures
        state.after_event(event).edges_are_apart() <==> !state.releases_fresh_key(event)
            && !state.presses_released_key(event),
{
    let after = state.after_event(event);
    if let WindowEvent::KeyboardInput { logical_key, state: _ } = event {
        if state.releases_fresh_key(event) || state.presses_released_key(event) {
            assert(after.just_pressed.contains(logical_key));
            assert(after.just_released.contains(logical_key));
        }
    }
}

/// Within a frame, no key that came up is held after an event, unless the
/// event lets such a key go down anew.
pub proof fn lemma_just_released_stay_up(state: KeyState, event: WindowEvent)
    requires
        state.just_released_are_up(),
    ensures
        state.after_event(event).just_released_are_up() <==> !state.presses_released_key(event),
{
    let after = state.after_event(event);
    if let WindowEvent::KeyboardInput { logical_key, state: ElementState::Pressed } = event {
        if state.just_released.contains(logical_key) {
            assert(after.just_released.contains(logical_key));
            assert(after.pressed.contains(logical_key));
        }
    }
}

/// A second frame boundary with no event since the first changes nothing.
pub proof fn lemma_key_end_frame_idempotent(state: KeyState)
    ensures
        state.end_frame().end_frame() == state.end_frame(),
{
}

} // verus!
