//! Keyboard and mouse-button state across frames: which keys are held, and
//! which were pressed or released since the frame began.
use vstd::prelude::*;
use rustc_hash::FxHashSet;
use crate::key_set::{set_contains, set_insert, set_remove};

verus! {

/// Whether a key or button went down or up.
#[derive(Clone, Copy, PartialEq, Eq, Structural, Debug)]
pub enum ElementState {
    Pressed,
    Released,
}

/// The window events that change the key and button state. Keys and mouse
/// buttons are identified by integer codes chosen by the windowing layer.
#[derive(Clone, Copy, PartialEq, Eq, Structural, Debug)]
pub enum InputEvent {
    Key { code: u32, state: ElementState },
    MouseButton { button: u32, state: ElementState },
    Other,
}

/// The abstract state of an `InputManager`.
pub struct InputState {
    pub held_keys: Set<u32>,
    pub pressed_keys: Set<u32>,
    pub released_keys: Set<u32>,
    pub held_buttons: Set<u32>,
    pub pressed_buttons: Set<u32>,
    pub released_buttons: Set<u32>,
}

/// Tracks held keys and buttons, and those pressed or released this frame.
pub struct InputManager {
    held_keys: FxHashSet<u32>,
    pressed_keys: FxHashSet<u32>,
    released_keys: FxHashSet<u32>,
    mouse_buttons_held: FxHashSet<u32>,
    mouse_buttons_pressed: FxHashSet<u32>,
    mouse_buttons_released: FxHashSet<u32>,
}

impl View for InputManager {
    type V = InputState;

    closed spec fn view(&self) -> InputState {
        InputState {
            held_keys: self.held_keys@,
            pressed_keys: self.pressed_keys@,
            released_keys: self.released_keys@,
            held_buttons: self.mouse_buttons_held@,
            pressed_buttons: self.mouse_buttons_pressed@,
            released_buttons: self.mouse_buttons_released@,
        }
    }
}

/// A press adds the code to the held set, and to the pressed set only if it
/// was not already held (a key repeat is no new press). A release removes it
/// from the held set and adds it to the released set.
pub open spec fn press_release(
    held: Set<u32>,
    pressed: Set<u32>,
    released: Set<u32>,
    code: u32,
    state: ElementState,
) -> (Set<u32>, Set<u32>, Set<u32>) {
    match state {
        ElementState::Pressed => (
            held.insert(code),
            if held.contains(code) { pressed } else { pressed.insert(code) },
            released,
        ),
        ElementState::Released => (held.remove(code), pressed, released.insert(code)),
    }
}

/// The state after one event.
pub open spec fn apply_event(s: InputState, e: InputEvent) -> InputState {
    match e {
        InputEvent::Key { code, state } => {
            let (h, p, r) = press_release(s.held_keys, s.pressed_keys, s.released_keys, code, state);
            InputState { held_keys: h, pressed_keys: p, released_keys: r, ..s }
        },
        InputEvent::MouseButton { button, state } => {
            let (h, p, r) = press_release(
                s.held_buttons,
                s.pressed_buttons,
                s.released_buttons,
                button,
                state,
            );
            InputState { held_buttons: h, pressed_buttons: p, released_buttons: r, ..s }
        },
        InputEvent::Other => s,
    }
}

/// The state after a sequence of events, applied in order.
pub open spec fn apply_events(s: InputState, es: Seq<InputEvent>) -> InputState
    decreases es.len(),
{
    if es.len() == 0 {
        s
    } else {
        apply_event(apply_events(s, es.drop_last()), es.last())
    }
}

impl InputManager {
    /// A manager with nothing held, pressed or released.
    pub fn new() -> (m: Self)
        ensures
            m@.held_keys == Set::<u32>::empty(),
            m@.pressed_keys == Set::<u32>::empty(),
            m@.released_keys == Set::<u32>::empty(),
            m@.held_buttons == Set::<u32>::empty(),
            m@.pressed_buttons == Set::<u32>::empty(),
            m@.released_buttons == Set::<u32>::empty(),
    {
        InputManager {
            held_keys: FxHashSet::default(),
            pressed_keys: FxHashSet::default(),
            released_keys: FxHashSet::default(),
            mouse_buttons_held: FxHashSet::default(),
            mouse_buttons_pressed: FxHashSet::default(),
            mouse_buttons_released: FxHashSet::default(),
        }
    }

    /// Starts a new frame: forgets this frame's presses and releases and
    /// keeps what is held.
    pub fn begin_frame(&mut self)
        ensures
            final(self)@.held_keys == old(self)@.held_keys,
            final(self)@.held_buttons == old(self)@.held_buttons,
            final(self)@.pressed_keys == Set::<u32>::empty(),
            final(self)@.released_keys == Set::<u32>::empty(),
            final(self)@.pressed_buttons == Set::<u32>::empty(),
            final(self)@.released_buttons == Set::<u32>::empty(),
    {
        self.pressed_keys.clear();
        self.released_keys.clear();
        self.mouse_buttons_pressed.clear();
        self.mouse_buttons_released.clear();
    }

    /// Applies one key or mouse-button event.
    pub fn handle_window_event(&mut self, event: &InputEvent)
        ensures
            final(self)@ == apply_event(old(self)@, *event),
    {
        match *event {
            InputEvent::Key { code, state } => match state {
                ElementState::Pressed => {
                    if !set_contains(&self.held_keys, code) {
                        set_insert(&mut self.pressed_keys, code);
                    }
                    set_insert(&mut self.held_keys, code);
                },
                ElementState::Released => {
                    set_remove(&mut self.held_keys, code);
                    set_insert(&mut self.released_keys, code);
                },
            },
            InputEvent::MouseButton { button, state } => match state {
                ElementState::Pressed => {
                    if !set_contains(&self.mouse_buttons_held, button) {
                        set_insert(&mut self.mouse_buttons_pressed, button);
                    }
                    set_insert(&mut self.mouse_buttons_held, button);
                },
                ElementState::Released => {
                    set_remove(&mut self.mouse_buttons_held, button);
                    set_insert(&mut self.mouse_buttons_released, button);
                },
            },
            InputEvent::Other => {},
        }
    }

    /// Whether the key is held down.
    pub fn is_key_down(&self, key: u32) -> (b: bool)
        ensures
            b == self@.held_keys.contains(key),
    {
        set_contains(&self.held_keys, key)
    }

    /// Whether the key went down since the frame began while it was not held.
    pub fn just_pressed(&self, key: u32) -> (b: bool)
        ensures
            b == self@.pressed_keys.contains(key),
    {
        set_contains(&self.pressed_keys, key)
    }

    /// Whether the key went up since the frame began.
    pub fn just_released(&self, key: u32) -> (b: bool)
        ensures
            b == self@.released_keys.contains(key),
    {
        set_contains(&self.released_keys, key)
    }
}

/// The state of the last event for key `k` in `es`, if any.
pub open spec fn last_key_state(es: Seq<InputEvent>, k: u32) -> Option<ElementState>
    decreases es.len(),
{
    if es.len() == 0 {
        None
    } else {
        match es.last() {
            InputEvent::Key { code, state } => if code == k {
                Some(state)
            } else {
                last_key_state(es.drop_last(), k)
            },
            _ => last_key_state(es.drop_last(), k),
        }
    }
}

/// A key is held after a sequence of events exactly when the last event for
/// that key was a press, or, with no event for it, when it was held before.
pub proof fn lemma_key_held_follows_last_event(s: InputState, es: Seq<InputEvent>, k: u32)
    ensures
        apply_events(s, es).held_keys.contains(k) == match last_key_state(es, k) {
            Some(st) => st == ElementState::Pressed,
            None => s.held_keys.contains(k),
        },
    decreases es.len(),
{
    if es.len() > 0 {
        lemma_key_held_follows_last_event(s, es.drop_last(), k);
    }
}

/// A key counts as released in a frame exactly when it was already counted so
/// or some event of the sequence releases it.
pub proof fn lemma_key_released_iff_release_event(s: InputState, es: Seq<InputEvent>, k: u32)
    ensures
        apply_events(s, es).released_keys.contains(k) <==> (s.released_keys.contains(k)
            || es.contains(InputEvent::Key { code: k, state: ElementState::Released })),
    decreases es.len(),
{
    if es.len() > 0 {
        let e = InputEvent::Key { code: k, state: ElementState::Released };
        lemma_key_released_iff_release_event(s, es.drop_last(), k);
        if es.drop_last().contains(e) {
            let i = choose|i: int| 0 <= i < es.drop_last().len() && es.drop_last()[i] == e;
            assert(es[i] == e);
        }
        if es.contains(e) && !es.drop_last().contains(e) {
            let i = choose|i: int| 0 <= i < es.len() && es[i] == e;
            if i < es.len() - 1 {
                assert(es.drop_last()[i] == e);
            }
        }
        if es.last() == e {
            assert(es[es.len() - 1] == e);
        }
    }
}

/// A key counts as pressed in a frame exactly when it was already counted so,
/// or some event of the sequence presses it while it is not held.
pub proof fn lemma_key_pressed_iff_fresh_press(s: InputState, es: Seq<InputEvent>, k: u32)
    ensures
        apply_events(s, es).pressed_keys.contains(k) <==> (s.pressed_keys.contains(k) || exists|
            i: int,
        |
            0 <= i < es.len() && es[i] == (InputEvent::Key { code: k, state: ElementState::Pressed })
                && !(#[trigger] apply_events(s, es.take(i))).held_keys.contains(k)),
    decreases es.len(),
{
    let e = InputEvent::Key { code: k, state: ElementState::Pressed };
    if es.len() > 0 {
        let init = es.drop_last();
        lemma_key_pressed_iff_fresh_press(s, init, k);
        assert(es.take(es.len() - 1) =~= init);
        assert forall|i: int| 0 <= i < init.len() implies #[trigger] es.take(i) =~= init.take(i) by {}
        if exists|i: int|
            0 <= i < init.len() && init[i] == e && !(#[trigger] apply_events(s, init.take(i))).held_keys.contains(k)
        {
            let i = choose|i: int|
                0 <= i < init.len() && init[i] == e && !(#[trigger] apply_events(s, init.take(i))).held_keys.contains(k);
            assert(es[i] == e);
            assert(es.take(i) =~= init.take(i));
        }
        if exists|i: int|
            0 <= i < es.len() && es[i] == e && !(#[trigger] apply_events(s, es.take(i))).held_keys.contains(k)
        {
            let i = choose|i: int|
                0 <= i < es.len() && es[i] == e && !(#[trigger] apply_events(s, es.take(i))).held_keys.contains(k);
            if i < es.len() - 1 {
                assert(init[i] == e);
                assert(es.take(i) =~= init.take(i));
            }
        }
    }
}

/// One event, stated on membership: pressing a code makes it held, and makes
/// it pressed this frame only if it was not held already; releasing a code
/// makes it not held and released this frame; every other code, and the
/// other device's sets, are unchanged; other events change nothing.
pub proof fn lemma_event_effect(st: InputState, e: InputEvent)
    ensures
        e is Other ==> apply_event(st, e) == st,
        e matches InputEvent::Key { code, state } ==> {
            let r = apply_event(st, e);
            &&& r.held_buttons == st.held_buttons
            &&& r.pressed_buttons == st.pressed_buttons
            &&& r.released_buttons == st.released_buttons
            &&& forall|k: u32|
                k != code ==> (#[trigger] r.held_keys.contains(k) == st.held_keys.contains(k)
                    && r.pressed_keys.contains(k) == st.pressed_keys.contains(k)
                    && r.released_keys.contains(k) == st.released_keys.contains(k))
            &&& state == ElementState::Pressed ==> {
                &&& r.held_keys.contains(code)
                &&& r.pressed_keys.contains(code) == (st.pressed_keys.contains(code) || !st.held_keys.contains(
                    code,
                ))
                &&& r.released_keys.contains(code) == st.released_keys.contains(code)
            }
            &&& state == ElementState::Released ==> {
                &&& !r.held_keys.contains(code)
                &&& r.released_keys.contains(code)
                &&& r.pressed_keys.contains(code) == st.pressed_keys.contains(code)
            }
        },
        e matches InputEvent::MouseButton { button, state } ==> {
            let r = apply_event(st, e);
            &&& r.held_keys == st.held_keys
            &&& r.pressed_keys == st.pressed_keys
            &&& r.released_keys == st.released_keys
            &&& forall|b: u32|
                b != button ==> (#[trigger] r.held_buttons.contains(b) == st.held_buttons.contains(b)
                    && r.pressed_buttons.contains(b) == st.pressed_buttons.contains(b)
                    && r.released_buttons.contains(b) == st.released_buttons.contains(b))
            &&& state == ElementState::Pressed ==> {
                &&& r.held_buttons.contains(button)
                &&& r.pressed_buttons.contains(button) == (st.pressed_buttons.contains(button)
                    || !st.held_buttons.contains(button))
                &&& r.released_buttons.contains(button) == st.released_buttons.contains(button)
            }
            &&& state == ElementState::Released ==> {
                &&& !r.held_buttons.contains(button)
                &&& r.released_buttons.contains(button)
                &&& r.pressed_buttons.contains(button) == st.pressed_buttons.contains(button)
            }
        },
{
}

} // verus!
