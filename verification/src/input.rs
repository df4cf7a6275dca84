//! Keyboard and mouse state. Events arrive from the window system as
//! plain values; every transition of the per-key state machine is stated
//! exactly. Key states live in one table indexed by key code, so an event
//! touches exactly one entry.

use crate::transform::Vec2f;
use vstd::prelude::*;

verus! {

/// The observed state of one key or mouse button across frames.
#[derive(PartialEq, Eq, Structural, Debug, Clone, Copy)]
pub enum KeyState {
    Nothing,
    Enter,
    Release,
    Hold,
}

impl KeyState {
    pub fn is_held(self) -> (r: bool)
        ensures
            r == (self is Hold),
    {
        matches!(self, KeyState::Hold)
    }

    pub fn is_down(self) -> (r: bool)
        ensures
            r == (self is Hold || self is Enter),
    {
        matches!(self, KeyState::Hold | KeyState::Enter)
    }

    pub fn is_up(self) -> (r: bool)
        ensures
            r == (self is Release || self is Nothing),
    {
        matches!(self, KeyState::Release | KeyState::Nothing)
    }

    pub fn is_released(self) -> (r: bool)
        ensures
            r == (self is Release),
    {
        matches!(self, KeyState::Release)
    }

    pub fn is_entered(self) -> (r: bool)
        ensures
            r == (self is Enter),
    {
        matches!(self, KeyState::Enter)
    }
}

/// Whether a key or button event reports a press or a release.
#[derive(PartialEq, Eq, Structural, Debug, Clone, Copy)]
pub enum ElementState {
    Pressed,
    Released,
}

/// Mouse buttons the input state tracks.
#[derive(PartialEq, Eq, Structural, Debug, Clone, Copy)]
pub enum MouseButton {
    Left,
    Right,
    Middle,
    Other,
}

/// Physical keys the input state tracks.
#[derive(PartialEq, Eq, Structural, Debug, Clone, Copy)]
pub enum KeyCode {
    AltLeft,
    AltRight,
    ShiftLeft,
    ShiftRight,
    KeyW,
    KeyA,
    KeyS,
    KeyD,
    KeyQ,
    KeyE,
    KeyZ,
    KeyX,
    KeyC,
    KeyV,
    Escape,
    Space,
    Digit0,
    Digit1,
    Digit2,
    Digit3,
    Digit4,
    Digit5,
    Digit6,
    Digit7,
    Digit8,
    Digit9,
    ArrowLeft,
    ArrowRight,
    ArrowUp,
    ArrowDown,
    Backspace,
    Other,
}

/// Number of tracked keys; `KeyCode::Other` maps past the end and is
/// ignored.
pub const KEY_TABLE_LEN: usize = 31;

/// The slot of a key in the key table.
pub open spec fn key_index_spec(k: KeyCode) -> int {
    match k {
        KeyCode::AltLeft => 0,
        KeyCode::AltRight => 1,
        KeyCode::ShiftLeft => 2,
        KeyCode::ShiftRight => 3,
        KeyCode::KeyW => 4,
        KeyCode::KeyA => 5,
        KeyCode::KeyS => 6,
        KeyCode::KeyD => 7,
        KeyCode::KeyQ => 8,
        KeyCode::KeyE => 9,
        KeyCode::KeyZ => 10,
        KeyCode::KeyX => 11,
        KeyCode::KeyC => 12,
        KeyCode::KeyV => 13,
        KeyCode::Escape => 14,
        KeyCode::Space => 15,
        KeyCode::Digit0 => 16,
        KeyCode::Digit1 => 17,
        KeyCode::Digit2 => 18,
        KeyCode::Digit3 => 19,
        KeyCode::Digit4 => 20,
        KeyCode::Digit5 => 21,
        KeyCode::Digit6 => 22,
        KeyCode::Digit7 => 23,
        KeyCode::Digit8 => 24,
        KeyCode::Digit9 => 25,
        KeyCode::ArrowLeft => 26,
        KeyCode::ArrowRight => 27,
        KeyCode::ArrowUp => 28,
        KeyCode::ArrowDown => 29,
        KeyCode::Backspace => 30,
        KeyCode::Other => 31,
    }
}

pub fn key_index(k: &KeyCode) -> (r: usize)
    ensures
        r == key_index_spec(*k),
{
    match k {
        KeyCode::AltLeft => 0,
        KeyCode::AltRight => 1,
        KeyCode::ShiftLeft => 2,
        KeyCode::ShiftRight => 3,
        KeyCode::KeyW => 4,
        KeyCode::KeyA => 5,
        KeyCode::KeyS => 6,
        KeyCode::KeyD => 7,
        KeyCode::KeyQ => 8,
        KeyCode::KeyE => 9,
        KeyCode::KeyZ => 10,
        KeyCode::KeyX => 11,
        KeyCode::KeyC => 12,
        KeyCode::KeyV => 13,
        KeyCode::Escape => 14,
        KeyCode::Space => 15,
        KeyCode::Digit0 => 16,
        KeyCode::Digit1 => 17,
        KeyCode::Digit2 => 18,
        KeyCode::Digit3 => 19,
        KeyCode::Digit4 => 20,
        KeyCode::Digit5 => 21,
        KeyCode::Digit6 => 22,
        KeyCode::Digit7 => 23,
        KeyCode::Digit8 => 24,
        KeyCode::Digit9 => 25,
        KeyCode::ArrowLeft => 26,
        KeyCode::ArrowRight => 27,
        KeyCode::ArrowUp => 28,
        KeyCode::ArrowDown => 29,
        KeyCode::Backspace => 30,
        KeyCode::Other => 31,
    }
}

/// A window event, already reduced to plain values.
#[derive(PartialEq, Eq, Structural, Debug, Clone, Copy)]
pub enum WindowEvent {
    CursorMoved { x: i64, y: i64 },
    MouseWheel,
    MouseInput { state: ElementState, button: MouseButton },
    KeyboardInput { state: ElementState, key: KeyCode },
    Other,
}

/// The next state of a key after one press/release event.
pub open spec fn next_key_state(current: KeyState, input: ElementState) -> KeyState {
    match input {
        ElementState::Released => KeyState::Release,
        ElementState::Pressed => match current {
            KeyState::Release => KeyState::Enter,
            KeyState::Enter => KeyState::Hold,
            KeyState::Hold => KeyState::Hold,
            KeyState::Nothing => KeyState::Enter,
        },
    }
}

pub struct InputState {
    pub mouse_wheel_delta: Vec2f,
    pub mouse_delta: Vec2f,
    pub mouse_position: Vec2f,
    pub mouse_left: KeyState,
    pub mouse_right: KeyState,
    pub mouse_middle: KeyState,
    pub mouse_on_screen: bool,
    pub keys: Vec<KeyState>,
}

impl InputState {
    /// The key table always has one slot per tracked key.
    pub closed spec fn wf(&self) -> bool {
        self.keys@.len() == KEY_TABLE_LEN
    }

    /// The state of one key.
    pub closed spec fn key_spec(&self, k: KeyCode) -> KeyState {
        if key_index_spec(k) < KEY_TABLE_LEN {
            self.keys@[key_index_spec(k)]
        } else {
            KeyState::Nothing
        }
    }

    /// All keys are unpressed.
    pub open spec fn all_keys_clear(&self) -> bool {
        forall|k: KeyCode| self.key_spec(k) == KeyState::Nothing
    }

    pub fn new() -> (r: InputState)
        ensures
            r.wf(),
            r.all_keys_clear(),
            r.mouse_wheel_delta == (Vec2f { x: 0, y: 0 }),
            r.mouse_delta == (Vec2f { x: 0, y: 0 }),
            r.mouse_position == (Vec2f { x: 0, y: 0 }),
            r.mouse_left == KeyState::Nothing,
            r.mouse_right == KeyState::Nothing,
            r.mouse_middle == KeyState::Nothing,
            !r.mouse_on_screen,
    {
        let mut keys: Vec<KeyState> = Vec::new();
        let mut i: usize = 0;
        while i < KEY_TABLE_LEN
            invariant
                i <= KEY_TABLE_LEN,
                keys@.len() == i,
                forall|j: int| 0 <= j < i ==> keys@[j] == KeyState::Nothing,
            decreases KEY_TABLE_LEN - i,
        {
            keys.push(KeyState::Nothing);
            i = i + 1;
        }
        InputState {
            mouse_wheel_delta: Vec2f { x: 0, y: 0 },
            mouse_delta: Vec2f { x: 0, y: 0 },
            mouse_position: Vec2f { x: 0, y: 0 },
            mouse_left: KeyState::Nothing,
            mouse_right: KeyState::Nothing,
            mouse_middle: KeyState::Nothing,
            mouse_on_screen: false,
            keys,
        }
    }

    /// Reads the state of one key.
    pub fn key(&self, k: &KeyCode) -> (r: KeyState)
        requires
            self.wf(),
        ensures
            r == self.key_spec(*k),
    {
        let i = key_index(k);
        if i < KEY_TABLE_LEN {
            self.keys[i]
        } else {
            KeyState::Nothing
        }
    }

    /// Applies one press/release transition to a single key state.
    pub fn set_key(current_state: &KeyState, input_state: &ElementState) -> (r: KeyState)
        ensures
            r == next_key_state(*current_state, *input_state),
    {
        match input_state {
            ElementState::Released => KeyState::Release,
            ElementState::Pressed => match current_state {
                KeyState::Release => KeyState::Enter,
                KeyState::Enter => KeyState::Hold,
                KeyState::Hold => KeyState::Hold,
                KeyState::Nothing => KeyState::Enter,
            },
        }
    }

    /// Applies one press/release transition to a single mouse button state.
    pub fn set_mouse_key(current_state: &KeyState, input_state: &ElementState) -> (r: KeyState)
        ensures
            r == next_key_state(*current_state, *input_state),
    {
        InputState::set_key(current_state, input_state)
    }

    /// Routes a keyboard event to the state of the key it names; every
    /// other key and all mouse state is untouched.
    pub fn set_key_state(&mut self, state: &ElementState, physical: &KeyCode)
        requires
            old(self).wf(),
        ensures
            final(self).wf(),
            final(self).key_spec(*physical) == if *physical is Other {
                KeyState::Nothing
            } else {
                next_key_state(old(self).key_spec(*physical), *state)
            },
            forall|k: KeyCode|
                key_index_spec(k) != key_index_spec(*physical) ==> final(self).key_spec(k) == old(
                    self,
                ).key_spec(k),
            final(self).mouse_wheel_delta == old(self).mouse_wheel_delta,
            final(self).mouse_delta == old(self).mouse_delta,
            final(self).mouse_position == old(self).mouse_position,
            final(self).mouse_left == old(self).mouse_left,
            final(self).mouse_right == old(self).mouse_right,
            final(self).mouse_middle == old(self).mouse_middle,
            final(self).mouse_on_screen == old(self).mouse_on_screen,
    {
        let i = key_index(physical);
        if i < KEY_TABLE_LEN {
            let next = InputState::set_key(&self.keys[i], state);
            self.keys[i] = next;
        }
    }

    /// Folds one window event into the input state; `Some` marks events
    /// the input state consumed. Cursor motion updates the position and
    /// the delta against the previous position; button and key events
    /// step the matching state machine.
    pub fn read_event(&mut self, event: &WindowEvent) -> (r: Option<()>)
        requires
            old(self).wf(),
        ensures
            final(self).wf(),
            r is Some <==> !(*event is Other),
            match *event {
                WindowEvent::CursorMoved { x, y } => {
                    &&& final(self).mouse_position == (Vec2f { x, y })
                    &&& final(self).mouse_delta == (Vec2f {
                        x: crate::transform::fadd(
                            x,
                            crate::transform::fneg(old(self).mouse_position.x),
                        ),
                        y: crate::transform::fadd(
                            y,
                            crate::transform::fneg(old(self).mouse_position.y),
                        ),
                    })
                    &&& forall|k: KeyCode| final(self).key_spec(k) == old(self).key_spec(k)
                    &&& final(self).mouse_left == old(self).mouse_left
                    &&& final(self).mouse_right == old(self).mouse_right
                    &&& final(self).mouse_middle == old(self).mouse_middle
                },
                WindowEvent::MouseWheel => *final(self) == *old(self),
                WindowEvent::MouseInput { state, button } => {
                    &&& final(self).mouse_left == if button is Left {
                        next_key_state(old(self).mouse_left, state)
                    } else {
                        old(self).mouse_left
                    }
                    &&& final(self).mouse_right == if button is Right {
                        next_key_state(old(self).mouse_right, state)
                    } else {
                        old(self).mouse_right
                    }
                    &&& final(self).mouse_middle == if button is Middle {
                        next_key_state(old(self).mouse_middle, state)
                    } else {
                        old(self).mouse_middle
                    }
                    &&& forall|k: KeyCode| final(self).key_spec(k) == old(self).key_spec(k)
                    &&& final(self).mouse_position == old(self).mouse_position
                    &&& final(self).mouse_delta == old(self).mouse_delta
                },
                WindowEvent::KeyboardInput { state, key } => {
                    &&& final(self).key_spec(key) == if key is Other {
                        KeyState::Nothing
                    } else {
                        next_key_state(old(self).key_spec(key), state)
                    }
                    &&& forall|k: KeyCode|
                        key_index_spec(k) != key_index_spec(key) ==> final(self).key_spec(k) == old(
                            self,
                        ).key_spec(k)
                    &&& final(self).mouse_left == old(self).mouse_left
                    &&& final(self).mouse_right == old(self).mouse_right
                    &&& final(self).mouse_middle == old(self).mouse_middle
                    &&& final(self).mouse_position == old(self).mouse_position
                    &&& final(self).mouse_delta == old(self).mouse_delta
                },
                WindowEvent::Other => *final(self) == *old(self),
            },
    {
        match event {
            WindowEvent::CursorMoved { x, y } => {
                self.mouse_delta = Vec2f {
                    x: crate::transform::exec_fadd(
                        *x,
                        crate::transform::exec_fneg(self.mouse_position.x),
                    ),
                    y: crate::transform::exec_fadd(
                        *y,
                        crate::transform::exec_fneg(self.mouse_position.y),
                    ),
                };
                self.mouse_position = Vec2f { x: *x, y: *y };
                Some(())
            },
            WindowEvent::MouseWheel => Some(()),
            WindowEvent::MouseInput { state, button } => {
                match button {
                    MouseButton::Left => {
                        self.mouse_left = InputState::set_mouse_key(&self.mouse_left, state);
                    },
                    MouseButton::Right => {
                        self.mouse_right = InputState::set_mouse_key(&self.mouse_right, state);
                    },
                    MouseButton::Middle => {
                        self.mouse_middle = InputState::set_mouse_key(&self.mouse_middle, state);
                    },
                    MouseButton::Other => {
                    },
                }
                Some(())
            },
            WindowEvent::KeyboardInput { state, key } => {
                self.set_key_state(state, key);
                Some(())
            },
            WindowEvent::Other => None,
        }
    }
}

impl Default for InputState {
    fn default() -> (r: InputState)
        ensures
            r.wf(),
            r.all_keys_clear(),
    {
        InputState::new()
    }
}

} // verus!
