//! What the player asked for since the last frame: one flag per command,
//! raised by the events of the window and lowered once a frame.

use vstd::prelude::*;

verus! {

/// The keys the game listens to.
#[derive(PartialEq, Eq, Structural, Copy, Clone, Debug)]
pub enum Key {
    Space,
    Digit1,
    Digit2,
    Digit3,
    Digit4,
    Digit5,
    ArrowUp,
    ArrowDown,
    KeyQ,
    KeyA,
    KeyW,
    KeyR,
    KeyZ,
    KeyX,
    KeyS,
    /// Any other key.
    Other,
}

/// What the window reports, as far as the game cares.
#[derive(PartialEq, Eq, Structural, Copy, Clone, Debug)]
pub enum InputEvent {
    /// A key went down.
    KeyPressed(Key),
    /// The left mouse button went down.
    LeftPressed,
    /// The left mouse button went up.
    LeftReleased,
    /// The cursor moved.
    CursorMoved,
    /// Anything else.
    Other,
}

/// The commands that are pending.
#[derive(PartialEq, Eq, Structural, Copy, Clone, Debug)]
pub struct InputBuffer {
    pub is_space_pressed: bool,
    pub is_left_clicked: bool,
    pub debouncing: bool,
    pub is_1_pressed: bool,
    pub is_2_pressed: bool,
    pub is_3_pressed: bool,
    pub is_4_pressed: bool,
    pub is_5_pressed: bool,
    pub is_up_pressed: bool,
    pub is_down_pressed: bool,
    pub is_q_pressed: bool,
    pub is_a_pressed: bool,
    pub is_r_pressed: bool,
    pub is_z_pressed: bool,
    pub is_x_pressed: bool,
}

/// The buffer with nothing pending.
pub open spec fn idle() -> InputBuffer {
    InputBuffer {
        is_space_pressed: false,
        is_left_clicked: false,
        debouncing: false,
        is_1_pressed: false,
        is_2_pressed: false,
        is_3_pressed: false,
        is_4_pressed: false,
        is_5_pressed: false,
        is_up_pressed: false,
        is_down_pressed: false,
        is_q_pressed: false,
        is_a_pressed: false,
        is_r_pressed: false,
        is_z_pressed: false,
        is_x_pressed: false,
    }
}

/// Whether the game takes `event` for itself. It takes the keys it knows and
/// the left mouse button; a moving cursor and everything else it passes on.
pub open spec fn consumes(event: InputEvent) -> bool {
    match event {
        InputEvent::KeyPressed(key) => key != Key::Other,
        InputEvent::LeftPressed | InputEvent::LeftReleased => true,
        _ => false,
    }
}

/// The buffer `buffer` once `key` has gone down: the flag of the key is
/// raised, where `W` and `S` stand for up and down.
pub open spec fn pressed(buffer: InputBuffer, key: Key) -> InputBuffer {
    match key {
        Key::Space => InputBuffer { is_space_pressed: true, ..buffer },
        Key::Digit1 => InputBuffer { is_1_pressed: true, ..buffer },
        Key::Digit2 => InputBuffer { is_2_pressed: true, ..buffer },
        Key::Digit3 => InputBuffer { is_3_pressed: true, ..buffer },
        Key::Digit4 => InputBuffer { is_4_pressed: true, ..buffer },
        Key::Digit5 => InputBuffer { is_5_pressed: true, ..buffer },
        Key::ArrowUp => InputBuffer { is_up_pressed: true, ..buffer },
        Key::KeyW => InputBuffer { is_up_pressed: true, ..buffer },
        Key::ArrowDown => InputBuffer { is_down_pressed: true, ..buffer },
        Key::KeyS => InputBuffer { is_down_pressed: true, ..buffer },
        Key::KeyQ => InputBuffer { is_q_pressed: true, ..buffer },
        Key::KeyA => InputBuffer { is_a_pressed: true, ..buffer },
        Key::KeyR => InputBuffer { is_r_pressed: true, ..buffer },
        Key::KeyZ => InputBuffer { is_z_pressed: true, ..buffer },
        Key::KeyX => InputBuffer { is_x_pressed: true, ..buffer },
        Key::Other => buffer,
    }
}

/// The buffer `buffer` once `event` has come in: a key raises its flag, and
/// the mouse flag follows the left button.
pub open spec fn received(buffer: InputBuffer, event: InputEvent) -> InputBuffer {
    match event {
        InputEvent::KeyPressed(key) => pressed(buffer, key),
        InputEvent::LeftPressed => InputBuffer { is_left_clicked: true, ..buffer },
        InputEvent::LeftReleased => InputBuffer { is_left_clicked: false, ..buffer },
        _ => buffer,
    }
}

impl InputBuffer {
    /// A buffer with nothing pending.
    pub fn new() -> (buffer: Self)
        ensures
            buffer == idle(),
    {
        Self {
            is_space_pressed: false,
            is_left_clicked: false,
            debouncing: false,
            is_1_pressed: false,
            is_2_pressed: false,
            is_3_pressed: false,
            is_4_pressed: false,
            is_5_pressed: false,
            is_up_pressed: false,
            is_down_pressed: false,
            is_q_pressed: false,
            is_a_pressed: false,
            is_r_pressed: false,
            is_z_pressed: false,
            is_x_pressed: false,
        }
    }

    /// Lowers every flag but the one of the mouse button, which stays up for
    /// as long as the button is held.
    pub fn reset_input(&mut self)
        ensures
            *final(self) == (InputBuffer { is_left_clicked: old(self).is_left_clicked, ..idle() }),
    {
        self.is_space_pressed = false;
        self.debouncing = false;
        self.is_1_pressed = false;
        self.is_2_pressed = false;
        self.is_3_pressed = false;
        self.is_4_pressed = false;
        self.is_5_pressed = false;
        self.is_up_pressed = false;
        self.is_down_pressed = false;
        self.is_q_pressed = false;
        self.is_a_pressed = false;
        self.is_r_pressed = false;
        self.is_z_pressed = false;
        self.is_x_pressed = false;
    }

    /// Raises the flag of `key` and says whether the game knows the key.
    pub fn press(&mut self, key: Key) -> (known: bool)
        ensures
            *final(self) == pressed(*old(self), key),
            known == (key != Key::Other),
    {
        let now = *self;
        let next = match key {
            Key::Space => InputBuffer { is_space_pressed: true, ..now },
            Key::Digit1 => InputBuffer { is_1_pressed: true, ..now },
            Key::Digit2 => InputBuffer { is_2_pressed: true, ..now },
            Key::Digit3 => InputBuffer { is_3_pressed: true, ..now },
            Key::Digit4 => InputBuffer { is_4_pressed: true, ..now },
            Key::Digit5 => InputBuffer { is_5_pressed: true, ..now },
            Key::ArrowUp => InputBuffer { is_up_pressed: true, ..now },
            Key::KeyW => InputBuffer { is_up_pressed: true, ..now },
            Key::ArrowDown => InputBuffer { is_down_pressed: true, ..now },
            Key::KeyS => InputBuffer { is_down_pressed: true, ..now },
            Key::KeyQ => InputBuffer { is_q_pressed: true, ..now },
            Key::KeyA => InputBuffer { is_a_pressed: true, ..now },
            Key::KeyR => InputBuffer { is_r_pressed: true, ..now },
            Key::KeyZ => InputBuffer { is_z_pressed: true, ..now },
            Key::KeyX => InputBuffer { is_x_pressed: true, ..now },
            Key::Other => now,
        };
        *self = next;
        key != Key::Other
    }

    /// Takes in `event` and says whether the game took it for itself.
    pub fn get_input(&mut self, event: InputEvent) -> (taken: bool)
        ensures
            *final(self) == received(*old(self), event),
            taken == consumes(event),
    {
        match event {
            InputEvent::KeyPressed(key) => self.press(key),
            InputEvent::LeftPressed => {
                self.is_left_clicked = true;
                true
            },
            InputEvent::LeftReleased => {
                self.is_left_clicked = false;
                true
            },
            _ => false,
        }
    }
}

} // verus!
