//! PS/2 keyboard driver: scancode decoding, modifier state, and the
//! event queue.

use vstd::prelude::*;

verus! {

/// A raw scancode byte from the controller.
#[derive(Clone, Copy, Debug, PartialEq, Eq, Structural)]
pub struct Scancode(u8);

impl Scancode {
    /// The raw byte.
    pub closed spec fn spec_code(self) -> u8 {
        self.0
    }

    /// Wrap a raw scancode byte.
    pub fn new(code: u8) -> (r: Self)
        ensures
            r.spec_code() == code,
    {
        Scancode(code)
    }

    /// The raw byte.
    pub fn as_u8(&self) -> (r: u8)
        ensures
            r == self.spec_code(),
    {
        self.0
    }
}

/// Decoded key identity.
#[derive(Clone, Copy, Debug, PartialEq, Eq, Structural)]
#[allow(missing_docs)]
pub enum KeyCode {
    A, B, C, D, E, F, G, H, I, J, K, L, M,
    N, O, P, Q, R, S, T, U, V, W, X, Y, Z,
    Num0, Num1, Num2, Num3, Num4,
    Num5, Num6, Num7, Num8, Num9,
    F1, F2, F3, F4, F5, F6,
    F7, F8, F9, F10, F11, F12,
    Escape, Backspace, Tab, Enter, Space,
    LeftShift, RightShift, LeftCtrl, RightCtrl,
    LeftAlt, RightAlt, CapsLock,
    Up, Down, Left, Right,
    Insert, Delete, Home, End, PageUp, PageDown,
    Unknown,
}

/// The key a set-1 make-code byte names.
pub open spec fn keycode_of(key: u8) -> KeyCode {
    if key == 0x1E { KeyCode::A }
    else if key == 0x30 { KeyCode::B }
    else if key == 0x2E { KeyCode::C }
    else if key == 0x20 { KeyCode::D }
    else if key == 0x12 { KeyCode::E }
    else if key == 0x21 { KeyCode::F }
    else if key == 0x22 { KeyCode::G }
    else if key == 0x23 { KeyCode::H }
    else if key == 0x17 { KeyCode::I }
    else if key == 0x24 { KeyCode::J }
    else if key == 0x25 { KeyCode::K }
    else if key == 0x26 { KeyCode::L }
    else if key == 0x32 { KeyCode::M }
    else if key == 0x31 { KeyCode::N }
    else if key == 0x18 { KeyCode::O }
    else if key == 0x19 { KeyCode::P }
    else if key == 0x10 { KeyCode::Q }
    else if key == 0x13 { KeyCode::R }
    else if key == 0x1F { KeyCode::S }
    else if key == 0x14 { KeyCode::T }
    else if key == 0x16 { KeyCode::U }
    else if key == 0x2F { KeyCode::V }
    else if key == 0x11 { KeyCode::W }
    else if key == 0x2D { KeyCode::X }
    else if key == 0x15 { KeyCode::Y }
    else if key == 0x2C { KeyCode::Z }
    else if key == 0x0B { KeyCode::Num0 }
    else if key == 0x02 { KeyCode::Num1 }
    else if key == 0x03 { KeyCode::Num2 }
    else if key == 0x04 { KeyCode::Num3 }
    else if key == 0x05 { KeyCode::Num4 }
    else if key == 0x06 { KeyCode::Num5 }
    else if key == 0x07 { KeyCode::Num6 }
    else if key == 0x08 { KeyCode::Num7 }
    else if key == 0x09 { KeyCode::Num8 }
    else if key == 0x0A { KeyCode::Num9 }
    else if key == 0x01 { KeyCode::Escape }
    else if key == 0x0E { KeyCode::Backspace }
    else if key == 0x0F { KeyCode::Tab }
    else if key == 0x1C { KeyCode::Enter }
    else if key == 0x39 { KeyCode::Space }
    else if key == 0x2A { KeyCode::LeftShift }
    else if key == 0x36 { KeyCode::RightShift }
    else if key == 0x1D { KeyCode::LeftCtrl }
    else if key == 0x38 { KeyCode::LeftAlt }
    else if key == 0x3A { KeyCode::CapsLock }
    else if key == 0x48 { KeyCode::Up }
    else if key == 0x50 { KeyCode::Down }
    else if key == 0x4B { KeyCode::Left }
    else if key == 0x4D { KeyCode::Right }
    else { KeyCode::Unknown }
}

/// A decoded key event with the modifier state it was typed under.
#[derive(Clone, Copy, Debug, PartialEq, Eq, Structural)]
pub struct KeyEvent {
    /// Which key
    pub keycode: KeyCode,
    /// Pressed (true) or released (false)
    pub pressed: bool,
    /// Shift or caps-lock effective
    pub shift: bool,
    /// Control held
    pub ctrl: bool,
    /// Alt held
    pub alt: bool,
}

/// The printable character a key event produces, if any: letters follow
/// the shift flag's case, digits shift to their symbols, and only presses
/// produce characters.
pub open spec fn ascii_of(e: KeyEvent) -> Option<char> {
    if !e.pressed {
        None
    } else {
        match e.keycode {
            KeyCode::A => Some(if e.shift { 'A' } else { 'a' }),
            KeyCode::B => Some(if e.shift { 'B' } else { 'b' }),
            KeyCode::C => Some(if e.shift { 'C' } else { 'c' }),
            KeyCode::D => Some(if e.shift { 'D' } else { 'd' }),
            KeyCode::E => Some(if e.shift { 'E' } else { 'e' }),
            KeyCode::F => Some(if e.shift { 'F' } else { 'f' }),
            KeyCode::G => Some(if e.shift { 'G' } else { 'g' }),
            KeyCode::H => Some(if e.shift { 'H' } else { 'h' }),
            KeyCode::I => Some(if e.shift { 'I' } else { 'i' }),
            KeyCode::J => Some(if e.shift { 'J' } else { 'j' }),
            KeyCode::K => Some(if e.shift { 'K' } else { 'k' }),
            KeyCode::L => Some(if e.shift { 'L' } else { 'l' }),
            KeyCode::M => Some(if e.shift { 'M' } else { 'm' }),
            KeyCode::N => Some(if e.shift { 'N' } else { 'n' }),
            KeyCode::O => Some(if e.shift { 'O' } else { 'o' }),
            KeyCode::P => Some(if e.shift { 'P' } else { 'p' }),
            KeyCode::Q => Some(if e.shift { 'Q' } else { 'q' }),
            KeyCode::R => Some(if e.shift { 'R' } else { 'r' }),
            KeyCode::S => Some(if e.shift { 'S' } else { 's' }),
            KeyCode::T => Some(if e.shift { 'T' } else { 't' }),
            KeyCode::U => Some(if e.shift { 'U' } else { 'u' }),
            KeyCode::V => Some(if e.shift { 'V' } else { 'v' }),
            KeyCode::W => Some(if e.shift { 'W' } else { 'w' }),
            KeyCode::X => Some(if e.shift { 'X' } else { 'x' }),
            KeyCode::Y => Some(if e.shift { 'Y' } else { 'y' }),
            KeyCode::Z => Some(if e.shift { 'Z' } else { 'z' }),
            KeyCode::Num0 => Some(if e.shift { ')' } else { '0' }),
            KeyCode::Num1 => Some(if e.shift { '!' } else { '1' }),
            KeyCode::Num2 => Some(if e.shift { '@' } else { '2' }),
            KeyCode::Num3 => Some(if e.shift { '#' } else { '3' }),
            KeyCode::Num4 => Some(if e.shift { '$' } else { '4' }),
            KeyCode::Num5 => Some(if e.shift { '%' } else { '5' }),
            KeyCode::Num6 => Some(if e.shift { '^' } else { '6' }),
            KeyCode::Num7 => Some(if e.shift { '&' } else { '7' }),
            KeyCode::Num8 => Some(if e.shift { '*' } else { '8' }),
            KeyCode::Num9 => Some(if e.shift { '(' } else { '9' }),
            KeyCode::Space => Some(' '),
            KeyCode::Enter => Some('\n'),
            KeyCode::Tab => Some('\t'),
            KeyCode::Backspace => Some('\x08'),
            _ => None,
        }
    }
}

impl KeyEvent {
    /// A key event with no modifiers.
    pub fn new(keycode: KeyCode, pressed: bool) -> (r: Self)
        ensures
            r == (KeyEvent { keycode, pressed, shift: false, ctrl: false, alt: false }),
    {
        KeyEvent { keycode, pressed, shift: false, ctrl: false, alt: false }
    }

    /// The printable character this event produces, if any.
    pub fn to_ascii(&self) -> (r: Option<char>)
        ensures
            r == ascii_of(*self),
    {
        if !self.pressed {
            return None;
        }
        match self.keycode {
            KeyCode::A => Some(if self.shift { 'A' } else { 'a' }),
            KeyCode::B => Some(if self.shift { 'B' } else { 'b' }),
            KeyCode::C => Some(if self.shift { 'C' } else { 'c' }),
            KeyCode::D => Some(if self.shift { 'D' } else { 'd' }),
            KeyCode::E => Some(if self.shift { 'E' } else { 'e' }),
            KeyCode::F => Some(if self.shift { 'F' } else { 'f' }),
            KeyCode::G => Some(if self.shift { 'G' } else { 'g' }),
            KeyCode::H => Some(if self.shift { 'H' } else { 'h' }),
            KeyCode::I => Some(if self.shift { 'I' } else { 'i' }),
            KeyCode::J => Some(if self.shift { 'J' } else { 'j' }),
            KeyCode::K => Some(if self.shift { 'K' } else { 'k' }),
            KeyCode::L => Some(if self.shift { 'L' } else { 'l' }),
            KeyCode::M => Some(if self.shift { 'M' } else { 'm' }),
            KeyCode::N => Some(if self.shift { 'N' } else { 'n' }),
            KeyCode::O => Some(if self.shift { 'O' } else { 'o' }),
            KeyCode::P => Some(if self.shift { 'P' } else { 'p' }),
            KeyCode::Q => Some(if self.shift { 'Q' } else { 'q' }),
            KeyCode::R => Some(if self.shift { 'R' } else { 'r' }),
            KeyCode::S => Some(if self.shift { 'S' } else { 's' }),
            KeyCode::T => Some(if self.shift { 'T' } else { 't' }),
            KeyCode::U => Some(if self.shift { 'U' } else { 'u' }),
            KeyCode::V => Some(if self.shift { 'V' } else { 'v' }),
            KeyCode::W => Some(if self.shift { 'W' } else { 'w' }),
            KeyCode::X => Some(if self.shift { 'X' } else { 'x' }),
            KeyCode::Y => Some(if self.shift { 'Y' } else { 'y' }),
            KeyCode::Z => Some(if self.shift { 'Z' } else { 'z' }),
            KeyCode::Num0 => Some(if self.shift { ')' } else { '0' }),
            KeyCode::Num1 => Some(if self.shift { '!' } else { '1' }),
            KeyCode::Num2 => Some(if self.shift { '@' } else { '2' }),
            KeyCode::Num3 => Some(if self.shift { '#' } else { '3' }),
            KeyCode::Num4 => Some(if self.shift { '$' } else { '4' }),
            KeyCode::Num5 => Some(if self.shift { '%' } else { '5' }),
            KeyCode::Num6 => Some(if self.shift { '^' } else { '6' }),
            KeyCode::Num7 => Some(if self.shift { '&' } else { '7' }),
            KeyCode::Num8 => Some(if self.shift { '*' } else { '8' }),
            KeyCode::Num9 => Some(if self.shift { '(' } else { '9' }),
            KeyCode::Space => Some(' '),
            KeyCode::Enter => Some('\n'),
            KeyCode::Tab => Some('\t'),
            KeyCode::Backspace => Some('\x08'),
            _ => None,
        }
    }
}

/// Modifier key state.
struct KeyboardState {
    /// A shift key is held
    shift_pressed: bool,
    /// A control key is held
    ctrl_pressed: bool,
    /// An alt key is held
    alt_pressed: bool,
    /// Caps lock is on
    caps_lock: bool,
}

/// The keyboard driver: modifier state and a queue of decoded events.
pub struct Keyboard {
    /// Modifier state
    state: KeyboardState,
    /// Decoded events awaiting consumers, oldest first
    event_queue: Vec<KeyEvent>,
}

impl Keyboard {
    /// Spec view of the shift-held flag.
    pub closed spec fn spec_shift(&self) -> bool {
        self.state.shift_pressed
    }

    /// Spec view of the control-held flag.
    pub closed spec fn spec_ctrl(&self) -> bool {
        self.state.ctrl_pressed
    }

    /// Spec view of the alt-held flag.
    pub closed spec fn spec_alt(&self) -> bool {
        self.state.alt_pressed
    }

    /// Spec view of the caps-lock flag.
    pub closed spec fn spec_caps(&self) -> bool {
        self.state.caps_lock
    }

    /// Spec view of the queued events, oldest first.
    pub closed spec fn spec_queue(&self) -> Seq<KeyEvent> {
        self.event_queue@
    }

    /// A keyboard with no modifiers held and an empty queue.
    pub fn new() -> (r: Self)
        ensures
            !r.spec_shift(),
            !r.spec_ctrl(),
            !r.spec_alt(),
            !r.spec_caps(),
            r.spec_queue() == Seq::<KeyEvent>::empty(),
    {
        Keyboard {
            state: KeyboardState {
                shift_pressed: false,
                ctrl_pressed: false,
                alt_pressed: false,
                caps_lock: false,
            },
            event_queue: Vec::new(),
        }
    }

    /// Decode one scancode: bit 7 distinguishes release from press, the
    /// low bits name the key. Modifier keys update the held state; a
    /// caps-lock press toggles the lock. The decoded event carries the
    /// resulting modifier state, with shift effective when either a shift
    /// key is held or caps lock is on.
    pub fn process_scancode(&mut self, scancode: Scancode) -> (r: Option<KeyEvent>)
        ensures
            ({
                let code = scancode.spec_code();
                let pressed = (code & 0x80) == 0;
                let keycode = keycode_of((code & 0x7F) as u8);
                &&& final(self).spec_shift() == (match keycode {
                    KeyCode::LeftShift | KeyCode::RightShift => pressed,
                    _ => old(self).spec_shift(),
                })
                &&& final(self).spec_ctrl() == (match keycode {
                    KeyCode::LeftCtrl | KeyCode::RightCtrl => pressed,
                    _ => old(self).spec_ctrl(),
                })
                &&& final(self).spec_alt() == (match keycode {
                    KeyCode::LeftAlt | KeyCode::RightAlt => pressed,
                    _ => old(self).spec_alt(),
                })
                &&& final(self).spec_caps() == (if keycode == KeyCode::CapsLock && pressed {
                    !old(self).spec_caps()
                } else {
                    old(self).spec_caps()
                })
                &&& final(self).spec_queue() == old(self).spec_queue()
                &&& r == Some(
                    KeyEvent {
                        keycode,
                        pressed,
                        shift: final(self).spec_shift() || final(self).spec_caps(),
                        ctrl: final(self).spec_ctrl(),
                        alt: final(self).spec_alt(),
                    },
                )
            }),
    {
        let code = scancode.as_u8();
        let pressed = (code & 0x80) == 0;
        let key = code & 0x7F;
        let keycode = decode_key(key);
        match keycode {
            KeyCode::LeftShift | KeyCode::RightShift => {
                self.state.shift_pressed = pressed;
            },
            KeyCode::LeftCtrl | KeyCode::RightCtrl => {
                self.state.ctrl_pressed = pressed;
            },
            KeyCode::LeftAlt | KeyCode::RightAlt => {
                self.state.alt_pressed = pressed;
            },
            KeyCode::CapsLock => {
                if pressed {
                    self.state.caps_lock = !self.state.caps_lock;
                }
            },
            _ => {},
        }
        let mut event = KeyEvent::new(keycode, pressed);
        event.shift = self.state.shift_pressed || self.state.caps_lock;
        event.ctrl = self.state.ctrl_pressed;
        event.alt = self.state.alt_pressed;
        Some(event)
    }

    /// Queue an event.
    pub fn push_event(&mut self, event: KeyEvent)
        ensures
            final(self).spec_queue() == old(self).spec_queue().push(event),
            final(self).spec_shift() == old(self).spec_shift(),
            final(self).spec_ctrl() == old(self).spec_ctrl(),
            final(self).spec_alt() == old(self).spec_alt(),
            final(self).spec_caps() == old(self).spec_caps(),
    {
        self.event_queue.push(event);
    }

    /// Take the oldest queued event, if any.
    pub fn pop_event(&mut self) -> (r: Option<KeyEvent>)
        ensures
            final(self).spec_shift() == old(self).spec_shift(),
            final(self).spec_ctrl() == old(self).spec_ctrl(),
            final(self).spec_alt() == old(self).spec_alt(),
            final(self).spec_caps() == old(self).spec_caps(),
            if old(self).spec_queue().len() == 0 {
                r is None && final(self).spec_queue() == old(self).spec_queue()
            } else {
                r == Some(old(self).spec_queue()[0]) && final(self).spec_queue() == old(self).spec_queue().skip(1)
            },
    {
        if self.event_queue.len() == 0 {
            return None;
        }
        let e = self.event_queue[0];
        let rest = self.event_queue.split_off(1);
        self.event_queue = rest;
        Some(e)
    }

    /// Take the oldest queued event, if any.
    pub fn get_event(&mut self) -> (r: Option<KeyEvent>)
        ensures
            final(self).spec_shift() == old(self).spec_shift(),
            final(self).spec_ctrl() == old(self).spec_ctrl(),
            final(self).spec_alt() == old(self).spec_alt(),
            final(self).spec_caps() == old(self).spec_caps(),
            if old(self).spec_queue().len() == 0 {
                r is None && final(self).spec_queue() == old(self).spec_queue()
            } else {
                r == Some(old(self).spec_queue()[0]) && final(self).spec_queue() == old(self).spec_queue().skip(1)
            },
    {
        self.pop_event()
    }

    /// Whether the event queue is empty.
    pub fn is_empty(&self) -> (r: bool)
        ensures
            r == (self.spec_queue().len() == 0),
    {
        self.event_queue.len() == 0
    }

    /// Service a keyboard interrupt. Reading the controller port belongs
    /// to the platform layer; no scancode arrives through this core, so
    /// the driver state is untouched.
    pub fn handle_interrupt(&mut self)
        ensures
            final(self).spec_queue() == old(self).spec_queue(),
            final(self).spec_shift() == old(self).spec_shift(),
            final(self).spec_ctrl() == old(self).spec_ctrl(),
            final(self).spec_alt() == old(self).spec_alt(),
            final(self).spec_caps() == old(self).spec_caps(),
    {
    }
}

/// Decode a set-1 make-code byte to its key.
fn decode_key(key: u8) -> (r: KeyCode)
    ensures
        r == keycode_of(key),
{
    if key == 0x1E { KeyCode::A }
    else if key == 0x30 { KeyCode::B }
    else if key == 0x2E { KeyCode::C }
    else if key == 0x20 { KeyCode::D }
    else if key == 0x12 { KeyCode::E }
    else if key == 0x21 { KeyCode::F }
    else if key == 0x22 { KeyCode::G }
    else if key == 0x23 { KeyCode::H }
    else if key == 0x17 { KeyCode::I }
    else if key == 0x24 { KeyCode::J }
    else if key == 0x25 { KeyCode::K }
    else if key == 0x26 { KeyCode::L }
    else if key == 0x32 { KeyCode::M }
    else if key == 0x31 { KeyCode::N }
    else if key == 0x18 { KeyCode::O }
    else if key == 0x19 { KeyCode::P }
    else if key == 0x10 { KeyCode::Q }
    else if key == 0x13 { KeyCode::R }
    else if key == 0x1F { KeyCode::S }
    else if key == 0x14 { KeyCode::T }
    else if key == 0x16 { KeyCode::U }
    else if key == 0x2F { KeyCode::V }
    else if key == 0x11 { KeyCode::W }
    else if key == 0x2D { KeyCode::X }
    else if key == 0x15 { KeyCode::Y }
    else if key == 0x2C { KeyCode::Z }
    else if key == 0x0B { KeyCode::Num0 }
    else if key == 0x02 { KeyCode::Num1 }
    else if key == 0x03 { KeyCode::Num2 }
    else if key == 0x04 { KeyCode::Num3 }
    else if key == 0x05 { KeyCode::Num4 }
    else if key == 0x06 { KeyCode::Num5 }
    else if key == 0x07 { KeyCode::Num6 }
    else if key == 0x08 { KeyCode::Num7 }
    else if key == 0x09 { KeyCode::Num8 }
    else if key == 0x0A { KeyCode::Num9 }
    else if key == 0x01 { KeyCode::Escape }
    else if key == 0x0E { KeyCode::Backspace }
    else if key == 0x0F { KeyCode::Tab }
    else if key == 0x1C { KeyCode::Enter }
    else if key == 0x39 { KeyCode::Space }
    else if key == 0x2A { KeyCode::LeftShift }
    else if key == 0x36 { KeyCode::RightShift }
    else if key == 0x1D { KeyCode::LeftCtrl }
    else if key == 0x38 { KeyCode::LeftAlt }
    else if key == 0x3A { KeyCode::CapsLock }
    else if key == 0x48 { KeyCode::Up }
    else if key == 0x50 { KeyCode::Down }
    else if key == 0x4B { KeyCode::Left }
    else if key == 0x4D { KeyCode::Right }
    else { KeyCode::Unknown }
}

} // verus!
