//! Keyboard: from host key events to the byte in the keyboard latch.
use vstd::prelude::*;

verus! {

/// A key of the host keyboard, as far as the machine distinguishes keys.
#[derive(Clone, Copy, Debug, PartialEq, Eq)]
pub enum Keycode {
    A,
    B,
    C,
    D,
    E,
    F,
    G,
    H,
    I,
    J,
    K,
    L,
    M,
    N,
    O,
    P,
    Q,
    R,
    S,
    T,
    U,
    V,
    W,
    X,
    Y,
    Z,
    Num0,
    Num1,
    Num2,
    Num3,
    Num4,
    Num5,
    Num6,
    Num7,
    Num8,
    Num9,
    RightBracket,
    Space,
    Quote,
    Comma,
    Minus,
    Period,
    Slash,
    Semicolon,
    Equals,
    Return,
    Left,
    Backspace,
    Right,
    Escape,
    F2,
    /// Any key the machine has no use for.
    Other,
}

/// What the host's event queue delivers.
#[derive(Clone, Copy, Debug, PartialEq, Eq)]
pub enum HostEvent {
    /// The window was closed.
    Quit,
    /// The user asked to pause or to resume.
    Pause,
    /// A key went down; `None` where the host could not name it.
    KeyDown(Option<Keycode>),
    /// Anything else.
    Other,
}

/// What the frame loop is told about the keyboard.
#[derive(Clone, Copy, Debug, PartialEq, Eq)]
pub enum KeyboardInput {
    Quit,
    Reset,
    /// A byte for the keyboard latch, bit 7 set.
    Key(u8),
    Pause,
}

/// Position of a letter key in the alphabet, `A` being 0.
pub open spec fn letter_index(code: Keycode) -> Option<int> {
    match code {
        Keycode::A => Some(0),
        Keycode::B => Some(1),
        Keycode::C => Some(2),
        Keycode::D => Some(3),
        Keycode::E => Some(4),
        Keycode::F => Some(5),
        Keycode::G => Some(6),
        Keycode::H => Some(7),
        Keycode::I => Some(8),
        Keycode::J => Some(9),
        Keycode::K => Some(10),
        Keycode::L => Some(11),
        Keycode::M => Some(12),
        Keycode::N => Some(13),
        Keycode::O => Some(14),
        Keycode::P => Some(15),
        Keycode::Q => Some(16),
        Keycode::R => Some(17),
        Keycode::S => Some(18),
        Keycode::T => Some(19),
        Keycode::U => Some(20),
        Keycode::V => Some(21),
        Keycode::W => Some(22),
        Keycode::X => Some(23),
        Keycode::Y => Some(24),
        Keycode::Z => Some(25),
        _ => None,
    }
}

/// The digit on a digit key.
pub open spec fn digit_value(code: Keycode) -> Option<int> {
    match code {
        Keycode::Num0 => Some(0),
        Keycode::Num1 => Some(1),
        Keycode::Num2 => Some(2),
        Keycode::Num3 => Some(3),
        Keycode::Num4 => Some(4),
        Keycode::Num5 => Some(5),
        Keycode::Num6 => Some(6),
        Keycode::Num7 => Some(7),
        Keycode::Num8 => Some(8),
        Keycode::Num9 => Some(9),
        _ => None,
    }
}

/// The symbols above the digits of a US keyboard, by digit: `)!@#$%^&*(`.
pub open spec fn shifted_digits() -> Seq<u8> {
    seq![0x29u8, 0x21u8, 0x40u8, 0x23u8, 0x24u8, 0x25u8, 0x5Eu8, 0x26u8, 0x2Au8, 0x28u8]
}

/// The code of a key with no modifier held: upper-case ASCII for letters,
/// ASCII for digits and punctuation, control codes for the editing keys.
/// `None` for a key that sends nothing.
pub open spec fn plain_code(code: Keycode) -> Option<u8> {
    if let Some(i) = letter_index(code) {
        Some((0x41 + i) as u8)
    } else if let Some(d) = digit_value(code) {
        Some((0x30 + d) as u8)
    } else {
        match code {
            Keycode::Space => Some(0x20u8),
            Keycode::Quote => Some(0x27u8),
            Keycode::Comma => Some(0x2Cu8),
            Keycode::Minus => Some(0x2Du8),
            Keycode::Period => Some(0x2Eu8),
            Keycode::Slash => Some(0x2Fu8),
            Keycode::Semicolon => Some(0x3Bu8),
            Keycode::Equals => Some(0x3Du8),
            Keycode::RightBracket => Some(0x5Du8),
            Keycode::Return => Some(0x0Du8),
            Keycode::Left | Keycode::Backspace => Some(0x08u8),
            Keycode::Right => Some(0x15u8),
            Keycode::Escape => Some(0x1Bu8),
            _ => None,
        }
    }
}

/// The code of a key with Shift held, where Shift changes it: the symbol
/// that a US keyboard prints on the upper half of the key.
pub open spec fn shifted_code(code: Keycode) -> Option<u8> {
    if let Some(d) = digit_value(code) {
        Some(shifted_digits()[d])
    } else {
        match code {
            Keycode::Quote => Some(0x22u8),
            Keycode::Comma => Some(0x3Cu8),
            Keycode::Minus => Some(0x5Fu8),
            Keycode::Period => Some(0x3Eu8),
            Keycode::Slash => Some(0x3Fu8),
            Keycode::Semicolon => Some(0x3Au8),
            Keycode::Equals => Some(0x2Bu8),
            Keycode::RightBracket => Some(0x7Du8),
            _ => None,
        }
    }
}

/// The code of a letter with Ctrl held: `$81` for `A` up to `$9A` for `Z`.
pub open spec fn control_code(code: Keycode) -> Option<u8> {
    match letter_index(code) {
        Some(i) => Some((0x81 + i) as u8),
        None => None,
    }
}

/// The three letters that Ctrl and Shift together turn into other codes.
pub open spec fn control_shift_code(code: Keycode) -> Option<u8> {
    match code {
        Keycode::M => Some(0x9Du8),
        Keycode::N => Some(0x9Eu8),
        Keycode::P => Some(0x80u8),
        _ => None,
    }
}

/// The byte that a key press puts into the keyboard latch: the code that
/// the modifiers select, with bit 7 set to flag the key as available.
/// Ctrl with Shift goes before Ctrl, Ctrl before Shift.
pub open spec fn latch_code(opt_code: Option<Keycode>, shift: bool, ctrl: bool) -> Option<u8> {
    match opt_code {
        None => None,
        Some(code) => match plain_code(code) {
            None => None,
            Some(plain) => {
                let ch = if ctrl && shift && control_shift_code(code) is Some {
                    control_shift_code(code)->0
                } else if ctrl && control_code(code) is Some {
                    control_code(code)->0
                } else if shift && shifted_code(code) is Some {
                    shifted_code(code)->0
                } else {
                    plain
                };
                Some(ch | 0x80u8)
            },
        },
    }
}

/// What a host event means to the frame loop. `F2` resets the machine and
/// is never latched; a key that sends nothing is dropped.
pub open spec fn input_of_event(event: HostEvent, shift: bool, ctrl: bool) -> Option<KeyboardInput> {
    match event {
        HostEvent::Quit => Some(KeyboardInput::Quit),
        HostEvent::Pause => Some(KeyboardInput::Pause),
        HostEvent::KeyDown(Some(Keycode::F2)) => Some(KeyboardInput::Reset),
        HostEvent::KeyDown(code) => match latch_code(code, shift, ctrl) {
            Some(val) => Some(KeyboardInput::Key(val)),
            None => None,
        },
        HostEvent::Other => None,
    }
}

/// Maps a key press and the state of the Shift and Ctrl keys to the byte
/// for the keyboard latch.
pub fn map_keycode(opt_code: Option<Keycode>, shift: bool, ctrl: bool) -> (r: Option<u8>)
    ensures
        r == latch_code(opt_code, shift, ctrl),
{
    let code = match opt_code {
        Some(code) => code,
        None => return None,
    };
    let mut ch: u8 = match code {
        Keycode::A => 0x41,
        Keycode::B => 0x42,
        Keycode::C => 0x43,
        Keycode::D => 0x44,
        Keycode::E => 0x45,
        Keycode::F => 0x46,
        Keycode::G => 0x47,
        Keycode::H => 0x48,
        Keycode::I => 0x49,
        Keycode::J => 0x4A,
        Keycode::K => 0x4B,
        Keycode::L => 0x4C,
        Keycode::M => 0x4D,
        Keycode::N => 0x4E,
        Keycode::O => 0x4F,
        Keycode::P => 0x50,
        Keycode::Q => 0x51,
        Keycode::R => 0x52,
        Keycode::S => 0x53,
        Keycode::T => 0x54,
        Keycode::U => 0x55,
        Keycode::V => 0x56,
        Keycode::W => 0x57,
        Keycode::X => 0x58,
        Keycode::Y => 0x59,
        Keycode::Z => 0x5A,
        Keycode::RightBracket => 0x5D,
        Keycode::Space => 0x20,
        Keycode::Quote => 0x27,
        Keycode::Comma => 0x2C,
        Keycode::Minus => 0x2D,
        Keycode::Period => 0x2E,
        Keycode::Slash => 0x2F,
        Keycode::Num0 => 0x30,
        Keycode::Num1 => 0x31,
        Keycode::Num2 => 0x32,
        Keycode::Num3 => 0x33,
        Keycode::Num4 => 0x34,
        Keycode::Num5 => 0x35,
        Keycode::Num6 => 0x36,
        Keycode::Num7 => 0x37,
        Keycode::Num8 => 0x38,
        Keycode::Num9 => 0x39,
        Keycode::Semicolon => 0x3B,
        Keycode::Equals => 0x3D,
        Keycode::Return => 0x0D,
        Keycode::Left | Keycode::Backspace => 0x08,
        Keycode::Right => 0x15,
        Keycode::Escape => 0x1B,
        _ => return None,
    };
    if shift {
        ch = match code {
            Keycode::Num1 => 0x21,
            Keycode::Num2 => 0x40,
            Keycode::Num3 => 0x23,
            Keycode::Num4 => 0x24,
            Keycode::Num5 => 0x25,
            Keycode::Num6 => 0x5E,
            Keycode::Num7 => 0x26,
            Keycode::Num8 => 0x2A,
            Keycode::Num9 => 0x28,
            Keycode::Num0 => 0x29,
            Keycode::Equals => 0x2B,
            Keycode::Semicolon => 0x3A,
            Keycode::Quote => 0x22,
            Keycode::Comma => 0x3C,
            Keycode::Period => 0x3E,
            Keycode::Slash => 0x3F,
            Keycode::Minus => 0x5F,
            Keycode::RightBracket => 0x7D,
            _ => ch,
        };
    }
    if ctrl {
        ch = match code {
            Keycode::A => 0x81,
            Keycode::B => 0x82,
            Keycode::C => 0x83,
            Keycode::D => 0x84,
            Keycode::E => 0x85,
            Keycode::F => 0x86,
            Keycode::G => 0x87,
            Keycode::H => 0x88,
            Keycode::I => 0x89,
            Keycode::J => 0x8A,
            Keycode::K => 0x8B,
            Keycode::L => 0x8C,
            Keycode::M => 0x8D,
            Keycode::N => 0x8E,
            Keycode::O => 0x8F,
            Keycode::P => 0x90,
            Keycode::Q => 0x91,
            Keycode::R => 0x92,
            Keycode::S => 0x93,
            Keycode::T => 0x94,
            Keycode::U => 0x95,
            Keycode::V => 0x96,
            Keycode::W => 0x97,
            Keycode::X => 0x98,
            Keycode::Y => 0x99,
            Keycode::Z => 0x9A,
            _ => ch,
        };
        if shift {
            ch = match code {
                Keycode::M => 0x9D,
                Keycode::N => 0x9E,
                Keycode::P => 0x80,
                _ => ch,
            };
        }
    }
    Some(ch | 0x80)
}

/// Turns one host event into what the frame loop has to know of it, if
/// anything.
pub fn keyboard_input(event: HostEvent, shift: bool, ctrl: bool) -> (r: Option<KeyboardInput>)
    ensures
        r == input_of_event(event, shift, ctrl),
{
    match event {
        HostEvent::Quit => Some(KeyboardInput::Quit),
        HostEvent::Pause => Some(KeyboardInput::Pause),
        HostEvent::KeyDown(Some(Keycode::F2)) => Some(KeyboardInput::Reset),
        HostEvent::KeyDown(code) => match map_keycode(code, shift, ctrl) {
            Some(val) => Some(KeyboardInput::Key(val)),
            None => None,
        },
        HostEvent::Other => None,
    }
}

} // verus!
