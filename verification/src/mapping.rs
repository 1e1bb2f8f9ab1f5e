//! Mapping of keys and buttons to what Windows expects: set-1 scan codes for
//! keys, and mouse event flags for buttons.
use vstd::prelude::*;
use crate::event::{Button, Keyboard};
use crate::input::{
    MOUSEEVENTF_LEFTDOWN, MOUSEEVENTF_LEFTUP, MOUSEEVENTF_MIDDLEDOWN, MOUSEEVENTF_MIDDLEUP,
    MOUSEEVENTF_RIGHTDOWN, MOUSEEVENTF_RIGHTUP, MOUSEEVENTF_XDOWN, MOUSEEVENTF_XUP, XBUTTON1, XBUTTON2,
};


verus! {

/// The set-1 scan code of a key, and whether it is an extended (0xE0) key;
/// `None` for the keys that Windows is not given.
pub open spec fn key_scancode(key: Keyboard) -> Option<(u16, bool)> {
    match key {
        Keyboard::A => Some((0x1Eu16, false)),
        Keyboard::B => Some((0x30u16, false)),
        Keyboard::C => Some((0x2Eu16, false)),
        Keyboard::D => Some((0x20u16, false)),
        Keyboard::E => Some((0x12u16, false)),
        Keyboard::F => Some((0x21u16, false)),
        Keyboard::G => Some((0x22u16, false)),
        Keyboard::H => Some((0x23u16, false)),
        Keyboard::I => Some((0x17u16, false)),
        Keyboard::J => Some((0x24u16, false)),
        Keyboard::K => Some((0x25u16, false)),
        Keyboard::L => Some((0x26u16, false)),
        Keyboard::M => Some((0x32u16, false)),
        Keyboard::N => Some((0x31u16, false)),
        Keyboard::O => Some((0x18u16, false)),
        Keyboard::P => Some((0x19u16, false)),
        Keyboard::Q => Some((0x10u16, false)),
        Keyboard::R => Some((0x13u16, false)),
        Keyboard::S => Some((0x1Fu16, false)),
        Keyboard::T => Some((0x14u16, false)),
        Keyboard::U => Some((0x16u16, false)),
        Keyboard::V => Some((0x2Fu16, false)),
        Keyboard::W => Some((0x11u16, false)),
        Keyboard::X => Some((0x2Du16, false)),
        Keyboard::Y => Some((0x15u16, false)),
        Keyboard::Z => Some((0x2Cu16, false)),
        Keyboard::N1 => Some((0x02u16, false)),
        Keyboard::N2 => Some((0x03u16, false)),
        Keyboard::N3 => Some((0x04u16, false)),
        Keyboard::N4 => Some((0x05u16, false)),
        Keyboard::N5 => Some((0x06u16, false)),
        Keyboard::N6 => Some((0x07u16, false)),
        Keyboard::N7 => Some((0x08u16, false)),
        Keyboard::N8 => Some((0x09u16, false)),
        Keyboard::N9 => Some((0x0Au16, false)),
        Keyboard::N0 => Some((0x0Bu16, false)),
        Keyboard::Up => Some((0x48u16, true)),
        Keyboard::Down => Some((0x50u16, true)),
        Keyboard::Left => Some((0x4Bu16, true)),
        Keyboard::Right => Some((0x4Du16, true)),
        Keyboard::F1 => Some((0x3Bu16, false)),
        Keyboard::F2 => Some((0x3Cu16, false)),
        Keyboard::F3 => Some((0x3Du16, false)),
        Keyboard::F4 => Some((0x3Eu16, false)),
        Keyboard::F5 => Some((0x3Fu16, false)),
        Keyboard::F6 => Some((0x40u16, false)),
        Keyboard::F7 => Some((0x41u16, false)),
        Keyboard::F8 => Some((0x42u16, false)),
        Keyboard::F9 => Some((0x43u16, false)),
        Keyboard::F10 => Some((0x44u16, false)),
        Keyboard::F11 => Some((0x57u16, false)),
        Keyboard::F12 => Some((0x58u16, false)),
        Keyboard::Enter => Some((0x1Cu16, false)),
        Keyboard::Minus => Some((0x0Cu16, false)),
        Keyboard::Equal => Some((0x0Du16, false)),
        Keyboard::LeftBrace => Some((0x1Au16, false)),
        Keyboard::RightBrace => Some((0x1Bu16, false)),
        Keyboard::Apostrophe => Some((0x28u16, false)),
        Keyboard::Slash => Some((0x35u16, false)),
        Keyboard::Dot => Some((0x34u16, false)),
        Keyboard::Semicolon => Some((0x27u16, false)),
        Keyboard::Grave => Some((0x29u16, false)),
        Keyboard::Comma => Some((0x33u16, false)),
        Keyboard::Backslash => Some((0x2Bu16, false)),
        Keyboard::Esc => Some((0x01u16, false)),
        Keyboard::Backspace => Some((0x0Eu16, false)),
        Keyboard::Tab => Some((0x0Fu16, false)),
        Keyboard::Space => Some((0x39u16, false)),
        Keyboard::CapsLock => Some((0x3Au16, false)),
        Keyboard::LeftShift => Some((0x2Au16, false)),
        Keyboard::RightShift => Some((0x36u16, false)),
        Keyboard::LeftCtrl => Some((0x1Du16, false)),
        Keyboard::RightCtrl => Some((0x1Du16, true)),
        Keyboard::LeftAlt => Some((0x38u16, false)),
        Keyboard::RightAlt => Some((0x38u16, true)),
        Keyboard::LeftMeta => Some((0x5Bu16, true)),
        Keyboard::RightMeta => Some((0x5Cu16, true)),
        Keyboard::SysRq => Some((0x54u16, false)),
        Keyboard::ScrollLock => Some((0x46u16, false)),
        Keyboard::Compose => Some((0x5Du16, true)),
        Keyboard::Pause => Some((0x45u16, true)),
        Keyboard::N102nd => Some((0x56u16, false)),
        Keyboard::Insert => Some((0x52u16, true)),
        Keyboard::Delete => Some((0x53u16, true)),
        Keyboard::Home => Some((0x47u16, true)),
        Keyboard::End => Some((0x4Fu16, true)),
        Keyboard::PageUp => Some((0x49u16, true)),
        Keyboard::PageDown => Some((0x51u16, true)),
        Keyboard::NumLock => Some((0x45u16, false)),
        Keyboard::Kp0 => Some((0x52u16, false)),
        Keyboard::Kp1 => Some((0x4Fu16, false)),
        Keyboard::Kp2 => Some((0x50u16, false)),
        Keyboard::Kp3 => Some((0x51u16, false)),
        Keyboard::Kp4 => Some((0x4Bu16, false)),
        Keyboard::Kp5 => Some((0x4Cu16, false)),
        Keyboard::Kp6 => Some((0x4Du16, false)),
        Keyboard::Kp7 => Some((0x47u16, false)),
        Keyboard::Kp8 => Some((0x48u16, false)),
        Keyboard::Kp9 => Some((0x49u16, false)),
        Keyboard::KpDot => Some((0x53u16, false)),
        Keyboard::KpAsterisk => Some((0x37u16, false)),
        Keyboard::KpEnter => Some((0x1Cu16, true)),
        Keyboard::KpMinus => Some((0x4Au16, false)),
        Keyboard::KpPlus => Some((0x4Eu16, false)),
        Keyboard::KpSlash => Some((0x35u16, true)),
        _ => None,
    }
}

/// The key that a scan code and extended bit stand for, read back from the
/// table of `key_scancode`.
pub open spec fn scancode_key(scan: u16, extended: bool) -> Option<Keyboard> {
    match (scan, extended) {
        (0x1Eu16, false) => Some(Keyboard::A),
        (0x30u16, false) => Some(Keyboard::B),
        (0x2Eu16, false) => Some(Keyboard::C),
        (0x20u16, false) => Some(Keyboard::D),
        (0x12u16, false) => Some(Keyboard::E),
        (0x21u16, false) => Some(Keyboard::F),
        (0x22u16, false) => Some(Keyboard::G),
        (0x23u16, false) => Some(Keyboard::H),
        (0x17u16, false) => Some(Keyboard::I),
        (0x24u16, false) => Some(Keyboard::J),
        (0x25u16, false) => Some(Keyboard::K),
        (0x26u16, false) => Some(Keyboard::L),
        (0x32u16, false) => Some(Keyboard::M),
        (0x31u16, false) => Some(Keyboard::N),
        (0x18u16, false) => Some(Keyboard::O),
        (0x19u16, false) => Some(Keyboard::P),
        (0x10u16, false) => Some(Keyboard::Q),
        (0x13u16, false) => Some(Keyboard::R),
        (0x1Fu16, false) => Some(Keyboard::S),
        (0x14u16, false) => Some(Keyboard::T),
        (0x16u16, false) => Some(Keyboard::U),
        (0x2Fu16, false) => Some(Keyboard::V),
        (0x11u16, false) => Some(Keyboard::W),
        (0x2Du16, false) => Some(Keyboard::X),
        (0x15u16, false) => Some(Keyboard::Y),
        (0x2Cu16, false) => Some(Keyboard::Z),
        (0x02u16, false) => Some(Keyboard::N1),
        (0x03u16, false) => Some(Keyboard::N2),
        (0x04u16, false) => Some(Keyboard::N3),
        (0x05u16, false) => Some(Keyboard::N4),
        (0x06u16, false) => Some(Keyboard::N5),
        (0x07u16, false) => Some(Keyboard::N6),
        (0x08u16, false) => Some(Keyboard::N7),
        (0x09u16, false) => Some(Keyboard::N8),
        (0x0Au16, false) => Some(Keyboard::N9),
        (0x0Bu16, false) => Some(Keyboard::N0),
        (0x48u16, true) => Some(Keyboard::Up),
        (0x50u16, true) => Some(Keyboard::Down),
        (0x4Bu16, true) => Some(Keyboard::Left),
        (0x4Du16, true) => Some(Keyboard::Right),
        (0x3Bu16, false) => Some(Keyboard::F1),
        (0x3Cu16, false) => Some(Keyboard::F2),
        (0x3Du16, false) => Some(Keyboard::F3),
        (0x3Eu16, false) => Some(Keyboard::F4),
        (0x3Fu16, false) => Some(Keyboard::F5),
        (0x40u16, false) => Some(Keyboard::F6),
        (0x41u16, false) => Some(Keyboard::F7),
        (0x42u16, false) => Some(Keyboard::F8),
        (0x43u16, false) => Some(Keyboard::F9),
        (0x44u16, false) => Some(Keyboard::F10),
        (0x57u16, false) => Some(Keyboard::F11),
        (0x58u16, false) => Some(Keyboard::F12),
        (0x1Cu16, false) => Some(Keyboard::Enter),
        (0x0Cu16, false) => Some(Keyboard::Minus),
        (0x0Du16, false) => Some(Keyboard::Equal),
        (0x1Au16, false) => Some(Keyboard::LeftBrace),
        (0x1Bu16, false) => Some(Keyboard::RightBrace),
        (0x28u16, false) => Some(Keyboard::Apostrophe),
        (0x35u16, false) => Some(Keyboard::Slash),
        (0x34u16, false) => Some(Keyboard::Dot),
        (0x27u16, false) => Some(Keyboard::Semicolon),
        (0x29u16, false) => Some(Keyboard::Grave),
        (0x33u16, false) => Some(Keyboard::Comma),
        (0x2Bu16, false) => Some(Keyboard::Backslash),
        (0x01u16, false) => Some(Keyboard::Esc),
        (0x0Eu16, false) => Some(Keyboard::Backspace),
        (0x0Fu16, false) => Some(Keyboard::Tab),
        (0x39u16, false) => Some(Keyboard::Space),
        (0x3Au16, false) => Some(Keyboard::CapsLock),
        (0x2Au16, false) => Some(Keyboard::LeftShift),
        (0x36u16, false) => Some(Keyboard::RightShift),
        (0x1Du16, false) => Some(Keyboard::LeftCtrl),
        (0x1Du16, true) => Some(Keyboard::RightCtrl),
        (0x38u16, false) => Some(Keyboard::LeftAlt),
        (0x38u16, true) => Some(Keyboard::RightAlt),
        (0x5Bu16, true) => Some(Keyboard::LeftMeta),
        (0x5Cu16, true) => Some(Keyboard::RightMeta),
        (0x54u16, false) => Some(Keyboard::SysRq),
        (0x46u16, false) => Some(Keyboard::ScrollLock),
        (0x5Du16, true) => Some(Keyboard::Compose),
        (0x45u16, true) => Some(Keyboard::Pause),
        (0x56u16, false) => Some(Keyboard::N102nd),
        (0x52u16, true) => Some(Keyboard::Insert),
        (0x53u16, true) => Some(Keyboard::Delete),
        (0x47u16, true) => Some(Keyboard::Home),
        (0x4Fu16, true) => Some(Keyboard::End),
        (0x49u16, true) => Some(Keyboard::PageUp),
        (0x51u16, true) => Some(Keyboard::PageDown),
        (0x45u16, false) => Some(Keyboard::NumLock),
        (0x52u16, false) => Some(Keyboard::Kp0),
        (0x4Fu16, false) => Some(Keyboard::Kp1),
        (0x50u16, false) => Some(Keyboard::Kp2),
        (0x51u16, false) => Some(Keyboard::Kp3),
        (0x4Bu16, false) => Some(Keyboard::Kp4),
        (0x4Cu16, false) => Some(Keyboard::Kp5),
        (0x4Du16, false) => Some(Keyboard::Kp6),
        (0x47u16, false) => Some(Keyboard::Kp7),
        (0x48u16, false) => Some(Keyboard::Kp8),
        (0x49u16, false) => Some(Keyboard::Kp9),
        (0x53u16, false) => Some(Keyboard::KpDot),
        (0x37u16, false) => Some(Keyboard::KpAsterisk),
        (0x1Cu16, true) => Some(Keyboard::KpEnter),
        (0x4Au16, false) => Some(Keyboard::KpMinus),
        (0x4Eu16, false) => Some(Keyboard::KpPlus),
        (0x35u16, true) => Some(Keyboard::KpSlash),
        _ => None,
    }
}

/// Maps a key to its set-1 scan code and extended bit.
pub fn map_key_to_scancode(key: &Keyboard) -> (r: Option<(u16, bool)>)
    ensures
        r == key_scancode(*key),
{
    match key {
        Keyboard::A => Some((0x1E, false)),
        Keyboard::B => Some((0x30, false)),
        Keyboard::C => Some((0x2E, false)),
        Keyboard::D => Some((0x20, false)),
        Keyboard::E => Some((0x12, false)),
        Keyboard::F => Some((0x21, false)),
        Keyboard::G => Some((0x22, false)),
        Keyboard::H => Some((0x23, false)),
        Keyboard::I => Some((0x17, false)),
        Keyboard::J => Some((0x24, false)),
        Keyboard::K => Some((0x25, false)),
        Keyboard::L => Some((0x26, false)),
        Keyboard::M => Some((0x32, false)),
        Keyboard::N => Some((0x31, false)),
        Keyboard::O => Some((0x18, false)),
        Keyboard::P => Some((0x19, false)),
        Keyboard::Q => Some((0x10, false)),
        Keyboard::R => Some((0x13, false)),
        Keyboard::S => Some((0x1F, false)),
        Keyboard::T => Some((0x14, false)),
        Keyboard::U => Some((0x16, false)),
        Keyboard::V => Some((0x2F, false)),
        Keyboard::W => Some((0x11, false)),
        Keyboard::X => Some((0x2D, false)),
        Keyboard::Y => Some((0x15, false)),
        Keyboard::Z => Some((0x2C, false)),
        Keyboard::N1 => Some((0x02, false)),
        Keyboard::N2 => Some((0x03, false)),
        Keyboard::N3 => Some((0x04, false)),
        Keyboard::N4 => Some((0x05, false)),
        Keyboard::N5 => Some((0x06, false)),
        Keyboard::N6 => Some((0x07, false)),
        Keyboard::N7 => Some((0x08, false)),
        Keyboard::N8 => Some((0x09, false)),
        Keyboard::N9 => Some((0x0A, false)),
        Keyboard::N0 => Some((0x0B, false)),
        Keyboard::Up => Some((0x48, true)),
        Keyboard::Down => Some((0x50, true)),
        Keyboard::Left => Some((0x4B, true)),
        Keyboard::Right => Some((0x4D, true)),
        Keyboard::F1 => Some((0x3B, false)),
        Keyboard::F2 => Some((0x3C, false)),
        Keyboard::F3 => Some((0x3D, false)),
        Keyboard::F4 => Some((0x3E, false)),
        Keyboard::F5 => Some((0x3F, false)),
        Keyboard::F6 => Some((0x40, false)),
        Keyboard::F7 => Some((0x41, false)),
        Keyboard::F8 => Some((0x42, false)),
        Keyboard::F9 => Some((0x43, false)),
        Keyboard::F10 => Some((0x44, false)),
        Keyboard::F11 => Some((0x57, false)),
        Keyboard::F12 => Some((0x58, false)),
        Keyboard::Enter => Some((0x1C, false)),
        Keyboard::Minus => Some((0x0C, false)),
        Keyboard::Equal => Some((0x0D, false)),
        Keyboard::LeftBrace => Some((0x1A, false)),
        Keyboard::RightBrace => Some((0x1B, false)),
        Keyboard::Apostrophe => Some((0x28, false)),
        Keyboard::Slash => Some((0x35, false)),
        Keyboard::Dot => Some((0x34, false)),
        Keyboard::Semicolon => Some((0x27, false)),
        Keyboard::Grave => Some((0x29, false)),
        Keyboard::Comma => Some((0x33, false)),
        Keyboard::Backslash => Some((0x2B, false)),
        Keyboard::Esc => Some((0x01, false)),
        Keyboard::Backspace => Some((0x0E, false)),
        Keyboard::Tab => Some((0x0F, false)),
        Keyboard::Space => Some((0x39, false)),
        Keyboard::CapsLock => Some((0x3A, false)),
        Keyboard::LeftShift => Some((0x2A, false)),
        Keyboard::RightShift => Some((0x36, false)),
        Keyboard::LeftCtrl => Some((0x1D, false)),
        Keyboard::RightCtrl => Some((0x1D, true)),
        Keyboard::LeftAlt => Some((0x38, false)),
        Keyboard::RightAlt => Some((0x38, true)),
        Keyboard::LeftMeta => Some((0x5B, true)),
        Keyboard::RightMeta => Some((0x5C, true)),
        Keyboard::SysRq => Some((0x54, false)),
        Keyboard::ScrollLock => Some((0x46, false)),
        Keyboard::Compose => Some((0x5D, true)),
        Keyboard::Pause => Some((0x45, true)),
        Keyboard::N102nd => Some((0x56, false)),
        Keyboard::Insert => Some((0x52, true)),
        Keyboard::Delete => Some((0x53, true)),
        Keyboard::Home => Some((0x47, true)),
        Keyboard::End => Some((0x4F, true)),
        Keyboard::PageUp => Some((0x49, true)),
        Keyboard::PageDown => Some((0x51, true)),
        Keyboard::NumLock => Some((0x45, false)),
        Keyboard::Kp0 => Some((0x52, false)),
        Keyboard::Kp1 => Some((0x4F, false)),
        Keyboard::Kp2 => Some((0x50, false)),
        Keyboard::Kp3 => Some((0x51, false)),
        Keyboard::Kp4 => Some((0x4B, false)),
        Keyboard::Kp5 => Some((0x4C, false)),
        Keyboard::Kp6 => Some((0x4D, false)),
        Keyboard::Kp7 => Some((0x47, false)),
        Keyboard::Kp8 => Some((0x48, false)),
        Keyboard::Kp9 => Some((0x49, false)),
        Keyboard::KpDot => Some((0x53, false)),
        Keyboard::KpAsterisk => Some((0x37, false)),
        Keyboard::KpEnter => Some((0x1C, true)),
        Keyboard::KpMinus => Some((0x4A, false)),
        Keyboard::KpPlus => Some((0x4E, false)),
        Keyboard::KpSlash => Some((0x35, true)),
        _ => None,
    }
}

/// Reading back a mapped scan code gives the key it came from.
pub proof fn lemma_scancode_round_trip(key: Keyboard)
    requires
        key_scancode(key) is Some,
    ensures
        scancode_key(key_scancode(key).unwrap().0, key_scancode(key).unwrap().1) == Some(key),
{
}

/// No two keys share a scan code: distinct keys that Windows is given
/// produce distinct (scan code, extended) pairs.
pub proof fn lemma_scancode_injective(a: Keyboard, b: Keyboard)
    requires
        key_scancode(a) is Some,
        key_scancode(a) == key_scancode(b),
    ensures
        a == b,
{
    lemma_scancode_round_trip(a);
    lemma_scancode_round_trip(b);
}

/// Every scan code that Windows is given is a set-1 make code: nonzero and
/// below the 0x80 break bit.
pub proof fn lemma_scancode_is_make_code(key: Keyboard)
    requires
        key_scancode(key) is Some,
    ensures
        0 < key_scancode(key).unwrap().0 < 0x80,
{
}


/// The mouse event flags and mouse data of a button going down or up;
/// `None` for the buttons that Windows is not given.
pub open spec fn button_flags(button: Button, down: bool) -> Option<(u32, u32)> {
    match button {
        Button::Left => Some((if down { MOUSEEVENTF_LEFTDOWN } else { MOUSEEVENTF_LEFTUP }, 0u32)),
        Button::Right => Some((if down { MOUSEEVENTF_RIGHTDOWN } else { MOUSEEVENTF_RIGHTUP }, 0u32)),
        Button::Middle => Some(
            (if down { MOUSEEVENTF_MIDDLEDOWN } else { MOUSEEVENTF_MIDDLEUP }, 0u32),
        ),
        Button::Side => Some((if down { MOUSEEVENTF_XDOWN } else { MOUSEEVENTF_XUP }, XBUTTON1)),
        Button::Extra => Some((if down { MOUSEEVENTF_XDOWN } else { MOUSEEVENTF_XUP }, XBUTTON2)),
        _ => None,
    }
}

/// Maps a mouse button going down or up to its event flags and mouse data.
pub fn map_button(button: &Button, down: &bool) -> (r: Option<(u32, u32)>)
    ensures
        r == button_flags(*button, *down),
{
    match button {
        Button::Left => Some((if *down { MOUSEEVENTF_LEFTDOWN } else { MOUSEEVENTF_LEFTUP }, 0)),
        Button::Right => Some((if *down { MOUSEEVENTF_RIGHTDOWN } else { MOUSEEVENTF_RIGHTUP }, 0)),
        Button::Middle => Some((if *down { MOUSEEVENTF_MIDDLEDOWN } else { MOUSEEVENTF_MIDDLEUP }, 0)),
        Button::Side => Some((if *down { MOUSEEVENTF_XDOWN } else { MOUSEEVENTF_XUP }, XBUTTON1)),
        Button::Extra => Some((if *down { MOUSEEVENTF_XDOWN } else { MOUSEEVENTF_XUP }, XBUTTON2)),
        _ => None,
    }
}

/// A button's press and release are told apart: the flags of going down
/// differ from those of going up, and both carry the same mouse data.
pub proof fn lemma_button_press_release_differ(button: Button)
    requires
        button_flags(button, true) is Some,
    ensures
        button_flags(button, false) is Some,
        button_flags(button, true).unwrap().0 != button_flags(button, false).unwrap().0,
        button_flags(button, true).unwrap().1 == button_flags(button, false).unwrap().1,
{
}

/// A button's press and release name the same button: each mapped
/// button's press flag is one of the Win32 button-down flags, and its
/// release flag is that button's up flag, the next bit up. Distinct buttons
/// are told apart by their press flag or their mouse data.
pub proof fn lemma_button_press_release_same_button(button: Button, other: Button)
    ensures
        button_flags(button, true) matches Some((press, data)) ==> {
            &&& (press == MOUSEEVENTF_LEFTDOWN || press == MOUSEEVENTF_RIGHTDOWN || press
                == MOUSEEVENTF_MIDDLEDOWN || press == MOUSEEVENTF_XDOWN)
            &&& button_flags(button, false) == Some(((press * 2) as u32, data))
            &&& (press == MOUSEEVENTF_LEFTDOWN ==> button_flags(button, false) == Some(
                (MOUSEEVENTF_LEFTUP, data),
            ))
            &&& (press == MOUSEEVENTF_RIGHTDOWN ==> button_flags(button, false) == Some(
                (MOUSEEVENTF_RIGHTUP, data),
            ))
            &&& (press == MOUSEEVENTF_MIDDLEDOWN ==> button_flags(button, false) == Some(
                (MOUSEEVENTF_MIDDLEUP, data),
            ))
            &&& (press == MOUSEEVENTF_XDOWN ==> button_flags(button, false) == Some(
                (MOUSEEVENTF_XUP, data),
            ))
        },
        button_flags(button, true) is Some && button != other ==> button_flags(button, true)
            != button_flags(other, true) && button_flags(button, false) != button_flags(
            other,
            false,
        ),
        button_flags(button, true) is Some <==> button_flags(button, false) is Some,
{
}

} // verus!
