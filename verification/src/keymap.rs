//! Platform key-code translation: the raw key identifiers the three native
//! windowing systems report, mapped to the toolkit's [`Key`] symbols, and the
//! decoding of native window-procedure messages into raw platform events.
//!
//! The numeric values are fixed by the respective platform protocols (X11
//! keysyms, Win32 virtual-key codes and window messages, and AppKit key
//! codes); unknown codes map to the `Unknown` sentinel rather than erroring.

use vstd::prelude::*;

use crate::platform::{Key, KeyModifiers, MouseButton, PlatformEvent};

verus! {

/// The key symbol for an X11 keysym.
pub open spec fn spec_keysym_to_key(keysym: u64) -> Key {
    match keysym {
        0xff1b => Key::Escape,
        0xff09 => Key::Tab,
        0x0020 => Key::Space,
        0xff0d => Key::Return,
        0xff08 => Key::Backspace,
        0xffff => Key::Delete,
        0xff63 => Key::Insert,
        0xff50 => Key::Home,
        0xff57 => Key::End,
        0xff55 => Key::PageUp,
        0xff56 => Key::PageDown,
        0xff51 => Key::Left,
        0xff53 => Key::Right,
        0xff52 => Key::Up,
        0xff54 => Key::Down,
        0xffbe => Key::F1,
        0xffbf => Key::F2,
        0xffc0 => Key::F3,
        0xffc1 => Key::F4,
        0xffc2 => Key::F5,
        0xffc3 => Key::F6,
        0xffc4 => Key::F7,
        0xffc5 => Key::F8,
        0xffc6 => Key::F9,
        0xffc7 => Key::F10,
        0xffc8 => Key::F11,
        0xffc9 => Key::F12,
        0xffe1 => Key::LeftShift,
        0xffe2 => Key::RightShift,
        0xffe3 => Key::LeftCtrl,
        0xffe4 => Key::RightCtrl,
        0xffe9 => Key::LeftAlt,
        0xffea => Key::RightAlt,
        0xffeb => Key::LeftMeta,
        0xffec => Key::RightMeta,
        0x61 => Key::A,
        0x62 => Key::B,
        0x63 => Key::C,
        0x64 => Key::D,
        0x65 => Key::E,
        0x66 => Key::F,
        0x67 => Key::G,
        0x68 => Key::H,
        0x69 => Key::I,
        0x6a => Key::J,
        0x6b => Key::K,
        0x6c => Key::L,
        0x6d => Key::M,
        0x6e => Key::N,
        0x6f => Key::O,
        0x70 => Key::P,
        0x71 => Key::Q,
        0x72 => Key::R,
        0x73 => Key::S,
        0x74 => Key::T,
        0x75 => Key::U,
        0x76 => Key::V,
        0x77 => Key::W,
        0x78 => Key::X,
        0x79 => Key::Y,
        0x7a => Key::Z,
        0x30 => Key::Key0,
        0x31 => Key::Key1,
        0x32 => Key::Key2,
        0x33 => Key::Key3,
        0x34 => Key::Key4,
        0x35 => Key::Key5,
        0x36 => Key::Key6,
        0x37 => Key::Key7,
        0x38 => Key::Key8,
        0x39 => Key::Key9,
        _ => Key::Unknown(keysym as u32),
    }
}

/// Map an X11 keysym to a key symbol.
pub fn keysym_to_key(keysym: u64) -> (r: Key)
    ensures
        r == spec_keysym_to_key(keysym),
{
    match keysym {
        0xff1b => Key::Escape,
        0xff09 => Key::Tab,
        0x0020 => Key::Space,
        0xff0d => Key::Return,
        0xff08 => Key::Backspace,
        0xffff => Key::Delete,
        0xff63 => Key::Insert,
        0xff50 => Key::Home,
        0xff57 => Key::End,
        0xff55 => Key::PageUp,
        0xff56 => Key::PageDown,
        0xff51 => Key::Left,
        0xff53 => Key::Right,
        0xff52 => Key::Up,
        0xff54 => Key::Down,
        0xffbe => Key::F1,
        0xffbf => Key::F2,
        0xffc0 => Key::F3,
        0xffc1 => Key::F4,
        0xffc2 => Key::F5,
        0xffc3 => Key::F6,
        0xffc4 => Key::F7,
        0xffc5 => Key::F8,
        0xffc6 => Key::F9,
        0xffc7 => Key::F10,
        0xffc8 => Key::F11,
        0xffc9 => Key::F12,
        0xffe1 => Key::LeftShift,
        0xffe2 => Key::RightShift,
        0xffe3 => Key::LeftCtrl,
        0xffe4 => Key::RightCtrl,
        0xffe9 => Key::LeftAlt,
        0xffea => Key::RightAlt,
        0xffeb => Key::LeftMeta,
        0xffec => Key::RightMeta,
        0x61 => Key::A,
        0x62 => Key::B,
        0x63 => Key::C,
        0x64 => Key::D,
        0x65 => Key::E,
        0x66 => Key::F,
        0x67 => Key::G,
        0x68 => Key::H,
        0x69 => Key::I,
        0x6a => Key::J,
        0x6b => Key::K,
        0x6c => Key::L,
        0x6d => Key::M,
        0x6e => Key::N,
        0x6f => Key::O,
        0x70 => Key::P,
        0x71 => Key::Q,
        0x72 => Key::R,
        0x73 => Key::S,
        0x74 => Key::T,
        0x75 => Key::U,
        0x76 => Key::V,
        0x77 => Key::W,
        0x78 => Key::X,
        0x79 => Key::Y,
        0x7a => Key::Z,
        0x30 => Key::Key0,
        0x31 => Key::Key1,
        0x32 => Key::Key2,
        0x33 => Key::Key3,
        0x34 => Key::Key4,
        0x35 => Key::Key5,
        0x36 => Key::Key6,
        0x37 => Key::Key7,
        0x38 => Key::Key8,
        0x39 => Key::Key9,
        _ => Key::Unknown(#[verifier::truncate] (keysym as u32)),
    }
}

/// The modifier set encoded in an X11 event state mask: shift, control,
/// alt (mod1) and meta (mod4).
pub open spec fn spec_x11_key_modifiers(state: u32) -> KeyModifiers {
    KeyModifiers {
        shift: state & 0x1 != 0,
        ctrl: state & 0x4 != 0,
        alt: state & 0x8 != 0,
        meta: state & 0x40 != 0,
    }
}

/// Decode the modifier set from an X11 event state mask.
pub fn get_x11_key_modifiers(state: u32) -> (r: KeyModifiers)
    ensures
        r == spec_x11_key_modifiers(state),
{
    KeyModifiers {
        shift: state & 0x1 != 0,
        ctrl: state & 0x4 != 0,
        alt: state & 0x8 != 0,
        meta: state & 0x40 != 0,
    }
}

/// The key symbol for a Win32 virtual-key code.
pub open spec fn spec_virtual_key_to_key(vkey: usize) -> Key {
    match vkey {
        0x1b => Key::Escape,
        0x09 => Key::Tab,
        0x20 => Key::Space,
        0x0d => Key::Return,
        0x08 => Key::Backspace,
        0x2e => Key::Delete,
        0x2d => Key::Insert,
        0x24 => Key::Home,
        0x23 => Key::End,
        0x21 => Key::PageUp,
        0x22 => Key::PageDown,
        0x25 => Key::Left,
        0x27 => Key::Right,
        0x26 => Key::Up,
        0x28 => Key::Down,
        0x41 => Key::A,
        0x42 => Key::B,
        0x43 => Key::C,
        0x44 => Key::D,
        0x45 => Key::E,
        0x46 => Key::F,
        0x47 => Key::G,
        0x48 => Key::H,
        0x49 => Key::I,
        0x4a => Key::J,
        0x4b => Key::K,
        0x4c => Key::L,
        0x4d => Key::M,
        0x4e => Key::N,
        0x4f => Key::O,
        0x50 => Key::P,
        0x51 => Key::Q,
        0x52 => Key::R,
        0x53 => Key::S,
        0x54 => Key::T,
        0x55 => Key::U,
        0x56 => Key::V,
        0x57 => Key::W,
        0x58 => Key::X,
        0x59 => Key::Y,
        0x5a => Key::Z,
        0x30 => Key::Key0,
        0x31 => Key::Key1,
        0x32 => Key::Key2,
        0x33 => Key::Key3,
        0x34 => Key::Key4,
        0x35 => Key::Key5,
        0x36 => Key::Key6,
        0x37 => Key::Key7,
        0x38 => Key::Key8,
        0x39 => Key::Key9,
        0x70 => Key::F1,
        0x71 => Key::F2,
        0x72 => Key::F3,
        0x73 => Key::F4,
        0x74 => Key::F5,
        0x75 => Key::F6,
        0x76 => Key::F7,
        0x77 => Key::F8,
        0x78 => Key::F9,
        0x79 => Key::F10,
        0x7a => Key::F11,
        0x7b => Key::F12,
        0x10 => Key::LeftShift,
        0x11 => Key::LeftCtrl,
        0x12 => Key::LeftAlt,
        0x5b => Key::LeftMeta,
        0x5c => Key::RightMeta,
        _ => Key::Unknown(vkey as u32),
    }
}

/// Map a Win32 virtual-key code to a key symbol.
pub fn virtual_key_to_key(vkey: usize) -> (r: Key)
    ensures
        r == spec_virtual_key_to_key(vkey),
{
    match vkey {
        0x1b => Key::Escape,
        0x09 => Key::Tab,
        0x20 => Key::Space,
        0x0d => Key::Return,
        0x08 => Key::Backspace,
        0x2e => Key::Delete,
        0x2d => Key::Insert,
        0x24 => Key::Home,
        0x23 => Key::End,
        0x21 => Key::PageUp,
        0x22 => Key::PageDown,
        0x25 => Key::Left,
        0x27 => Key::Right,
        0x26 => Key::Up,
        0x28 => Key::Down,
        0x41 => Key::A,
        0x42 => Key::B,
        0x43 => Key::C,
        0x44 => Key::D,
        0x45 => Key::E,
        0x46 => Key::F,
        0x47 => Key::G,
        0x48 => Key::H,
        0x49 => Key::I,
        0x4a => Key::J,
        0x4b => Key::K,
        0x4c => Key::L,
        0x4d => Key::M,
        0x4e => Key::N,
        0x4f => Key::O,
        0x50 => Key::P,
        0x51 => Key::Q,
        0x52 => Key::R,
        0x53 => Key::S,
        0x54 => Key::T,
        0x55 => Key::U,
        0x56 => Key::V,
        0x57 => Key::W,
        0x58 => Key::X,
        0x59 => Key::Y,
        0x5a => Key::Z,
        0x30 => Key::Key0,
        0x31 => Key::Key1,
        0x32 => Key::Key2,
        0x33 => Key::Key3,
        0x34 => Key::Key4,
        0x35 => Key::Key5,
        0x36 => Key::Key6,
        0x37 => Key::Key7,
        0x38 => Key::Key8,
        0x39 => Key::Key9,
        0x70 => Key::F1,
        0x71 => Key::F2,
        0x72 => Key::F3,
        0x73 => Key::F4,
        0x74 => Key::F5,
        0x75 => Key::F6,
        0x76 => Key::F7,
        0x77 => Key::F8,
        0x78 => Key::F9,
        0x79 => Key::F10,
        0x7a => Key::F11,
        0x7b => Key::F12,
        0x10 => Key::LeftShift,
        0x11 => Key::LeftCtrl,
        0x12 => Key::LeftAlt,
        0x5b => Key::LeftMeta,
        0x5c => Key::RightMeta,
        _ => Key::Unknown(#[verifier::truncate] (vkey as u32)),
    }
}

/// The key symbol for an AppKit hardware key code.
pub open spec fn spec_keycode_to_key(keycode: u16) -> Key {
    match keycode {
        0 => Key::A,
        11 => Key::B,
        8 => Key::C,
        2 => Key::D,
        14 => Key::E,
        3 => Key::F,
        5 => Key::G,
        4 => Key::H,
        34 => Key::I,
        38 => Key::J,
        40 => Key::K,
        37 => Key::L,
        46 => Key::M,
        45 => Key::N,
        31 => Key::O,
        35 => Key::P,
        12 => Key::Q,
        15 => Key::R,
        1 => Key::S,
        17 => Key::T,
        32 => Key::U,
        9 => Key::V,
        13 => Key::W,
        7 => Key::X,
        16 => Key::Y,
        6 => Key::Z,
        29 => Key::Key0,
        18 => Key::Key1,
        19 => Key::Key2,
        20 => Key::Key3,
        21 => Key::Key4,
        23 => Key::Key5,
        22 => Key::Key6,
        26 => Key::Key7,
        28 => Key::Key8,
        25 => Key::Key9,
        53 => Key::Escape,
        48 => Key::Tab,
        49 => Key::Space,
        36 => Key::Return,
        51 => Key::Backspace,
        117 => Key::Delete,
        114 => Key::Insert,
        115 => Key::Home,
        119 => Key::End,
        116 => Key::PageUp,
        121 => Key::PageDown,
        123 => Key::Left,
        124 => Key::Right,
        126 => Key::Up,
        125 => Key::Down,
        122 => Key::F1,
        120 => Key::F2,
        99 => Key::F3,
        118 => Key::F4,
        96 => Key::F5,
        97 => Key::F6,
        98 => Key::F7,
        100 => Key::F8,
        101 => Key::F9,
        109 => Key::F10,
        103 => Key::F11,
        111 => Key::F12,
        56 => Key::LeftShift,
        60 => Key::RightShift,
        59 => Key::LeftCtrl,
        62 => Key::RightCtrl,
        58 => Key::LeftAlt,
        61 => Key::RightAlt,
        55 => Key::LeftMeta,
        54 => Key::RightMeta,
        _ => Key::Unknown(keycode as u32),
    }
}

/// Map an AppKit hardware key code to a key symbol.
pub fn keycode_to_key(keycode: u16) -> (r: Key)
    ensures
        r == spec_keycode_to_key(keycode),
{
    match keycode {
        0 => Key::A,
        11 => Key::B,
        8 => Key::C,
        2 => Key::D,
        14 => Key::E,
        3 => Key::F,
        5 => Key::G,
        4 => Key::H,
        34 => Key::I,
        38 => Key::J,
        40 => Key::K,
        37 => Key::L,
        46 => Key::M,
        45 => Key::N,
        31 => Key::O,
        35 => Key::P,
        12 => Key::Q,
        15 => Key::R,
        1 => Key::S,
        17 => Key::T,
        32 => Key::U,
        9 => Key::V,
        13 => Key::W,
        7 => Key::X,
        16 => Key::Y,
        6 => Key::Z,
        29 => Key::Key0,
        18 => Key::Key1,
        19 => Key::Key2,
        20 => Key::Key3,
        21 => Key::Key4,
        23 => Key::Key5,
        22 => Key::Key6,
        26 => Key::Key7,
        28 => Key::Key8,
        25 => Key::Key9,
        53 => Key::Escape,
        48 => Key::Tab,
        49 => Key::Space,
        36 => Key::Return,
        51 => Key::Backspace,
        117 => Key::Delete,
        114 => Key::Insert,
        115 => Key::Home,
        119 => Key::End,
        116 => Key::PageUp,
        121 => Key::PageDown,
        123 => Key::Left,
        124 => Key::Right,
        126 => Key::Up,
        125 => Key::Down,
        122 => Key::F1,
        120 => Key::F2,
        99 => Key::F3,
        118 => Key::F4,
        96 => Key::F5,
        97 => Key::F6,
        98 => Key::F7,
        100 => Key::F8,
        101 => Key::F9,
        109 => Key::F10,
        103 => Key::F11,
        111 => Key::F12,
        56 => Key::LeftShift,
        60 => Key::RightShift,
        59 => Key::LeftCtrl,
        62 => Key::RightCtrl,
        58 => Key::LeftAlt,
        61 => Key::RightAlt,
        55 => Key::LeftMeta,
        54 => Key::RightMeta,
        _ => Key::Unknown(keycode as u32),
    }
}

} // verus!

verus! {

/// Relies on `char::from_u32`: yields the character with the given scalar
/// value. The argument must not be a surrogate code unit.
#[verifier::external_body]
fn char_from_u16(u: u16) -> (r: char)
    requires
        !(0xD800 <= u < 0xE000),
    ensures
        r as u32 == u as u32,
{
    match char::from_u32(u as u32) {
        Some(c) => c,
        None => ' ',
    }
}

/// Division by 120 rounding toward zero, as wheel notches are counted.
pub open spec fn spec_wheel_notches(d: int) -> int {
    if d >= 0 {
        d / 120
    } else {
        -((-d) / 120)
    }
}

/// The signed 16-bit value in the low word, as used for packed coordinates.
pub open spec fn spec_lo_word_i32(lparam: isize) -> i32 {
    ((lparam as usize & 0xFFFF) as u16) as i16 as i32
}

/// The signed 16-bit value in the high word, as used for packed coordinates.
pub open spec fn spec_hi_word_i32(lparam: isize) -> i32 {
    (((lparam as usize >> 16) & 0xFFFF) as u16) as i16 as i32
}

/// The raw platform event encoded in one Win32 window message, if any, and
/// whether the message should still be handed to the default window
/// procedure. The caller supplies the window's identifier and the modifier
/// set currently held (the message itself does not carry it).
///
/// A destroy message yields `Quit` and is fully handled; a paint message
/// yields nothing and is fully handled; close, size, move, focus, mouse,
/// wheel (in whole notches), key and printable-character messages yield the
/// matching event and still go to the default procedure, as does anything
/// unrecognized.
pub open spec fn spec_window_message_to_event(
    window_id: u64,
    msg: u32,
    wparam: usize,
    lparam: isize,
    modifiers: KeyModifiers,
) -> (Option<PlatformEvent>, bool) {
    let x = spec_lo_word_i32(lparam);
    let y = spec_hi_word_i32(lparam);
    if msg == 0x0002 {  // destroy
        (Some(PlatformEvent::Quit), false)
    } else if msg == 0x0010 {  // close
        (Some(PlatformEvent::WindowClosed { window_id }), true)
    } else if msg == 0x0005 {  // size
        (
            Some(
                PlatformEvent::WindowResized {
                    window_id,
                    width: (lparam as usize & 0xFFFF) as u32,
                    height: ((lparam as usize >> 16) & 0xFFFF) as u32,
                },
            ),
            true,
        )
    } else if msg == 0x0003 {  // move
        (Some(PlatformEvent::WindowMoved { window_id, x, y }), true)
    } else if msg == 0x000F {  // paint
        (None, false)
    } else if msg == 0x0201 {  // left button down
        (Some(PlatformEvent::MousePressed { window_id, button: MouseButton::Left, x, y }), true)
    } else if msg == 0x0202 {  // left button up
        (Some(PlatformEvent::MouseReleased { window_id, button: MouseButton::Left, x, y }), true)
    } else if msg == 0x0204 {  // right button down
        (Some(PlatformEvent::MousePressed { window_id, button: MouseButton::Right, x, y }), true)
    } else if msg == 0x0205 {  // right button up
        (Some(PlatformEvent::MouseReleased { window_id, button: MouseButton::Right, x, y }), true)
    } else if msg == 0x0207 {  // middle button down
        (Some(PlatformEvent::MousePressed { window_id, button: MouseButton::Middle, x, y }), true)
    } else if msg == 0x0208 {  // middle button up
        (Some(PlatformEvent::MouseReleased { window_id, button: MouseButton::Middle, x, y }), true)
    } else if msg == 0x0200 {  // mouse move
        (Some(PlatformEvent::MouseMoved { window_id, x, y }), true)
    } else if msg == 0x020A {  // mouse wheel: the high word counts in 120ths
        (
            Some(
                PlatformEvent::MouseWheel {
                    window_id,
                    delta_x: 0,
                    delta_y: spec_wheel_notches((((wparam >> 16) & 0xFFFF) as u16) as i16 as int) as i32,
                },
            ),
            true,
        )
    } else if msg == 0x0100 {  // key down
        (
            Some(
                PlatformEvent::KeyPressed {
                    window_id,
                    key: spec_virtual_key_to_key(wparam),
                    modifiers,
                },
            ),
            true,
        )
    } else if msg == 0x0101 {  // key up
        (
            Some(
                PlatformEvent::KeyReleased {
                    window_id,
                    key: spec_virtual_key_to_key(wparam),
                    modifiers,
                },
            ),
            true,
        )
    } else if msg == 0x0007 {  // set focus
        (Some(PlatformEvent::WindowFocused { window_id }), true)
    } else if msg == 0x0008 {  // kill focus
        (Some(PlatformEvent::WindowUnfocused { window_id }), true)
    } else {
        (None, true)
    }
}

/// Whether a character message's code unit yields text input: a valid
/// (non-surrogate) code unit that is not a control character.
pub open spec fn spec_char_message_accepts(u: u16) -> bool {
    &&& !(0xD800 <= u < 0xE000)
    &&& u >= 0x20
    &&& !(0x7F <= u <= 0x9F)
}

/// Decode one Win32 window message into the raw platform event it carries,
/// as [`spec_window_message_to_event`] describes; a printable-character
/// message yields a one-character text-input event.
pub fn window_message_to_event(
    window_id: u64,
    msg: u32,
    wparam: usize,
    lparam: isize,
    modifiers: KeyModifiers,
) -> (r: (Option<PlatformEvent>, bool))
    ensures
        msg != 0x0102 ==> r == spec_window_message_to_event(
            window_id,
            msg,
            wparam,
            lparam,
            modifiers,
        ),
        msg == 0x0102 ==> {
            let u = (wparam & 0xFFFF) as u16;
            &&& r.1
            &&& spec_char_message_accepts(u) ==> (r.0 matches Some(
                PlatformEvent::TextInput { window_id: w, text },
            ) && w == window_id && text@.len() == 1 && text@[0] as u32 == u as u32)
            &&& !spec_char_message_accepts(u) ==> r.0 is None
        },
{
    let x = lo_word_i32(lparam);
    let y = hi_word_i32(lparam);
    if msg == 0x0002 {
        (Some(PlatformEvent::Quit), false)
    } else if msg == 0x0010 {
        (Some(PlatformEvent::WindowClosed { window_id }), true)
    } else if msg == 0x0005 {
        (
            Some(
                PlatformEvent::WindowResized {
                    window_id,
                    width: ((lparam as usize) & 0xFFFF) as u32,
                    height: (((lparam as usize) >> 16) & 0xFFFF) as u32,
                },
            ),
            true,
        )
    } else if msg == 0x0003 {
        (Some(PlatformEvent::WindowMoved { window_id, x, y }), true)
    } else if msg == 0x000F {
        (None, false)
    } else if msg == 0x0201 {
        (Some(PlatformEvent::MousePressed { window_id, button: MouseButton::Left, x, y }), true)
    } else if msg == 0x0202 {
        (Some(PlatformEvent::MouseReleased { window_id, button: MouseButton::Left, x, y }), true)
    } else if msg == 0x0204 {
        (Some(PlatformEvent::MousePressed { window_id, button: MouseButton::Right, x, y }), true)
    } else if msg == 0x0205 {
        (Some(PlatformEvent::MouseReleased { window_id, button: MouseButton::Right, x, y }), true)
    } else if msg == 0x0207 {
        (Some(PlatformEvent::MousePressed { window_id, button: MouseButton::Middle, x, y }), true)
    } else if msg == 0x0208 {
        (Some(PlatformEvent::MouseReleased { window_id, button: MouseButton::Middle, x, y }), true)
    } else if msg == 0x0200 {
        (Some(PlatformEvent::MouseMoved { window_id, x, y }), true)
    } else if msg == 0x020A {
        let raw: u16 = ((wparam >> 16) & 0xFFFF) as u16;
        let d: i32 = (raw as i16) as i32;
        let notches: i32 = if d >= 0 {
            d / 120
        } else {
            -((-d) / 120)
        };
        (Some(PlatformEvent::MouseWheel { window_id, delta_x: 0, delta_y: notches }), true)
    } else if msg == 0x0100 {
        (
            Some(
                PlatformEvent::KeyPressed { window_id, key: virtual_key_to_key(wparam), modifiers },
            ),
            true,
        )
    } else if msg == 0x0101 {
        (
            Some(
                PlatformEvent::KeyReleased {
                    window_id,
                    key: virtual_key_to_key(wparam),
                    modifiers,
                },
            ),
            true,
        )
    } else if msg == 0x0102 {
        let u: u16 = (wparam & 0xFFFF) as u16;
        if !(0xD800 <= u && u < 0xE000) && u >= 0x20 && !(0x7F <= u && u <= 0x9F) {
            let c = char_from_u16(u);
            let mut text = String::new();
            crate::strutil::push_char(&mut text, c);
            (Some(PlatformEvent::TextInput { window_id, text }), true)
        } else {
            (None, true)
        }
    } else if msg == 0x0007 {
        (Some(PlatformEvent::WindowFocused { window_id }), true)
    } else if msg == 0x0008 {
        (Some(PlatformEvent::WindowUnfocused { window_id }), true)
    } else {
        (None, true)
    }
}

/// The signed 16-bit value in a packed parameter's low word.
fn lo_word_i32(lparam: isize) -> (r: i32)
    ensures
        r == spec_lo_word_i32(lparam),
{
    (((lparam as usize) & 0xFFFF) as u16) as i16 as i32
}

/// The signed 16-bit value in a packed parameter's high word.
fn hi_word_i32(lparam: isize) -> (r: i32)
    ensures
        r == spec_hi_word_i32(lparam),
{
    ((((lparam as usize) >> 16) & 0xFFFF) as u16) as i16 as i32
}

/// The modifier set encoded in AppKit modifier flags: shift, control,
/// option, and command.
pub open spec fn spec_ns_modifiers(flags: u64) -> KeyModifiers {
    KeyModifiers {
        shift: flags & 0x20000 != 0,
        ctrl: flags & 0x40000 != 0,
        alt: flags & 0x80000 != 0,
        meta: flags & 0x100000 != 0,
    }
}

/// Decode the modifier set from AppKit modifier flags.
pub fn ns_modifiers_to_key_modifiers(flags: u64) -> (r: KeyModifiers)
    ensures
        r == spec_ns_modifiers(flags),
{
    KeyModifiers {
        shift: flags & 0x20000 != 0,
        ctrl: flags & 0x40000 != 0,
        alt: flags & 0x80000 != 0,
        meta: flags & 0x100000 != 0,
    }
}

} // verus!

verus! {

/// The raw platform event encoded in one X11 event, given the fields the
/// caller read from it: the event kind code, the identifier of the window it
/// addresses, the looked-up key symbol, the button number, the pointer
/// coordinates, the modifier state mask, the configured size, and whether a
/// client message carried the window-manager delete atom.
///
/// Key presses and releases map through the keysym table; buttons one, two
/// and three are the left, middle and right buttons, anything else is passed
/// through; motion, configure, and focus changes map directly; a delete
/// client message closes the window; every other kind yields nothing.
pub open spec fn spec_x11_event_to_platform_event(
    kind: i32,
    window_id: u64,
    keysym: u64,
    button: u32,
    x: i32,
    y: i32,
    state: u32,
    width: u32,
    height: u32,
    is_delete_message: bool,
) -> Option<PlatformEvent> {
    if kind == 2 {  // key press
        Some(
            PlatformEvent::KeyPressed {
                window_id,
                key: spec_keysym_to_key(keysym),
                modifiers: spec_x11_key_modifiers(state),
            },
        )
    } else if kind == 3 {  // key release
        Some(
            PlatformEvent::KeyReleased {
                window_id,
                key: spec_keysym_to_key(keysym),
                modifiers: spec_x11_key_modifiers(state),
            },
        )
    } else if kind == 4 {  // button press
        Some(PlatformEvent::MousePressed { window_id, button: spec_x11_button(button), x, y })
    } else if kind == 5 {  // button release
        Some(PlatformEvent::MouseReleased { window_id, button: spec_x11_button(button), x, y })
    } else if kind == 6 {  // motion
        Some(PlatformEvent::MouseMoved { window_id, x, y })
    } else if kind == 22 {  // configure
        Some(PlatformEvent::WindowResized { window_id, width, height })
    } else if kind == 9 {  // focus in
        Some(PlatformEvent::WindowFocused { window_id })
    } else if kind == 10 {  // focus out
        Some(PlatformEvent::WindowUnfocused { window_id })
    } else if kind == 33 && is_delete_message {  // client message
        Some(PlatformEvent::WindowClosed { window_id })
    } else {
        None
    }
}

/// The mouse button an X11 button number names.
pub open spec fn spec_x11_button(button: u32) -> MouseButton {
    if button == 1 {
        MouseButton::Left
    } else if button == 2 {
        MouseButton::Middle
    } else if button == 3 {
        MouseButton::Right
    } else {
        MouseButton::Other(button as u8)
    }
}

/// Decode one X11 event from its extracted fields, as
/// [`spec_x11_event_to_platform_event`] describes.
pub fn x11_event_to_platform_event(
    kind: i32,
    window_id: u64,
    keysym: u64,
    button: u32,
    x: i32,
    y: i32,
    state: u32,
    width: u32,
    height: u32,
    is_delete_message: bool,
) -> (r: Option<PlatformEvent>)
    ensures
        r == spec_x11_event_to_platform_event(
            kind,
            window_id,
            keysym,
            button,
            x,
            y,
            state,
            width,
            height,
            is_delete_message,
        ),
{
    if kind == 2 {
        Some(
            PlatformEvent::KeyPressed {
                window_id,
                key: keysym_to_key(keysym),
                modifiers: get_x11_key_modifiers(state),
            },
        )
    } else if kind == 3 {
        Some(
            PlatformEvent::KeyReleased {
                window_id,
                key: keysym_to_key(keysym),
                modifiers: get_x11_key_modifiers(state),
            },
        )
    } else if kind == 4 {
        Some(PlatformEvent::MousePressed { window_id, button: x11_button(button), x, y })
    } else if kind == 5 {
        Some(PlatformEvent::MouseReleased { window_id, button: x11_button(button), x, y })
    } else if kind == 6 {
        Some(PlatformEvent::MouseMoved { window_id, x, y })
    } else if kind == 22 {
        Some(PlatformEvent::WindowResized { window_id, width, height })
    } else if kind == 9 {
        Some(PlatformEvent::WindowFocused { window_id })
    } else if kind == 10 {
        Some(PlatformEvent::WindowUnfocused { window_id })
    } else if kind == 33 && is_delete_message {
        Some(PlatformEvent::WindowClosed { window_id })
    } else {
        None
    }
}

/// The mouse button an X11 button number names.
fn x11_button(button: u32) -> (r: MouseButton)
    ensures
        r == spec_x11_button(button),
{
    if button == 1 {
        MouseButton::Left
    } else if button == 2 {
        MouseButton::Middle
    } else if button == 3 {
        MouseButton::Right
    } else {
        MouseButton::Other(#[verifier::truncate] (button as u8))
    }
}

/// The raw platform event encoded in one AppKit event, given the fields the
/// caller read from it: the event type number, the identifier of the window
/// it addresses, the hardware key code, the modifier flags, the location in
/// window coordinates, and the scroll amounts in whole lines.
///
/// The three mouse buttons press and release under their own type numbers;
/// moves and drags all report the pointer position; scrolls carry their
/// deltas; key events map through the key-code table; every other type
/// yields nothing.
pub open spec fn spec_ns_event_to_platform_event(
    event_type: u64,
    window_id: u64,
    keycode: u16,
    flags: u64,
    x: i32,
    y: i32,
    delta_x: i32,
    delta_y: i32,
) -> Option<PlatformEvent> {
    if event_type == 1 {  // left mouse down
        Some(PlatformEvent::MousePressed { window_id, button: MouseButton::Left, x, y })
    } else if event_type == 2 {  // left mouse up
        Some(PlatformEvent::MouseReleased { window_id, button: MouseButton::Left, x, y })
    } else if event_type == 3 {  // right mouse down
        Some(PlatformEvent::MousePressed { window_id, button: MouseButton::Right, x, y })
    } else if event_type == 4 {  // right mouse up
        Some(PlatformEvent::MouseReleased { window_id, button: MouseButton::Right, x, y })
    } else if event_type == 5 || event_type == 6 || event_type == 7 {  // moves and drags
        Some(PlatformEvent::MouseMoved { window_id, x, y })
    } else if event_type == 10 {  // key down
        Some(
            PlatformEvent::KeyPressed {
                window_id,
                key: spec_keycode_to_key(keycode),
                modifiers: spec_ns_modifiers(flags),
            },
        )
    } else if event_type == 11 {  // key up
        Some(
            PlatformEvent::KeyReleased {
                window_id,
                key: spec_keycode_to_key(keycode),
                modifiers: spec_ns_modifiers(flags),
            },
        )
    } else if event_type == 22 {  // scroll wheel
        Some(PlatformEvent::MouseWheel { window_id, delta_x, delta_y })
    } else {
        None
    }
}

/// Decode one AppKit event from its extracted fields, as
/// [`spec_ns_event_to_platform_event`] describes.
pub fn ns_event_to_platform_event(
    event_type: u64,
    window_id: u64,
    keycode: u16,
    flags: u64,
    x: i32,
    y: i32,
    delta_x: i32,
    delta_y: i32,
) -> (r: Option<PlatformEvent>)
    ensures
        r == spec_ns_event_to_platform_event(
            event_type,
            window_id,
            keycode,
            flags,
            x,
            y,
            delta_x,
            delta_y,
        ),
{
    if event_type == 1 {
        Some(PlatformEvent::MousePressed { window_id, button: MouseButton::Left, x, y })
    } else if event_type == 2 {
        Some(PlatformEvent::MouseReleased { window_id, button: MouseButton::Left, x, y })
    } else if event_type == 3 {
        Some(PlatformEvent::MousePressed { window_id, button: MouseButton::Right, x, y })
    } else if event_type == 4 {
        Some(PlatformEvent::MouseReleased { window_id, button: MouseButton::Right, x, y })
    } else if event_type == 5 || event_type == 6 || event_type == 7 {
        Some(PlatformEvent::MouseMoved { window_id, x, y })
    } else if event_type == 10 {
        Some(
            PlatformEvent::KeyPressed {
                window_id,
                key: keycode_to_key(keycode),
                modifiers: ns_modifiers_to_key_modifiers(flags),
            },
        )
    } else if event_type == 11 {
        Some(
            PlatformEvent::KeyReleased {
                window_id,
                key: keycode_to_key(keycode),
                modifiers: ns_modifiers_to_key_modifiers(flags),
            },
        )
    } else if event_type == 22 {
        Some(PlatformEvent::MouseWheel { window_id, delta_x, delta_y })
    } else {
        None
    }
}

} // verus!
