//! Key and modifier translators: stateless lookups mapping host-native
//! codes to portable identifiers.
//!
//! Keycode translation is a partial function: an unknown scan code maps to
//! nothing, and the worker loop drops the event rather than treating it as
//! an error. Modifier translation reads the four flag bits out of the raw
//! host bitmask.

use vstd::prelude::*;

verus! {

/// Portable identifier for a key, independent of the host's scan codes.
#[derive(Clone, Copy, Debug, PartialEq, Eq, Structural)]
pub enum KeyCode {
    Key0,
    Key1,
    Key2,
    Key3,
    Key4,
    Key5,
    Key6,
    Key7,
    Key8,
    Key9,
    A,
    B,
    C,
    D,
    E,
    F,
    G,
    H,
    I,
    J,
    K,
    L,
    M,
    N,
    O,
    P,
    Q,
    R,
    S,
    T,
    U,
    V,
    W,
    X,
    Y,
    Z,
    Minus,
    Equal,
    LeftBracket,
    RightBracket,
    Backslash,
    Semicolon,
    Apostrophe,
    Comma,
    Period,
    Slash,
    Space,
    Tab,
    Enter,
    Up,
    Down,
    Left,
    Right,
    KpAdd,
    KpSubtract,
    KpMultiply,
    KpDivide,
}

/// The host's modifier flags, one per bit of the raw bitmask reported
/// beside key and text events.
#[allow(non_camel_case_types)]
#[derive(Clone, Copy, Debug, PartialEq, Eq, Structural)]
pub enum HaikuModifiers {
    B_SHIFT_KEY,
    B_COMMAND_KEY,
    B_CONTROL_KEY,
    B_CAPS_LOCK,
    B_SCROLL_LOCK,
    B_NUM_LOCK,
    B_OPTION_KEY,
    B_MENU_KEY,
    B_LEFT_SHIFT_KEY,
    B_RIGHT_SHIFT_KEY,
    B_LEFT_COMMAND_KEY,
    B_RIGHT_COMMAND_KEY,
    B_LEFT_CONTROL_KEY,
    B_RIGHT_CONTROL_KEY,
    B_LEFT_OPTION_KEY,
    B_RIGHT_OPTION_KEY,
}

/// The bit each modifier flag occupies in the raw host bitmask.
pub open spec fn spec_modifier_mask(m: HaikuModifiers) -> i32 {
    match m {
        HaikuModifiers::B_SHIFT_KEY => 0x00000001,
        HaikuModifiers::B_COMMAND_KEY => 0x00000002,
        HaikuModifiers::B_CONTROL_KEY => 0x00000004,
        HaikuModifiers::B_CAPS_LOCK => 0x00000008,
        HaikuModifiers::B_SCROLL_LOCK => 0x00000010,
        HaikuModifiers::B_NUM_LOCK => 0x00000020,
        HaikuModifiers::B_OPTION_KEY => 0x00000040,
        HaikuModifiers::B_MENU_KEY => 0x00000080,
        HaikuModifiers::B_LEFT_SHIFT_KEY => 0x00000100,
        HaikuModifiers::B_RIGHT_SHIFT_KEY => 0x00000200,
        HaikuModifiers::B_LEFT_COMMAND_KEY => 0x00000400,
        HaikuModifiers::B_RIGHT_COMMAND_KEY => 0x00000800,
        HaikuModifiers::B_LEFT_CONTROL_KEY => 0x00001000,
        HaikuModifiers::B_RIGHT_CONTROL_KEY => 0x00002000,
        HaikuModifiers::B_LEFT_OPTION_KEY => 0x00004000,
        HaikuModifiers::B_RIGHT_OPTION_KEY => 0x00008000,
    }
}

impl HaikuModifiers {
    /// The bit this flag occupies in the raw host bitmask.
    pub fn mask(self) -> (r: i32)
        ensures
            r == spec_modifier_mask(self),
    {
        match self {
            HaikuModifiers::B_SHIFT_KEY => 0x00000001,
            HaikuModifiers::B_COMMAND_KEY => 0x00000002,
            HaikuModifiers::B_CONTROL_KEY => 0x00000004,
            HaikuModifiers::B_CAPS_LOCK => 0x00000008,
            HaikuModifiers::B_SCROLL_LOCK => 0x00000010,
            HaikuModifiers::B_NUM_LOCK => 0x00000020,
            HaikuModifiers::B_OPTION_KEY => 0x00000040,
            HaikuModifiers::B_MENU_KEY => 0x00000080,
            HaikuModifiers::B_LEFT_SHIFT_KEY => 0x00000100,
            HaikuModifiers::B_RIGHT_SHIFT_KEY => 0x00000200,
            HaikuModifiers::B_LEFT_COMMAND_KEY => 0x00000400,
            HaikuModifiers::B_RIGHT_COMMAND_KEY => 0x00000800,
            HaikuModifiers::B_LEFT_CONTROL_KEY => 0x00001000,
            HaikuModifiers::B_RIGHT_CONTROL_KEY => 0x00002000,
            HaikuModifiers::B_LEFT_OPTION_KEY => 0x00004000,
            HaikuModifiers::B_RIGHT_OPTION_KEY => 0x00008000,
        }
    }
}

/// The four portable modifier flags derived from the raw host bitmask.
#[derive(Clone, Copy, Debug, PartialEq, Eq, Structural)]
pub struct KeyMods {
    pub shift: bool,
    pub ctrl: bool,
    pub alt: bool,
    pub logo: bool,
}

impl Default for KeyMods {
    /// No modifier held.
    fn default() -> (r: KeyMods)
        ensures
            r == (KeyMods { shift: false, ctrl: false, alt: false, logo: false }),
    {
        KeyMods { shift: false, ctrl: false, alt: false, logo: false }
    }
}

/// The portable modifier set a raw bitmask denotes: each flag is set
/// exactly when its bit is set in the mask. Shift and control map to their
/// like-named flags; the host's menu key acts as alt and its option key as
/// the logo key.
pub open spec fn spec_key_mods(modifiers: i32) -> KeyMods {
    KeyMods {
        shift: modifiers & spec_modifier_mask(HaikuModifiers::B_SHIFT_KEY) != 0,
        ctrl: modifiers & spec_modifier_mask(HaikuModifiers::B_CONTROL_KEY) != 0,
        alt: modifiers & spec_modifier_mask(HaikuModifiers::B_MENU_KEY) != 0,
        logo: modifiers & spec_modifier_mask(HaikuModifiers::B_OPTION_KEY) != 0,
    }
}

/// Translate a raw modifier bitmask into the four-flag portable set.
pub fn key_mods(modifiers: i32) -> (mods: KeyMods)
    ensures
        mods == spec_key_mods(modifiers),
{
    let mut mods = KeyMods::default();
    if modifiers & HaikuModifiers::B_SHIFT_KEY.mask() != 0 {
        mods.shift = true;
    }
    if modifiers & HaikuModifiers::B_CONTROL_KEY.mask() != 0 {
        mods.ctrl = true;
    }
    if modifiers & HaikuModifiers::B_MENU_KEY.mask() != 0 {
        mods.alt = true;
    }
    if modifiers & HaikuModifiers::B_OPTION_KEY.mask() != 0 {
        mods.logo = true;
    }
    mods
}

/// The portable key a raw scan code denotes, if any. Unknown scan codes
/// map to `None`; the worker loop drops such events.
pub open spec fn spec_convert_keycode(keycode: i32) -> Option<KeyCode> {
    if keycode == 0x12 {
        Some(KeyCode::Key1)
    } else if keycode == 0x13 {
        Some(KeyCode::Key2)
    } else if keycode == 0x14 {
        Some(KeyCode::Key3)
    } else if keycode == 0x15 {
        Some(KeyCode::Key4)
    } else if keycode == 0x16 {
        Some(KeyCode::Key5)
    } else if keycode == 0x17 {
        Some(KeyCode::Key6)
    } else if keycode == 0x18 {
        Some(KeyCode::Key7)
    } else if keycode == 0x19 {
        Some(KeyCode::Key8)
    } else if keycode == 0x1A {
        Some(KeyCode::Key9)
    } else if keycode == 0x1B {
        Some(KeyCode::Key0)
    } else if keycode == 0x1C {
        Some(KeyCode::Minus)
    } else if keycode == 0x1D {
        Some(KeyCode::Equal)
    } else if keycode == 0x23 {
        Some(KeyCode::KpDivide)
    } else if keycode == 0x24 {
        Some(KeyCode::KpMultiply)
    } else if keycode == 0x25 {
        Some(KeyCode::KpSubtract)
    } else if keycode == 0x26 {
        Some(KeyCode::Tab)
    } else if keycode == 0x27 {
        Some(KeyCode::Q)
    } else if keycode == 0x28 {
        Some(KeyCode::W)
    } else if keycode == 0x29 {
        Some(KeyCode::E)
    } else if keycode == 0x2A {
        Some(KeyCode::R)
    } else if keycode == 0x2B {
        Some(KeyCode::T)
    } else if keycode == 0x2C {
        Some(KeyCode::Y)
    } else if keycode == 0x2D {
        Some(KeyCode::U)
    } else if keycode == 0x2E {
        Some(KeyCode::I)
    } else if keycode == 0x2F {
        Some(KeyCode::O)
    } else if keycode == 0x30 {
        Some(KeyCode::P)
    } else if keycode == 0x31 {
        Some(KeyCode::LeftBracket)
    } else if keycode == 0x32 {
        Some(KeyCode::RightBracket)
    } else if keycode == 0x33 {
        Some(KeyCode::Backslash)
    } else if keycode == 0x3A {
        Some(KeyCode::KpAdd)
    } else if keycode == 0x3C {
        Some(KeyCode::A)
    } else if keycode == 0x3D {
        Some(KeyCode::S)
    } else if keycode == 0x3E {
        Some(KeyCode::D)
    } else if keycode == 0x3F {
        Some(KeyCode::F)
    } else if keycode == 0x40 {
        Some(KeyCode::G)
    } else if keycode == 0x41 {
        Some(KeyCode::H)
    } else if keycode == 0x42 {
        Some(KeyCode::J)
    } else if keycode == 0x43 {
        Some(KeyCode::K)
    } else if keycode == 0x44 {
        Some(KeyCode::L)
    } else if keycode == 0x45 {
        Some(KeyCode::Semicolon)
    } else if keycode == 0x46 {
        Some(KeyCode::Apostrophe)
    } else if keycode == 0x47 {
        Some(KeyCode::Enter)
    } else if keycode == 0x4C {
        Some(KeyCode::Z)
    } else if keycode == 0x4D {
        Some(KeyCode::X)
    } else if keycode == 0x4E {
        Some(KeyCode::C)
    } else if keycode == 0x4F {
        Some(KeyCode::V)
    } else if keycode == 0x50 {
        Some(KeyCode::B)
    } else if keycode == 0x51 {
        Some(KeyCode::N)
    } else if keycode == 0x52 {
        Some(KeyCode::M)
    } else if keycode == 0x53 {
        Some(KeyCode::Comma)
    } else if keycode == 0x54 {
        Some(KeyCode::Period)
    } else if keycode == 0x55 {
        Some(KeyCode::Slash)
    } else if keycode == 0x57 {
        Some(KeyCode::Up)
    } else if keycode == 0x5E {
        Some(KeyCode::Space)
    } else if keycode == 0x61 {
        Some(KeyCode::Left)
    } else if keycode == 0x62 {
        Some(KeyCode::Down)
    } else if keycode == 0x63 {
        Some(KeyCode::Right)
    } else {
        None
    }
}

/// Translate a raw scan code to its portable key, or `None` for a scan
/// code outside the table.
pub fn convert_keycode(keycode: i32) -> (r: Option<KeyCode>)
    ensures
        r == spec_convert_keycode(keycode),
{
    if keycode == 0x12 {
        Some(KeyCode::Key1)
    } else if keycode == 0x13 {
        Some(KeyCode::Key2)
    } else if keycode == 0x14 {
        Some(KeyCode::Key3)
    } else if keycode == 0x15 {
        Some(KeyCode::Key4)
    } else if keycode == 0x16 {
        Some(KeyCode::Key5)
    } else if keycode == 0x17 {
        Some(KeyCode::Key6)
    } else if keycode == 0x18 {
        Some(KeyCode::Key7)
    } else if keycode == 0x19 {
        Some(KeyCode::Key8)
    } else if keycode == 0x1A {
        Some(KeyCode::Key9)
    } else if keycode == 0x1B {
        Some(KeyCode::Key0)
    } else if keycode == 0x1C {
        Some(KeyCode::Minus)
    } else if keycode == 0x1D {
        Some(KeyCode::Equal)
    } else if keycode == 0x23 {
        Some(KeyCode::KpDivide)
    } else if keycode == 0x24 {
        Some(KeyCode::KpMultiply)
    } else if keycode == 0x25 {
        Some(KeyCode::KpSubtract)
    } else if keycode == 0x26 {
        Some(KeyCode::Tab)
    } else if keycode == 0x27 {
        Some(KeyCode::Q)
    } else if keycode == 0x28 {
        Some(KeyCode::W)
    } else if keycode == 0x29 {
        Some(KeyCode::E)
    } else if keycode == 0x2A {
        Some(KeyCode::R)
    } else if keycode == 0x2B {
        Some(KeyCode::T)
    } else if keycode == 0x2C {
        Some(KeyCode::Y)
    } else if keycode == 0x2D {
        Some(KeyCode::U)
    } else if keycode == 0x2E {
        Some(KeyCode::I)
    } else if keycode == 0x2F {
        Some(KeyCode::O)
    } else if keycode == 0x30 {
        Some(KeyCode::P)
    } else if keycode == 0x31 {
        Some(KeyCode::LeftBracket)
    } else if keycode == 0x32 {
        Some(KeyCode::RightBracket)
    } else if keycode == 0x33 {
        Some(KeyCode::Backslash)
    } else if keycode == 0x3A {
        Some(KeyCode::KpAdd)
    } else if keycode == 0x3C {
        Some(KeyCode::A)
    } else if keycode == 0x3D {
        Some(KeyCode::S)
    } else if keycode == 0x3E {
        Some(KeyCode::D)
    } else if keycode == 0x3F {
        Some(KeyCode::F)
    } else if keycode == 0x40 {
        Some(KeyCode::G)
    } else if keycode == 0x41 {
        Some(KeyCode::H)
    } else if keycode == 0x42 {
        Some(KeyCode::J)
    } else if keycode == 0x43 {
        Some(KeyCode::K)
    } else if keycode == 0x44 {
        Some(KeyCode::L)
    } else if keycode == 0x45 {
        Some(KeyCode::Semicolon)
    } else if keycode == 0x46 {
        Some(KeyCode::Apostrophe)
    } else if keycode == 0x47 {
        Some(KeyCode::Enter)
    } else if keycode == 0x4C {
        Some(KeyCode::Z)
    } else if keycode == 0x4D {
        Some(KeyCode::X)
    } else if keycode == 0x4E {
        Some(KeyCode::C)
    } else if keycode == 0x4F {
        Some(KeyCode::V)
    } else if keycode == 0x50 {
        Some(KeyCode::B)
    } else if keycode == 0x51 {
        Some(KeyCode::N)
    } else if keycode == 0x52 {
        Some(KeyCode::M)
    } else if keycode == 0x53 {
        Some(KeyCode::Comma)
    } else if keycode == 0x54 {
        Some(KeyCode::Period)
    } else if keycode == 0x55 {
        Some(KeyCode::Slash)
    } else if keycode == 0x57 {
        Some(KeyCode::Up)
    } else if keycode == 0x5E {
        Some(KeyCode::Space)
    } else if keycode == 0x61 {
        Some(KeyCode::Left)
    } else if keycode == 0x62 {
        Some(KeyCode::Down)
    } else if keycode == 0x63 {
        Some(KeyCode::Right)
    } else {
        None
    }
}

} // verus!
