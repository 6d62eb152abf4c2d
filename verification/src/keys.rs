use vstd::prelude::*;

verus! {

/// A logical keyboard key, as the foreign interface enumerates them.
///
/// The variants are opaque identifiers; the only semantics imposed is the
/// numeric code each one maps to, which must match the vendor's published
/// constants bit-for-bit.
#[allow(non_camel_case_types)]
#[derive(Debug, Clone, Copy, PartialEq, Eq, Hash, Structural)]
pub enum KeyName {
    ESC,
    F1,
    F2,
    F3,
    F4,
    F5,
    F6,
    F7,
    F8,
    F9,
    F10,
    F11,
    F12,
    PRINT_SCREEN,
    SCROLL_LOCK,
    PAUSE_BREAK,
    TILDE,
    ONE,
    TWO,
    THREE,
    FOUR,
    FIVE,
    SIX,
    SEVEN,
    EIGHT,
    NINE,
    ZERO,
    MINUS,
    EQUALS,
    BACKSPACE,
    INSERT,
    HOME,
    PAGE_UP,
    NUM_LOCK,
    NUM_SLASH,
    NUM_ASTERISK,
    NUM_MINUS,
    TAB,
    Q,
    W,
    E,
    R,
    T,
    Y,
    U,
    I,
    O,
    P,
    OPEN_BRACKET,
    CLOSE_BRACKET,
    BACKSLASH,
    KEYBOARD_DELETE,
    END,
    PAGE_DOWN,
    NUM_SEVEN,
    NUM_EIGHT,
    NUM_NINE,
    NUM_PLUS,
    CAPS_LOCK,
    A,
    S,
    D,
    F,
    G,
    H,
    J,
    K,
    L,
    SEMICOLON,
    APOSTROPHE,
    ENTER,
    NUM_FOUR,
    NUM_FIVE,
    NUM_SIX,
    LEFT_SHIFT,
    Z,
    X,
    C,
    V,
    B,
    N,
    M,
    COMMA,
    PERIOD,
    FORWARD_SLASH,
    RIGHT_SHIFT,
    ARROW_UP,
    NUM_ONE,
    NUM_TWO,
    NUM_THREE,
    NUM_ENTER,
    LEFT_CONTROL,
    LEFT_WINDOWS,
    LEFT_ALT,
    SPACE,
    RIGHT_ALT,
    RIGHT_WINDOWS,
    APPLICATION_SELECT,
    RIGHT_CONTROL,
    ARROW_LEFT,
    ARROW_DOWN,
    ARROW_RIGHT,
    NUM_ZERO,
    NUM_PERIOD,
    G_1,
    G_2,
    G_3,
    G_4,
    G_5,
    G_6,
    G_7,
    G_8,
    G_9,
    G_LOGO,
    G_BADGE,
}

impl KeyName {
    /// The vendor's numeric code for this key.
    pub open spec fn spec_code(self) -> u32 {
        match self {
            KeyName::ESC => 0x01,
            KeyName::F1 => 0x3b,
            KeyName::F2 => 0x3c,
            KeyName::F3 => 0x3d,
            KeyName::F4 => 0x3e,
            KeyName::F5 => 0x3f,
            KeyName::F6 => 0x40,
            KeyName::F7 => 0x41,
            KeyName::F8 => 0x42,
            KeyName::F9 => 0x43,
            KeyName::F10 => 0x44,
            KeyName::F11 => 0x57,
            KeyName::F12 => 0x58,
            KeyName::PRINT_SCREEN => 0x137,
            KeyName::SCROLL_LOCK => 0x46,
            KeyName::PAUSE_BREAK => 0x145,
            KeyName::TILDE => 0x29,
            KeyName::ONE => 0x02,
            KeyName::TWO => 0x03,
            KeyName::THREE => 0x04,
            KeyName::FOUR => 0x05,
            KeyName::FIVE => 0x06,
            KeyName::SIX => 0x07,
            KeyName::SEVEN => 0x08,
            KeyName::EIGHT => 0x09,
            KeyName::NINE => 0x0a,
            KeyName::ZERO => 0x0b,
            KeyName::MINUS => 0x0c,
            KeyName::EQUALS => 0x0d,
            KeyName::BACKSPACE => 0x0e,
            KeyName::INSERT => 0x152,
            KeyName::HOME => 0x147,
            KeyName::PAGE_UP => 0x149,
            KeyName::NUM_LOCK => 0x45,
            KeyName::NUM_SLASH => 0x135,
            KeyName::NUM_ASTERISK => 0x37,
            KeyName::NUM_MINUS => 0x4a,
            KeyName::TAB => 0x0f,
            KeyName::Q => 0x10,
            KeyName::W => 0x11,
            KeyName::E => 0x12,
            KeyName::R => 0x13,
            KeyName::T => 0x14,
            KeyName::Y => 0x15,
            KeyName::U => 0x16,
            KeyName::I => 0x17,
            KeyName::O => 0x18,
            KeyName::P => 0x19,
            KeyName::OPEN_BRACKET => 0x1a,
            KeyName::CLOSE_BRACKET => 0x1b,
            KeyName::BACKSLASH => 0x2b,
            KeyName::KEYBOARD_DELETE => 0x153,
            KeyName::END => 0x14f,
            KeyName::PAGE_DOWN => 0x151,
            KeyName::NUM_SEVEN => 0x47,
            KeyName::NUM_EIGHT => 0x48,
            KeyName::NUM_NINE => 0x49,
            KeyName::NUM_PLUS => 0x4e,
            KeyName::CAPS_LOCK => 0x3a,
            KeyName::A => 0x1e,
            KeyName::S => 0x1f,
            KeyName::D => 0x20,
            KeyName::F => 0x21,
            KeyName::G => 0x22,
            KeyName::H => 0x23,
            KeyName::J => 0x24,
            KeyName::K => 0x25,
            KeyName::L => 0x26,
            KeyName::SEMICOLON => 0x27,
            KeyName::APOSTROPHE => 0x28,
            KeyName::ENTER => 0x1c,
            KeyName::NUM_FOUR => 0x4b,
            KeyName::NUM_FIVE => 0x4c,
            KeyName::NUM_SIX => 0x4d,
            KeyName::LEFT_SHIFT => 0x2a,
            KeyName::Z => 0x2c,
            KeyName::X => 0x2d,
            KeyName::C => 0x2e,
            KeyName::V => 0x2f,
            KeyName::B => 0x30,
            KeyName::N => 0x31,
            KeyName::M => 0x32,
            KeyName::COMMA => 0x33,
            KeyName::PERIOD => 0x34,
            KeyName::FORWARD_SLASH => 0x35,
            KeyName::RIGHT_SHIFT => 0x36,
            KeyName::ARROW_UP => 0x148,
            KeyName::NUM_ONE => 0x4f,
            KeyName::NUM_TWO => 0x50,
            KeyName::NUM_THREE => 0x51,
            KeyName::NUM_ENTER => 0x11c,
            KeyName::LEFT_CONTROL => 0x1d,
            KeyName::LEFT_WINDOWS => 0x15b,
            KeyName::LEFT_ALT => 0x38,
            KeyName::SPACE => 0x39,
            KeyName::RIGHT_ALT => 0x138,
            KeyName::RIGHT_WINDOWS => 0x15c,
            KeyName::APPLICATION_SELECT => 0x15d,
            KeyName::RIGHT_CONTROL => 0x11d,
            KeyName::ARROW_LEFT => 0x14b,
            KeyName::ARROW_DOWN => 0x150,
            KeyName::ARROW_RIGHT => 0x14d,
            KeyName::NUM_ZERO => 0x52,
            KeyName::NUM_PERIOD => 0x53,
            KeyName::G_1 => 0xfff1,
            KeyName::G_2 => 0xfff2,
            KeyName::G_3 => 0xfff3,
            KeyName::G_4 => 0xfff4,
            KeyName::G_5 => 0xfff5,
            KeyName::G_6 => 0xfff6,
            KeyName::G_7 => 0xfff7,
            KeyName::G_8 => 0xfff8,
            KeyName::G_9 => 0xfff9,
            KeyName::G_LOGO => 0xffff1,
            KeyName::G_BADGE => 0xffff2,
        }
    }

    /// The vendor's numeric code for this key, for the foreign boundary.
    pub fn code(self) -> (res: u32)
        ensures
            res == self.spec_code(),
    {
        match self {
            KeyName::ESC => 0x01,
            KeyName::F1 => 0x3b,
            KeyName::F2 => 0x3c,
            KeyName::F3 => 0x3d,
            KeyName::F4 => 0x3e,
            KeyName::F5 => 0x3f,
            KeyName::F6 => 0x40,
            KeyName::F7 => 0x41,
            KeyName::F8 => 0x42,
            KeyName::F9 => 0x43,
            KeyName::F10 => 0x44,
            KeyName::F11 => 0x57,
            KeyName::F12 => 0x58,
            KeyName::PRINT_SCREEN => 0x137,
            KeyName::SCROLL_LOCK => 0x46,
            KeyName::PAUSE_BREAK => 0x145,
            KeyName::TILDE => 0x29,
            KeyName::ONE => 0x02,
            KeyName::TWO => 0x03,
            KeyName::THREE => 0x04,
            KeyName::FOUR => 0x05,
            KeyName::FIVE => 0x06,
            KeyName::SIX => 0x07,
            KeyName::SEVEN => 0x08,
            KeyName::EIGHT => 0x09,
            KeyName::NINE => 0x0a,
            KeyName::ZERO => 0x0b,
            KeyName::MINUS => 0x0c,
            KeyName::EQUALS => 0x0d,
            KeyName::BACKSPACE => 0x0e,
            KeyName::INSERT => 0x152,
            KeyName::HOME => 0x147,
            KeyName::PAGE_UP => 0x149,
            KeyName::NUM_LOCK => 0x45,
            KeyName::NUM_SLASH => 0x135,
            KeyName::NUM_ASTERISK => 0x37,
            KeyName::NUM_MINUS => 0x4a,
            KeyName::TAB => 0x0f,
            KeyName::Q => 0x10,
            KeyName::W => 0x11,
            KeyName::E => 0x12,
            KeyName::R => 0x13,
            KeyName::T => 0x14,
            KeyName::Y => 0x15,
            KeyName::U => 0x16,
            KeyName::I => 0x17,
            KeyName::O => 0x18,
            KeyName::P => 0x19,
            KeyName::OPEN_BRACKET => 0x1a,
            KeyName::CLOSE_BRACKET => 0x1b,
            KeyName::BACKSLASH => 0x2b,
            KeyName::KEYBOARD_DELETE => 0x153,
            KeyName::END => 0x14f,
            KeyName::PAGE_DOWN => 0x151,
            KeyName::NUM_SEVEN => 0x47,
            KeyName::NUM_EIGHT => 0x48,
            KeyName::NUM_NINE => 0x49,
            KeyName::NUM_PLUS => 0x4e,
            KeyName::CAPS_LOCK => 0x3a,
            KeyName::A => 0x1e,
            KeyName::S => 0x1f,
            KeyName::D => 0x20,
            KeyName::F => 0x21,
            KeyName::G => 0x22,
            KeyName::H => 0x23,
            KeyName::J => 0x24,
            KeyName::K => 0x25,
            KeyName::L => 0x26,
            KeyName::SEMICOLON => 0x27,
            KeyName::APOSTROPHE => 0x28,
            KeyName::ENTER => 0x1c,
            KeyName::NUM_FOUR => 0x4b,
            KeyName::NUM_FIVE => 0x4c,
            KeyName::NUM_SIX => 0x4d,
            KeyName::LEFT_SHIFT => 0x2a,
            KeyName::Z => 0x2c,
            KeyName::X => 0x2d,
            KeyName::C => 0x2e,
            KeyName::V => 0x2f,
            KeyName::B => 0x30,
            KeyName::N => 0x31,
            KeyName::M => 0x32,
            KeyName::COMMA => 0x33,
            KeyName::PERIOD => 0x34,
            KeyName::FORWARD_SLASH => 0x35,
            KeyName::RIGHT_SHIFT => 0x36,
            KeyName::ARROW_UP => 0x148,
            KeyName::NUM_ONE => 0x4f,
            KeyName::NUM_TWO => 0x50,
            KeyName::NUM_THREE => 0x51,
            KeyName::NUM_ENTER => 0x11c,
            KeyName::LEFT_CONTROL => 0x1d,
            KeyName::LEFT_WINDOWS => 0x15b,
            KeyName::LEFT_ALT => 0x38,
            KeyName::SPACE => 0x39,
            KeyName::RIGHT_ALT => 0x138,
            KeyName::RIGHT_WINDOWS => 0x15c,
            KeyName::APPLICATION_SELECT => 0x15d,
            KeyName::RIGHT_CONTROL => 0x11d,
            KeyName::ARROW_LEFT => 0x14b,
            KeyName::ARROW_DOWN => 0x150,
            KeyName::ARROW_RIGHT => 0x14d,
            KeyName::NUM_ZERO => 0x52,
            KeyName::NUM_PERIOD => 0x53,
            KeyName::G_1 => 0xfff1,
            KeyName::G_2 => 0xfff2,
            KeyName::G_3 => 0xfff3,
            KeyName::G_4 => 0xfff4,
            KeyName::G_5 => 0xfff5,
            KeyName::G_6 => 0xfff6,
            KeyName::G_7 => 0xfff7,
            KeyName::G_8 => 0xfff8,
            KeyName::G_9 => 0xfff9,
            KeyName::G_LOGO => 0xffff1,
            KeyName::G_BADGE => 0xffff2,
        }
    }
}

/// A device class, as the foreign interface enumerates them.
///
/// Like `KeyName`, the variants are opaque identifiers mapped to the
/// vendor's numeric codes.
#[derive(Debug, Clone, Copy, PartialEq, Eq, Hash, Structural)]
pub enum DeviceType {
    Keyboard,
    Mouse,
    Mousemat,
    Headset,
    Adapter,
    Speaker,
}

impl DeviceType {
    /// The vendor's numeric code for this device class.
    pub open spec fn spec_code(self) -> u32 {
        match self {
            DeviceType::Keyboard => 0x0,
            DeviceType::Mouse => 0x3,
            DeviceType::Mousemat => 0x4,
            DeviceType::Headset => 0x8,
            DeviceType::Adapter => 0xc,
            DeviceType::Speaker => 0xe,
        }
    }

    /// The vendor's numeric code for this device class, for the foreign
    /// boundary.
    pub fn code(self) -> (res: u32)
        ensures
            res == self.spec_code(),
    {
        match self {
            DeviceType::Keyboard => 0x0,
            DeviceType::Mouse => 0x3,
            DeviceType::Mousemat => 0x4,
            DeviceType::Headset => 0x8,
            DeviceType::Adapter => 0xc,
            DeviceType::Speaker => 0xe,
        }
    }
}

} // verus!
