//! Input monitoring: the keyboard and mouse state that demo code polls,
//! and the closed mapping between raw scancode bytes and key identifiers.

use vstd::prelude::*;

verus! {

/// Number of keyboard scancode slots.
pub const NUM_KEYS: usize = 128;

/// The pressed/released state of every keyboard key.
pub struct Keyboard {
    pub buttons: Vec<bool>,
}

/// Mouse state.
pub struct Mouse {
}

/// Mouse button identifiers.
#[derive(Clone, Copy, PartialEq, Eq, Structural, Debug)]
pub enum MouseCode {
    Left,
    Right,
    Middle,
}

/// The shared input state that client code polls.
pub struct InputMonitoring {
    pub keyboard: Keyboard,
    pub mouse: Mouse,
}

impl InputMonitoring {
    /// Well-formedness: one slot per scancode.
    pub open spec fn wf(self) -> bool {
        self.keyboard.buttons@.len() == NUM_KEYS
    }

    /// Release every key.
    pub fn clear_keyboard(&mut self)
        requires
            old(self).wf(),
        ensures
            final(self).wf(),
            forall|i: int| 0 <= i < NUM_KEYS ==> !final(self).keyboard.buttons@[i],
    {
        let mut i: usize = 0;
        while i < NUM_KEYS
            invariant
                self.wf(),
                i <= NUM_KEYS,
                forall|j: int| 0 <= j < i ==> !self.keyboard.buttons@[j],
            decreases NUM_KEYS - i,
        {
            self.keyboard.buttons[i] = false;
            i += 1;
        }
    }

    /// Whether any key is currently pressed.
    pub fn key_pressed(&self) -> (r: bool)
        requires
            self.wf(),
        ensures
            r == exists|i: int| 0 <= i < NUM_KEYS && self.keyboard.buttons@[i],
    {
        let mut i: usize = 0;
        while i < NUM_KEYS
            invariant
                self.wf(),
                i <= NUM_KEYS,
                forall|j: int| 0 <= j < i ==> !self.keyboard.buttons@[j],
            decreases NUM_KEYS - i,
        {
            if self.keyboard.buttons[i] {
                return true;
            }
            i += 1;
        }
        false
    }
}

/// Create the input state with no key pressed.
pub fn new_input_monitoring() -> (m: InputMonitoring)
    ensures
        m.wf(),
        forall|i: int| 0 <= i < NUM_KEYS ==> !m.keyboard.buttons@[i],
{
    let mut buttons: Vec<bool> = Vec::new();
    let mut i: usize = 0;
    while i < NUM_KEYS
        invariant
            i <= NUM_KEYS,
            buttons@.len() == i,
            forall|j: int| 0 <= j < i ==> !buttons@[j],
        decreases NUM_KEYS - i,
    {
        buttons.push(false);
        i += 1;
    }
    InputMonitoring { keyboard: Keyboard { buttons }, mouse: Mouse {  } }
}

/// Keyboard key identifiers, one per supported scancode.
#[derive(Clone, Copy, PartialEq, Eq, Structural, Debug)]
pub enum NumCode {
    NoCode,
    Bad,
    Return,
    Escape,
    Space,
    BackSpace,
    Tab,
    Alt,
    Control,
    CapsLock,
    LShift,
    RShift,
    UpArrow,
    DownArrow,
    LeftArrow,
    RightArrow,
    Insert,
    Delete,
    Home,
    End,
    PgUp,
    PgDn,
    F1,
    F2,
    F3,
    F4,
    F5,
    F6,
    F7,
    F8,
    F9,
    F10,
    F11,
    F12,
    Num1,
    Num2,
    Num3,
    Num4,
    Num5,
    Num6,
    Num7,
    Num8,
    Num9,
    Num0,
    A,
    B,
    C,
    D,
    E,
    F,
    G,
    H,
    I,
    J,
    K,
    L,
    M,
    N,
    O,
    P,
    Q,
    R,
    S,
    T,
    U,
    V,
    W,
    X,
    Y,
    Z,
}

/// The key identifier of raw scancode byte `v`; unmapped bytes resolve
/// to `NumCode::NoCode`.
pub open spec fn spec_to_numcode(v: u8) -> NumCode {
    if v == 0x0 {
        NumCode::NoCode
    } else if v == 0xff {
        NumCode::Bad
    } else if v == 0x1c {
        NumCode::Return
    } else if v == 0x01 {
        NumCode::Escape
    } else if v == 0x39 {
        NumCode::Space
    } else if v == 0x0e {
        NumCode::BackSpace
    } else if v == 0x0f {
        NumCode::Tab
    } else if v == 0x38 {
        NumCode::Alt
    } else if v == 0x1d {
        NumCode::Control
    } else if v == 0x3a {
        NumCode::CapsLock
    } else if v == 0x2a {
        NumCode::LShift
    } else if v == 0x36 {
        NumCode::RShift
    } else if v == 0x48 {
        NumCode::UpArrow
    } else if v == 0x50 {
        NumCode::DownArrow
    } else if v == 0x4b {
        NumCode::LeftArrow
    } else if v == 0x4d {
        NumCode::RightArrow
    } else if v == 0x52 {
        NumCode::Insert
    } else if v == 0x53 {
        NumCode::Delete
    } else if v == 0x47 {
        NumCode::Home
    } else if v == 0x4f {
        NumCode::End
    } else if v == 0x49 {
        NumCode::PgUp
    } else if v == 0x51 {
        NumCode::PgDn
    } else if v == 0x3b {
        NumCode::F1
    } else if v == 0x3c {
        NumCode::F2
    } else if v == 0x3d {
        NumCode::F3
    } else if v == 0x3e {
        NumCode::F4
    } else if v == 0x3f {
        NumCode::F5
    } else if v == 0x40 {
        NumCode::F6
    } else if v == 0x41 {
        NumCode::F7
    } else if v == 0x42 {
        NumCode::F8
    } else if v == 0x43 {
        NumCode::F9
    } else if v == 0x44 {
        NumCode::F10
    } else if v == 0x57 {
        NumCode::F11
    } else if v == 0x59 {
        NumCode::F12
    } else if v == 0x02 {
        NumCode::Num1
    } else if v == 0x03 {
        NumCode::Num2
    } else if v == 0x04 {
        NumCode::Num3
    } else if v == 0x05 {
        NumCode::Num4
    } else if v == 0x06 {
        NumCode::Num5
    } else if v == 0x07 {
        NumCode::Num6
    } else if v == 0x08 {
        NumCode::Num7
    } else if v == 0x09 {
        NumCode::Num8
    } else if v == 0x0a {
        NumCode::Num9
    } else if v == 0x0b {
        NumCode::Num0
    } else if v == 0x1e {
        NumCode::A
    } else if v == 0x30 {
        NumCode::B
    } else if v == 0x2e {
        NumCode::C
    } else if v == 0x20 {
        NumCode::D
    } else if v == 0x12 {
        NumCode::E
    } else if v == 0x21 {
        NumCode::F
    } else if v == 0x22 {
        NumCode::G
    } else if v == 0x23 {
        NumCode::H
    } else if v == 0x17 {
        NumCode::I
    } else if v == 0x24 {
        NumCode::J
    } else if v == 0x25 {
        NumCode::K
    } else if v == 0x26 {
        NumCode::L
    } else if v == 0x32 {
        NumCode::M
    } else if v == 0x31 {
        NumCode::N
    } else if v == 0x18 {
        NumCode::O
    } else if v == 0x19 {
        NumCode::P
    } else if v == 0x10 {
        NumCode::Q
    } else if v == 0x13 {
        NumCode::R
    } else if v == 0x1f {
        NumCode::S
    } else if v == 0x14 {
        NumCode::T
    } else if v == 0x16 {
        NumCode::U
    } else if v == 0x2f {
        NumCode::V
    } else if v == 0x11 {
        NumCode::W
    } else if v == 0x2d {
        NumCode::X
    } else if v == 0x15 {
        NumCode::Y
    } else if v == 0x2c {
        NumCode::Z
    } else {
        NumCode::NoCode
    }
}

/// The raw scancode byte of a key identifier.
pub open spec fn spec_numcode_value(c: NumCode) -> u8 {
    match c {
        NumCode::NoCode => 0x0,
        NumCode::Bad => 0xff,
        NumCode::Return => 0x1c,
        NumCode::Escape => 0x01,
        NumCode::Space => 0x39,
        NumCode::BackSpace => 0x0e,
        NumCode::Tab => 0x0f,
        NumCode::Alt => 0x38,
        NumCode::Control => 0x1d,
        NumCode::CapsLock => 0x3a,
        NumCode::LShift => 0x2a,
        NumCode::RShift => 0x36,
        NumCode::UpArrow => 0x48,
        NumCode::DownArrow => 0x50,
        NumCode::LeftArrow => 0x4b,
        NumCode::RightArrow => 0x4d,
        NumCode::Insert => 0x52,
        NumCode::Delete => 0x53,
        NumCode::Home => 0x47,
        NumCode::End => 0x4f,
        NumCode::PgUp => 0x49,
        NumCode::PgDn => 0x51,
        NumCode::F1 => 0x3b,
        NumCode::F2 => 0x3c,
        NumCode::F3 => 0x3d,
        NumCode::F4 => 0x3e,
        NumCode::F5 => 0x3f,
        NumCode::F6 => 0x40,
        NumCode::F7 => 0x41,
        NumCode::F8 => 0x42,
        NumCode::F9 => 0x43,
        NumCode::F10 => 0x44,
        NumCode::F11 => 0x57,
        NumCode::F12 => 0x59,
        NumCode::Num1 => 0x02,
        NumCode::Num2 => 0x03,
        NumCode::Num3 => 0x04,
        NumCode::Num4 => 0x05,
        NumCode::Num5 => 0x06,
        NumCode::Num6 => 0x07,
        NumCode::Num7 => 0x08,
        NumCode::Num8 => 0x09,
        NumCode::Num9 => 0x0a,
        NumCode::Num0 => 0x0b,
        NumCode::A => 0x1e,
        NumCode::B => 0x30,
        NumCode::C => 0x2e,
        NumCode::D => 0x20,
        NumCode::E => 0x12,
        NumCode::F => 0x21,
        NumCode::G => 0x22,
        NumCode::H => 0x23,
        NumCode::I => 0x17,
        NumCode::J => 0x24,
        NumCode::K => 0x25,
        NumCode::L => 0x26,
        NumCode::M => 0x32,
        NumCode::N => 0x31,
        NumCode::O => 0x18,
        NumCode::P => 0x19,
        NumCode::Q => 0x10,
        NumCode::R => 0x13,
        NumCode::S => 0x1f,
        NumCode::T => 0x14,
        NumCode::U => 0x16,
        NumCode::V => 0x2f,
        NumCode::W => 0x11,
        NumCode::X => 0x2d,
        NumCode::Y => 0x15,
        NumCode::Z => 0x2c,
    }
}

/// Map a raw scancode byte to its key identifier; unmapped bytes resolve
/// to `NumCode::NoCode`.
pub fn to_numcode(v: u8) -> (c: NumCode)
    ensures
        c == spec_to_numcode(v),
{
    match v {
        0x0 => NumCode::NoCode,
        0xff => NumCode::Bad,
        0x1c => NumCode::Return,
        0x01 => NumCode::Escape,
        0x39 => NumCode::Space,
        0x0e => NumCode::BackSpace,
        0x0f => NumCode::Tab,
        0x38 => NumCode::Alt,
        0x1d => NumCode::Control,
        0x3a => NumCode::CapsLock,
        0x2a => NumCode::LShift,
        0x36 => NumCode::RShift,
        0x48 => NumCode::UpArrow,
        0x50 => NumCode::DownArrow,
        0x4b => NumCode::LeftArrow,
        0x4d => NumCode::RightArrow,
        0x52 => NumCode::Insert,
        0x53 => NumCode::Delete,
        0x47 => NumCode::Home,
        0x4f => NumCode::End,
        0x49 => NumCode::PgUp,
        0x51 => NumCode::PgDn,
        0x3b => NumCode::F1,
        0x3c => NumCode::F2,
        0x3d => NumCode::F3,
        0x3e => NumCode::F4,
        0x3f => NumCode::F5,
        0x40 => NumCode::F6,
        0x41 => NumCode::F7,
        0x42 => NumCode::F8,
        0x43 => NumCode::F9,
        0x44 => NumCode::F10,
        0x57 => NumCode::F11,
        0x59 => NumCode::F12,
        0x02 => NumCode::Num1,
        0x03 => NumCode::Num2,
        0x04 => NumCode::Num3,
        0x05 => NumCode::Num4,
        0x06 => NumCode::Num5,
        0x07 => NumCode::Num6,
        0x08 => NumCode::Num7,
        0x09 => NumCode::Num8,
        0x0a => NumCode::Num9,
        0x0b => NumCode::Num0,
        0x1e => NumCode::A,
        0x30 => NumCode::B,
        0x2e => NumCode::C,
        0x20 => NumCode::D,
        0x12 => NumCode::E,
        0x21 => NumCode::F,
        0x22 => NumCode::G,
        0x23 => NumCode::H,
        0x17 => NumCode::I,
        0x24 => NumCode::J,
        0x25 => NumCode::K,
        0x26 => NumCode::L,
        0x32 => NumCode::M,
        0x31 => NumCode::N,
        0x18 => NumCode::O,
        0x19 => NumCode::P,
        0x10 => NumCode::Q,
        0x13 => NumCode::R,
        0x1f => NumCode::S,
        0x14 => NumCode::T,
        0x16 => NumCode::U,
        0x2f => NumCode::V,
        0x11 => NumCode::W,
        0x2d => NumCode::X,
        0x15 => NumCode::Y,
        0x2c => NumCode::Z,
        _ => NumCode::NoCode,
    }
}

/// The raw scancode byte of a key identifier.
pub fn numcode_value(c: NumCode) -> (v: u8)
    ensures
        v == spec_numcode_value(c),
{
    match c {
        NumCode::NoCode => 0x0,
        NumCode::Bad => 0xff,
        NumCode::Return => 0x1c,
        NumCode::Escape => 0x01,
        NumCode::Space => 0x39,
        NumCode::BackSpace => 0x0e,
        NumCode::Tab => 0x0f,
        NumCode::Alt => 0x38,
        NumCode::Control => 0x1d,
        NumCode::CapsLock => 0x3a,
        NumCode::LShift => 0x2a,
        NumCode::RShift => 0x36,
        NumCode::UpArrow => 0x48,
        NumCode::DownArrow => 0x50,
        NumCode::LeftArrow => 0x4b,
        NumCode::RightArrow => 0x4d,
        NumCode::Insert => 0x52,
        NumCode::Delete => 0x53,
        NumCode::Home => 0x47,
        NumCode::End => 0x4f,
        NumCode::PgUp => 0x49,
        NumCode::PgDn => 0x51,
        NumCode::F1 => 0x3b,
        NumCode::F2 => 0x3c,
        NumCode::F3 => 0x3d,
        NumCode::F4 => 0x3e,
        NumCode::F5 => 0x3f,
        NumCode::F6 => 0x40,
        NumCode::F7 => 0x41,
        NumCode::F8 => 0x42,
        NumCode::F9 => 0x43,
        NumCode::F10 => 0x44,
        NumCode::F11 => 0x57,
        NumCode::F12 => 0x59,
        NumCode::Num1 => 0x02,
        NumCode::Num2 => 0x03,
        NumCode::Num3 => 0x04,
        NumCode::Num4 => 0x05,
        NumCode::Num5 => 0x06,
        NumCode::Num6 => 0x07,
        NumCode::Num7 => 0x08,
        NumCode::Num8 => 0x09,
        NumCode::Num9 => 0x0a,
        NumCode::Num0 => 0x0b,
        NumCode::A => 0x1e,
        NumCode::B => 0x30,
        NumCode::C => 0x2e,
        NumCode::D => 0x20,
        NumCode::E => 0x12,
        NumCode::F => 0x21,
        NumCode::G => 0x22,
        NumCode::H => 0x23,
        NumCode::I => 0x17,
        NumCode::J => 0x24,
        NumCode::K => 0x25,
        NumCode::L => 0x26,
        NumCode::M => 0x32,
        NumCode::N => 0x31,
        NumCode::O => 0x18,
        NumCode::P => 0x19,
        NumCode::Q => 0x10,
        NumCode::R => 0x13,
        NumCode::S => 0x1f,
        NumCode::T => 0x14,
        NumCode::U => 0x16,
        NumCode::V => 0x2f,
        NumCode::W => 0x11,
        NumCode::X => 0x2d,
        NumCode::Y => 0x15,
        NumCode::Z => 0x2c,
    }
}

/// Every key identifier's scancode byte maps back to the same
/// identifier: the two mappings round-trip.
pub proof fn lemma_numcode_round_trip(c: NumCode)
    ensures
        spec_to_numcode(spec_numcode_value(c)) == c,
{
}

} // verus!
