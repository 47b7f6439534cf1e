//! Input as the terminal reports it, before it is given a meaning.
//!
//! The types follow those of the `crossterm` crate, which the host reads the
//! terminal with: the same keys, the same kinds of event, and the modifiers
//! on the same bits. They hold plain values, so that whoever reads the
//! terminal can fill them in one for one.

use vstd::prelude::*;

verus! {

/// A media key, as the terminal names it.
#[derive(Debug, Hash, PartialEq, Eq, Clone, Copy, Structural)]
pub enum RawMediaKey {
    Play,
    Pause,
    PlayPause,
    Reverse,
    Stop,
    FastForward,
    Rewind,
    TrackNext,
    TrackPrevious,
    Record,
    LowerVolume,
    RaiseVolume,
    MuteVolume,
}

/// A key, as the terminal names it.
#[derive(Debug, Hash, PartialEq, Eq, Clone, Copy, Structural)]
pub enum RawKeyCode {
    Backspace,
    Enter,
    Left,
    Right,
    Up,
    Down,
    Home,
    End,
    PageUp,
    PageDown,
    Tab,
    /// Tab with shift held. The terminal reports it only together with the
    /// shift modifier.
    BackTab,
    Delete,
    Insert,
    /// A function key, by its number.
    F(u8),
    /// A key that types a character.
    Char(char),
    Null,
    Esc,
    CapsLock,
    ScrollLock,
    NumLock,
    PrintScreen,
    Pause,
    Menu,
    KeypadBegin,
    /// A media key.
    Media(RawMediaKey),
    /// A modifier key itself, pressed or released.
    Modifier,
}

/// What happened to a key.
#[derive(Debug, Hash, PartialEq, Eq, Clone, Copy, Structural)]
pub enum RawKeyKind {
    /// The key went down.
    Press,
    /// The key is held down and the system repeats it.
    Repeat,
    /// The key went up.
    Release,
}

/// The modifiers that the terminal reports with a key, one bit per modifier,
/// in the terminal's own order.
#[derive(Debug, Hash, PartialEq, Eq, Clone, Copy, Structural)]
pub struct RawModifiers {
    /// One bit per modifier.
    pub bits: u8,
}

impl View for RawModifiers {
    type V = u8;

    open spec fn view(&self) -> u8 {
        self.bits
    }
}

impl RawModifiers {
    pub const SHIFT: u8 = 0b0000_0001;

    pub const CONTROL: u8 = 0b0000_0010;

    pub const ALT: u8 = 0b0000_0100;

    pub const SUPER: u8 = 0b0000_1000;

    pub const HYPER: u8 = 0b0001_0000;

    pub const META: u8 = 0b0010_0000;

    pub const NONE: u8 = 0b0000_0000;

    /// The modifiers whose bits are set in `bits`.
    pub fn from_bits(bits: u8) -> (modifiers: RawModifiers)
        ensures
            modifiers@ == bits,
    {
        RawModifiers { bits }
    }

    /// Whether every modifier of `modifiers` is reported.
    pub fn contains(&self, modifiers: u8) -> (all: bool)
        ensures
            all == (self@ & modifiers == modifiers),
    {
        self.bits & modifiers == modifiers
    }
}

/// A key event, as the terminal reports it.
#[derive(Debug, Hash, PartialEq, Eq, Clone, Copy, Structural)]
pub struct RawKeyEvent {
    /// The key.
    pub code: RawKeyCode,
    /// The modifiers held while it happened.
    pub modifiers: RawModifiers,
    /// What happened to the key.
    pub kind: RawKeyKind,
}

impl RawKeyEvent {
    /// Whether the event keeps what the terminal promises: a back-tab comes
    /// with the shift modifier.
    pub open spec fn well_formed(&self) -> bool {
        self.code == RawKeyCode::BackTab ==> self.modifiers@ & RawModifiers::SHIFT
            == RawModifiers::SHIFT
    }

    /// Whether the event keeps what the terminal promises: a back-tab comes
    /// with the shift modifier. An event that does not shows a fault in
    /// whatever produced it.
    pub fn is_well_formed(&self) -> (valid: bool)
        ensures
            valid == self.well_formed(),
    {
        match self.code {
            RawKeyCode::BackTab => self.modifiers.contains(RawModifiers::SHIFT),
            _ => true,
        }
    }
}

/// An event, as the terminal reports it.
#[derive(Debug, Hash, PartialEq, Eq, Clone, Copy, Structural)]
pub enum RawEvent {
    /// The terminal gained the input focus.
    FocusGained,
    /// The terminal lost the input focus.
    FocusLost,
    /// Something happened to a key.
    Key(RawKeyEvent),
    /// Something happened to the mouse.
    Mouse,
    /// Text was pasted.
    Paste,
    /// The terminal now has this many columns and rows.
    Resize(u16, u16),
}

} // verus!
