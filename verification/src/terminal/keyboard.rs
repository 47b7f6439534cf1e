//! Logical keys: what a key press means, whichever key produced it.

use smol_str::SmolStr;
use vstd::prelude::*;

verus! {

/// A key that is known by its name and not by a character that it types.
#[derive(Debug, Hash, PartialEq, Eq, Clone, Copy, Structural)]
pub enum NamedKey {
    /// Deletes what precedes the caret.
    Backspace,
    /// Submits the text.
    Enter,
    /// The space bar.
    Space,
    /// The tabulator key, with or without shift.
    Tab,
    /// Deletes what follows the caret.
    Delete,
    /// Toggles between inserting and overwriting.
    Insert,
    /// The escape key.
    Escape,
    /// Moves left.
    ArrowLeft,
    /// Moves right.
    ArrowRight,
    /// Moves up.
    ArrowUp,
    /// Moves down.
    ArrowDown,
    /// Moves to the start.
    Home,
    /// Moves to the end.
    End,
    /// Moves one page up.
    PageUp,
    /// Moves one page down.
    PageDown,
    /// Captures the screen.
    PrintScreen,
    /// Pauses the running program.
    Pause,
    /// Opens the context menu.
    ContextMenu,
    /// Starts playback.
    MediaPlay,
    /// Pauses playback.
    MediaPause,
    /// Starts or pauses playback.
    MediaPlayPause,
    /// Stops playback.
    MediaStop,
    /// Winds forward.
    MediaFastForward,
    /// Winds back.
    MediaRewind,
    /// Goes to the next track.
    MediaTrackNext,
    /// Goes to the previous track.
    MediaTrackPrevious,
    /// Starts recording.
    MediaRecord,
    /// Lowers the volume.
    AudioVolumeDown,
    /// Raises the volume.
    AudioVolumeUp,
    /// Mutes the sound.
    AudioVolumeMute,
    /// Function key 1.
    F1,
    /// Function key 2.
    F2,
    /// Function key 3.
    F3,
    /// Function key 4.
    F4,
    /// Function key 5.
    F5,
    /// Function key 6.
    F6,
    /// Function key 7.
    F7,
    /// Function key 8.
    F8,
    /// Function key 9.
    F9,
    /// Function key 10.
    F10,
    /// Function key 11.
    F11,
    /// Function key 12.
    F12,
    /// Function key 13.
    F13,
    /// Function key 14.
    F14,
    /// Function key 15.
    F15,
    /// Function key 16.
    F16,
    /// Function key 17.
    F17,
    /// Function key 18.
    F18,
    /// Function key 19.
    F19,
    /// Function key 20.
    F20,
    /// Function key 21.
    F21,
    /// Function key 22.
    F22,
    /// Function key 23.
    F23,
    /// Function key 24.
    F24,
    /// Function key 25.
    F25,
    /// Function key 26.
    F26,
    /// Function key 27.
    F27,
    /// Function key 28.
    F28,
    /// Function key 29.
    F29,
    /// Function key 30.
    F30,
    /// Function key 31.
    F31,
    /// Function key 32.
    F32,
    /// Function key 33.
    F33,
    /// Function key 34.
    F34,
    /// Function key 35.
    F35,
}

impl NamedKey {
    /// The number of a function key, and 0 for every other key.
    pub open spec fn function_number(self) -> int {
        match self {
            NamedKey::F1 => 1,
            NamedKey::F2 => 2,
            NamedKey::F3 => 3,
            NamedKey::F4 => 4,
            NamedKey::F5 => 5,
            NamedKey::F6 => 6,
            NamedKey::F7 => 7,
            NamedKey::F8 => 8,
            NamedKey::F9 => 9,
            NamedKey::F10 => 10,
            NamedKey::F11 => 11,
            NamedKey::F12 => 12,
            NamedKey::F13 => 13,
            NamedKey::F14 => 14,
            NamedKey::F15 => 15,
            NamedKey::F16 => 16,
            NamedKey::F17 => 17,
            NamedKey::F18 => 18,
            NamedKey::F19 => 19,
            NamedKey::F20 => 20,
            NamedKey::F21 => 21,
            NamedKey::F22 => 22,
            NamedKey::F23 => 23,
            NamedKey::F24 => 24,
            NamedKey::F25 => 25,
            NamedKey::F26 => 26,
            NamedKey::F27 => 27,
            NamedKey::F28 => 28,
            NamedKey::F29 => 29,
            NamedKey::F30 => 30,
            NamedKey::F31 => 31,
            NamedKey::F32 => 32,
            NamedKey::F33 => 33,
            NamedKey::F34 => 34,
            NamedKey::F35 => 35,
            _ => 0,
        }
    }
}

/// The `SmolStr` of the `smol_str` crate: a string that is cheap to clone.
#[verifier::external_type_specification]
#[verifier::external_body]
pub struct ExSmolStr(SmolStr);

/// The characters that a `SmolStr` holds.
pub uninterp spec fn smol_str_text(s: SmolStr) -> Seq<char>;

/// `From<char>` for `SmolStr`: a `SmolStr` that holds the one character `c`.
#[verifier::external_body]
pub(crate) fn smol_str_from_char(c: char) -> (s: SmolStr)
    ensures
        smol_str_text(s) == seq![c],
{
    SmolStr::from(c)
}

/// `SmolStr::as_str`: the characters held, as a string slice.
#[verifier::external_body]
pub(crate) fn smol_str_as_str(s: &SmolStr) -> (text: &str)
    ensures
        text@ == smol_str_text(*s),
{
    s.as_str()
}

/// `Clone` for `SmolStr`: the copy holds the same characters.
pub assume_specification[ <SmolStr as Clone>::clone ](s: &SmolStr) -> (copy: SmolStr)
    ensures
        smol_str_text(copy) == smol_str_text(*s),
;

/// What a key press means.
#[derive(Debug, Clone, PartialEq, Eq, Hash)]
pub enum Key {
    /// A key known by its name.
    Named(NamedKey),
    /// A key that types the text held, one character or grapheme cluster.
    Character(SmolStr),
    /// A key whose meaning is not known.
    Unidentified,
    /// A key that adds a mark to the next character typed, with that mark
    /// where it is known.
    Dead(Option<char>),
}

/// A logical key, with the text of a character key as a sequence of
/// characters.
pub enum KeyView {
    Named(NamedKey),
    Character(Seq<char>),
    Unidentified,
    Dead(Option<char>),
}

impl View for Key {
    type V = KeyView;

    open spec fn view(&self) -> KeyView {
        match *self {
            Key::Named(named) => KeyView::Named(named),
            Key::Character(text) => KeyView::Character(smol_str_text(text)),
            Key::Unidentified => KeyView::Unidentified,
            Key::Dead(mark) => KeyView::Dead(mark),
        }
    }
}

/// Whether a modifier key on one side of the keyboard is known to be down.
#[derive(Debug, Hash, PartialEq, Eq, Clone, Copy, Structural)]
pub enum ModifiersKeyState {
    /// The key is known to be pressed.
    Pressed,
    /// Nothing is known of the key: it may be pressed or released.
    Unknown,
}

/// The modifier keys known to be down, the left and the right key of each
/// pair told apart, one bit per key.
#[derive(Debug, Clone, Copy, PartialEq, Eq, Hash, Structural)]
pub struct ModifiersKeys {
    /// One bit per key.
    pub bits: u8,
}

impl View for ModifiersKeys {
    type V = u8;

    open spec fn view(&self) -> u8 {
        self.bits
    }
}

impl ModifiersKeys {
    pub const LSHIFT: u8 = 0b0000_0001;

    pub const RSHIFT: u8 = 0b0000_0010;

    pub const LCONTROL: u8 = 0b0000_0100;

    pub const RCONTROL: u8 = 0b0000_1000;

    pub const LALT: u8 = 0b0001_0000;

    pub const RALT: u8 = 0b0010_0000;

    pub const LSUPER: u8 = 0b0100_0000;

    pub const RSUPER: u8 = 0b1000_0000;

    /// The keys whose bits are set in `bits`.
    pub fn from_bits(bits: u8) -> (keys: ModifiersKeys)
        ensures
            keys@ == bits,
    {
        ModifiersKeys { bits }
    }

    /// No key.
    pub fn empty() -> (keys: ModifiersKeys)
        ensures
            keys@ == 0,
    {
        ModifiersKeys { bits: 0 }
    }

    /// The byte that holds one bit per key.
    pub fn bits(&self) -> (bits: u8)
        ensures
            bits == self@,
    {
        self.bits
    }

    /// Whether every key of `keys` is among these.
    pub fn contains(&self, keys: u8) -> (all: bool)
        ensures
            all == (self@ & keys == keys),
    {
        self.bits & keys == keys
    }
}

} // verus!
