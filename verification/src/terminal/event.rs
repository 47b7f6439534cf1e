//! Keyboard events and modifier state.

use super::keyboard::{smol_str_text, Key, KeyView, ModifiersKeyState, ModifiersKeys};
use smol_str::SmolStr;
use vstd::prelude::*;
use vstd::std_specs::convert::FromSpecImpl;

verus! {

/// Describes a keyboard input targeting a window.
#[derive(Debug, Clone, Eq, PartialEq, Hash)]
pub struct KeyEvent {
    /// What the key press means, all modifiers but control taken into
    /// account.
    pub logical_key: Key,
    /// The text produced by this keypress, if it can be taken as text. For a
    /// key that types a character this is the text of `logical_key`.
    pub text: Option<SmolStr>,
    /// Whether the key is being pressed or released.
    pub state: ElementState,
    /// Whether or not this key is a key repeat event: true only where
    /// holding the key down produced the event, never for the first press.
    pub repeat: bool,
}

/// A key event, with its texts as sequences of characters.
pub struct KeyEventView {
    pub logical_key: KeyView,
    pub text: Option<Seq<char>>,
    pub state: ElementState,
    pub repeat: bool,
}

impl View for KeyEvent {
    type V = KeyEventView;

    open spec fn view(&self) -> KeyEventView {
        KeyEventView {
            logical_key: self.logical_key@,
            text: match self.text {
                Some(text) => Some(smol_str_text(text)),
                None => None,
            },
            state: self.state,
            repeat: self.repeat,
        }
    }
}

/// Describes the input state of a key.
#[derive(Debug, Hash, PartialEq, Eq, Clone, Copy, Structural)]
pub enum ElementState {
    Pressed,
    Released,
}

impl ElementState {
    /// True if `self == Pressed`.
    pub fn is_pressed(self) -> (pressed: bool)
        ensures
            pressed == (self == ElementState::Pressed),
    {
        self == ElementState::Pressed
    }
}

/// The state of the keyboard modifiers (shift, control, alt, etc.), one bit
/// per modifier. Every bit of the byte names a modifier, so every byte is a
/// state.
#[derive(Debug, Clone, Copy, PartialEq, Eq, Hash, Structural)]
pub struct ModifiersState {
    /// One bit per modifier.
    pub bits: u8,
}

impl View for ModifiersState {
    type V = u8;

    open spec fn view(&self) -> u8 {
        self.bits
    }
}

impl ModifiersState {
    pub const SHIFT: u8 = 0b1;

    pub const ALT: u8 = 0b10;

    pub const CONTROL: u8 = 0b100;

    pub const SUPER: u8 = 0b1000;

    pub const HYPER: u8 = 0b10000;

    pub const META: u8 = 0b100000;

    pub const CAPS_LOCK: u8 = 0b1000000;

    pub const NUM_LOCK: u8 = 0b10000000;

    pub const NONE: u8 = 0;

    /// The state whose asserted modifiers are the bits set in `bits`.
    pub fn from_bits(bits: u8) -> (state: ModifiersState)
        ensures
            state@ == bits,
    {
        ModifiersState { bits }
    }

    /// The byte that holds one bit per asserted modifier.
    pub fn bits(&self) -> (bits: u8)
        ensures
            bits == self@,
    {
        self.bits
    }

    /// No modifier.
    pub fn empty() -> (state: ModifiersState)
        ensures
            state@ == 0,
    {
        ModifiersState { bits: 0 }
    }

    /// Returns `true` if some modifier of `modifiers` is asserted.
    pub fn intersects(&self, modifiers: u8) -> (some: bool)
        ensures
            some == (self@ & modifiers != 0),
    {
        self.bits & modifiers != 0
    }

    /// Returns `true` if every modifier of `modifiers` is asserted.
    pub fn contains(&self, modifiers: u8) -> (all: bool)
        ensures
            all == (self@ & modifiers == modifiers),
    {
        self.bits & modifiers == modifiers
    }

    /// Asserts the modifiers of `modifiers`, and leaves the others as they
    /// are.
    pub fn insert(&mut self, modifiers: u8)
        ensures
            final(self)@ == old(self)@ | modifiers,
    {
        self.bits = self.bits | modifiers;
    }

    /// Returns `true` if the shift key is pressed.
    pub fn shift_key(&self) -> (pressed: bool)
        ensures
            pressed == (self@ & ModifiersState::SHIFT != 0),
    {
        self.intersects(ModifiersState::SHIFT)
    }

    /// Returns `true` if the control key is pressed.
    pub fn control_key(&self) -> (pressed: bool)
        ensures
            pressed == (self@ & ModifiersState::CONTROL != 0),
    {
        self.intersects(ModifiersState::CONTROL)
    }

    /// Returns `true` if the alt key is pressed.
    pub fn alt_key(&self) -> (pressed: bool)
        ensures
            pressed == (self@ & ModifiersState::ALT != 0),
    {
        self.intersects(ModifiersState::ALT)
    }

    /// Returns `true` if the super key is pressed.
    pub fn super_key(&self) -> (pressed: bool)
        ensures
            pressed == (self@ & ModifiersState::SUPER != 0),
    {
        self.intersects(ModifiersState::SUPER)
    }

    /// Returns `true` if the hyper key is pressed.
    pub fn hyper_key(&self) -> (pressed: bool)
        ensures
            pressed == (self@ & ModifiersState::HYPER != 0),
    {
        self.intersects(ModifiersState::HYPER)
    }

    /// Returns `true` if the meta key is pressed.
    pub fn meta_key(&self) -> (pressed: bool)
        ensures
            pressed == (self@ & ModifiersState::META != 0),
    {
        self.intersects(ModifiersState::META)
    }
}

impl Default for ModifiersState {
    fn default() -> (state: ModifiersState)
        ensures
            state@ == 0,
    {
        ModifiersState { bits: 0 }
    }
}

/// Describes keyboard modifiers event.
#[derive(Debug, Clone, Copy, PartialEq, Eq, Structural)]
pub struct Modifiers {
    /// Which modifiers are asserted.
    pub state: ModifiersState,
    /// The modifier keys known to be down. It adds detail to `state` and is
    /// no source of truth.
    pub pressed_mods: ModifiersKeys,
}

impl Modifiers {
    /// What is known of the keys `keys`: pressed where all of them are known
    /// to be down.
    pub open spec fn spec_mod_state(&self, keys: u8) -> ModifiersKeyState {
        if self.pressed_mods@ & keys == keys {
            ModifiersKeyState::Pressed
        } else {
            ModifiersKeyState::Unknown
        }
    }

    /// The state of the modifiers.
    pub fn state(&self) -> (state: ModifiersState)
        ensures
            state == self.state,
    {
        self.state
    }

    /// The state of the left shift key.
    pub fn lshift_state(&self) -> (state: ModifiersKeyState)
        ensures
            state == self.spec_mod_state(ModifiersKeys::LSHIFT),
    {
        self.mod_state(ModifiersKeys::LSHIFT)
    }

    /// The state of the right shift key.
    pub fn rshift_state(&self) -> (state: ModifiersKeyState)
        ensures
            state == self.spec_mod_state(ModifiersKeys::RSHIFT),
    {
        self.mod_state(ModifiersKeys::RSHIFT)
    }

    /// The state of the left alt key.
    pub fn lalt_state(&self) -> (state: ModifiersKeyState)
        ensures
            state == self.spec_mod_state(ModifiersKeys::LALT),
    {
        self.mod_state(ModifiersKeys::LALT)
    }

    /// The state of the right alt key.
    pub fn ralt_state(&self) -> (state: ModifiersKeyState)
        ensures
            state == self.spec_mod_state(ModifiersKeys::RALT),
    {
        self.mod_state(ModifiersKeys::RALT)
    }

    /// The state of the left control key.
    pub fn lcontrol_state(&self) -> (state: ModifiersKeyState)
        ensures
            state == self.spec_mod_state(ModifiersKeys::LCONTROL),
    {
        self.mod_state(ModifiersKeys::LCONTROL)
    }

    /// The state of the right control key.
    pub fn rcontrol_state(&self) -> (state: ModifiersKeyState)
        ensures
            state == self.spec_mod_state(ModifiersKeys::RCONTROL),
    {
        self.mod_state(ModifiersKeys::RCONTROL)
    }

    /// The state of the left super key.
    pub fn lsuper_state(&self) -> (state: ModifiersKeyState)
        ensures
            state == self.spec_mod_state(ModifiersKeys::LSUPER),
    {
        self.mod_state(ModifiersKeys::LSUPER)
    }

    /// The state of the right super key.
    pub fn rsuper_state(&self) -> (state: ModifiersKeyState)
        ensures
            state == self.spec_mod_state(ModifiersKeys::RSUPER),
    {
        self.mod_state(ModifiersKeys::RSUPER)
    }

    fn mod_state(&self, modifier: u8) -> (state: ModifiersKeyState)
        ensures
            state == self.spec_mod_state(modifier),
    {
        if self.pressed_mods.contains(modifier) {
            ModifiersKeyState::Pressed
        } else {
            ModifiersKeyState::Unknown
        }
    }
}

impl Default for Modifiers {
    fn default() -> (modifiers: Modifiers)
        ensures
            modifiers.state@ == 0,
            modifiers.pressed_mods@ == 0,
    {
        Modifiers { state: ModifiersState::empty(), pressed_mods: ModifiersKeys::empty() }
    }
}

impl From<ModifiersState> for Modifiers {
    /// The modifiers in the state `value`, with no key known to be down.
    fn from(value: ModifiersState) -> (modifiers: Modifiers) {
        Modifiers { state: value, pressed_mods: ModifiersKeys { bits: 0 } }
    }
}

impl FromSpecImpl<ModifiersState> for Modifiers {
    open spec fn obeys_from_spec() -> bool {
        true
    }

    open spec fn from_spec(value: ModifiersState) -> Modifiers {
        Modifiers { state: value, pressed_mods: ModifiersKeys { bits: 0 } }
    }
}

} // verus!
