//! Turns what the terminal reports into events for the widgets: every raw
//! key event is given its logical key, and the modifiers are tracked from
//! one event to the next.

use crate::event::{TextEvent, TextEventView, WindowEvent};
use crate::terminal::event::{ElementState, KeyEvent, KeyEventView, Modifiers, ModifiersState};
use crate::terminal::input::{
    RawEvent, RawKeyCode, RawKeyEvent, RawKeyKind, RawMediaKey, RawModifiers,
};
use crate::terminal::keyboard::{smol_str_from_char, Key, KeyView, ModifiersKeys, NamedKey};
use vstd::prelude::*;

verus! {

/// The function key with the number `n`. The numbers from 1 to 35 have one.
pub open spec fn function_key(n: u8) -> Option<NamedKey> {
    if 1 <= n <= 35 {
        Some(choose|key: NamedKey| key.function_number() == n)
    } else {
        None
    }
}

/// The named key that a media key of the terminal stands for. Reverse has
/// none.
pub open spec fn media_key(key: RawMediaKey) -> Option<NamedKey> {
    match key {
        RawMediaKey::Play => Some(NamedKey::MediaPlay),
        RawMediaKey::Pause => Some(NamedKey::MediaPause),
        RawMediaKey::PlayPause => Some(NamedKey::MediaPlayPause),
        RawMediaKey::Stop => Some(NamedKey::MediaStop),
        RawMediaKey::FastForward => Some(NamedKey::MediaFastForward),
        RawMediaKey::Rewind => Some(NamedKey::MediaRewind),
        RawMediaKey::TrackNext => Some(NamedKey::MediaTrackNext),
        RawMediaKey::TrackPrevious => Some(NamedKey::MediaTrackPrevious),
        RawMediaKey::Record => Some(NamedKey::MediaRecord),
        RawMediaKey::LowerVolume => Some(NamedKey::AudioVolumeDown),
        RawMediaKey::RaiseVolume => Some(NamedKey::AudioVolumeUp),
        RawMediaKey::MuteVolume => Some(NamedKey::AudioVolumeMute),
        RawMediaKey::Reverse => None,
    }
}

/// A named key as a logical key, where there is one.
pub open spec fn named(key: Option<NamedKey>) -> Option<KeyView> {
    match key {
        Some(key) => Some(KeyView::Named(key)),
        None => None,
    }
}

/// The logical key of a key of the terminal. The lock keys, the modifier
/// keys, the middle key of the keypad, the null code, function keys without
/// a number from 1 to 35 and media keys without a named key have none.
pub open spec fn logical_key(code: RawKeyCode) -> Option<KeyView> {
    match code {
        RawKeyCode::Backspace => Some(KeyView::Named(NamedKey::Backspace)),
        RawKeyCode::Enter => Some(KeyView::Named(NamedKey::Enter)),
        RawKeyCode::Left => Some(KeyView::Named(NamedKey::ArrowLeft)),
        RawKeyCode::Right => Some(KeyView::Named(NamedKey::ArrowRight)),
        RawKeyCode::Up => Some(KeyView::Named(NamedKey::ArrowUp)),
        RawKeyCode::Down => Some(KeyView::Named(NamedKey::ArrowDown)),
        RawKeyCode::Home => Some(KeyView::Named(NamedKey::Home)),
        RawKeyCode::End => Some(KeyView::Named(NamedKey::End)),
        RawKeyCode::PageUp => Some(KeyView::Named(NamedKey::PageUp)),
        RawKeyCode::PageDown => Some(KeyView::Named(NamedKey::PageDown)),
        RawKeyCode::Tab => Some(KeyView::Named(NamedKey::Tab)),
        RawKeyCode::BackTab => Some(KeyView::Named(NamedKey::Tab)),
        RawKeyCode::Delete => Some(KeyView::Named(NamedKey::Delete)),
        RawKeyCode::Insert => Some(KeyView::Named(NamedKey::Insert)),
        RawKeyCode::Esc => Some(KeyView::Named(NamedKey::Escape)),
        RawKeyCode::PrintScreen => Some(KeyView::Named(NamedKey::PrintScreen)),
        RawKeyCode::Pause => Some(KeyView::Named(NamedKey::Pause)),
        RawKeyCode::Menu => Some(KeyView::Named(NamedKey::ContextMenu)),
        RawKeyCode::F(n) => named(function_key(n)),
        RawKeyCode::Char(c) => Some(KeyView::Character(seq![c])),
        RawKeyCode::Media(key) => named(media_key(key)),
        RawKeyCode::Null
        | RawKeyCode::CapsLock
        | RawKeyCode::ScrollLock
        | RawKeyCode::NumLock
        | RawKeyCode::KeypadBegin
        | RawKeyCode::Modifier => None,
    }
}

/// The text that a key of the terminal types: the character of a character
/// key.
pub open spec fn typed_text(code: RawKeyCode) -> Option<Seq<char>> {
    match code {
        RawKeyCode::Char(c) => Some(seq![c]),
        _ => None,
    }
}

/// The modifier state for the modifiers that the terminal reports: shift,
/// control, alt and super are taken over, each to its own bit, and nothing
/// else is asserted.
pub open spec fn translated(raw: u8) -> u8 {
    (if raw & RawModifiers::SHIFT == RawModifiers::SHIFT {
        ModifiersState::SHIFT
    } else {
        0u8
    }) | (if raw & RawModifiers::CONTROL == RawModifiers::CONTROL {
        ModifiersState::CONTROL
    } else {
        0u8
    }) | (if raw & RawModifiers::ALT == RawModifiers::ALT {
        ModifiersState::ALT
    } else {
        0u8
    }) | (if raw & RawModifiers::SUPER == RawModifiers::SUPER {
        ModifiersState::SUPER
    } else {
        0u8
    })
}

/// The modifiers that are tracked once the terminal has reported `raw`.
pub open spec fn tracked_modifiers(raw: RawModifiers) -> Modifiers {
    Modifiers {
        state: ModifiersState { bits: translated(raw@) },
        pressed_mods: ModifiersKeys { bits: 0 },
    }
}

/// The notice of a change of modifiers that a key event with the modifiers
/// `raw` gives rise to, `previous` being the modifiers tracked before it:
/// one where the two differ, carrying the new state.
pub open spec fn modifier_change(previous: Modifiers, raw: RawModifiers) -> Seq<TextEventView> {
    if previous != tracked_modifiers(raw) {
        seq![TextEventView::ModifierChange(tracked_modifiers(raw).state)]
    } else {
        Seq::empty()
    }
}

/// The key event that a key event of the terminal gives rise to: one where
/// the key has a logical key. Press and repeat both count as pressed, and
/// only a repeat is marked as one.
pub open spec fn key_notice(event: RawKeyEvent) -> Seq<TextEventView> {
    match logical_key(event.code) {
        Some(key) => seq![
            TextEventView::KeyboardKey(
                KeyEventView {
                    logical_key: key,
                    text: typed_text(event.code),
                    state: if event.kind == RawKeyKind::Release {
                        ElementState::Released
                    } else {
                        ElementState::Pressed
                    },
                    repeat: event.kind == RawKeyKind::Repeat,
                },
                tracked_modifiers(event.modifiers).state,
            ),
        ],
        None => Seq::empty(),
    }
}

/// The events that a key event of the terminal gives rise to: the change of
/// modifiers, if there is one, and then the key event, if there is one.
pub open spec fn key_events(previous: Modifiers, event: RawKeyEvent) -> Seq<TextEventView> {
    modifier_change(previous, event.modifiers) + key_notice(event)
}

/// The events of `events`, with their texts as sequences of characters.
pub open spec fn text_views(events: Seq<TextEvent>) -> Seq<TextEventView> {
    events.map_values(|event: TextEvent| event@)
}

/// What the root of the widgets is handed.
#[derive(Debug, Clone)]
pub enum RootEvent {
    /// An event of text input.
    Text(TextEvent),
    /// A change of the window.
    Window(WindowEvent),
}

/// An event for the root, with its texts as sequences of characters.
pub enum RootEventView {
    Text(TextEventView),
    Window(WindowEvent),
}

impl View for RootEvent {
    type V = RootEventView;

    open spec fn view(&self) -> RootEventView {
        match *self {
            RootEvent::Text(event) => RootEventView::Text(event@),
            RootEvent::Window(event) => RootEventView::Window(event),
        }
    }
}

/// The events of `events`, with their texts as sequences of characters.
pub open spec fn root_views(events: Seq<RootEvent>) -> Seq<RootEventView> {
    events.map_values(|event: RootEvent| event@)
}

/// Whether an event of the terminal asks the program to end: the key `q`
/// going down.
pub open spec fn asks_to_quit(event: RawEvent) -> bool {
    event matches RawEvent::Key(key) && key.kind == RawKeyKind::Press && key.code
        == RawKeyCode::Char('q')
}

/// The events that an event of the terminal gives rise to. A change of
/// focus and a change of size are passed on, a key event is given its
/// meaning, and the mouse and pasted text are ignored.
pub open spec fn root_events(previous: Modifiers, event: RawEvent) -> Seq<RootEventView> {
    match event {
        RawEvent::FocusGained => seq![RootEventView::Text(TextEventView::FocusChange(true))],
        RawEvent::FocusLost => seq![RootEventView::Text(TextEventView::FocusChange(false))],
        RawEvent::Key(key) => key_events(previous, key).map_values(
            |event: TextEventView| RootEventView::Text(event),
        ),
        RawEvent::Mouse | RawEvent::Paste => Seq::empty(),
        RawEvent::Resize(width, height) => seq![
            RootEventView::Window(
                WindowEvent::Resize { width: width as u32, height: height as u32 },
            ),
        ],
    }
}

/// The modifiers tracked after an event of the terminal: those of a key
/// event, and otherwise the ones before.
pub open spec fn modifiers_after(previous: Modifiers, event: RawEvent) -> Modifiers {
    match event {
        RawEvent::Key(key) => tracked_modifiers(key.modifiers),
        _ => previous,
    }
}

/// Two named keys with the same number, other than 0, are the same function
/// key.
pub proof fn lemma_function_number_unique(a: NamedKey, b: NamedKey)
    requires
        a.function_number() == b.function_number(),
        a.function_number() != 0,
    ensures
        a == b,
{
}

/// The logical key of a function key of the terminal, by its number. The
/// numbers from 1 to 35 have one.
pub fn translate_function_key_number(n: u8) -> (key: Option<Key>)
    ensures
        key is Some <==> 1 <= n <= 35,
        key matches Some(key) ==> key@ matches KeyView::Named(named) && named.function_number()
            == n,
        match key {
            Some(key) => Some(key@),
            None => None,
        } == named(function_key(n)),
{
    if 1 <= n && n <= 35 {
        let key = match n {
            1 => NamedKey::F1,
            2 => NamedKey::F2,
            3 => NamedKey::F3,
            4 => NamedKey::F4,
            5 => NamedKey::F5,
            6 => NamedKey::F6,
            7 => NamedKey::F7,
            8 => NamedKey::F8,
            9 => NamedKey::F9,
            10 => NamedKey::F10,
            11 => NamedKey::F11,
            12 => NamedKey::F12,
            13 => NamedKey::F13,
            14 => NamedKey::F14,
            15 => NamedKey::F15,
            16 => NamedKey::F16,
            17 => NamedKey::F17,
            18 => NamedKey::F18,
            19 => NamedKey::F19,
            20 => NamedKey::F20,
            21 => NamedKey::F21,
            22 => NamedKey::F22,
            23 => NamedKey::F23,
            24 => NamedKey::F24,
            25 => NamedKey::F25,
            26 => NamedKey::F26,
            27 => NamedKey::F27,
            28 => NamedKey::F28,
            29 => NamedKey::F29,
            30 => NamedKey::F30,
            31 => NamedKey::F31,
            32 => NamedKey::F32,
            33 => NamedKey::F33,
            34 => NamedKey::F34,
            _ => NamedKey::F35,
        };
        proof {
            lemma_function_number_unique(
                key,
                choose|other: NamedKey| other.function_number() == n,
            );
        }
        Some(Key::Named(key))
    } else {
        None
    }
}

/// The logical key of a media key of the terminal.
pub fn translate_media_key_code(key: RawMediaKey) -> (logical: Option<Key>)
    ensures
        match logical {
            Some(logical) => Some(logical@),
            None => None,
        } == named(media_key(key)),
{
    match key {
        RawMediaKey::Play => Some(Key::Named(NamedKey::MediaPlay)),
        RawMediaKey::Pause => Some(Key::Named(NamedKey::MediaPause)),
        RawMediaKey::PlayPause => Some(Key::Named(NamedKey::MediaPlayPause)),
        RawMediaKey::Stop => Some(Key::Named(NamedKey::MediaStop)),
        RawMediaKey::FastForward => Some(Key::Named(NamedKey::MediaFastForward)),
        RawMediaKey::Rewind => Some(Key::Named(NamedKey::MediaRewind)),
        RawMediaKey::TrackNext => Some(Key::Named(NamedKey::MediaTrackNext)),
        RawMediaKey::TrackPrevious => Some(Key::Named(NamedKey::MediaTrackPrevious)),
        RawMediaKey::Record => Some(Key::Named(NamedKey::MediaRecord)),
        RawMediaKey::LowerVolume => Some(Key::Named(NamedKey::AudioVolumeDown)),
        RawMediaKey::RaiseVolume => Some(Key::Named(NamedKey::AudioVolumeUp)),
        RawMediaKey::MuteVolume => Some(Key::Named(NamedKey::AudioVolumeMute)),
        RawMediaKey::Reverse => None,
    }
}

/// The modifier state for the modifiers that the terminal reports.
pub fn translate_modifiers(raw: RawModifiers) -> (state: ModifiersState)
    ensures
        state@ == translated(raw@),
{
    let mut state = ModifiersState::empty();
    if raw.contains(RawModifiers::SHIFT) {
        state.insert(ModifiersState::SHIFT);
    }
    if raw.contains(RawModifiers::CONTROL) {
        state.insert(ModifiersState::CONTROL);
    }
    if raw.contains(RawModifiers::ALT) {
        state.insert(ModifiersState::ALT);
    }
    if raw.contains(RawModifiers::SUPER) {
        state.insert(ModifiersState::SUPER);
    }
    proof {
        let a: u8 = if raw@ & RawModifiers::SHIFT == RawModifiers::SHIFT {
            ModifiersState::SHIFT
        } else {
            0u8
        };
        let b: u8 = if raw@ & RawModifiers::CONTROL == RawModifiers::CONTROL {
            ModifiersState::CONTROL
        } else {
            0u8
        };
        let c: u8 = if raw@ & RawModifiers::ALT == RawModifiers::ALT {
            ModifiersState::ALT
        } else {
            0u8
        };
        let d: u8 = if raw@ & RawModifiers::SUPER == RawModifiers::SUPER {
            ModifiersState::SUPER
        } else {
            0u8
        };
        assert(0u8 | a == a) by (bit_vector);
        assert(a | 0u8 == a) by (bit_vector);
        assert((a | b) | 0u8 == a | b) by (bit_vector);
        assert(((a | b) | c) | 0u8 == (a | b) | c) by (bit_vector);
        assert((((a | b) | c) | d) | 0u8 == ((a | b) | c) | d) by (bit_vector);
        assert(state@ == ((a | b) | c) | d);
    }
    state
}

/// Each of shift, control, alt and super is asserted in the translated state
/// exactly where the terminal reports it, and no other modifier is asserted.
pub proof fn lemma_translated_bits(raw: u8)
    by (bit_vector)
    ensures
        (translated(raw) & ModifiersState::SHIFT == ModifiersState::SHIFT) <==> (raw
            & RawModifiers::SHIFT == RawModifiers::SHIFT),
        (translated(raw) & ModifiersState::CONTROL == ModifiersState::CONTROL) <==> (raw
            & RawModifiers::CONTROL == RawModifiers::CONTROL),
        (translated(raw) & ModifiersState::ALT == ModifiersState::ALT) <==> (raw
            & RawModifiers::ALT == RawModifiers::ALT),
        (translated(raw) & ModifiersState::SUPER == ModifiersState::SUPER) <==> (raw
            & RawModifiers::SUPER == RawModifiers::SUPER),
        translated(raw) & !(ModifiersState::SHIFT | ModifiersState::CONTROL | ModifiersState::ALT
            | ModifiersState::SUPER) == 0,
{
}

/// A key event of the terminal gives rise to at most two events. A change
/// of modifiers comes at most once and before everything else; it carries
/// the state that the key event is then reported under. A key event comes at
/// most once and after everything else.
pub proof fn lemma_modifier_change_comes_first(previous: Modifiers, event: RawKeyEvent)
    ensures
        key_events(previous, event).len() <= 2,
        forall|i: int|
            0 <= i < key_events(previous, event).len() ==> match #[trigger] key_events(
                previous,
                event,
            )[i] {
                TextEventView::ModifierChange(state) => i == 0 && state == tracked_modifiers(
                    event.modifiers,
                ).state && previous != tracked_modifiers(event.modifiers),
                TextEventView::KeyboardKey(key, state) => i == key_events(previous, event).len()
                    - 1 && state == tracked_modifiers(event.modifiers).state && Some(
                    key.logical_key,
                ) == logical_key(event.code),
                TextEventView::FocusChange(_) => false,
            },
{
}

/// Two media keys of the terminal that stand for the same named key are the
/// same media key.
pub proof fn lemma_media_keys_are_distinct(a: RawMediaKey, b: RawMediaKey)
    requires
        media_key(a) is Some,
        media_key(a) == media_key(b),
    ensures
        a == b,
{
}

/// What is kept from one event of the terminal to the next: the modifiers
/// last reported, and whether the program was asked to end.
pub struct MainState {
    mods: Modifiers,
    quit: bool,
}

impl MainState {
    /// The modifiers last reported.
    pub closed spec fn spec_modifiers(&self) -> Modifiers {
        self.mods
    }

    /// Whether the program was asked to end.
    pub closed spec fn spec_quit(&self) -> bool {
        self.quit
    }

    /// The state before any event: no modifier is asserted, and the program
    /// goes on.
    pub fn new() -> (state: MainState)
        ensures
            state.spec_modifiers() == (Modifiers {
                state: ModifiersState { bits: 0 },
                pressed_mods: ModifiersKeys { bits: 0 },
            }),
            !state.spec_quit(),
    {
        MainState { mods: Modifiers::default(), quit: false }
    }

    /// The modifiers last reported.
    pub fn modifiers(&self) -> (modifiers: Modifiers)
        ensures
            modifiers == self.spec_modifiers(),
    {
        self.mods
    }

    /// Whether the program was asked to end.
    pub fn quit(&self) -> (quit: bool)
        ensures
            quit == self.spec_quit(),
    {
        self.quit
    }

    /// Takes in an event of the terminal, and hands out what the root of the
    /// widgets is to be told, in order. The key `q` going down asks the
    /// program to end, and is passed on like every other key.
    pub fn crossterm_event(&mut self, event: &RawEvent) -> (events: Vec<RootEvent>)
        requires
            event matches RawEvent::Key(key) ==> key.well_formed(),
        ensures
            root_views(events@) == root_events(old(self).spec_modifiers(), *event),
            final(self).spec_modifiers() == modifiers_after(old(self).spec_modifiers(), *event),
            final(self).spec_quit() == (old(self).spec_quit() || asks_to_quit(*event)),
    {
        let mut events: Vec<RootEvent> = Vec::new();
        match event {
            RawEvent::FocusGained => {
                events.push(RootEvent::Text(TextEvent::FocusChange(true)));
            },
            RawEvent::FocusLost => {
                events.push(RootEvent::Text(TextEvent::FocusChange(false)));
            },
            RawEvent::Key(key) => {
                if key.kind == RawKeyKind::Press && key.code == RawKeyCode::Char('q') {
                    self.quit = true;
                }
                match self.handle_crossterm_key_modifiers(key) {
                    Some(change) => {
                        events.push(RootEvent::Text(change));
                    },
                    None => {},
                }
                match self.keyboard_key(key) {
                    Some(notice) => {
                        events.push(RootEvent::Text(notice));
                    },
                    None => {},
                }
                assert(root_views(events@) =~= root_events(old(self).spec_modifiers(), *event));
            },
            RawEvent::Mouse => {},
            RawEvent::Paste => {},
            RawEvent::Resize(width, height) => {
                events.push(
                    RootEvent::Window(
                        WindowEvent::Resize { width: *width as u32, height: *height as u32 },
                    ),
                );
            },
        }
        events
    }

    /// Tracks the modifiers that come with a key event of the terminal, and
    /// hands out the notice of their change where they differ from those
    /// tracked before.
    fn handle_crossterm_key_modifiers(&mut self, event: &RawKeyEvent) -> (change: Option<TextEvent>)
        ensures
            final(self).spec_modifiers() == tracked_modifiers(event.modifiers),
            final(self).spec_quit() == old(self).spec_quit(),
            match change {
                Some(change) => seq![change@],
                None => Seq::empty(),
            } == modifier_change(old(self).spec_modifiers(), event.modifiers),
    {
        let mut modifiers = Modifiers::default();
        modifiers.state = translate_modifiers(event.modifiers);
        if self.mods != modifiers {
            self.mods = modifiers;
            Some(TextEvent::ModifierChange(modifiers.state()))
        } else {
            None
        }
    }

    /// Takes in a key event of the terminal, and hands out the events that
    /// it gives rise to: the change of modifiers, if there is one, and then
    /// the key event, if the key has a logical key.
    pub fn handle_crossterm_key_event(&mut self, event: &RawKeyEvent) -> (events: Vec<TextEvent>)
        requires
            event.well_formed(),
        ensures
            text_views(events@) == key_events(old(self).spec_modifiers(), *event),
            final(self).spec_modifiers() == tracked_modifiers(event.modifiers),
            final(self).spec_quit() == old(self).spec_quit(),
    {
        let mut events: Vec<TextEvent> = Vec::new();
        match self.handle_crossterm_key_modifiers(event) {
            Some(change) => {
                events.push(change);
            },
            None => {},
        }
        match self.keyboard_key(event) {
            Some(notice) => {
                events.push(notice);
            },
            None => {},
        }
        assert(text_views(events@) =~= key_events(old(self).spec_modifiers(), *event));
        events
    }

    /// The key event that a key event of the terminal gives rise to, under
    /// the modifiers tracked, which are those of the event.
    fn keyboard_key(&self, event: &RawKeyEvent) -> (notice: Option<TextEvent>)
        requires
            event.well_formed(),
            self.spec_modifiers() == tracked_modifiers(event.modifiers),
        ensures
            match notice {
                Some(notice) => seq![notice@],
                None => Seq::empty(),
            } == key_notice(*event),
    {
        // The textual representation of the keyboard event. This is set as a
        // side effect of computing the logical key.
        let mut text: Option<smol_str::SmolStr> = None;

        let logical_key: Option<Key> = match event.code {
            RawKeyCode::Backspace => Some(Key::Named(NamedKey::Backspace)),
            RawKeyCode::Enter => Some(Key::Named(NamedKey::Enter)),
            RawKeyCode::Left => Some(Key::Named(NamedKey::ArrowLeft)),
            RawKeyCode::Right => Some(Key::Named(NamedKey::ArrowRight)),
            RawKeyCode::Up => Some(Key::Named(NamedKey::ArrowUp)),
            RawKeyCode::Down => Some(Key::Named(NamedKey::ArrowDown)),
            RawKeyCode::Home => Some(Key::Named(NamedKey::Home)),
            RawKeyCode::End => Some(Key::Named(NamedKey::End)),
            RawKeyCode::PageUp => Some(Key::Named(NamedKey::PageUp)),
            RawKeyCode::PageDown => Some(Key::Named(NamedKey::PageDown)),
            RawKeyCode::Tab => Some(Key::Named(NamedKey::Tab)),
            RawKeyCode::BackTab => {
                proof {
                    lemma_translated_bits(event.modifiers@);
                }
                assert(self.mods.state@ & ModifiersState::SHIFT == ModifiersState::SHIFT);
                Some(Key::Named(NamedKey::Tab))
            },
            RawKeyCode::Delete => Some(Key::Named(NamedKey::Delete)),
            RawKeyCode::Insert => Some(Key::Named(NamedKey::Insert)),
            RawKeyCode::F(n) => translate_function_key_number(n),
            RawKeyCode::Char(ch) => {
                let ch = smol_str_from_char(ch);
                text = Some(ch.clone());
                Some(Key::Character(ch))
            },
            RawKeyCode::Null => None,
            RawKeyCode::Esc => Some(Key::Named(NamedKey::Escape)),
            RawKeyCode::CapsLock => None,
            RawKeyCode::ScrollLock => None,
            RawKeyCode::NumLock => None,
            RawKeyCode::PrintScreen => Some(Key::Named(NamedKey::PrintScreen)),
            RawKeyCode::Pause => Some(Key::Named(NamedKey::Pause)),
            RawKeyCode::Menu => Some(Key::Named(NamedKey::ContextMenu)),
            RawKeyCode::KeypadBegin => None,
            RawKeyCode::Media(key) => translate_media_key_code(key),
            RawKeyCode::Modifier => None,
        };

        let state = match event.kind {
            RawKeyKind::Press | RawKeyKind::Repeat => ElementState::Pressed,
            RawKeyKind::Release => ElementState::Released,
        };

        let repeat = event.kind == RawKeyKind::Repeat;

        match logical_key {
            Some(logical_key) => {
                let event = KeyEvent { logical_key, text, state, repeat };
                Some(TextEvent::KeyboardKey(event, self.mods.state()))
            },
            None => None,
        }
    }
}

} // verus!
