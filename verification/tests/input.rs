use joinery::event::{TextEvent, WindowEvent};
use joinery::event_loop_runner::{
    translate_function_key_number, translate_media_key_code, translate_modifiers, MainState,
    RootEvent,
};
use joinery::terminal::event::{ElementState, KeyEvent, Modifiers, ModifiersState};
use joinery::terminal::input::{
    RawEvent, RawKeyCode, RawKeyEvent, RawKeyKind, RawMediaKey, RawModifiers,
};
use joinery::terminal::keyboard::{Key, ModifiersKeyState, ModifiersKeys, NamedKey};
use smol_str::SmolStr;

fn raw(code: RawKeyCode, modifiers: u8, kind: RawKeyKind) -> RawKeyEvent {
    RawKeyEvent { code, modifiers: RawModifiers::from_bits(modifiers), kind }
}

fn describe(events: &[TextEvent]) -> Vec<String> {
    events.iter().map(|event| format!("{:?}", event)).collect()
}

fn key_event(key: Key, text: Option<&str>, state: ElementState, repeat: bool, mods: u8) -> TextEvent {
    TextEvent::KeyboardKey(
        KeyEvent { logical_key: key, text: text.map(SmolStr::new), state, repeat },
        ModifiersState::from_bits(mods),
    )
}

#[test]
fn function_keys_map_by_number() {
    assert_eq!(translate_function_key_number(1), Some(Key::Named(NamedKey::F1)));
    assert_eq!(translate_function_key_number(12), Some(Key::Named(NamedKey::F12)));
    assert_eq!(translate_function_key_number(24), Some(Key::Named(NamedKey::F24)));
    assert_eq!(translate_function_key_number(35), Some(Key::Named(NamedKey::F35)));
}

#[test]
fn function_key_numbers_outside_the_range_are_rejected() {
    assert_eq!(translate_function_key_number(0), None);
    assert_eq!(translate_function_key_number(36), None);
    assert_eq!(translate_function_key_number(255), None);
}

#[test]
fn function_key_36_is_dropped() {
    let mut state = MainState::new();
    let events = state.handle_crossterm_key_event(&raw(RawKeyCode::F(36), 0, RawKeyKind::Press));
    assert!(events.is_empty());
}

#[test]
fn function_keys_are_all_different() {
    let keys: Vec<Key> = (1..=35).map(|n| translate_function_key_number(n).unwrap()).collect();
    for (i, a) in keys.iter().enumerate() {
        for b in &keys[i + 1..] {
            assert_ne!(a, b);
        }
    }
}

#[test]
fn media_keys_map_to_named_keys() {
    let table = [
        (RawMediaKey::Play, Some(NamedKey::MediaPlay)),
        (RawMediaKey::Pause, Some(NamedKey::MediaPause)),
        (RawMediaKey::PlayPause, Some(NamedKey::MediaPlayPause)),
        (RawMediaKey::Reverse, None),
        (RawMediaKey::Stop, Some(NamedKey::MediaStop)),
        (RawMediaKey::FastForward, Some(NamedKey::MediaFastForward)),
        (RawMediaKey::Rewind, Some(NamedKey::MediaRewind)),
        (RawMediaKey::TrackNext, Some(NamedKey::MediaTrackNext)),
        (RawMediaKey::TrackPrevious, Some(NamedKey::MediaTrackPrevious)),
        (RawMediaKey::Record, Some(NamedKey::MediaRecord)),
        (RawMediaKey::LowerVolume, Some(NamedKey::AudioVolumeDown)),
        (RawMediaKey::RaiseVolume, Some(NamedKey::AudioVolumeUp)),
        (RawMediaKey::MuteVolume, Some(NamedKey::AudioVolumeMute)),
    ];
    for (raw, named) in table {
        assert_eq!(translate_media_key_code(raw), named.map(Key::Named));
    }
}

#[test]
fn modifiers_are_translated_bit_by_bit() {
    assert_eq!(translate_modifiers(RawModifiers::from_bits(RawModifiers::NONE)).bits(), 0);
    assert_eq!(
        translate_modifiers(RawModifiers::from_bits(RawModifiers::SHIFT)).bits(),
        ModifiersState::SHIFT
    );
    assert_eq!(
        translate_modifiers(RawModifiers::from_bits(RawModifiers::CONTROL)).bits(),
        ModifiersState::CONTROL
    );
    assert_eq!(
        translate_modifiers(RawModifiers::from_bits(RawModifiers::ALT)).bits(),
        ModifiersState::ALT
    );
    assert_eq!(
        translate_modifiers(RawModifiers::from_bits(RawModifiers::SUPER)).bits(),
        ModifiersState::SUPER
    );
    assert_eq!(
        translate_modifiers(RawModifiers::from_bits(RawModifiers::HYPER | RawModifiers::META))
            .bits(),
        ModifiersState::NONE
    );
    assert_eq!(translate_modifiers(RawModifiers::from_bits(0xff)).bits(), 0b1111);
}

#[test]
fn back_tab_without_shift_is_not_well_formed() {
    assert!(!raw(RawKeyCode::BackTab, 0, RawKeyKind::Press).is_well_formed());
    assert!(!raw(RawKeyCode::BackTab, RawModifiers::CONTROL, RawKeyKind::Press).is_well_formed());
    assert!(raw(RawKeyCode::BackTab, RawModifiers::SHIFT, RawKeyKind::Press).is_well_formed());
    assert!(raw(RawKeyCode::Tab, 0, RawKeyKind::Press).is_well_formed());
}

#[test]
fn back_tab_is_tab_under_shift() {
    let mut state = MainState::new();
    let events = state.handle_crossterm_key_event(&raw(
        RawKeyCode::BackTab,
        RawModifiers::SHIFT,
        RawKeyKind::Press,
    ));
    let expected = [
        TextEvent::ModifierChange(ModifiersState::from_bits(ModifiersState::SHIFT)),
        key_event(
            Key::Named(NamedKey::Tab),
            None,
            ElementState::Pressed,
            false,
            ModifiersState::SHIFT,
        ),
    ];
    assert_eq!(describe(&events), describe(&expected));
}

#[test]
fn character_keys_carry_their_text() {
    let mut state = MainState::new();
    let events = state.handle_crossterm_key_event(&raw(RawKeyCode::Char('é'), 0, RawKeyKind::Press));
    assert_eq!(events.len(), 1);
    match &events[0] {
        TextEvent::KeyboardKey(event, modifiers) => {
            assert_eq!(event.logical_key, Key::Character(SmolStr::new("é")));
            assert_eq!(event.text, Some(SmolStr::new("é")));
            assert_eq!(event.state, ElementState::Pressed);
            assert!(!event.repeat);
            assert_eq!(*modifiers, ModifiersState::empty());
        }
        other => panic!("unexpected event {:?}", other),
    }
}

#[test]
fn modifier_change_comes_once_and_first() {
    let mut state = MainState::new();
    let control = RawModifiers::CONTROL;
    let first = state.handle_crossterm_key_event(&raw(RawKeyCode::Delete, control, RawKeyKind::Press));
    let expected = [
        TextEvent::ModifierChange(ModifiersState::from_bits(ModifiersState::CONTROL)),
        key_event(
            Key::Named(NamedKey::Delete),
            None,
            ElementState::Pressed,
            false,
            ModifiersState::CONTROL,
        ),
    ];
    assert_eq!(describe(&first), describe(&expected));
    assert_eq!(state.modifiers().state().bits(), ModifiersState::CONTROL);

    let second =
        state.handle_crossterm_key_event(&raw(RawKeyCode::Delete, control, RawKeyKind::Repeat));
    let expected = [key_event(
        Key::Named(NamedKey::Delete),
        None,
        ElementState::Pressed,
        true,
        ModifiersState::CONTROL,
    )];
    assert_eq!(describe(&second), describe(&expected));

    let third = state.handle_crossterm_key_event(&raw(RawKeyCode::Delete, 0, RawKeyKind::Release));
    let expected = [
        TextEvent::ModifierChange(ModifiersState::empty()),
        key_event(Key::Named(NamedKey::Delete), None, ElementState::Released, false, 0),
    ];
    assert_eq!(describe(&third), describe(&expected));
}

#[test]
fn keys_without_a_meaning_are_dropped() {
    let codes = [
        RawKeyCode::Null,
        RawKeyCode::CapsLock,
        RawKeyCode::ScrollLock,
        RawKeyCode::NumLock,
        RawKeyCode::KeypadBegin,
        RawKeyCode::Modifier,
        RawKeyCode::Media(RawMediaKey::Reverse),
        RawKeyCode::F(0),
    ];
    for code in codes {
        let mut state = MainState::new();
        assert!(state.handle_crossterm_key_event(&raw(code, 0, RawKeyKind::Press)).is_empty());
        let events =
            state.handle_crossterm_key_event(&raw(code, RawModifiers::ALT, RawKeyKind::Press));
        let expected = [TextEvent::ModifierChange(ModifiersState::from_bits(ModifiersState::ALT))];
        assert_eq!(describe(&events), describe(&expected));
    }
}

#[test]
fn named_keys_map_one_to_one() {
    let table = [
        (RawKeyCode::Backspace, NamedKey::Backspace),
        (RawKeyCode::Enter, NamedKey::Enter),
        (RawKeyCode::Left, NamedKey::ArrowLeft),
        (RawKeyCode::Right, NamedKey::ArrowRight),
        (RawKeyCode::Up, NamedKey::ArrowUp),
        (RawKeyCode::Down, NamedKey::ArrowDown),
        (RawKeyCode::Home, NamedKey::Home),
        (RawKeyCode::End, NamedKey::End),
        (RawKeyCode::PageUp, NamedKey::PageUp),
        (RawKeyCode::PageDown, NamedKey::PageDown),
        (RawKeyCode::Tab, NamedKey::Tab),
        (RawKeyCode::Delete, NamedKey::Delete),
        (RawKeyCode::Insert, NamedKey::Insert),
        (RawKeyCode::Esc, NamedKey::Escape),
        (RawKeyCode::PrintScreen, NamedKey::PrintScreen),
        (RawKeyCode::Pause, NamedKey::Pause),
        (RawKeyCode::Menu, NamedKey::ContextMenu),
        (RawKeyCode::F(7), NamedKey::F7),
        (RawKeyCode::Media(RawMediaKey::Stop), NamedKey::MediaStop),
    ];
    for (code, named) in table {
        let mut state = MainState::new();
        let events = state.handle_crossterm_key_event(&raw(code, 0, RawKeyKind::Press));
        let expected = [key_event(Key::Named(named), None, ElementState::Pressed, false, 0)];
        assert_eq!(describe(&events), describe(&expected));
    }
}

#[test]
fn terminal_events_are_passed_on() {
    let mut state = MainState::new();
    let show = |events: Vec<RootEvent>| -> Vec<String> {
        events.iter().map(|event| format!("{:?}", event)).collect()
    };
    assert_eq!(
        show(state.crossterm_event(&RawEvent::FocusGained)),
        vec![format!("{:?}", RootEvent::Text(TextEvent::FocusChange(true)))]
    );
    assert_eq!(
        show(state.crossterm_event(&RawEvent::FocusLost)),
        vec![format!("{:?}", RootEvent::Text(TextEvent::FocusChange(false)))]
    );
    assert!(state.crossterm_event(&RawEvent::Mouse).is_empty());
    assert!(state.crossterm_event(&RawEvent::Paste).is_empty());
    assert_eq!(
        show(state.crossterm_event(&RawEvent::Resize(80, 24))),
        vec![format!("{:?}", RootEvent::Window(WindowEvent::Resize { width: 80, height: 24 }))]
    );
    assert!(!state.quit());

    let key = raw(RawKeyCode::Char('x'), RawModifiers::SHIFT, RawKeyKind::Press);
    let expected = vec![
        format!(
            "{:?}",
            RootEvent::Text(TextEvent::ModifierChange(ModifiersState::from_bits(
                ModifiersState::SHIFT
            )))
        ),
        format!(
            "{:?}",
            RootEvent::Text(key_event(
                Key::Character(SmolStr::new("x")),
                Some("x"),
                ElementState::Pressed,
                false,
                ModifiersState::SHIFT,
            ))
        ),
    ];
    assert_eq!(show(state.crossterm_event(&RawEvent::Key(key))), expected);
    assert!(!state.quit());
}

#[test]
fn pressing_q_asks_to_quit() {
    let mut state = MainState::new();
    state.crossterm_event(&RawEvent::Key(raw(RawKeyCode::Char('q'), 0, RawKeyKind::Release)));
    assert!(!state.quit());
    state.crossterm_event(&RawEvent::Key(raw(RawKeyCode::Char('q'), 0, RawKeyKind::Repeat)));
    assert!(!state.quit());
    let events =
        state.crossterm_event(&RawEvent::Key(raw(RawKeyCode::Char('q'), 0, RawKeyKind::Press)));
    assert_eq!(events.len(), 1);
    assert!(state.quit());
    state.crossterm_event(&RawEvent::FocusLost);
    assert!(state.quit());
}

#[test]
fn element_state_and_modifier_queries() {
    assert!(ElementState::Pressed.is_pressed());
    assert!(!ElementState::Released.is_pressed());
    let state = ModifiersState::from_bits(ModifiersState::SHIFT | ModifiersState::META);
    assert!(state.shift_key());
    assert!(state.meta_key());
    assert!(!state.control_key());
    assert!(!state.alt_key());
    assert!(!state.super_key());
    assert!(!state.hyper_key());
    assert!(state.intersects(ModifiersState::META | ModifiersState::ALT));
    assert!(!state.intersects(ModifiersState::CONTROL | ModifiersState::ALT));
    assert!(state.contains(ModifiersState::SHIFT | ModifiersState::META));
    assert!(!state.contains(ModifiersState::SHIFT | ModifiersState::ALT));
    let mut all = ModifiersState::default();
    all.insert(ModifiersState::CONTROL);
    all.insert(ModifiersState::ALT | ModifiersState::SUPER | ModifiersState::HYPER);
    assert!(all.control_key() && all.alt_key() && all.super_key() && all.hyper_key());
    assert_eq!(all.bits(), 0b11110);
}

#[test]
fn modifier_keys_by_side() {
    let mut modifiers = Modifiers::from(ModifiersState::from_bits(ModifiersState::SHIFT));
    assert_eq!(modifiers.state(), ModifiersState::from_bits(ModifiersState::SHIFT));
    assert_eq!(modifiers.lshift_state(), ModifiersKeyState::Unknown);
    assert_eq!(modifiers, Modifiers { pressed_mods: ModifiersKeys::empty(), ..modifiers });
    modifiers.pressed_mods = ModifiersKeys::from_bits(
        ModifiersKeys::LSHIFT | ModifiersKeys::RALT | ModifiersKeys::LCONTROL | ModifiersKeys::RSUPER,
    );
    assert_eq!(modifiers.lshift_state(), ModifiersKeyState::Pressed);
    assert_eq!(modifiers.rshift_state(), ModifiersKeyState::Unknown);
    assert_eq!(modifiers.lalt_state(), ModifiersKeyState::Unknown);
    assert_eq!(modifiers.ralt_state(), ModifiersKeyState::Pressed);
    assert_eq!(modifiers.lcontrol_state(), ModifiersKeyState::Pressed);
    assert_eq!(modifiers.rcontrol_state(), ModifiersKeyState::Unknown);
    assert_eq!(modifiers.lsuper_state(), ModifiersKeyState::Unknown);
    assert_eq!(modifiers.rsuper_state(), ModifiersKeyState::Pressed);
    assert_eq!(Modifiers::default().state(), ModifiersState::empty());
    assert_eq!(Modifiers::default().pressed_mods.bits(), 0);
    assert!(modifiers.pressed_mods.contains(ModifiersKeys::LSHIFT | ModifiersKeys::RALT));
}
