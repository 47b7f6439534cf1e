use joinery::event::TextEvent;
use joinery::terminal::event::{ElementState, KeyEvent, ModifiersState};
use joinery::terminal::keyboard::{Key, NamedKey};
use joinery::text2::edit::{EditableText, TextEditor};
use joinery::text2::selection::{Affinity, Selection};
use joinery::{Action, EventCtx, Handled};
use smol_str::SmolStr;

fn press(key: Key, modifiers: u8) -> TextEvent {
    let text = match &key {
        Key::Character(text) => Some(text.clone()),
        _ => None,
    };
    TextEvent::KeyboardKey(
        KeyEvent { logical_key: key, text, state: ElementState::Pressed, repeat: false },
        ModifiersState::from_bits(modifiers),
    )
}

fn named(key: NamedKey) -> Key {
    Key::Named(key)
}

fn editor_at(text: &str, anchor: usize, active: usize, affinity: Affinity) -> TextEditor<String> {
    let mut editor = TextEditor::new(String::from(text));
    assert!(editor.set_selection(Selection::new(anchor, active, affinity)));
    editor
}

fn caret_of(editor: &TextEditor<String>) -> (usize, Affinity) {
    let selection = editor.selection().unwrap();
    assert!(selection.is_caret());
    (selection.active, selection.active_affinity)
}

#[test]
fn replace() {
    let mut a = String::from("hello world");
    a.edit(1..9, "era");
    assert_eq!("herald", a);
}

#[test]
fn edit_changes_length_by_difference() {
    let mut a = String::from("héllo wörld");
    let before = a.len();
    let (start, end) = (1, 3);
    a.edit(start..end, "ee!");
    assert_eq!(a, "hee!llo wörld");
    assert_eq!(a.len(), before - (end - start) + 3);
}

#[test]
fn from_str_keeps_the_text() {
    let a = <String as EditableText>::from_str("tâche");
    assert_eq!(a, "tâche");
    assert_eq!(EditableText::as_str(&a), "tâche");
}

#[test]
fn typing_a_character_into_empty_text() {
    let mut editor = TextEditor::new(String::new());
    assert!(editor.set_selection(Selection::caret(0, Affinity::Upstream)));
    let mut ctx = EventCtx::new();
    let handled = editor.text_event(&mut ctx, &press(Key::Character(SmolStr::new("a")), 0));
    assert_eq!(handled, Handled::Yes);
    assert_eq!(editor.text().as_str(), "a");
    assert_eq!(caret_of(&editor), (1, Affinity::Downstream));
    assert_eq!(ctx.take_actions(), vec![Action::TextChanged(String::from("a"))]);
}

#[test]
fn typing_without_a_selection_starts_at_offset_zero() {
    let mut editor = TextEditor::new(String::from("bc"));
    assert_eq!(editor.selection(), None);
    let mut ctx = EventCtx::new();
    let handled = editor.text_event(&mut ctx, &press(Key::Character(SmolStr::new("a")), 0));
    assert_eq!(handled, Handled::Yes);
    assert_eq!(editor.text().as_str(), "abc");
    assert_eq!(caret_of(&editor), (1, Affinity::Downstream));
}

#[test]
fn typing_replaces_the_selection_in_either_direction() {
    for (anchor, active) in [(2, 7), (7, 2)] {
        let mut editor = editor_at("hello world", anchor, active, Affinity::Upstream);
        let mut ctx = EventCtx::new();
        let event = press(Key::Character(SmolStr::new("é")), ModifiersState::SHIFT);
        assert_eq!(editor.text_event(&mut ctx, &event), Handled::Yes);
        assert_eq!(editor.text().as_str(), "heéorld");
        assert_eq!(caret_of(&editor), (4, Affinity::Downstream));
        assert_eq!(ctx.take_actions(), vec![Action::TextChanged(String::from("heéorld"))]);
    }
}

#[test]
fn space_types_a_space() {
    let mut editor = editor_at("ab", 1, 1, Affinity::Upstream);
    let mut ctx = EventCtx::new();
    assert_eq!(editor.text_event(&mut ctx, &press(named(NamedKey::Space), 0)), Handled::Yes);
    assert_eq!(editor.text().as_str(), "a b");
    assert_eq!(caret_of(&editor), (2, Affinity::Downstream));
    assert_eq!(ctx.take_actions(), vec![Action::TextChanged(String::from("a b"))]);
}

#[test]
fn enter_submits_the_text_and_changes_nothing() {
    let mut editor = editor_at("add task", 3, 5, Affinity::Upstream);
    let mut ctx = EventCtx::new();
    assert_eq!(editor.text_event(&mut ctx, &press(named(NamedKey::Enter), 0)), Handled::Yes);
    assert_eq!(editor.text().as_str(), "add task");
    assert_eq!(editor.selection(), Some(Selection::new(3, 5, Affinity::Upstream)));
    assert_eq!(ctx.take_actions(), vec![Action::TextEntered(String::from("add task"))]);
}

#[test]
fn backspace_at_start_is_a_no_op() {
    let mut editor = editor_at("abc", 0, 0, Affinity::Upstream);
    let mut ctx = EventCtx::new();
    assert_eq!(editor.text_event(&mut ctx, &press(named(NamedKey::Backspace), 0)), Handled::Yes);
    assert_eq!(editor.text().as_str(), "abc");
    assert_eq!(editor.selection(), Some(Selection::caret(0, Affinity::Upstream)));
    assert_eq!(ctx.take_actions(), vec![]);
}

#[test]
fn backspace_without_a_selection_is_a_no_op() {
    let mut editor = TextEditor::new(String::from("abc"));
    let mut ctx = EventCtx::new();
    assert_eq!(editor.text_event(&mut ctx, &press(named(NamedKey::Backspace), 0)), Handled::Yes);
    assert_eq!(editor.text().as_str(), "abc");
    assert_eq!(editor.selection(), None);
    assert_eq!(ctx.take_actions(), vec![]);
}

#[test]
fn delete_at_end_is_a_no_op() {
    let mut editor = editor_at("abc", 3, 3, Affinity::Upstream);
    let mut ctx = EventCtx::new();
    assert_eq!(editor.text_event(&mut ctx, &press(named(NamedKey::Delete), 0)), Handled::Yes);
    assert_eq!(editor.text().as_str(), "abc");
    assert_eq!(editor.selection(), Some(Selection::caret(3, Affinity::Upstream)));
    assert_eq!(ctx.take_actions(), vec![]);
}

#[test]
fn backspace_deletes_one_grapheme_cluster() {
    // "e" followed by a combining acute accent is one cluster of three bytes.
    let mut editor = editor_at("ae\u{301}z", 4, 4, Affinity::Upstream);
    let mut ctx = EventCtx::new();
    assert_eq!(editor.text_event(&mut ctx, &press(named(NamedKey::Backspace), 0)), Handled::Yes);
    assert_eq!(editor.text().as_str(), "az");
    assert_eq!(caret_of(&editor), (1, Affinity::Upstream));
    assert_eq!(ctx.take_actions(), vec![Action::TextChanged(String::from("az"))]);
}

#[test]
fn delete_deletes_one_grapheme_cluster() {
    let mut editor = editor_at("ae\u{301}z", 1, 1, Affinity::Downstream);
    let mut ctx = EventCtx::new();
    assert_eq!(editor.text_event(&mut ctx, &press(named(NamedKey::Delete), 0)), Handled::Yes);
    assert_eq!(editor.text().as_str(), "az");
    assert_eq!(caret_of(&editor), (1, Affinity::Downstream));
    assert_eq!(ctx.take_actions(), vec![Action::TextChanged(String::from("az"))]);
}

#[test]
fn backspace_deletes_the_selection() {
    let mut editor = editor_at("hello world", 9, 5, Affinity::Downstream);
    let mut ctx = EventCtx::new();
    assert_eq!(editor.text_event(&mut ctx, &press(named(NamedKey::Backspace), 0)), Handled::Yes);
    assert_eq!(editor.text().as_str(), "hellold");
    assert_eq!(caret_of(&editor), (5, Affinity::Upstream));
    assert_eq!(ctx.take_actions(), vec![Action::TextChanged(String::from("hellold"))]);
}

#[test]
fn delete_deletes_the_selection() {
    let mut editor = editor_at("hello world", 5, 9, Affinity::Upstream);
    let mut ctx = EventCtx::new();
    assert_eq!(editor.text_event(&mut ctx, &press(named(NamedKey::Delete), 0)), Handled::Yes);
    assert_eq!(editor.text().as_str(), "hellold");
    assert_eq!(caret_of(&editor), (5, Affinity::Downstream));
    assert_eq!(ctx.take_actions(), vec![Action::TextChanged(String::from("hellold"))]);
}

#[test]
fn word_delete_back_from_end() {
    let mut editor = editor_at("hello world", 11, 11, Affinity::Downstream);
    let mut ctx = EventCtx::new();
    let event = press(named(NamedKey::Backspace), ModifiersState::CONTROL);
    assert_eq!(editor.text_event(&mut ctx, &event), Handled::Yes);
    assert_eq!(editor.text().as_str(), "hello ");
    assert_eq!(caret_of(&editor), (6, Affinity::Upstream));
    assert_eq!(ctx.take_actions(), vec![Action::TextChanged(String::from("hello "))]);
}

#[test]
fn word_delete_back_without_a_boundary_reaches_the_start() {
    for modifiers in [ModifiersState::META, ModifiersState::SUPER | ModifiersState::SHIFT] {
        let mut editor = editor_at("hello", 3, 3, Affinity::Downstream);
        let mut ctx = EventCtx::new();
        let event = press(named(NamedKey::Backspace), modifiers);
        assert_eq!(editor.text_event(&mut ctx, &event), Handled::Yes);
        assert_eq!(editor.text().as_str(), "lo");
        assert_eq!(caret_of(&editor), (0, Affinity::Upstream));
        assert_eq!(ctx.take_actions(), vec![Action::TextChanged(String::from("lo"))]);
    }
}

#[test]
fn word_delete_back_takes_the_selection_along() {
    let mut editor = editor_at("one two three", 9, 6, Affinity::Downstream);
    let mut ctx = EventCtx::new();
    let event = press(named(NamedKey::Backspace), ModifiersState::CONTROL);
    assert_eq!(editor.text_event(&mut ctx, &event), Handled::Yes);
    assert_eq!(editor.text().as_str(), "one hree");
    assert_eq!(caret_of(&editor), (4, Affinity::Upstream));
    assert_eq!(ctx.take_actions(), vec![Action::TextChanged(String::from("one hree"))]);
}

#[test]
fn word_delete_forward() {
    let mut editor = editor_at("hello world", 0, 0, Affinity::Downstream);
    let mut ctx = EventCtx::new();
    let event = press(named(NamedKey::Delete), ModifiersState::CONTROL);
    assert_eq!(editor.text_event(&mut ctx, &event), Handled::Yes);
    assert_eq!(editor.text().as_str(), " world");
    assert_eq!(caret_of(&editor), (0, Affinity::Upstream));
    assert_eq!(ctx.take_actions(), vec![Action::TextChanged(String::from(" world"))]);
}

#[test]
fn word_delete_forward_runs_to_the_end_of_the_text() {
    let mut editor = editor_at("hello world", 5, 5, Affinity::Downstream);
    let mut ctx = EventCtx::new();
    let event = press(named(NamedKey::Delete), ModifiersState::CONTROL);
    assert_eq!(editor.text_event(&mut ctx, &event), Handled::Yes);
    assert_eq!(editor.text().as_str(), "hello");
    assert_eq!(caret_of(&editor), (5, Affinity::Upstream));
}

#[test]
fn word_delete_forward_at_the_end_reports_the_text() {
    let mut editor = editor_at("hello", 5, 5, Affinity::Downstream);
    let mut ctx = EventCtx::new();
    let event = press(named(NamedKey::Delete), ModifiersState::CONTROL);
    assert_eq!(editor.text_event(&mut ctx, &event), Handled::Yes);
    assert_eq!(editor.text().as_str(), "hello");
    assert_eq!(caret_of(&editor), (5, Affinity::Upstream));
    assert_eq!(ctx.take_actions(), vec![Action::TextChanged(String::from("hello"))]);
}

#[test]
fn release_is_not_handled() {
    let mut editor = editor_at("abc", 3, 3, Affinity::Upstream);
    let mut ctx = EventCtx::new();
    let event = TextEvent::KeyboardKey(
        KeyEvent {
            logical_key: named(NamedKey::Backspace),
            text: None,
            state: ElementState::Released,
            repeat: false,
        },
        ModifiersState::empty(),
    );
    assert_eq!(editor.text_event(&mut ctx, &event), Handled::No);
    assert_eq!(editor.text().as_str(), "abc");
    assert_eq!(ctx.take_actions(), vec![]);
}

#[test]
fn repeat_is_handled_like_a_press() {
    let mut editor = editor_at("abc", 3, 3, Affinity::Upstream);
    let mut ctx = EventCtx::new();
    let event = TextEvent::KeyboardKey(
        KeyEvent {
            logical_key: named(NamedKey::Backspace),
            text: None,
            state: ElementState::Pressed,
            repeat: true,
        },
        ModifiersState::empty(),
    );
    assert_eq!(editor.text_event(&mut ctx, &event), Handled::Yes);
    assert_eq!(editor.text().as_str(), "ab");
}

#[test]
fn other_keys_and_modifiers_are_left_to_others() {
    let events = [
        press(named(NamedKey::ArrowLeft), 0),
        press(named(NamedKey::Tab), 0),
        press(named(NamedKey::F5), 0),
        press(Key::Unidentified, 0),
        press(Key::Dead(Some('^')), 0),
        press(Key::Character(SmolStr::new("c")), ModifiersState::CONTROL),
        press(named(NamedKey::Enter), ModifiersState::CONTROL),
        press(Key::Character(SmolStr::new("a")), ModifiersState::ALT),
        press(named(NamedKey::Backspace), ModifiersState::ALT),
        press(named(NamedKey::Backspace), ModifiersState::CAPS_LOCK),
        TextEvent::ModifierChange(ModifiersState::from_bits(ModifiersState::SHIFT)),
        TextEvent::FocusChange(true),
    ];
    for event in events {
        let mut editor = editor_at("abc", 1, 2, Affinity::Upstream);
        let mut ctx = EventCtx::new();
        assert_eq!(editor.text_event(&mut ctx, &event), Handled::No);
        assert_eq!(editor.text().as_str(), "abc");
        assert_eq!(editor.selection(), Some(Selection::new(1, 2, Affinity::Upstream)));
        assert_eq!(ctx.take_actions(), vec![]);
    }
}

#[test]
fn selection_inside_a_character_is_refused() {
    let mut editor = TextEditor::new(String::from("é"));
    assert!(!editor.set_selection(Selection::caret(1, Affinity::Upstream)));
    assert!(!editor.set_selection(Selection::new(0, 3, Affinity::Upstream)));
    assert_eq!(editor.selection(), None);
    assert!(editor.set_selection(Selection::new(2, 0, Affinity::Upstream)));
    assert_eq!(editor.selection(), Some(Selection::new(2, 0, Affinity::Upstream)));
}

#[test]
fn preedit_is_kept_by_edits_and_cleared_on_request() {
    let mut editor = editor_at("abc", 3, 3, Affinity::Upstream);
    assert_eq!(editor.rebuild().underline, None);
    editor.set_preedit(1..2);
    let mut ctx = EventCtx::new();
    editor.text_event(&mut ctx, &press(Key::Character(SmolStr::new("d")), 0));
    let input = editor.rebuild();
    assert_eq!(input.text, "abcd");
    assert_eq!(input.underline, Some(1..2));
    editor.reset_preedit();
    assert_eq!(editor.rebuild().underline, None);
}

#[test]
fn actions_are_kept_in_order() {
    let mut editor = TextEditor::new(String::new());
    let mut ctx = EventCtx::new();
    editor.text_event(&mut ctx, &press(Key::Character(SmolStr::new("a")), 0));
    editor.text_event(&mut ctx, &press(named(NamedKey::Enter), 0));
    assert_eq!(
        ctx.take_actions(),
        vec![Action::TextChanged(String::from("a")), Action::TextEntered(String::from("a"))]
    );
    assert_eq!(ctx.take_actions(), vec![]);
    assert!(Handled::Yes.is_handled());
    assert!(!Handled::No.is_handled());
}

#[test]
fn delete_without_a_selection_works_at_offset_zero() {
    let mut editor = TextEditor::new(String::from("été"));
    let mut ctx = EventCtx::new();
    assert_eq!(editor.text_event(&mut ctx, &press(named(NamedKey::Delete), 0)), Handled::Yes);
    assert_eq!(editor.text().as_str(), "té");
    assert_eq!(caret_of(&editor), (0, Affinity::Downstream));
    assert_eq!(ctx.take_actions(), vec![Action::TextChanged(String::from("té"))]);
}

#[test]
fn word_delete_without_a_selection_works_at_offset_zero() {
    let mut editor = TextEditor::new(String::from("one two"));
    let mut ctx = EventCtx::new();
    let event = press(named(NamedKey::Backspace), ModifiersState::CONTROL);
    assert_eq!(editor.text_event(&mut ctx, &event), Handled::Yes);
    assert_eq!(editor.text().as_str(), "one two");
    assert_eq!(caret_of(&editor), (0, Affinity::Upstream));
    assert_eq!(ctx.take_actions(), vec![Action::TextChanged(String::from("one two"))]);

    let event = press(named(NamedKey::Delete), ModifiersState::SUPER);
    assert_eq!(editor.text_event(&mut ctx, &event), Handled::Yes);
    assert_eq!(editor.text().as_str(), " two");
    assert_eq!(caret_of(&editor), (0, Affinity::Upstream));
    assert_eq!(ctx.take_actions(), vec![Action::TextChanged(String::from(" two"))]);
}

#[test]
fn word_delete_forward_takes_the_selection_along() {
    let mut editor = editor_at("one two three", 4, 6, Affinity::Downstream);
    let mut ctx = EventCtx::new();
    let event = press(named(NamedKey::Delete), ModifiersState::CONTROL);
    assert_eq!(editor.text_event(&mut ctx, &event), Handled::Yes);
    assert_eq!(editor.text().as_str(), "one  three");
    assert_eq!(caret_of(&editor), (4, Affinity::Upstream));
    assert_eq!(ctx.take_actions(), vec![Action::TextChanged(String::from("one  three"))]);
}

#[test]
fn selection_stays_within_the_text_after_every_command() {
    let keys = [
        (named(NamedKey::Backspace), 0),
        (named(NamedKey::Delete), 0),
        (named(NamedKey::Space), 0),
        (Key::Character(SmolStr::new("ñ")), 0),
        (named(NamedKey::Backspace), ModifiersState::CONTROL),
        (named(NamedKey::Delete), ModifiersState::CONTROL),
    ];
    let text = "añb c\u{301}d";
    let positions: Vec<usize> = (0..=text.len()).filter(|&i| text.is_char_boundary(i)).collect();
    for (key, modifiers) in keys {
        for &anchor in &positions {
            for &active in &positions {
                let mut editor = editor_at(text, anchor, active, Affinity::Downstream);
                let mut ctx = EventCtx::new();
                editor.text_event(&mut ctx, &press(key.clone(), modifiers));
                let after = editor.text().as_str();
                let selection = editor.selection().unwrap();
                assert!(after.is_char_boundary(selection.anchor));
                assert!(after.is_char_boundary(selection.active));
                assert!(selection.max() <= after.len());
            }
        }
    }
}
