//! Text that can be edited, and the editor that edits it.

use super::boundary::{is_edit_range, lemma_splice, splice};
use super::segment::{
    is_position, lemma_ends_are_positions, lemma_grapheme_is_position,
    lemma_nothing_after_end, lemma_nothing_before_start, lemma_word_is_position, next_grapheme,
    next_grapheme_offset, next_word, next_word_offset, prev_grapheme, prev_grapheme_offset,
    prev_word, prev_word_offset,
};
use super::selection::{Affinity, Selection};
use crate::action::{Action, ActionView, EventCtx, Handled};
use crate::event::{TextEvent, TextEventView};
use crate::terminal::event::{ElementState, ModifiersState};
use crate::terminal::keyboard::{smol_str_as_str, Key, KeyView, NamedKey};
use std::ops::Range;
use vstd::prelude::*;
use vstd::utf8::*;

verus! {

broadcast use {
    vstd::utf8::group_utf8_lib,
    vstd::string::group_string_axioms,
    vstd::slice::group_slice_axioms,
};

/// `text` with the bytes from `start` up to `end` of its UTF-8 form replaced
/// by the UTF-8 form of `new`.
pub open spec fn replaced(text: Seq<char>, start: int, end: int, new: Seq<char>) -> Seq<char> {
    decode_utf8(splice(encode_utf8(text), start, end, encode_utf8(new)))
}

/// Text which can be edited.
pub trait EditableText: Sized {
    /// The characters of the text.
    spec fn text(&self) -> Seq<char>;

    /// The text as a string slice.
    fn as_str(&self) -> (s: &str)
        ensures
            s@ == self.text(),
    ;

    /// Replace range with new text. The range is in bytes of the UTF-8 form
    /// of the text, and both its ends fall between characters.
    fn edit(&mut self, range: Range<usize>, new: &str)
        requires
            is_edit_range(
                encode_utf8(old(self).text()),
                range.start as int,
                range.end as int,
            ),
        ensures
            final(self).text() == replaced(
                old(self).text(),
                range.start as int,
                range.end as int,
                new@,
            ),
    ;

    /// Create a value of this struct
    fn from_str(s: &str) -> (text: Self)
        ensures
            text.text() == s@,
    ;
}

/// `String::replace_range`: the bytes of the range leave the string and the
/// bytes of `new` take their place. The standard library panics where an end
/// of the range is out of bounds or inside a character, which the
/// precondition rules out.
#[verifier::external_body]
fn replace_range(text: &mut String, start: usize, end: usize, new: &str)
    requires
        is_edit_range(encode_utf8(old(text)@), start as int, end as int),
    ensures
        encode_utf8(final(text)@) == splice(
            encode_utf8(old(text)@),
            start as int,
            end as int,
            encode_utf8(new@),
        ),
{
    text.replace_range(start..end, new);
}

impl EditableText for String {
    open spec fn text(&self) -> Seq<char> {
        self@
    }

    fn as_str(&self) -> (s: &str) {
        String::as_str(self)
    }

    fn edit(&mut self, range: Range<usize>, new: &str) {
        replace_range(self, range.start, range.end, new);
    }

    fn from_str(s: &str) -> (text: Self) {
        s.to_owned()
    }
}

/// The selection that a command works on where the editor has none: an
/// empty caret at the start of the text.
pub open spec fn implicit_caret() -> Selection {
    Selection { anchor: 0, active: 0, active_affinity: Affinity::Downstream, h_pos: None }
}

/// The state of an editor: its text, its selection and the range of the
/// text that an input method is composing.
pub struct EditorView {
    pub text: Seq<char>,
    pub selection: Option<Selection>,
    pub preedit_range: Option<Range<usize>>,
}

impl EditorView {
    /// Whether the selection, if there is one, has both its offsets within
    /// the text and between two of its characters.
    pub open spec fn wf(self) -> bool {
        self.selection matches Some(selection) ==> selection.valid_in(encode_utf8(self.text))
    }

    /// The selection that a command works on.
    pub open spec fn current(self) -> Selection {
        match self.selection {
            Some(selection) => selection,
            None => implicit_caret(),
        }
    }

    /// The state after the bytes from `start` up to `end` are replaced by
    /// `new`: the caret stands behind the new text, with `affinity`.
    pub open spec fn edited(self, start: usize, end: usize, new: Seq<char>, affinity: Affinity)
        -> EditorView {
        let caret = (start + encode_utf8(new).len()) as usize;
        EditorView {
            text: replaced(self.text, start as int, end as int, new),
            selection: Some(
                Selection { anchor: caret, active: caret, active_affinity: affinity, h_pos: None },
            ),
            preedit_range: self.preedit_range,
        }
    }

    /// The state after a selection that is not empty is deleted, the caret
    /// left upstream at its start, and the same state where it is empty.
    pub open spec fn collapsed(self) -> EditorView {
        let selection = self.current();
        if selection.spec_is_caret() {
            self
        } else {
            self.edited(
                selection.spec_min(),
                selection.spec_max(),
                Seq::empty(),
                Affinity::Upstream,
            )
        }
    }

    /// Whether a backspace changes the text: there is a selection to delete,
    /// or a grapheme cluster that ends at the caret.
    pub open spec fn backspace_edits(self) -> bool {
        let selection = self.current();
        !selection.spec_is_caret() || prev_grapheme(self.text, selection.active) is Some
    }

    /// The state after a backspace. A selection that is not empty is
    /// deleted, the caret left upstream at its start. At a caret the
    /// grapheme cluster that ends there is deleted, the caret keeping its
    /// affinity; where none ends there, nothing changes.
    pub open spec fn backspace(self) -> EditorView {
        let selection = self.current();
        if !selection.spec_is_caret() {
            self.collapsed()
        } else {
            match prev_grapheme(self.text, selection.active) {
                Some(start) => self.edited(
                    start,
                    selection.active,
                    Seq::empty(),
                    selection.active_affinity,
                ),
                None => self,
            }
        }
    }

    /// Whether a delete changes the text: there is a selection to delete, or
    /// a grapheme cluster that starts at the caret.
    pub open spec fn delete_edits(self) -> bool {
        let selection = self.current();
        !selection.spec_is_caret() || next_grapheme(self.text, selection.active) is Some
    }

    /// The state after a delete. A selection that is not empty is deleted,
    /// the caret left downstream at its start. At a caret the grapheme
    /// cluster that starts there is deleted, the caret keeping its affinity;
    /// where none starts there, nothing changes.
    pub open spec fn delete(self) -> EditorView {
        let selection = self.current();
        if !selection.spec_is_caret() {
            self.edited(
                selection.spec_min(),
                selection.spec_max(),
                Seq::empty(),
                Affinity::Downstream,
            )
        } else {
            match next_grapheme(self.text, selection.active) {
                Some(end) => self.edited(
                    selection.active,
                    end,
                    Seq::empty(),
                    selection.active_affinity,
                ),
                None => self,
            }
        }
    }

    /// The state after `new` is typed: it replaces the selection, and the
    /// caret stands downstream behind it.
    pub open spec fn insert(self, new: Seq<char>) -> EditorView {
        let selection = self.current();
        self.edited(selection.spec_min(), selection.spec_max(), new, Affinity::Downstream)
    }

    /// The state after the word before the caret is deleted. A selection
    /// that is not empty is deleted first. Then the text from the start of
    /// the word before the caret, or from the start of the text where there
    /// is no such word, up to the caret is deleted, and the caret stands
    /// upstream where that text began.
    pub open spec fn delete_word_back(self) -> EditorView {
        let caret = self.current().spec_min();
        let collapsed = self.collapsed();
        let start = match prev_word(collapsed.text, caret) {
            Some(start) => start,
            None => 0,
        };
        collapsed.edited(start, caret, Seq::empty(), Affinity::Upstream)
    }

    /// The state after the word behind the caret is deleted. A selection
    /// that is not empty is deleted first. Then the text from the caret up
    /// to the end of the word behind it is deleted, if there is one, and
    /// the caret stays upstream where it is.
    pub open spec fn delete_word_forward(self) -> EditorView {
        let caret = self.current().spec_min();
        let collapsed = self.collapsed();
        let end = match next_word(collapsed.text, caret) {
            Some(end) => end,
            None => caret,
        };
        collapsed.edited(caret, end, Seq::empty(), Affinity::Upstream)
    }
}

/// What an editor does with an event: its next state, whether it consumed
/// the event, and the actions that it submits, in order.
pub struct Outcome {
    pub state: EditorView,
    pub handled: Handled,
    pub actions: Seq<ActionView>,
}

/// The outcome of an event that the editor leaves to others.
pub open spec fn unhandled(state: EditorView) -> Outcome {
    Outcome { state, handled: Handled::No, actions: Seq::empty() }
}

/// The outcome of a command that leaves the editor in `state`, and reports
/// the text as changed where `report` holds.
pub open spec fn changed(state: EditorView, report: bool) -> Outcome {
    Outcome {
        state,
        handled: Handled::Yes,
        actions: if report {
            seq![ActionView::TextChanged(state.text)]
        } else {
            Seq::empty()
        },
    }
}

/// Whether no modifier but shift is asserted.
pub open spec fn types_text(modifiers: ModifiersState) -> bool {
    modifiers@ & !ModifiersState::SHIFT == 0
}

/// Whether control, meta or super is asserted.
pub open spec fn commands(modifiers: ModifiersState) -> bool {
    modifiers@ & (ModifiersState::CONTROL | ModifiersState::META | ModifiersState::SUPER) != 0
}

/// What the editor does when `key` goes down under `modifiers`.
///
/// With no modifier but shift: backspace and delete remove the selection or
/// one grapheme cluster and report the text where it changed; space and
/// character keys type their text and report the text; enter submits the
/// text and changes nothing. With control, meta or super: backspace and
/// delete remove a word and report the text. Every other key, and every
/// other set of modifiers, is left to others.
pub open spec fn key_outcome(state: EditorView, key: KeyView, modifiers: ModifiersState)
    -> Outcome {
    if types_text(modifiers) {
        match key {
            KeyView::Named(NamedKey::Backspace) => changed(
                state.backspace(),
                state.backspace_edits(),
            ),
            KeyView::Named(NamedKey::Delete) => changed(state.delete(), state.delete_edits()),
            KeyView::Named(NamedKey::Space) => changed(state.insert(seq![' ']), true),
            KeyView::Character(text) => changed(state.insert(text), true),
            KeyView::Named(NamedKey::Enter) => Outcome {
                state,
                handled: Handled::Yes,
                actions: seq![ActionView::TextEntered(state.text)],
            },
            _ => unhandled(state),
        }
    } else if commands(modifiers) {
        match key {
            KeyView::Named(NamedKey::Backspace) => changed(state.delete_word_back(), true),
            KeyView::Named(NamedKey::Delete) => changed(state.delete_word_forward(), true),
            _ => unhandled(state),
        }
    } else {
        unhandled(state)
    }
}

/// What the editor does with `event`: a key that is pressed or repeated is
/// a command, and everything else is left to others.
pub open spec fn event_outcome(state: EditorView, event: TextEventView) -> Outcome {
    match event {
        TextEventView::KeyboardKey(key, modifiers) => if key.state == ElementState::Pressed {
            key_outcome(state, key.logical_key, modifiers)
        } else {
            unhandled(state)
        },
        _ => unhandled(state),
    }
}

/// What the shaping of the text is given when the layout is rebuilt.
pub struct LayoutInput {
    /// The text to lay out.
    pub text: String,
    /// The range of the text to underline, in bytes: what an input method is
    /// composing.
    pub underline: Option<Range<usize>>,
}

/// A region of text which can support editing operations
pub struct TextEditor<T: EditableText> {
    text: T,
    selection: Option<Selection>,
    /// The range of the preedit region in the text
    preedit_range: Option<Range<usize>>,
}

impl<T: EditableText> View for TextEditor<T> {
    type V = EditorView;

    closed spec fn view(&self) -> EditorView {
        EditorView {
            text: self.text.text(),
            selection: self.selection,
            preedit_range: self.preedit_range,
        }
    }
}

impl<T: EditableText> TextEditor<T> {
    /// Whether the selection, if there is one, has both its offsets within
    /// the text and between two of its characters. Every editor that this
    /// module hands out is so.
    pub open spec fn wf(&self) -> bool {
        self@.wf()
    }

    /// An editor of `text`, with no selection and no preedit region.
    pub fn new(text: T) -> (editor: Self)
        ensures
            editor.wf(),
            editor@ == (EditorView { text: text.text(), selection: None, preedit_range: None }),
    {
        TextEditor { text, selection: None, preedit_range: None }
    }

    /// The text.
    pub fn text(&self) -> (text: &T)
        ensures
            text.text() == self@.text,
    {
        &self.text
    }

    /// The selection, if there is one.
    pub fn selection(&self) -> (selection: Option<Selection>)
        ensures
            selection == self@.selection,
    {
        self.selection
    }

    /// Takes `selection` as the selection where both its offsets lie within
    /// the text and between two of its characters, and says whether it did.
    /// Otherwise the selection stays as it is.
    pub fn set_selection(&mut self, selection: Selection) -> (valid: bool)
        requires
            old(self).wf(),
        ensures
            final(self).wf(),
            valid == selection.valid_in(encode_utf8(old(self)@.text)),
            final(self)@ == if valid {
                EditorView { selection: Some(selection), ..old(self)@ }
            } else {
                old(self)@
            },
    {
        let text = self.text.as_str();
        if text.is_char_boundary(selection.anchor) && text.is_char_boundary(selection.active) {
            self.selection = Some(selection);
            true
        } else {
            false
        }
    }

    /// Marks `range` as the preedit region. The range is not held against
    /// the text: it only tells the layout what to underline.
    pub fn set_preedit(&mut self, range: Range<usize>)
        ensures
            final(self)@ == (EditorView { preedit_range: Some(range), ..old(self)@ }),
    {
        self.preedit_range = Some(range);
    }

    /// Forgets the preedit region.
    pub fn reset_preedit(&mut self)
        ensures
            final(self)@ == (EditorView { preedit_range: None, ..old(self)@ }),
    {
        self.preedit_range = None;
    }

    /// Rebuild the text: what the shaping is to lay out, the text with the
    /// preedit region underlined.
    pub fn rebuild(&self) -> (input: LayoutInput)
        ensures
            input.text@ == self@.text,
            input.underline == self@.preedit_range,
    {
        let underline = match &self.preedit_range {
            Some(range) => Some(range.start..range.end),
            None => None,
        };
        LayoutInput { text: self.text.as_str().to_owned(), underline }
    }

    /// The selection that a command works on.
    fn current_selection(&self) -> (selection: Selection)
        requires
            self.wf(),
        ensures
            selection == self@.current(),
            selection.valid_in(encode_utf8(self@.text)),
    {
        match self.selection {
            Some(selection) => selection,
            None => Selection::caret(0, Affinity::Downstream),
        }
    }

    /// Replaces the bytes from `start` up to `end` by `new`, and puts the
    /// caret behind the new text.
    fn replace(&mut self, start: usize, end: usize, new: &str, affinity: Affinity)
        requires
            is_edit_range(encode_utf8(old(self)@.text), start as int, end as int),
        ensures
            final(self).wf(),
            final(self)@ == old(self)@.edited(start, end, new@, affinity),
            final(self)@.selection == Some(
                Selection {
                    anchor: (start + encode_utf8(new@).len()) as usize,
                    active: (start + encode_utf8(new@).len()) as usize,
                    active_affinity: affinity,
                    h_pos: None,
                },
            ),
            is_position(final(self)@.text, start as int),
            is_position(final(self)@.text, start + encode_utf8(new@).len()),
            start + encode_utf8(new@).len() <= usize::MAX,
    {
        let ghost before = self.text.text();
        self.text.edit(start..end, new);
        proof {
            lemma_edit_changes_length(before, start as int, end as int, new@);
        }
        let inserted = new.as_bytes().len();
        let total = self.text.as_str().as_bytes().len();
        assert(start + inserted <= total);
        self.selection = Some(Selection::caret(start + inserted, affinity));
    }

    /// Deletes the bytes from `start` up to `end`, and puts the caret where
    /// they were.
    fn remove(&mut self, start: usize, end: usize, affinity: Affinity)
        requires
            is_edit_range(encode_utf8(old(self)@.text), start as int, end as int),
        ensures
            final(self).wf(),
            final(self)@ == old(self)@.edited(start, end, Seq::empty(), affinity),
            is_position(final(self)@.text, start as int),
    {
        proof {
            reveal_strlit("");
            assert(""@ =~= Seq::<char>::empty());
        }
        self.replace(start, end, "", affinity);
    }

    /// Submits the whole text as changed.
    fn report_change(&self, ctx: &mut EventCtx)
        ensures
            final(ctx)@ == old(ctx)@.push(ActionView::TextChanged(self@.text)),
    {
        ctx.submit_action(Action::TextChanged(self.text.as_str().to_owned()));
    }

    /// Interprets a key that goes down as an editing command.
    ///
    /// A text event that is a key pressed or repeated is taken as a command,
    /// the text and the selection change together, and each command that
    /// reports the text does so once, after the change. Whatever the editor
    /// does not consume it leaves untouched, for an outer layer to handle.
    pub fn text_event(&mut self, ctx: &mut EventCtx, event: &TextEvent) -> (handled: Handled)
        requires
            old(self).wf(),
        ensures
            final(self).wf(),
            final(self)@ == event_outcome(old(self)@, event@).state,
            handled == event_outcome(old(self)@, event@).handled,
            final(ctx)@ == old(ctx)@ + event_outcome(old(self)@, event@).actions,
    {
        match event {
            TextEvent::KeyboardKey(key, modifiers) => {
                if !key.state.is_pressed() {
                    Handled::No
                } else if !modifiers.intersects(!ModifiersState::SHIFT) {
                    match &key.logical_key {
                        Key::Named(NamedKey::Backspace) => {
                            if self.backspace() {
                                self.report_change(ctx);
                            }
                            Handled::Yes
                        },
                        Key::Named(NamedKey::Delete) => {
                            if self.delete() {
                                self.report_change(ctx);
                            }
                            Handled::Yes
                        },
                        Key::Named(NamedKey::Space) => {
                            proof {
                                reveal_strlit(" ");
                                assert(" "@ =~= seq![' ']);
                            }
                            self.insert(" ");
                            self.report_change(ctx);
                            Handled::Yes
                        },
                        Key::Character(text) => {
                            self.insert(smol_str_as_str(text));
                            self.report_change(ctx);
                            Handled::Yes
                        },
                        Key::Named(NamedKey::Enter) => {
                            ctx.submit_action(Action::TextEntered(self.text.as_str().to_owned()));
                            Handled::Yes
                        },
                        _ => Handled::No,
                    }
                } else if modifiers.intersects(
                    ModifiersState::CONTROL | ModifiersState::META | ModifiersState::SUPER,
                ) {
                    match &key.logical_key {
                        Key::Named(NamedKey::Backspace) => {
                            self.delete_word_back();
                            self.report_change(ctx);
                            Handled::Yes
                        },
                        Key::Named(NamedKey::Delete) => {
                            self.delete_word_forward();
                            self.report_change(ctx);
                            Handled::Yes
                        },
                        _ => Handled::No,
                    }
                } else {
                    Handled::No
                }
            },
            _ => Handled::No,
        }
    }

    /// Deletes the selection, or the grapheme cluster before the caret, and
    /// says whether the text changed.
    fn backspace(&mut self) -> (edited: bool)
        requires
            old(self).wf(),
        ensures
            final(self).wf(),
            final(self)@ == old(self)@.backspace(),
            edited == old(self)@.backspace_edits(),
    {
        let selection = self.current_selection();
        if !selection.is_caret() {
            self.remove(selection.min(), selection.max(), Affinity::Upstream);
            true
        } else {
            match prev_grapheme_offset(self.text.as_str(), selection.active) {
                Some(start) => {
                    self.remove(start, selection.active, selection.active_affinity);
                    true
                },
                None => false,
            }
        }
    }

    /// Deletes the selection, or the grapheme cluster behind the caret, and
    /// says whether the text changed.
    fn delete(&mut self) -> (edited: bool)
        requires
            old(self).wf(),
        ensures
            final(self).wf(),
            final(self)@ == old(self)@.delete(),
            edited == old(self)@.delete_edits(),
    {
        let selection = self.current_selection();
        if !selection.is_caret() {
            self.remove(selection.min(), selection.max(), Affinity::Downstream);
            true
        } else {
            match next_grapheme_offset(self.text.as_str(), selection.active) {
                Some(end) => {
                    self.remove(selection.active, end, selection.active_affinity);
                    true
                },
                None => false,
            }
        }
    }

    /// Types `new` in place of the selection.
    fn insert(&mut self, new: &str)
        requires
            old(self).wf(),
        ensures
            final(self).wf(),
            final(self)@ == old(self)@.insert(new@),
    {
        let selection = self.current_selection();
        self.replace(selection.min(), selection.max(), new, Affinity::Downstream);
    }

    /// Deletes a selection that is not empty, and leaves the caret at its
    /// start. Returns where the caret then stands.
    fn collapse(&mut self) -> (caret: usize)
        requires
            old(self).wf(),
        ensures
            final(self).wf(),
            final(self)@ == old(self)@.collapsed(),
            caret == old(self)@.current().spec_min(),
            is_position(final(self)@.text, caret as int),
    {
        let selection = self.current_selection();
        if !selection.is_caret() {
            self.remove(selection.min(), selection.max(), Affinity::Upstream);
        }
        selection.min()
    }

    /// Deletes the selection and the word before it.
    fn delete_word_back(&mut self)
        requires
            old(self).wf(),
        ensures
            final(self).wf(),
            final(self)@ == old(self)@.delete_word_back(),
    {
        let caret = self.collapse();
        let start = match prev_word_offset(self.text.as_str(), caret) {
            Some(start) => start,
            None => 0,
        };
        self.remove(start, caret, Affinity::Upstream);
    }

    /// Deletes the selection and the word behind it.
    fn delete_word_forward(&mut self)
        requires
            old(self).wf(),
        ensures
            final(self).wf(),
            final(self)@ == old(self)@.delete_word_forward(),
    {
        let caret = self.collapse();
        let end = match next_word_offset(self.text.as_str(), caret) {
            Some(end) => end,
            None => caret,
        };
        self.remove(caret, end, Affinity::Upstream);
    }
}

/// An edit changes the length of the text, in bytes, by the length of the
/// new text less the length of the range that it replaces, and both ends of
/// the new text fall between characters of the result.
pub proof fn lemma_edit_changes_length(text: Seq<char>, start: int, end: int, new: Seq<char>)
    requires
        is_edit_range(encode_utf8(text), start, end),
    ensures
        encode_utf8(replaced(text, start, end, new)) == splice(
            encode_utf8(text),
            start,
            end,
            encode_utf8(new),
        ),
        encode_utf8(replaced(text, start, end, new)).len() == encode_utf8(text).len() - (end
            - start) + encode_utf8(new).len(),
        is_position(replaced(text, start, end, new), start),
        is_position(replaced(text, start, end, new), start + encode_utf8(new).len()),
{
    lemma_splice(encode_utf8(text), start, end, encode_utf8(new));
}

/// After an edit the selection is a caret within the new text and between
/// two of its characters, provided that the new text is no longer than the
/// machine can address.
pub proof fn lemma_edited_is_valid(
    state: EditorView,
    start: usize,
    end: usize,
    new: Seq<char>,
    affinity: Affinity,
)
    requires
        is_edit_range(encode_utf8(state.text), start as int, end as int),
        encode_utf8(state.edited(start, end, new, affinity).text).len() <= usize::MAX,
    ensures
        state.edited(start, end, new, affinity).wf(),
        state.edited(start, end, new, affinity).current().spec_is_caret(),
        state.edited(start, end, new, affinity).current().active == start + encode_utf8(
            new,
        ).len(),
        state.edited(start, end, new, affinity).current().active <= encode_utf8(
            state.edited(start, end, new, affinity).text,
        ).len(),
        encode_utf8(state.edited(start, end, new, affinity).text).len() == encode_utf8(
            state.text,
        ).len() - (end - start) + encode_utf8(new).len(),
{
    lemma_edit_changes_length(state.text, start as int, end as int, new);
}

/// Whatever the event, the editor stays well formed: afterwards no offset of
/// the selection lies past the end of the text or inside a character. This
/// holds of every well-formed state whose next text is no longer than the
/// machine can address.
pub proof fn lemma_event_keeps_selection_valid(state: EditorView, event: TextEventView)
    requires
        state.wf(),
        encode_utf8(event_outcome(state, event).state.text).len() <= usize::MAX,
    ensures
        event_outcome(state, event).state.wf(),
{
    let selection = state.current();
    let low = selection.spec_min();
    let high = selection.spec_max();
    let none = Seq::<char>::empty();
    lemma_ends_are_positions(state.text);
    lemma_grapheme_is_position(state.text, selection.active);
    assert(encode_utf8(none).len() == 0);
    assert(is_edit_range(encode_utf8(state.text), low as int, high as int));
    lemma_edit_changes_length(state.text, low as int, high as int, none);
    let collapsed = state.collapsed();
    assert(is_position(collapsed.text, low as int));
    lemma_word_is_position(collapsed.text, low);
    lemma_ends_are_positions(collapsed.text);
    match event {
        TextEventView::KeyboardKey(key, modifiers) => {
            if key.state == ElementState::Pressed {
                if types_text(modifiers) {
                    match key.logical_key {
                        KeyView::Named(NamedKey::Backspace) => {
                            match prev_grapheme(state.text, selection.active) {
                                Some(start) => {
                                    lemma_edit_changes_length(
                                        state.text,
                                        start as int,
                                        selection.active as int,
                                        none,
                                    );
                                },
                                None => {},
                            }
                        },
                        KeyView::Named(NamedKey::Delete) => {
                            match next_grapheme(state.text, selection.active) {
                                Some(end) => {
                                    lemma_edit_changes_length(
                                        state.text,
                                        selection.active as int,
                                        end as int,
                                        none,
                                    );
                                },
                                None => {},
                            }
                        },
                        KeyView::Named(NamedKey::Space) => {
                            lemma_edit_changes_length(
                                state.text,
                                low as int,
                                high as int,
                                seq![' '],
                            );
                        },
                        KeyView::Character(text) => {
                            lemma_edit_changes_length(state.text, low as int, high as int, text);
                        },
                        _ => {},
                    }
                } else if commands(modifiers) {
                    match key.logical_key {
                        KeyView::Named(NamedKey::Backspace) => {
                            let start = match prev_word(collapsed.text, low) {
                                Some(start) => start,
                                None => 0,
                            };
                            lemma_edit_changes_length(
                                collapsed.text,
                                start as int,
                                low as int,
                                none,
                            );
                        },
                        KeyView::Named(NamedKey::Delete) => {
                            let end = match next_word(collapsed.text, low) {
                                Some(end) => end,
                                None => low,
                            };
                            lemma_edit_changes_length(
                                collapsed.text,
                                low as int,
                                end as int,
                                none,
                            );
                        },
                        _ => {},
                    }
                }
            }
        },
        _ => {},
    }
}

/// A backspace at a caret at the start of the text does nothing: the state
/// stays as it is and nothing is reported.
pub proof fn lemma_backspace_at_start_is_no_op(state: EditorView, modifiers: ModifiersState)
    requires
        state.current().spec_is_caret(),
        state.current().active == 0,
        types_text(modifiers),
    ensures
        key_outcome(state, KeyView::Named(NamedKey::Backspace), modifiers) == (Outcome {
            state,
            handled: Handled::Yes,
            actions: Seq::empty(),
        }),
{
    lemma_nothing_before_start(state.text);
}

/// A delete at a caret at the end of the text does nothing: the state stays
/// as it is and nothing is reported.
pub proof fn lemma_delete_at_end_is_no_op(state: EditorView, modifiers: ModifiersState)
    requires
        state.current().spec_is_caret(),
        state.current().active == encode_utf8(state.text).len(),
        types_text(modifiers),
    ensures
        key_outcome(state, KeyView::Named(NamedKey::Delete), modifiers) == (Outcome {
            state,
            handled: Handled::Yes,
            actions: Seq::empty(),
        }),
{
    lemma_nothing_after_end(state.text, state.current().active);
}

/// No event touches the preedit region, and an event that the editor does
/// not consume changes nothing and reports nothing.
pub proof fn lemma_event_keeps_preedit(state: EditorView, event: TextEventView)
    ensures
        event_outcome(state, event).state.preedit_range == state.preedit_range,
        event_outcome(state, event).handled == Handled::No ==> event_outcome(state, event)
            == unhandled(state),
        event_outcome(state, event).actions.len() <= 1,
{
}

/// Every action that an event gives rise to carries the whole text as it is
/// after the event.
pub proof fn lemma_actions_carry_the_text(state: EditorView, event: TextEventView, i: int)
    requires
        0 <= i < event_outcome(state, event).actions.len(),
    ensures
        event_outcome(state, event).actions[i] == ActionView::TextChanged(
            event_outcome(state, event).state.text,
        ) || event_outcome(state, event).actions[i] == ActionView::TextEntered(
            event_outcome(state, event).state.text,
        ),
{
}

} // verus!
