//! What the host tells the widgets: text input, and changes of the window.

use crate::terminal::event::{KeyEvent, KeyEventView, ModifiersState};
use vstd::prelude::*;

verus! {

/// An event of text input.
#[derive(Debug, Clone)]
pub enum TextEvent {
    /// A key was pressed, repeated or released, under the modifiers given.
    KeyboardKey(KeyEvent, ModifiersState),
    /// The asserted modifiers changed to the state given.
    ModifierChange(ModifiersState),
    /// The input focus was gained (`true`) or lost (`false`).
    FocusChange(bool),
}

/// A text event, with its texts as sequences of characters.
pub enum TextEventView {
    KeyboardKey(KeyEventView, ModifiersState),
    ModifierChange(ModifiersState),
    FocusChange(bool),
}

impl View for TextEvent {
    type V = TextEventView;

    open spec fn view(&self) -> TextEventView {
        match *self {
            TextEvent::KeyboardKey(event, modifiers) => TextEventView::KeyboardKey(
                event@,
                modifiers,
            ),
            TextEvent::ModifierChange(modifiers) => TextEventView::ModifierChange(modifiers),
            TextEvent::FocusChange(focused) => TextEventView::FocusChange(focused),
        }
    }
}

/// A change of the window that the widgets are drawn in.
#[derive(Debug, Clone, Copy, PartialEq, Eq, Structural)]
pub enum WindowEvent {
    /// The window now has the size given, in cells.
    Resize { width: u32, height: u32 },
}

} // verus!
