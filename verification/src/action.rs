//! What a widget reports back to the application.

use vstd::prelude::*;

verus! {

/// Something that a widget did, reported to the application.
#[derive(Debug, Clone, PartialEq, Eq)]
pub enum Action {
    /// The text of an editor changed: the whole text after the change.
    TextChanged(String),
    /// The text of an editor was submitted: the whole text.
    TextEntered(String),
}

/// An action, with its text as a sequence of characters.
pub enum ActionView {
    TextChanged(Seq<char>),
    TextEntered(Seq<char>),
}

impl View for Action {
    type V = ActionView;

    open spec fn view(&self) -> ActionView {
        match *self {
            Action::TextChanged(text) => ActionView::TextChanged(text@),
            Action::TextEntered(text) => ActionView::TextEntered(text@),
        }
    }
}

/// Whether a widget consumed an event.
#[derive(Debug, Clone, Copy, PartialEq, Eq, Hash, Structural)]
pub enum Handled {
    /// The event was consumed.
    Yes,
    /// The event was not consumed: an outer layer may interpret it.
    No,
}

impl Handled {
    /// Whether the event was consumed.
    pub fn is_handled(self) -> (consumed: bool)
        ensures
            consumed == (self == Handled::Yes),
    {
        self == Handled::Yes
    }
}

/// Where a widget submits its actions while it handles an event. The
/// actions are kept in the order in which they were submitted.
pub struct EventCtx {
    actions: Vec<Action>,
}

impl View for EventCtx {
    type V = Seq<ActionView>;

    closed spec fn view(&self) -> Seq<ActionView> {
        self.actions@.map_values(|action: Action| action@)
    }
}

impl EventCtx {
    /// A context that holds no action.
    pub fn new() -> (ctx: EventCtx)
        ensures
            ctx@ == Seq::<ActionView>::empty(),
    {
        EventCtx { actions: Vec::new() }
    }

    /// Adds `action` after the actions submitted so far.
    pub fn submit_action(&mut self, action: Action)
        ensures
            final(self)@ == old(self)@.push(action@),
    {
        self.actions.push(action);
    }

    /// Hands out the actions submitted so far, oldest first, and leaves
    /// none.
    pub fn take_actions(&mut self) -> (actions: Vec<Action>)
        ensures
            final(self)@ == Seq::<ActionView>::empty(),
            actions@.map_values(|action: Action| action@) == old(self)@,
    {
        let mut taken: Vec<Action> = Vec::new();
        std::mem::swap(&mut self.actions, &mut taken);
        taken
    }
}

} // verus!
