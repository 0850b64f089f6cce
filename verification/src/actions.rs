//! The actions that the user can take in the panel.

use vstd::prelude::*;

verus! {

#[derive(Clone, Copy, Debug, PartialEq, Eq, Structural)]
pub enum Action {
    Confirm,
    LoadMoreMessages,
    ToggleFocus,
}

/// What the panel does on an action.
#[derive(Clone, Copy, Debug, PartialEq, Eq, Structural)]
pub enum Handler {
    Send,
    LoadMoreMessages,
}

/// The actions that the panel takes, in the order in which they are to be
/// registered, with what it does on each.
pub fn init() -> (handlers: Vec<(Action, Handler)>)
    ensures
        handlers@ == seq![
            (Action::Confirm, Handler::Send),
            (Action::LoadMoreMessages, Handler::LoadMoreMessages),
        ],
{
    vec![
        (Action::Confirm, Handler::Send),
        (Action::LoadMoreMessages, Handler::LoadMoreMessages),
    ]
}

} // verus!
