//! What the bot asks the chat platform to do. This library decides; the
//! program around it carries the actions out and reports how each went.

use vstd::prelude::*;

use crate::polls::PollError;
use crate::text::texts;

verus! {

/// One request to the chat platform.
#[derive(Clone, Debug, PartialEq, Eq)]
pub enum Action {
    /// Post `text` to `channel`, then react to the new message with each of
    /// `reactions`, in order.
    SendChannelMessage { channel: u64, text: String, reactions: Vec<String> },
    /// Post the finished poll of `user`: send `text` to `channel`, then react
    /// to the new message with each of `reactions`, in order. Whether this
    /// went through decides what becomes of the poll: report it with
    /// `Handler::posted` or `Polls::posted`.
    PostPoll { user: u64, channel: u64, text: String, reactions: Vec<String> },
    /// Send `text` to `user` in private.
    SendDirectMessage { user: u64, text: String },
    /// Answer the message that is being handled with `text`.
    Reply { text: String },
    /// React to the message that is being handled with `emoji`.
    React { emoji: String },
    /// Delete the message that is being handled. It is tidying up: when it
    /// fails, nothing else is held back.
    DeleteMessage,
}

/// The mathematical view of `Action`.
pub enum ActionView {
    SendChannelMessage { channel: u64, text: Seq<char>, reactions: Seq<Seq<char>> },
    PostPoll { user: u64, channel: u64, text: Seq<char>, reactions: Seq<Seq<char>> },
    SendDirectMessage { user: u64, text: Seq<char> },
    Reply { text: Seq<char> },
    React { emoji: Seq<char> },
    DeleteMessage,
}

impl View for Action {
    type V = ActionView;

    open spec fn view(&self) -> ActionView {
        match *self {
            Action::SendChannelMessage { channel, text, reactions } => ActionView::SendChannelMessage {
                channel,
                text: text@,
                reactions: texts(reactions@),
            },
            Action::PostPoll { user, channel, text, reactions } => ActionView::PostPoll {
                user,
                channel,
                text: text@,
                reactions: texts(reactions@),
            },
            Action::SendDirectMessage { user, text } => ActionView::SendDirectMessage {
                user,
                text: text@,
            },
            Action::Reply { text } => ActionView::Reply { text: text@ },
            Action::React { emoji } => ActionView::React { emoji: emoji@ },
            Action::DeleteMessage => ActionView::DeleteMessage,
        }
    }
}

/// The view of each action of `actions`, in order.
pub open spec fn action_views(actions: Seq<Action>) -> Seq<ActionView> {
    Seq::new(actions.len(), |i: int| actions[i]@)
}

impl ActionView {
    /// Whether a failure of this action is only logged.
    pub open spec fn best_effort(self) -> bool {
        self is DeleteMessage
    }

    /// What an attempt of this action comes to for the event being handled.
    pub open spec fn settled(self, delivered: bool) -> Result<(), PollError> {
        if delivered || self.best_effort() {
            Ok(())
        } else {
            Err(PollError::AdapterError)
        }
    }
}

impl Action {
    /// Says what an attempt of this action means for the event being
    /// handled: `delivered` tells whether the chat platform carried it out.
    /// A failure is an `AdapterError`, which ends the handling of the event,
    /// unless the action is best-effort.
    pub fn settle(&self, delivered: bool) -> (r: Result<(), PollError>)
        ensures
            r == self@.settled(delivered),
    {
        if delivered {
            return Ok(());
        }
        match self {
            Action::DeleteMessage => Ok(()),
            _ => Err(PollError::AdapterError),
        }
    }
}

} // verus!
