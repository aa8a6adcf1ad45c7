//! Small talk: what the bot does with messages that have nothing to do with
//! polls.

use vstd::prelude::*;

use crate::action::{action_views, Action, ActionView};
use crate::event::{IncomingMessage, MessageView};
use crate::text::{contains, occurs_in, same_text};

verus! {

/// The message that asks for a sign of life.
pub const PING: &'static str = "!ping";

/// The sign of life.
pub const PONG: &'static str = "Pong!";

/// The message that asks who its author is.
pub const WHOAMI: &'static str = "!whoami";

/// Stands before the author's name in the answer to `!whoami`.
pub const YOU_ARE: &'static str = "You are ";

/// A chicken.
pub const CHICKEN: &'static str = "\u{1F414}";

/// An egg, the reaction to a chicken.
pub const EGG: &'static str = "\u{1F95A}";

/// A horse.
pub const HORSE: &'static str = "\u{1F434}";

/// A gemstone, the reaction to a horse.
pub const GEMSTONE: &'static str = "\u{1F48E}";

/// The view of an optional action.
pub open spec fn option_view(action: Option<Action>) -> Option<ActionView> {
    match action {
        Some(a) => Some(a@),
        None => None,
    }
}

/// The answer to `!ping`: `Pong!`, in the channel of the message. No other
/// message gets one.
pub open spec fn pong(msg: MessageView) -> Option<ActionView> {
    if msg.content == PING@ {
        Some(
            ActionView::SendChannelMessage {
                channel: msg.channel,
                text: PONG@,
                reactions: Seq::empty(),
            },
        )
    } else {
        None
    }
}

/// The answer to `!whoami`: the author's name, sent to the author in
/// private. No other message gets one.
pub open spec fn you_are(msg: MessageView) -> Option<ActionView> {
    if msg.content == WHOAMI@ {
        Some(ActionView::SendDirectMessage { user: msg.author, text: YOU_ARE@ + msg.author_name })
    } else {
        None
    }
}

/// The reactions to a message: an egg where it holds a chicken, then a
/// gemstone where it holds a horse.
pub open spec fn emoji_reactions(content: Seq<char>) -> Seq<ActionView> {
    (if occurs_in(CHICKEN@, content) {
        seq![ActionView::React { emoji: EGG@ }]
    } else {
        Seq::empty()
    }) + (if occurs_in(HORSE@, content) {
        seq![ActionView::React { emoji: GEMSTONE@ }]
    } else {
        Seq::empty()
    })
}

/// Answers `!ping`.
pub fn ping(msg: &IncomingMessage) -> (action: Option<Action>)
    ensures
        option_view(action) == pong(msg@),
{
    if !same_text(msg.content.as_str(), PING) {
        return None;
    }
    let action = Action::SendChannelMessage {
        channel: msg.channel,
        text: String::from_str(PONG),
        reactions: Vec::new(),
    };
    assert(action@.arrow_SendChannelMessage_reactions() =~= Seq::empty());
    Some(action)
}

/// Answers `!whoami`.
pub fn whoami(msg: &IncomingMessage) -> (action: Option<Action>)
    ensures
        option_view(action) == you_are(msg@),
{
    if !same_text(msg.content.as_str(), WHOAMI) {
        return None;
    }
    let mut text = String::from_str(YOU_ARE);
    text.append(msg.author_name.as_str());
    Some(Action::SendDirectMessage { user: msg.author, text })
}

/// Reacts to the animals in a message.
pub fn add_reaction_emoji(msg: &IncomingMessage) -> (actions: Vec<Action>)
    ensures
        action_views(actions@) == emoji_reactions(msg@.content),
{
    let mut actions: Vec<Action> = Vec::new();
    if contains(msg.content.as_str(), CHICKEN) {
        actions.push(Action::React { emoji: String::from_str(EGG) });
    }
    if contains(msg.content.as_str(), HORSE) {
        actions.push(Action::React { emoji: String::from_str(GEMSTONE) });
    }
    assert(action_views(actions@) =~= emoji_reactions(msg@.content));
    actions
}

} // verus!
