//! What the chat platform reports to the bot, as far as the bot's decisions
//! read it.

use vstd::prelude::*;

use crate::text::same_text;

verus! {

/// The name of the slash command that starts a poll.
pub const START_POLL: &'static str = "lfg";

/// A message that somebody wrote, in a channel or in private.
#[derive(Clone, Debug, PartialEq, Eq)]
pub struct IncomingMessage {
    /// The user who wrote the message.
    pub author: u64,
    /// That user's name.
    pub author_name: String,
    /// The channel that the message was written to.
    pub channel: u64,
    /// The text of the message.
    pub content: String,
    /// Whether the message was sent in private.
    pub private: bool,
}

/// The mathematical view of `IncomingMessage`.
pub struct MessageView {
    pub author: u64,
    pub author_name: Seq<char>,
    pub channel: u64,
    pub content: Seq<char>,
    pub private: bool,
}

impl View for IncomingMessage {
    type V = MessageView;

    open spec fn view(&self) -> MessageView {
        MessageView {
            author: self.author,
            author_name: self.author_name@,
            channel: self.channel,
            content: self.content@,
            private: self.private,
        }
    }
}

/// The slash commands that the bot knows, and the rest.
#[derive(Clone, Copy, Debug, PartialEq, Eq, Structural)]
pub enum CommandKind {
    /// The command that starts a poll.
    StartPoll,
    /// Any other command. The bot does nothing about it.
    Unrecognized,
}

/// The kind of the command called `name`: a name is recognized as it
/// stands, letter for letter.
pub open spec fn command_kind(name: Seq<char>) -> CommandKind {
    if name == START_POLL@ {
        CommandKind::StartPoll
    } else {
        CommandKind::Unrecognized
    }
}

/// A slash command that somebody gave.
#[derive(Clone, Debug, PartialEq, Eq)]
pub struct SlashCommand {
    /// The id of this use of the command.
    pub id: u64,
    /// The name of the command.
    pub name: String,
    /// The token under which the chat platform takes the answer to it.
    pub token: String,
    /// The user who gave the command.
    pub user: u64,
    /// The channel in which the command was given.
    pub channel: u64,
}

/// The mathematical view of `SlashCommand`.
pub struct CommandView {
    pub id: u64,
    pub name: Seq<char>,
    pub token: Seq<char>,
    pub user: u64,
    pub channel: u64,
}

impl View for SlashCommand {
    type V = CommandView;

    open spec fn view(&self) -> CommandView {
        CommandView {
            id: self.id,
            name: self.name@,
            token: self.token@,
            user: self.user,
            channel: self.channel,
        }
    }
}

impl CommandView {
    /// The kind of this command, by its name.
    pub open spec fn kind(self) -> CommandKind {
        command_kind(self.name)
    }
}

impl SlashCommand {
    /// Which of the bot's commands this is, if any.
    pub fn kind(&self) -> (kind: CommandKind)
        ensures
            kind == self@.kind(),
    {
        if same_text(self.name.as_str(), START_POLL) {
            CommandKind::StartPoll
        } else {
            CommandKind::Unrecognized
        }
    }
}

} // verus!
