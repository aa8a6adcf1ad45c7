//! The bot as a whole: what it knows, and what it decides when the chat
//! platform reports an event.

use vstd::prelude::*;

use crate::action::{action_views, Action, ActionView};
use crate::event::{CommandKind, CommandView, IncomingMessage, MessageView, SlashCommand};
use crate::polls::{
    after_post, all_in_order, post_outcome, responded, response, start_actions, started,
    PollError, PollView, Polls,
};
use crate::whimsy::{
    add_reaction_emoji, emoji_reactions, option_view, ping, pong, whoami, you_are,
};

verus! {

/// Told to a user whose poll cannot take the option that the user sent.
pub const POLL_IS_FULL: &'static str =
    "Your poll already has 26 games, and that is as many as it can take.  Reply \"done\" to post it.";

/// What the bot asks of the chat platform in answer to one message.
#[derive(Clone, Debug, PartialEq, Eq)]
pub struct MessagePlan {
    /// Small talk. These actions do not depend on each other: each is
    /// attempted, and a failure is logged.
    pub whimsy: Vec<Action>,
    /// The step of the author's poll. These actions are attempted in order,
    /// up to the first that fails and is not best-effort. How the post of a
    /// poll went is reported with `Handler::posted`.
    pub poll: Vec<Action>,
}

/// The mathematical view of `MessagePlan`.
pub struct PlanView {
    pub whimsy: Seq<ActionView>,
    pub poll: Seq<ActionView>,
}

impl View for MessagePlan {
    type V = PlanView;

    open spec fn view(&self) -> PlanView {
        PlanView { whimsy: action_views(self.whimsy@), poll: action_views(self.poll@) }
    }
}

/// The mathematical view of the bot.
pub struct HandlerView {
    /// The bot's own user, once the chat platform has told it.
    pub bot_user: Option<u64>,
    /// The polls in preparation, by user.
    pub polls: Map<u64, PollView>,
}

/// An optional action as a sequence of none or one.
pub open spec fn as_seq(action: Option<ActionView>) -> Seq<ActionView> {
    match action {
        Some(a) => seq![a],
        None => Seq::empty(),
    }
}

impl HandlerView {
    /// Whether the bot itself wrote `msg`.
    pub open spec fn wrote(self, msg: MessageView) -> bool {
        self.bot_user == Some(msg.author)
    }

    /// The bot after `msg`: a private message of somebody else is a step of
    /// its author's poll; no other message changes anything.
    pub open spec fn after_message(self, msg: MessageView) -> HandlerView {
        if !self.wrote(msg) && msg.private {
            HandlerView { polls: responded(self.polls, msg.author, msg.content), ..self }
        } else {
            self
        }
    }

    /// The bot's answer to `msg`. To its own messages it has none. To any
    /// other it has its small talk: the answer to `!ping`, the reactions to
    /// animals, the answer to `!whoami`, in this order. To a private one it
    /// has the actions of the step of the author's poll as well, or, where
    /// that step is refused, word of that.
    pub open spec fn plan(self, msg: MessageView) -> PlanView {
        if self.wrote(msg) {
            PlanView { whimsy: Seq::empty(), poll: Seq::empty() }
        } else {
            PlanView {
                whimsy: as_seq(pong(msg)) + emoji_reactions(msg.content) + as_seq(you_are(msg)),
                poll: if msg.private {
                    match response(self.polls, msg.author, msg.content) {
                        Ok(actions) => actions,
                        Err(_) => seq![ActionView::Reply { text: POLL_IS_FULL@ }],
                    }
                } else {
                    Seq::empty()
                },
            }
        }
    }

    /// The bot once the chat platform has tried to post the poll of `user`:
    /// the poll is gone where the post went through, and stays where not.
    pub open spec fn after_post(self, user: u64, delivered: bool) -> HandlerView {
        HandlerView { polls: after_post(self.polls, user, delivered), ..self }
    }

    /// Whether a slash command starts a poll: it does where it is the
    /// command for that and was acknowledged.
    pub open spec fn starts_poll(command: CommandView, acknowledged: bool) -> bool {
        command.kind() == CommandKind::StartPoll && acknowledged
    }

    /// The bot after a slash command: where the command starts a poll, its
    /// user has a new one; where not, nothing has changed.
    pub open spec fn after_command(self, command: CommandView, acknowledged: bool) -> HandlerView {
        if Self::starts_poll(command, acknowledged) {
            HandlerView { polls: started(self.polls, command.user, command.channel), ..self }
        } else {
            self
        }
    }

    /// The bot's answer to a slash command: where the command starts a
    /// poll, the actions that go with that; where not, none.
    pub open spec fn command_actions(command: CommandView, acknowledged: bool) -> Seq<ActionView> {
        if Self::starts_poll(command, acknowledged) {
            start_actions(command.user, command.channel)
        } else {
            Seq::empty()
        }
    }
}

/// The bot: who it is, and the polls that its users prepare.
pub struct Handler {
    bot_user: Option<u64>,
    polls: Polls,
}

impl View for Handler {
    type V = HandlerView;

    closed spec fn view(&self) -> HandlerView {
        HandlerView { bot_user: self.bot_user, polls: self.polls@ }
    }
}

impl Handler {
    /// A bot that does not know yet who it is, and has no polls.
    pub fn new() -> (handler: Handler)
        ensures
            handler@ == (HandlerView { bot_user: None, polls: Map::empty() }),
    {
        Handler { bot_user: None, polls: Polls::new() }
    }

    /// The bot's own user, once the chat platform has told it.
    pub fn bot_user(&self) -> (user: Option<u64>)
        ensures
            user == self@.bot_user,
    {
        self.bot_user
    }

    /// The polls in preparation.
    pub fn polls(&self) -> (polls: &Polls)
        ensures
            polls@ == self@.polls,
    {
        &self.polls
    }

    /// The chat platform has told the bot that it is the user `bot_user`.
    pub fn ready(&mut self, bot_user: u64)
        ensures
            final(self)@ == (HandlerView { bot_user: Some(bot_user), ..old(self)@ }),
    {
        self.bot_user = Some(bot_user);
    }

    /// Whether the bot itself wrote `msg`. A bot that has not been told yet
    /// who it is takes no message for its own.
    pub fn wrote(&self, msg: &IncomingMessage) -> (own: bool)
        ensures
            own == self@.wrote(msg@),
    {
        self.bot_user == Some(msg.author)
    }

    /// Somebody wrote `msg`: returns what to do about it, and takes the step
    /// of the author's poll where the message is one.
    pub fn message(&mut self, msg: &IncomingMessage) -> (plan: MessagePlan)
        ensures
            final(self)@ == old(self)@.after_message(msg@),
            plan@ == old(self)@.plan(msg@),
            all_in_order(old(self)@.polls) ==> all_in_order(final(self)@.polls),
    {
        let mut whimsy: Vec<Action> = Vec::new();
        let mut poll: Vec<Action> = Vec::new();
        if self.wrote(msg) {
            assert(action_views(whimsy@) =~= Seq::empty());
            assert(action_views(poll@) =~= Seq::empty());
            return MessagePlan { whimsy, poll };
        }
        match ping(msg) {
            Some(action) => {
                whimsy.push(action);
            },
            None => {},
        }
        let mut reactions = add_reaction_emoji(msg);
        whimsy.append(&mut reactions);
        match whoami(msg) {
            Some(action) => {
                whimsy.push(action);
            },
            None => {},
        }
        assert(action_views(whimsy@) =~= as_seq(pong(msg@)) + emoji_reactions(msg@.content)
            + as_seq(you_are(msg@)));
        if msg.private {
            match self.polls.respond_to_private_message(msg.author, msg.content.as_str()) {
                Ok(actions) => {
                    poll = actions;
                },
                Err(_) => {
                    poll.push(Action::Reply { text: String::from_str(POLL_IS_FULL) });
                    assert(action_views(poll@) =~= seq![ActionView::Reply { text: POLL_IS_FULL@ }]);
                },
            }
        } else {
            assert(action_views(poll@) =~= Seq::empty());
        }
        MessagePlan { whimsy, poll }
    }

    /// Somebody gave the slash command `command`, and the program has tried
    /// to acknowledge it: `acknowledged` tells whether that went through.
    /// Where it did and the command is the one that starts a poll, the
    /// user's poll is started, and the result is what to tell the chat
    /// platform about that. Any other command changes nothing.
    pub fn interaction_create(&mut self, command: &SlashCommand, acknowledged: bool) -> (actions:
        Vec<Action>)
        ensures
            final(self)@ == old(self)@.after_command(command@, acknowledged),
            action_views(actions@) == HandlerView::command_actions(command@, acknowledged),
            all_in_order(old(self)@.polls) ==> all_in_order(final(self)@.polls),
    {
        let starts = match command.kind() {
            CommandKind::StartPoll => acknowledged,
            CommandKind::Unrecognized => false,
        };
        if !starts {
            let actions: Vec<Action> = Vec::new();
            assert(action_views(actions@) =~= Seq::empty());
            return actions;
        }
        self.polls.start_new(command.user, command.channel)
    }

    /// The program has carried out an `Action::PostPoll` for the poll of
    /// `user`, or tried to: `delivered` tells whether the post went through.
    /// Where it did, the poll leaves the preparation. Where it did not, the
    /// poll stays as it is and the result is `AdapterError`.
    pub fn posted(&mut self, user: u64, delivered: bool) -> (r: Result<(), PollError>)
        ensures
            final(self)@ == old(self)@.after_post(user, delivered),
            r == post_outcome(delivered),
            all_in_order(old(self)@.polls) ==> all_in_order(final(self)@.polls),
    {
        self.polls.posted(user, delivered)
    }
}

} // verus!
