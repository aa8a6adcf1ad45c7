use dalbozz::action::Action;
use dalbozz::event::{CommandKind, IncomingMessage, SlashCommand};
use dalbozz::handler::{Handler, MessagePlan, POLL_IS_FULL};
use dalbozz::polls::{PollError, NO_POLL};
use dalbozz::whimsy::{add_reaction_emoji, ping, whoami};

fn message(author: u64, content: &str, private: bool) -> IncomingMessage {
    IncomingMessage {
        author,
        author_name: format!("user{}", author),
        channel: 500 + author,
        content: content.to_string(),
        private,
    }
}

fn command(user: u64, channel: u64) -> SlashCommand {
    SlashCommand { id: 9000, name: "lfg".to_string(), token: "token".to_string(), user, channel }
}

fn nothing() -> MessagePlan {
    MessagePlan { whimsy: vec![], poll: vec![] }
}

#[test]
fn ping_gets_pong_in_the_same_channel() {
    assert_eq!(
        ping(&message(3, "!ping", false)),
        Some(Action::SendChannelMessage { channel: 503, text: "Pong!".to_string(), reactions: vec![] })
    );
    assert_eq!(ping(&message(3, "!ping ", false)), None);
    assert_eq!(ping(&message(3, "ping", false)), None);
    assert_eq!(ping(&message(3, "!PING", false)), None);
    assert_eq!(ping(&message(3, "", false)), None);
}

#[test]
fn whoami_names_the_author_in_private() {
    assert_eq!(
        whoami(&message(3, "!whoami", false)),
        Some(Action::SendDirectMessage { user: 3, text: "You are user3".to_string() })
    );
    assert_eq!(whoami(&message(3, "!whoami?", true)), None);
    assert_eq!(whoami(&message(3, "whoami", true)), None);
}

#[test]
fn animals_get_reactions() {
    let egg = Action::React { emoji: "\u{1F95A}".to_string() };
    let gem = Action::React { emoji: "\u{1F48E}".to_string() };
    assert_eq!(add_reaction_emoji(&message(3, "no animals", false)), vec![]);
    assert_eq!(add_reaction_emoji(&message(3, "a \u{1F414}!", false)), vec![egg.clone()]);
    assert_eq!(add_reaction_emoji(&message(3, "\u{1F434}", false)), vec![gem.clone()]);
    assert_eq!(
        add_reaction_emoji(&message(3, "\u{1F434}\u{1F414}\u{1F414}", false)),
        vec![egg, gem]
    );
    assert_eq!(add_reaction_emoji(&message(3, "\u{1F95A}", false)), vec![]);
}

#[test]
fn a_new_handler_knows_nothing() {
    let handler = Handler::new();
    assert_eq!(handler.bot_user(), None);
    assert_eq!(handler.polls().len(), 0);
}

#[test]
fn the_bot_ignores_its_own_messages() {
    let mut handler = Handler::new();
    handler.ready(99);
    assert_eq!(handler.bot_user(), Some(99));
    handler.interaction_create(&command(99, 7), true);
    assert_eq!(handler.message(&message(99, "!ping", false)), nothing());
    assert_eq!(handler.message(&message(99, "Chess \u{1F414}", true)), nothing());
    assert!(handler.polls().get(99).unwrap().games().is_empty());
}

#[test]
fn a_public_message_is_no_step_of_a_poll() {
    let mut handler = Handler::new();
    handler.ready(99);
    handler.interaction_create(&command(1, 7), true);
    assert_eq!(handler.message(&message(1, "Chess", false)), nothing());
    assert_eq!(handler.message(&message(1, "done", false)), nothing());
    assert!(handler.polls().get(1).unwrap().games().is_empty());
    assert_eq!(
        handler.message(&message(1, "!ping", false)),
        MessagePlan {
            whimsy: vec![Action::SendChannelMessage {
                channel: 501,
                text: "Pong!".to_string(),
                reactions: vec![],
            }],
            poll: vec![],
        }
    );
}

#[test]
fn a_private_message_without_a_poll_is_answered() {
    let mut handler = Handler::new();
    handler.ready(99);
    assert_eq!(
        handler.message(&message(1, "!whoami", true)),
        MessagePlan {
            whimsy: vec![Action::SendDirectMessage { user: 1, text: "You are user1".to_string() }],
            poll: vec![Action::Reply { text: NO_POLL.to_string() }],
        }
    );
    assert_eq!(handler.polls().len(), 0);
}

#[test]
fn small_talk_comes_in_order() {
    let mut handler = Handler::new();
    let plan = handler.message(&message(1, "\u{1F434} and \u{1F414}", false));
    assert_eq!(
        plan.whimsy,
        vec![
            Action::React { emoji: "\u{1F95A}".to_string() },
            Action::React { emoji: "\u{1F48E}".to_string() },
        ]
    );
    assert_eq!(plan.poll, vec![]);
}

#[test]
fn a_slash_command_starts_a_poll_once_acknowledged() {
    let mut handler = Handler::new();
    handler.ready(99);
    assert_eq!(handler.interaction_create(&command(1, 7), false), vec![]);
    assert_eq!(handler.polls().len(), 0);
    let actions = handler.interaction_create(&command(1, 7), true);
    assert_eq!(
        actions,
        vec![
            Action::SendChannelMessage {
                channel: 7,
                text: "<@1> has started a new LFG.  When done, it will be posted to this channel"
                    .to_string(),
                reactions: vec![],
            },
            Action::SendDirectMessage {
                user: 1,
                text: "It looks like you're using LFG.  Reply with the name of each game in the poll, then reply 'Done'."
                    .to_string(),
            },
        ]
    );
    assert_eq!(handler.polls().get(1).unwrap().channel_to_post(), 7);
    handler.message(&message(1, "Chess", true));
    assert_eq!(handler.interaction_create(&command(1, 8), false), vec![]);
    assert_eq!(handler.polls().get(1).unwrap().games().len(), 1);
    assert_eq!(handler.polls().get(1).unwrap().channel_to_post(), 7);
}

#[test]
fn command_message_done() {
    let mut handler = Handler::new();
    handler.ready(99);
    handler.interaction_create(&command(1, 7), true);
    let plan = handler.message(&message(1, "Catan", true));
    assert_eq!(plan.whimsy, vec![]);
    assert_eq!(
        plan.poll,
        vec![
            Action::SendDirectMessage {
                user: 1,
                text: "The poll will show up as follows.\n> <@1> is looking for a group. Game options are:\n\u{1F1E6} Catan\nReply \"done\" to finish, or reply with another game for the poll.\n"
                    .to_string(),
            },
            Action::DeleteMessage,
        ]
    );
    let plan = handler.message(&message(1, "Done", true));
    assert_eq!(
        plan,
        MessagePlan {
            whimsy: vec![],
            poll: vec![Action::PostPoll {
                user: 1,
                channel: 7,
                text: "<@1> is looking for a group. Game options are:\n\u{1F1E6} Catan".to_string(),
                reactions: vec!["\u{1F1E6}".to_string()],
            }],
        }
    );
    assert_eq!(handler.polls().get(1).unwrap().games().len(), 1);
    assert_eq!(handler.posted(1, false), Err(PollError::AdapterError));
    assert_eq!(handler.polls().get(1).unwrap().games().len(), 1);
    assert_eq!(handler.posted(1, true), Ok(()));
    assert!(handler.polls().get(1).is_none());
    let plan = handler.message(&message(1, "Done", true));
    assert_eq!(plan.poll, vec![Action::Reply { text: NO_POLL.to_string() }]);
}

#[test]
fn a_full_poll_is_reported_to_its_author() {
    let mut handler = Handler::new();
    handler.ready(99);
    handler.interaction_create(&command(1, 7), true);
    for i in 0..26 {
        let plan = handler.message(&message(1, &format!("game {}", i), true));
        assert_eq!(plan.poll.len(), 2);
    }
    let plan = handler.message(&message(1, "one too many", true));
    assert_eq!(plan.poll, vec![Action::Reply { text: POLL_IS_FULL.to_string() }]);
    assert_eq!(handler.polls().get(1).unwrap().games().len(), 26);
}

#[test]
fn a_handler_that_is_not_ready_takes_every_author_for_a_stranger() {
    let mut handler = Handler::new();
    let plan = handler.message(&message(99, "!ping", true));
    assert_eq!(plan.whimsy.len(), 1);
    assert_eq!(plan.poll, vec![Action::Reply { text: NO_POLL.to_string() }]);
}

#[test]
fn an_unknown_command_is_ignored() {
    let mut handler = Handler::new();
    handler.ready(99);
    for name in ["", "LFG", "lfg ", "poll", "lfgx"] {
        let mut other = command(1, 7);
        other.name = name.to_string();
        assert_eq!(other.kind(), CommandKind::Unrecognized);
        assert_eq!(handler.interaction_create(&other, true), vec![]);
        assert_eq!(handler.interaction_create(&other, false), vec![]);
        assert_eq!(handler.polls().len(), 0);
    }
    assert_eq!(command(1, 7).kind(), CommandKind::StartPoll);
    handler.interaction_create(&command(1, 7), true);
    handler.message(&message(1, "Chess", true));
    let mut other = command(1, 8);
    other.name = "other".to_string();
    assert_eq!(handler.interaction_create(&other, true), vec![]);
    assert_eq!(handler.polls().get(1).unwrap().channel_to_post(), 7);
    assert_eq!(handler.polls().get(1).unwrap().games().len(), 1);
}

#[test]
fn the_bot_knows_its_own_messages_once_ready() {
    let mut handler = Handler::new();
    assert!(!handler.wrote(&message(99, "hello", false)));
    handler.ready(99);
    assert!(handler.wrote(&message(99, "hello", false)));
    assert!(!handler.wrote(&message(98, "hello", false)));
}
