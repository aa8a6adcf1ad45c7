//! What holds of polls and of their preparation, whatever the inputs.

use vstd::prelude::*;

use crate::action::ActionView;
use crate::icons::{indicator, lemma_indicator_injective};
use crate::polls::{
    after_post, all_in_order, is_done, lemma_next_icon, lower, post_outcome, responded, response,
    started, GameView, PollError, PollView, NO_POLL,
};

verus! {

/// In a poll that uses the markers in order, no two options share a marker.
pub proof fn lemma_markers_distinct(poll: PollView)
    requires
        poll.in_order(),
    ensures
        forall|i: int, j: int|
            0 <= i < j < poll.options.len() ==> poll.options[i].icon != poll.options[j].icon,
{
    assert forall|i: int, j: int| 0 <= i < j < poll.options.len() implies poll.options[i].icon
        != poll.options[j].icon by {
        if poll.options[i].icon == poll.options[j].icon {
            lemma_indicator_injective(i, j);
        }
    }
}

/// Up to twenty-six options, added one after the other to a new poll, all
/// go in. Each keeps its name and gets the marker at its own position in the
/// alphabet, so no two of them share a marker.
pub proof fn lemma_markers_follow_alphabet(author: u64, channel: u64, names: Seq<Seq<char>>)
    requires
        names.len() <= 26,
    ensures
        PollView::empty(author, channel).with_games(names) matches Some(poll) && {
            &&& poll.author == author
            &&& poll.channel == channel
            &&& poll.in_order()
            &&& poll.options.len() == names.len()
            &&& forall|i: int|
                0 <= i < names.len() ==> #[trigger] poll.options[i] == (GameView {
                    name: names[i],
                    icon: indicator(i),
                })
            &&& forall|i: int, j: int|
                0 <= i < j < names.len() ==> poll.options[i].icon != poll.options[j].icon
        },
    decreases names.len(),
{
    let start = PollView::empty(author, channel);
    if names.len() > 0 {
        lemma_markers_follow_alphabet(author, channel, names.drop_last());
        let before = start.with_games(names.drop_last())->Some_0;
        lemma_next_icon(before);
        let poll = before.with_game(names.last())->Some_0;
        assert(start.with_games(names) == Some(poll));
        assert forall|i: int| 0 <= i < names.len() implies #[trigger] poll.options[i] == (GameView {
            name: names[i],
            icon: indicator(i),
        }) by {
            if i < names.len() - 1 {
                assert(poll.options[i] == before.options[i]);
                assert(names[i] == names.drop_last()[i]);
            }
        }
        lemma_markers_distinct(poll);
    }
}

/// A poll that uses the markers in order and has twenty-six options takes
/// no further option.
pub proof fn lemma_full_poll_takes_no_more(poll: PollView, name: Seq<char>)
    requires
        poll.in_order(),
        poll.options.len() == 26,
    ensures
        poll.with_game(name) is None,
{
    lemma_next_icon(poll);
}

/// The name of a further option, sent by the author of a poll that uses the
/// markers in order and has twenty-six options, is refused with
/// `TooManyOptions`, and every poll stays as it is.
pub proof fn lemma_full_poll_refuses(polls: Map<u64, PollView>, user: u64, text: Seq<char>)
    requires
        polls.contains_key(user),
        polls[user].in_order(),
        polls[user].options.len() == 26,
        !is_done(text),
    ensures
        responded(polls, user, text) == polls,
        responded(polls, user, text)[user].options.len() == 26,
        response(polls, user, text) == Err::<Seq<ActionView>, PollError>(
            PollError::TooManyOptions,
        ),
{
    lemma_next_icon(polls[user]);
}

/// A private message from a user who prepares no poll changes no poll, and
/// the user is told that there is none.
pub proof fn lemma_without_poll_nothing_changes(
    polls: Map<u64, PollView>,
    user: u64,
    text: Seq<char>,
)
    requires
        !polls.contains_key(user),
    ensures
        responded(polls, user, text) == polls,
        response(polls, user, text) == Ok::<Seq<ActionView>, PollError>(
            seq![ActionView::Reply { text: NO_POLL@ }],
        ),
{
}

/// A user who says "done" is answered with the post of the user's poll, and
/// the poll stays where it is until the post is known to have gone through.
/// Once it has, the poll is gone, and the user's next private message,
/// whatever it says, finds no poll.
pub proof fn lemma_done_ends_preparation(
    polls: Map<u64, PollView>,
    user: u64,
    done: Seq<char>,
    next: Seq<char>,
)
    requires
        polls.contains_key(user),
        is_done(done),
    ensures
        response(polls, user, done) == Ok::<Seq<ActionView>, PollError>(seq![polls[user].post()]),
        responded(polls, user, done) == polls,
        post_outcome(true) is Ok,
        !after_post(responded(polls, user, done), user, true).contains_key(user),
        responded(after_post(responded(polls, user, done), user, true), user, next) == after_post(
            polls,
            user,
            true,
        ),
        response(after_post(responded(polls, user, done), user, true), user, next) == Ok::<
            Seq<ActionView>,
            PollError,
        >(seq![ActionView::Reply { text: NO_POLL@ }]),
{
}

/// A poll whose post did not go through is still in preparation, with the
/// options that it had, and the failure is an `AdapterError`: both by the
/// step that takes the outcome and by the action itself.
pub proof fn lemma_failed_post_keeps_the_poll(polls: Map<u64, PollView>, user: u64, done: Seq<char>)
    requires
        polls.contains_key(user),
        is_done(done),
    ensures
        after_post(responded(polls, user, done), user, false) == polls,
        post_outcome(false) == Err::<(), PollError>(PollError::AdapterError),
        polls[user].post().settled(false) == Err::<(), PollError>(PollError::AdapterError),
        polls[user].post().settled(true) == post_outcome(true),
{
}

/// The post of a poll leaves the polls of all other users as they are,
/// however it went.
pub proof fn lemma_post_touches_one_poll(
    polls: Map<u64, PollView>,
    user: u64,
    delivered: bool,
    other: u64,
)
    requires
        other != user,
    ensures
        after_post(polls, user, delivered).contains_key(other) == polls.contains_key(other),
        polls.contains_key(other) ==> after_post(polls, user, delivered)[other] == polls[other],
        all_in_order(polls) ==> all_in_order(after_post(polls, user, delivered)),
{
}

/// Whether a text says "done" does not depend on the case of its letters.
pub proof fn lemma_done_ignores_case(a: Seq<char>, b: Seq<char>)
    requires
        a.len() == b.len(),
        forall|i: int| 0 <= i < a.len() ==> lower(a[i]) == lower(b[i]),
    ensures
        is_done(a) == is_done(b),
{
    assert(a.map_values(|c: char| lower(c)) =~= b.map_values(
        |c: char| lower(c),
    ));
}

/// A user who starts a poll has an empty one for the given channel,
/// whatever the user had before, and nobody else's poll has changed.
pub proof fn lemma_start_replaces_only_the_users_poll(
    polls: Map<u64, PollView>,
    user: u64,
    channel: u64,
    other: u64,
)
    requires
        other != user,
    ensures
        started(polls, user, channel).contains_key(user),
        started(polls, user, channel)[user] == PollView::empty(user, channel),
        started(polls, user, channel).contains_key(other) == polls.contains_key(other),
        polls.contains_key(other) ==> started(polls, user, channel)[other] == polls[other],
        all_in_order(polls) ==> all_in_order(started(polls, user, channel)),
{
}

/// A private message that does not say "done" keeps the poll of its author:
/// the poll's author, channel and options stay, and at most one option is
/// added behind them.
pub proof fn lemma_options_are_kept(polls: Map<u64, PollView>, user: u64, text: Seq<char>)
    requires
        polls.contains_key(user),
        !is_done(text),
    ensures
        responded(polls, user, text).contains_key(user),
        responded(polls, user, text)[user].author == polls[user].author,
        responded(polls, user, text)[user].channel == polls[user].channel,
        polls[user].options.is_prefix_of(responded(polls, user, text)[user].options),
        responded(polls, user, text)[user].options.len() <= polls[user].options.len() + 1,
{
}

/// A private message of one user leaves the polls of all others as they are.
pub proof fn lemma_other_polls_untouched(
    polls: Map<u64, PollView>,
    user: u64,
    text: Seq<char>,
    other: u64,
)
    requires
        other != user,
    ensures
        responded(polls, user, text).contains_key(other) == polls.contains_key(other),
        polls.contains_key(other) ==> responded(polls, user, text)[other] == polls[other],
{
}

/// Where every poll uses the markers in order, every poll does so after any
/// private message.
pub proof fn lemma_messages_keep_the_order(polls: Map<u64, PollView>, user: u64, text: Seq<char>)
    requires
        all_in_order(polls),
    ensures
        all_in_order(responded(polls, user, text)),
{
    if polls.contains_key(user) && !is_done(text) {
        lemma_next_icon(polls[user]);
    }
}

} // verus!
