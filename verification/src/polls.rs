//! Polls in preparation: one per user, filled one private message at a time,
//! posted when the user says "done", and gone once the post went through.

use std::collections::HashMap;
use vstd::prelude::*;
use vstd::std_specs::hash::*;

use crate::action::{action_views, Action, ActionView};
use crate::builder::{build, mention, new_builder, push, push_line, push_quote_line, user_mention};
use crate::icons::{
    allocate, first_free, indicator, is_first_free, lemma_first_free_unique,
    lemma_indicator_injective,
};
use crate::text::{chars_of, join, joined, texts};

verus! {

/// Follows the mention of a user in the announcement of a new poll.
pub const STARTED: &'static str = " has started a new LFG.  ";

/// Ends the announcement of a new poll.
pub const WILL_BE_POSTED: &'static str = "When done, it will be posted to this channel";

/// Sent in private to a user who has just started a poll.
pub const INSTRUCTIONS: &'static str =
    "It looks like you're using LFG.  Reply with the name of each game in the poll, then reply 'Done'.";

/// The answer to a private message from a user who prepares no poll.
pub const NO_POLL: &'static str = "You aren't currently preparing any polls.";

/// Follows the mention of the author in a poll's text.
pub const LOOKING: &'static str = " is looking for a group. ";

/// Stands before the options in a poll's text.
pub const OPTIONS_ARE: &'static str = "Game options are:\n";

/// The first line of a preview.
pub const PREVIEW_HEAD: &'static str = "The poll will show up as follows.";

/// The last line of a preview.
pub const PREVIEW_FOOT: &'static str =
    "Reply \"done\" to finish, or reply with another game for the poll.";

/// Why a step of a poll's preparation did not go through.
#[derive(Clone, Copy, Debug, PartialEq, Eq, Structural)]
pub enum PollError {
    /// The poll already uses every marker of the alphabet.
    TooManyOptions,
    /// The chat platform refused or failed to carry out an action.
    AdapterError,
}

/// The mathematical view of one option of a poll.
pub struct GameView {
    pub name: Seq<char>,
    pub icon: Seq<char>,
}

/// The mathematical view of a poll in preparation.
pub struct PollView {
    /// The user who started the poll.
    pub author: u64,
    /// The channel that the finished poll goes to.
    pub channel: u64,
    /// The options, in the order in which they were added.
    pub options: Seq<GameView>,
}

impl GameView {
    /// The option's line in a poll's text: its marker, a space, its name.
    pub open spec fn line(self) -> Seq<char> {
        self.icon + seq![' '] + self.name
    }
}

impl PollView {
    /// A poll without options.
    pub open spec fn empty(author: u64, channel: u64) -> PollView {
        PollView { author, channel, options: Seq::empty() }
    }

    /// The markers of the options, in order.
    pub open spec fn icons(self) -> Seq<Seq<char>> {
        Seq::new(self.options.len(), |i: int| self.options[i].icon)
    }

    /// The lines of the options, in order.
    pub open spec fn lines(self) -> Seq<Seq<char>> {
        Seq::new(self.options.len(), |i: int| self.options[i].line())
    }

    /// The options carry the markers of the alphabet in order, from the
    /// first one on. Every poll that this library hands out is of this form.
    pub open spec fn in_order(self) -> bool {
        &&& self.options.len() <= 26
        &&& forall|i: int|
            0 <= i < self.options.len() ==> (#[trigger] self.options[i]).icon == indicator(i)
    }

    /// The poll with one more option called `name`, which gets the first
    /// marker of the alphabet that no option has yet; `None` where every
    /// marker is taken.
    pub open spec fn with_game(self, name: Seq<char>) -> Option<PollView> {
        match first_free(self.icons().to_set()) {
            Some(icon) => Some(
                PollView { options: self.options.push(GameView { name, icon }), ..self },
            ),
            None => None,
        }
    }

    /// The poll after adding an option for each of `names` in turn; `None`
    /// where one of them found every marker taken.
    pub open spec fn with_games(self, names: Seq<Seq<char>>) -> Option<PollView>
        decreases names.len(),
    {
        if names.len() == 0 {
            Some(self)
        } else {
            match self.with_games(names.drop_last()) {
                Some(poll) => poll.with_game(names.last()),
                None => None,
            }
        }
    }

    /// The poll as it is posted: the mention of its author, the fixed
    /// phrase, and one line per option.
    pub open spec fn text(self) -> Seq<char> {
        user_mention(self.author) + LOOKING@ + OPTIONS_ARE@ + joined(self.lines(), seq!['\n'])
    }

    /// What the author sees after adding an option: a heading, the poll's
    /// text as a quote, and how to go on.
    pub open spec fn preview(self) -> Seq<char> {
        PREVIEW_HEAD@ + seq!['\n'] + seq!['>', ' '] + self.text() + seq!['\n'] + PREVIEW_FOOT@
            + seq!['\n']
    }

    /// The action that posts the poll: its text goes to the poll's channel,
    /// with one reaction per option, the option's marker.
    pub open spec fn post(self) -> ActionView {
        ActionView::PostPoll {
            user: self.author,
            channel: self.channel,
            text: self.text(),
            reactions: self.icons(),
        }
    }

    /// The action that shows the preview to the author.
    pub open spec fn menu(self) -> ActionView {
        ActionView::SendDirectMessage { user: self.author, text: self.preview() }
    }
}

/// In a poll whose markers are in order, the next marker is the one at the
/// position that equals the number of options, and there is none once the
/// poll has twenty-six options.
pub proof fn lemma_next_icon(poll: PollView)
    requires
        poll.in_order(),
    ensures
        poll.options.len() < 26 ==> first_free(poll.icons().to_set()) == Some(
            indicator(poll.options.len() as int),
        ),
        poll.options.len() == 26 ==> first_free(poll.icons().to_set()) is None,
{
    let used = poll.icons().to_set();
    let n = poll.options.len() as int;
    assert forall|i: int| 0 <= i < n implies used.contains(#[trigger] indicator(i)) by {
        assert(poll.icons()[i] == indicator(i));
    }
    if n < 26 {
        if used.contains(indicator(n)) {
            let j = choose|j: int| 0 <= j < poll.icons().len() && poll.icons()[j] == indicator(n);
            assert(poll.options[j].icon == indicator(j));
            lemma_indicator_injective(j, n);
        }
        assert(is_first_free(used, n));
        lemma_first_free_unique(used, choose|c: int| is_first_free(used, c), n);
    } else {
        assert forall|c: int| !is_first_free(used, c) by {
            if 0 <= c < 26 {
                assert(used.contains(indicator(c)));
            }
        }
    }
}

/// One option of a poll.
#[derive(Clone, Debug, PartialEq, Eq)]
pub struct UpcomingGame {
    name: String,
    icon: String,
}

impl View for UpcomingGame {
    type V = GameView;

    closed spec fn view(&self) -> GameView {
        GameView { name: self.name@, icon: self.icon@ }
    }
}

impl UpcomingGame {
    /// The option's name, as its author wrote it.
    pub fn name(&self) -> (name: &str)
        ensures
            name@ == self@.name,
    {
        self.name.as_str()
    }

    /// The option's marker.
    pub fn icon(&self) -> (icon: &str)
        ensures
            icon@ == self@.icon,
    {
        self.icon.as_str()
    }
}

/// The view of each option of `games`, in order.
pub open spec fn game_views(games: Seq<UpcomingGame>) -> Seq<GameView> {
    Seq::new(games.len(), |i: int| games[i]@)
}

/// A poll in preparation.
#[derive(Clone, Debug, PartialEq, Eq)]
pub struct UpcomingPoll {
    author: u64,
    channel_to_post: u64,
    games: Vec<UpcomingGame>,
}

impl View for UpcomingPoll {
    type V = PollView;

    closed spec fn view(&self) -> PollView {
        PollView {
            author: self.author,
            channel: self.channel_to_post,
            options: game_views(self.games@),
        }
    }
}

impl UpcomingPoll {
    /// A poll without options, started by `author` for `channel`.
    pub fn new(author: u64, channel: u64) -> (poll: UpcomingPoll)
        ensures
            poll@ == PollView::empty(author, channel),
            poll@.in_order(),
    {
        let poll = UpcomingPoll { author, channel_to_post: channel, games: Vec::new() };
        assert(poll@.options =~= Seq::empty());
        poll
    }

    /// The user who started the poll.
    pub fn author(&self) -> (author: u64)
        ensures
            author == self@.author,
    {
        self.author
    }

    /// The channel that the finished poll goes to.
    pub fn channel_to_post(&self) -> (channel: u64)
        ensures
            channel == self@.channel,
    {
        self.channel_to_post
    }

    /// The options, in the order in which they were added.
    pub fn games(&self) -> (games: &Vec<UpcomingGame>)
        ensures
            game_views(games@) == self@.options,
    {
        &self.games
    }

    /// Adds an option called `game_name`, under the first marker of the
    /// alphabet that the poll does not use yet. Where every marker is in use
    /// the poll takes no more and stays as it is.
    ///
    /// A poll that was filled by this function alone uses the markers in
    /// order. Then the new marker is the one at the position that equals the
    /// number of options so far, and the poll is full at twenty-six options.
    pub fn add_game(&mut self, game_name: &str) -> (r: Result<(), PollError>)
        ensures
            match old(self)@.with_game(game_name@) {
                Some(poll) => r is Ok && final(self)@ == poll,
                None => r == Err::<(), PollError>(PollError::TooManyOptions) && final(self)@ == old(
                    self,
                )@,
            },
            old(self)@.in_order() ==> {
                &&& final(self)@.in_order()
                &&& r is Ok <==> old(self)@.options.len() < 26
                &&& r is Ok ==> final(self)@.options == old(self)@.options.push(
                    GameView {
                        name: game_name@,
                        icon: indicator(old(self)@.options.len() as int),
                    },
                )
            },
    {
        proof {
            if self@.in_order() {
                lemma_next_icon(self@);
            }
        }
        let used = self.icons();
        match allocate(&used) {
            Err(e) => Err(e),
            Ok(icon) => {
                let ghost before = self@;
                let ghost marker = icon@;
                self.games.push(UpcomingGame { name: String::from_str(game_name), icon });
                assert(self@.options =~= before.options.push(
                    GameView { name: game_name@, icon: marker },
                ));
                Ok(())
            },
        }
    }

    /// The markers of the options, in order.
    pub fn icons(&self) -> (icons: Vec<String>)
        ensures
            texts(icons@) == self@.icons(),
    {
        let mut icons: Vec<String> = Vec::new();
        let mut i: usize = 0;
        while i < self.games.len()
            invariant
                i <= self.games.len(),
                icons.len() == i,
                texts(icons@) == self@.icons().subrange(0, i as int),
            decreases self.games.len() - i,
        {
            let ghost before = icons@;
            let icon = self.games[i].icon.clone();
            assert(icon@ == self@.icons()[i as int]);
            icons.push(icon);
            assert(forall|j: int| 0 <= j < i ==> texts(icons@)[j] == texts(before)[j]);
            i += 1;
            assert(texts(icons@) =~= self@.icons().subrange(0, i as int));
        }
        assert(texts(icons@) == self@.icons());
        icons
    }

    /// The poll as it is posted: the mention of the author, the fixed phrase
    /// and one line per option, its marker before its name. The lines are
    /// separated by line feeds; a poll without options ends after the phrase.
    pub fn poll_text(&self) -> (text: String)
        ensures
            text@ == self@.text(),
    {
        let mut lines: Vec<String> = Vec::new();
        let mut i: usize = 0;
        while i < self.games.len()
            invariant
                i <= self.games.len(),
                lines.len() == i,
                texts(lines@) == self@.lines().subrange(0, i as int),
            decreases self.games.len() - i,
        {
            let ghost before = lines@;
            let mut line = self.games[i].icon.clone();
            line.append(" ");
            line.append(self.games[i].name.as_str());
            proof {
                reveal_strlit(" ");
                assert(" "@ =~= seq![' ']);
                assert(line@ == self@.lines()[i as int]);
            }
            lines.push(line);
            assert(forall|j: int| 0 <= j < i ==> texts(lines@)[j] == texts(before)[j]);
            i += 1;
            assert(texts(lines@) =~= self@.lines().subrange(0, i as int));
        }
        assert(texts(lines@) == self@.lines());
        let game_names = join(lines, "\n");
        proof {
            reveal_strlit("\n");
            assert("\n"@ =~= seq!['\n']);
        }
        let mut builder = new_builder();
        mention(&mut builder, self.author);
        push(&mut builder, LOOKING);
        push(&mut builder, OPTIONS_ARE);
        push(&mut builder, game_names.as_str());
        build(&mut builder)
    }

    /// The action that posts the poll to its channel, with one reaction per
    /// option: the option's marker, in the order of the options.
    pub fn post(&self) -> (action: Action)
        ensures
            action@ == self@.post(),
    {
        Action::PostPoll {
            user: self.author,
            channel: self.channel_to_post,
            text: self.poll_text(),
            reactions: self.icons(),
        }
    }

    /// The action that shows the author how the poll will look, and how to
    /// go on with it.
    pub fn show_menu(&self) -> (action: Action)
        ensures
            action@ == self@.menu(),
    {
        let text = self.poll_text();
        let mut builder = new_builder();
        push_line(&mut builder, PREVIEW_HEAD);
        push_quote_line(&mut builder, text.as_str());
        push_line(&mut builder, PREVIEW_FOOT);
        let reply = build(&mut builder);
        assert(reply@ =~= self@.preview());
        Action::SendDirectMessage { user: self.author, text: reply }
    }
}

/// The lower-case form of an upper-case letter of the basic Latin alphabet;
/// every other character as it is.
pub open spec fn lower(c: char) -> char {
    if 'A' <= c <= 'Z' {
        ((c as int) + 32) as char
    } else {
        c
    }
}

/// Whether a private message ends the preparation of a poll: it is the word
/// "done" and nothing else, in any mix of upper and lower case.
pub open spec fn is_done(text: Seq<char>) -> bool {
    text.map_values(|c: char| lower(c)) == seq!['d', 'o', 'n', 'e']
}

/// What is posted to a channel when `user` starts a poll for it.
pub open spec fn announcement(user: u64) -> Seq<char> {
    user_mention(user) + STARTED@ + WILL_BE_POSTED@
}

/// Every poll of `polls` uses the markers in order.
pub open spec fn all_in_order(polls: Map<u64, PollView>) -> bool {
    forall|user: u64| polls.contains_key(user) ==> (#[trigger] polls[user]).in_order()
}

/// The polls after `user` has started one for `channel`: the user has an
/// empty poll, whatever the user had before; nobody else's poll has changed.
pub open spec fn started(polls: Map<u64, PollView>, user: u64, channel: u64) -> Map<
    u64,
    PollView,
> {
    polls.insert(user, PollView::empty(user, channel))
}

/// What the start of a poll asks of the chat platform: the announcement in
/// the channel, then the instructions to the user in private.
pub open spec fn start_actions(user: u64, channel: u64) -> Seq<ActionView> {
    seq![
        ActionView::SendChannelMessage {
            channel,
            text: announcement(user),
            reactions: Seq::empty(),
        },
        ActionView::SendDirectMessage { user, text: INSTRUCTIONS@ },
    ]
}

/// The polls after a private message `text` from `user`.
///
/// - A user without a poll changes nothing.
/// - "done" changes nothing either: the poll stays until it is known to be
///   posted, see `after_post`.
/// - Any other text is the name of a new option of the user's poll, unless
///   the poll is full, which changes nothing.
pub open spec fn responded(polls: Map<u64, PollView>, user: u64, text: Seq<char>) -> Map<
    u64,
    PollView,
> {
    if !polls.contains_key(user) || is_done(text) {
        polls
    } else {
        match polls[user].with_game(text) {
            Some(poll) => polls.insert(user, poll),
            None => polls,
        }
    }
}

/// The polls once the chat platform has tried to post the poll of `user`:
/// where the post went through, the user's poll is gone; where it did not,
/// every poll is where it was.
pub open spec fn after_post(polls: Map<u64, PollView>, user: u64, delivered: bool) -> Map<
    u64,
    PollView,
> {
    if delivered {
        polls.remove(user)
    } else {
        polls
    }
}

/// What the attempt to post a poll comes to: a post that did not go through
/// is an `AdapterError`.
pub open spec fn post_outcome(delivered: bool) -> Result<(), PollError> {
    if delivered {
        Ok(())
    } else {
        Err(PollError::AdapterError)
    }
}

/// What a private message `text` from `user` asks of the chat platform.
///
/// - A user without a poll is told so.
/// - "done" posts the user's poll.
/// - Any other text shows the user the poll with its new option, and then
///   deletes the user's message; on a full poll it is `TooManyOptions`.
pub open spec fn response(polls: Map<u64, PollView>, user: u64, text: Seq<char>) -> Result<
    Seq<ActionView>,
    PollError,
> {
    if !polls.contains_key(user) {
        Ok(seq![ActionView::Reply { text: NO_POLL@ }])
    } else if is_done(text) {
        Ok(seq![polls[user].post()])
    } else {
        match polls[user].with_game(text) {
            Some(poll) => Ok(seq![poll.menu(), ActionView::DeleteMessage]),
            None => Err(PollError::TooManyOptions),
        }
    }
}

/// The mathematical view of the result of handling a private message.
pub open spec fn outcome_view(r: Result<Vec<Action>, PollError>) -> Result<
    Seq<ActionView>,
    PollError,
> {
    match r {
        Ok(actions) => Ok(action_views(actions@)),
        Err(e) => Err(e),
    }
}

/// Whether `text` is the word "done" and nothing else, in any mix of upper
/// and lower case.
pub fn says_done(text: &str) -> (r: bool)
    ensures
        r == is_done(text@),
{
    let chars = chars_of(text);
    let ghost lowered = text@.map_values(|c: char| lower(c));
    if chars.len() != 4 {
        assert(lowered.len() != seq!['d', 'o', 'n', 'e'].len());
        return false;
    }
    let d = chars[0] == 'd' || chars[0] == 'D';
    let o = chars[1] == 'o' || chars[1] == 'O';
    let n = chars[2] == 'n' || chars[2] == 'N';
    let e = chars[3] == 'e' || chars[3] == 'E';
    let r = d && o && n && e;
    proof {
        assert(lowered[0] == lower(text@[0]));
        assert(lowered[1] == lower(text@[1]));
        assert(lowered[2] == lower(text@[2]));
        assert(lowered[3] == lower(text@[3]));
        if r {
            assert(lowered =~= seq!['d', 'o', 'n', 'e']);
        }
    }
    r
}

/// The polls in preparation, at most one per user.
pub struct Polls {
    upcoming: HashMap<u64, UpcomingPoll>,
}

impl View for Polls {
    type V = Map<u64, PollView>;

    closed spec fn view(&self) -> Map<u64, PollView> {
        self.upcoming@.map_values(|poll: UpcomingPoll| poll@)
    }
}

impl Polls {
    /// No polls.
    pub fn new() -> (polls: Polls)
        ensures
            polls@ == Map::<u64, PollView>::empty(),
    {
        let polls = Polls { upcoming: HashMap::new() };
        assert(polls@ =~= Map::<u64, PollView>::empty());
        polls
    }

    /// The poll that `user` prepares, if any.
    pub fn get(&self, user: u64) -> (poll: Option<&UpcomingPoll>)
        ensures
            match poll {
                Some(found) => self@.contains_key(user) && self@[user] == found@,
                None => !self@.contains_key(user),
            },
    {
        broadcast use group_hash_axioms;

        self.upcoming.get(&user)
    }

    /// How many users prepare a poll.
    pub fn len(&self) -> (n: usize)
        ensures
            n == self@.len(),
            self@.dom().finite(),
    {
        broadcast use group_hash_axioms;

        proof {
            let polls = self.upcoming@;
            assert(self@.dom() =~= polls.dom());
        }
        self.upcoming.len()
    }

    /// Starts a poll of `user` that will go to `channel`, in place of any
    /// poll that the user was preparing. Returns what to tell the chat
    /// platform: the announcement for the channel and the instructions for
    /// the user. The poll is there whether or not these arrive.
    pub fn start_new(&mut self, user: u64, channel: u64) -> (actions: Vec<Action>)
        ensures
            final(self)@ == started(old(self)@, user, channel),
            action_views(actions@) == start_actions(user, channel),
            all_in_order(old(self)@) ==> all_in_order(final(self)@),
    {
        broadcast use group_hash_axioms;

        let mut builder = new_builder();
        mention(&mut builder, user);
        push(&mut builder, STARTED);
        push(&mut builder, WILL_BE_POSTED);
        let reply = build(&mut builder);

        let mut actions: Vec<Action> = Vec::new();
        actions.push(Action::SendChannelMessage { channel, text: reply, reactions: Vec::new() });
        actions.push(Action::SendDirectMessage { user, text: String::from_str(INSTRUCTIONS) });

        self.upcoming.insert(user, UpcomingPoll::new(user, channel));
        assert(self@ =~= started(old(self)@, user, channel));
        assert(action_views(actions@)[0].arrow_SendChannelMessage_reactions() =~= Seq::empty());
        assert(action_views(actions@) =~= start_actions(user, channel));
        actions
    }

    /// Handles a private message `text` from `user` and returns what to tell
    /// the chat platform.
    ///
    /// - A user who prepares no poll is told so, and nothing changes.
    /// - The word "done", in any mix of upper and lower case, asks for the
    ///   user's poll to be posted to its channel. The poll stays in
    ///   preparation until `posted` is told that the post went through.
    /// - Any other text adds an option of that name to the user's poll,
    ///   shows the user the new state of the poll and deletes the user's
    ///   message. A poll that is full stays as it is, and the result is
    ///   `TooManyOptions`.
    pub fn respond_to_private_message(&mut self, user: u64, text: &str) -> (r: Result<
        Vec<Action>,
        PollError,
    >)
        ensures
            final(self)@ == responded(old(self)@, user, text@),
            outcome_view(r) == response(old(self)@, user, text@),
            all_in_order(old(self)@) ==> all_in_order(final(self)@),
    {
        broadcast use group_hash_axioms;

        let mut actions: Vec<Action> = Vec::new();
        match self.upcoming.remove(&user) {
            None => {
                assert(self@ =~= old(self)@);
                actions.push(Action::Reply { text: String::from_str(NO_POLL) });
                assert(action_views(actions@) =~= seq![ActionView::Reply { text: NO_POLL@ }]);
                Ok(actions)
            },
            Some(mut poll) => {
                assert(old(self)@[user] == poll@);
                if says_done(text) {
                    actions.push(poll.post());
                    assert(action_views(actions@) =~= seq![poll@.post()]);
                    self.upcoming.insert(user, poll);
                    assert(self@ =~= old(self)@);
                    Ok(actions)
                } else {
                    match poll.add_game(text) {
                        Err(e) => {
                            self.upcoming.insert(user, poll);
                            assert(self@ =~= old(self)@);
                            Err(e)
                        },
                        Ok(()) => {
                            actions.push(poll.show_menu());
                            actions.push(Action::DeleteMessage);
                            assert(action_views(actions@) =~= seq![
                                poll@.menu(),
                                ActionView::DeleteMessage,
                            ]);
                            self.upcoming.insert(user, poll);
                            assert(self@ =~= old(self)@.insert(user, poll@));
                            Ok(actions)
                        },
                    }
                }
            },
        }
    }

    /// The chat platform has tried to post the poll of `user`: `delivered`
    /// tells whether the post went through. Where it did, the poll leaves
    /// the preparation. Where it did not, the poll stays as it is, for the
    /// user to say "done" again, and the result is `AdapterError`.
    pub fn posted(&mut self, user: u64, delivered: bool) -> (r: Result<(), PollError>)
        ensures
            final(self)@ == after_post(old(self)@, user, delivered),
            r == post_outcome(delivered),
            delivered ==> final(self)@ == old(self)@.remove(user) && r is Ok,
            !delivered ==> final(self)@ == old(self)@ && r == Err::<(), PollError>(
                PollError::AdapterError,
            ),
            all_in_order(old(self)@) ==> all_in_order(final(self)@),
    {
        broadcast use group_hash_axioms;

        if !delivered {
            return Err(PollError::AdapterError);
        }
        self.upcoming.remove(&user);
        assert(self@ =~= old(self)@.remove(user));
        Ok(())
    }
}

} // verus!
