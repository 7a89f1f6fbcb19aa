//! The chat commands: what the bot asks for and what it answers.

use crate::chat::{
    ask, asks, closes, confirmation_text, discord_id, discord_id_of, end, ends, getting_text,
    linked_text, recommend_error_text, recommendation_text, say, say_text, says, write_confirmation,
    write_getting, write_linked, write_recommend_error, write_recommendation, Author, AuthorView,
    Chat, ChatAction, ChatActionView, ChatEvent, ChatEventView, ChatPhase, ChatView,
    ALREADY_LINKED, CANCELED, CHECK_FAILED, CONFIRMATION_SECONDS, DATABASE_ERROR, DATA_ERROR,
    FETCH_FAILED, GAMES_UPDATED, LINK_FAILED, LINK_USAGE, NOT_LINKED, NO_CONFIRMATION,
    NO_GAMES_FOUND, ONLINE,
    PROFILE_FAILED, RECOMMEND_DATABASE_ERROR, RECOMMEND_NOT_LINKED, STORE_FAILED,
};
use crate::database::db::StoreError;
use crate::llm::LLMClient;
use crate::ranking::{is_stable_sort_by, lemma_is_sorted_by, sorted_by};
use crate::scheduler::SyncOutcome;
use crate::steam::{clone_games, GameView, SteamGame};
use crate::text::{decimal, join, joined, to_decimal};
use vstd::prelude::*;

verus! {

/// Seconds for which games that were read are served again without a new
/// read.
pub const CACHE_SECONDS: u64 = 600;

/// Games read at `fetched_at` may still be served at `now`: they are
/// younger than [`CACHE_SECONDS`], and not from the future.
pub open spec fn is_fresh(fetched_at: u64, now: u64) -> bool {
    fetched_at <= now && now - fetched_at < CACHE_SECONDS
}

/// What the cache holds for one account.
pub struct CachedGames {
    pub games: Seq<GameView>,
    pub fetched_at: u64,
}

struct CacheEntry {
    steam_id: String,
    games: Vec<SteamGame>,
    fetched_at: u64,
}

/// The games last read for each account, with the time of the read. The
/// cache only saves reads: what it holds is never newer than the store.
pub struct GameCache {
    entries: Vec<CacheEntry>,
}

impl GameCache {
    spec fn holds(&self, steam_id: Seq<char>, i: int) -> bool {
        0 <= i < self.entries.len() && self.entries[i].steam_id@ == steam_id
    }

    #[verifier::type_invariant]
    spec fn inv(self) -> bool {
        forall|i: int, j: int|
            0 <= i < j < self.entries.len() ==> (#[trigger] self.entries[i]).steam_id@ != (
            #[trigger] self.entries[j]).steam_id@
    }
}

impl View for GameCache {
    type V = Map<Seq<char>, CachedGames>;

    closed spec fn view(&self) -> Map<Seq<char>, CachedGames> {
        Map::new(
            |steam_id: Seq<char>| exists|i: int| self.holds(steam_id, i),
            |steam_id: Seq<char>|
                {
                    let i = choose|i: int| self.holds(steam_id, i);
                    CachedGames {
                        games: self.entries[i].games.deep_view(),
                        fetched_at: self.entries[i].fetched_at,
                    }
                },
        )
    }
}

/// What the cache serves for `steam_id` at `now`: the games it holds for
/// the account, if they are fresh.
pub open spec fn served(cache: Map<Seq<char>, CachedGames>, steam_id: Seq<char>, now: u64) -> Option<
    Seq<GameView>,
> {
    if cache.contains_key(steam_id) && is_fresh(cache[steam_id].fetched_at, now) {
        Some(cache[steam_id].games)
    } else {
        None
    }
}

impl GameCache {
    /// A cache that holds nothing.
    pub fn new() -> (cache: GameCache)
        ensures
            cache@ == Map::<Seq<char>, CachedGames>::empty(),
    {
        let cache = GameCache { entries: Vec::new() };
        assert(cache@ =~= Map::<Seq<char>, CachedGames>::empty());
        cache
    }

    /// Position of the entry of `steam_id`.
    fn find(&self, steam_id: &String) -> (at: Option<usize>)
        ensures
            match at {
                Some(i) => self.holds(steam_id@, i as int),
                None => forall|i: int| !self.holds(steam_id@, i),
            },
    {
        let mut i: usize = 0;
        while i < self.entries.len()
            invariant
                i <= self.entries.len(),
                forall|k: int| 0 <= k < i ==> !self.holds(steam_id@, k),
            decreases self.entries.len() - i,
        {
            if self.entries[i].steam_id == *steam_id {
                return Some(i);
            }
            i = i + 1;
        }
        None
    }

    /// The games to serve for `steam_id` at the time `now`: those held for
    /// the account, unless they were read [`CACHE_SECONDS`] or longer ago.
    pub fn lookup(&self, steam_id: &str, now: u64) -> (games: Option<Vec<SteamGame>>)
        ensures
            games.deep_view() == served(self@, steam_id@, now),
    {
        proof {
            use_type_invariant(self);
        }
        let wanted = String::from_str(steam_id);
        match self.find(&wanted) {
            Some(i) => {
                proof {
                    let c = choose|c: int| self.holds(steam_id@, c);
                    assert(c == i);
                }
                let entry = &self.entries[i];
                if entry.fetched_at <= now && now - entry.fetched_at < CACHE_SECONDS {
                    Some(clone_games(&entry.games))
                } else {
                    None
                }
            },
            None => None,
        }
    }

    /// Holds `games` for `steam_id` from now on, as read at `now`, in place
    /// of what was held for the account.
    pub fn insert(&mut self, steam_id: &str, games: Vec<SteamGame>, now: u64)
        ensures
            final(self)@ == old(self)@.insert(
                steam_id@,
                CachedGames { games: games.deep_view(), fetched_at: now },
            ),
    {
        proof {
            use_type_invariant(&*self);
        }
        let wanted = String::from_str(steam_id);
        let found = self.find(&wanted);
        let ghost before = *self;
        let ghost games_view = games.deep_view();
        let mut entries: Vec<CacheEntry> = Vec::new();
        std::mem::swap(&mut self.entries, &mut entries);
        assert(entries@ == before.entries@);
        let entry = CacheEntry { steam_id: wanted, games, fetched_at: now };
        match found {
            Some(i) => {
                assert(before.holds(steam_id@, i as int));
                entries.set(i, entry);
            },
            None => {
                assert forall|k: int| 0 <= k < before.entries.len() implies (
                #[trigger] before.entries[k]).steam_id@ != steam_id@ by {
                    assert(!before.holds(steam_id@, k));
                }
                entries.push(entry);
            },
        }
        assert forall|i: int, j: int| 0 <= i < j < entries.len() implies (
        #[trigger] entries[i]).steam_id@ != (#[trigger] entries[j]).steam_id@ by {
            if i < before.entries.len() {
                assert(before.holds(before.entries[i].steam_id@, i));
            }
            if j < before.entries.len() {
                assert(before.holds(before.entries[j].steam_id@, j));
            }
        }
        self.entries = entries;
        proof {
            let after = *self;
            let expected = before@.insert(
                steam_id@,
                CachedGames { games: games_view, fetched_at: now },
            );
            let at = match found {
                Some(i) => i as int,
                None => before.entries.len() as int,
            };
            assert(after.holds(steam_id@, at));
            assert forall|id: Seq<char>| #[trigger] after@.contains_key(id) <==> expected.contains_key(id) by {
                if after@.contains_key(id) {
                    let i = choose|i: int| after.holds(id, i);
                    if id != steam_id@ {
                        assert(before.holds(id, i));
                    }
                }
                if expected.contains_key(id) && id != steam_id@ {
                    let i = choose|i: int| before.holds(id, i);
                    assert(after.holds(id, i));
                }
            }
            assert forall|id: Seq<char>| #[trigger] after@.contains_key(id) implies after@[id] == expected[id] by {
                let i = choose|i: int| after.holds(id, i);
                if id == steam_id@ {
                    assert(i == at);
                } else {
                    assert(before.holds(id, i));
                    let j = choose|j: int| before.holds(id, j);
                    assert(i == j);
                }
            }
            assert(after@ =~= expected);
        }
    }
}

/// The bot: its keys, the channel it announces itself in, and the games
/// it has read of late.
pub struct Bot {
    pub steam_api_key: String,
    pub llm_client: LLMClient,
    pub channel_id: u64,
    pub cache: GameCache,
}

/// What the embedding program reports while the games of an account are
/// looked up.
#[derive(Debug)]
pub enum GamesEvent {
    /// The games are wanted.
    Start,
    /// The games recorded for the account, or why they could not be read.
    Loaded(Result<Vec<SteamGame>, StoreError>),
}

/// Mathematical value of a [`GamesEvent`].
pub enum GamesEventView {
    Start,
    Loaded(Result<Seq<GameView>, StoreError>),
}

impl View for GamesEvent {
    type V = GamesEventView;

    open spec fn view(&self) -> GamesEventView {
        match self {
            GamesEvent::Start => GamesEventView::Start,
            GamesEvent::Loaded(Ok(games)) => GamesEventView::Loaded(Ok(games.deep_view())),
            GamesEvent::Loaded(Err(e)) => GamesEventView::Loaded(Err(*e)),
        }
    }
}

/// What the lookup of the games of an account comes to, or asks for.
#[derive(Debug)]
pub enum GamesAction {
    /// Read the games recorded for `steam_id` from the store and report them.
    Query { steam_id: String },
    /// These are the games of the account; none, if nothing was recorded
    /// for it yet.
    Found { games: Vec<SteamGame> },
    /// The games are not to be had: the store failed.
    NotFound,
}

/// Mathematical value of a [`GamesAction`].
pub enum GamesActionView {
    Query { steam_id: Seq<char> },
    Found { games: Seq<GameView> },
    NotFound,
}

impl View for GamesAction {
    type V = GamesActionView;

    open spec fn view(&self) -> GamesActionView {
        match self {
            GamesAction::Query { steam_id } => GamesActionView::Query { steam_id: steam_id@ },
            GamesAction::Found { games } => GamesActionView::Found { games: games.deep_view() },
            GamesAction::NotFound => GamesActionView::NotFound,
        }
    }
}

/// The cache and the action that follow when `event` arrives in the lookup
/// of the games of `steam_id` at the time `now`.
///
/// At the start, games that the cache holds fresh are served, and the store
/// is not asked; otherwise the store is asked. What the store gives is
/// served: games are held from `now` on as well; an empty list, which says
/// that nothing was recorded yet, is served as it is and not held. Only when
/// the store fails is nothing served; the cache then stays as it is.
pub open spec fn games_step(
    cache: Map<Seq<char>, CachedGames>,
    steam_id: Seq<char>,
    now: u64,
    event: GamesEventView,
) -> (Map<Seq<char>, CachedGames>, GamesActionView) {
    match event {
        GamesEventView::Start => match served(cache, steam_id, now) {
            Some(games) => (cache, GamesActionView::Found { games }),
            None => (cache, GamesActionView::Query { steam_id }),
        },
        GamesEventView::Loaded(Ok(games)) => if games.len() > 0 {
            (
                cache.insert(steam_id, CachedGames { games, fetched_at: now }),
                GamesActionView::Found { games },
            )
        } else {
            (cache, GamesActionView::Found { games })
        },
        GamesEventView::Loaded(Err(_)) => (cache, GamesActionView::NotFound),
    }
}

/// The cache is fresh or not used. At the start of a lookup, games held
/// for [`CACHE_SECONDS`] or longer, or dated later than now, are not served:
/// the store is asked. Games held for a shorter time are served as they are
/// held, and the store is not asked. Either way the cache stays as it is.
pub proof fn law_cache_freshness(cache: Map<Seq<char>, CachedGames>, steam_id: Seq<char>, now: u64)
    ensures
        games_step(cache, steam_id, now, GamesEventView::Start).0 == cache,
        cache.contains_key(steam_id) && cache[steam_id].fetched_at <= now && now
            - cache[steam_id].fetched_at < CACHE_SECONDS ==> games_step(
            cache,
            steam_id,
            now,
            GamesEventView::Start,
        ).1 == (GamesActionView::Found { games: cache[steam_id].games }),
        !cache.contains_key(steam_id) || cache[steam_id].fetched_at > now || now
            - cache[steam_id].fetched_at >= CACHE_SECONDS ==> games_step(
            cache,
            steam_id,
            now,
            GamesEventView::Start,
        ).1 == (GamesActionView::Query { steam_id }),
{
}

impl Bot {
    /// One step of the lookup of the games of `steam_id`, at the time `now`
    /// in seconds. The step taken is [`games_step`]: an entry of the cache
    /// that is [`CACHE_SECONDS`] old or older is never served, and a fresher
    /// one is served without a read of the store.
    pub fn get_steam_games(&mut self, steam_id: &str, now: u64, event: GamesEvent) -> (action:
        GamesAction)
        ensures
            (final(self).cache@, action@) == games_step(old(self).cache@, steam_id@, now, event@),
            final(self).steam_api_key == old(self).steam_api_key,
            final(self).llm_client == old(self).llm_client,
            final(self).channel_id == old(self).channel_id,
    {
        match event {
            GamesEvent::Start => match self.cache.lookup(steam_id, now) {
                Some(games) => GamesAction::Found { games },
                None => GamesAction::Query { steam_id: String::from_str(steam_id) },
            },
            GamesEvent::Loaded(Ok(games)) => {
                if games.len() > 0 {
                    self.cache.insert(steam_id, clone_games(&games), now);
                }
                GamesAction::Found { games }
            },
            GamesEvent::Loaded(Err(_)) => GamesAction::NotFound,
        }
    }
}

/// Position of the game played most: the last of those with the most
/// minutes. `None` for an empty list.
pub open spec fn most_played_at(games: Seq<GameView>, at: Option<int>) -> bool {
    match at {
        None => games.len() == 0,
        Some(i) => {
            &&& 0 <= i < games.len()
            &&& forall|k: int|
                0 <= k < games.len() ==> (#[trigger] games[k]).playtime_forever
                    <= games[i].playtime_forever
            &&& forall|k: int|
                i < k < games.len() ==> (#[trigger] games[k]).playtime_forever
                    < games[i].playtime_forever
        },
    }
}

/// Finds the game played most; of several with the most minutes, the last.
pub fn most_played(games: &Vec<SteamGame>) -> (at: Option<usize>)
    ensures
        most_played_at(
            games.deep_view(),
            match at {
                Some(i) => Some(i as int),
                None => None,
            },
        ),
{
    if games.len() == 0 {
        return None;
    }
    let mut best: usize = 0;
    let mut i: usize = 1;
    while i < games.len()
        invariant
            best < i <= games.len(),
            forall|k: int|
                0 <= k < i ==> (#[trigger] games.deep_view()[k]).playtime_forever
                    <= games.deep_view()[best as int].playtime_forever,
            forall|k: int|
                best < k < i ==> (#[trigger] games.deep_view()[k]).playtime_forever
                    < games.deep_view()[best as int].playtime_forever,
        decreases games.len() - i,
    {
        assert(games.deep_view()[i as int] == games[i as int]@);
        assert(games.deep_view()[best as int] == games[best as int]@);
        if games[i].playtime_forever >= games[best].playtime_forever {
            best = i;
        }
        i = i + 1;
    }
    Some(best)
}

/// The full hours in `minutes`.
pub open spec fn hours_of(minutes: u32) -> nat {
    (minutes / 60) as nat
}

/// How a game is shown in the list of the games played most.
pub open spec fn top_line_of(game: GameView) -> Seq<char> {
    "**"@ + game.name + "** ("@ + decimal(hours_of(game.playtime_forever)) + " hours)"@
}

/// [`top_line_of`] as a function.
pub open spec fn top_line() -> spec_fn(GameView) -> Seq<char> {
    |game: GameView| top_line_of(game)
}

/// Writes [`top_line_of`].
pub fn write_top_line(game: &SteamGame) -> (line: String)
    ensures
        line@ == top_line_of(game@),
{
    let line = String::from_str("**");
    let line = line.concat(game.name.as_str());
    let line = line.concat("** (");
    let line = line.concat(to_decimal((game.playtime_forever / 60) as u64).as_str());
    line.concat(" hours)")
}

/// The answer that names the game played most.
pub open spec fn most_played_text(game: GameView) -> Seq<char> {
    "Your most played game: **"@ + game.name + "** ("@ + decimal(hours_of(game.playtime_forever))
        + " hours)"@
}

/// Writes [`most_played_text`].
pub fn write_most_played(game: &SteamGame) -> (text: String)
    ensures
        text@ == most_played_text(game@),
{
    let text = String::from_str("Your most played game: **");
    let text = text.concat(game.name.as_str());
    let text = text.concat("** (");
    let text = text.concat(to_decimal((game.playtime_forever / 60) as u64).as_str());
    text.concat(" hours)")
}

/// The list of the games played most holds this many games at most.
pub const TOP_LISTED: usize = 5;

/// The key by which the games played most come first: the fewer minutes,
/// the greater.
pub open spec fn fewest_last() -> spec_fn(GameView) -> int {
    |game: GameView| u32::MAX - game.playtime_forever
}

/// Computes the key [`fewest_last`] of a game.
pub fn descending_key(game: &SteamGame) -> (key: u32)
    ensures
        key == fewest_last()(game@),
{
    u32::MAX - game.playtime_forever
}

/// Sorts by [`descending_key`] with `slice::sort_by_key` of the standard
/// library, which sorts in ascending order of the key and keeps the order of
/// items with equal keys.
#[verifier::external_body]
fn sort_most_played_first(games: &mut Vec<SteamGame>)
    ensures
        is_stable_sort_by(final(games).deep_view(), old(games).deep_view(), fewest_last()),
{
    games.sort_by_key(|game| descending_key(game));
}

/// The answer that lists the first [`TOP_LISTED`] of `sorted`.
pub open spec fn top_games_text(sorted: Seq<GameView>) -> Seq<char> {
    "Your top 5 played games:\n"@ + joined(
        if sorted.len() <= TOP_LISTED {
            sorted.map_values(top_line())
        } else {
            sorted.take(TOP_LISTED as int).map_values(top_line())
        },
        "\n"@,
    )
}

/// Writes [`top_games_text`] for games that are sorted already.
pub fn write_top_games(sorted: &Vec<SteamGame>) -> (text: String)
    ensures
        text@ == top_games_text(sorted.deep_view()),
{
    let mut lines: Vec<String> = Vec::new();
    let mut i: usize = 0;
    while i < sorted.len() && i < TOP_LISTED
        invariant
            i <= sorted.len(),
            i <= TOP_LISTED,
            lines.len() == i,
            forall|k: int| 0 <= k < i ==> (#[trigger] lines[k])@ == top_line_of(sorted[k]@),
        decreases sorted.len() - i,
    {
        lines.push(write_top_line(&sorted[i]));
        i = i + 1;
    }
    assert(lines.deep_view() =~= if sorted.len() <= TOP_LISTED {
        sorted.deep_view().map_values(top_line())
    } else {
        sorted.deep_view().take(TOP_LISTED as int).map_values(top_line())
    });
    let text = String::from_str("Your top 5 played games:\n");
    text.concat(join(&lines, "\n").as_str())
}

/// The answer that lists the games of `games` played most: the first
/// [`TOP_LISTED`] by minutes, most first, ties in the order of `games`.
pub open spec fn top_games_answer(games: Seq<GameView>) -> Seq<char> {
    top_games_text(sorted_by(games, fewest_last()))
}

/// Writes [`top_games_answer`].
pub fn list_top_games(games: &Vec<SteamGame>) -> (text: String)
    ensures
        text@ == top_games_answer(games.deep_view()),
{
    let mut sorted = clone_games(games);
    sort_most_played_first(&mut sorted);
    proof {
        lemma_is_sorted_by(sorted.deep_view(), games.deep_view(), fewest_last());
    }
    write_top_games(&sorted)
}

/// The words of a text: its maximal runs of characters that are not
/// white space, in order.
pub uninterp spec fn words_of(text: Seq<char>) -> Seq<Seq<char>>;

/// Splits a text with `str::split_whitespace` of the standard library: the
/// result holds the words that it yields, in order.
#[verifier::external_body]
fn split_words(text: &str) -> (words: Vec<String>)
    ensures
        words.deep_view() == words_of(text@),
{
    text.split_whitespace().map(|word| word.to_string()).collect()
}

/// A text in lower case.
pub uninterp spec fn lowercase_of(text: Seq<char>) -> Seq<char>;

/// Lowers a text with `str::to_lowercase` of the standard library.
#[verifier::external_body]
fn to_lowercase(text: &str) -> (lowered: String)
    ensures
        lowered@ == lowercase_of(text@),
{
    text.to_lowercase()
}

/// What a message asks the bot to do.
#[derive(Debug)]
pub enum Command {
    /// Link the author to the Steam account `steam_id`.
    LinkSteam { steam_id: String },
    /// Explain how an account is linked: the command came without the one
    /// word it takes.
    LinkUsage,
    /// Show the game that the author played most.
    SteamGames,
    /// List the games that the author played most.
    TopGames,
    /// Recommend games to the author.
    Recommend,
    /// The message is none of the bot's business.
    Nothing,
}

/// Mathematical value of a [`Command`].
pub enum CommandView {
    LinkSteam { steam_id: Seq<char> },
    LinkUsage,
    SteamGames,
    TopGames,
    Recommend,
    Nothing,
}

impl View for Command {
    type V = CommandView;

    open spec fn view(&self) -> CommandView {
        match self {
            Command::LinkSteam { steam_id } => CommandView::LinkSteam { steam_id: steam_id@ },
            Command::LinkUsage => CommandView::LinkUsage,
            Command::SteamGames => CommandView::SteamGames,
            Command::TopGames => CommandView::TopGames,
            Command::Recommend => CommandView::Recommend,
            Command::Nothing => CommandView::Nothing,
        }
    }
}

/// What is said at once for a command, without a conversation: how an
/// account is linked, for a link command that came without its one word.
pub open spec fn said_at_once(command: CommandView) -> Option<Seq<char>> {
    match command {
        CommandView::LinkUsage => Some(LINK_USAGE@),
        _ => None,
    }
}

impl Command {
    /// The text to say at once for the command, if there is one. A command
    /// for which there is one starts no conversation.
    pub fn reply(&self) -> (text: Option<String>)
        ensures
            text.deep_view() == said_at_once(self@),
    {
        match self {
            Command::LinkUsage => Some(String::from_str(LINK_USAGE)),
            _ => None,
        }
    }
}

/// The command that the words of a message make up. The first word names
/// it; a link takes exactly one more word, the account.
pub open spec fn command_of(words: Seq<Seq<char>>) -> CommandView {
    if words.len() == 0 {
        CommandView::Nothing
    } else if words[0] == "!link_steam"@ {
        if words.len() == 2 {
            CommandView::LinkSteam { steam_id: words[1] }
        } else {
            CommandView::LinkUsage
        }
    } else if words[0] == "!steam_games"@ {
        CommandView::SteamGames
    } else if words[0] == "!top_games"@ {
        CommandView::TopGames
    } else if words[0] == "!recommend"@ {
        CommandView::Recommend
    } else {
        CommandView::Nothing
    }
}

/// Whether `word` reads `literal`.
fn word_is(word: &String, literal: &str) -> (same: bool)
    ensures
        same == (word@ == literal@),
{
    *word == String::from_str(literal)
}

/// Reads [`command_of`] off the words of a message.
pub fn parse_command(words: &Vec<String>) -> (command: Command)
    ensures
        command@ == command_of(words.deep_view()),
{
    if words.len() == 0 {
        return Command::Nothing;
    }
    assert(words.deep_view()[0] == words[0]@);
    if word_is(&words[0], "!link_steam") {
        if words.len() == 2 {
            assert(words.deep_view()[1] == words[1]@);
            Command::LinkSteam { steam_id: words[1].clone() }
        } else {
            Command::LinkUsage
        }
    } else if word_is(&words[0], "!steam_games") {
        Command::SteamGames
    } else if word_is(&words[0], "!top_games") {
        Command::TopGames
    } else if word_is(&words[0], "!recommend") {
        Command::Recommend
    } else {
        Command::Nothing
    }
}

/// A text that begins with `yes`.
pub open spec fn begins_with_yes(text: Seq<char>) -> bool {
    text.len() >= 3 && text[0] == 'y' && text[1] == 'e' && text[2] == 's'
}

/// Whether `lowered` begins with `yes`.
pub fn is_yes(lowered: &str) -> (yes: bool)
    ensures
        yes == begins_with_yes(lowered@),
{
    lowered.unicode_len() >= 3 && lowered.get_char(0) == 'y' && lowered.get_char(1) == 'e'
        && lowered.get_char(2) == 's'
}

/// Whether a reply confirms: in lower case it begins with `yes`.
pub fn confirms(reply: &str) -> (yes: bool)
    ensures
        yes == begins_with_yes(lowercase_of(reply@)),
{
    let lowered = to_lowercase(reply);
    is_yes(lowered.as_str())
}

/// The transition of the conversation that links the author of a command
/// to the account `steam_id`.
///
/// An account that some user is linked to already is not linked again. An
/// account that is free is looked up, and the author is shown the name on
/// its profile and asked to confirm. If the question cannot be sent the
/// conversation ends; otherwise a reply is awaited for
/// [`CONFIRMATION_SECONDS`]. A reply that, in lower case, begins with `yes`
/// has the link written; after the news of the link the games of the account
/// are synced, and the author is told how that went. Each failure on the way
/// is told to the author and ends the conversation, and so does any other
/// reply, or none.
pub open spec fn link_step(
    author: AuthorView,
    steam_id: Seq<char>,
    s: ChatView,
    event: ChatEventView,
) -> (ChatView, ChatActionView) {
    match (s.phase, event) {
        (ChatPhase::Idle, ChatEventView::Start) => asks(
            s,
            ChatPhase::Checking,
            ChatActionView::CheckLinked { steam_id },
        ),
        (ChatPhase::Checking, ChatEventView::Exists(Err(_))) => closes(s, CHECK_FAILED@),
        (ChatPhase::Checking, ChatEventView::Exists(Ok(linked))) => if linked {
            closes(s, ALREADY_LINKED@)
        } else {
            asks(s, ChatPhase::Validating, ChatActionView::FetchProfile { steam_id })
        },
        (ChatPhase::Validating, ChatEventView::Profile(Err(_))) => closes(s, PROFILE_FAILED@),
        (ChatPhase::Validating, ChatEventView::Profile(Ok(profile))) => says(
            s,
            ChatPhase::Confirming,
            confirmation_text(profile.persona_name),
        ),
        (ChatPhase::Confirming, ChatEventView::Said(sent)) => if sent {
            asks(
                s,
                ChatPhase::AwaitingReply,
                ChatActionView::AwaitReply { seconds: CONFIRMATION_SECONDS },
            )
        } else {
            ends(s)
        },
        (ChatPhase::AwaitingReply, ChatEventView::Replied(None)) => closes(s, NO_CONFIRMATION@),
        (ChatPhase::AwaitingReply, ChatEventView::Replied(Some(reply))) => if begins_with_yes(
            lowercase_of(reply),
        ) {
            asks(
                s,
                ChatPhase::Linking,
                ChatActionView::Link {
                    username: author.name,
                    discord_id: discord_id_of(author.id),
                    steam_id,
                },
            )
        } else {
            closes(s, CANCELED@)
        },
        (ChatPhase::Linking, ChatEventView::Linked(Err(_))) => closes(s, LINK_FAILED@),
        (ChatPhase::Linking, ChatEventView::Linked(Ok(_))) => says(
            s,
            ChatPhase::Announcing,
            linked_text(steam_id),
        ),
        (ChatPhase::Announcing, ChatEventView::Said(_)) => asks(
            s,
            ChatPhase::Syncing,
            ChatActionView::Sync { steam_id },
        ),
        (ChatPhase::Syncing, ChatEventView::Synced(outcome)) => match outcome {
            SyncOutcome::Synced => closes(s, GAMES_UPDATED@),
            SyncOutcome::StoreFailed(_) => closes(s, STORE_FAILED@),
            SyncOutcome::FetchFailed(_) => closes(s, FETCH_FAILED@),
        },
        _ => ends(s),
    }
}

/// What is said of the games that were looked up: the game played most,
/// with its full hours, or that there are none, or that they are not to be
/// had.
pub open spec fn most_played_answer(games: Option<Seq<GameView>>) -> Seq<char> {
    match games {
        None => DATA_ERROR@,
        Some(games) => if games.len() == 0 {
            NO_GAMES_FOUND@
        } else {
            most_played_text(games[last_maximum(games)])
        },
    }
}

/// The position that [`most_played_at`] describes.
pub open spec fn last_maximum(games: Seq<GameView>) -> int {
    choose|i: int| most_played_at(games, Some(i))
}

/// The transition of the conversation that shows the game of the account
/// `steam_id` that was played most.
pub open spec fn show_step(steam_id: Seq<char>, s: ChatView, event: ChatEventView) -> (
    ChatView,
    ChatActionView,
) {
    match (s.phase, event) {
        (ChatPhase::Idle, ChatEventView::Start) => asks(
            s,
            ChatPhase::Loading,
            ChatActionView::LoadGames { steam_id },
        ),
        (ChatPhase::Loading, ChatEventView::Games(games)) => closes(s, most_played_answer(games)),
        _ => ends(s),
    }
}

/// The transition of the conversation that shows the author of a command
/// the game they played most: their account is looked up, and a user
/// without one is told how to link it; then the games of the account are
/// shown as in [`show_step`].
pub open spec fn steam_games_step(author: AuthorView, s: ChatView, event: ChatEventView) -> (
    ChatView,
    ChatActionView,
) {
    match (s.phase, event) {
        (ChatPhase::Idle, ChatEventView::Start) => asks(
            s,
            ChatPhase::Looking,
            ChatActionView::LookupAccount { discord_id: discord_id_of(author.id) },
        ),
        (ChatPhase::Looking, ChatEventView::Account(Ok(Some(steam_id)))) => asks(
            s,
            ChatPhase::Loading,
            ChatActionView::LoadGames { steam_id },
        ),
        (ChatPhase::Looking, ChatEventView::Account(Ok(None))) => closes(s, NOT_LINKED@),
        (ChatPhase::Looking, ChatEventView::Account(Err(_))) => closes(s, DATABASE_ERROR@),
        (ChatPhase::Loading, ChatEventView::Games(games)) => closes(s, most_played_answer(games)),
        _ => ends(s),
    }
}

/// The transition of the conversation that lists the games that the
/// author of a command played most: their account is looked up, and a user
/// without one is told how to link it; then the games are looked up and the
/// [`top_games_answer`] is said.
pub open spec fn top_games_step(author: AuthorView, s: ChatView, event: ChatEventView) -> (
    ChatView,
    ChatActionView,
) {
    match (s.phase, event) {
        (ChatPhase::Idle, ChatEventView::Start) => asks(
            s,
            ChatPhase::Looking,
            ChatActionView::LookupAccount { discord_id: discord_id_of(author.id) },
        ),
        (ChatPhase::Looking, ChatEventView::Account(Ok(Some(steam_id)))) => asks(
            s,
            ChatPhase::Loading,
            ChatActionView::LoadGames { steam_id },
        ),
        (ChatPhase::Looking, ChatEventView::Account(Ok(None))) => closes(s, NOT_LINKED@),
        (ChatPhase::Looking, ChatEventView::Account(Err(_))) => closes(s, DATABASE_ERROR@),
        (ChatPhase::Loading, ChatEventView::Games(None)) => closes(s, DATA_ERROR@),
        (ChatPhase::Loading, ChatEventView::Games(Some(games))) => closes(
            s,
            top_games_answer(games),
        ),
        _ => ends(s),
    }
}

/// The transition of the conversation that recommends games to the author
/// of a command: their account is looked up, and a user without one is told
/// how to link it; then the author is told that recommendations are under
/// way. If that cannot be sent the conversation ends; otherwise a
/// recommendation is made and passed on, or the error that prevented it.
pub open spec fn recommend_games_step(author: AuthorView, s: ChatView, event: ChatEventView) -> (
    ChatView,
    ChatActionView,
) {
    match (s.phase, event) {
        (ChatPhase::Idle, ChatEventView::Start) => asks(
            s,
            ChatPhase::Looking,
            ChatActionView::LookupAccount { discord_id: discord_id_of(author.id) },
        ),
        (ChatPhase::Looking, ChatEventView::Account(Ok(Some(steam_id)))) => (
            ChatView { phase: ChatPhase::Announcing, steam_id },
            ChatActionView::Say { text: getting_text(author.id) },
        ),
        (ChatPhase::Looking, ChatEventView::Account(Ok(None))) => closes(s, RECOMMEND_NOT_LINKED@),
        (ChatPhase::Looking, ChatEventView::Account(Err(_))) => closes(
            s,
            RECOMMEND_DATABASE_ERROR@,
        ),
        (ChatPhase::Announcing, ChatEventView::Said(sent)) => if sent {
            asks(s, ChatPhase::Recommending, ChatActionView::Recommend { steam_id: s.steam_id })
        } else {
            ends(s)
        },
        (ChatPhase::Recommending, ChatEventView::Recommended(Ok(text))) => closes(
            s,
            recommendation_text(text),
        ),
        (ChatPhase::Recommending, ChatEventView::Recommended(Err(why))) => closes(
            s,
            recommend_error_text(why),
        ),
        _ => ends(s),
    }
}

/// Writes [`most_played_answer`].
pub fn answer_most_played(games: &Option<Vec<SteamGame>>) -> (text: String)
    ensures
        text@ == most_played_answer(games.deep_view()),
{
    match games {
        None => String::from_str(DATA_ERROR),
        Some(games) => match most_played(games) {
            None => String::from_str(NO_GAMES_FOUND),
            Some(i) => {
                proof {
                    let views = games.deep_view();
                    let chosen = last_maximum(views);
                    assert(most_played_at(views, Some(i as int)));
                    assert(most_played_at(views, Some(chosen)));
                    assert(chosen == i) by {
                        if chosen < i {
                            assert(views[i as int].playtime_forever < views[chosen].playtime_forever);
                        }
                        if i < chosen {
                            assert(views[chosen].playtime_forever < views[i as int].playtime_forever);
                        }
                    }
                    assert(views[i as int] == games[i as int]@);
                }
                write_most_played(&games[i])
            },
        },
    }
}

impl Bot {
    /// The text with which the bot announces itself in its channel.
    pub fn ready(&self) -> (text: String)
        ensures
            text@ == ONLINE@,
    {
        String::from_str(ONLINE)
    }

    /// The command that a message holds: [`command_of`] its words.
    pub fn message(&self, content: &str) -> (command: Command)
        ensures
            command@ == command_of(words_of(content@)),
    {
        let words = split_words(content);
        parse_command(&words)
    }

    /// One step of the conversation that links `author` to the account
    /// `steam_id`. The embedding program starts with [`Chat::new`] and
    /// [`ChatEvent::Start`], performs each action that is returned and
    /// reports what came of it, until the action is [`ChatAction::Done`]. The
    /// step taken is [`link_step`].
    pub fn handle_link_steam(
        &self,
        author: &Author,
        steam_id: &str,
        chat: Chat,
        event: ChatEvent,
    ) -> (next: (Chat, ChatAction))
        ensures
            (next.0@, next.1@) == link_step(author@, steam_id@, chat@, event@),
    {
        match (chat.phase, event) {
            (ChatPhase::Idle, ChatEvent::Start) => ask(
                chat,
                ChatPhase::Checking,
                ChatAction::CheckLinked { steam_id: String::from_str(steam_id) },
            ),
            (ChatPhase::Checking, ChatEvent::Exists(Err(_))) => say(
                chat,
                ChatPhase::Closing,
                CHECK_FAILED,
            ),
            (ChatPhase::Checking, ChatEvent::Exists(Ok(linked))) => {
                if linked {
                    say(chat, ChatPhase::Closing, ALREADY_LINKED)
                } else {
                    ask(
                        chat,
                        ChatPhase::Validating,
                        ChatAction::FetchProfile { steam_id: String::from_str(steam_id) },
                    )
                }
            },
            (ChatPhase::Validating, ChatEvent::Profile(Err(_))) => say(
                chat,
                ChatPhase::Closing,
                PROFILE_FAILED,
            ),
            (ChatPhase::Validating, ChatEvent::Profile(Ok(profile))) => say_text(
                chat,
                ChatPhase::Confirming,
                write_confirmation(profile.persona_name.as_str()),
            ),
            (ChatPhase::Confirming, ChatEvent::Said(sent)) => {
                if sent {
                    ask(
                        chat,
                        ChatPhase::AwaitingReply,
                        ChatAction::AwaitReply { seconds: CONFIRMATION_SECONDS },
                    )
                } else {
                    end(chat)
                }
            },
            (ChatPhase::AwaitingReply, ChatEvent::Replied(None)) => say(
                chat,
                ChatPhase::Closing,
                NO_CONFIRMATION,
            ),
            (ChatPhase::AwaitingReply, ChatEvent::Replied(Some(reply))) => {
                if confirms(reply.as_str()) {
                    ask(
                        chat,
                        ChatPhase::Linking,
                        ChatAction::Link {
                            username: author.name.clone(),
                            discord_id: discord_id(author.id),
                            steam_id: String::from_str(steam_id),
                        },
                    )
                } else {
                    say(chat, ChatPhase::Closing, CANCELED)
                }
            },
            (ChatPhase::Linking, ChatEvent::Linked(Err(_))) => say(
                chat,
                ChatPhase::Closing,
                LINK_FAILED,
            ),
            (ChatPhase::Linking, ChatEvent::Linked(Ok(_))) => say_text(
                chat,
                ChatPhase::Announcing,
                write_linked(steam_id),
            ),
            (ChatPhase::Announcing, ChatEvent::Said(_)) => ask(
                chat,
                ChatPhase::Syncing,
                ChatAction::Sync { steam_id: String::from_str(steam_id) },
            ),
            (ChatPhase::Syncing, ChatEvent::Synced(outcome)) => match outcome {
                SyncOutcome::Synced => say(chat, ChatPhase::Closing, GAMES_UPDATED),
                SyncOutcome::StoreFailed(_) => say(chat, ChatPhase::Closing, STORE_FAILED),
                SyncOutcome::FetchFailed(_) => say(chat, ChatPhase::Closing, FETCH_FAILED),
            },
            _ => end(chat),
        }
    }

    /// One step of the conversation that shows `author` the game they
    /// played most. The step taken is [`steam_games_step`].
    pub fn handle_steam_games(&self, author: &Author, chat: Chat, event: ChatEvent) -> (next: (
        Chat,
        ChatAction,
    ))
        ensures
            (next.0@, next.1@) == steam_games_step(author@, chat@, event@),
    {
        match (chat.phase, event) {
            (ChatPhase::Idle, ChatEvent::Start) => ask(
                chat,
                ChatPhase::Looking,
                ChatAction::LookupAccount { discord_id: discord_id(author.id) },
            ),
            (ChatPhase::Looking, ChatEvent::Account(Ok(Some(steam_id)))) => ask(
                chat,
                ChatPhase::Loading,
                ChatAction::LoadGames { steam_id },
            ),
            (ChatPhase::Looking, ChatEvent::Account(Ok(None))) => say(
                chat,
                ChatPhase::Closing,
                NOT_LINKED,
            ),
            (ChatPhase::Looking, ChatEvent::Account(Err(_))) => say(
                chat,
                ChatPhase::Closing,
                DATABASE_ERROR,
            ),
            (ChatPhase::Loading, ChatEvent::Games(games)) => say_text(
                chat,
                ChatPhase::Closing,
                answer_most_played(&games),
            ),
            _ => end(chat),
        }
    }

    /// One step of the conversation that shows the game of the account
    /// `steam_id` that was played most. The step taken is [`show_step`].
    pub fn fetch_and_display_steam_games(&self, steam_id: &str, chat: Chat, event: ChatEvent) -> (next:
        (Chat, ChatAction))
        ensures
            (next.0@, next.1@) == show_step(steam_id@, chat@, event@),
    {
        match (chat.phase, event) {
            (ChatPhase::Idle, ChatEvent::Start) => ask(
                chat,
                ChatPhase::Loading,
                ChatAction::LoadGames { steam_id: String::from_str(steam_id) },
            ),
            (ChatPhase::Loading, ChatEvent::Games(games)) => say_text(
                chat,
                ChatPhase::Closing,
                answer_most_played(&games),
            ),
            _ => end(chat),
        }
    }

    /// One step of the conversation that lists the games that `author`
    /// played most. The step taken is [`top_games_step`].
    pub fn display_top_games(&self, author: &Author, chat: Chat, event: ChatEvent) -> (next: (
        Chat,
        ChatAction,
    ))
        ensures
            (next.0@, next.1@) == top_games_step(author@, chat@, event@),
    {
        match (chat.phase, event) {
            (ChatPhase::Idle, ChatEvent::Start) => ask(
                chat,
                ChatPhase::Looking,
                ChatAction::LookupAccount { discord_id: discord_id(author.id) },
            ),
            (ChatPhase::Looking, ChatEvent::Account(Ok(Some(steam_id)))) => ask(
                chat,
                ChatPhase::Loading,
                ChatAction::LoadGames { steam_id },
            ),
            (ChatPhase::Looking, ChatEvent::Account(Ok(None))) => say(
                chat,
                ChatPhase::Closing,
                NOT_LINKED,
            ),
            (ChatPhase::Looking, ChatEvent::Account(Err(_))) => say(
                chat,
                ChatPhase::Closing,
                DATABASE_ERROR,
            ),
            (ChatPhase::Loading, ChatEvent::Games(None)) => say(
                chat,
                ChatPhase::Closing,
                DATA_ERROR,
            ),
            (ChatPhase::Loading, ChatEvent::Games(Some(games))) => say_text(
                chat,
                ChatPhase::Closing,
                list_top_games(&games),
            ),
            _ => end(chat),
        }
    }

    /// One step of the conversation that recommends games to `author`. The
    /// step taken is [`recommend_games_step`].
    pub fn recommend_games(&self, author: &Author, chat: Chat, event: ChatEvent) -> (next: (
        Chat,
        ChatAction,
    ))
        ensures
            (next.0@, next.1@) == recommend_games_step(author@, chat@, event@),
    {
        match (chat.phase, event) {
            (ChatPhase::Idle, ChatEvent::Start) => ask(
                chat,
                ChatPhase::Looking,
                ChatAction::LookupAccount { discord_id: discord_id(author.id) },
            ),
            (ChatPhase::Looking, ChatEvent::Account(Ok(Some(steam_id)))) => (
                Chat { phase: ChatPhase::Announcing, steam_id },
                ChatAction::Say { text: write_getting(author.id) },
            ),
            (ChatPhase::Looking, ChatEvent::Account(Ok(None))) => say(
                chat,
                ChatPhase::Closing,
                RECOMMEND_NOT_LINKED,
            ),
            (ChatPhase::Looking, ChatEvent::Account(Err(_))) => say(
                chat,
                ChatPhase::Closing,
                RECOMMEND_DATABASE_ERROR,
            ),
            (ChatPhase::Announcing, ChatEvent::Said(sent)) => {
                if sent {
                    let steam_id = chat.steam_id.clone();
                    ask(chat, ChatPhase::Recommending, ChatAction::Recommend { steam_id })
                } else {
                    end(chat)
                }
            },
            (ChatPhase::Recommending, ChatEvent::Recommended(Ok(text))) => say_text(
                chat,
                ChatPhase::Closing,
                write_recommendation(text.as_str()),
            ),
            (ChatPhase::Recommending, ChatEvent::Recommended(Err(why))) => say_text(
                chat,
                ChatPhase::Closing,
                write_recommend_error(why.as_str()),
            ),
            _ => end(chat),
        }
    }
}

} // verus!
