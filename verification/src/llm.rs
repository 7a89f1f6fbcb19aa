//! The recommendation feature: what is asked of the language model, and
//! what is made of its answer.

use crate::database::db::StoreError;
use crate::ranking::{is_stable_sort_by, lemma_is_sorted_by, sorted_by};
use crate::steam::{GameView, SteamGame};
use crate::text::{decimal, join, joined, to_decimal};
use itertools::Itertools;
use rand::seq::{IndexedRandom, SliceRandom};
use vstd::prelude::*;

verus! {

/// Games played for fewer minutes than this are left out of the ranking.
pub const MIN_RANKED_MINUTES: u32 = 60;

/// The ranking holds this many games at most.
pub const TOP_GAMES: usize = 20;

/// The key by which games are ranked, smallest first: the minutes played,
/// read as a signed number of 32 bits, negated. More minutes rank earlier;
/// minutes beyond the signed range read as negative and so rank last, and
/// the most negative reading, whose negation does not fit, stays as it is.
pub open spec fn rank_of(minutes: u32) -> int {
    if minutes <= 0x7fff_ffff {
        -(minutes as int)
    } else if minutes == 0x8000_0000 {
        -0x8000_0000
    } else {
        0x1_0000_0000 - minutes
    }
}

/// Computes [`rank_of`] for a game.
pub fn ranking_key(game: &SteamGame) -> (key: i32)
    ensures
        key == rank_of(game.playtime_forever),
{
    let minutes = game.playtime_forever;
    if minutes <= 0x7fff_ffff {
        let signed: i32 = minutes as i32;
        -signed
    } else if minutes == 0x8000_0000 {
        i32::MIN
    } else {
        let rest: u64 = 0x1_0000_0000u64 - minutes as u64;
        rest as i32
    }
}

/// [`rank_of`] as a function of the game.
pub open spec fn rank() -> spec_fn(GameView) -> int {
    |game: GameView| rank_of(game.playtime_forever)
}

/// Sorts by [`ranking_key`] with `itertools::Itertools::sorted_by_key`,
/// which collects the items and sorts them with the stable sort of the
/// standard library: the result is in ascending order of the key, and items
/// with equal keys keep their order.
#[verifier::external_body]
fn sort_by_rank(games: Vec<SteamGame>) -> (ranked: Vec<SteamGame>)
    ensures
        is_stable_sort_by(ranked.deep_view(), games.deep_view(), rank()),
{
    games.into_iter().sorted_by_key(|game| ranking_key(game)).collect()
}

/// The games that were played long enough to be ranked.
pub open spec fn played_enough() -> spec_fn(GameView) -> bool {
    |game: GameView| game.playtime_forever >= MIN_RANKED_MINUTES
}

/// How a game is named to the model: its name and the full hours played.
pub open spec fn label_of(game: GameView) -> Seq<char> {
    game.name + " ("@ + decimal((game.playtime_forever / 60) as nat) + "h)"@
}

/// [`label_of`] as a function.
pub open spec fn label() -> spec_fn(GameView) -> Seq<char> {
    |game: GameView| label_of(game)
}

/// The labels of the first [`TOP_GAMES`] of `ranked`.
pub open spec fn top_labels(ranked: Seq<GameView>) -> Seq<Seq<char>> {
    if ranked.len() <= TOP_GAMES {
        ranked.map_values(label())
    } else {
        ranked.take(TOP_GAMES as int).map_values(label())
    }
}

/// Labels the first [`TOP_GAMES`] games of a ranking.
pub fn label_top(ranked: &Vec<SteamGame>) -> (labels: Vec<String>)
    ensures
        labels.deep_view() == top_labels(ranked.deep_view()),
{
    let mut labels: Vec<String> = Vec::new();
    let mut i: usize = 0;
    while i < ranked.len() && i < TOP_GAMES
        invariant
            i <= ranked.len(),
            i <= TOP_GAMES,
            labels.len() == i,
            forall|k: int| 0 <= k < i ==> (#[trigger] labels[k])@ == label_of(ranked[k]@),
        decreases ranked.len() - i,
    {
        let game = &ranked[i];
        let text = game.name.clone();
        let text = text.concat(" (");
        let hours = to_decimal((game.playtime_forever / 60) as u64);
        let text = text.concat(hours.as_str());
        let text = text.concat("h)");
        labels.push(text);
        i = i + 1;
    }
    assert(labels.deep_view() =~= top_labels(ranked.deep_view()));
    labels
}

/// The games of `games` that were played for [`MIN_RANKED_MINUTES`] or more.
pub fn games_played_enough(games: &Vec<SteamGame>) -> (kept: Vec<SteamGame>)
    ensures
        kept.deep_view() == games.deep_view().filter(played_enough()),
{
    let mut kept: Vec<SteamGame> = Vec::new();
    let mut i: usize = 0;
    assert(games.deep_view().take(0) =~= Seq::empty());
    assert(kept.deep_view() =~= games.deep_view().take(0).filter(played_enough())) by {
        reveal(Seq::filter);
    }
    while i < games.len()
        invariant
            i <= games.len(),
            kept.deep_view() == games.deep_view().take(i as int).filter(played_enough()),
        decreases games.len() - i,
    {
        let ghost earlier = kept.deep_view();
        proof {
            assert(games.deep_view().take(i + 1) =~= games.deep_view().take(i as int).push(
                games[i as int]@,
            ));
            games.deep_view().take(i as int).lemma_filter_push(games[i as int]@, played_enough());
        }
        if games[i].playtime_forever >= MIN_RANKED_MINUTES {
            kept.push(games[i].clone());
            assert(kept.deep_view() =~= earlier.push(games[i as int]@));
        }
        i = i + 1;
    }
    assert(games.deep_view().take(games.len() as int) =~= games.deep_view());
    kept
}

/// The name of a game.
pub open spec fn name() -> spec_fn(GameView) -> Seq<char> {
    |game: GameView| game.name
}

/// The names of all of `games`, in order.
pub fn owned_names(games: &Vec<SteamGame>) -> (names: Vec<String>)
    ensures
        names.deep_view() == games.deep_view().map_values(name()),
{
    let mut names: Vec<String> = Vec::new();
    let mut i: usize = 0;
    while i < games.len()
        invariant
            i <= games.len(),
            names.len() == i,
            forall|k: int| 0 <= k < i ==> (#[trigger] names[k])@ == games[k]@.name,
        decreases games.len() - i,
    {
        names.push(games[i].name.clone());
        i = i + 1;
    }
    assert(names.deep_view() =~= games.deep_view().map_values(name()));
    names
}

/// The labels of the games played most: of the games of `games` played
/// for [`MIN_RANKED_MINUTES`] or more, the first [`TOP_GAMES`] by
/// [`rank_of`], ties in the order of `games`.
pub open spec fn top_played_labels(games: Seq<GameView>) -> Seq<Seq<char>> {
    top_labels(sorted_by(games.filter(played_enough()), rank()))
}

/// Lists [`top_played_labels`].
pub fn top_played(games: &Vec<SteamGame>) -> (labels: Vec<String>)
    ensures
        labels.deep_view() == top_played_labels(games.deep_view()),
{
    let kept = games_played_enough(games);
    let ranked = sort_by_rank(kept);
    proof {
        lemma_is_sorted_by(ranked.deep_view(), games.deep_view().filter(played_enough()), rank());
    }
    label_top(&ranked)
}

/// The voice used when none can be drawn.
pub const DEFAULT_FLAVOR: &'static str = "You're a friendly gamer with decent taste.";

/// The voices in which the model may be asked to answer.
pub open spec fn flavor_texts() -> Seq<Seq<char>> {
    seq![
        "You're a chaotic neutral gamer who recommends wild, unexpected hidden gems with zero explanation."@,
        "You're a no-nonsense critic who only recommends games with at least one industry award."@,
        "You're a nostalgic 90s gamer who misses the arcade days—suggest games that feel like home."@,
        "You're a sarcastic gaming gremlin who roasts AAA titles and hypes up indie darlings."@,
        "You're a chill stoner gamer just vibing—suggest laid-back, relaxing games to zone out to."@,
        "You're a hardcore min-maxer who only cares about peak performance and meta builds—recommend accordingly."@,
        "You're a boomer gamer who thinks nothing beats the PS2 era—suggest modern games with that old-school soul."@,
        "You're an edgy teen gamer who only plays games with blood, betrayal, or big swords."@,
        "You're a broke college student recommending great games that go on sale often or are cheap/free."@,
        "You're a therapist disguised as a gamer—recommend emotionally healing games for tough times."@,
    ]
}

/// The list of [`flavor_texts`].
pub fn flavors() -> (list: Vec<&'static str>)
    ensures
        list.deep_view() == flavor_texts(),
{
    let mut list: Vec<&'static str> = Vec::new();
    list.push(
        "You're a chaotic neutral gamer who recommends wild, unexpected hidden gems with zero explanation.",
    );
    list.push(
        "You're a no-nonsense critic who only recommends games with at least one industry award.",
    );
    list.push(
        "You're a nostalgic 90s gamer who misses the arcade days—suggest games that feel like home.",
    );
    list.push(
        "You're a sarcastic gaming gremlin who roasts AAA titles and hypes up indie darlings.",
    );
    list.push(
        "You're a chill stoner gamer just vibing—suggest laid-back, relaxing games to zone out to.",
    );
    list.push(
        "You're a hardcore min-maxer who only cares about peak performance and meta builds—recommend accordingly.",
    );
    list.push(
        "You're a boomer gamer who thinks nothing beats the PS2 era—suggest modern games with that old-school soul.",
    );
    list.push(
        "You're an edgy teen gamer who only plays games with blood, betrayal, or big swords.",
    );
    list.push(
        "You're a broke college student recommending great games that go on sale often or are cheap/free.",
    );
    list.push(
        "You're a therapist disguised as a gamer—recommend emotionally healing games for tough times.",
    );
    assert(list.deep_view() =~= flavor_texts());
    list
}

/// `flavor` may be drawn from `options`: it is one of them, or the default
/// where there is none.
pub open spec fn may_be_drawn(flavor: Seq<char>, options: Seq<Seq<char>>) -> bool {
    if options.len() == 0 {
        flavor == DEFAULT_FLAVOR@
    } else {
        options.contains(flavor)
    }
}

/// Draws one of `options` with `rand::seq::IndexedRandom::choose` and the
/// generator of the thread, `rand::rng`. The draw yields nothing exactly
/// when there is nothing to draw from, and otherwise one of the options;
/// which one is left open.
#[verifier::external_body]
fn choose_flavor(options: &Vec<&'static str>) -> (drawn: Option<&'static str>)
    ensures
        drawn is None <==> options.len() == 0,
        drawn is Some ==> options.deep_view().contains(drawn->Some_0@),
{
    options.choose(&mut rand::rng()).copied()
}

/// Reorders `labels` with `rand::seq::SliceRandom::shuffle` and the
/// generator of the thread, `rand::rng`. The shuffle only swaps items: the
/// same labels are there afterwards, each as often as before; their order is
/// left open.
#[verifier::external_body]
fn shuffle_labels(labels: &mut Vec<String>)
    ensures
        final(labels).deep_view().to_multiset() == old(labels).deep_view().to_multiset(),
{
    labels.shuffle(&mut rand::rng());
}

/// The question put to the model: the games played most, the games owned,
/// and the voice to answer in.
pub open spec fn prompt_text(top: Seq<Seq<char>>, owned: Seq<Seq<char>>, flavor: Seq<char>) -> Seq<
    char,
> {
    "The user has played the following games the most:\n"@ + joined(top, ", "@)
        + "\n\nThey also own these games and should not be recommended again:\n"@ + joined(
        owned,
        ", "@,
    )
        + "\n\nBased on the top-played games, recommend three new games the user might enjoy. Do not include any already owned games. Keep the total under 512 characters. "@
        + flavor + " Vary the suggestions each time. Format: 1: Game Name - explanation."@
}

/// Writes [`prompt_text`].
pub fn compose_prompt(top: &Vec<String>, owned: &Vec<String>, flavor: &str) -> (prompt: String)
    ensures
        prompt@ == prompt_text(top.deep_view(), owned.deep_view(), flavor@),
{
    let prompt = String::from_str("The user has played the following games the most:\n");
    let prompt = prompt.concat(join(top, ", ").as_str());
    let prompt = prompt.concat(
        "\n\nThey also own these games and should not be recommended again:\n",
    );
    let prompt = prompt.concat(join(owned, ", ").as_str());
    let prompt = prompt.concat(
        "\n\nBased on the top-played games, recommend three new games the user might enjoy. Do not include any already owned games. Keep the total under 512 characters. ",
    );
    let prompt = prompt.concat(flavor);
    prompt.concat(" Vary the suggestions each time. Format: 1: Game Name - explanation.")
}

/// `prompt` is a question that may be put to the model about `games`: it
/// names the games played most, in some order, then all games owned, and
/// asks for one of the voices.
pub open spec fn is_prompt_for(prompt: Seq<char>, games: Seq<GameView>) -> bool {
    exists|order: Seq<Seq<char>>, flavor: Seq<char>|
        #![trigger prompt_text(order, games.map_values(name()), flavor)]
        order.to_multiset() == top_played_labels(games).to_multiset() && may_be_drawn(
            flavor,
            flavor_texts(),
        ) && prompt == prompt_text(order, games.map_values(name()), flavor)
}

/// Writes the question to put to the model about `games`. The games played
/// most are named in an order drawn at random, and the voice is drawn at
/// random.
pub fn draw_prompt(games: &Vec<SteamGame>) -> (prompt: String)
    ensures
        is_prompt_for(prompt@, games.deep_view()),
{
    let top = top_played(games);
    let owned = owned_names(games);
    let mut shuffled = top;
    shuffle_labels(&mut shuffled);
    let options = flavors();
    let flavor = match choose_flavor(&options) {
        Some(flavor) => flavor,
        None => DEFAULT_FLAVOR,
    };
    let prompt = compose_prompt(&shuffled, &owned, flavor);
    assert(prompt@ == prompt_text(
        shuffled.deep_view(),
        games.deep_view().map_values(name()),
        flavor@,
    ));
    prompt
}

/// The model that is asked.
pub const MODEL: &'static str = "gemini-1.5-pro";

/// What is answered for an account without recorded games.
pub const NO_GAMES: &'static str = "No games found for this user.";

/// What is answered when the model's reply holds no text.
pub const NO_RECOMMENDATION: &'static str = "⚠️ No recommendation.";

/// Access to the language model: the key and the address of the service.
#[derive(Debug)]
pub struct LLMClient {
    pub api_key: String,
    pub api_url: String,
}

/// Address of the service for [`MODEL`].
pub open spec fn model_url() -> Seq<char> {
    "https://generativelanguage.googleapis.com/v1beta/models/"@ + MODEL@ + ":generateContent"@
}

/// Why no recommendation was made.
#[derive(Debug, Clone, Copy, PartialEq, Eq)]
pub enum RecommendError {
    /// The games of the account could not be read from the store.
    Store(StoreError),
    /// The request could not be sent, or its answer could not be read.
    Transport,
    /// The answer was not a reply of the model.
    Decode,
    /// An event was handed in that does not answer the last action.
    UnexpectedEvent,
}

impl RecommendError {
    /// What the error says.
    pub open spec fn text(self) -> Seq<char> {
        match self {
            RecommendError::Store(e) => e.text(),
            RecommendError::Transport => "The request could not be completed."@,
            RecommendError::Decode => "The response is no reply of the model."@,
            RecommendError::UnexpectedEvent => "The recommendation was driven out of turn."@,
        }
    }

    /// Writes what the error says.
    pub fn message(&self) -> (text: String)
        ensures
            text@ == self.text(),
    {
        match self {
            RecommendError::Store(e) => e.message(),
            RecommendError::Transport => String::from_str("The request could not be completed."),
            RecommendError::Decode => String::from_str("The response is no reply of the model."),
            RecommendError::UnexpectedEvent => String::from_str(
                "The recommendation was driven out of turn.",
            ),
        }
    }
}

/// Where the making of a recommendation stands between two events.
#[derive(Debug, Clone, Copy, PartialEq, Eq, Structural)]
pub enum RecommendPhase {
    /// Nothing was asked for yet.
    Idle,
    /// The games of the account are being read.
    LoadingGames,
    /// The model was asked.
    AwaitingReply,
    /// A recommendation was made, or none will be.
    Finished,
}

/// What the embedding program reports while a recommendation is made.
#[derive(Debug)]
pub enum RecommendEvent {
    /// A recommendation is wanted.
    Start,
    /// The games recorded for the account, or why they could not be read.
    Games(Result<Vec<SteamGame>, StoreError>),
    /// The reply of the model: for each candidate the texts of its parts,
    /// or `None` where the answer was no such reply.
    Reply(Option<Vec<Vec<String>>>),
    /// The request, or the reading of its answer, failed on the way.
    Unreachable,
}

/// Mathematical value of a [`RecommendEvent`].
pub enum RecommendEventView {
    Start,
    Games(Result<Seq<GameView>, StoreError>),
    Reply(Option<Seq<Seq<Seq<char>>>>),
    Unreachable,
}

impl View for RecommendEvent {
    type V = RecommendEventView;

    open spec fn view(&self) -> RecommendEventView {
        match self {
            RecommendEvent::Start => RecommendEventView::Start,
            RecommendEvent::Games(Ok(games)) => RecommendEventView::Games(Ok(games.deep_view())),
            RecommendEvent::Games(Err(e)) => RecommendEventView::Games(Err(*e)),
            RecommendEvent::Reply(Some(candidates)) => RecommendEventView::Reply(
                Some(candidates.deep_view()),
            ),
            RecommendEvent::Reply(None) => RecommendEventView::Reply(None),
            RecommendEvent::Unreachable => RecommendEventView::Unreachable,
        }
    }
}

/// What is to be done next for a recommendation.
#[derive(Debug)]
pub enum RecommendAction {
    /// Read the games recorded for `steam_id` and report them.
    LoadGames { steam_id: String },
    /// Post `prompt` to `url` and report the reply.
    Ask { url: String, prompt: String },
    /// This is the answer for the user.
    Done { text: String },
    /// No recommendation can be made.
    Fail { error: RecommendError },
}

/// Mathematical value of a [`RecommendAction`].
pub enum RecommendActionView {
    LoadGames { steam_id: Seq<char> },
    Ask { url: Seq<char>, prompt: Seq<char> },
    Done { text: Seq<char> },
    Fail { error: RecommendError },
}

impl View for RecommendAction {
    type V = RecommendActionView;

    open spec fn view(&self) -> RecommendActionView {
        match self {
            RecommendAction::LoadGames { steam_id } => RecommendActionView::LoadGames {
                steam_id: steam_id@,
            },
            RecommendAction::Ask { url, prompt } => RecommendActionView::Ask {
                url: url@,
                prompt: prompt@,
            },
            RecommendAction::Done { text } => RecommendActionView::Done { text: text@ },
            RecommendAction::Fail { error } => RecommendActionView::Fail { error: *error },
        }
    }
}

/// The text of the model's reply that is passed on: the first part of the
/// first candidate, or [`NO_RECOMMENDATION`] where there is none.
pub open spec fn first_text(candidates: Seq<Seq<Seq<char>>>) -> Seq<char> {
    if candidates.len() > 0 && candidates[0].len() > 0 {
        candidates[0][0]
    } else {
        NO_RECOMMENDATION@
    }
}

/// Picks [`first_text`] out of a reply.
pub fn first_recommendation(candidates: &Vec<Vec<String>>) -> (text: String)
    ensures
        text@ == first_text(candidates.deep_view()),
{
    if candidates.len() > 0 && candidates[0].len() > 0 {
        assert(candidates.deep_view()[0] == candidates[0].deep_view());
        assert(candidates[0].deep_view()[0] == candidates[0][0]@);
        candidates[0][0].clone()
    } else {
        if candidates.len() > 0 {
            assert(candidates.deep_view()[0] == candidates[0].deep_view());
        }
        String::from_str(NO_RECOMMENDATION)
    }
}

/// Whether the step from `phase` on `event` may lead to `next` and `action`,
/// for a client that asks at `url` about the account `steam_id`.
///
/// The games of the account are read first. If they cannot be read, no
/// recommendation is made; if there are none, the answer is [`NO_GAMES`]
/// and the model is not asked. Otherwise the model is asked a question that
/// [`is_prompt_for`] the games, and the answer is the [`first_text`] of its
/// reply.
pub open spec fn recommend_step(
    url: Seq<char>,
    steam_id: Seq<char>,
    phase: RecommendPhase,
    event: RecommendEventView,
    next: RecommendPhase,
    action: RecommendActionView,
) -> bool {
    match (phase, event) {
        (RecommendPhase::Idle, RecommendEventView::Start) => next == RecommendPhase::LoadingGames
            && action == (RecommendActionView::LoadGames { steam_id }),
        (RecommendPhase::LoadingGames, RecommendEventView::Games(Err(e))) => next
            == RecommendPhase::Finished && action == (RecommendActionView::Fail {
            error: RecommendError::Store(e),
        }),
        (RecommendPhase::LoadingGames, RecommendEventView::Games(Ok(games))) => if games.len()
            == 0 {
            next == RecommendPhase::Finished && action == (RecommendActionView::Done {
                text: NO_GAMES@,
            })
        } else {
            &&& next == RecommendPhase::AwaitingReply
            &&& action matches RecommendActionView::Ask { url: target, prompt }
            &&& target == url
            &&& is_prompt_for(prompt, games)
        },
        (RecommendPhase::AwaitingReply, RecommendEventView::Reply(Some(candidates))) => next
            == RecommendPhase::Finished && action == (RecommendActionView::Done {
            text: first_text(candidates),
        }),
        (RecommendPhase::AwaitingReply, RecommendEventView::Reply(None)) => next
            == RecommendPhase::Finished && action == (RecommendActionView::Fail {
            error: RecommendError::Decode,
        }),
        (RecommendPhase::AwaitingReply, RecommendEventView::Unreachable) => next
            == RecommendPhase::Finished && action == (RecommendActionView::Fail {
            error: RecommendError::Transport,
        }),
        _ => next == RecommendPhase::Finished && action == (RecommendActionView::Fail {
            error: RecommendError::UnexpectedEvent,
        }),
    }
}

impl LLMClient {
    /// A client for [`MODEL`] that identifies itself with `api_key`.
    pub fn new(api_key: &str) -> (client: LLMClient)
        ensures
            client.api_key@ == api_key@,
            client.api_url@ == model_url(),
    {
        let api_url = String::from_str("https://generativelanguage.googleapis.com/v1beta/models/");
        let api_url = api_url.concat(MODEL);
        let api_url = api_url.concat(":generateContent");
        LLMClient { api_key: String::from_str(api_key), api_url }
    }

    /// Address to which a question is posted: the service, with the key as
    /// the query.
    pub open spec fn request_url_text(&self) -> Seq<char> {
        self.api_url@ + "?key="@ + self.api_key@
    }

    /// Builds the address to which a question is posted.
    pub fn request_url(&self) -> (url: String)
        ensures
            url@ == self.request_url_text(),
    {
        let url = self.api_url.clone();
        let url = url.concat("?key=");
        url.concat(self.api_key.as_str())
    }

    /// One step of the making of a recommendation for the account
    /// `steam_id`.
    ///
    /// The embedding program starts with [`RecommendPhase::Idle`] and
    /// [`RecommendEvent::Start`], performs each action that is returned and
    /// reports what came of it, until the action is
    /// [`RecommendAction::Done`] or [`RecommendAction::Fail`]. Every step is
    /// one that [`recommend_step`] allows; the order of the games in the
    /// question and its voice are drawn at random.
    pub fn get_recommendation(
        &self,
        steam_id: &str,
        phase: RecommendPhase,
        event: RecommendEvent,
    ) -> (next: (RecommendPhase, RecommendAction))
        ensures
            recommend_step(self.request_url_text(), steam_id@, phase, event@, next.0, next.1@),
    {
        match (phase, event) {
            (RecommendPhase::Idle, RecommendEvent::Start) => (
                RecommendPhase::LoadingGames,
                RecommendAction::LoadGames { steam_id: String::from_str(steam_id) },
            ),
            (RecommendPhase::LoadingGames, RecommendEvent::Games(Err(e))) => (
                RecommendPhase::Finished,
                RecommendAction::Fail { error: RecommendError::Store(e) },
            ),
            (RecommendPhase::LoadingGames, RecommendEvent::Games(Ok(games))) => {
                if games.len() == 0 {
                    (
                        RecommendPhase::Finished,
                        RecommendAction::Done { text: String::from_str(NO_GAMES) },
                    )
                } else {
                    let prompt = draw_prompt(&games);
                    (
                        RecommendPhase::AwaitingReply,
                        RecommendAction::Ask { url: self.request_url(), prompt },
                    )
                }
            },
            (RecommendPhase::AwaitingReply, RecommendEvent::Reply(Some(candidates))) => (
                RecommendPhase::Finished,
                RecommendAction::Done { text: first_recommendation(&candidates) },
            ),
            (RecommendPhase::AwaitingReply, RecommendEvent::Reply(None)) => (
                RecommendPhase::Finished,
                RecommendAction::Fail { error: RecommendError::Decode },
            ),
            (RecommendPhase::AwaitingReply, RecommendEvent::Unreachable) => (
                RecommendPhase::Finished,
                RecommendAction::Fail { error: RecommendError::Transport },
            ),
            _ => (
                RecommendPhase::Finished,
                RecommendAction::Fail { error: RecommendError::UnexpectedEvent },
            ),
        }
    }
}

} // verus!
