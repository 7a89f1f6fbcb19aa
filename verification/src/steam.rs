//! Steam data types and the fetch client's retry policy.

use vstd::arithmetic::power2::{
    lemma2_to64, lemma2_to64_rest, lemma_pow2_strictly_increases, lemma_pow2_unfold, pow2,
};
use crate::text::{decimal, to_decimal};
use vstd::prelude::*;

verus! {

/// One entry of an account's library: a game and the minutes played in total.
#[derive(Debug)]
pub struct SteamGame {
    pub name: String,
    pub playtime_forever: u32,
}

/// Mathematical value of a [`SteamGame`].
pub struct GameView {
    pub name: Seq<char>,
    pub playtime_forever: u32,
}

impl View for SteamGame {
    type V = GameView;

    open spec fn view(&self) -> GameView {
        GameView { name: self.name@, playtime_forever: self.playtime_forever }
    }
}

impl DeepView for SteamGame {
    type V = GameView;

    open spec fn deep_view(&self) -> GameView {
        self@
    }
}

impl Clone for SteamGame {
    fn clone(&self) -> (res: Self)
        ensures
            res == *self,
    {
        SteamGame { name: self.name.clone(), playtime_forever: self.playtime_forever }
    }
}

/// A copy of `games`.
pub fn clone_games(games: &Vec<SteamGame>) -> (copy: Vec<SteamGame>)
    ensures
        copy.deep_view() == games.deep_view(),
{
    let mut copy: Vec<SteamGame> = Vec::new();
    let mut i: usize = 0;
    while i < games.len()
        invariant
            i <= games.len(),
            copy.len() == i,
            forall|k: int| 0 <= k < i ==> (#[trigger] copy[k])@ == games[k]@,
        decreases games.len() - i,
    {
        copy.push(games[i].clone());
        i = i + 1;
    }
    assert(copy.deep_view() =~= games.deep_view());
    copy
}

/// The list of games that one account owns, in the order the catalogue gave them.
#[derive(Debug)]
pub struct SteamOwnedGames {
    pub games: Vec<SteamGame>,
}

impl View for SteamOwnedGames {
    type V = Seq<GameView>;

    open spec fn view(&self) -> Seq<GameView> {
        self.games.deep_view()
    }
}

/// The public profile of a Steam account.
#[derive(Debug)]
pub struct SteamProfile {
    pub steam_id: String,
    pub persona_name: String,
    pub avatar: String,
}

/// Mathematical value of a [`SteamProfile`].
pub struct ProfileView {
    pub steam_id: Seq<char>,
    pub persona_name: Seq<char>,
    pub avatar: Seq<char>,
}

impl View for SteamProfile {
    type V = ProfileView;

    open spec fn view(&self) -> ProfileView {
        ProfileView {
            steam_id: self.steam_id@,
            persona_name: self.persona_name@,
            avatar: self.avatar@,
        }
    }
}

impl DeepView for SteamProfile {
    type V = ProfileView;

    open spec fn deep_view(&self) -> ProfileView {
        self@
    }
}

/// Number of requests after which the fetch client gives up.
pub const MAX_ATTEMPTS: u32 = 5;

/// Seconds to wait after the catalogue answered that it is rate limiting.
pub const RETRY_COOLDOWN: u64 = 5;

/// The HTTP status by which the catalogue signals rate limiting.
pub const TOO_MANY_REQUESTS: u16 = 429;

/// Root of the Steam web API.
pub const API_URL: &'static str = "https://api.steampowered.com";

/// A status in the 2xx range.
pub open spec fn success_status(status: u16) -> bool {
    200 <= status < 300
}

/// Whether `status` reports success, that is, lies in the 2xx range.
pub fn is_success(status: u16) -> (ok: bool)
    ensures
        ok == success_status(status),
{
    200 <= status && status < 300
}

/// Seconds to wait before the next request, after the request numbered
/// `attempt` (counted from zero) was answered with the failing `status`:
/// the fixed cooldown when rate limited, else two to the power `attempt`.
pub open spec fn retry_delay(status: u16, attempt: nat) -> nat {
    if status == TOO_MANY_REQUESTS {
        RETRY_COOLDOWN as nat
    } else {
        pow2(attempt)
    }
}

/// Computes [`retry_delay`]. The power must fit in 64 bits.
pub fn retry_delay_seconds(status: u16, attempt: u32) -> (seconds: u64)
    requires
        attempt < 64,
    ensures
        seconds == retry_delay(status, attempt as nat),
{
    if status == TOO_MANY_REQUESTS {
        return RETRY_COOLDOWN;
    }
    let mut seconds: u64 = 1;
    let mut done: u32 = 0;
    proof {
        lemma2_to64();
    }
    while done < attempt
        invariant
            done <= attempt < 64,
            seconds == pow2(done as nat),
        decreases attempt - done,
    {
        proof {
            lemma_pow2_unfold((done + 1) as nat);
            lemma_pow2_strictly_increases((done + 1) as nat, 64);
            lemma2_to64_rest();
        }
        seconds = seconds * 2;
        done = done + 1;
    }
    seconds
}

/// Why a fetch of an account's library ended without one.
#[derive(Debug, Clone, Copy, PartialEq, Eq, Structural)]
pub enum FetchError {
    /// Every request allowed was answered with a failing status; the last
    /// of them is kept.
    ExhaustedRetries { last_status: u16 },
    /// A request could not be sent, or its answer could not be read.
    Transport,
    /// A successful answer did not hold a list of games.
    Decode,
    /// The client was handed an event that does not answer its last action.
    UnexpectedEvent,
}

impl FetchError {
    /// What the error says.
    pub open spec fn text(self) -> Seq<char> {
        match self {
            FetchError::ExhaustedRetries { .. } => "Max retries reached"@,
            FetchError::Transport => "The request could not be completed."@,
            FetchError::Decode => "The response holds no list of games."@,
            FetchError::UnexpectedEvent => "The fetch was driven out of turn."@,
        }
    }

    /// Writes what the error says.
    pub fn message(&self) -> (text: String)
        ensures
            text@ == self.text(),
    {
        match self {
            FetchError::ExhaustedRetries { .. } => String::from_str("Max retries reached"),
            FetchError::Transport => String::from_str("The request could not be completed."),
            FetchError::Decode => String::from_str("The response holds no list of games."),
            FetchError::UnexpectedEvent => String::from_str("The fetch was driven out of turn."),
        }
    }
}

/// Where a fetch stands between two events.
#[derive(Debug, Clone, Copy, PartialEq, Eq, Structural)]
pub enum FetchPhase {
    /// Nothing was asked for yet.
    Idle,
    /// A request is on its way.
    AwaitingStatus,
    /// A successful status came in and the body is being read.
    AwaitingBody,
    /// The client waits before it asks again.
    Sleeping,
    /// The fetch has ended.
    Finished,
}

/// Mathematical value of a [`FetchState`].
pub struct FetchStateView {
    pub phase: FetchPhase,
    /// Requests sent so far.
    pub requests: nat,
    /// The most recent status, zero before the first answer.
    pub last_status: u16,
}

impl FetchStateView {
    /// The state before anything happened.
    pub open spec fn initial() -> FetchStateView {
        FetchStateView { phase: FetchPhase::Idle, requests: 0, last_status: 0 }
    }

    /// States that a fetch can be in: the retry ceiling is respected,
    /// nothing is awaited before the first request, and a wait is only
    /// served while a request is left to follow it.
    pub open spec fn wf(self) -> bool {
        &&& self.requests <= MAX_ATTEMPTS
        &&& self.phase == FetchPhase::Idle ==> self.requests == 0
        &&& (self.phase == FetchPhase::AwaitingStatus || self.phase == FetchPhase::AwaitingBody
            || self.phase == FetchPhase::Sleeping) ==> self.requests >= 1
        &&& self.phase == FetchPhase::Sleeping ==> self.requests < MAX_ATTEMPTS
    }
}

/// Progress of one fetch. Values come from [`FetchState::new`] and from
/// [`fetch_steam_games`] only, so the retry ceiling always holds of them.
#[derive(Debug)]
pub struct FetchState {
    phase: FetchPhase,
    requests: u32,
    last_status: u16,
}

impl View for FetchState {
    type V = FetchStateView;

    closed spec fn view(&self) -> FetchStateView {
        FetchStateView {
            phase: self.phase,
            requests: self.requests as nat,
            last_status: self.last_status,
        }
    }
}

impl FetchState {
    #[verifier::type_invariant]
    spec fn inv(self) -> bool {
        self@.wf()
    }

    /// A fetch that has not begun.
    pub fn new() -> (state: FetchState)
        ensures
            state@ == FetchStateView::initial(),
    {
        FetchState { phase: FetchPhase::Idle, requests: 0, last_status: 0 }
    }

    /// The phase the fetch is in.
    pub fn phase(&self) -> (phase: FetchPhase)
        ensures
            phase == self@.phase,
    {
        self.phase
    }

    /// Requests sent so far.
    pub fn requests(&self) -> (requests: u32)
        ensures
            requests == self@.requests,
            self@.wf(),
    {
        proof {
            use_type_invariant(self);
        }
        self.requests
    }
}

/// What the embedding program reports to a fetch.
#[derive(Debug)]
pub enum FetchEvent {
    /// The fetch is to begin.
    Start,
    /// The request was answered with this HTTP status.
    Status(u16),
    /// The request, or the reading of its answer, failed on the way.
    Unreachable,
    /// The body of a successful answer: the games it lists, or `None` where
    /// it does not hold such a list.
    Body(Option<Vec<SteamGame>>),
    /// The wait that was asked for is over.
    Woke,
}

/// Mathematical value of a [`FetchEvent`].
pub enum FetchEventView {
    Start,
    Status(u16),
    Unreachable,
    Body(Option<Seq<GameView>>),
    Woke,
}

impl View for FetchEvent {
    type V = FetchEventView;

    open spec fn view(&self) -> FetchEventView {
        match self {
            FetchEvent::Start => FetchEventView::Start,
            FetchEvent::Status(status) => FetchEventView::Status(*status),
            FetchEvent::Unreachable => FetchEventView::Unreachable,
            FetchEvent::Body(Some(games)) => FetchEventView::Body(Some(games.deep_view())),
            FetchEvent::Body(None) => FetchEventView::Body(None),
            FetchEvent::Woke => FetchEventView::Woke,
        }
    }
}

/// What a fetch asks the embedding program to do next.
#[derive(Debug)]
pub enum FetchAction {
    /// Send one GET request to `url` and report its status.
    Get { url: String },
    /// Read the body of the answer and report the games in it.
    ReadBody,
    /// Wait for `seconds`, then report that the wait is over.
    Sleep { seconds: u64 },
    /// The fetch succeeded with these games.
    Done { games: Vec<SteamGame> },
    /// The fetch failed.
    Fail { error: FetchError },
}

/// Mathematical value of a [`FetchAction`].
pub enum FetchActionView {
    Get { url: Seq<char> },
    ReadBody,
    Sleep { seconds: nat },
    Done { games: Seq<GameView> },
    Fail { error: FetchError },
}

impl View for FetchAction {
    type V = FetchActionView;

    open spec fn view(&self) -> FetchActionView {
        match self {
            FetchAction::Get { url } => FetchActionView::Get { url: url@ },
            FetchAction::ReadBody => FetchActionView::ReadBody,
            FetchAction::Sleep { seconds } => FetchActionView::Sleep { seconds: *seconds as nat },
            FetchAction::Done { games } => FetchActionView::Done { games: games.deep_view() },
            FetchAction::Fail { error } => FetchActionView::Fail { error: *error },
        }
    }
}

/// Address of the request for the games that `steam_id` owns.
pub open spec fn owned_games_url(base_url: Seq<char>, steam_id: Seq<char>, api_key: Seq<char>) -> Seq<
    char,
> {
    base_url + "/IPlayerService/GetOwnedGames/v1/?key="@ + api_key + "&steamid="@ + steam_id
        + "&format=json&include_appinfo=true"@
}

/// The fetch ended with `error`.
pub open spec fn fetch_failed(s: FetchStateView, error: FetchError) -> (
    FetchStateView,
    FetchActionView,
) {
    (FetchStateView { phase: FetchPhase::Finished, ..s }, FetchActionView::Fail { error })
}

/// The transition of the fetch client: the state and the action that follow
/// when `event` arrives in state `s`.
///
/// A request is sent at the start and after each wait. A successful status
/// is followed by reading the body, whose games end the fetch. A failing
/// status on a request before the last one allowed is followed by a wait of
/// [`retry_delay`] seconds, with the requests that failed before this one as
/// the exponent, and then by the next request. A failing status on the
/// request numbered [`MAX_ATTEMPTS`] ends the fetch at once, without a wait,
/// with [`FetchError::ExhaustedRetries`] and that status. A failure on the way
/// ends the fetch at once, and so does an event that does not answer the last
/// action.
pub open spec fn fetch_step(url: Seq<char>, s: FetchStateView, event: FetchEventView) -> (
    FetchStateView,
    FetchActionView,
) {
    match (s.phase, event) {
        (FetchPhase::Idle, FetchEventView::Start) => (
            FetchStateView { phase: FetchPhase::AwaitingStatus, requests: s.requests + 1, ..s },
            FetchActionView::Get { url },
        ),
        (FetchPhase::AwaitingStatus, FetchEventView::Status(status)) => if success_status(status) {
            (
                FetchStateView { phase: FetchPhase::AwaitingBody, last_status: status, ..s },
                FetchActionView::ReadBody,
            )
        } else if s.requests < MAX_ATTEMPTS {
            (
                FetchStateView { phase: FetchPhase::Sleeping, last_status: status, ..s },
                FetchActionView::Sleep { seconds: retry_delay(status, (s.requests - 1) as nat) },
            )
        } else {
            (
                FetchStateView { phase: FetchPhase::Finished, last_status: status, ..s },
                FetchActionView::Fail {
                    error: FetchError::ExhaustedRetries { last_status: status },
                },
            )
        },
        (FetchPhase::AwaitingStatus, FetchEventView::Unreachable) => fetch_failed(
            s,
            FetchError::Transport,
        ),
        (FetchPhase::AwaitingBody, FetchEventView::Body(Some(games))) => (
            FetchStateView { phase: FetchPhase::Finished, ..s },
            FetchActionView::Done { games },
        ),
        (FetchPhase::AwaitingBody, FetchEventView::Body(None)) => fetch_failed(
            s,
            FetchError::Decode,
        ),
        (FetchPhase::AwaitingBody, FetchEventView::Unreachable) => fetch_failed(
            s,
            FetchError::Transport,
        ),
        (FetchPhase::Sleeping, FetchEventView::Woke) => (
            FetchStateView { phase: FetchPhase::AwaitingStatus, requests: s.requests + 1, ..s },
            FetchActionView::Get { url },
        ),
        _ => fetch_failed(s, FetchError::UnexpectedEvent),
    }
}

/// Builds [`owned_games_url`].
pub fn build_owned_games_url(base_url: &str, steam_id: &str, api_key: &str) -> (url: String)
    ensures
        url@ == owned_games_url(base_url@, steam_id@, api_key@),
{
    let url = String::from_str(base_url);
    let url = url.concat("/IPlayerService/GetOwnedGames/v1/?key=");
    let url = url.concat(api_key);
    let url = url.concat("&steamid=");
    let url = url.concat(steam_id);
    url.concat("&format=json&include_appinfo=true")
}

/// One step of the fetch of the games that `steam_id` owns.
///
/// The embedding program starts with [`FetchState::new`] and
/// [`FetchEvent::Start`], performs each action that is returned and reports
/// what came of it, until the action is [`FetchAction::Done`] or
/// [`FetchAction::Fail`]. The step taken is [`fetch_step`].
pub fn fetch_steam_games(
    base_url: &str,
    steam_id: &str,
    api_key: &str,
    state: FetchState,
    event: FetchEvent,
) -> (next: (FetchState, FetchAction))
    ensures
        (next.0@, next.1@) == fetch_step(
            owned_games_url(base_url@, steam_id@, api_key@),
            state@,
            event@,
        ),
        state@.wf(),
        next.0@.wf(),
{
    proof {
        use_type_invariant(&state);
    }
    let FetchState { phase, requests, last_status } = state;
    match (phase, event) {
        (FetchPhase::Idle, FetchEvent::Start) => (
            FetchState { phase: FetchPhase::AwaitingStatus, requests: requests + 1, last_status },
            FetchAction::Get { url: build_owned_games_url(base_url, steam_id, api_key) },
        ),
        (FetchPhase::AwaitingStatus, FetchEvent::Status(status)) => {
            if is_success(status) {
                (
                    FetchState { phase: FetchPhase::AwaitingBody, requests, last_status: status },
                    FetchAction::ReadBody,
                )
            } else if requests < MAX_ATTEMPTS {
                let seconds = retry_delay_seconds(status, requests - 1);
                (
                    FetchState { phase: FetchPhase::Sleeping, requests, last_status: status },
                    FetchAction::Sleep { seconds },
                )
            } else {
                (
                    FetchState { phase: FetchPhase::Finished, requests, last_status: status },
                    FetchAction::Fail {
                        error: FetchError::ExhaustedRetries { last_status: status },
                    },
                )
            }
        },
        (FetchPhase::AwaitingBody, FetchEvent::Body(Some(games))) => (
            FetchState { phase: FetchPhase::Finished, requests, last_status },
            FetchAction::Done { games },
        ),
        (FetchPhase::AwaitingBody, FetchEvent::Body(None)) => (
            FetchState { phase: FetchPhase::Finished, requests, last_status },
            FetchAction::Fail { error: FetchError::Decode },
        ),
        (FetchPhase::AwaitingStatus, FetchEvent::Unreachable) => (
            FetchState { phase: FetchPhase::Finished, requests, last_status },
            FetchAction::Fail { error: FetchError::Transport },
        ),
        (FetchPhase::AwaitingBody, FetchEvent::Unreachable) => (
            FetchState { phase: FetchPhase::Finished, requests, last_status },
            FetchAction::Fail { error: FetchError::Transport },
        ),
        (FetchPhase::Sleeping, FetchEvent::Woke) => (
            FetchState { phase: FetchPhase::AwaitingStatus, requests: requests + 1, last_status },
            FetchAction::Get { url: build_owned_games_url(base_url, steam_id, api_key) },
        ),
        _ => (
            FetchState { phase: FetchPhase::Finished, requests, last_status },
            FetchAction::Fail { error: FetchError::UnexpectedEvent },
        ),
    }
}

/// What came of a fetch whose requests were answered from a list of statuses.
pub struct FetchRun {
    /// Requests that were sent.
    pub requests: nat,
    /// Seconds spent waiting between them.
    pub slept: nat,
    /// How the fetch ended, or `None` while a request is still unanswered.
    pub result: Option<Result<Seq<GameView>, FetchError>>,
}

/// The end that an action stands for, if it is a final one.
pub open spec fn fetch_end(action: FetchActionView) -> Option<Result<Seq<GameView>, FetchError>> {
    match action {
        FetchActionView::Done { games } => Some(Ok(games)),
        FetchActionView::Fail { error } => Some(Err(error)),
        _ => None,
    }
}

/// Follows the fetch client from a state `s` in which a request is under way.
/// The request and those after it are answered with `statuses`, in order;
/// the body of a successful answer decodes to `body`; every wait that is asked
/// for is served in full.
pub open spec fn fetch_run(
    url: Seq<char>,
    s: FetchStateView,
    statuses: Seq<u16>,
    body: Option<Seq<GameView>>,
) -> FetchRun
    decreases statuses.len(),
{
    if statuses.len() == 0 {
        FetchRun { requests: 1, slept: 0, result: None }
    } else {
        let (s1, a1) = fetch_step(url, s, FetchEventView::Status(statuses[0]));
        match a1 {
            FetchActionView::ReadBody => FetchRun {
                requests: 1,
                slept: 0,
                result: fetch_end(fetch_step(url, s1, FetchEventView::Body(body)).1),
            },
            FetchActionView::Sleep { seconds } => {
                let rest = fetch_run(
                    url,
                    fetch_step(url, s1, FetchEventView::Woke).0,
                    statuses.drop_first(),
                    body,
                );
                FetchRun {
                    requests: rest.requests + 1,
                    slept: rest.slept + seconds,
                    result: rest.result,
                }
            },
            _ => FetchRun { requests: 1, slept: 0, result: fetch_end(a1) },
        }
    }
}

/// Number of failing statuses at the head of `statuses`.
pub open spec fn leading_failures(statuses: Seq<u16>) -> nat
    decreases statuses.len(),
{
    if statuses.len() == 0 || success_status(statuses[0]) {
        0
    } else {
        1 + leading_failures(statuses.drop_first())
    }
}

/// Sum of the waits after the first `count` of `statuses`, the first of
/// which answered the request numbered `attempt`.
pub open spec fn total_delay(statuses: Seq<u16>, attempt: nat, count: nat) -> nat
    decreases count,
{
    if count == 0 || statuses.len() == 0 {
        0
    } else {
        retry_delay(statuses[0], attempt) + total_delay(
            statuses.drop_first(),
            attempt + 1,
            (count - 1) as nat,
        )
    }
}

/// What a decoded, or undecodable, body ends a fetch with.
pub open spec fn body_result(body: Option<Seq<GameView>>) -> Result<Seq<GameView>, FetchError> {
    match body {
        Some(games) => Ok(games),
        None => Err(FetchError::Decode),
    }
}

/// The retry policy, from any request on. A fetch whose latest request is
/// under way, answered from `statuses`, sends one further request for each
/// answer up to the first success and returns that answer's body; if the
/// failures reach the ceiling first, it stops at the last request allowed and
/// reports its status. It waits after each failure but the last: between two
/// requests, never before giving up.
pub proof fn lemma_fetch_run(
    url: Seq<char>,
    s: FetchStateView,
    statuses: Seq<u16>,
    body: Option<Seq<GameView>>,
)
    requires
        s.wf(),
        s.phase == FetchPhase::AwaitingStatus,
        leading_failures(statuses) < statuses.len() || s.requests + statuses.len()
            > MAX_ATTEMPTS,
    ensures
        s.requests + leading_failures(statuses) <= MAX_ATTEMPTS ==> fetch_run(
            url,
            s,
            statuses,
            body,
        ) == (FetchRun {
            requests: leading_failures(statuses) + 1,
            slept: total_delay(statuses, (s.requests - 1) as nat, leading_failures(statuses)),
            result: Some(body_result(body)),
        }),
        s.requests + leading_failures(statuses) > MAX_ATTEMPTS ==> fetch_run(
            url,
            s,
            statuses,
            body,
        ) == (FetchRun {
            requests: (MAX_ATTEMPTS - s.requests + 1) as nat,
            slept: total_delay(
                statuses,
                (s.requests - 1) as nat,
                (MAX_ATTEMPTS - s.requests) as nat,
            ),
            result: Some(
                Err(
                    FetchError::ExhaustedRetries {
                        last_status: statuses[MAX_ATTEMPTS - s.requests],
                    },
                ),
            ),
        }),
    decreases statuses.len(),
{
    if statuses.len() == 0 {
    } else if success_status(statuses[0]) {
    } else {
        let (s1, a1) = fetch_step(url, s, FetchEventView::Status(statuses[0]));
        let rest = statuses.drop_first();
        if s.requests < MAX_ATTEMPTS {
            let s2 = fetch_step(url, s1, FetchEventView::Woke).0;
            lemma_fetch_run(url, s2, rest, body);
            if s.requests + leading_failures(statuses) > MAX_ATTEMPTS {
                assert(rest[MAX_ATTEMPTS - s2.requests] == statuses[MAX_ATTEMPTS - s.requests]);
            }
        }
    }
}

/// The retry policy of a whole fetch. Answered from `statuses`, a fetch that
/// meets its first success at the request numbered `k`, counted from zero and
/// with `k` below [`MAX_ATTEMPTS`], sends exactly `k + 1` requests, waits after
/// each of the `k` failures, and returns the body of that answer. A fetch whose
/// first [`MAX_ATTEMPTS`] answers all fail sends exactly that many requests,
/// waits between them and not after the last, and ends with
/// [`FetchError::ExhaustedRetries`], which carries the last status.
pub proof fn law_retry_policy(url: Seq<char>, statuses: Seq<u16>, body: Option<Seq<GameView>>)
    requires
        leading_failures(statuses) < statuses.len() || statuses.len() >= MAX_ATTEMPTS,
    ensures
        fetch_step(url, FetchStateView::initial(), FetchEventView::Start).1
            == (FetchActionView::Get { url }),
        leading_failures(statuses) < MAX_ATTEMPTS ==> fetch_run(
            url,
            fetch_step(url, FetchStateView::initial(), FetchEventView::Start).0,
            statuses,
            body,
        ) == (FetchRun {
            requests: leading_failures(statuses) + 1,
            slept: total_delay(statuses, 0, leading_failures(statuses)),
            result: Some(body_result(body)),
        }),
        leading_failures(statuses) >= MAX_ATTEMPTS ==> fetch_run(
            url,
            fetch_step(url, FetchStateView::initial(), FetchEventView::Start).0,
            statuses,
            body,
        ) == (FetchRun {
            requests: MAX_ATTEMPTS as nat,
            slept: total_delay(statuses, 0, (MAX_ATTEMPTS - 1) as nat),
            result: Some(
                Err(FetchError::ExhaustedRetries { last_status: statuses[MAX_ATTEMPTS - 1] }),
            ),
        }),
{
    let start = fetch_step(url, FetchStateView::initial(), FetchEventView::Start).0;
    lemma_fetch_run(url, start, statuses, body);
}

/// The retry ceiling. Whatever the events, a step keeps the number of
/// requests sent at or below [`MAX_ATTEMPTS`]; a step that sends a request
/// raises that number by exactly one, and no other step changes it. A wait
/// is only asked for while a request is left to follow it, and the end of
/// the wait sends that request.
pub proof fn law_retry_ceiling(url: Seq<char>, s: FetchStateView, event: FetchEventView)
    requires
        s.wf(),
    ensures
        fetch_step(url, s, event).0.wf(),
        fetch_step(url, s, event).0.requests <= MAX_ATTEMPTS,
        fetch_step(url, s, event).1 is Get ==> fetch_step(url, s, event).0.requests == s.requests
            + 1,
        !(fetch_step(url, s, event).1 is Get) ==> fetch_step(url, s, event).0.requests
            == s.requests,
        fetch_step(url, s, event).1 is Sleep ==> fetch_step(url, s, event).0.requests
            < MAX_ATTEMPTS && fetch_step(
            url,
            fetch_step(url, s, event).0,
            FetchEventView::Woke,
        ).1 == (FetchActionView::Get { url }),
{
}

/// Why the lookup of a profile ended without one.
#[derive(Debug, Clone, Copy, PartialEq, Eq, Structural)]
pub enum ProfileError {
    /// The answer lists no profile for the account.
    NotFound,
    /// The request was answered with a failing status.
    BadStatus { status: u16 },
    /// The request could not be sent, or its answer could not be read.
    Transport,
    /// A successful answer did not hold a list of profiles.
    Decode,
    /// The lookup was handed an event that does not answer its last action.
    UnexpectedEvent,
}

impl ProfileError {
    /// What the error says of the lookup of `steam_id`.
    pub open spec fn text(self, steam_id: Seq<char>) -> Seq<char> {
        match self {
            ProfileError::NotFound => "No Steam profile found for the provided Steam ID!"@,
            ProfileError::BadStatus { status } => "Failed to fetch Steam profile for steam ID: "@
                + steam_id + "; Status: "@ + decimal(status as nat),
            ProfileError::Transport => "The request could not be completed."@,
            ProfileError::Decode => "The response holds no list of profiles."@,
            ProfileError::UnexpectedEvent => "The lookup was driven out of turn."@,
        }
    }

    /// Writes what the error says of the lookup of `steam_id`.
    pub fn message(&self, steam_id: &str) -> (text: String)
        ensures
            text@ == self.text(steam_id@),
    {
        match self {
            ProfileError::NotFound => String::from_str(
                "No Steam profile found for the provided Steam ID!",
            ),
            ProfileError::BadStatus { status } => {
                let text = String::from_str("Failed to fetch Steam profile for steam ID: ");
                let text = text.concat(steam_id);
                let text = text.concat("; Status: ");
                text.concat(to_decimal(*status as u64).as_str())
            },
            ProfileError::Transport => String::from_str("The request could not be completed."),
            ProfileError::Decode => String::from_str("The response holds no list of profiles."),
            ProfileError::UnexpectedEvent => String::from_str("The lookup was driven out of turn."),
        }
    }
}

/// Where the lookup of a profile stands between two events.
#[derive(Debug, Clone, Copy, PartialEq, Eq, Structural)]
pub enum ProfilePhase {
    /// Nothing was asked for yet.
    Idle,
    /// The request is on its way.
    AwaitingStatus,
    /// A successful status came in and the body is being read.
    AwaitingBody,
    /// The lookup has ended.
    Finished,
}

/// What the embedding program reports to the lookup of a profile.
#[derive(Debug)]
pub enum ProfileEvent {
    /// The lookup is to begin.
    Start,
    /// The request was answered with this HTTP status.
    Status(u16),
    /// The request, or the reading of its answer, failed on the way.
    Unreachable,
    /// The body of a successful answer: the profiles it lists, or `None`
    /// where it does not hold such a list.
    Body(Option<Vec<SteamProfile>>),
}

/// Mathematical value of a [`ProfileEvent`].
pub enum ProfileEventView {
    Start,
    Status(u16),
    Unreachable,
    Body(Option<Seq<ProfileView>>),
}

impl View for ProfileEvent {
    type V = ProfileEventView;

    open spec fn view(&self) -> ProfileEventView {
        match self {
            ProfileEvent::Start => ProfileEventView::Start,
            ProfileEvent::Status(status) => ProfileEventView::Status(*status),
            ProfileEvent::Unreachable => ProfileEventView::Unreachable,
            ProfileEvent::Body(Some(players)) => ProfileEventView::Body(Some(players.deep_view())),
            ProfileEvent::Body(None) => ProfileEventView::Body(None),
        }
    }
}

/// What the lookup of a profile asks the embedding program to do next.
#[derive(Debug)]
pub enum ProfileAction {
    /// Send one GET request to `url` and report its status.
    Get { url: String },
    /// Read the body of the answer and report the profiles in it.
    ReadBody,
    /// The account exists and this is its profile.
    Done { profile: SteamProfile },
    /// The lookup failed.
    Fail { error: ProfileError },
}

/// Mathematical value of a [`ProfileAction`].
pub enum ProfileActionView {
    Get { url: Seq<char> },
    ReadBody,
    Done { profile: ProfileView },
    Fail { error: ProfileError },
}

impl View for ProfileAction {
    type V = ProfileActionView;

    open spec fn view(&self) -> ProfileActionView {
        match self {
            ProfileAction::Get { url } => ProfileActionView::Get { url: url@ },
            ProfileAction::ReadBody => ProfileActionView::ReadBody,
            ProfileAction::Done { profile } => ProfileActionView::Done { profile: profile@ },
            ProfileAction::Fail { error } => ProfileActionView::Fail { error: *error },
        }
    }
}

/// Address of the request for the profile of `steam_id`.
pub open spec fn profile_url(steam_id: Seq<char>, api_key: Seq<char>) -> Seq<char> {
    API_URL@ + "/ISteamUser/GetPlayerSummaries/v0002/?key="@ + api_key + "&steamids="@ + steam_id
}

/// The transition of the profile lookup: the phase and the action that
/// follow when `event` arrives in `phase`.
///
/// One request is sent and never repeated. A failing status ends the lookup
/// with [`ProfileError::BadStatus`]. A successful one is followed by reading
/// the body: the first profile listed is the result, and a list without any
/// ends the lookup with [`ProfileError::NotFound`].
pub open spec fn profile_step(url: Seq<char>, phase: ProfilePhase, event: ProfileEventView) -> (
    ProfilePhase,
    ProfileActionView,
) {
    match (phase, event) {
        (ProfilePhase::Idle, ProfileEventView::Start) => (
            ProfilePhase::AwaitingStatus,
            ProfileActionView::Get { url },
        ),
        (ProfilePhase::AwaitingStatus, ProfileEventView::Status(status)) => if success_status(
            status,
        ) {
            (ProfilePhase::AwaitingBody, ProfileActionView::ReadBody)
        } else {
            (
                ProfilePhase::Finished,
                ProfileActionView::Fail { error: ProfileError::BadStatus { status } },
            )
        },
        (ProfilePhase::AwaitingStatus, ProfileEventView::Unreachable) => (
            ProfilePhase::Finished,
            ProfileActionView::Fail { error: ProfileError::Transport },
        ),
        (ProfilePhase::AwaitingBody, ProfileEventView::Body(Some(players))) => if players.len()
            > 0 {
            (ProfilePhase::Finished, ProfileActionView::Done { profile: players[0] })
        } else {
            (ProfilePhase::Finished, ProfileActionView::Fail { error: ProfileError::NotFound })
        },
        (ProfilePhase::AwaitingBody, ProfileEventView::Body(None)) => (
            ProfilePhase::Finished,
            ProfileActionView::Fail { error: ProfileError::Decode },
        ),
        (ProfilePhase::AwaitingBody, ProfileEventView::Unreachable) => (
            ProfilePhase::Finished,
            ProfileActionView::Fail { error: ProfileError::Transport },
        ),
        _ => (
            ProfilePhase::Finished,
            ProfileActionView::Fail { error: ProfileError::UnexpectedEvent },
        ),
    }
}

/// Builds [`profile_url`].
pub fn build_profile_url(steam_id: &str, api_key: &str) -> (url: String)
    ensures
        url@ == profile_url(steam_id@, api_key@),
{
    let url = String::from_str(API_URL);
    let url = url.concat("/ISteamUser/GetPlayerSummaries/v0002/?key=");
    let url = url.concat(api_key);
    let url = url.concat("&steamids=");
    url.concat(steam_id)
}

/// One step of the lookup of the profile of `steam_id`, by which an account
/// id is checked before it is linked.
///
/// The embedding program starts with [`ProfilePhase::Idle`] and
/// [`ProfileEvent::Start`], performs each action that is returned and reports
/// what came of it, until the action is [`ProfileAction::Done`] or
/// [`ProfileAction::Fail`]. The step taken is [`profile_step`].
pub fn fetch_steam_profile(
    steam_id: &str,
    api_key: &str,
    phase: ProfilePhase,
    event: ProfileEvent,
) -> (next: (ProfilePhase, ProfileAction))
    ensures
        (next.0, next.1@) == profile_step(profile_url(steam_id@, api_key@), phase, event@),
{
    match (phase, event) {
        (ProfilePhase::Idle, ProfileEvent::Start) => (
            ProfilePhase::AwaitingStatus,
            ProfileAction::Get { url: build_profile_url(steam_id, api_key) },
        ),
        (ProfilePhase::AwaitingStatus, ProfileEvent::Status(status)) => {
            if is_success(status) {
                (ProfilePhase::AwaitingBody, ProfileAction::ReadBody)
            } else {
                (
                    ProfilePhase::Finished,
                    ProfileAction::Fail { error: ProfileError::BadStatus { status } },
                )
            }
        },
        (ProfilePhase::AwaitingStatus, ProfileEvent::Unreachable) => (
            ProfilePhase::Finished,
            ProfileAction::Fail { error: ProfileError::Transport },
        ),
        (ProfilePhase::AwaitingBody, ProfileEvent::Body(Some(players))) => {
            let mut players = players;
            if players.len() > 0 {
                let profile = players.remove(0);
                (ProfilePhase::Finished, ProfileAction::Done { profile })
            } else {
                (ProfilePhase::Finished, ProfileAction::Fail { error: ProfileError::NotFound })
            }
        },
        (ProfilePhase::AwaitingBody, ProfileEvent::Body(None)) => (
            ProfilePhase::Finished,
            ProfileAction::Fail { error: ProfileError::Decode },
        ),
        (ProfilePhase::AwaitingBody, ProfileEvent::Unreachable) => (
            ProfilePhase::Finished,
            ProfileAction::Fail { error: ProfileError::Transport },
        ),
        _ => (
            ProfilePhase::Finished,
            ProfileAction::Fail { error: ProfileError::UnexpectedEvent },
        ),
    }
}

} // verus!
