//! The sync orchestrator: one pass over all linked accounts, or over one.
//!
//! For each account in turn the games are fetched and, if that succeeded,
//! written to the store. What happens to one account has no bearing on the
//! next: a failure is recorded and the pass goes on.

use crate::database::db::{
    distinct_names, games_of, law_upsert_leaves_others, lemma_upsert_local, of_account, upserted,
    GameRow, StoreError,
};
use crate::steam::{FetchError, GameView, SteamGame, SteamOwnedGames};
use crate::text::{decimal, to_decimal};
use vstd::prelude::*;

verus! {

/// How the sync of one account ended.
#[derive(Debug, Clone, Copy, PartialEq, Eq)]
pub enum SyncOutcome {
    /// The games were fetched and written.
    Synced,
    /// The games could not be fetched; the store was not touched.
    FetchFailed(FetchError),
    /// The games were fetched, and the store refused or failed the write.
    StoreFailed(StoreError),
}

/// An account and how its sync ended.
#[derive(Debug)]
pub struct AccountOutcome {
    pub steam_id: String,
    pub outcome: SyncOutcome,
}

/// Mathematical value of an [`AccountOutcome`].
pub struct AccountOutcomeView {
    pub steam_id: Seq<char>,
    pub outcome: SyncOutcome,
}

impl DeepView for AccountOutcome {
    type V = AccountOutcomeView;

    open spec fn deep_view(&self) -> AccountOutcomeView {
        AccountOutcomeView { steam_id: self.steam_id@, outcome: self.outcome }
    }
}

/// Why a pass ended without a report on its accounts.
#[derive(Debug, Clone, Copy, PartialEq, Eq)]
pub enum SyncError {
    /// The linked accounts could not be listed.
    CannotList(StoreError),
    /// The pass was handed an event that does not answer its last action.
    UnexpectedEvent,
}

/// Where a pass stands between two events.
#[derive(Debug, Clone, Copy, PartialEq, Eq, Structural)]
pub enum SyncPhase {
    /// Nothing was asked for yet, and the accounts are not known.
    Idle,
    /// The accounts are being listed.
    Listing,
    /// The accounts are known and none was attempted.
    Ready,
    /// The games of the current account are being fetched.
    Fetching,
    /// The games of the current account are being written.
    Storing,
    /// The pass has ended.
    Finished,
}

/// Mathematical value of a [`SyncState`].
pub struct SyncStateView {
    pub phase: SyncPhase,
    /// The accounts of this pass, in the order in which they are attempted.
    pub accounts: Seq<Seq<char>>,
    /// The outcomes so far, one for each account that was dealt with.
    pub outcomes: Seq<AccountOutcomeView>,
}

impl SyncStateView {
    /// The state before anything happened.
    pub open spec fn initial() -> SyncStateView {
        SyncStateView { phase: SyncPhase::Idle, accounts: Seq::empty(), outcomes: Seq::empty() }
    }

    /// The state of a pass over the one account `steam_id`.
    pub open spec fn single(steam_id: Seq<char>) -> SyncStateView {
        SyncStateView { phase: SyncPhase::Ready, accounts: seq![steam_id], outcomes: Seq::empty() }
    }

    /// States that a pass can be in: the outcomes belong to the first
    /// accounts, in order, and an account is under way only while one is left.
    pub open spec fn wf(self) -> bool {
        &&& self.outcomes.len() <= self.accounts.len()
        &&& forall|k: int|
            0 <= k < self.outcomes.len() ==> (#[trigger] self.outcomes[k]).steam_id
                == self.accounts[k]
        &&& (self.phase == SyncPhase::Fetching || self.phase == SyncPhase::Storing)
            ==> self.outcomes.len() < self.accounts.len()
    }

    /// The account that is under way, or next.
    pub open spec fn current(self) -> Seq<char> {
        self.accounts[self.outcomes.len() as int]
    }
}

/// Progress of one pass. Values come from [`SyncState::new`],
/// [`SyncState::for_account`] and [`sync_all_users_games`] only.
#[derive(Debug)]
pub struct SyncState {
    phase: SyncPhase,
    accounts: Vec<String>,
    outcomes: Vec<AccountOutcome>,
}

impl View for SyncState {
    type V = SyncStateView;

    closed spec fn view(&self) -> SyncStateView {
        SyncStateView {
            phase: self.phase,
            accounts: self.accounts.deep_view(),
            outcomes: self.outcomes.deep_view(),
        }
    }
}

impl SyncState {
    #[verifier::type_invariant]
    spec fn inv(self) -> bool {
        self@.wf()
    }

    /// A pass over all linked accounts that has not begun.
    pub fn new() -> (state: SyncState)
        ensures
            state@ == SyncStateView::initial(),
    {
        let state = SyncState { phase: SyncPhase::Idle, accounts: Vec::new(), outcomes: Vec::new() };
        assert(state@.accounts =~= Seq::empty());
        assert(state@.outcomes =~= Seq::empty());
        state
    }

    /// A pass over the one account `steam_id` that has not begun: the sync
    /// that is run on demand.
    pub fn for_account(steam_id: &str) -> (state: SyncState)
        ensures
            state@ == SyncStateView::single(steam_id@),
    {
        let mut accounts: Vec<String> = Vec::new();
        accounts.push(String::from_str(steam_id));
        let state = SyncState { phase: SyncPhase::Ready, accounts, outcomes: Vec::new() };
        assert(state@.accounts =~= seq![steam_id@]);
        assert(state@.outcomes =~= Seq::empty());
        state
    }

    /// The phase the pass is in.
    pub fn phase(&self) -> (phase: SyncPhase)
        ensures
            phase == self@.phase,
    {
        self.phase
    }
}

/// What the embedding program reports to a pass.
#[derive(Debug)]
pub enum SyncEvent {
    /// The pass is to begin.
    Start,
    /// The linked accounts, or why the store could not list them.
    Accounts(Result<Vec<String>, StoreError>),
    /// The games of the current account, or why they could not be fetched.
    Fetched(Result<Vec<SteamGame>, FetchError>),
    /// The write for the current account went through, or why it did not.
    Stored(Result<(), StoreError>),
}

/// Mathematical value of a [`SyncEvent`].
pub enum SyncEventView {
    Start,
    Accounts(Result<Seq<Seq<char>>, StoreError>),
    Fetched(Result<Seq<GameView>, FetchError>),
    Stored(Result<(), StoreError>),
}

impl View for SyncEvent {
    type V = SyncEventView;

    open spec fn view(&self) -> SyncEventView {
        match self {
            SyncEvent::Start => SyncEventView::Start,
            SyncEvent::Accounts(Ok(ids)) => SyncEventView::Accounts(Ok(ids.deep_view())),
            SyncEvent::Accounts(Err(e)) => SyncEventView::Accounts(Err(*e)),
            SyncEvent::Fetched(Ok(games)) => SyncEventView::Fetched(Ok(games.deep_view())),
            SyncEvent::Fetched(Err(e)) => SyncEventView::Fetched(Err(*e)),
            SyncEvent::Stored(r) => SyncEventView::Stored(*r),
        }
    }
}

/// What a pass asks the embedding program to do next.
#[derive(Debug)]
pub enum SyncAction {
    /// List the linked accounts and report them.
    ListAccounts,
    /// Fetch the games of `steam_id` and report them.
    Fetch { steam_id: String },
    /// Write `games` for `steam_id` in one batch and report how it went.
    Store { steam_id: String, games: SteamOwnedGames },
    /// The pass is over: the outcome for each account, in the order in
    /// which they were attempted, or why no account was attempted.
    Finish { report: Result<Vec<AccountOutcome>, SyncError> },
}

/// Mathematical value of a [`SyncAction`].
pub enum SyncActionView {
    ListAccounts,
    Fetch { steam_id: Seq<char> },
    Store { steam_id: Seq<char>, games: Seq<GameView> },
    Finish { report: Result<Seq<AccountOutcomeView>, SyncError> },
}

impl View for SyncAction {
    type V = SyncActionView;

    open spec fn view(&self) -> SyncActionView {
        match self {
            SyncAction::ListAccounts => SyncActionView::ListAccounts,
            SyncAction::Fetch { steam_id } => SyncActionView::Fetch { steam_id: steam_id@ },
            SyncAction::Store { steam_id, games } => SyncActionView::Store {
                steam_id: steam_id@,
                games: games@,
            },
            SyncAction::Finish { report: Ok(outcomes) } => SyncActionView::Finish {
                report: Ok(outcomes.deep_view()),
            },
            SyncAction::Finish { report: Err(e) } => SyncActionView::Finish { report: Err(*e) },
        }
    }
}

/// Turns to the next account: fetches it, or ends the pass with the report
/// when every account was dealt with.
pub open spec fn sync_advance(s: SyncStateView) -> (SyncStateView, SyncActionView) {
    if s.outcomes.len() < s.accounts.len() {
        (
            SyncStateView { phase: SyncPhase::Fetching, ..s },
            SyncActionView::Fetch { steam_id: s.current() },
        )
    } else {
        (
            SyncStateView { phase: SyncPhase::Finished, ..s },
            SyncActionView::Finish { report: Ok(s.outcomes) },
        )
    }
}

/// Records how the sync of the current account ended, and turns to the next.
pub open spec fn sync_record(s: SyncStateView, outcome: SyncOutcome) -> (
    SyncStateView,
    SyncActionView,
) {
    sync_advance(
        SyncStateView {
            outcomes: s.outcomes.push(AccountOutcomeView { steam_id: s.current(), outcome }),
            ..s
        },
    )
}

/// The pass ended before its accounts were dealt with.
pub open spec fn sync_aborted(s: SyncStateView, error: SyncError) -> (
    SyncStateView,
    SyncActionView,
) {
    (SyncStateView { phase: SyncPhase::Finished, ..s }, SyncActionView::Finish { report: Err(error) })
}

/// The transition of a pass: the state and the action that follow when
/// `event` arrives in state `s`.
///
/// A pass over all accounts first has them listed. If that fails the pass
/// ends with [`SyncError::CannotList`]. Otherwise the accounts are taken in
/// the order of the list: the games of an account are fetched; if they came,
/// they are written, and the account is recorded as
/// [`SyncOutcome::Synced`] or [`SyncOutcome::StoreFailed`]; if they did not,
/// nothing is written and the account is recorded as
/// [`SyncOutcome::FetchFailed`]. Whatever was recorded, the next account
/// follows. After the last one the pass ends with the outcomes.
pub open spec fn sync_step(s: SyncStateView, event: SyncEventView) -> (
    SyncStateView,
    SyncActionView,
) {
    match (s.phase, event) {
        (SyncPhase::Idle, SyncEventView::Start) => (
            SyncStateView { phase: SyncPhase::Listing, ..s },
            SyncActionView::ListAccounts,
        ),
        (SyncPhase::Listing, SyncEventView::Accounts(Ok(ids))) => sync_advance(
            SyncStateView { phase: SyncPhase::Ready, accounts: ids, outcomes: Seq::empty() },
        ),
        (SyncPhase::Listing, SyncEventView::Accounts(Err(e))) => sync_aborted(
            s,
            SyncError::CannotList(e),
        ),
        (SyncPhase::Ready, SyncEventView::Start) => sync_advance(s),
        (SyncPhase::Fetching, SyncEventView::Fetched(Ok(games))) => (
            SyncStateView { phase: SyncPhase::Storing, ..s },
            SyncActionView::Store { steam_id: s.current(), games },
        ),
        (SyncPhase::Fetching, SyncEventView::Fetched(Err(e))) => sync_record(
            s,
            SyncOutcome::FetchFailed(e),
        ),
        (SyncPhase::Storing, SyncEventView::Stored(Ok(()))) => sync_record(s, SyncOutcome::Synced),
        (SyncPhase::Storing, SyncEventView::Stored(Err(e))) => sync_record(
            s,
            SyncOutcome::StoreFailed(e),
        ),
        _ => sync_aborted(s, SyncError::UnexpectedEvent),
    }
}

/// Computes [`sync_advance`].
fn advance(accounts: Vec<String>, outcomes: Vec<AccountOutcome>) -> (next: (SyncState, SyncAction))
    requires
        (SyncStateView {
            phase: SyncPhase::Ready,
            accounts: accounts.deep_view(),
            outcomes: outcomes.deep_view(),
        }).wf(),
    ensures
        (next.0@, next.1@) == sync_advance(
            SyncStateView {
                phase: SyncPhase::Ready,
                accounts: accounts.deep_view(),
                outcomes: outcomes.deep_view(),
            },
        ),
{
    if outcomes.len() < accounts.len() {
        let steam_id = accounts[outcomes.len()].clone();
        assert(accounts.deep_view()[outcomes.len() as int] == accounts[outcomes.len() as int]@);
        (SyncState { phase: SyncPhase::Fetching, accounts, outcomes }, SyncAction::Fetch { steam_id })
    } else {
        let report = clone_outcomes(&outcomes);
        (
            SyncState { phase: SyncPhase::Finished, accounts, outcomes },
            SyncAction::Finish { report: Ok(report) },
        )
    }
}

/// A copy of `outcomes`.
fn clone_outcomes(outcomes: &Vec<AccountOutcome>) -> (copy: Vec<AccountOutcome>)
    ensures
        copy.deep_view() == outcomes.deep_view(),
{
    let mut copy: Vec<AccountOutcome> = Vec::new();
    let mut i: usize = 0;
    while i < outcomes.len()
        invariant
            i <= outcomes.len(),
            copy.len() == i,
            forall|k: int| 0 <= k < i ==> (#[trigger] copy[k]).deep_view() == outcomes[k].deep_view(),
        decreases outcomes.len() - i,
    {
        copy.push(
            AccountOutcome { steam_id: outcomes[i].steam_id.clone(), outcome: outcomes[i].outcome },
        );
        i = i + 1;
    }
    assert(copy.deep_view() =~= outcomes.deep_view());
    copy
}

/// Computes [`sync_record`].
fn record(accounts: Vec<String>, outcomes: Vec<AccountOutcome>, outcome: SyncOutcome) -> (next: (
    SyncState,
    SyncAction,
))
    requires
        (SyncStateView {
            phase: SyncPhase::Fetching,
            accounts: accounts.deep_view(),
            outcomes: outcomes.deep_view(),
        }).wf(),
    ensures
        (next.0@, next.1@) == sync_record(
            SyncStateView {
                phase: SyncPhase::Fetching,
                accounts: accounts.deep_view(),
                outcomes: outcomes.deep_view(),
            },
            outcome,
        ),
{
    let mut outcomes = outcomes;
    let ghost earlier = outcomes.deep_view();
    let steam_id = accounts[outcomes.len()].clone();
    assert(accounts.deep_view()[outcomes.len() as int] == accounts[outcomes.len() as int]@);
    outcomes.push(AccountOutcome { steam_id, outcome });
    assert(outcomes.deep_view() =~= earlier.push(
        AccountOutcomeView { steam_id: accounts.deep_view()[earlier.len() as int], outcome },
    ));
    advance(accounts, outcomes)
}

/// One step of a sync pass over all linked accounts, or over one.
///
/// The embedding program starts with [`SyncState::new`], or with
/// [`SyncState::for_account`] for a sync on demand, and
/// [`SyncEvent::Start`]; it performs each action that is returned and
/// reports what came of it, until the action is [`SyncAction::Finish`]. The
/// step taken is [`sync_step`].
pub fn sync_all_users_games(state: SyncState, event: SyncEvent) -> (next: (SyncState, SyncAction))
    ensures
        (next.0@, next.1@) == sync_step(state@, event@),
        state@.wf(),
        next.0@.wf(),
{
    proof {
        use_type_invariant(&state);
    }
    let SyncState { phase, accounts, outcomes } = state;
    match (phase, event) {
        (SyncPhase::Idle, SyncEvent::Start) => (
            SyncState { phase: SyncPhase::Listing, accounts, outcomes },
            SyncAction::ListAccounts,
        ),
        (SyncPhase::Listing, SyncEvent::Accounts(Ok(ids))) => {
            let none: Vec<AccountOutcome> = Vec::new();
            assert(none.deep_view() =~= Seq::empty());
            advance(ids, none)
        },
        (SyncPhase::Listing, SyncEvent::Accounts(Err(e))) => (
            SyncState { phase: SyncPhase::Finished, accounts, outcomes },
            SyncAction::Finish { report: Err(SyncError::CannotList(e)) },
        ),
        (SyncPhase::Ready, SyncEvent::Start) => advance(accounts, outcomes),
        (SyncPhase::Fetching, SyncEvent::Fetched(Ok(games))) => {
            let steam_id = accounts[outcomes.len()].clone();
            assert(accounts.deep_view()[outcomes.len() as int] == accounts[outcomes.len() as int]@);
            (
                SyncState { phase: SyncPhase::Storing, accounts, outcomes },
                SyncAction::Store { steam_id, games: SteamOwnedGames { games } },
            )
        },
        (SyncPhase::Fetching, SyncEvent::Fetched(Err(e))) => record(
            accounts,
            outcomes,
            SyncOutcome::FetchFailed(e),
        ),
        (SyncPhase::Storing, SyncEvent::Stored(Ok(()))) => record(
            accounts,
            outcomes,
            SyncOutcome::Synced,
        ),
        (SyncPhase::Storing, SyncEvent::Stored(Err(e))) => record(
            accounts,
            outcomes,
            SyncOutcome::StoreFailed(e),
        ),
        _ => (
            SyncState { phase: SyncPhase::Finished, accounts, outcomes },
            SyncAction::Finish { report: Err(SyncError::UnexpectedEvent) },
        ),
    }
}

/// What the embedding program finds for one account: what the fetch came
/// to and, for the case that there is something to write, what the write
/// comes to.
pub struct AccountResult {
    pub fetched: Result<Seq<GameView>, FetchError>,
    pub stored: Result<(), StoreError>,
}

/// The outcome that a pass owes an account, given what was found for it.
pub open spec fn outcome_of(result: AccountResult) -> SyncOutcome {
    match result.fetched {
        Err(e) => SyncOutcome::FetchFailed(e),
        Ok(_) => match result.stored {
            Ok(()) => SyncOutcome::Synced,
            Err(e) => SyncOutcome::StoreFailed(e),
        },
    }
}

/// What a pass asked for on behalf of one account: a fetch, and the write
/// of `written` if it asked for one.
pub struct AccountAttempt {
    pub steam_id: Seq<char>,
    pub written: Option<Seq<GameView>>,
}

/// The attempt that a pass owes the account `steam_id`, given what was
/// found for it.
pub open spec fn attempt_of(steam_id: Seq<char>, result: AccountResult) -> AccountAttempt {
    AccountAttempt {
        steam_id,
        written: match result.fetched {
            Ok(games) => Some(games),
            Err(_) => None,
        },
    }
}

/// What came of a pass.
pub struct SyncRun {
    /// The accounts that were fetched, in order, each with what was written.
    pub attempts: Seq<AccountAttempt>,
    /// The final report, or `None` while an action is unanswered.
    pub report: Option<Result<Seq<AccountOutcomeView>, SyncError>>,
}

/// Follows a pass from the state `s` that asked for `action`. The fetches
/// and writes of the accounts that follow are answered from `results`, one
/// entry per account.
pub open spec fn sync_run(s: SyncStateView, action: SyncActionView, results: Seq<AccountResult>) -> SyncRun
    decreases results.len(),
{
    match action {
        SyncActionView::Finish { report } => SyncRun { attempts: Seq::empty(), report: Some(report) },
        SyncActionView::Fetch { steam_id } => if results.len() == 0 {
            SyncRun { attempts: Seq::empty(), report: None }
        } else {
            let (s1, a1) = sync_step(s, SyncEventView::Fetched(results[0].fetched));
            match a1 {
                SyncActionView::Store { steam_id: target, games } => {
                    let (s2, a2) = sync_step(s1, SyncEventView::Stored(results[0].stored));
                    let rest = sync_run(s2, a2, results.drop_first());
                    SyncRun {
                        attempts: seq![AccountAttempt { steam_id: target, written: Some(games) }]
                            + rest.attempts,
                        report: rest.report,
                    }
                },
                _ => {
                    let rest = sync_run(s1, a1, results.drop_first());
                    SyncRun {
                        attempts: seq![AccountAttempt { steam_id, written: None }] + rest.attempts,
                        report: rest.report,
                    }
                },
            }
        },
        _ => SyncRun { attempts: Seq::empty(), report: None },
    }
}

/// A pass from any account on: each account that is left is attempted, in
/// order, and gets the outcome that its own result calls for.
pub proof fn lemma_sync_run(base: SyncStateView, results: Seq<AccountResult>)
    requires
        base.wf(),
        results.len() == base.accounts.len() - base.outcomes.len(),
    ensures
        sync_run(sync_advance(base).0, sync_advance(base).1, results) == (SyncRun {
            attempts: Seq::new(
                results.len(),
                |k: int| attempt_of(base.accounts[base.outcomes.len() + k], results[k]),
            ),
            report: Some(
                Ok(
                    base.outcomes + Seq::new(
                        results.len(),
                        |k: int|
                            AccountOutcomeView {
                                steam_id: base.accounts[base.outcomes.len() + k],
                                outcome: outcome_of(results[k]),
                            },
                    ),
                ),
            ),
        }),
    decreases results.len(),
{
    let (s, a) = sync_advance(base);
    let run = sync_run(s, a, results);
    let done = base.outcomes.len() as int;
    let attempts = Seq::new(
        results.len(),
        |k: int| attempt_of(base.accounts[done + k], results[k]),
    );
    let outcomes = Seq::new(
        results.len(),
        |k: int|
            AccountOutcomeView { steam_id: base.accounts[done + k], outcome: outcome_of(results[k]) },
    );
    if results.len() == 0 {
        assert(run.attempts =~= attempts);
        assert(base.outcomes + outcomes =~= base.outcomes);
    } else {
        let rest = results.drop_first();
        let next = SyncStateView {
            phase: SyncPhase::Ready,
            accounts: base.accounts,
            outcomes: base.outcomes.push(
                AccountOutcomeView { steam_id: base.accounts[done], outcome: outcome_of(results[0]) },
            ),
        };
        lemma_sync_run(next, rest);
        let later = sync_run(sync_advance(next).0, sync_advance(next).1, rest);
        assert(run.report == later.report);
        assert(run.attempts == seq![attempt_of(base.accounts[done], results[0])] + later.attempts);
        assert(run.attempts =~= attempts);
        assert(later.report == Some(
            Ok::<Seq<AccountOutcomeView>, SyncError>(base.outcomes + outcomes),
        )) by {
            let tail = Seq::new(
                rest.len(),
                |k: int|
                    AccountOutcomeView {
                        steam_id: next.accounts[next.outcomes.len() + k],
                        outcome: outcome_of(rest[k]),
                    },
            );
            assert(next.outcomes + tail =~= base.outcomes + outcomes);
        }
    }
}

/// Failures stay with their account. In a pass over `accounts`, each
/// account is fetched once, in the order of the list, whatever became of
/// the accounts before it; its games are written exactly if its own fetch
/// brought them; and the report gives each account the outcome of its own
/// fetch and write.
pub proof fn law_bulk_isolation(accounts: Seq<Seq<char>>, results: Seq<AccountResult>)
    requires
        results.len() == accounts.len(),
    ensures
        ({
            let begun = sync_step(SyncStateView::initial(), SyncEventView::Start);
            let listed = sync_step(begun.0, SyncEventView::Accounts(Ok(accounts)));
            &&& begun.1 == SyncActionView::ListAccounts
            &&& sync_run(listed.0, listed.1, results) == (SyncRun {
                attempts: Seq::new(accounts.len(), |k: int| attempt_of(accounts[k], results[k])),
                report: Some(
                    Ok(
                        Seq::new(
                            accounts.len(),
                            |k: int|
                                AccountOutcomeView {
                                    steam_id: accounts[k],
                                    outcome: outcome_of(results[k]),
                                },
                        ),
                    ),
                ),
            })
        }),
{
    let base = SyncStateView { phase: SyncPhase::Ready, accounts, outcomes: Seq::empty() };
    lemma_sync_run(base, results);
    let run = sync_run(sync_advance(base).0, sync_advance(base).1, results);
    assert(run.attempts =~= Seq::new(
        accounts.len(),
        |k: int| attempt_of(accounts[k], results[k]),
    ));
    assert(run.report->Some_0->Ok_0 =~= Seq::new(
        accounts.len(),
        |k: int| AccountOutcomeView { steam_id: accounts[k], outcome: outcome_of(results[k]) },
    ));
}

/// The sync of one account on demand: the games are fetched; they are
/// written exactly if the fetch brought them; and the report holds the one
/// outcome, which tells a failed fetch from a failed write.
pub proof fn law_sync_one(steam_id: Seq<char>, result: AccountResult)
    ensures
        ({
            let begun = sync_step(SyncStateView::single(steam_id), SyncEventView::Start);
            sync_run(begun.0, begun.1, seq![result]) == (SyncRun {
                attempts: seq![attempt_of(steam_id, result)],
                report: Some(
                    Ok(seq![AccountOutcomeView { steam_id, outcome: outcome_of(result) }]),
                ),
            })
        }),
{
    let base = SyncStateView::single(steam_id);
    lemma_sync_run(base, seq![result]);
    let run = sync_run(sync_advance(base).0, sync_advance(base).1, seq![result]);
    assert(run.attempts =~= seq![attempt_of(steam_id, result)]);
    assert(run.report->Some_0->Ok_0 =~= seq![
        AccountOutcomeView { steam_id, outcome: outcome_of(result) },
    ]);
}

/// The store takes `games` as one batch: no game is named twice.
pub open spec fn batch_accepted(games: Seq<GameView>) -> bool {
    distinct_names(games)
}

/// What the store answers when `games` are to be written.
pub open spec fn store_answer(games: Seq<GameView>) -> Result<(), StoreError> {
    if distinct_names(games) {
        Ok(())
    } else {
        Err(StoreError::DuplicateItem)
    }
}

/// What is found for an account whose fetch came to `fetched`, when what
/// was fetched is written to the store of this library.
pub open spec fn found(fetched: Result<Seq<GameView>, FetchError>) -> AccountResult {
    AccountResult {
        fetched,
        stored: match fetched {
            Ok(games) => store_answer(games),
            Err(_) => Ok(()),
        },
    }
}

/// [`found`] as a function.
pub open spec fn find() -> spec_fn(Result<Seq<GameView>, FetchError>) -> AccountResult {
    |fetched: Result<Seq<GameView>, FetchError>| found(fetched)
}

/// The rows of the store after the write that `attempt` asked for, if it
/// asked for one that the store takes.
pub open spec fn write_attempt(rows: Seq<GameRow>, attempt: AccountAttempt, now: u64) -> Seq<GameRow> {
    match attempt.written {
        Some(games) => if batch_accepted(games) {
            upserted(rows, attempt.steam_id, games, now)
        } else {
            rows
        },
        None => rows,
    }
}

/// The rows of the store after the writes of `attempts`, one after the
/// other, at the time `now`.
pub open spec fn written(rows: Seq<GameRow>, attempts: Seq<AccountAttempt>, now: u64) -> Seq<GameRow>
    decreases attempts.len(),
{
    if attempts.len() == 0 {
        rows
    } else {
        write_attempt(written(rows, attempts.drop_last(), now), attempts.last(), now)
    }
}

/// Attempts for other accounts leave the rows of an account as they were.
proof fn lemma_written_untouched(
    rows: Seq<GameRow>,
    attempts: Seq<AccountAttempt>,
    now: u64,
    steam_id: Seq<char>,
)
    requires
        forall|i: int| 0 <= i < attempts.len() ==> (#[trigger] attempts[i]).steam_id != steam_id,
    ensures
        written(rows, attempts, now).filter(of_account(steam_id)) == rows.filter(
            of_account(steam_id),
        ),
    decreases attempts.len(),
{
    if attempts.len() > 0 {
        let init = attempts.drop_last();
        let last = attempts.last();
        assert forall|i: int| 0 <= i < init.len() implies (#[trigger] init[i]).steam_id
            != steam_id by {
            assert(init[i] == attempts[i]);
        }
        lemma_written_untouched(rows, init, now, steam_id);
        assert(last == attempts[attempts.len() - 1]);
        match last.written {
            Some(games) => {
                law_upsert_leaves_others(
                    written(rows, init, now),
                    last.steam_id,
                    games,
                    now,
                    steam_id,
                );
            },
            None => {},
        }
    }
}

/// Among attempts for different accounts, the rows of an account are what
/// its own attempt alone would have made of them.
proof fn lemma_written_account(rows: Seq<GameRow>, attempts: Seq<AccountAttempt>, now: u64, k: int)
    requires
        0 <= k < attempts.len(),
        forall|i: int|
            0 <= i < attempts.len() && i != k ==> (#[trigger] attempts[i]).steam_id
                != attempts[k].steam_id,
    ensures
        written(rows, attempts, now).filter(of_account(attempts[k].steam_id)) == write_attempt(
            rows,
            attempts[k],
            now,
        ).filter(of_account(attempts[k].steam_id)),
    decreases attempts.len(),
{
    let steam_id = attempts[k].steam_id;
    let init = attempts.drop_last();
    let last = attempts.last();
    let before = written(rows, init, now);
    assert(last == attempts[attempts.len() - 1]);
    if k == attempts.len() - 1 {
        assert forall|i: int| 0 <= i < init.len() implies (#[trigger] init[i]).steam_id
            != steam_id by {
            assert(init[i] == attempts[i]);
        }
        lemma_written_untouched(rows, init, now, steam_id);
        match last.written {
            Some(games) => {
                lemma_upsert_local(before, rows, steam_id, games, now);
            },
            None => {},
        }
    } else {
        assert(init[k] == attempts[k]);
        assert forall|i: int| 0 <= i < init.len() && i != k implies (#[trigger] init[i]).steam_id
            != init[k].steam_id by {
            assert(init[i] == attempts[i]);
        }
        lemma_written_account(rows, init, now, k);
        match last.written {
            Some(games) => {
                law_upsert_leaves_others(before, last.steam_id, games, now, steam_id);
            },
            None => {},
        }
    }
}

/// A pass over the store. When the games that a pass over different
/// accounts fetches are written to the store of this library, then for each
/// account: if its fetch brought a batch that the store takes, its games read
/// back as that batch alone would have left them, and it is reported as
/// synced; if not, its games read back as before the pass, and it is reported
/// with the failure of its own fetch or write. What became of the other
/// accounts makes no difference.
pub proof fn law_bulk_sync_writes(
    rows: Seq<GameRow>,
    accounts: Seq<Seq<char>>,
    fetched: Seq<Result<Seq<GameView>, FetchError>>,
    now: u64,
    k: int,
)
    requires
        fetched.len() == accounts.len(),
        0 <= k < accounts.len(),
        forall|i: int, j: int|
            0 <= i < j < accounts.len() ==> #[trigger] accounts[i] != #[trigger] accounts[j],
    ensures
        ({
            let begun = sync_step(SyncStateView::initial(), SyncEventView::Start);
            let listed = sync_step(begun.0, SyncEventView::Accounts(Ok(accounts)));
            let run = sync_run(listed.0, listed.1, fetched.map_values(find()));
            let after = written(rows, run.attempts, now);
            &&& run.report matches Some(Ok(outcomes))
            &&& outcomes.len() == accounts.len()
            &&& outcomes[k] == (AccountOutcomeView {
                steam_id: accounts[k],
                outcome: outcome_of(found(fetched[k])),
            })
            &&& games_of(after, accounts[k]) == match fetched[k] {
                Ok(games) => if batch_accepted(games) {
                    games_of(upserted(rows, accounts[k], games, now), accounts[k])
                } else {
                    games_of(rows, accounts[k])
                },
                Err(_) => games_of(rows, accounts[k]),
            }
            &&& outcomes[k].outcome == SyncOutcome::Synced <==> (fetched[k] matches Ok(games)
                && batch_accepted(games))
        }),
{
    let results = fetched.map_values(find());
    law_bulk_isolation(accounts, results);
    let begun = sync_step(SyncStateView::initial(), SyncEventView::Start);
    let listed = sync_step(begun.0, SyncEventView::Accounts(Ok(accounts)));
    let run = sync_run(listed.0, listed.1, results);
    assert(results[k] == found(fetched[k]));
    assert forall|i: int| 0 <= i < run.attempts.len() && i != k implies (
    #[trigger] run.attempts[i]).steam_id != run.attempts[k].steam_id by {
        if i < k {
            assert(accounts[i] != accounts[k]);
        } else {
            assert(accounts[k] != accounts[i]);
        }
    }
    lemma_written_account(rows, run.attempts, now, k);
}

/// The outcome of a pass over one account, read off its report: the
/// outcome of the first account reported. A report without any account counts
/// as a fetch that was driven out of turn, and a pass that could not list
/// its accounts as a failure of the store; a pass that began with
/// [`SyncStateView::single`] ends in neither way.
pub open spec fn single_outcome_of(report: Result<Seq<AccountOutcomeView>, SyncError>) -> SyncOutcome {
    match report {
        Ok(outcomes) => if outcomes.len() > 0 {
            outcomes[0].outcome
        } else {
            SyncOutcome::FetchFailed(FetchError::UnexpectedEvent)
        },
        Err(SyncError::CannotList(e)) => SyncOutcome::StoreFailed(e),
        Err(SyncError::UnexpectedEvent) => SyncOutcome::FetchFailed(FetchError::UnexpectedEvent),
    }
}

/// Reads [`single_outcome_of`] off the report of a pass over one account:
/// success, or the failure with its tag. It never fails itself.
pub fn single_outcome(report: &Result<Vec<AccountOutcome>, SyncError>) -> (outcome: SyncOutcome)
    ensures
        outcome == single_outcome_of(
            match report {
                Ok(outcomes) => Ok(outcomes.deep_view()),
                Err(e) => Err(*e),
            },
        ),
{
    match report {
        Ok(outcomes) => {
            if outcomes.len() > 0 {
                assert(outcomes.deep_view()[0] == outcomes[0].deep_view());
                outcomes[0].outcome
            } else {
                SyncOutcome::FetchFailed(FetchError::UnexpectedEvent)
            }
        },
        Err(SyncError::CannotList(e)) => SyncOutcome::StoreFailed(*e),
        Err(SyncError::UnexpectedEvent) => SyncOutcome::FetchFailed(FetchError::UnexpectedEvent),
    }
}

/// The sync of one account on demand comes to the outcome that what was
/// found for the account calls for, whatever that is.
pub proof fn law_sync_one_outcome(steam_id: Seq<char>, result: AccountResult)
    ensures
        ({
            let begun = sync_step(SyncStateView::single(steam_id), SyncEventView::Start);
            let run = sync_run(begun.0, begun.1, seq![result]);
            run.report matches Some(report) && single_outcome_of(report) == outcome_of(result)
        }),
{
    law_sync_one(steam_id, result);
}

/// Hour of the day at which the daily pass is run.
pub const SYNC_HOUR: u8 = 3;

/// Minute of the hour at which the daily pass is run.
pub const SYNC_MINUTE: u8 = 0;

/// The clock against which a schedule is read.
#[derive(Debug, Clone, Copy, PartialEq, Eq, Structural)]
pub enum Clock {
    /// The local time of the server.
    Local,
    /// Coordinated universal time.
    Utc,
}

/// The schedule that fires once a day at `hour`:`minute`, written with the
/// six fields second, minute, hour, day of the month, month and day of the
/// week.
pub open spec fn daily_schedule_text(hour: u8, minute: u8) -> Seq<char> {
    "0 "@ + decimal(minute as nat) + " "@ + decimal(hour as nat) + " * * *"@
}

/// Writes [`daily_schedule_text`].
pub fn daily_schedule(hour: u8, minute: u8) -> (schedule: String)
    ensures
        schedule@ == daily_schedule_text(hour, minute),
{
    let schedule = String::from_str("0 ");
    let schedule = schedule.concat(to_decimal(minute as u64).as_str());
    let schedule = schedule.concat(" ");
    let schedule = schedule.concat(to_decimal(hour as u64).as_str());
    schedule.concat(" * * *")
}

/// Where the daily pass stands.
#[derive(Debug, Clone, Copy, PartialEq, Eq, Structural)]
pub enum SchedulerPhase {
    /// Nothing was asked for yet.
    Idle,
    /// The scheduler is being created.
    Creating,
    /// The daily job is being added.
    Adding,
    /// The scheduler is being started.
    Starting,
    /// The scheduler runs and reports each firing of the job.
    Running,
    /// The scheduler could not be set up.
    Failed,
}

/// What the embedding program reports to the scheduler.
#[derive(Debug, Clone, Copy, PartialEq, Eq, Structural)]
pub enum SchedulerEvent {
    /// The scheduler is to be set up.
    Start,
    /// The last thing asked for was done.
    Done,
    /// The last thing asked for failed.
    Failed,
    /// The daily job has fired.
    Fired,
}

/// What is to be done next for the daily pass.
#[derive(Debug)]
pub enum SchedulerAction {
    /// Create a scheduler.
    Create,
    /// Add a job that fires on `schedule`, read against `clock`, and
    /// reports each firing.
    AddJob { schedule: String, clock: Clock },
    /// Start the scheduler.
    Launch,
    /// The scheduler runs; nothing is to be done until the job fires.
    Ready,
    /// Run one sync pass over all linked accounts, with the store and the
    /// key that the scheduler was set up with, and report how it ended.
    RunPass,
    /// The scheduler cannot be set up.
    GiveUp,
}

/// Mathematical value of a [`SchedulerAction`].
pub enum SchedulerActionView {
    Create,
    AddJob { schedule: Seq<char>, clock: Clock },
    Launch,
    Ready,
    RunPass,
    GiveUp,
}

impl View for SchedulerAction {
    type V = SchedulerActionView;

    open spec fn view(&self) -> SchedulerActionView {
        match self {
            SchedulerAction::Create => SchedulerActionView::Create,
            SchedulerAction::AddJob { schedule, clock } => SchedulerActionView::AddJob {
                schedule: schedule@,
                clock: *clock,
            },
            SchedulerAction::Launch => SchedulerActionView::Launch,
            SchedulerAction::Ready => SchedulerActionView::Ready,
            SchedulerAction::RunPass => SchedulerActionView::RunPass,
            SchedulerAction::GiveUp => SchedulerActionView::GiveUp,
        }
    }
}

/// The transition of the daily pass. To set it up, a scheduler is created,
/// one job is added that fires at [`SYNC_HOUR`]:[`SYNC_MINUTE`] of every day
/// by the local clock of the server, and the scheduler is started; the first
/// of these that fails ends the setting up. Once the scheduler runs, each
/// firing of the job asks for exactly one sync pass over all accounts.
/// However a pass ended, the scheduler goes on running, and a firing that
/// was missed is not made up for.
pub open spec fn scheduler_step(phase: SchedulerPhase, event: SchedulerEvent) -> (
    SchedulerPhase,
    SchedulerActionView,
) {
    match (phase, event) {
        (SchedulerPhase::Idle, SchedulerEvent::Start) => (
            SchedulerPhase::Creating,
            SchedulerActionView::Create,
        ),
        (SchedulerPhase::Creating, SchedulerEvent::Done) => (
            SchedulerPhase::Adding,
            SchedulerActionView::AddJob {
                schedule: daily_schedule_text(SYNC_HOUR, SYNC_MINUTE),
                clock: Clock::Local,
            },
        ),
        (SchedulerPhase::Adding, SchedulerEvent::Done) => (
            SchedulerPhase::Starting,
            SchedulerActionView::Launch,
        ),
        (SchedulerPhase::Starting, SchedulerEvent::Done) => (
            SchedulerPhase::Running,
            SchedulerActionView::Ready,
        ),
        (SchedulerPhase::Running, SchedulerEvent::Fired) => (
            SchedulerPhase::Running,
            SchedulerActionView::RunPass,
        ),
        (SchedulerPhase::Running, _) => (SchedulerPhase::Running, SchedulerActionView::Ready),
        _ => (SchedulerPhase::Failed, SchedulerActionView::GiveUp),
    }
}

/// One step of the daily pass. The embedding program starts with
/// [`SchedulerPhase::Idle`] and [`SchedulerEvent::Start`], performs each
/// action that is returned and reports whether it was done, until the action
/// is [`SchedulerAction::Ready`] or [`SchedulerAction::GiveUp`]; from then on
/// it reports each firing of the job and how the pass that was asked for
/// ended. The step taken is [`scheduler_step`].
pub fn start_scheduler(phase: SchedulerPhase, event: SchedulerEvent) -> (next: (
    SchedulerPhase,
    SchedulerAction,
))
    ensures
        (next.0, next.1@) == scheduler_step(phase, event),
{
    match (phase, event) {
        (SchedulerPhase::Idle, SchedulerEvent::Start) => (
            SchedulerPhase::Creating,
            SchedulerAction::Create,
        ),
        (SchedulerPhase::Creating, SchedulerEvent::Done) => (
            SchedulerPhase::Adding,
            SchedulerAction::AddJob {
                schedule: daily_schedule(SYNC_HOUR, SYNC_MINUTE),
                clock: Clock::Local,
            },
        ),
        (SchedulerPhase::Adding, SchedulerEvent::Done) => (
            SchedulerPhase::Starting,
            SchedulerAction::Launch,
        ),
        (SchedulerPhase::Starting, SchedulerEvent::Done) => (
            SchedulerPhase::Running,
            SchedulerAction::Ready,
        ),
        (SchedulerPhase::Running, SchedulerEvent::Fired) => (
            SchedulerPhase::Running,
            SchedulerAction::RunPass,
        ),
        (SchedulerPhase::Running, _) => (SchedulerPhase::Running, SchedulerAction::Ready),
        _ => (SchedulerPhase::Failed, SchedulerAction::GiveUp),
    }
}

/// The scheduler always re-arms. Once it runs, it stays running whatever is
/// reported to it: each firing asks for one pass, and the end of a pass, good
/// or bad, asks for nothing and leaves the job on the schedule.
pub proof fn law_scheduler_rearms(event: SchedulerEvent)
    ensures
        scheduler_step(SchedulerPhase::Running, event).0 == SchedulerPhase::Running,
        scheduler_step(SchedulerPhase::Running, SchedulerEvent::Fired).1
            == SchedulerActionView::RunPass,
        event != SchedulerEvent::Fired ==> scheduler_step(SchedulerPhase::Running, event).1
            == SchedulerActionView::Ready,
{
}

} // verus!
