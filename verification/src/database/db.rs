//! The two tables of the store and the operations on them, as a model.
//!
//! `users` links a Discord user to the Steam account that is tracked for
//! them; `games` holds, for each account, one row per game with the minutes
//! played and the time of the last sync. A Discord user occurs in one row of
//! `users` at most, and so does a Steam account; an account and a game name
//! occur together in one row of `games` at most.
//!
//! [`Database`] keeps the rows in memory. It is a model of the store: it
//! says what each operation is to make of the tables, and what is proved
//! here is proved of the model. A program that keeps the tables in a
//! database server sends the statements for these operations itself; that
//! the server does with them what the model does is not proved here. Such a
//! program takes from this module what is decided before and after a
//! statement: whether a batch can be written ([`check_batch`]), how minutes
//! are kept in a signed column ([`stored_minutes`], [`read_minutes`]), and
//! which error a failure stands for ([`StoreError::from_failure`]).

use crate::sequences::{
    lemma_filter_all, lemma_filter_keeps, lemma_filter_map_commute, lemma_filter_order,
    lemma_filter_same, lemma_filter_source, lemma_filter_unchanged,
};
use crate::steam::{GameView, SteamGame, SteamOwnedGames};
use vstd::prelude::*;

verus! {

/// A Discord user and the Steam account linked to them.
#[derive(Debug)]
pub struct User {
    pub discord_id: i64,
    pub username: String,
    pub steam_id: String,
}

/// Mathematical value of a [`User`].
pub struct UserView {
    pub discord_id: i64,
    pub username: Seq<char>,
    pub steam_id: Seq<char>,
}

impl View for User {
    type V = UserView;

    open spec fn view(&self) -> UserView {
        UserView {
            discord_id: self.discord_id,
            username: self.username@,
            steam_id: self.steam_id@,
        }
    }
}

impl DeepView for User {
    type V = UserView;

    open spec fn deep_view(&self) -> UserView {
        self@
    }
}

/// One row of `games`, as a mathematical value.
pub struct GameRow {
    pub steam_id: Seq<char>,
    pub name: Seq<char>,
    pub playtime_forever: u32,
    pub last_updated: u64,
}

struct GameRecord {
    steam_id: String,
    name: String,
    playtime_forever: u32,
    last_updated: u64,
}

impl DeepView for GameRecord {
    type V = GameRow;

    closed spec fn deep_view(&self) -> GameRow {
        GameRow {
            steam_id: self.steam_id@,
            name: self.name@,
            playtime_forever: self.playtime_forever,
            last_updated: self.last_updated,
        }
    }
}

/// Why the store refused an operation.
#[derive(Debug, Clone, Copy, PartialEq, Eq, Structural)]
pub enum StoreError {
    /// The Steam account is linked to another Discord user already.
    AccountTaken,
    /// A batch of games to record named one game twice.
    DuplicateItem,
    /// The store could not be reached, or failed while it worked.
    Unavailable,
}

impl StoreError {
    /// The error for a failure of the database behind the store: a breach
    /// of a uniqueness constraint means that the account is taken; anything
    /// else, that the store is not available.
    pub fn from_failure(unique_violation: bool) -> (error: StoreError)
        ensures
            error == if unique_violation {
                StoreError::AccountTaken
            } else {
                StoreError::Unavailable
            },
    {
        if unique_violation {
            StoreError::AccountTaken
        } else {
            StoreError::Unavailable
        }
    }

    /// What the error says.
    pub open spec fn text(self) -> Seq<char> {
        match self {
            StoreError::AccountTaken => "The Steam account is linked to another user."@,
            StoreError::DuplicateItem => "A game is listed twice."@,
            StoreError::Unavailable => "The database is not available."@,
        }
    }

    /// Writes what the error says.
    pub fn message(&self) -> (text: String)
        ensures
            text@ == self.text(),
    {
        match self {
            StoreError::AccountTaken => String::from_str(
                "The Steam account is linked to another user.",
            ),
            StoreError::DuplicateItem => String::from_str("A game is listed twice."),
            StoreError::Unavailable => String::from_str("The database is not available."),
        }
    }
}

/// Mathematical value of a [`Database`]: the rows of its two tables, in the
/// order in which they were first written.
pub struct DatabaseView {
    pub users: Seq<UserView>,
    pub games: Seq<GameRow>,
}

impl DatabaseView {
    /// The store without any row.
    pub open spec fn empty() -> DatabaseView {
        DatabaseView { users: Seq::empty(), games: Seq::empty() }
    }

    /// The uniqueness constraints of the two tables.
    pub open spec fn wf(self) -> bool {
        &&& forall|i: int, j: int|
            0 <= i < j < self.users.len() ==> (#[trigger] self.users[i]).discord_id != (
            #[trigger] self.users[j]).discord_id
        &&& forall|i: int, j: int|
            0 <= i < j < self.users.len() ==> (#[trigger] self.users[i]).steam_id != (
            #[trigger] self.users[j]).steam_id
        &&& unique_items(self.games)
    }
}

/// No two of `rows` record the same game for the same account.
pub open spec fn unique_items(rows: Seq<GameRow>) -> bool {
    forall|i: int, j: int|
        0 <= i < j < rows.len() ==> !same_item(
            #[trigger] rows[i],
            (#[trigger] rows[j]).steam_id,
            rows[j].name,
        )
}

/// The minutes played as a database keeps them in a signed column of 32
/// bits: the number with the same bits.
pub open spec fn stored_minutes_of(minutes: u32) -> i32 {
    if minutes <= i32::MAX {
        minutes as i32
    } else {
        (minutes - 0x1_0000_0000) as i32
    }
}

/// Computes [`stored_minutes_of`].
pub fn stored_minutes(minutes: u32) -> (stored: i32)
    ensures
        stored == stored_minutes_of(minutes),
{
    if minutes <= 0x7fff_ffff {
        minutes as i32
    } else {
        let above: u32 = minutes - 0x8000_0000;
        let signed: i32 = above as i32;
        signed + i32::MIN
    }
}

/// The minutes played that a signed column of 32 bits holds: the number
/// with the same bits.
pub open spec fn minutes_read_from(stored: i32) -> u32 {
    if stored >= 0 {
        stored as u32
    } else {
        (stored + 0x1_0000_0000) as u32
    }
}

/// Computes [`minutes_read_from`].
pub fn read_minutes(stored: i32) -> (minutes: u32)
    ensures
        minutes == minutes_read_from(stored),
{
    if stored >= 0 {
        stored as u32
    } else {
        let above: i32 = stored - i32::MIN;
        let unsigned: u32 = above as u32;
        unsigned + 0x8000_0000
    }
}

/// Minutes that are written to a signed column and read back are the
/// minutes that were written.
pub proof fn law_minutes_round_trip(minutes: u32)
    ensures
        minutes_read_from(stored_minutes_of(minutes)) == minutes,
{
}

/// `row` records the game `name` for the account `steam_id`.
pub open spec fn same_item(row: GameRow, steam_id: Seq<char>, name: Seq<char>) -> bool {
    row.steam_id == steam_id && row.name == name
}

/// The store. Its rows are reached through the functions of this module
/// only, which keep the uniqueness constraints.
pub struct Database {
    users: Vec<User>,
    games: Vec<GameRecord>,
}

impl View for Database {
    type V = DatabaseView;

    closed spec fn view(&self) -> DatabaseView {
        DatabaseView { users: self.users.deep_view(), games: self.games.deep_view() }
    }
}

impl Database {
    #[verifier::type_invariant]
    spec fn inv(self) -> bool {
        self@.wf()
    }

    /// A store without any row.
    pub fn new() -> (db: Database)
        ensures
            db@ == DatabaseView::empty(),
    {
        let db = Database { users: Vec::new(), games: Vec::new() };
        assert(db@.users =~= Seq::empty());
        assert(db@.games =~= Seq::empty());
        db
    }
}

/// Some user is linked to `steam_id`.
pub open spec fn account_linked(users: Seq<UserView>, steam_id: Seq<char>) -> bool {
    exists|i: int| 0 <= i < users.len() && (#[trigger] users[i]).steam_id == steam_id
}

/// `discord_id` has a row in `users`.
pub open spec fn user_known(users: Seq<UserView>, discord_id: i64) -> bool {
    exists|i: int| 0 <= i < users.len() && (#[trigger] users[i]).discord_id == discord_id
}

/// `steam_id` is linked to a user other than `discord_id`.
pub open spec fn account_taken(users: Seq<UserView>, discord_id: i64, steam_id: Seq<char>) -> bool {
    exists|i: int|
        0 <= i < users.len() && (#[trigger] users[i]).steam_id == steam_id && users[i].discord_id
            != discord_id
}

/// `users` after `discord_id` was linked to `steam_id`: the row of a user
/// who is known already gets the new account and keeps its name; a user who
/// is not gets a new row at the end.
pub open spec fn linked(
    users: Seq<UserView>,
    username: Seq<char>,
    discord_id: i64,
    steam_id: Seq<char>,
) -> Seq<UserView> {
    if user_known(users, discord_id) {
        users.map_values(
            |u: UserView|
                if u.discord_id == discord_id {
                    UserView { steam_id, ..u }
                } else {
                    u
                },
        )
    } else {
        users.push(UserView { discord_id, username, steam_id })
    }
}

/// Links the Discord user `discord_id` to the Steam account `steam_id`,
/// in place of any account they were linked to before.
///
/// Fails, and changes nothing, exactly when the account is linked to
/// another user.
pub fn link_steam(db: &mut Database, username: &str, discord_id: i64, steam_id: &str) -> (res:
    Result<(), StoreError>)
    ensures
        old(db)@.wf(),
        final(db)@.wf(),
        res is Ok <==> !account_taken(old(db)@.users, discord_id, steam_id@),
        res is Ok ==> final(db)@ == (DatabaseView {
            users: linked(old(db)@.users, username@, discord_id, steam_id@),
            games: old(db)@.games,
        }),
        res is Err ==> res == Err::<(), StoreError>(StoreError::AccountTaken) && final(db)@ == old(
            db,
        )@,
{
    proof {
        use_type_invariant(&*db);
    }
    let wanted = String::from_str(steam_id);
    let mut found: Option<usize> = None;
    let mut i: usize = 0;
    while i < db.users.len()
        invariant
            *db == *old(db),
            db@.wf(),
            wanted@ == steam_id@,
            i <= db.users.len(),
            forall|k: int|
                0 <= k < i ==> !((#[trigger] db@.users[k]).steam_id == steam_id@
                    && db@.users[k].discord_id != discord_id),
            match found {
                Some(at) => at < i && db@.users[at as int].discord_id == discord_id,
                None => forall|k: int| 0 <= k < i ==> (#[trigger] db@.users[k]).discord_id != discord_id,
            },
        decreases db.users.len() - i,
    {
        assert(db@.users[i as int] == db.users[i as int]@);
        if db.users[i].discord_id == discord_id {
            found = Some(i);
        } else if db.users[i].steam_id == wanted {
            return Err(StoreError::AccountTaken);
        }
        i = i + 1;
    }
    let ghost before = db@.users;
    let mut users: Vec<User> = Vec::new();
    assert(users.deep_view() =~= Seq::empty());
    assert((DatabaseView { users: users.deep_view(), games: db@.games }).wf());
    std::mem::swap(&mut db.users, &mut users);
    assert(users.deep_view() == before);
    match found {
        Some(at) => {
            let row = users.remove(at);
            users.insert(
                at,
                User { discord_id: row.discord_id, username: row.username, steam_id: wanted },
            );
            assert(user_known(before, discord_id)) by {
                assert(before[at as int].discord_id == discord_id);
            }
            assert(users.deep_view() =~= linked(before, username@, discord_id, steam_id@));
        },
        None => {
            users.push(User { discord_id, username: String::from_str(username), steam_id: wanted });
            assert(users.deep_view() =~= linked(before, username@, discord_id, steam_id@));
        },
    }
    db.users = users;
    Ok(())
}

/// A relink overwrites. After a user was linked to an account, they are
/// linked to that account and to no other: a user who was known keeps their
/// one row, and no row of another user changes.
pub proof fn law_link_overwrites(
    users: Seq<UserView>,
    username: Seq<char>,
    discord_id: i64,
    steam_id: Seq<char>,
)
    ensures
        forall|i: int|
            0 <= i < linked(users, username, discord_id, steam_id).len() && (#[trigger] linked(
                users,
                username,
                discord_id,
                steam_id,
            )[i]).discord_id == discord_id ==> linked(users, username, discord_id, steam_id)[i].steam_id
                == steam_id,
        user_known(linked(users, username, discord_id, steam_id), discord_id),
        user_known(users, discord_id) ==> linked(users, username, discord_id, steam_id).len()
            == users.len(),
        !user_known(users, discord_id) ==> linked(users, username, discord_id, steam_id).len()
            == users.len() + 1,
        forall|i: int|
            0 <= i < users.len() && users[i].discord_id != discord_id ==> (#[trigger] linked(
                users,
                username,
                discord_id,
                steam_id,
            )[i]) == users[i],
{
    let after = linked(users, username, discord_id, steam_id);
    if user_known(users, discord_id) {
        let at = choose|i: int| 0 <= i < users.len() && (#[trigger] users[i]).discord_id == discord_id;
        assert(after[at].discord_id == discord_id);
    } else {
        assert(after[users.len() as int].discord_id == discord_id);
    }
}

/// The account that `discord_id` is linked to, if they are known.
pub open spec fn steam_id_of(users: Seq<UserView>, discord_id: i64) -> Option<Seq<char>> {
    if user_known(users, discord_id) {
        Some(
            users[choose|i: int|
                0 <= i < users.len() && (#[trigger] users[i]).discord_id == discord_id].steam_id,
        )
    } else {
        None
    }
}

/// The Steam account that the Discord user `discord_id` is linked to, or
/// `None` for a user who never linked one. The in-memory store never fails.
pub fn get_steam_id(db: &Database, discord_id: i64) -> (res: Result<Option<String>, StoreError>)
    ensures
        db@.wf(),
        res is Ok,
        res->Ok_0.deep_view() == steam_id_of(db@.users, discord_id),
        forall|i: int|
            0 <= i < db@.users.len() && (#[trigger] db@.users[i]).discord_id == discord_id
                ==> res->Ok_0.deep_view() == Some(db@.users[i].steam_id),
{
    proof {
        use_type_invariant(db);
    }
    let mut i: usize = 0;
    while i < db.users.len()
        invariant
            db@.wf(),
            i <= db.users.len(),
            forall|k: int| 0 <= k < i ==> (#[trigger] db@.users[k]).discord_id != discord_id,
        decreases db.users.len() - i,
    {
        assert(db@.users[i as int] == db.users[i as int]@);
        if db.users[i].discord_id == discord_id {
            let steam_id = db.users[i].steam_id.clone();
            proof {
                let at = choose|k: int|
                    0 <= k < db@.users.len() && (#[trigger] db@.users[k]).discord_id
                        == discord_id;
                assert(at == i);
            }
            return Ok(Some(steam_id));
        }
        i = i + 1;
    }
    Ok(None)
}

/// Whether some Discord user is linked to the Steam account `steam_id`.
/// The in-memory store never fails.
pub fn check_if_user_exists(db: &Database, steam_id: &str) -> (res: Result<bool, StoreError>)
    ensures
        res == Ok::<bool, StoreError>(account_linked(db@.users, steam_id@)),
{
    let wanted = String::from_str(steam_id);
    let mut i: usize = 0;
    while i < db.users.len()
        invariant
            wanted@ == steam_id@,
            i <= db.users.len(),
            forall|k: int| 0 <= k < i ==> (#[trigger] db@.users[k]).steam_id != steam_id@,
        decreases db.users.len() - i,
    {
        assert(db@.users[i as int] == db.users[i as int]@);
        if db.users[i].steam_id == wanted {
            return Ok(true);
        }
        i = i + 1;
    }
    Ok(false)
}

/// The Steam accounts of all linked users, one per user, in the order in
/// which the users were first linked. The in-memory store never fails.
pub fn get_all_steam_ids(db: &Database) -> (res: Result<Vec<String>, StoreError>)
    ensures
        res is Ok,
        res->Ok_0.deep_view() == db@.users.map_values(|u: UserView| u.steam_id),
{
    let mut ids: Vec<String> = Vec::new();
    let mut i: usize = 0;
    while i < db.users.len()
        invariant
            i <= db.users.len(),
            ids.len() == i,
            forall|k: int| 0 <= k < i ==> (#[trigger] ids[k])@ == db@.users[k].steam_id,
        decreases db.users.len() - i,
    {
        assert(db@.users[i as int] == db.users[i as int]@);
        ids.push(db.users[i].steam_id.clone());
        i = i + 1;
    }
    assert(ids.deep_view() =~= db@.users.map_values(|u: UserView| u.steam_id));
    Ok(ids)
}

/// `rows` holds a row for the game `name` of the account `steam_id`.
pub open spec fn stored(rows: Seq<GameRow>, steam_id: Seq<char>, name: Seq<char>) -> bool {
    exists|i: int| 0 <= i < rows.len() && same_item(#[trigger] rows[i], steam_id, name)
}

/// `batch` lists a game called `name`.
pub open spec fn listed(batch: Seq<GameView>, name: Seq<char>) -> bool {
    exists|i: int| 0 <= i < batch.len() && (#[trigger] batch[i]).name == name
}

/// No two games of `batch` have the same name.
pub open spec fn distinct_names(batch: Seq<GameView>) -> bool {
    forall|i: int, j: int|
        0 <= i < j < batch.len() ==> (#[trigger] batch[i]).name != (#[trigger] batch[j]).name
}

/// The minutes that `batch` gives for the game called `name`.
pub open spec fn minutes_in(batch: Seq<GameView>, name: Seq<char>) -> u32 {
    batch[choose|i: int|
        0 <= i < batch.len() && (#[trigger] batch[i]).name == name].playtime_forever
}

/// A row after a batch for `steam_id` was written at time `now`: a row of
/// that account whose game the batch lists takes the minutes from the batch
/// and the new time; every other row stays as it is.
pub open spec fn refreshed(row: GameRow, steam_id: Seq<char>, batch: Seq<GameView>, now: u64) -> GameRow {
    if row.steam_id == steam_id && listed(batch, row.name) {
        GameRow { playtime_forever: minutes_in(batch, row.name), last_updated: now, ..row }
    } else {
        row
    }
}

/// The row that records `game` for `steam_id` as synced at `now`.
pub open spec fn new_row(steam_id: Seq<char>, game: GameView, now: u64) -> GameRow {
    GameRow {
        steam_id,
        name: game.name,
        playtime_forever: game.playtime_forever,
        last_updated: now,
    }
}

/// [`refreshed`] as a function of the row.
pub open spec fn refresh(steam_id: Seq<char>, batch: Seq<GameView>, now: u64) -> spec_fn(
    GameRow,
) -> GameRow {
    |row: GameRow| refreshed(row, steam_id, batch, now)
}

/// The games that `rows` does not hold for `steam_id` yet.
pub open spec fn missing_from(rows: Seq<GameRow>, steam_id: Seq<char>) -> spec_fn(GameView) -> bool {
    |game: GameView| !stored(rows, steam_id, game.name)
}

/// [`new_row`] as a function of the game.
pub open spec fn record(steam_id: Seq<char>, now: u64) -> spec_fn(GameView) -> GameRow {
    |game: GameView| new_row(steam_id, game, now)
}

/// `rows` after the games of `batch` were written for `steam_id` at `now`:
/// the rows that were there, each refreshed where the batch lists its game,
/// followed by a new row for each game that had none, in the order of the
/// batch.
pub open spec fn upserted(
    rows: Seq<GameRow>,
    steam_id: Seq<char>,
    batch: Seq<GameView>,
    now: u64,
) -> Seq<GameRow> {
    rows.map_values(refresh(steam_id, batch, now)) + batch.filter(
        missing_from(rows, steam_id),
    ).map_values(record(steam_id, now))
}

/// The rows of the account `steam_id`.
pub open spec fn of_account(steam_id: Seq<char>) -> spec_fn(GameRow) -> bool {
    |row: GameRow| row.steam_id == steam_id
}

/// The game that a row records.
pub open spec fn as_game() -> spec_fn(GameRow) -> GameView {
    |row: GameRow| GameView { name: row.name, playtime_forever: row.playtime_forever }
}

/// The games recorded for `steam_id`, in the order of their rows.
pub open spec fn games_of(rows: Seq<GameRow>, steam_id: Seq<char>) -> Seq<GameView> {
    rows.filter(of_account(steam_id)).map_values(as_game())
}

/// The time of the last sync of the game `name` of `steam_id`, if recorded.
pub open spec fn last_updated_of(rows: Seq<GameRow>, steam_id: Seq<char>, name: Seq<char>) -> Option<
    u64,
> {
    if stored(rows, steam_id, name) {
        Some(
            rows[choose|i: int|
                0 <= i < rows.len() && same_item(#[trigger] rows[i], steam_id, name)].last_updated,
        )
    } else {
        None
    }
}

/// Position of the game called `name` in `games`, if it is listed.
fn find_game(games: &Vec<SteamGame>, name: &String) -> (at: Option<usize>)
    ensures
        match at {
            Some(k) => k < games.len() && games.deep_view()[k as int].name == name@,
            None => !listed(games.deep_view(), name@),
        },
{
    let mut k: usize = 0;
    while k < games.len()
        invariant
            k <= games.len(),
            forall|q: int| 0 <= q < k ==> (#[trigger] games.deep_view()[q]).name != name@,
        decreases games.len() - k,
    {
        assert(games.deep_view()[k as int] == games[k as int]@);
        if games[k].name == *name {
            return Some(k);
        }
        k = k + 1;
    }
    None
}

/// Position, among the first `upto` rows, of the row of `steam_id` and `name`.
fn find_row(rows: &Vec<GameRecord>, upto: usize, steam_id: &String, name: &String) -> (at: Option<
    usize,
>)
    requires
        upto <= rows.len(),
    ensures
        match at {
            Some(k) => k < upto && same_item(rows.deep_view()[k as int], steam_id@, name@),
            None => !stored(rows.deep_view().take(upto as int), steam_id@, name@),
        },
{
    let mut k: usize = 0;
    while k < upto
        invariant
            k <= upto <= rows.len(),
            forall|q: int|
                0 <= q < k ==> !same_item(#[trigger] rows.deep_view()[q], steam_id@, name@),
        decreases upto - k,
    {
        assert(rows.deep_view()[k as int] == rows[k as int].deep_view());
        if rows[k].steam_id == *steam_id && rows[k].name == *name {
            return Some(k);
        }
        k = k + 1;
    }
    assert forall|q: int| 0 <= q < rows.deep_view().take(upto as int).len() implies !same_item(
        #[trigger] rows.deep_view().take(upto as int)[q],
        steam_id@,
        name@,
    ) by {
        assert(rows.deep_view().take(upto as int)[q] == rows.deep_view()[q]);
    }
    None
}

/// Whether no two of `games` have the same name.
fn names_distinct(games: &Vec<SteamGame>) -> (ok: bool)
    ensures
        ok == distinct_names(games.deep_view()),
{
    let mut j: usize = 0;
    while j < games.len()
        invariant
            j <= games.len(),
            forall|a: int, b: int|
                0 <= a < b < j ==> (#[trigger] games.deep_view()[a]).name != (
                #[trigger] games.deep_view()[b]).name,
        decreases games.len() - j,
    {
        let mut i: usize = 0;
        while i < j
            invariant
                i <= j < games.len(),
                forall|a: int|
                    0 <= a < i ==> (#[trigger] games.deep_view()[a]).name != games.deep_view()[j as int].name,
            decreases j - i,
        {
            assert(games.deep_view()[i as int] == games[i as int]@);
            assert(games.deep_view()[j as int] == games[j as int]@);
            if games[i].name == games[j].name {
                return false;
            }
            i = i + 1;
        }
        j = j + 1;
    }
    true
}

/// With distinct names, the minutes that a batch gives for the name of one
/// of its games are the minutes of that game.
proof fn lemma_minutes_in(batch: Seq<GameView>, k: int)
    requires
        distinct_names(batch),
        0 <= k < batch.len(),
    ensures
        listed(batch, batch[k].name),
        minutes_in(batch, batch[k].name) == batch[k].playtime_forever,
{
    let name = batch[k].name;
    let at = choose|i: int| 0 <= i < batch.len() && (#[trigger] batch[i]).name == name;
    assert(at == k);
}

/// Writing a batch keeps the rows unique.
pub proof fn lemma_upserted_unique(
    rows: Seq<GameRow>,
    steam_id: Seq<char>,
    batch: Seq<GameView>,
    now: u64,
)
    requires
        unique_items(rows),
        distinct_names(batch),
    ensures
        unique_items(upserted(rows, steam_id, batch, now)),
{
    let after = upserted(rows, steam_id, batch, now);
    let fresh = batch.filter(missing_from(rows, steam_id));
    assert forall|i: int, j: int| 0 <= i < j < after.len() implies !same_item(
        #[trigger] after[i],
        (#[trigger] after[j]).steam_id,
        after[j].name,
    ) by {
        let n = rows.len();
        if j < n {
            assert(after[i].name == rows[i].name && after[i].steam_id == rows[i].steam_id);
            assert(after[j].name == rows[j].name && after[j].steam_id == rows[j].steam_id);
        } else if i < n {
            let b = lemma_filter_source(batch, missing_from(rows, steam_id), j - n);
            assert(after[j] == new_row(steam_id, fresh[j - n], now));
            assert(after[i].name == rows[i].name && after[i].steam_id == rows[i].steam_id);
            assert(!stored(rows, steam_id, batch[b].name));
        } else {
            let (a, b) = lemma_filter_order(batch, missing_from(rows, steam_id), i - n, j - n);
            assert(after[i] == new_row(steam_id, fresh[i - n], now));
            assert(after[j] == new_row(steam_id, fresh[j - n], now));
        }
    }
}

/// Whether the store takes `owned_games` as one batch: it takes any batch,
/// the empty one too, but one that names a game twice.
pub fn check_batch(owned_games: &SteamOwnedGames) -> (res: Result<(), StoreError>)
    ensures
        res is Ok <==> distinct_names(owned_games@),
        res is Err ==> res == Err::<(), StoreError>(StoreError::DuplicateItem),
{
    if names_distinct(&owned_games.games) {
        Ok(())
    } else {
        Err(StoreError::DuplicateItem)
    }
}

/// A batch without games leaves every row as it is.
pub proof fn law_upsert_nothing(rows: Seq<GameRow>, steam_id: Seq<char>, now: u64)
    ensures
        upserted(rows, steam_id, Seq::<GameView>::empty(), now) == rows,
{
    let none = Seq::<GameView>::empty();
    assert(none.filter(missing_from(rows, steam_id)) =~= none) by {
        reveal(Seq::filter);
    }
    assert(upserted(rows, steam_id, none, now) =~= rows);
}

/// Records the games of `owned_games` for the account `steam_id`, as synced
/// at `now`, in one batch: a game that has a row gets the minutes of the
/// batch in place of those recorded, and the new time; a game that has none
/// gets a row. Rows of games that the batch does not list, and rows of other
/// accounts, stay as they are.
///
/// A batch without games is written like any other and changes nothing.
/// The batch is refused, and nothing changes, exactly when it names a game
/// twice.
pub fn store_steam_games(
    db: &mut Database,
    steam_id: &str,
    owned_games: SteamOwnedGames,
    now: u64,
) -> (res: Result<(), StoreError>)
    ensures
        old(db)@.wf(),
        final(db)@.wf(),
        res is Ok <==> distinct_names(owned_games@),
        res is Ok ==> final(db)@ == (DatabaseView {
            users: old(db)@.users,
            games: upserted(old(db)@.games, steam_id@, owned_games@, now),
        }),
        res is Err ==> res == Err::<(), StoreError>(StoreError::DuplicateItem) && final(db)@
            == old(db)@,
        owned_games@.len() == 0 ==> final(db)@ == old(db)@,
{
    proof {
        use_type_invariant(&*db);
    }
    match check_batch(&owned_games) {
        Err(e) => {
            return Err(e);
        },
        Ok(_) => {},
    }
    let games = owned_games.games;
    if games.len() == 0 {
        proof {
            assert(games.deep_view() =~= Seq::<GameView>::empty());
            law_upsert_nothing(db@.games, steam_id@, now);
        }
        return Ok(());
    }
    let wanted = String::from_str(steam_id);
    let ghost before = db@.games;
    let ghost batch = games.deep_view();
    let mut rows: Vec<GameRecord> = Vec::new();
    assert(rows.deep_view() =~= Seq::empty());
    assert((DatabaseView { users: db@.users, games: rows.deep_view() }).wf());
    std::mem::swap(&mut db.games, &mut rows);
    assert(rows.deep_view() == before);
    let stored_rows = rows.len();
    let mut j: usize = 0;
    while j < stored_rows
        invariant
            j <= stored_rows == rows.len() == before.len(),
            wanted@ == steam_id@,
            batch == games.deep_view(),
            distinct_names(batch),
            forall|t: int|
                0 <= t < j ==> (#[trigger] rows.deep_view()[t]) == refreshed(
                    before[t],
                    steam_id@,
                    batch,
                    now,
                ),
            forall|t: int| j <= t < stored_rows ==> (#[trigger] rows.deep_view()[t]) == before[t],
        decreases stored_rows - j,
    {
        assert(rows.deep_view()[j as int] == rows[j as int].deep_view());
        if rows[j].steam_id == wanted {
            match find_game(&games, &rows[j].name) {
                Some(k) => {
                    assert(games.deep_view()[k as int] == games[k as int]@);
                    proof {
                        lemma_minutes_in(batch, k as int);
                    }
                    let fresh = GameRecord {
                        steam_id: rows[j].steam_id.clone(),
                        name: rows[j].name.clone(),
                        playtime_forever: games[k].playtime_forever,
                        last_updated: now,
                    };
                    let ghost earlier = rows.deep_view();
                    rows.set(j, fresh);
                    assert forall|t: int| 0 <= t < stored_rows && t != j implies (
                    #[trigger] rows.deep_view()[t]) == earlier[t] by {}
                },
                None => {},
            }
        }
        j = j + 1;
    }
    assert(rows.deep_view() =~= before.map_values(refresh(steam_id@, batch, now)));
    let mut k: usize = 0;
    while k < games.len()
        invariant
            k <= games.len(),
            stored_rows == before.len() <= rows.len(),
            wanted@ == steam_id@,
            batch == games.deep_view(),
            rows.deep_view() == before.map_values(refresh(steam_id@, batch, now)) + batch.take(
                k as int,
            ).filter(missing_from(before, steam_id@)).map_values(record(steam_id@, now)),
        decreases games.len() - k,
    {
        let ghost earlier = rows.deep_view();
        let ghost head = before.map_values(refresh(steam_id@, batch, now));
        let ghost kept = batch.take(k as int).filter(missing_from(before, steam_id@));
        assert(games.deep_view()[k as int] == games[k as int]@);
        proof {
            assert(batch.take(k + 1) =~= batch.take(k as int).push(batch[k as int]));
            batch.take(k as int).lemma_filter_push(
                batch[k as int],
                missing_from(before, steam_id@),
            );
            assert(earlier.take(stored_rows as int) =~= head);
            assert(stored(head, steam_id@, batch[k as int].name) <==> stored(
                before,
                steam_id@,
                batch[k as int].name,
            )) by {
                if stored(head, steam_id@, batch[k as int].name) {
                    let t = choose|t: int|
                        0 <= t < head.len() && same_item(
                            #[trigger] head[t],
                            steam_id@,
                            batch[k as int].name,
                        );
                    assert(same_item(before[t], steam_id@, batch[k as int].name));
                }
                if stored(before, steam_id@, batch[k as int].name) {
                    let t = choose|t: int|
                        0 <= t < before.len() && same_item(
                            #[trigger] before[t],
                            steam_id@,
                            batch[k as int].name,
                        );
                    assert(same_item(head[t], steam_id@, batch[k as int].name));
                }
            }
        }
        match find_row(&rows, stored_rows, &wanted, &games[k].name) {
            Some(_) => {},
            None => {
                rows.push(
                    GameRecord {
                        steam_id: wanted.clone(),
                        name: games[k].name.clone(),
                        playtime_forever: games[k].playtime_forever,
                        last_updated: now,
                    },
                );
                proof {
                    let added = new_row(steam_id@, batch[k as int], now);
                    assert(rows.deep_view() =~= earlier.push(added));
                    assert(kept.push(batch[k as int]).map_values(record(steam_id@, now))
                        =~= kept.map_values(record(steam_id@, now)).push(added));
                    assert(earlier.push(added) =~= head + kept.push(batch[k as int]).map_values(
                        record(steam_id@, now),
                    ));
                }
            },
        }
        k = k + 1;
    }
    proof {
        assert(batch.take(games.len() as int) =~= batch);
        lemma_upserted_unique(before, steam_id@, batch, now);
    }
    db.games = rows;
    Ok(())
}

/// The games recorded for the account `steam_id`, in the order in which
/// they were first recorded; none if nothing was recorded yet. The in-memory
/// store never fails.
pub fn get_user_games(db: &Database, steam_id: &str) -> (res: Result<Vec<SteamGame>, StoreError>)
    ensures
        res is Ok,
        res->Ok_0.deep_view() == games_of(db@.games, steam_id@),
{
    let wanted = String::from_str(steam_id);
    let mut games: Vec<SteamGame> = Vec::new();
    let mut i: usize = 0;
    assert(db@.games.take(0) =~= Seq::empty());
    assert(games.deep_view() =~= games_of(db@.games.take(0), steam_id@)) by {
        reveal(Seq::filter);
    }
    while i < db.games.len()
        invariant
            i <= db.games.len(),
            wanted@ == steam_id@,
            games.deep_view() == games_of(db@.games.take(i as int), steam_id@),
        decreases db.games.len() - i,
    {
        let ghost earlier = games.deep_view();
        let ghost row = db@.games[i as int];
        assert(row == db.games[i as int].deep_view());
        proof {
            assert(db@.games.take(i + 1) =~= db@.games.take(i as int).push(row));
            db@.games.take(i as int).lemma_filter_push(row, of_account(steam_id@));
        }
        if db.games[i].steam_id == wanted {
            games.push(
                SteamGame {
                    name: db.games[i].name.clone(),
                    playtime_forever: db.games[i].playtime_forever,
                },
            );
            proof {
                let kept = db@.games.take(i as int).filter(of_account(steam_id@));
                assert(games.deep_view() =~= earlier.push(as_game()(row)));
                assert(kept.push(row).map_values(as_game()) =~= kept.map_values(as_game()).push(
                    as_game()(row),
                ));
            }
        }
        i = i + 1;
    }
    assert(db@.games.take(db.games.len() as int) =~= db@.games);
    Ok(games)
}

impl Database {
    /// The time at which the game `name` of the account `steam_id` was last
    /// synced, or `None` where the store holds no such row.
    pub fn last_updated(&self, steam_id: &str, name: &str) -> (at: Option<u64>)
        ensures
            self@.wf(),
            at == last_updated_of(self@.games, steam_id@, name@),
    {
        proof {
            use_type_invariant(self);
        }
        let steam_id = String::from_str(steam_id);
        let name = String::from_str(name);
        assert(self@.games.take(self.games.len() as int) =~= self@.games);
        match find_row(&self.games, self.games.len(), &steam_id, &name) {
            Some(k) => {
                assert(self@.games[k as int] == self.games[k as int].deep_view());
                proof {
                    let t = choose|t: int|
                        0 <= t < self@.games.len() && same_item(
                            #[trigger] self@.games[t],
                            steam_id@,
                            name@,
                        );
                    assert(t == k);
                }
                Some(self.games[k].last_updated)
            },
            None => None,
        }
    }
}

/// The names among the games of an account are the names stored for it.
pub proof fn lemma_games_of_names(rows: Seq<GameRow>, steam_id: Seq<char>, name: Seq<char>)
    ensures
        listed(games_of(rows, steam_id), name) <==> stored(rows, steam_id, name),
{
    let games = games_of(rows, steam_id);
    if listed(games, name) {
        let i = choose|i: int| 0 <= i < games.len() && (#[trigger] games[i]).name == name;
        let t = lemma_filter_source(rows, of_account(steam_id), i);
        assert(same_item(rows[t], steam_id, name));
    }
    if stored(rows, steam_id, name) {
        let t = choose|t: int| 0 <= t < rows.len() && same_item(#[trigger] rows[t], steam_id, name);
        let i = lemma_filter_keeps(rows, of_account(steam_id), t);
        assert(games[i].name == name);
    }
}

/// Unique rows give each account games with distinct names.
pub proof fn lemma_games_of_distinct(rows: Seq<GameRow>, steam_id: Seq<char>)
    requires
        unique_items(rows),
    ensures
        distinct_names(games_of(rows, steam_id)),
{
    let games = games_of(rows, steam_id);
    assert forall|i: int, j: int| 0 <= i < j < games.len() implies (#[trigger] games[i]).name != (
    #[trigger] games[j]).name by {
        let (a, b) = lemma_filter_order(rows, of_account(steam_id), i, j);
        let a2 = lemma_filter_source(rows, of_account(steam_id), i);
        let b2 = lemma_filter_source(rows, of_account(steam_id), j);
        assert(!same_item(rows[a], rows[b].steam_id, rows[b].name));
        assert(rows[a].steam_id == steam_id && rows[b].steam_id == steam_id) by {
            assert(rows[a] == rows[a2] && rows[b] == rows[b2]);
        }
    }
}

/// After a batch was written for an account, the store holds a game for
/// some account exactly if it held it before or the batch, written for that
/// very account, lists it.
pub proof fn lemma_upserted_stored(
    rows: Seq<GameRow>,
    steam_id: Seq<char>,
    batch: Seq<GameView>,
    now: u64,
    account: Seq<char>,
    name: Seq<char>,
)
    ensures
        stored(upserted(rows, steam_id, batch, now), account, name) <==> stored(
            rows,
            account,
            name,
        ) || (account == steam_id && listed(batch, name)),
{
    let after = upserted(rows, steam_id, batch, now);
    let fresh = batch.filter(missing_from(rows, steam_id));
    let n = rows.len() as int;
    if stored(after, account, name) {
        let t = choose|t: int| 0 <= t < after.len() && same_item(#[trigger] after[t], account, name);
        if t < n {
            assert(same_item(rows[t], account, name));
        } else {
            let b = lemma_filter_source(batch, missing_from(rows, steam_id), t - n);
            assert(after[t] == new_row(steam_id, fresh[t - n], now));
            assert(batch[b].name == name);
        }
    }
    if stored(rows, account, name) {
        let t = choose|t: int| 0 <= t < rows.len() && same_item(#[trigger] rows[t], account, name);
        assert(same_item(after[t], account, name));
    } else if account == steam_id && listed(batch, name) {
        let b = choose|b: int| 0 <= b < batch.len() && (#[trigger] batch[b]).name == name;
        let i = lemma_filter_keeps(batch, missing_from(rows, steam_id), b);
        assert(after[n + i] == new_row(steam_id, fresh[i], now));
        assert(same_item(after[n + i], account, name));
    }
}

/// Names are unique and complete. After a batch with distinct names was
/// written for an account whose recorded games the batch lists, the games
/// read back for that account have distinct names, and these are exactly the
/// names of the batch.
pub proof fn law_upsert_names(
    rows: Seq<GameRow>,
    steam_id: Seq<char>,
    batch: Seq<GameView>,
    now: u64,
)
    requires
        unique_items(rows),
        distinct_names(batch),
        forall|name: Seq<char>| #[trigger] stored(rows, steam_id, name) ==> listed(batch, name),
    ensures
        distinct_names(games_of(upserted(rows, steam_id, batch, now), steam_id)),
        forall|name: Seq<char>|
            #![trigger listed(batch, name)]
            listed(games_of(upserted(rows, steam_id, batch, now), steam_id), name) <==> listed(
                batch,
                name,
            ),
{
    law_upsert_adds_names(rows, steam_id, batch, now);
}

/// Names are unique and nothing is lost. After a batch with distinct names
/// was written for an account, the games read back for it have distinct
/// names: those that were recorded before together with those of the batch.
pub proof fn law_upsert_adds_names(
    rows: Seq<GameRow>,
    steam_id: Seq<char>,
    batch: Seq<GameView>,
    now: u64,
)
    requires
        unique_items(rows),
        distinct_names(batch),
    ensures
        unique_items(upserted(rows, steam_id, batch, now)),
        distinct_names(games_of(upserted(rows, steam_id, batch, now), steam_id)),
        forall|name: Seq<char>|
            #![trigger listed(batch, name)]
            #![trigger stored(rows, steam_id, name)]
            listed(games_of(upserted(rows, steam_id, batch, now), steam_id), name) <==> (stored(
                rows,
                steam_id,
                name,
            ) || listed(batch, name)),
{
    let after = upserted(rows, steam_id, batch, now);
    lemma_upserted_unique(rows, steam_id, batch, now);
    lemma_games_of_distinct(after, steam_id);
    assert forall|name: Seq<char>|
        #![trigger listed(batch, name)]
        #![trigger stored(rows, steam_id, name)]
        listed(games_of(after, steam_id), name) <==> (stored(rows, steam_id, name) || listed(
            batch,
            name,
        )) by {
        lemma_games_of_names(after, steam_id, name);
        lemma_upserted_stored(rows, steam_id, batch, now, steam_id, name);
    }
}

/// The last write wins. After a batch with distinct names was written for
/// an account, each game of the batch is read back with the minutes that the
/// batch gave, whatever was recorded before, and with the time of this
/// write.
pub proof fn law_upsert_overwrites(
    rows: Seq<GameRow>,
    steam_id: Seq<char>,
    batch: Seq<GameView>,
    now: u64,
    k: int,
)
    requires
        unique_items(rows),
        distinct_names(batch),
        0 <= k < batch.len(),
    ensures
        games_of(upserted(rows, steam_id, batch, now), steam_id).contains(batch[k]),
        forall|i: int|
            0 <= i < games_of(upserted(rows, steam_id, batch, now), steam_id).len() && (
            #[trigger] games_of(upserted(rows, steam_id, batch, now), steam_id)[i]).name
                == batch[k].name ==> games_of(
                upserted(rows, steam_id, batch, now),
                steam_id,
            )[i].playtime_forever == batch[k].playtime_forever,
        last_updated_of(upserted(rows, steam_id, batch, now), steam_id, batch[k].name) == Some(
            now,
        ),
{
    let after = upserted(rows, steam_id, batch, now);
    let fresh = batch.filter(missing_from(rows, steam_id));
    let games = games_of(after, steam_id);
    let name = batch[k].name;
    let n = rows.len() as int;
    lemma_upserted_unique(rows, steam_id, batch, now);
    lemma_minutes_in(batch, k);
    lemma_upserted_stored(rows, steam_id, batch, now, steam_id, name);
    let t = choose|t: int| 0 <= t < after.len() && same_item(#[trigger] after[t], steam_id, name);
    assert(after[t] == new_row(steam_id, batch[k], now)) by {
        if t < n {
            assert(after[t] == refreshed(rows[t], steam_id, batch, now));
        } else {
            let b = lemma_filter_source(batch, missing_from(rows, steam_id), t - n);
            assert(after[t] == new_row(steam_id, fresh[t - n], now));
            assert(b == k);
        }
    }
    let at = lemma_filter_keeps(after, of_account(steam_id), t);
    assert(games[at] == batch[k]);
    lemma_games_of_distinct(after, steam_id);
    assert forall|i: int| 0 <= i < games.len() && (#[trigger] games[i]).name == name implies games[i].playtime_forever
        == batch[k].playtime_forever by {
        assert(i == at);
    }
}

/// Writing twice is writing once. A batch written for an account a second
/// time leaves the store as the second write alone would have left it: no
/// row is added and no minutes are summed; only the time of the sync is that
/// of the later write.
pub proof fn law_upsert_idempotent(
    rows: Seq<GameRow>,
    steam_id: Seq<char>,
    batch: Seq<GameView>,
    first: u64,
    second: u64,
)
    requires
        distinct_names(batch),
    ensures
        upserted(upserted(rows, steam_id, batch, first), steam_id, batch, second) == upserted(
            rows,
            steam_id,
            batch,
            second,
        ),
{
    let once = upserted(rows, steam_id, batch, first);
    let twice = upserted(once, steam_id, batch, second);
    let direct = upserted(rows, steam_id, batch, second);
    let fresh = batch.filter(missing_from(rows, steam_id));
    let n = rows.len() as int;
    assert(batch.filter(missing_from(once, steam_id)).len() == 0) by {
        let rest = batch.filter(missing_from(once, steam_id));
        if rest.len() > 0 {
            let b = lemma_filter_source(batch, missing_from(once, steam_id), 0);
            lemma_upserted_stored(rows, steam_id, batch, first, steam_id, batch[b].name);
        }
    }
    assert(twice.len() == direct.len());
    assert forall|t: int| 0 <= t < twice.len() implies twice[t] == direct[t] by {
        assert(twice[t] == refreshed(once[t], steam_id, batch, second));
        if t < n {
            assert(once[t] == refreshed(rows[t], steam_id, batch, first));
        } else {
            let b = lemma_filter_source(batch, missing_from(rows, steam_id), t - n);
            lemma_minutes_in(batch, b);
            assert(once[t] == new_row(steam_id, fresh[t - n], first));
            assert(direct[t] == new_row(steam_id, fresh[t - n], second));
        }
    }
    assert(twice =~= direct);
}

/// A write touches one account only. The rows of every other account are
/// as before, so its games read back as before; and so is every row whose
/// game the batch does not list.
pub proof fn law_upsert_leaves_others(
    rows: Seq<GameRow>,
    steam_id: Seq<char>,
    batch: Seq<GameView>,
    now: u64,
    other: Seq<char>,
)
    requires
        other != steam_id,
    ensures
        upserted(rows, steam_id, batch, now).filter(of_account(other)) == rows.filter(
            of_account(other),
        ),
        games_of(upserted(rows, steam_id, batch, now), other) == games_of(rows, other),
        forall|t: int|
            0 <= t < rows.len() && !(rows[t].steam_id == steam_id && listed(batch, rows[t].name))
                ==> #[trigger] upserted(rows, steam_id, batch, now)[t] == rows[t],
{
    let head = rows.map_values(refresh(steam_id, batch, now));
    let tail = batch.filter(missing_from(rows, steam_id)).map_values(record(steam_id, now));
    Seq::filter_distributes_over_add(head, tail, of_account(other));
    assert(tail.filter(of_account(other)).len() == 0) by {
        if tail.filter(of_account(other)).len() > 0 {
            let t = lemma_filter_source(tail, of_account(other), 0);
        }
    }
    lemma_filter_unchanged(rows, refresh(steam_id, batch, now), of_account(other));
    assert(head.filter(of_account(other)) + tail.filter(of_account(other)) =~= rows.filter(
        of_account(other),
    ));
}

/// Whether a game is stored for an account shows in the rows of that
/// account.
pub proof fn lemma_stored_local(rows: Seq<GameRow>, steam_id: Seq<char>, name: Seq<char>)
    ensures
        stored(rows, steam_id, name) <==> stored(
            rows.filter(of_account(steam_id)),
            steam_id,
            name,
        ),
{
    let own = rows.filter(of_account(steam_id));
    if stored(rows, steam_id, name) {
        let t = choose|t: int| 0 <= t < rows.len() && same_item(#[trigger] rows[t], steam_id, name);
        let i = lemma_filter_keeps(rows, of_account(steam_id), t);
        assert(same_item(own[i], steam_id, name));
    }
    if stored(own, steam_id, name) {
        let i = choose|i: int| 0 <= i < own.len() && same_item(#[trigger] own[i], steam_id, name);
        let t = lemma_filter_source(rows, of_account(steam_id), i);
        assert(same_item(rows[t], steam_id, name));
    }
}

/// What a write makes of the rows of its account depends on those rows
/// alone: in two stores that hold the same rows for the account, the same
/// batch leaves the same rows for it.
pub proof fn lemma_upsert_local(
    first: Seq<GameRow>,
    second: Seq<GameRow>,
    steam_id: Seq<char>,
    batch: Seq<GameView>,
    now: u64,
)
    requires
        first.filter(of_account(steam_id)) == second.filter(of_account(steam_id)),
    ensures
        upserted(first, steam_id, batch, now).filter(of_account(steam_id)) == upserted(
            second,
            steam_id,
            batch,
            now,
        ).filter(of_account(steam_id)),
{
    let own = of_account(steam_id);
    let change = refresh(steam_id, batch, now);
    let p = missing_from(first, steam_id);
    let q = missing_from(second, steam_id);
    assert forall|i: int| 0 <= i < batch.len() implies p(#[trigger] batch[i]) == q(batch[i]) by {
        lemma_stored_local(first, steam_id, batch[i].name);
        lemma_stored_local(second, steam_id, batch[i].name);
    }
    lemma_filter_same(batch, p, q);
    let fresh = batch.filter(missing_from(first, steam_id)).map_values(record(steam_id, now));
    lemma_filter_all(fresh, own);
    assert forall|row: GameRow| #[trigger] own(change(row)) == own(row) by {}
    lemma_filter_map_commute(first, change, own);
    lemma_filter_map_commute(second, change, own);
    Seq::filter_distributes_over_add(first.map_values(change), fresh, own);
    Seq::filter_distributes_over_add(second.map_values(change), fresh, own);
}

} // verus!
