use game_recommender::database::db;
use game_recommender::database::db::{Database, StoreError};
use game_recommender::steam::{SteamGame, SteamOwnedGames};

fn game(name: &str, minutes: u32) -> SteamGame {
    SteamGame { name: name.to_string(), playtime_forever: minutes }
}

fn batch(games: &[(&str, u32)]) -> SteamOwnedGames {
    SteamOwnedGames { games: games.iter().map(|(n, m)| game(n, *m)).collect() }
}

fn listing(db: &Database, steam_id: &str) -> Vec<(String, u32)> {
    db::get_user_games(db, steam_id)
        .unwrap()
        .into_iter()
        .map(|g| (g.name, g.playtime_forever))
        .collect()
}

fn pairs(games: &[(&str, u32)]) -> Vec<(String, u32)> {
    games.iter().map(|(n, m)| (n.to_string(), *m)).collect()
}

#[test]
fn empty_store_has_no_games_and_no_accounts() {
    let db = Database::new();
    assert_eq!(listing(&db, "A"), pairs(&[]));
    assert_eq!(db::get_all_steam_ids(&db).unwrap(), Vec::<String>::new());
    assert_eq!(db::get_steam_id(&db, 1).unwrap(), None);
    assert_eq!(db::check_if_user_exists(&db, "A").unwrap(), false);
    assert_eq!(db.last_updated("A", "G"), None);
}

#[test]
fn upsert_overwrites_and_does_not_add() {
    let mut db = Database::new();
    db::store_steam_games(&mut db, "A", batch(&[("G", 10)]), 1).unwrap();
    db::store_steam_games(&mut db, "A", batch(&[("G", 20)]), 2).unwrap();
    assert_eq!(listing(&db, "A"), pairs(&[("G", 20)]));
    assert_eq!(db.last_updated("A", "G"), Some(2));
}

#[test]
fn upsert_twice_is_upsert_once() {
    let games = [("Portal", 300), ("Hades", 4500), ("Celeste", 0)];
    let mut once = Database::new();
    db::store_steam_games(&mut once, "A", batch(&games), 7).unwrap();
    let mut twice = Database::new();
    db::store_steam_games(&mut twice, "A", batch(&games), 3).unwrap();
    db::store_steam_games(&mut twice, "A", batch(&games), 7).unwrap();
    assert_eq!(listing(&once, "A"), listing(&twice, "A"));
    assert_eq!(listing(&twice, "A"), pairs(&games));
    for (name, _) in games.iter() {
        assert_eq!(once.last_updated("A", name), Some(7));
        assert_eq!(twice.last_updated("A", name), Some(7));
    }
}

#[test]
fn names_read_back_are_unique_and_those_of_the_batch() {
    let mut db = Database::new();
    db::store_steam_games(&mut db, "A", batch(&[("Portal", 1), ("Hades", 2)]), 1).unwrap();
    db::store_steam_games(&mut db, "A", batch(&[("Hades", 5), ("Portal", 6)]), 2).unwrap();
    db::store_steam_games(&mut db, "A", batch(&[("Hades", 5), ("Portal", 6)]), 3).unwrap();
    let mut names: Vec<String> = listing(&db, "A").into_iter().map(|(n, _)| n).collect();
    assert_eq!(names.len(), 2);
    names.sort();
    assert_eq!(names, vec!["Hades".to_string(), "Portal".to_string()]);
    assert_eq!(listing(&db, "A"), pairs(&[("Portal", 6), ("Hades", 5)]));
}

#[test]
fn games_gone_from_the_batch_stay_recorded() {
    let mut db = Database::new();
    db::store_steam_games(&mut db, "A", batch(&[("G1", 10), ("G2", 20)]), 1).unwrap();
    db::store_steam_games(&mut db, "A", batch(&[("G2", 25), ("G3", 30)]), 2).unwrap();
    assert_eq!(listing(&db, "A"), pairs(&[("G1", 10), ("G2", 25), ("G3", 30)]));
    assert_eq!(db.last_updated("A", "G1"), Some(1));
    assert_eq!(db.last_updated("A", "G2"), Some(2));
    assert_eq!(db.last_updated("A", "G3"), Some(2));
}

#[test]
fn upsert_touches_one_account_only() {
    let mut db = Database::new();
    db::store_steam_games(&mut db, "A", batch(&[("G", 10)]), 1).unwrap();
    db::store_steam_games(&mut db, "B", batch(&[("G", 99), ("H", 1)]), 2).unwrap();
    assert_eq!(listing(&db, "A"), pairs(&[("G", 10)]));
    assert_eq!(listing(&db, "B"), pairs(&[("G", 99), ("H", 1)]));
    assert_eq!(db.last_updated("A", "G"), Some(1));
    assert_eq!(listing(&db, "C"), pairs(&[]));
}

#[test]
fn empty_batch_is_written_and_changes_nothing() {
    let mut db = Database::new();
    assert_eq!(db::store_steam_games(&mut db, "A", batch(&[]), 1), Ok(()));
    assert_eq!(listing(&db, "A"), pairs(&[]));
    db::store_steam_games(&mut db, "A", batch(&[("G", 10)]), 1).unwrap();
    db::store_steam_games(&mut db, "B", batch(&[("H", 3)]), 1).unwrap();
    let res = db::store_steam_games(&mut db, "A", batch(&[]), 2);
    assert_eq!(res, Ok(()));
    assert_eq!(listing(&db, "A"), pairs(&[("G", 10)]));
    assert_eq!(listing(&db, "B"), pairs(&[("H", 3)]));
    assert_eq!(db.last_updated("A", "G"), Some(1));
    assert_eq!(db.last_updated("B", "H"), Some(1));
}

#[test]
fn batch_with_a_name_twice_is_refused_whole() {
    let mut db = Database::new();
    db::store_steam_games(&mut db, "A", batch(&[("G", 10)]), 1).unwrap();
    let res = db::store_steam_games(&mut db, "A", batch(&[("G", 11), ("H", 5), ("H", 6)]), 2);
    assert_eq!(res, Err(StoreError::DuplicateItem));
    assert_eq!(listing(&db, "A"), pairs(&[("G", 10)]));
    assert_eq!(db.last_updated("A", "G"), Some(1));
    assert_eq!(db.last_updated("A", "H"), None);
}

#[test]
fn relink_overwrites_the_account_and_keeps_the_name() {
    let mut db = Database::new();
    db::link_steam(&mut db, "alice", 1, "steam_a").unwrap();
    db::link_steam(&mut db, "bob", 2, "steam_b").unwrap();
    db::link_steam(&mut db, "alice_renamed", 1, "steam_c").unwrap();
    assert_eq!(db::get_steam_id(&db, 1).unwrap(), Some("steam_c".to_string()));
    assert_eq!(db::get_steam_id(&db, 2).unwrap(), Some("steam_b".to_string()));
    assert_eq!(db::get_steam_id(&db, 3).unwrap(), None);
    assert_eq!(
        db::get_all_steam_ids(&db).unwrap(),
        vec!["steam_c".to_string(), "steam_b".to_string()]
    );
    assert_eq!(db::check_if_user_exists(&db, "steam_a").unwrap(), false);
    assert_eq!(db::check_if_user_exists(&db, "steam_c").unwrap(), true);
}

#[test]
fn account_of_another_user_cannot_be_linked() {
    let mut db = Database::new();
    db::link_steam(&mut db, "alice", 1, "steam_a").unwrap();
    let res = db::link_steam(&mut db, "bob", 2, "steam_a");
    assert_eq!(res, Err(StoreError::AccountTaken));
    assert_eq!(db::get_steam_id(&db, 2).unwrap(), None);
    assert_eq!(db::get_all_steam_ids(&db).unwrap(), vec!["steam_a".to_string()]);
    // Linking the same pair again is no conflict.
    assert_eq!(db::link_steam(&mut db, "alice", 1, "steam_a"), Ok(()));
    assert_eq!(db::get_all_steam_ids(&db).unwrap(), vec!["steam_a".to_string()]);
}

#[test]
fn batches_are_checked_before_they_are_written() {
    assert_eq!(db::check_batch(&batch(&[("G", 1), ("H", 2)])), Ok(()));
    assert_eq!(db::check_batch(&batch(&[("G", 1), ("G", 1)])), Err(StoreError::DuplicateItem));
    assert_eq!(db::check_batch(&batch(&[])), Ok(()));
    assert_eq!(db::check_batch(&batch(&[("G", 1)])), Ok(()));
    assert_eq!(
        db::check_batch(&batch(&[("G", 1), ("H", 2), ("G", 3)])),
        Err(StoreError::DuplicateItem)
    );
}

#[test]
fn minutes_survive_a_signed_column() {
    assert_eq!(db::stored_minutes(0), 0);
    assert_eq!(db::stored_minutes(1200), 1200);
    assert_eq!(db::stored_minutes(0x7fff_ffff), i32::MAX);
    assert_eq!(db::stored_minutes(0x8000_0000), i32::MIN);
    assert_eq!(db::stored_minutes(u32::MAX), -1);
    assert_eq!(db::read_minutes(0), 0);
    assert_eq!(db::read_minutes(i32::MAX), 0x7fff_ffff);
    assert_eq!(db::read_minutes(i32::MIN), 0x8000_0000);
    assert_eq!(db::read_minutes(-1), u32::MAX);
    for minutes in [0u32, 1, 59, 60, 0x7fff_ffff, 0x8000_0000, 0x8000_0001, u32::MAX] {
        assert_eq!(db::read_minutes(db::stored_minutes(minutes)), minutes);
    }
}

#[test]
fn store_errors_say_what_went_wrong() {
    assert_eq!(StoreError::AccountTaken.message(), "The Steam account is linked to another user.");
    assert_eq!(StoreError::DuplicateItem.message(), "A game is listed twice.");
    assert_eq!(StoreError::Unavailable.message(), "The database is not available.");
}

#[test]
fn failures_of_the_database_become_store_errors() {
    assert_eq!(StoreError::from_failure(true), StoreError::AccountTaken);
    assert_eq!(StoreError::from_failure(false), StoreError::Unavailable);
}
