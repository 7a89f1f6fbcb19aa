use game_recommender::database::db;
use game_recommender::database::db::Database;
use game_recommender::steam::{
    build_owned_games_url, build_profile_url, clone_games, fetch_steam_games, fetch_steam_profile,
    is_success, retry_delay_seconds, FetchAction, FetchError, FetchEvent, FetchPhase, FetchState,
    ProfileAction, ProfileError, ProfileEvent, ProfilePhase, SteamGame, SteamOwnedGames,
    SteamProfile, API_URL, MAX_ATTEMPTS, RETRY_COOLDOWN, TOO_MANY_REQUESTS,
};

const BASE: &str = "http://127.0.0.1:9";

fn mock_games() -> Vec<SteamGame> {
    vec![
        SteamGame { name: "Test Game 1".to_string(), playtime_forever: 600 },
        SteamGame { name: "Test Game 2".to_string(), playtime_forever: 1200 },
    ]
}

/// Drives one fetch for `steam_id`, answering the requests with `statuses`
/// in order and every body with `body`. Returns the requests sent, the
/// seconds slept and the final action.
fn drive_for(
    steam_id: &str,
    statuses: &[u16],
    body: Option<Vec<SteamGame>>,
) -> (usize, Vec<u64>, FetchAction) {
    let mut sent = 0usize;
    let mut sleeps = Vec::new();
    let mut body = body;
    let (mut state, mut action) =
        fetch_steam_games(BASE, steam_id, "test_api_key", FetchState::new(), FetchEvent::Start);
    loop {
        let event = match action {
            FetchAction::Get { ref url } => {
                assert_eq!(
                    url,
                    &format!(
                        "http://127.0.0.1:9/IPlayerService/GetOwnedGames/v1/?key=test_api_key&steamid={}&format=json&include_appinfo=true",
                        steam_id
                    )
                );
                let status = statuses[sent];
                sent += 1;
                FetchEvent::Status(status)
            }
            FetchAction::ReadBody => FetchEvent::Body(body.take()),
            FetchAction::Sleep { seconds } => {
                sleeps.push(seconds);
                FetchEvent::Woke
            }
            FetchAction::Done { .. } | FetchAction::Fail { .. } => {
                assert_eq!(state.phase(), FetchPhase::Finished);
                return (sent, sleeps, action);
            }
        };
        let next = fetch_steam_games(BASE, steam_id, "test_api_key", state, event);
        state = next.0;
        action = next.1;
    }
}

fn drive(statuses: &[u16], body: Option<Vec<SteamGame>>) -> (usize, Vec<u64>, FetchAction) {
    drive_for("test_steam_id_12345", statuses, body)
}

/// Fetches the games of `steam_id` from an upstream that answers 200 with
/// the mock games.
fn fetch_mocked(steam_id: &str) -> Result<Vec<SteamGame>, FetchError> {
    match drive_for(steam_id, &[200], Some(mock_games())).2 {
        FetchAction::Done { games } => Ok(games),
        FetchAction::Fail { error } => Err(error),
        other => panic!("fetch ended with {:?}", other),
    }
}

#[test]
fn test_mocked_fetch_steam_games() {
    let expected = mock_games();
    let (sent, sleeps, action) = drive(&[200], Some(mock_games()));
    assert_eq!(sent, 1);
    assert!(sleeps.is_empty());
    match action {
        FetchAction::Done { games } => {
            assert_eq!(games.len(), expected.len());
            assert_eq!(games[0].name, "Test Game 1");
            assert_eq!(games[1].playtime_forever, 1200);
        }
        other => panic!("fetch did not succeed: {:?}", other),
    }
}

#[test]
fn three_rate_limits_then_success_takes_four_requests() {
    let (sent, sleeps, action) = drive(&[429, 429, 429, 200], Some(mock_games()));
    assert_eq!(sent, 4);
    assert_eq!(sleeps, vec![5, 5, 5]);
    match action {
        FetchAction::Done { games } => {
            assert_eq!(games.len(), 2);
            assert_eq!(games[0].name, "Test Game 1");
            assert_eq!(games[0].playtime_forever, 600);
            assert_eq!(games[1].name, "Test Game 2");
        }
        other => panic!("fetch did not succeed: {:?}", other),
    }
}

#[test]
fn five_server_errors_exhaust_the_retries() {
    let (sent, sleeps, action) = drive(&[500, 500, 500, 500, 500, 200], Some(mock_games()));
    assert_eq!(sent, 5);
    assert_eq!(sleeps, vec![1, 2, 4, 8]);
    match action {
        FetchAction::Fail { error } => {
            assert_eq!(error, FetchError::ExhaustedRetries { last_status: 500 })
        }
        other => panic!("fetch did not fail: {:?}", other),
    }
}

#[test]
fn test_link_and_get_steam_id() {
    let test_steam_id = "test_steam_6f1c";
    let test_discord_id: i64 = 424_242;
    let test_username = "test_username";

    let mut connection = Database::new();

    db::link_steam(&mut connection, test_username, test_discord_id, test_steam_id)
        .expect("Failed to link steam");

    let retrieved_id = db::get_steam_id(&connection, test_discord_id).unwrap();
    assert_eq!(retrieved_id, Some(test_steam_id.to_string()));
}

#[test]
fn test_populate_database_with_games() {
    let test_steam_id = "test_steam_a9d2";
    let test_discord_id: i64 = 131_313;
    let test_username = "test_username";

    let mut connection = Database::new();

    db::link_steam(&mut connection, test_username, test_discord_id, test_steam_id)
        .expect("Failed to link steam");

    let games_vec = fetch_mocked(test_steam_id).expect("Failed to fetch steam games");

    let owned_games = SteamOwnedGames { games: games_vec };

    db::store_steam_games(&mut connection, test_steam_id, owned_games, 1_700_000_000)
        .expect("Failed to store steam games");

    let stored_games = db::get_user_games(&connection, test_steam_id)
        .expect("Failed to fetch steam games from database");

    assert!(!stored_games.is_empty(), "No games were stored in the database.");
}

#[test]
fn test_fetch_user_games() {
    let test_steam_id = "test_steam_03be";
    let test_discord_id: i64 = 777_001;
    let test_username = "test_username";

    let mut connection = Database::new();

    db::link_steam(&mut connection, test_username, test_discord_id, test_steam_id)
        .expect("Failed to link steam");

    let games_vec = fetch_mocked(test_steam_id).expect("Failed to fetch steam games");

    let owned_games = SteamOwnedGames { games: games_vec };

    db::store_steam_games(&mut connection, test_steam_id, owned_games, 1_700_000_000)
        .expect("Failed to store steam games");

    let user_games = db::get_user_games(&connection, test_steam_id)
        .expect("Failed to fetch steam games from database");

    assert!(!user_games.is_empty(), "The user games is not empty.");
    assert_eq!(user_games.len(), 2);
    assert_eq!(user_games[0].name, "Test Game 1");
    assert_eq!(user_games[0].playtime_forever, 600);
    assert_eq!(user_games[1].name, "Test Game 2");
    assert_eq!(user_games[1].playtime_forever, 1200);
}

#[test]
fn test_game_data_update_behavior() {
    let test_steam_id = "test_steam_55e0";
    let mut connection = Database::new();

    let initial_game = SteamGame { name: "New Game".to_string(), playtime_forever: 600 };
    let owned_games = SteamOwnedGames { games: vec![initial_game.clone()] };
    db::store_steam_games(&mut connection, test_steam_id, owned_games, 100)
        .expect("Failed to store initial game");

    let updated_game = SteamGame { name: "New Game".to_string(), playtime_forever: 1200 };
    let updated_owned_games = SteamOwnedGames { games: vec![updated_game.clone()] };
    db::store_steam_games(&mut connection, test_steam_id, updated_owned_games, 200)
        .expect("Failed to update game");

    let games = db::get_user_games(&connection, test_steam_id).expect("Failed to fetch games");
    assert_eq!(games.len(), 1);
    assert_eq!(games[0].playtime_forever, 1200, "Game playtime should be updated to 1200");
}

#[test]
fn transport_failure_ends_the_fetch_at_once() {
    let (state, action) = fetch_steam_games(
        BASE,
        "test_steam_id_12345",
        "test_api_key",
        FetchState::new(),
        FetchEvent::Start,
    );
    assert!(matches!(action, FetchAction::Get { .. }));
    assert_eq!(state.phase(), FetchPhase::AwaitingStatus);
    assert_eq!(state.requests(), 1);
    let (state, action) = fetch_steam_games(
        BASE,
        "test_steam_id_12345",
        "test_api_key",
        state,
        FetchEvent::Unreachable,
    );
    assert!(matches!(action, FetchAction::Fail { error: FetchError::Transport }));
    assert_eq!(state.phase(), FetchPhase::Finished);
}

#[test]
fn undecodable_body_ends_the_fetch_at_once() {
    let (sent, sleeps, action) = drive(&[200], None);
    assert_eq!(sent, 1);
    assert!(sleeps.is_empty());
    assert!(matches!(action, FetchAction::Fail { error: FetchError::Decode }));
}

#[test]
fn event_out_of_turn_ends_the_fetch() {
    let (state, action) = fetch_steam_games(
        BASE,
        "test_steam_id_12345",
        "test_api_key",
        FetchState::new(),
        FetchEvent::Woke,
    );
    assert!(matches!(action, FetchAction::Fail { error: FetchError::UnexpectedEvent }));
    assert_eq!(state.phase(), FetchPhase::Finished);
    let (_, action) = fetch_steam_games(
        BASE,
        "test_steam_id_12345",
        "test_api_key",
        state,
        FetchEvent::Start,
    );
    assert!(matches!(action, FetchAction::Fail { error: FetchError::UnexpectedEvent }));
}

#[test]
fn mixed_failures_back_off_by_attempt() {
    let (sent, sleeps, action) = drive(&[500, 429, 503, 200], Some(mock_games()));
    assert_eq!(sent, 4);
    assert_eq!(sleeps, vec![1, 5, 4]);
    assert!(matches!(action, FetchAction::Done { .. }));
}

#[test]
fn last_status_is_reported_when_retries_run_out() {
    let (sent, sleeps, action) = drive(&[500, 502, 429, 404, 503], None);
    assert_eq!(sent, 5);
    assert_eq!(sleeps, vec![1, 2, 5, 8]);
    match action {
        FetchAction::Fail { error } => {
            assert_eq!(error, FetchError::ExhaustedRetries { last_status: 503 })
        }
        other => panic!("fetch did not fail: {:?}", other),
    }
}

#[test]
fn success_is_the_2xx_range() {
    assert!(!is_success(0));
    assert!(!is_success(199));
    assert!(is_success(200));
    assert!(is_success(204));
    assert!(is_success(299));
    assert!(!is_success(300));
    assert!(!is_success(429));
    assert!(!is_success(u16::MAX));
}

#[test]
fn delays_are_the_cooldown_or_a_power_of_two() {
    assert_eq!(MAX_ATTEMPTS, 5);
    assert_eq!(RETRY_COOLDOWN, 5);
    assert_eq!(TOO_MANY_REQUESTS, 429);
    assert_eq!(retry_delay_seconds(429, 0), 5);
    assert_eq!(retry_delay_seconds(429, 4), 5);
    assert_eq!(retry_delay_seconds(500, 0), 1);
    assert_eq!(retry_delay_seconds(500, 1), 2);
    assert_eq!(retry_delay_seconds(404, 4), 16);
    assert_eq!(retry_delay_seconds(503, 63), 1u64 << 63);
}

#[test]
fn addresses_hold_key_and_account() {
    assert_eq!(API_URL, "https://api.steampowered.com");
    assert_eq!(
        build_owned_games_url(API_URL, "7656", "KEY"),
        "https://api.steampowered.com/IPlayerService/GetOwnedGames/v1/?key=KEY&steamid=7656&format=json&include_appinfo=true"
    );
    assert_eq!(
        build_profile_url("7656", "KEY"),
        "https://api.steampowered.com/ISteamUser/GetPlayerSummaries/v0002/?key=KEY&steamids=7656"
    );
}

#[test]
fn games_are_copied_whole() {
    let games = mock_games();
    let copy = clone_games(&games);
    assert_eq!(copy.len(), 2);
    assert_eq!(copy[0].name, "Test Game 1");
    assert_eq!(copy[0].playtime_forever, 600);
    assert_eq!(copy[1].name, "Test Game 2");
    assert_eq!(copy[1].playtime_forever, 1200);
}

fn player(name: &str) -> SteamProfile {
    SteamProfile {
        steam_id: "7656".to_string(),
        persona_name: name.to_string(),
        avatar: "https://avatars/x.png".to_string(),
    }
}

#[test]
fn profile_is_the_first_player_listed() {
    let (phase, action) =
        fetch_steam_profile("7656", "KEY", ProfilePhase::Idle, ProfileEvent::Start);
    assert_eq!(phase, ProfilePhase::AwaitingStatus);
    match action {
        ProfileAction::Get { url } => assert_eq!(url, build_profile_url("7656", "KEY")),
        other => panic!("no request: {:?}", other),
    }
    let (phase, action) = fetch_steam_profile("7656", "KEY", phase, ProfileEvent::Status(200));
    assert_eq!(phase, ProfilePhase::AwaitingBody);
    assert!(matches!(action, ProfileAction::ReadBody));
    let (phase, action) = fetch_steam_profile(
        "7656",
        "KEY",
        phase,
        ProfileEvent::Body(Some(vec![player("first"), player("second")])),
    );
    assert_eq!(phase, ProfilePhase::Finished);
    match action {
        ProfileAction::Done { profile } => {
            assert_eq!(profile.persona_name, "first");
            assert_eq!(profile.steam_id, "7656");
            assert_eq!(profile.avatar, "https://avatars/x.png");
        }
        other => panic!("no profile: {:?}", other),
    }
}

#[test]
fn profile_lookup_fails_without_retry() {
    let (phase, action) = fetch_steam_profile(
        "7656",
        "KEY",
        ProfilePhase::AwaitingBody,
        ProfileEvent::Body(Some(Vec::new())),
    );
    assert_eq!(phase, ProfilePhase::Finished);
    assert!(matches!(action, ProfileAction::Fail { error: ProfileError::NotFound }));
    let (phase, action) =
        fetch_steam_profile("7656", "KEY", ProfilePhase::AwaitingStatus, ProfileEvent::Status(429));
    assert_eq!(phase, ProfilePhase::Finished);
    assert!(matches!(
        action,
        ProfileAction::Fail { error: ProfileError::BadStatus { status: 429 } }
    ));
    let (_, action) =
        fetch_steam_profile("7656", "KEY", ProfilePhase::AwaitingStatus, ProfileEvent::Unreachable);
    assert!(matches!(action, ProfileAction::Fail { error: ProfileError::Transport }));
    let (_, action) =
        fetch_steam_profile("7656", "KEY", ProfilePhase::AwaitingBody, ProfileEvent::Body(None));
    assert!(matches!(action, ProfileAction::Fail { error: ProfileError::Decode }));
    let (_, action) =
        fetch_steam_profile("7656", "KEY", ProfilePhase::AwaitingBody, ProfileEvent::Unreachable);
    assert!(matches!(action, ProfileAction::Fail { error: ProfileError::Transport }));
    let (_, action) =
        fetch_steam_profile("7656", "KEY", ProfilePhase::Finished, ProfileEvent::Start);
    assert!(matches!(action, ProfileAction::Fail { error: ProfileError::UnexpectedEvent }));
}

#[test]
fn fetch_errors_say_what_went_wrong() {
    assert_eq!(
        FetchError::ExhaustedRetries { last_status: 503 }.message(),
        "Max retries reached"
    );
    assert_eq!(FetchError::Transport.message(), "The request could not be completed.");
    assert_eq!(FetchError::Decode.message(), "The response holds no list of games.");
    assert_eq!(FetchError::UnexpectedEvent.message(), "The fetch was driven out of turn.");
    assert_eq!(
        ProfileError::NotFound.message("7656"),
        "No Steam profile found for the provided Steam ID!"
    );
    assert_eq!(
        ProfileError::BadStatus { status: 403 }.message("7656"),
        "Failed to fetch Steam profile for steam ID: 7656; Status: 403"
    );
    assert_eq!(ProfileError::Transport.message("7656"), "The request could not be completed.");
    assert_eq!(ProfileError::Decode.message("7656"), "The response holds no list of profiles.");
    assert_eq!(
        ProfileError::UnexpectedEvent.message("7656"),
        "The lookup was driven out of turn."
    );
}

#[test]
fn five_rate_limits_wait_four_times() {
    let (sent, sleeps, action) = drive(&[429, 429, 429, 429, 429], Some(mock_games()));
    assert_eq!(sent, 5);
    assert_eq!(sleeps, vec![5, 5, 5, 5]);
    match action {
        FetchAction::Fail { error } => {
            assert_eq!(error, FetchError::ExhaustedRetries { last_status: 429 })
        }
        other => panic!("fetch did not fail: {:?}", other),
    }
}

#[test]
fn success_at_the_last_request_is_taken() {
    let (sent, sleeps, action) = drive(&[500, 500, 500, 500, 200], Some(mock_games()));
    assert_eq!(sent, 5);
    assert_eq!(sleeps, vec![1, 2, 4, 8]);
    assert!(matches!(action, FetchAction::Done { .. }));
}

#[test]
fn the_last_failure_ends_the_fetch_without_a_wait() {
    let mut state = FetchState::new();
    let mut event = FetchEvent::Start;
    let mut failures = 0;
    loop {
        let (next, action) =
            fetch_steam_games(BASE, "test_steam_id_12345", "test_api_key", state, event);
        state = next;
        event = match action {
            FetchAction::Get { .. } => {
                failures += 1;
                FetchEvent::Status(500)
            }
            FetchAction::Sleep { .. } => {
                assert!(failures < 5, "a wait was asked for after the last request");
                assert_eq!(state.phase(), FetchPhase::Sleeping);
                FetchEvent::Woke
            }
            FetchAction::Fail { error } => {
                assert_eq!(failures, 5);
                assert_eq!(state.requests(), 5);
                assert_eq!(state.phase(), FetchPhase::Finished);
                assert_eq!(error, FetchError::ExhaustedRetries { last_status: 500 });
                break;
            }
            other => panic!("unexpected action: {:?}", other),
        };
    }
}
