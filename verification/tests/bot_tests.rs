use game_recommender::bot::{
    answer_most_played, confirms, descending_key, is_yes, list_top_games, most_played,
    parse_command, write_top_games, Bot, Command, GameCache, GamesAction, GamesEvent,
    CACHE_SECONDS,
};
use game_recommender::chat::{
    discord_id, Author, Chat, ChatAction, ChatEvent, ChatPhase, ALREADY_LINKED, CANCELED,
    CHECK_FAILED, DATABASE_ERROR, DATA_ERROR, FETCH_FAILED, GAMES_UPDATED, LINK_FAILED,
    LINK_USAGE, NOT_LINKED, NO_CONFIRMATION, NO_GAMES_FOUND, ONLINE, PROFILE_FAILED,
    RECOMMEND_DATABASE_ERROR, RECOMMEND_NOT_LINKED, STORE_FAILED,
};
use game_recommender::database::db::StoreError;
use game_recommender::llm::LLMClient;
use game_recommender::scheduler::SyncOutcome;
use game_recommender::steam::{FetchError, ProfileError, SteamGame, SteamProfile};

fn game(name: &str, minutes: u32) -> SteamGame {
    SteamGame { name: name.to_string(), playtime_forever: minutes }
}

fn bot() -> Bot {
    Bot {
        steam_api_key: "steam-key".to_string(),
        llm_client: LLMClient::new("llm-key"),
        channel_id: 99,
        cache: GameCache::new(),
    }
}

fn author() -> Author {
    Author { id: 4242, name: "alice".to_string() }
}

fn said(action: ChatAction) -> String {
    match action {
        ChatAction::Say { text } => text,
        other => panic!("nothing said: {:?}", other),
    }
}

fn listing(games: Option<Vec<SteamGame>>) -> Option<Vec<(String, u32)>> {
    games.map(|g| g.into_iter().map(|g| (g.name, g.playtime_forever)).collect())
}

#[test]
fn cache_serves_entries_younger_than_ten_minutes() {
    assert_eq!(CACHE_SECONDS, 600);
    let mut cache = GameCache::new();
    assert_eq!(listing(cache.lookup("A", 0)), None);
    cache.insert("A", vec![game("G", 10)], 1_000);
    let fresh = Some(vec![("G".to_string(), 10)]);
    assert_eq!(listing(cache.lookup("A", 1_000)), fresh);
    assert_eq!(listing(cache.lookup("A", 1_599)), fresh);
    assert_eq!(listing(cache.lookup("A", 1_600)), None);
    assert_eq!(listing(cache.lookup("A", 1_601)), None);
    assert_eq!(listing(cache.lookup("A", 999)), None);
    assert_eq!(listing(cache.lookup("B", 1_000)), None);
}

#[test]
fn cache_keeps_the_latest_entry_of_an_account() {
    let mut cache = GameCache::new();
    cache.insert("A", vec![game("G", 10)], 1_000);
    cache.insert("B", vec![game("H", 1)], 1_100);
    cache.insert("A", vec![game("G", 20), game("I", 3)], 1_700);
    assert_eq!(
        listing(cache.lookup("A", 1_800)),
        Some(vec![("G".to_string(), 20), ("I".to_string(), 3)])
    );
    assert_eq!(listing(cache.lookup("B", 1_699)), Some(vec![("H".to_string(), 1)]));
    assert_eq!(listing(cache.lookup("B", 1_700)), None);
}

#[test]
fn games_are_read_once_while_fresh() {
    let mut bot = bot();
    match bot.get_steam_games("A", 5_000, GamesEvent::Start) {
        GamesAction::Query { steam_id } => assert_eq!(steam_id, "A"),
        other => panic!("store not asked: {:?}", other),
    }
    match bot.get_steam_games("A", 5_000, GamesEvent::Loaded(Ok(vec![game("G", 10)]))) {
        GamesAction::Found { games } => assert_eq!(games[0].name, "G"),
        other => panic!("games not served: {:?}", other),
    }
    match bot.get_steam_games("A", 5_599, GamesEvent::Start) {
        GamesAction::Found { games } => {
            assert_eq!(games.len(), 1);
            assert_eq!(games[0].playtime_forever, 10);
        }
        other => panic!("cache not used: {:?}", other),
    }
    assert!(matches!(
        bot.get_steam_games("A", 5_600, GamesEvent::Start),
        GamesAction::Query { .. }
    ));
}

#[test]
fn nothing_recorded_yet_is_told_from_a_failed_read() {
    let mut bot = bot();
    match bot.get_steam_games("A", 10, GamesEvent::Loaded(Ok(Vec::new()))) {
        GamesAction::Found { games } => assert!(games.is_empty()),
        other => panic!("an empty list is no failure: {:?}", other),
    }
    // An empty list is not held: the next lookup asks the store again.
    assert!(matches!(bot.get_steam_games("A", 11, GamesEvent::Start), GamesAction::Query { .. }));
    assert!(matches!(
        bot.get_steam_games("A", 10, GamesEvent::Loaded(Err(StoreError::Unavailable))),
        GamesAction::NotFound
    ));
    assert!(matches!(bot.get_steam_games("A", 11, GamesEvent::Start), GamesAction::Query { .. }));
    assert_eq!(bot.steam_api_key, "steam-key");
    assert_eq!(bot.channel_id, 99);
}

#[test]
fn most_played_is_the_last_of_the_maxima() {
    assert_eq!(most_played(&Vec::new()), None);
    assert_eq!(most_played(&vec![game("a", 0)]), Some(0));
    assert_eq!(most_played(&vec![game("a", 5), game("b", 9), game("c", 9), game("d", 1)]), Some(2));
    assert_eq!(most_played(&vec![game("a", 9), game("b", 5)]), Some(0));
}

#[test]
fn most_played_answer_gives_full_hours() {
    assert_eq!(
        answer_most_played(&Some(vec![game("Portal", 119), game("Hades", 4500)])),
        "Your most played game: **Hades** (75 hours)"
    );
    assert_eq!(
        answer_most_played(&Some(vec![game("Portal", 59)])),
        "Your most played game: **Portal** (0 hours)"
    );
    assert_eq!(answer_most_played(&Some(Vec::new())), "No games found in your Steam account.");
    assert_eq!(answer_most_played(&None), "Error retrieving Steam data.");
    assert_eq!(NO_GAMES_FOUND, "No games found in your Steam account.");
    assert_eq!(DATA_ERROR, "Error retrieving Steam data.");
}

#[test]
fn top_games_are_five_by_minutes() {
    let games = vec![
        game("C", 300),
        game("A", 6000),
        game("F", 0),
        game("Tie 1", 120),
        game("B", 600),
        game("Tie 2", 120),
        game("G", 7),
    ];
    assert_eq!(
        list_top_games(&games),
        "Your top 5 played games:\n**A** (100 hours)\n**B** (10 hours)\n**C** (5 hours)\n**Tie 1** (2 hours)\n**Tie 2** (2 hours)"
    );
    assert_eq!(list_top_games(&Vec::new()), "Your top 5 played games:\n");
    assert_eq!(
        list_top_games(&vec![game("Only", 61)]),
        "Your top 5 played games:\n**Only** (1 hours)"
    );
    assert_eq!(
        list_top_games(&vec![game("Huge", u32::MAX), game("Small", 1)]),
        "Your top 5 played games:\n**Huge** (71582788 hours)\n**Small** (0 hours)"
    );
}

#[test]
fn top_games_text_takes_the_order_given() {
    assert_eq!(
        write_top_games(&vec![game("x", 60), game("y", 600)]),
        "Your top 5 played games:\n**x** (1 hours)\n**y** (10 hours)"
    );
    assert_eq!(descending_key(&game("x", 0)), u32::MAX);
    assert_eq!(descending_key(&game("x", u32::MAX)), 0);
}

fn words(items: &[&str]) -> Vec<String> {
    items.iter().map(|s| s.to_string()).collect()
}

#[test]
fn commands_are_read_off_the_first_word() {
    assert!(matches!(parse_command(&words(&[])), Command::Nothing));
    assert!(matches!(parse_command(&words(&["hello"])), Command::Nothing));
    assert!(matches!(parse_command(&words(&["!steam_games"])), Command::SteamGames));
    assert!(matches!(parse_command(&words(&["!steam_games", "x"])), Command::SteamGames));
    assert!(matches!(parse_command(&words(&["!top_games"])), Command::TopGames));
    assert!(matches!(parse_command(&words(&["!recommend"])), Command::Recommend));
    assert!(matches!(parse_command(&words(&["!link_steam"])), Command::LinkUsage));
    assert!(matches!(parse_command(&words(&["!link_steam", "a", "b"])), Command::LinkUsage));
    match parse_command(&words(&["!link_steam", "7656"])) {
        Command::LinkSteam { steam_id } => assert_eq!(steam_id, "7656"),
        other => panic!("not a link: {:?}", other),
    }
}

#[test]
fn messages_are_split_at_white_space() {
    let bot = bot();
    assert!(matches!(bot.message(""), Command::Nothing));
    assert!(matches!(bot.message("   \n\t "), Command::Nothing));
    assert!(matches!(bot.message("  !top_games  "), Command::TopGames));
    assert!(matches!(bot.message("!recommend me something"), Command::Recommend));
    assert!(matches!(bot.message("!link_steam"), Command::LinkUsage));
    match bot.message("\t!link_steam \u{2003} 7656\n") {
        Command::LinkSteam { steam_id } => assert_eq!(steam_id, "7656"),
        other => panic!("not a link: {:?}", other),
    }
    assert!(matches!(bot.message("say !top_games"), Command::Nothing));
    assert_eq!(bot.ready(), ONLINE);
    assert_eq!(ONLINE, "🚀 Bot is online and ready!");
    assert_eq!(
        LINK_USAGE,
        "Please provide your Steam ID after the command. For help finding your Steam ID, visit: https://www.ubisoft.com/en-gb/help/account/article/finding-your-steam-id/000060565"
    );
}

#[test]
fn a_reply_confirms_if_it_begins_with_yes() {
    assert!(confirms("yes"));
    assert!(confirms("Yes please"));
    assert!(confirms("YES!"));
    assert!(confirms("yESterday"));
    assert!(!confirms("no"));
    assert!(!confirms("ye"));
    assert!(!confirms(" yes"));
    assert!(!confirms(""));
    assert!(is_yes("yes"));
    assert!(!is_yes("Yes"));
    assert!(!is_yes("ýes"));
}

#[test]
fn discord_ids_are_read_as_signed() {
    assert_eq!(discord_id(0), 0);
    assert_eq!(discord_id(4242), 4242);
    assert_eq!(discord_id(i64::MAX as u64), i64::MAX);
    assert_eq!(discord_id(1u64 << 63), i64::MIN);
    assert_eq!(discord_id(u64::MAX), -1);
}

fn profile() -> SteamProfile {
    SteamProfile {
        steam_id: "7656".to_string(),
        persona_name: "Alice in Steamland".to_string(),
        avatar: "https://avatars/alice.png".to_string(),
    }
}

/// Runs the link conversation up to the sync and returns what was said and
/// asked for on the way.
fn link_up_to_sync(bot: &Bot) -> Chat {
    let who = author();
    let (chat, action) = bot.handle_link_steam(&who, "7656", Chat::new(), ChatEvent::Start);
    assert_eq!(chat.phase, ChatPhase::Checking);
    match action {
        ChatAction::CheckLinked { steam_id } => assert_eq!(steam_id, "7656"),
        other => panic!("{:?}", other),
    }
    let (chat, action) = bot.handle_link_steam(&who, "7656", chat, ChatEvent::Exists(Ok(false)));
    match action {
        ChatAction::FetchProfile { steam_id } => assert_eq!(steam_id, "7656"),
        other => panic!("{:?}", other),
    }
    let (chat, action) =
        bot.handle_link_steam(&who, "7656", chat, ChatEvent::Profile(Ok(profile())));
    assert_eq!(
        said(action),
        "Here is the Steam profile with the associated Steam ID: **Alice in Steamland**.\nReply with `yes` within 30 seconds to confirm linking, or `no` to cancel."
    );
    let (chat, action) = bot.handle_link_steam(&who, "7656", chat, ChatEvent::Said(true));
    assert!(matches!(action, ChatAction::AwaitReply { seconds: 30 }));
    let (chat, action) = bot.handle_link_steam(
        &who,
        "7656",
        chat,
        ChatEvent::Replied(Some("Yes, that is me".to_string())),
    );
    match action {
        ChatAction::Link { username, discord_id, steam_id } => {
            assert_eq!(username, "alice");
            assert_eq!(discord_id, 4242);
            assert_eq!(steam_id, "7656");
        }
        other => panic!("{:?}", other),
    }
    let (chat, action) = bot.handle_link_steam(&who, "7656", chat, ChatEvent::Linked(Ok(())));
    assert_eq!(said(action), "Successfully linked Steam ID `7656` to your Discord account!");
    let (chat, action) = bot.handle_link_steam(&who, "7656", chat, ChatEvent::Said(false));
    match action {
        ChatAction::Sync { steam_id } => assert_eq!(steam_id, "7656"),
        other => panic!("{:?}", other),
    }
    assert_eq!(chat.phase, ChatPhase::Syncing);
    chat
}

#[test]
fn link_conversation_links_and_syncs() {
    let bot = bot();
    let who = author();
    let chat = link_up_to_sync(&bot);
    let (chat, action) =
        bot.handle_link_steam(&who, "7656", chat, ChatEvent::Synced(SyncOutcome::Synced));
    assert_eq!(said(action), GAMES_UPDATED);
    assert_eq!(GAMES_UPDATED, "✅ Steam games successfully updated in the database!");
    assert_eq!(chat.phase, ChatPhase::Closing);
    let (chat, action) = bot.handle_link_steam(&who, "7656", chat, ChatEvent::Said(true));
    assert!(matches!(action, ChatAction::Done));
    assert_eq!(chat.phase, ChatPhase::Finished);
}

#[test]
fn link_conversation_tells_how_the_sync_failed() {
    let bot = bot();
    let who = author();
    let chat = link_up_to_sync(&bot);
    let (_, action) = bot.handle_link_steam(
        &who,
        "7656",
        chat,
        ChatEvent::Synced(SyncOutcome::StoreFailed(StoreError::DuplicateItem)),
    );
    assert_eq!(said(action), STORE_FAILED);
    assert_eq!(STORE_FAILED, "Error storing games in the database.");
    let chat = link_up_to_sync(&bot);
    let (_, action) = bot.handle_link_steam(
        &who,
        "7656",
        chat,
        ChatEvent::Synced(SyncOutcome::FetchFailed(FetchError::Transport)),
    );
    assert_eq!(said(action), FETCH_FAILED);
    assert_eq!(FETCH_FAILED, "⚠️ Error retrieving Steam data.");
}

fn link_from(phase: ChatPhase, event: ChatEvent) -> (Chat, ChatAction) {
    bot().handle_link_steam(
        &author(),
        "7656",
        Chat { phase, steam_id: String::new() },
        event,
    )
}

#[test]
fn link_conversation_stops_at_each_failure() {
    let (chat, action) =
        link_from(ChatPhase::Checking, ChatEvent::Exists(Err(StoreError::Unavailable)));
    assert_eq!(said(action), CHECK_FAILED);
    assert_eq!(CHECK_FAILED, "⚠️ Error checking your Steam ID in the database. Try again later.");
    assert_eq!(chat.phase, ChatPhase::Closing);

    let (_, action) = link_from(ChatPhase::Checking, ChatEvent::Exists(Ok(true)));
    assert_eq!(said(action), ALREADY_LINKED);
    assert_eq!(ALREADY_LINKED, "You already have a linked Steam ID!");

    let (_, action) =
        link_from(ChatPhase::Validating, ChatEvent::Profile(Err(ProfileError::NotFound)));
    assert_eq!(said(action), PROFILE_FAILED);
    assert_eq!(
        PROFILE_FAILED,
        "Error fetching Steam profile. Please make sure your Steam ID is correct!"
    );

    let (chat, action) = link_from(ChatPhase::Confirming, ChatEvent::Said(false));
    assert!(matches!(action, ChatAction::Done));
    assert_eq!(chat.phase, ChatPhase::Finished);

    let (_, action) = link_from(ChatPhase::AwaitingReply, ChatEvent::Replied(None));
    assert_eq!(said(action), NO_CONFIRMATION);
    assert_eq!(
        NO_CONFIRMATION,
        "No confirmation received. Please run the command again if you wish to link your Steam account."
    );

    let (_, action) =
        link_from(ChatPhase::AwaitingReply, ChatEvent::Replied(Some("no".to_string())));
    assert_eq!(said(action), CANCELED);
    assert_eq!(
        CANCELED,
        "Canceled. Please run the command again if you wish to link your Steam account."
    );

    let (_, action) =
        link_from(ChatPhase::Linking, ChatEvent::Linked(Err(StoreError::AccountTaken)));
    assert_eq!(said(action), LINK_FAILED);
    assert_eq!(LINK_FAILED, "Failed to link Steam ID. Please try again later.");

    let (chat, action) = link_from(ChatPhase::Idle, ChatEvent::Said(true));
    assert!(matches!(action, ChatAction::Done));
    assert_eq!(chat.phase, ChatPhase::Finished);
}

#[test]
fn steam_games_conversation_shows_the_most_played() {
    let bot = bot();
    let who = author();
    let (chat, action) = bot.handle_steam_games(&who, Chat::new(), ChatEvent::Start);
    assert!(matches!(action, ChatAction::LookupAccount { discord_id: 4242 }));
    let (chat, action) =
        bot.handle_steam_games(&who, chat, ChatEvent::Account(Ok(Some("7656".to_string()))));
    match action {
        ChatAction::LoadGames { steam_id } => assert_eq!(steam_id, "7656"),
        other => panic!("{:?}", other),
    }
    let (chat, action) = bot.handle_steam_games(
        &who,
        chat,
        ChatEvent::Games(Some(vec![game("Portal", 300), game("Hades", 4500)])),
    );
    assert_eq!(said(action), "Your most played game: **Hades** (75 hours)");
    let (chat, action) = bot.handle_steam_games(&who, chat, ChatEvent::Said(true));
    assert!(matches!(action, ChatAction::Done));
    assert_eq!(chat.phase, ChatPhase::Finished);
}

#[test]
fn steam_games_conversation_tells_what_is_missing() {
    let bot = bot();
    let who = author();
    let looking = || Chat { phase: ChatPhase::Looking, steam_id: String::new() };
    let (_, action) = bot.handle_steam_games(&who, looking(), ChatEvent::Account(Ok(None)));
    assert_eq!(said(action), NOT_LINKED);
    assert_eq!(NOT_LINKED, "You haven't linked your Steam ID yet! Use `!link_steam <steam_id>`.");
    let (_, action) = bot.handle_steam_games(
        &who,
        looking(),
        ChatEvent::Account(Err(StoreError::Unavailable)),
    );
    assert_eq!(said(action), DATABASE_ERROR);
    assert_eq!(DATABASE_ERROR, "Database error. Please try again later.");
    let loading = Chat { phase: ChatPhase::Loading, steam_id: String::new() };
    let (_, action) = bot.handle_steam_games(&who, loading, ChatEvent::Games(None));
    assert_eq!(said(action), DATA_ERROR);
}

#[test]
fn games_of_an_account_are_shown_without_a_lookup() {
    let bot = bot();
    let (chat, action) = bot.fetch_and_display_steam_games("7656", Chat::new(), ChatEvent::Start);
    match action {
        ChatAction::LoadGames { steam_id } => assert_eq!(steam_id, "7656"),
        other => panic!("{:?}", other),
    }
    let (chat, action) = bot.fetch_and_display_steam_games(
        "7656",
        chat,
        ChatEvent::Games(Some(vec![game("Portal", 300)])),
    );
    assert_eq!(said(action), "Your most played game: **Portal** (5 hours)");
    assert_eq!(chat.phase, ChatPhase::Closing);
    let (_, action) = bot.fetch_and_display_steam_games(
        "7656",
        Chat { phase: ChatPhase::Loading, steam_id: String::new() },
        ChatEvent::Games(None),
    );
    assert_eq!(said(action), "Error retrieving Steam data.");
}

#[test]
fn top_games_conversation_lists_five() {
    let bot = bot();
    let who = author();
    let (chat, action) = bot.display_top_games(&who, Chat::new(), ChatEvent::Start);
    assert!(matches!(action, ChatAction::LookupAccount { discord_id: 4242 }));
    let (chat, action) =
        bot.display_top_games(&who, chat, ChatEvent::Account(Ok(Some("7656".to_string()))));
    assert!(matches!(action, ChatAction::LoadGames { .. }));
    let (chat, action) = bot.display_top_games(
        &who,
        chat,
        ChatEvent::Games(Some(vec![game("Portal", 300), game("Hades", 4500)])),
    );
    assert_eq!(
        said(action),
        "Your top 5 played games:\n**Hades** (75 hours)\n**Portal** (5 hours)"
    );
    assert_eq!(chat.phase, ChatPhase::Closing);
    let looking = || Chat { phase: ChatPhase::Looking, steam_id: String::new() };
    let (_, action) = bot.display_top_games(&who, looking(), ChatEvent::Account(Ok(None)));
    assert_eq!(said(action), NOT_LINKED);
    let (_, action) =
        bot.display_top_games(&who, looking(), ChatEvent::Account(Err(StoreError::Unavailable)));
    assert_eq!(said(action), DATABASE_ERROR);
    let loading = Chat { phase: ChatPhase::Loading, steam_id: String::new() };
    let (_, action) = bot.display_top_games(&who, loading, ChatEvent::Games(None));
    assert_eq!(said(action), DATA_ERROR);
}

#[test]
fn recommend_conversation_passes_the_recommendation_on() {
    let bot = bot();
    let who = author();
    let (chat, action) = bot.recommend_games(&who, Chat::new(), ChatEvent::Start);
    assert!(matches!(action, ChatAction::LookupAccount { discord_id: 4242 }));
    let (chat, action) =
        bot.recommend_games(&who, chat, ChatEvent::Account(Ok(Some("7656".to_string()))));
    assert_eq!(said(action), "🔍 Getting recommendations for <@4242>...");
    assert_eq!(chat.steam_id, "7656");
    let (chat, action) = bot.recommend_games(&who, chat, ChatEvent::Said(true));
    match action {
        ChatAction::Recommend { steam_id } => assert_eq!(steam_id, "7656"),
        other => panic!("{:?}", other),
    }
    let (chat, action) =
        bot.recommend_games(&who, chat, ChatEvent::Recommended(Ok("1: Celeste".to_string())));
    assert_eq!(said(action), "🎮 Based on your game history, you might enjoy:\n\n1: Celeste");
    let (_, action) = bot.recommend_games(&who, chat, ChatEvent::Said(true));
    assert!(matches!(action, ChatAction::Done));
}

#[test]
fn recommend_conversation_tells_what_went_wrong() {
    let bot = bot();
    let who = author();
    let at = |phase: ChatPhase| Chat { phase, steam_id: "7656".to_string() };
    let (_, action) = bot.recommend_games(&who, at(ChatPhase::Looking), ChatEvent::Account(Ok(None)));
    assert_eq!(said(action), RECOMMEND_NOT_LINKED);
    assert_eq!(
        RECOMMEND_NOT_LINKED,
        "⚠️ You haven't linked your Steam ID yet! Use `!link_steam <steam_id>` to link your account."
    );
    let (_, action) = bot.recommend_games(
        &who,
        at(ChatPhase::Looking),
        ChatEvent::Account(Err(StoreError::Unavailable)),
    );
    assert_eq!(said(action), RECOMMEND_DATABASE_ERROR);
    assert_eq!(RECOMMEND_DATABASE_ERROR, "⚠️ Database error. Please try again later.");
    let (chat, action) = bot.recommend_games(&who, at(ChatPhase::Announcing), ChatEvent::Said(false));
    assert!(matches!(action, ChatAction::Done));
    assert_eq!(chat.phase, ChatPhase::Finished);
    let (_, action) = bot.recommend_games(
        &who,
        at(ChatPhase::Recommending),
        ChatEvent::Recommended(Err("connection reset".to_string())),
    );
    assert_eq!(said(action), "⚠️ Error generating recommendations:\n```connection reset```");
}

#[test]
fn account_without_games_is_told_so() {
    let mut bot = bot();
    let who = author();
    let games = match bot.get_steam_games("7656", 10, GamesEvent::Loaded(Ok(Vec::new()))) {
        GamesAction::Found { games } => Some(games),
        GamesAction::NotFound => None,
        other => panic!("{:?}", other),
    };
    let loading = Chat { phase: ChatPhase::Loading, steam_id: String::new() };
    let (_, action) = bot.handle_steam_games(&who, loading, ChatEvent::Games(games));
    assert_eq!(said(action), NO_GAMES_FOUND);

    let failed = match bot.get_steam_games(
        "7656",
        10,
        GamesEvent::Loaded(Err(StoreError::Unavailable)),
    ) {
        GamesAction::Found { games } => Some(games),
        GamesAction::NotFound => None,
        other => panic!("{:?}", other),
    };
    let loading = Chat { phase: ChatPhase::Loading, steam_id: String::new() };
    let (_, action) = bot.handle_steam_games(&who, loading, ChatEvent::Games(failed));
    assert_eq!(said(action), DATA_ERROR);
}

#[test]
fn link_command_without_its_word_gets_the_usage() {
    let bot = bot();
    for content in ["!link_steam", "!link_steam a b", "  !link_steam\n"] {
        let command = bot.message(content);
        assert!(matches!(command, Command::LinkUsage));
        let reply = command.reply().expect("the usage is said");
        assert_eq!(reply, LINK_USAGE);
        assert!(reply.starts_with("Please provide your Steam ID after the command."));
    }
    assert_eq!(bot.message("!link_steam 7656").reply(), None);
    assert_eq!(bot.message("!top_games").reply(), None);
    assert_eq!(bot.message("!steam_games").reply(), None);
    assert_eq!(bot.message("!recommend").reply(), None);
    assert_eq!(bot.message("hello").reply(), None);
}
