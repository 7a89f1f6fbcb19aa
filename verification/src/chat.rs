//! Conversations with a user: what the bot can be told, what it can ask
//! for, and the texts it says.

use crate::database::db::StoreError;
use crate::scheduler::SyncOutcome;
use crate::steam::{GameView, ProfileError, ProfileView, SteamGame, SteamProfile};
use crate::text::{decimal, to_decimal};
use vstd::prelude::*;

verus! {

/// Said when the bot has connected.
pub const ONLINE: &'static str = "🚀 Bot is online and ready!";

/// Said when the link command comes without an account.
pub const LINK_USAGE: &'static str =
    "Please provide your Steam ID after the command. For help finding your Steam ID, visit: https://www.ubisoft.com/en-gb/help/account/article/finding-your-steam-id/000060565";

/// Said when the store cannot tell whether the account is linked.
pub const CHECK_FAILED: &'static str =
    "⚠️ Error checking your Steam ID in the database. Try again later.";

/// Said when the account is linked already.
pub const ALREADY_LINKED: &'static str = "You already have a linked Steam ID!";

/// Said when the profile of the account cannot be had.
pub const PROFILE_FAILED: &'static str =
    "Error fetching Steam profile. Please make sure your Steam ID is correct!";

/// Said when no reply came in time.
pub const NO_CONFIRMATION: &'static str =
    "No confirmation received. Please run the command again if you wish to link your Steam account.";

/// Said when the reply was not a confirmation.
pub const CANCELED: &'static str =
    "Canceled. Please run the command again if you wish to link your Steam account.";

/// Said when the store refused or failed the link.
pub const LINK_FAILED: &'static str = "Failed to link Steam ID. Please try again later.";

/// Said when the games of a newly linked account could not be written.
pub const STORE_FAILED: &'static str = "Error storing games in the database.";

/// Said when the games of a newly linked account were written.
pub const GAMES_UPDATED: &'static str = "✅ Steam games successfully updated in the database!";

/// Said when the games of a newly linked account could not be fetched.
pub const FETCH_FAILED: &'static str = "⚠️ Error retrieving Steam data.";

/// Said to a user who asks for their games and has no account linked.
pub const NOT_LINKED: &'static str =
    "You haven't linked your Steam ID yet! Use `!link_steam <steam_id>`.";

/// Said when the store cannot tell the account of a user.
pub const DATABASE_ERROR: &'static str = "Database error. Please try again later.";

/// Said when the games played most are wanted of an empty list.
pub const NO_GAMES_FOUND: &'static str = "No games found in your Steam account.";

/// Said when the games of an account are not to be had.
pub const DATA_ERROR: &'static str = "Error retrieving Steam data.";

/// Said to a user who asks for recommendations and has no account linked.
pub const RECOMMEND_NOT_LINKED: &'static str =
    "⚠️ You haven't linked your Steam ID yet! Use `!link_steam <steam_id>` to link your account.";

/// Said when the store cannot tell the account of a user who asks for
/// recommendations.
pub const RECOMMEND_DATABASE_ERROR: &'static str = "⚠️ Database error. Please try again later.";

/// Seconds for which a confirmation is awaited.
pub const CONFIRMATION_SECONDS: u64 = 30;

/// The author of a message.
#[derive(Debug)]
pub struct Author {
    pub id: u64,
    pub name: String,
}

/// Mathematical value of an [`Author`].
pub struct AuthorView {
    pub id: u64,
    pub name: Seq<char>,
}

impl View for Author {
    type V = AuthorView;

    open spec fn view(&self) -> AuthorView {
        AuthorView { id: self.id, name: self.name@ }
    }
}

/// The number under which the store knows a Discord user: the user's id,
/// read as a signed number of 64 bits.
pub open spec fn discord_id_of(id: u64) -> i64 {
    if id <= i64::MAX {
        id as i64
    } else {
        (id - 0x1_0000_0000_0000_0000) as i64
    }
}

/// Computes [`discord_id_of`].
pub fn discord_id(id: u64) -> (signed: i64)
    ensures
        signed == discord_id_of(id),
{
    if id <= 0x7fff_ffff_ffff_ffff {
        id as i64
    } else {
        let above: u64 = id - 0x8000_0000_0000_0000;
        let signed: i64 = above as i64;
        signed + i64::MIN
    }
}

/// Where a conversation stands between two events.
#[derive(Debug, Clone, Copy, PartialEq, Eq, Structural)]
pub enum ChatPhase {
    /// Nothing was asked for yet.
    Idle,
    /// The store is asked whether the account is linked.
    Checking,
    /// The profile of the account is looked up.
    Validating,
    /// The user is asked to confirm.
    Confirming,
    /// The user's reply is awaited.
    AwaitingReply,
    /// The link is written to the store.
    Linking,
    /// The user is told what comes next.
    Announcing,
    /// The games of the account are synced.
    Syncing,
    /// The store is asked for the account of the user.
    Looking,
    /// The games of the account are looked up.
    Loading,
    /// A recommendation is made.
    Recommending,
    /// The last words are said.
    Closing,
    /// The conversation is over.
    Finished,
}

/// Mathematical value of a [`Chat`].
pub struct ChatView {
    pub phase: ChatPhase,
    pub steam_id: Seq<char>,
}

impl ChatView {
    /// The state before anything happened.
    pub open spec fn initial() -> ChatView {
        ChatView { phase: ChatPhase::Idle, steam_id: Seq::empty() }
    }
}

/// Progress of one conversation: its phase, and the account it found for
/// the user, if it looked for one.
#[derive(Debug)]
pub struct Chat {
    pub phase: ChatPhase,
    pub steam_id: String,
}

impl View for Chat {
    type V = ChatView;

    open spec fn view(&self) -> ChatView {
        ChatView { phase: self.phase, steam_id: self.steam_id@ }
    }
}

impl Chat {
    /// A conversation that has not begun.
    pub fn new() -> (chat: Chat)
        ensures
            chat@ == ChatView::initial(),
    {
        Chat { phase: ChatPhase::Idle, steam_id: String::new() }
    }
}

/// What the embedding program reports to a conversation.
#[derive(Debug)]
pub enum ChatEvent {
    /// The command came in.
    Start,
    /// The text was sent, or could not be.
    Said(bool),
    /// Whether the account is linked, or why the store cannot tell.
    Exists(Result<bool, StoreError>),
    /// The profile of the account, or why it could not be had.
    Profile(Result<SteamProfile, ProfileError>),
    /// The next message of the user, or `None` if none came in time.
    Replied(Option<String>),
    /// The link was written, or why it was not.
    Linked(Result<(), StoreError>),
    /// How the sync of the account ended.
    Synced(SyncOutcome),
    /// The account of the user, `None` if they have none, or why the store
    /// cannot tell.
    Account(Result<Option<String>, StoreError>),
    /// The games of the account, or `None` if they are not to be had.
    Games(Option<Vec<SteamGame>>),
    /// The recommendation, or the words of the error that prevented it.
    Recommended(Result<String, String>),
}

/// Mathematical value of a [`ChatEvent`].
pub enum ChatEventView {
    Start,
    Said(bool),
    Exists(Result<bool, StoreError>),
    Profile(Result<ProfileView, ProfileError>),
    Replied(Option<Seq<char>>),
    Linked(Result<(), StoreError>),
    Synced(SyncOutcome),
    Account(Result<Option<Seq<char>>, StoreError>),
    Games(Option<Seq<GameView>>),
    Recommended(Result<Seq<char>, Seq<char>>),
}

impl View for ChatEvent {
    type V = ChatEventView;

    open spec fn view(&self) -> ChatEventView {
        match self {
            ChatEvent::Start => ChatEventView::Start,
            ChatEvent::Said(sent) => ChatEventView::Said(*sent),
            ChatEvent::Exists(known) => ChatEventView::Exists(*known),
            ChatEvent::Profile(Ok(profile)) => ChatEventView::Profile(Ok(profile@)),
            ChatEvent::Profile(Err(e)) => ChatEventView::Profile(Err(*e)),
            ChatEvent::Replied(Some(reply)) => ChatEventView::Replied(Some(reply@)),
            ChatEvent::Replied(None) => ChatEventView::Replied(None),
            ChatEvent::Linked(done) => ChatEventView::Linked(*done),
            ChatEvent::Synced(outcome) => ChatEventView::Synced(*outcome),
            ChatEvent::Account(Ok(Some(steam_id))) => ChatEventView::Account(Ok(Some(steam_id@))),
            ChatEvent::Account(Ok(None)) => ChatEventView::Account(Ok(None)),
            ChatEvent::Account(Err(e)) => ChatEventView::Account(Err(*e)),
            ChatEvent::Games(Some(games)) => ChatEventView::Games(Some(games.deep_view())),
            ChatEvent::Games(None) => ChatEventView::Games(None),
            ChatEvent::Recommended(Ok(text)) => ChatEventView::Recommended(Ok(text@)),
            ChatEvent::Recommended(Err(why)) => ChatEventView::Recommended(Err(why@)),
        }
    }
}

/// What a conversation asks the embedding program to do next.
#[derive(Debug)]
pub enum ChatAction {
    /// Send `text` to the channel of the command and report whether it went.
    Say { text: String },
    /// Ask the store whether some user is linked to `steam_id`.
    CheckLinked { steam_id: String },
    /// Look up the profile of `steam_id`.
    FetchProfile { steam_id: String },
    /// Wait up to `seconds` for the next message of the user.
    AwaitReply { seconds: u64 },
    /// Write the link of the user to `steam_id` to the store.
    Link { username: String, discord_id: i64, steam_id: String },
    /// Sync the games of `steam_id` and report how it ended.
    Sync { steam_id: String },
    /// Ask the store for the account of the user.
    LookupAccount { discord_id: i64 },
    /// Look up the games of `steam_id`.
    LoadGames { steam_id: String },
    /// Have a recommendation made for `steam_id`.
    Recommend { steam_id: String },
    /// Nothing is left to do.
    Done,
}

/// Mathematical value of a [`ChatAction`].
pub enum ChatActionView {
    Say { text: Seq<char> },
    CheckLinked { steam_id: Seq<char> },
    FetchProfile { steam_id: Seq<char> },
    AwaitReply { seconds: u64 },
    Link { username: Seq<char>, discord_id: i64, steam_id: Seq<char> },
    Sync { steam_id: Seq<char> },
    LookupAccount { discord_id: i64 },
    LoadGames { steam_id: Seq<char> },
    Recommend { steam_id: Seq<char> },
    Done,
}

impl View for ChatAction {
    type V = ChatActionView;

    open spec fn view(&self) -> ChatActionView {
        match self {
            ChatAction::Say { text } => ChatActionView::Say { text: text@ },
            ChatAction::CheckLinked { steam_id } => ChatActionView::CheckLinked {
                steam_id: steam_id@,
            },
            ChatAction::FetchProfile { steam_id } => ChatActionView::FetchProfile {
                steam_id: steam_id@,
            },
            ChatAction::AwaitReply { seconds } => ChatActionView::AwaitReply { seconds: *seconds },
            ChatAction::Link { username, discord_id, steam_id } => ChatActionView::Link {
                username: username@,
                discord_id: *discord_id,
                steam_id: steam_id@,
            },
            ChatAction::Sync { steam_id } => ChatActionView::Sync { steam_id: steam_id@ },
            ChatAction::LookupAccount { discord_id } => ChatActionView::LookupAccount {
                discord_id: *discord_id,
            },
            ChatAction::LoadGames { steam_id } => ChatActionView::LoadGames { steam_id: steam_id@ },
            ChatAction::Recommend { steam_id } => ChatActionView::Recommend { steam_id: steam_id@ },
            ChatAction::Done => ChatActionView::Done,
        }
    }
}

/// The conversation says `text` and goes on in `phase`.
pub open spec fn says(s: ChatView, phase: ChatPhase, text: Seq<char>) -> (ChatView, ChatActionView) {
    (ChatView { phase, ..s }, ChatActionView::Say { text })
}

/// The conversation says `text` as its last words.
pub open spec fn closes(s: ChatView, text: Seq<char>) -> (ChatView, ChatActionView) {
    says(s, ChatPhase::Closing, text)
}

/// The conversation asks for `action` and goes on in `phase`.
pub open spec fn asks(s: ChatView, phase: ChatPhase, action: ChatActionView) -> (
    ChatView,
    ChatActionView,
) {
    (ChatView { phase, ..s }, action)
}

/// The conversation is over.
pub open spec fn ends(s: ChatView) -> (ChatView, ChatActionView) {
    (ChatView { phase: ChatPhase::Finished, ..s }, ChatActionView::Done)
}

/// Says the words of `literal` and goes on in `phase`.
pub fn say(chat: Chat, phase: ChatPhase, literal: &str) -> (next: (Chat, ChatAction))
    ensures
        (next.0@, next.1@) == says(chat@, phase, literal@),
{
    (Chat { phase, steam_id: chat.steam_id }, ChatAction::Say { text: String::from_str(literal) })
}

/// Says `text` and goes on in `phase`.
pub fn say_text(chat: Chat, phase: ChatPhase, text: String) -> (next: (Chat, ChatAction))
    ensures
        (next.0@, next.1@) == says(chat@, phase, text@),
{
    (Chat { phase, steam_id: chat.steam_id }, ChatAction::Say { text })
}

/// Asks for `action` and goes on in `phase`.
pub fn ask(chat: Chat, phase: ChatPhase, action: ChatAction) -> (next: (Chat, ChatAction))
    ensures
        (next.0@, next.1@) == asks(chat@, phase, action@),
{
    (Chat { phase, steam_id: chat.steam_id }, action)
}

/// Ends the conversation.
pub fn end(chat: Chat) -> (next: (Chat, ChatAction))
    ensures
        (next.0@, next.1@) == ends(chat@),
{
    (Chat { phase: ChatPhase::Finished, steam_id: chat.steam_id }, ChatAction::Done)
}

/// The question whether the profile found is the user's.
pub open spec fn confirmation_text(persona_name: Seq<char>) -> Seq<char> {
    "Here is the Steam profile with the associated Steam ID: **"@ + persona_name
        + "**.\nReply with `yes` within 30 seconds to confirm linking, or `no` to cancel."@
}

/// Writes [`confirmation_text`].
pub fn write_confirmation(persona_name: &str) -> (text: String)
    ensures
        text@ == confirmation_text(persona_name@),
{
    let text = String::from_str("Here is the Steam profile with the associated Steam ID: **");
    let text = text.concat(persona_name);
    text.concat("**.\nReply with `yes` within 30 seconds to confirm linking, or `no` to cancel.")
}

/// The news that the account was linked.
pub open spec fn linked_text(steam_id: Seq<char>) -> Seq<char> {
    "Successfully linked Steam ID `"@ + steam_id + "` to your Discord account!"@
}

/// Writes [`linked_text`].
pub fn write_linked(steam_id: &str) -> (text: String)
    ensures
        text@ == linked_text(steam_id@),
{
    let text = String::from_str("Successfully linked Steam ID `");
    let text = text.concat(steam_id);
    text.concat("` to your Discord account!")
}

/// The notice that recommendations are under way for the user `id`, who is
/// mentioned in it.
pub open spec fn getting_text(id: u64) -> Seq<char> {
    "🔍 Getting recommendations for <@"@ + decimal(id as nat) + ">..."@
}

/// Writes [`getting_text`].
pub fn write_getting(id: u64) -> (text: String)
    ensures
        text@ == getting_text(id),
{
    let text = String::from_str("🔍 Getting recommendations for <@");
    let text = text.concat(to_decimal(id).as_str());
    text.concat(">...")
}

/// The answer that passes a recommendation on.
pub open spec fn recommendation_text(recommendations: Seq<char>) -> Seq<char> {
    "🎮 Based on your game history, you might enjoy:\n\n"@ + recommendations
}

/// Writes [`recommendation_text`].
pub fn write_recommendation(recommendations: &str) -> (text: String)
    ensures
        text@ == recommendation_text(recommendations@),
{
    let text = String::from_str("🎮 Based on your game history, you might enjoy:\n\n");
    text.concat(recommendations)
}

/// The answer that reports why no recommendation was made.
pub open spec fn recommend_error_text(why: Seq<char>) -> Seq<char> {
    "⚠️ Error generating recommendations:\n```"@ + why + "```"@
}

/// Writes [`recommend_error_text`].
pub fn write_recommend_error(why: &str) -> (text: String)
    ensures
        text@ == recommend_error_text(why@),
{
    let text = String::from_str("⚠️ Error generating recommendations:\n```");
    let text = text.concat(why);
    text.concat("```")
}

} // verus!
