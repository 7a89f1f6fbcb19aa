//! Synchronisation engine of a Discord bot that keeps a catalogue of Steam
//! libraries.
//!
//! The crate keeps a local copy of the games that linked Steam accounts own,
//! together with the minutes played, and answers the bot's commands from it.
//! It holds the decisions: when a fetch is retried and when it gives up, what
//! a write makes of the store, how a pass over all accounts goes on after a
//! failure, what is asked of the language model and what is said to the user.
//! Network, database and chat traffic are carried out by the program that
//! embeds the library: each step function takes a state and an event and
//! returns the next state and the action to perform.
//!
//! The contracts are proved with Verus. The few functions whose contracts are
//! taken on trust call into `itertools`, `rand` or the standard library and
//! say so where they stand.

pub mod sequences;
pub mod text;
pub mod steam;
pub mod ranking;
pub mod database;
pub mod scheduler;
pub mod llm;
pub mod chat;
pub mod bot;
