//! The store: linked accounts and the games recorded for them.

pub mod db;
