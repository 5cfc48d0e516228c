//! Card-holder registration for the quest game: a verified core made of the
//! command grammar of the chat interface, the staging store of validated
//! cards, the user and avatar stores, the per-conversation dialogue engine
//! and the HTTP gateway's decisions.

pub mod text;
pub mod ids;
pub mod command;
pub mod records;
pub mod stager;
pub mod users;
pub mod avatars;
pub mod dialogue;
pub mod api;
pub mod quests;
pub mod laws;
