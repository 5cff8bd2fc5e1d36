//! Decision logic of an unattended game-account automation engine: click
//! batching, quest selection, lottery sequencing, claim scheduling, the login
//! handshake's parsing steps and the per-account phase machine.
pub mod schedule;
pub mod calls;
pub mod clicks;
pub mod text;
pub mod quests;
pub mod drain;
pub mod lottery;
pub mod phase;
pub mod client;
pub mod login;
pub mod config;
pub mod utils;
pub mod headers;
pub mod profile;
