//! Lorelei: the decision logic of a Discord music and voice-channel bot.
//!
//! Everything that talks to Discord, to the voice driver or to the operating
//! system lives outside this crate; here stand the rules that decide what the
//! bot says and does, each with its contract.
pub mod handler;
pub mod modules;
pub mod text;
pub mod discord;
