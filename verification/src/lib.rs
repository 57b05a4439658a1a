//! The replies of a small Discord bot, computed from plain values.
//!
//! Each command is a function from what the platform reported (who asked,
//! with which arguments, where they are) to the reply that is owed. The
//! network and the voice connection stay with the caller: it performs what a
//! function asks for and hands the outcome to the next one.

pub mod commands;
pub mod config;
pub mod ids;
pub mod platform;
pub mod reply;
pub mod text;
pub mod voice;
pub mod world_time;
