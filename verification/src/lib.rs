//! The decisions of a chat bot that runs "looking for group" polls: a user
//! starts a poll with a slash command, names its games in private messages,
//! one per message, and says "done"; the bot then posts the poll, with one
//! reaction per game for the others to vote with.
//!
//! This library talks to nobody. Each event of the chat platform is an
//! argument to one of its functions, which changes the bot's state and
//! returns the actions to carry out: see `handler` for the bot as a whole,
//! `polls` for the polls and `action` for what comes back. What is said of
//! polls whatever the inputs is proved in `laws`.

pub mod action;
pub mod builder;
pub mod event;
pub mod handler;
pub mod icons;
pub mod laws;
pub mod polls;
pub mod slash_commands;
pub mod text;
pub mod whimsy;
