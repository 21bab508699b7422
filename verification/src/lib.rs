//! Decision logic of a Discord bot that shows Trakt watchlists and sends
//! episode and movie notifications. The I/O around it lives in `app/`.
pub mod text;
pub mod time;
pub mod datetime;
pub mod embed;
pub mod messages;
pub mod watchlist;
pub mod auth;
pub mod notifier;
pub mod commands;
pub mod wrappers;
pub mod config;
pub mod owner;
