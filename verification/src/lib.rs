//! The logic of a panel applet that shows what the players on the session bus
//! are playing: which player is on display, what the panel and the popup show of
//! it, how commands reach it, and how its cover is loaded and cached.
//!
//! Talking to the bus, to the network, to the disk and to the screen is the
//! caller's. Where such work and decisions alternate, a function takes what came
//! back and says what is asked for next.

pub mod app;
pub mod app_laws;
pub mod art;
pub mod art_cache;
pub mod art_laws;
pub mod art_load;
pub mod choice_laws;
pub mod config;
pub mod control;
pub mod message_laws;
pub mod metadata;
pub mod names;
pub mod player;
pub mod player_laws;
pub mod players;
pub mod poll;
pub mod poll_laws;
pub mod raster;
pub mod text;
pub mod text_laws;
pub mod view;
pub mod view_laws;
