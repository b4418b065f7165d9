//! The library part of a desktop music player: the track index, the play queue,
//! playlists and settings, the player's control state, the SQL statements the
//! store uses, and the processing of YouTube Data API replies.
pub mod text;
pub mod database_types;
pub mod data_types;
pub mod time_format;
pub mod state;
pub mod queue;
pub mod media_player;
pub mod ui_events;
pub mod cxxqt_object;
pub mod source;
pub mod legacy;
pub mod requests;
pub mod database;
pub mod sink;
pub mod stream;
