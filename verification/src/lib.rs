//! Verified core of a terminal music player: the playback state machine,
//! playlist navigation, the key bindings, tag fallbacks and the text that the
//! terminal interface shows.

pub mod args;
pub mod audio_player;
pub mod db;
pub mod keys;
pub mod tags;
pub mod text;
pub mod time;
pub mod ui;
pub mod visualizer;
