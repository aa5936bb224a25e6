//! The track library: the rows stored for audio files, and the SQL that
//! stores and reads them.

use vstd::prelude::*;
use crate::tags::{title_or_file_name, tag_or_unknown};

verus! {

/// Creates the table of tracks unless it exists; each path is stored once.
pub const CREATE_TRACKS_TABLE: &'static str = "CREATE TABLE IF NOT EXISTS tracks (
            id    INTEGER PRIMARY KEY,
            title  TEXT NOT NULL,
            artist TEXT NOT NULL,
            path   TEXT NOT NULL UNIQUE
        );";

/// Stores a track, unless a track with the same path is stored already.
pub const INSERT_TRACK: &'static str = "INSERT OR IGNORE INTO tracks (title, artist, path) VALUES (?1, ?2, ?3)";

/// Reads all tracks, ordered by title.
pub const QUERY_TRACKS: &'static str = "SELECT title, artist, path FROM tracks ORDER BY title";

/// A track of the library.
pub struct Track {
    pub title: String,
    pub artist: String,
    pub path: String,
}

/// The row stored for the file at `path`, given the title and artist tags
/// found in it (each `None` where the file has no such tag or cannot be
/// read): the title falls back to the file's name, the artist to `"Unknown"`.
pub fn track_from_tags(path: &str, title: Option<String>, artist: Option<String>) -> (r: Track)
    ensures
        r.title@ == crate::tags::title_choice(
            crate::tags::text_of(title),
            crate::text::file_stem_of(path@),
            path@,
        ),
        r.artist@ == crate::tags::or_unknown(crate::tags::text_of(artist)),
        r.path@ == path@,
{
    Track { title: title_or_file_name(title, path), artist: tag_or_unknown(artist), path: path.to_owned() }
}

} // verus!
