use mutti::db::{track_from_tags, CREATE_TRACKS_TABLE, INSERT_TRACK, QUERY_TRACKS};
use mutti::tags::{choose_title, file_title, tag_or_unknown, title_from_stem, title_or_file_name};
use mutti::text::{file_stem, to_lowercase};

#[test]
fn track_row_falls_back_to_filename_and_unknown_artist() {
    let t = track_from_tags("/tmp/does-not-exist/hello world.mp3", None, None);
    assert_eq!(t.title, "hello world");
    assert_eq!(t.artist, "Unknown");
    assert_eq!(t.path, "/tmp/does-not-exist/hello world.mp3");
}

#[test]
fn track_row_keeps_non_empty_tags() {
    let t = track_from_tags("/x/a.mp3", Some("Title".to_string()), Some("Band".to_string()));
    assert_eq!(t.title, "Title");
    assert_eq!(t.artist, "Band");
    let t = track_from_tags("/x/a.mp3", Some(String::new()), Some(String::new()));
    assert_eq!(t.title, "a");
    assert_eq!(t.artist, "Unknown");
}

#[test]
fn title_choice_prefers_tag_then_stem_then_path() {
    assert_eq!(choose_title(Some("T".to_string()), Some("s".to_string()), "p"), "T");
    assert_eq!(choose_title(Some(String::new()), Some("s".to_string()), "p"), "s");
    assert_eq!(choose_title(None, None, "p/"), "p/");
    assert_eq!(title_from_stem(None, "/"), "/");
    assert_eq!(title_or_file_name(None, "/a/b/.hidden"), ".hidden");
    assert_eq!(file_title("/a/b/c.d.e"), "c.d");
    assert_eq!(file_title(".."), "..");
    assert_eq!(tag_or_unknown(Some("x".to_string())), "x");
    assert_eq!(tag_or_unknown(None), "Unknown");
}

#[test]
fn std_wrappers_transform_their_input() {
    assert_eq!(file_stem("/music/song.mp3"), Some("song".to_string()));
    assert_eq!(file_stem("/"), None);
    assert_eq!(to_lowercase("MiXeD ÄÖ"), "mixed äö");
}

#[test]
fn sql_statements_keep_paths_unique_and_titles_sorted() {
    assert!(CREATE_TRACKS_TABLE.contains("path   TEXT NOT NULL UNIQUE"));
    assert!(INSERT_TRACK.starts_with("INSERT OR IGNORE"));
    assert!(QUERY_TRACKS.ends_with("ORDER BY title"));
}
