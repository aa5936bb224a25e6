use mutti::audio_player::{
    is_audio_extension, is_audio_extension_lower, playlist_order, track_info, Advance, AudioPlayer,
    TrackInfo,
};
use mutti::time::{from_secs, MAX_NANOS, NANOS_PER_SEC};

const SEC: u128 = NANOS_PER_SEC;

fn info(title: &str, secs: u128) -> TrackInfo {
    TrackInfo {
        title: title.to_string(),
        artist: "Artist".to_string(),
        album: "Album".to_string(),
        total_duration: secs * SEC,
    }
}

fn player(n: usize) -> AudioPlayer {
    let playlist: Vec<String> = (0..n).map(|i| format!("/music/track{i}.mp3")).collect();
    AudioPlayer::new(playlist, info("track0", 180), 0)
}

#[test]
fn new_player_starts_playing_first_track_at_full_volume() {
    let p = player(3);
    assert_eq!(p.current_index, 0);
    assert!(!p.is_paused);
    assert_eq!(p.volume, 100);
    assert_eq!(p.title, "track0");
    assert_eq!(p.total_duration, 180 * SEC);
    assert_eq!(p.elapsed(0), 0);
}

#[test]
fn elapsed_follows_clock_while_playing() {
    let p = player(1);
    assert_eq!(p.elapsed(7 * SEC), 7 * SEC);
    assert_eq!(p.elapsed(7 * SEC + 5), 7 * SEC + 5);
}

#[test]
fn elapsed_before_start_counts_as_zero() {
    let p = AudioPlayer::new(vec!["a.mp3".to_string()], info("a", 10), 50);
    assert_eq!(p.elapsed(20), 0);
}

#[test]
fn pause_freezes_and_resume_continues() {
    let mut p = player(1);
    assert!(!p.toggle_pause(10 * SEC));
    assert!(p.is_paused);
    assert_eq!(p.elapsed(10 * SEC), 10 * SEC);
    assert_eq!(p.elapsed(100 * SEC), 10 * SEC);
    assert!(p.toggle_pause(100 * SEC));
    assert!(!p.is_paused);
    assert_eq!(p.elapsed(100 * SEC), 10 * SEC);
    assert_eq!(p.elapsed(103 * SEC), 13 * SEC);
}

#[test]
fn toggle_twice_at_same_moment_changes_nothing_later() {
    let mut p = player(2);
    p.toggle_pause(4 * SEC);
    p.toggle_pause(4 * SEC);
    assert!(!p.is_paused);
    assert_eq!(p.elapsed(9 * SEC), 9 * SEC);
}

#[test]
fn set_volume_keeps_the_rest() {
    let mut p = player(2);
    p.set_volume(42);
    assert_eq!(p.volume, 42);
    assert_eq!(p.current_index, 0);
    assert!(!p.is_paused);
}

#[test]
fn next_and_prev_track_stay_in_playlist() {
    let mut p = player(2);
    assert_eq!(p.prev_track(), None);
    assert_eq!(p.next_track(), Some(1));
    p.load_track(1, info("track1", 60), 5 * SEC);
    assert_eq!(p.current_index, 1);
    assert_eq!(p.title, "track1");
    assert_eq!(p.total_duration, 60 * SEC);
    assert_eq!(p.elapsed(5 * SEC), 0);
    assert_eq!(p.elapsed(8 * SEC), 3 * SEC);
    assert_eq!(p.next_track(), None);
    assert_eq!(p.prev_track(), Some(0));
}

#[test]
fn load_keeps_pause_and_volume() {
    let mut p = player(2);
    p.set_volume(30);
    p.toggle_pause(SEC);
    p.load_track(1, info("track1", 60), 2 * SEC);
    assert!(p.is_paused);
    assert_eq!(p.volume, 30);
    assert_eq!(p.elapsed(50 * SEC), 0);
}

#[test]
fn finished_needs_known_length_and_end_reached() {
    let p = player(1);
    assert!(!p.is_finished(179 * SEC));
    assert!(p.is_finished(180 * SEC));
    assert!(p.is_finished(500 * SEC));
    let unknown = AudioPlayer::new(vec!["a.wav".to_string()], info("a", 0), 0);
    assert!(!unknown.is_finished(1000 * SEC));
}

#[test]
fn check_advance_moves_on_then_reports_done() {
    let mut p = player(2);
    assert_eq!(p.check_advance(10 * SEC), Advance::Continue);
    assert_eq!(p.check_advance(180 * SEC), Advance::Next(1));
    p.load_track(1, info("track1", 60), 180 * SEC);
    assert_eq!(p.check_advance(200 * SEC), Advance::Continue);
    assert_eq!(p.check_advance(240 * SEC), Advance::Done);
}

#[test]
fn seek_clamps_to_track_end() {
    let mut p = player(1);
    assert_eq!(p.seek_to(30 * SEC, 10 * SEC), 30 * SEC);
    assert_eq!(p.elapsed(10 * SEC), 30 * SEC);
    assert_eq!(p.elapsed(12 * SEC), 32 * SEC);
    assert_eq!(p.seek_to(1000 * SEC, 12 * SEC), 180 * SEC);
    assert_eq!(p.elapsed(12 * SEC), 180 * SEC);
}

#[test]
fn seek_while_paused_stays_paused() {
    let mut p = player(1);
    p.toggle_pause(20 * SEC);
    assert_eq!(p.seek_to(50 * SEC, 30 * SEC), 50 * SEC);
    assert!(p.is_paused);
    assert_eq!(p.elapsed(90 * SEC), 50 * SEC);
}

#[test]
fn seek_backward_stops_at_start() {
    let mut p = player(1);
    assert_eq!(p.seek_backward(5, 12 * SEC), 7 * SEC);
    assert_eq!(p.elapsed(12 * SEC), 7 * SEC);
    assert_eq!(p.seek_backward(5, 14 * SEC), 4 * SEC);
    assert_eq!(p.seek_backward(5, 14 * SEC), 0);
    assert_eq!(p.elapsed(14 * SEC), 0);
}

#[test]
fn seek_forward_stops_at_end() {
    let mut p = player(1);
    assert_eq!(p.seek_forward(5, 10 * SEC), 15 * SEC);
    assert_eq!(p.elapsed(10 * SEC), 15 * SEC);
    assert_eq!(p.seek_forward(500, 10 * SEC), 180 * SEC);
}

#[test]
fn playlist_titles_are_file_stems() {
    let p = AudioPlayer::new(
        vec!["/music/a/First Song.mp3".to_string(), "relative/two.tar.flac".to_string(), "/".to_string()],
        info("x", 1),
        0,
    );
    assert_eq!(p.playlist_titles(), vec!["First Song".to_string(), "two.tar".to_string(), "/".to_string()]);
}

#[test]
fn audio_extensions_ignore_case() {
    assert!(is_audio_extension("mp3"));
    assert!(is_audio_extension("MP3"));
    assert!(is_audio_extension("Flac"));
    assert!(is_audio_extension("WAV"));
    assert!(is_audio_extension("ogg"));
    assert!(is_audio_extension("aAc"));
    assert!(!is_audio_extension("txt"));
    assert!(!is_audio_extension("mp4"));
    assert!(!is_audio_extension(""));
    assert!(is_audio_extension_lower("flac"));
    assert!(!is_audio_extension_lower("FLAC"));
}

#[test]
fn track_info_falls_back_on_missing_tags() {
    let t = track_info("/music/Some Band - Tune.ogg", None, Some(String::new()), Some("LP".to_string()), 3 * SEC);
    assert_eq!(t.title, "Some Band - Tune");
    assert_eq!(t.artist, "Unknown");
    assert_eq!(t.album, "LP");
    assert_eq!(t.total_duration, 3 * SEC);
    let t = track_info("/music/x.mp3", Some("Real Title".to_string()), Some("Someone".to_string()), None, 0);
    assert_eq!(t.title, "Real Title");
    assert_eq!(t.artist, "Someone");
    assert_eq!(t.album, "Unknown");
}

#[test]
fn from_secs_counts_nanoseconds() {
    assert_eq!(from_secs(5), 5_000_000_000);
    assert_eq!(from_secs(u64::MAX) + 999_999_999, MAX_NANOS);
    assert_eq!(std::time::Duration::MAX.as_nanos(), MAX_NANOS);
}

#[test]
fn seek_back_then_forward_comes_back() {
    let mut p = player(1);
    p.seek_to(40 * SEC, 0);
    assert_eq!(p.seek_backward(5, 2 * SEC), 37 * SEC);
    assert_eq!(p.seek_forward(5, 2 * SEC), 42 * SEC);
    assert_eq!(p.elapsed(2 * SEC), 42 * SEC);
}

#[test]
fn playlist_order_sorts_by_path_components_and_keeps_ties() {
    let paths: Vec<String> = ["b/x.mp3", "a-b/y.mp3", "a/b/z.mp3", "a/b/z.mp3", "a//c.mp3", "A.mp3"]
        .iter()
        .map(|s| s.to_string())
        .collect();
    let order = playlist_order(&paths);
    assert_eq!(order, vec![5, 2, 3, 4, 1, 0]);
    let mut expected: Vec<std::path::PathBuf> = paths.iter().map(std::path::PathBuf::from).collect();
    expected.sort();
    let got: Vec<std::path::PathBuf> = order.iter().map(|&i| std::path::PathBuf::from(&paths[i])).collect();
    assert_eq!(got, expected);
    assert!(playlist_order(&[]).is_empty());
}

#[test]
fn elapsed_after_a_step_back_in_the_clock_never_decreases() {
    let p = AudioPlayer::new(vec!["a.mp3".to_string()], info("a", 100), 10 * SEC);
    assert_eq!(p.elapsed(5 * SEC), 0);
    assert_eq!(p.elapsed(10 * SEC), 0);
    assert_eq!(p.elapsed(12 * SEC), 2 * SEC);
}
