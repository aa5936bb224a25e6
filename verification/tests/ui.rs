use mutti::audio_player::{AudioPlayer, TrackInfo};
use mutti::ui::{
    format_duration, now_playing_text, queue_items, queue_spans, spectrum_peak, volume_label,
    AppState, Panel, PlaybackInfo, QueueItem, RepeatMode, SpanStyle,
};

#[test]
fn panel_next_cycles_through_all_four() {
    assert_eq!(Panel::Library.next(), Panel::NowPlaying);
    assert_eq!(Panel::NowPlaying.next(), Panel::Visualizer);
    assert_eq!(Panel::Visualizer.next(), Panel::Queue);
    assert_eq!(Panel::Queue.next(), Panel::Library);
}

#[test]
fn panel_prev_undoes_next() {
    for p in [Panel::Library, Panel::NowPlaying, Panel::Visualizer, Panel::Queue] {
        assert_eq!(p.next().prev(), p);
        assert_eq!(p.prev().next(), p);
        assert_eq!(p.next().next().next().next(), p);
    }
    assert_eq!(Panel::Library.prev(), Panel::Queue);
}

#[test]
fn durations_show_minutes_and_two_digit_seconds() {
    let s = 1_000_000_000u128;
    assert_eq!(format_duration(0), "0:00");
    assert_eq!(format_duration(7 * s), "0:07");
    assert_eq!(format_duration(187 * s + 999_999_999), "3:07");
    assert_eq!(format_duration(3600 * s + 61 * s), "61:01");
    assert_eq!(format_duration(59 * s), "0:59");
    assert_eq!(format_duration(600 * s), "10:00");
}

#[test]
fn volume_label_shows_percent() {
    assert_eq!(volume_label(0), "Vol:0%");
    assert_eq!(volume_label(85), "Vol:85%");
    assert_eq!(volume_label(100), "Vol:100%");
}

fn playback(is_paused: bool, shuffle: bool, repeat: RepeatMode) -> PlaybackInfo {
    PlaybackInfo {
        title: "T".to_string(),
        artist: "A".to_string(),
        album: "B".to_string(),
        elapsed: 65_000_000_000,
        total: 200_000_000_000,
        is_paused,
        volume: 40,
        shuffle,
        repeat,
    }
}

#[test]
fn now_playing_controls_follow_state() {
    let t = now_playing_text(&playback(true, false, RepeatMode::Off));
    assert_eq!(t.play_icon, "▶");
    assert_eq!(t.shuffle_icon, "  ");
    assert_eq!(t.repeat_icon, "  ");
    assert_eq!(t.volume, "Vol:40%");
    assert_eq!(t.elapsed, "1:05");
    assert_eq!(t.total, "3:20");
    let t = now_playing_text(&playback(false, true, RepeatMode::One));
    assert_eq!(t.play_icon, "▐▐");
    assert_eq!(t.shuffle_icon, "🔀");
    assert_eq!(t.repeat_icon, "🔂");
    let t = now_playing_text(&playback(false, false, RepeatMode::All));
    assert_eq!(t.repeat_icon, "🔁");
}

#[test]
fn queue_items_mark_current() {
    let titles = vec!["a".to_string(), "b".to_string(), "c".to_string()];
    let q = queue_items(&titles, 1);
    assert_eq!(q.len(), 3);
    assert_eq!(q[0].title, "a");
    assert!(!q[0].is_current);
    assert!(q[1].is_current);
    assert!(!q[2].is_current);
    assert!(queue_items(&titles, 7).iter().all(|i| !i.is_current));
}

#[test]
fn queue_line_has_arrows_and_marker() {
    let items = vec![
        QueueItem { title: "one".to_string(), is_current: false },
        QueueItem { title: "two".to_string(), is_current: true },
        QueueItem { title: "three".to_string(), is_current: false },
    ];
    let spans = queue_spans(&items);
    let got: Vec<(&str, SpanStyle)> = spans.iter().map(|s| (s.text.as_str(), s.style)).collect();
    assert_eq!(
        got,
        vec![
            ("one", SpanStyle::Plain),
            (" → ", SpanStyle::Separator),
            ("▶ ", SpanStyle::Marker),
            ("two", SpanStyle::Current),
            (" → ", SpanStyle::Separator),
            ("three", SpanStyle::Plain),
        ]
    );
    assert!(queue_spans(&[]).is_empty());
}

#[test]
fn spectrum_peak_is_max_or_one() {
    assert_eq!(spectrum_peak(&[]), 1);
    assert_eq!(spectrum_peak(&[0, 0]), 0);
    assert_eq!(spectrum_peak(&[3, 200, 17]), 200);
}

#[test]
fn app_state_for_player_lists_playlist() {
    let player = AudioPlayer::new(
        vec!["/m/x.mp3".to_string(), "/m/y.flac".to_string()],
        TrackInfo { title: "X".to_string(), artist: "Ar".to_string(), album: "Al".to_string(), total_duration: 9 },
        0,
    );
    let state = AppState::for_player(&player, Panel::Queue, 1, 4);
    let pb = state.playback.as_ref().unwrap();
    assert_eq!(pb.title, "X");
    assert_eq!(pb.elapsed, 4);
    assert_eq!(pb.total, 9);
    assert!(!pb.shuffle);
    assert_eq!(pb.repeat, RepeatMode::Off);
    assert_eq!(state.queue.len(), 2);
    assert_eq!(state.queue[0].title, "x");
    assert!(state.queue[0].is_current);
    assert_eq!(state.queue[1].title, "y");
    assert!(!state.queue[1].is_current);
    assert_eq!(pb.artist, "Ar");
    assert_eq!(pb.album, "Al");
    assert!(!pb.is_paused);
    assert_eq!(pb.volume, 100);
    assert_eq!(state.library.len(), 2);
    assert_eq!(state.library[0].name, "x");
    assert!(!state.library[0].is_selected);
    assert!(state.library[1].is_selected);
    assert_eq!(state.library_selected, 1);
    assert!(state.spectrum.is_empty());
    assert_eq!(state.focused_panel, Panel::Queue);
}
