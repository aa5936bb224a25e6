use mutti::audio_player::{AudioPlayer, TrackInfo};
use mutti::keys::{
    command_for, handle_key, key_in_range_checked, volume_down, volume_up, Command, Effect, Key,
};
use mutti::time::MAX_NANOS;
use mutti::ui::Panel;

const SEC: u128 = 1_000_000_000;

fn player() -> AudioPlayer {
    AudioPlayer::new(
        vec!["/m/a.mp3".to_string(), "/m/b.mp3".to_string()],
        TrackInfo { title: "a".to_string(), artist: "x".to_string(), album: "y".to_string(), total_duration: 60 * SEC },
        0,
    )
}

#[test]
fn bindings_follow_the_key_table() {
    assert_eq!(command_for(Key::Char('q')), Command::Quit);
    assert_eq!(command_for(Key::Char(' ')), Command::TogglePause);
    assert_eq!(command_for(Key::Char('+')), Command::VolumeUp);
    assert_eq!(command_for(Key::Char('=')), Command::VolumeUp);
    assert_eq!(command_for(Key::Char('-')), Command::VolumeDown);
    assert_eq!(command_for(Key::Char('h')), Command::SeekBackward);
    assert_eq!(command_for(Key::Left), Command::SeekBackward);
    assert_eq!(command_for(Key::Char('k')), Command::SeekForward);
    assert_eq!(command_for(Key::Right), Command::SeekForward);
    assert_eq!(command_for(Key::Char('.')), Command::NextTrack);
    assert_eq!(command_for(Key::Char('>')), Command::NextTrack);
    assert_eq!(command_for(Key::Char(',')), Command::PrevTrack);
    assert_eq!(command_for(Key::Char('<')), Command::PrevTrack);
    assert_eq!(command_for(Key::Up), Command::LibraryUp);
    assert_eq!(command_for(Key::Down), Command::LibraryDown);
    assert_eq!(command_for(Key::Enter), Command::PlaySelected);
    assert_eq!(command_for(Key::Tab), Command::NextPanel);
    assert_eq!(command_for(Key::BackTab), Command::PrevPanel);
    assert_eq!(command_for(Key::Char('x')), Command::Ignore);
    assert_eq!(command_for(Key::Other), Command::Ignore);
}

#[test]
fn volume_steps_are_capped() {
    assert_eq!(volume_up(50), 55);
    assert_eq!(volume_up(97), 100);
    assert_eq!(volume_up(100), 100);
    assert_eq!(volume_up(253), 100);
    assert_eq!(volume_down(50), 45);
    assert_eq!(volume_down(3), 0);
    assert_eq!(volume_down(0), 0);
}

#[test]
fn keys_drive_player_and_panel() {
    let mut p = player();
    let mut panel = Panel::NowPlaying;
    let mut sel: usize = 0;
    assert_eq!(handle_key(&mut p, &mut panel, &mut sel, Key::Char('-'), SEC), Effect::Volume(95));
    assert_eq!(p.volume, 95);
    assert_eq!(handle_key(&mut p, &mut panel, &mut sel, Key::Char('='), SEC), Effect::Volume(100));
    assert_eq!(handle_key(&mut p, &mut panel, &mut sel, Key::Char(' '), 10 * SEC), Effect::Pause);
    assert!(p.is_paused);
    assert_eq!(handle_key(&mut p, &mut panel, &mut sel, Key::Char(' '), 20 * SEC), Effect::Play);
    assert_eq!(handle_key(&mut p, &mut panel, &mut sel, Key::Right, 20 * SEC), Effect::Seek(15 * SEC));
    assert_eq!(handle_key(&mut p, &mut panel, &mut sel, Key::Char('h'), 20 * SEC), Effect::Seek(10 * SEC));
    assert_eq!(handle_key(&mut p, &mut panel, &mut sel, Key::Char('>'), 20 * SEC), Effect::Load(1));
    assert_eq!(p.current_index, 0);
    assert_eq!(handle_key(&mut p, &mut panel, &mut sel, Key::Char('<'), 20 * SEC), Effect::Nothing);
    assert_eq!(handle_key(&mut p, &mut panel, &mut sel, Key::Tab, 20 * SEC), Effect::Nothing);
    assert_eq!(panel, Panel::Visualizer);
    assert_eq!(handle_key(&mut p, &mut panel, &mut sel, Key::BackTab, 20 * SEC), Effect::Nothing);
    assert_eq!(panel, Panel::NowPlaying);
    assert_eq!(handle_key(&mut p, &mut panel, &mut sel, Key::Char('q'), 20 * SEC), Effect::Quit);
}

#[test]
fn library_keys_move_selection_and_play() {
    let mut p = player();
    let mut panel = Panel::Library;
    let mut sel: usize = 0;
    assert_eq!(handle_key(&mut p, &mut panel, &mut sel, Key::Up, SEC), Effect::Nothing);
    assert_eq!(sel, 0);
    assert_eq!(handle_key(&mut p, &mut panel, &mut sel, Key::Down, SEC), Effect::Nothing);
    assert_eq!(sel, 1);
    assert_eq!(handle_key(&mut p, &mut panel, &mut sel, Key::Down, SEC), Effect::Nothing);
    assert_eq!(sel, 1);
    assert_eq!(handle_key(&mut p, &mut panel, &mut sel, Key::Enter, SEC), Effect::Load(1));
    assert_eq!(handle_key(&mut p, &mut panel, &mut sel, Key::Up, SEC), Effect::Nothing);
    assert_eq!(sel, 0);
    assert_eq!(panel, Panel::Library);
}

#[test]
fn key_range_check_matches_overflow() {
    let p = player();
    assert!(key_in_range_checked(&p, Key::Right, SEC));
    assert!(key_in_range_checked(&p, Key::Char('q'), MAX_NANOS));
    assert!(key_in_range_checked(&p, Key::Char(' '), MAX_NANOS));
    assert!(!key_in_range_checked(&p, Key::Right, MAX_NANOS));
    assert_eq!(p.elapsed_checked(MAX_NANOS), Some(MAX_NANOS));
    let mut q = player();
    q.seek_to(30 * SEC, 0);
    assert_eq!(q.elapsed_checked(2 * SEC), Some(32 * SEC));
    assert_eq!(q.elapsed_checked(MAX_NANOS), None);
    assert!(!key_in_range_checked(&q, Key::Char(' '), MAX_NANOS));
}
