//! The key bindings of the player: which command each key stands for, and
//! what a command does to the playback state and the focused panel.

use vstd::prelude::*;
use crate::audio_player::AudioPlayer;
use crate::time::{Nanos, MAX_NANOS, from_secs};
use crate::ui::Panel;

verus! {

/// A key press, as far as the bindings tell keys apart.
#[derive(Debug, Clone, Copy, PartialEq, Eq, Structural)]
pub enum Key {
    Char(char),
    Left,
    Right,
    Up,
    Down,
    Enter,
    Tab,
    BackTab,
    Other,
}

/// What a key asks the player to do.
#[derive(Debug, Clone, Copy, PartialEq, Eq, Structural)]
pub enum Command {
    Quit,
    TogglePause,
    VolumeUp,
    VolumeDown,
    SeekBackward,
    SeekForward,
    NextTrack,
    PrevTrack,
    NextPanel,
    PrevPanel,
    LibraryUp,
    LibraryDown,
    PlaySelected,
    Ignore,
}

/// Seconds that one press of a seek key moves.
pub const SEEK_STEP_SECS: u64 = 5;

/// Percentage points that one press of a volume key changes.
pub const VOLUME_STEP: u8 = 5;

/// The bindings: `q` quits, space pauses or resumes, `+`/`=` and `-` change
/// the volume, `h`/Left and `k`/Right seek, `.`/`>` and `,`/`<` change track,
/// Up and Down move the selection in the library, Enter plays the selected
/// track, Tab and Shift+Tab move the focus.
pub open spec fn command_of(key: Key) -> Command {
    match key {
        Key::Char(c) => if c == 'q' {
            Command::Quit
        } else if c == ' ' {
            Command::TogglePause
        } else if c == '+' || c == '=' {
            Command::VolumeUp
        } else if c == 'h' {
            Command::SeekBackward
        } else if c == 'k' {
            Command::SeekForward
        } else if c == '-' {
            Command::VolumeDown
        } else if c == '.' || c == '>' {
            Command::NextTrack
        } else if c == ',' || c == '<' {
            Command::PrevTrack
        } else {
            Command::Ignore
        },
        Key::Left => Command::SeekBackward,
        Key::Right => Command::SeekForward,
        Key::Up => Command::LibraryUp,
        Key::Down => Command::LibraryDown,
        Key::Enter => Command::PlaySelected,
        Key::Tab => Command::NextPanel,
        Key::BackTab => Command::PrevPanel,
        Key::Other => Command::Ignore,
    }
}

/// The command that `key` is bound to.
pub fn command_for(key: Key) -> (r: Command)
    ensures
        r == command_of(key),
{
    match key {
        Key::Char(c) => {
            if c == 'q' {
                Command::Quit
            } else if c == ' ' {
                Command::TogglePause
            } else if c == '+' || c == '=' {
                Command::VolumeUp
            } else if c == 'h' {
                Command::SeekBackward
            } else if c == 'k' {
                Command::SeekForward
            } else if c == '-' {
                Command::VolumeDown
            } else if c == '.' || c == '>' {
                Command::NextTrack
            } else if c == ',' || c == '<' {
                Command::PrevTrack
            } else {
                Command::Ignore
            }
        },
        Key::Left => Command::SeekBackward,
        Key::Right => Command::SeekForward,
        Key::Up => Command::LibraryUp,
        Key::Down => Command::LibraryDown,
        Key::Enter => Command::PlaySelected,
        Key::Tab => Command::NextPanel,
        Key::BackTab => Command::PrevPanel,
        Key::Other => Command::Ignore,
    }
}

/// The volume after "volume up": five points more, at most 100.
pub open spec fn raised_volume(v: u8) -> u8 {
    if v + 5 <= 100 {
        (v + 5) as u8
    } else {
        100
    }
}

/// The volume after "volume down": five points less, at least 0.
pub open spec fn lowered_volume(v: u8) -> u8 {
    if v >= 5 {
        (v - 5) as u8
    } else {
        0
    }
}

/// "Volume up": `volume.saturating_add(5).min(100)`.
pub fn volume_up(volume: u8) -> (r: u8)
    ensures
        r == raised_volume(volume),
        r <= 100,
        volume <= 100 ==> volume <= r,
{
    let v = volume.saturating_add(VOLUME_STEP);
    if v < 100 {
        v
    } else {
        100
    }
}

/// "Volume down": `volume.saturating_sub(5)`.
pub fn volume_down(volume: u8) -> (r: u8)
    ensures
        r == lowered_volume(volume),
        r <= volume,
{
    volume.saturating_sub(VOLUME_STEP)
}

/// The library selection after "up": one entry higher, at most to the first.
pub open spec fn selection_up(selected: usize) -> usize {
    if selected > 0 {
        (selected - 1) as usize
    } else {
        0
    }
}

/// The library selection after "down": one entry lower, at most to the
/// last of `len` entries.
pub open spec fn selection_down(selected: usize, len: int) -> usize {
    if selected + 1 < len {
        (selected + 1) as usize
    } else {
        selected
    }
}

/// What the caller has to do on the device after a key was handled.
#[derive(Debug, Clone, Copy, PartialEq, Eq, Structural)]
pub enum Effect {
    /// Leave the player.
    Quit,
    /// Resume the device.
    Play,
    /// Pause the device.
    Pause,
    /// Set the device's volume, in percent.
    Volume(u8),
    /// Restart the decoder of the current track at this position.
    Seek(Nanos),
    /// Read the track at this index and hand it to `AudioPlayer::load_track`.
    Load(usize),
    /// Nothing.
    Nothing,
}

/// Whether handling `key` at `now` stays within the range of durations
/// (the standard library panics on overflowing ones).
pub open spec fn key_in_range(player: AudioPlayer, key: Key, now: Nanos) -> bool {
    match command_of(key) {
        Command::TogglePause => player.elapsed_at(now as int) <= MAX_NANOS,
        Command::SeekBackward => player.elapsed_at(now as int) <= MAX_NANOS,
        Command::SeekForward => player.forward_target(SEEK_STEP_SECS, now as int) <= MAX_NANOS,
        _ => true,
    }
}

/// Whether handling `key` at `now` stays within the range of durations.
pub fn key_in_range_checked(player: &AudioPlayer, key: Key, now: Nanos) -> (r: bool)
    requires
        player.wf(),
    ensures
        r == key_in_range(*player, key, now),
{
    match command_for(key) {
        Command::TogglePause | Command::SeekBackward => player.elapsed_checked(now).is_some(),
        Command::SeekForward => match player.elapsed_checked(now) {
            Some(e) => e <= MAX_NANOS - from_secs(SEEK_STEP_SECS),
            None => false,
        },
        _ => true,
    }
}

/// Handles one key press at `now`: updates the playback state, the focused
/// panel and the selection in the library (whose entries are the tracks of
/// the playlist), and returns what the device has to do.
pub fn handle_key(
    player: &mut AudioPlayer,
    panel: &mut Panel,
    selected: &mut usize,
    key: Key,
    now: Nanos,
) -> (r: Effect)
    requires
        old(player).wf(),
        key_in_range(*old(player), key, now),
    ensures
        final(player).wf(),
        *final(selected) == (match command_of(key) {
            Command::LibraryUp => selection_up(*old(selected)),
            Command::LibraryDown => selection_down(*old(selected), old(player).playlist.len() as int),
            _ => *old(selected),
        }),
        *final(panel) == (match command_of(key) {
            Command::NextPanel => crate::ui::panel_after(*old(panel)),
            Command::PrevPanel => crate::ui::panel_before(*old(panel)),
            _ => *old(panel),
        }),
        match command_of(key) {
            Command::Quit => *final(player) == *old(player) && r == Effect::Quit,
            Command::TogglePause => {
                &&& *final(player) == old(player).toggled(now)
                &&& r == (if final(player).is_paused {
                    Effect::Pause
                } else {
                    Effect::Play
                })
            },
            Command::VolumeUp => *final(player) == (AudioPlayer {
                volume: raised_volume(old(player).volume),
                ..*old(player)
            }) && r == Effect::Volume(raised_volume(old(player).volume)),
            Command::VolumeDown => *final(player) == (AudioPlayer {
                volume: lowered_volume(old(player).volume),
                ..*old(player)
            }) && r == Effect::Volume(lowered_volume(old(player).volume)),
            Command::SeekBackward => {
                let target = old(player).backward_target(SEEK_STEP_SECS, now as int);
                *final(player) == old(player).sought(target, now) && r == Effect::Seek(
                    old(player).seek_target(target) as u128,
                )
            },
            Command::SeekForward => {
                let target = old(player).forward_target(SEEK_STEP_SECS, now as int);
                *final(player) == old(player).sought(target, now) && r == Effect::Seek(
                    old(player).seek_target(target) as u128,
                )
            },
            Command::NextTrack => {
                &&& *final(player) == *old(player)
                &&& r == (match old(player).next_index() {
                    Some(i) => Effect::Load(i),
                    None => Effect::Nothing,
                })
            },
            Command::PrevTrack => {
                &&& *final(player) == *old(player)
                &&& r == (match old(player).prev_index() {
                    Some(i) => Effect::Load(i),
                    None => Effect::Nothing,
                })
            },
            Command::PlaySelected => {
                &&& *final(player) == *old(player)
                &&& r == (if *old(selected) < old(player).playlist.len() {
                    Effect::Load(*old(selected))
                } else {
                    Effect::Nothing
                })
            },
            _ => *final(player) == *old(player) && r == Effect::Nothing,
        },
{
    match command_for(key) {
        Command::Quit => Effect::Quit,
        Command::TogglePause => {
            if player.toggle_pause(now) {
                Effect::Play
            } else {
                Effect::Pause
            }
        },
        Command::VolumeUp => {
            let v = volume_up(player.volume);
            player.set_volume(v);
            Effect::Volume(v)
        },
        Command::VolumeDown => {
            let v = volume_down(player.volume);
            player.set_volume(v);
            Effect::Volume(v)
        },
        Command::SeekBackward => Effect::Seek(player.seek_backward(SEEK_STEP_SECS, now)),
        Command::SeekForward => Effect::Seek(player.seek_forward(SEEK_STEP_SECS, now)),
        Command::NextTrack => match player.next_track() {
            Some(i) => Effect::Load(i),
            None => Effect::Nothing,
        },
        Command::PrevTrack => match player.prev_track() {
            Some(i) => Effect::Load(i),
            None => Effect::Nothing,
        },
        Command::NextPanel => {
            *panel = panel.next();
            Effect::Nothing
        },
        Command::PrevPanel => {
            *panel = panel.prev();
            Effect::Nothing
        },
        Command::LibraryUp => {
            if *selected > 0 {
                *selected = *selected - 1;
            }
            Effect::Nothing
        },
        Command::LibraryDown => {
            if *selected < player.playlist.len() && *selected + 1 < player.playlist.len() {
                *selected = *selected + 1;
            }
            Effect::Nothing
        },
        Command::PlaySelected => {
            if *selected < player.playlist.len() {
                Effect::Load(*selected)
            } else {
                Effect::Nothing
            }
        },
        Command::Ignore => Effect::Nothing,
    }
}

/// The volume keys keep the volume within 0 to 100: "up" never passes 100
/// and never lowers a volume that is in range, "down" never raises it, and
/// pressing "up" often enough reaches 100 and stays there.
pub proof fn volume_keys_stay_in_range(v: u8)
    ensures
        raised_volume(v) <= 100,
        v <= 100 ==> v <= raised_volume(v),
        lowered_volume(v) <= v,
        raised_volume(100) == 100,
        lowered_volume(0) == 0,
        v >= 95 ==> raised_volume(v) == 100,
{
}

/// Up and Down keep the library selection on an entry of a non-empty
/// library, and Enter then always loads a track of the playlist.
pub proof fn selection_stays_in_library(selected: usize, len: int)
    requires
        selected < len <= usize::MAX,
    ensures
        selection_up(selected) < len,
        selection_down(selected, len) < len,
        selection_up(selected) <= selected <= selection_down(selected, len),
{
}

/// The volume keys move the volume by exactly five points, stopping at 0
/// and 100; within that range "down" undoes "up" and "up" undoes "down".
pub proof fn volume_steps_are_five_points(v: u8)
    ensures
        v + 5 <= 100 ==> raised_volume(v) == v + 5,
        v + 5 > 100 ==> raised_volume(v) == 100,
        v >= 5 ==> lowered_volume(v) + 5 == v,
        v < 5 ==> lowered_volume(v) == 0,
        v + 5 <= 100 ==> lowered_volume(raised_volume(v)) == v,
        5 <= v <= 100 ==> raised_volume(lowered_volume(v)) == v,
{
}

/// Up and Down move the library selection by exactly one entry, stopping at
/// the first and the last entry; away from the ends, each undoes the other.
pub proof fn selection_steps_are_one_entry(selected: usize, len: int)
    requires
        len <= usize::MAX,
    ensures
        selected > 0 ==> selection_up(selected) + 1 == selected,
        selected == 0 ==> selection_up(selected) == 0,
        selected + 1 < len ==> selection_down(selected, len) == selected + 1,
        selected + 1 >= len ==> selection_down(selected, len) == selected,
        selected + 1 < len ==> selection_up(selection_down(selected, len)) == selected,
        0 < selected < len ==> selection_down(selection_up(selected), len) == selected,
{
}

/// The key table: for every character, the command it is bound to, and the
/// special keys. Each command has exactly the keys listed here.
pub proof fn key_table(c: char)
    ensures
        (command_of(Key::Char(c)) == Command::Quit) <==> c == 'q',
        (command_of(Key::Char(c)) == Command::TogglePause) <==> c == ' ',
        (command_of(Key::Char(c)) == Command::VolumeUp) <==> (c == '+' || c == '='),
        (command_of(Key::Char(c)) == Command::VolumeDown) <==> c == '-',
        (command_of(Key::Char(c)) == Command::SeekBackward) <==> c == 'h',
        (command_of(Key::Char(c)) == Command::SeekForward) <==> c == 'k',
        (command_of(Key::Char(c)) == Command::NextTrack) <==> (c == '.' || c == '>'),
        (command_of(Key::Char(c)) == Command::PrevTrack) <==> (c == ',' || c == '<'),
        (command_of(Key::Char(c)) == Command::Ignore) <==> !(c == 'q' || c == ' ' || c == '+'
            || c == '=' || c == '-' || c == 'h' || c == 'k' || c == '.' || c == '>' || c == ','
            || c == '<'),
        command_of(Key::Left) == Command::SeekBackward,
        command_of(Key::Right) == Command::SeekForward,
        command_of(Key::Up) == Command::LibraryUp,
        command_of(Key::Down) == Command::LibraryDown,
        command_of(Key::Enter) == Command::PlaySelected,
        command_of(Key::Tab) == Command::NextPanel,
        command_of(Key::BackTab) == Command::PrevPanel,
        command_of(Key::Other) == Command::Ignore,
{
}

} // verus!
