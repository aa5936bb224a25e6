//! The playback state machine of the player.
//!
//! `AudioPlayer` holds what the player decides on: the playlist and the
//! position in it, the pause state, the volume, the metadata of the current
//! track and the time accounting. The audio device, the decoder and the files
//! stay with the caller, which reads a monotonic clock (in nanoseconds since
//! any fixed origin) and hands the reading in as `now`; each transition says
//! what the device has to do next.

use vstd::prelude::*;
use crate::time::{Nanos, MAX_NANOS, from_secs};
use crate::tags::{title_or_file_name, tag_or_unknown, file_title};
use crate::text::{to_lowercase, path_less};

verus! {

/// Metadata of a track, as read from its tags and its decoder.
pub struct TrackInfo {
    pub title: String,
    pub artist: String,
    pub album: String,
    /// Length of the track; zero where the decoder cannot tell.
    pub total_duration: Nanos,
}

/// The metadata of the track at `path`, from the tags found in its file (each
/// `None` where the file has no such tag or cannot be read) and the length
/// that its decoder reports.
pub fn track_info(
    path: &str,
    title: Option<String>,
    artist: Option<String>,
    album: Option<String>,
    total_duration: Nanos,
) -> (r: TrackInfo)
    ensures
        r.title@ == crate::tags::title_choice(
            crate::tags::text_of(title),
            crate::text::file_stem_of(path@),
            path@,
        ),
        r.artist@ == crate::tags::or_unknown(crate::tags::text_of(artist)),
        r.album@ == crate::tags::or_unknown(crate::tags::text_of(album)),
        r.total_duration == total_duration,
{
    TrackInfo {
        title: title_or_file_name(title, path),
        artist: tag_or_unknown(artist),
        album: tag_or_unknown(album),
        total_duration,
    }
}

/// Whether a file extension names a format that the player scans for:
/// mp3, flac, wav, ogg or aac, in any case.
pub open spec fn audio_extension(lower: Seq<char>) -> bool {
    ||| lower == seq!['m', 'p', '3']
    ||| lower == seq!['f', 'l', 'a', 'c']
    ||| lower == seq!['w', 'a', 'v']
    ||| lower == seq!['o', 'g', 'g']
    ||| lower == seq!['a', 'a', 'c']
}

/// Whether an extension already in lower case is one of the audio formats.
pub fn is_audio_extension_lower(lower: &str) -> (r: bool)
    ensures
        r == audio_extension(lower@),
{
    let l = lower.to_owned();
    proof {
        reveal_strlit("mp3");
        reveal_strlit("flac");
        reveal_strlit("wav");
        reveal_strlit("ogg");
        reveal_strlit("aac");
        assert("mp3"@ =~= seq!['m', 'p', '3']);
        assert("flac"@ =~= seq!['f', 'l', 'a', 'c']);
        assert("wav"@ =~= seq!['w', 'a', 'v']);
        assert("ogg"@ =~= seq!['o', 'g', 'g']);
        assert("aac"@ =~= seq!['a', 'a', 'c']);
    }
    l == "mp3".to_owned() || l == "flac".to_owned() || l == "wav".to_owned() || l
        == "ogg".to_owned() || l == "aac".to_owned()
}

/// Whether a file with extension `ext` is picked up when a directory is scanned.
pub fn is_audio_extension(ext: &str) -> (r: bool)
    ensures
        r == audio_extension(crate::text::lowercase_of(ext@)),
{
    let lower = to_lowercase(ext);
    is_audio_extension_lower(lower.as_str())
}

/// Whether `order` lists the paths in order: no path comes before the one
/// listed just ahead of it, and paths of which neither comes before the
/// other keep the order in which they were found.
pub open spec fn path_order(paths: Seq<String>, order: Seq<usize>) -> bool {
    forall|k: int|
        #![trigger order[k], order[k + 1]]
        0 <= k < order.len() - 1 ==> {
            &&& !crate::text::path_precedes(paths[order[k + 1] as int]@, paths[order[k] as int]@)
            &&& !crate::text::path_precedes(paths[order[k] as int]@, paths[order[k + 1] as int]@)
                ==> order[k] < order[k + 1]
        }
}

/// Whether `order` lists each index of `n` items once.
pub open spec fn is_permutation(order: Seq<usize>, n: nat) -> bool {
    &&& order.len() == n
    &&& forall|k: int| 0 <= k < order.len() ==> #[trigger] order[k] < n
    &&& forall|k: int, l: int| 0 <= k < l < order.len() ==> #[trigger] order[k] != #[trigger] order[l]
}

/// The order in which the audio files found in a directory are played: the
/// indices of `paths`, sorted by the order of `std::path::Path`, found
/// order kept among paths that compare equal (a stable insertion sort).
pub fn playlist_order(paths: &[String]) -> (r: Vec<usize>)
    ensures
        is_permutation(r@, paths@.len()),
        path_order(paths@, r@),
{
    let n = paths.len();
    let mut r: Vec<usize> = Vec::new();
    let mut j: usize = 0;
    while j < n
        invariant
            n == paths@.len(),
            j <= n,
            is_permutation(r@, j as nat),
            path_order(paths@, r@),
        decreases n - j,
    {
        let len = r.len();
        let mut pos: usize = len;
        loop
            invariant
                n == paths@.len(),
                j < n,
                len == r.len(),
                is_permutation(r@, j as nat),
                path_order(paths@, r@),
                pos <= len,
                pos < len ==> crate::text::path_precedes(paths@[j as int]@, paths@[r@[pos as int] as int]@),
                pos < len ==> !crate::text::path_precedes(paths@[r@[pos as int] as int]@, paths@[j as int]@),
            ensures
                pos == 0 || !crate::text::path_precedes(paths@[j as int]@, paths@[r@[pos - 1] as int]@),
            decreases pos,
        {
            if pos == 0 {
                break;
            }
            if !path_less(paths[j].as_str(), paths[r[pos - 1]].as_str()) {
                break;
            }
            pos = pos - 1;
        }
        let ghost old_r = r@;
        r.insert(pos, j);
        assert(r@ == old_r.insert(pos as int, j));
        assert forall|k: int| 0 <= k < r@.len() implies #[trigger] r@[k] < j + 1 by {
            if k < pos {
                assert(r@[k] == old_r[k]);
            } else if k > pos {
                assert(r@[k] == old_r[k - 1]);
            }
        }
        assert forall|k: int, l: int| 0 <= k < l < r@.len() implies #[trigger] r@[k] != #[trigger] r@[l] by {
            if k < pos {
                assert(r@[k] == old_r[k]);
            } else if k > pos {
                assert(r@[k] == old_r[k - 1]);
            }
            if l < pos {
                assert(r@[l] == old_r[l]);
            } else if l > pos {
                assert(r@[l] == old_r[l - 1]);
            }
        }
        assert forall|k: int| #![trigger r@[k], r@[k + 1]] 0 <= k < r@.len() - 1 implies {
            &&& !crate::text::path_precedes(paths@[r@[k + 1] as int]@, paths@[r@[k] as int]@)
            &&& !crate::text::path_precedes(paths@[r@[k] as int]@, paths@[r@[k + 1] as int]@)
                ==> r@[k] < r@[k + 1]
        } by {
            if k + 1 < pos {
                assert(r@[k] == old_r[k] && r@[k + 1] == old_r[k + 1]);
                assert(old_r[k] == old_r[k] && old_r[k + 1] == old_r[k + 1]);
                assert(!crate::text::path_precedes(paths@[old_r[k + 1] as int]@, paths@[old_r[k] as int]@));
            } else if k + 1 == pos {
                assert(r@[k] == old_r[k] && r@[k + 1] == j);
                assert(old_r[k] < j);
                assert(!crate::text::path_precedes(paths@[j as int]@, paths@[old_r[k] as int]@));
            } else if k == pos {
                assert(r@[k] == j && r@[k + 1] == old_r[k]);
                assert(!crate::text::path_precedes(paths@[old_r[k] as int]@, paths@[j as int]@));
            } else {
                let kk = k - 1;
                assert(r@[k] == old_r[kk] && r@[k + 1] == old_r[kk + 1]);
                assert(old_r[kk] == old_r[kk] && old_r[kk + 1] == old_r[kk + 1]);
            }
        }
        j = j + 1;
    }
    r
}

/// What `check_advance` tells the caller to do.
#[derive(Debug, Clone, Copy, PartialEq, Eq, Structural)]
pub enum Advance {
    /// The current track is still playing.
    Continue,
    /// The current track has finished: load the track at this index.
    Next(usize),
    /// The last track has finished: playback is over.
    Done,
}

/// The playback state.
pub struct AudioPlayer {
    /// Clock reading at which playback last started or resumed.
    pub started_at: Nanos,
    /// Time played up to the last pause, seek or track change.
    pub paused_elapsed: Nanos,
    pub is_paused: bool,
    /// Volume in percent of the device's full volume.
    pub volume: u8,
    pub total_duration: Nanos,
    pub title: String,
    pub artist: String,
    pub album: String,
    /// The paths of the tracks, in playing order.
    pub playlist: Vec<String>,
    pub current_index: usize,
}

impl AudioPlayer {
    /// The state is consistent: the current index is inside the playlist,
    /// and the spans are those of durations.
    pub open spec fn wf(self) -> bool {
        &&& self.current_index < self.playlist.len()
        &&& self.paused_elapsed <= MAX_NANOS
        &&& self.total_duration <= MAX_NANOS
    }

    /// Time played of the current track, when the clock reads `now`.
    pub open spec fn elapsed_at(self, now: int) -> int {
        if self.is_paused {
            self.paused_elapsed as int
        } else {
            self.paused_elapsed + crate::time::since(self.started_at as int, now)
        }
    }

    /// Whether the current track, of known length, has been played to its end.
    pub open spec fn finished_at(self, now: int) -> bool {
        self.total_duration != 0 && self.elapsed_at(now) >= self.total_duration
    }

    /// The state after pause is toggled at `now`.
    pub open spec fn toggled(self, now: Nanos) -> Self {
        if self.is_paused {
            AudioPlayer { is_paused: false, started_at: now, ..self }
        } else {
            AudioPlayer { is_paused: true, paused_elapsed: self.elapsed_at(now as int) as u128, ..self }
        }
    }

    /// The index that "next track" moves to, if any.
    pub open spec fn next_index(self) -> Option<usize> {
        if self.current_index + 1 < self.playlist.len() {
            Some((self.current_index + 1) as usize)
        } else {
            None
        }
    }

    /// The index that "previous track" moves to, if any.
    pub open spec fn prev_index(self) -> Option<usize> {
        if self.current_index > 0 {
            Some((self.current_index - 1) as usize)
        } else {
            None
        }
    }

    /// The state after the track at `index`, with metadata `info`, is loaded at `now`.
    pub open spec fn loaded(self, index: usize, info: TrackInfo, now: Nanos) -> Self {
        AudioPlayer {
            current_index: index,
            total_duration: info.total_duration,
            title: info.title,
            artist: info.artist,
            album: info.album,
            paused_elapsed: 0,
            started_at: now,
            ..self
        }
    }

    /// Where a seek to `target` lands: no further than the end of the track.
    pub open spec fn seek_target(self, target: int) -> int {
        if target <= self.total_duration {
            target
        } else {
            self.total_duration as int
        }
    }

    /// The state after a seek to `target` at `now`.
    pub open spec fn sought(self, target: int, now: Nanos) -> Self {
        AudioPlayer {
            paused_elapsed: self.seek_target(target) as u128,
            started_at: if self.is_paused {
                self.started_at
            } else {
                now
            },
            ..self
        }
    }

    /// Where "seek back `secs` seconds" aims at `now`: that far before the
    /// current position, or the start of the track.
    pub open spec fn backward_target(self, secs: u64, now: int) -> int {
        let back = self.elapsed_at(now) - crate::time::secs_span(secs);
        if back > 0 {
            back
        } else {
            0
        }
    }

    /// Where "seek forward `secs` seconds" aims at `now`.
    pub open spec fn forward_target(self, secs: u64, now: int) -> int {
        self.elapsed_at(now) + crate::time::secs_span(secs)
    }

    /// What the player does about the end of the current track at `now`.
    pub open spec fn advance_at(self, now: int) -> Advance {
        if self.finished_at(now) {
            if self.current_index + 1 < self.playlist.len() {
                Advance::Next((self.current_index + 1) as usize)
            } else {
                Advance::Done
            }
        } else {
            Advance::Continue
        }
    }

    /// A player at the start of `playlist`, whose first track has metadata
    /// `first`, playing at full volume from clock reading `now`.
    pub fn new(playlist: Vec<String>, first: TrackInfo, now: Nanos) -> (r: Self)
        requires
            playlist.len() > 0,
            first.total_duration <= MAX_NANOS,
        ensures
            r.wf(),
            r == (AudioPlayer {
                started_at: now,
                paused_elapsed: 0,
                is_paused: false,
                volume: 100,
                total_duration: first.total_duration,
                title: first.title,
                artist: first.artist,
                album: first.album,
                playlist: playlist,
                current_index: 0,
            }),
    {
        AudioPlayer {
            started_at: now,
            paused_elapsed: 0,
            is_paused: false,
            volume: 100,
            total_duration: first.total_duration,
            title: first.title,
            artist: first.artist,
            album: first.album,
            playlist,
            current_index: 0,
        }
    }

    /// Time played of the current track.
    pub fn elapsed(&self, now: Nanos) -> (r: Nanos)
        requires
            self.wf(),
            self.elapsed_at(now as int) <= MAX_NANOS,
        ensures
            r == self.elapsed_at(now as int),
    {
        if self.is_paused {
            self.paused_elapsed
        } else {
            let since: Nanos = if now >= self.started_at {
                now - self.started_at
            } else {
                0
            };
            self.paused_elapsed + since
        }
    }

    /// Time played of the current track, where it is within the range of
    /// durations; `None` where it is not (the standard library panics on
    /// adding such durations).
    pub fn elapsed_checked(&self, now: Nanos) -> (r: Option<Nanos>)
        requires
            self.wf(),
        ensures
            r == (if self.elapsed_at(now as int) <= MAX_NANOS {
                Some(self.elapsed_at(now as int) as u128)
            } else {
                None
            }),
    {
        if self.is_paused {
            Some(self.paused_elapsed)
        } else {
            let since: Nanos = if now >= self.started_at {
                now - self.started_at
            } else {
                0
            };
            if since <= MAX_NANOS - self.paused_elapsed {
                Some(self.paused_elapsed + since)
            } else {
                None
            }
        }
    }

    /// Pauses or resumes; returns whether the device is to play.
    pub fn toggle_pause(&mut self, now: Nanos) -> (playing: bool)
        requires
            old(self).wf(),
            old(self).elapsed_at(now as int) <= MAX_NANOS,
        ensures
            *final(self) == old(self).toggled(now),
            final(self).wf(),
            playing == !final(self).is_paused,
    {
        if self.is_paused {
            self.started_at = now;
            self.is_paused = false;
            true
        } else {
            self.paused_elapsed = self.elapsed(now);
            self.is_paused = true;
            false
        }
    }

    /// Sets the volume, in percent.
    pub fn set_volume(&mut self, vol: u8)
        ensures
            *final(self) == (AudioPlayer { volume: vol, ..*old(self) }),
    {
        self.volume = vol;
    }

    /// Whether the current track, of known length, has been played to its end.
    pub fn is_finished(&self, now: Nanos) -> (r: bool)
        requires
            self.wf(),
            self.elapsed_at(now as int) <= MAX_NANOS,
        ensures
            r == self.finished_at(now as int),
    {
        self.total_duration != 0 && self.elapsed(now) >= self.total_duration
    }

    /// The index of the next track, if the current one is not the last.
    pub fn next_track(&self) -> (r: Option<usize>)
        requires
            self.wf(),
        ensures
            r == self.next_index(),
            r matches Some(i) ==> i < self.playlist.len(),
    {
        if self.current_index + 1 < self.playlist.len() {
            Some(self.current_index + 1)
        } else {
            None
        }
    }

    /// The index of the previous track, if the current one is not the first.
    pub fn prev_track(&self) -> (r: Option<usize>)
        requires
            self.wf(),
        ensures
            r == self.prev_index(),
            r matches Some(i) ==> i < self.playlist.len(),
    {
        if self.current_index > 0 {
            Some(self.current_index - 1)
        } else {
            None
        }
    }

    /// Makes the track at `index`, with metadata `info`, the current one,
    /// played from its start at `now`; pause state and volume are kept.
    pub fn load_track(&mut self, index: usize, info: TrackInfo, now: Nanos)
        requires
            old(self).wf(),
            index < old(self).playlist.len(),
            info.total_duration <= MAX_NANOS,
        ensures
            *final(self) == old(self).loaded(index, info, now),
            final(self).wf(),
    {
        self.current_index = index;
        self.total_duration = info.total_duration;
        self.title = info.title;
        self.artist = info.artist;
        self.album = info.album;
        self.paused_elapsed = 0;
        self.started_at = now;
    }

    /// What to do about the end of the current track: go on, load the next
    /// track, or stop because the playlist is over.
    pub fn check_advance(&self, now: Nanos) -> (r: Advance)
        requires
            self.wf(),
            self.elapsed_at(now as int) <= MAX_NANOS,
        ensures
            r == self.advance_at(now as int),
            r matches Advance::Next(i) ==> i < self.playlist.len(),
    {
        if self.is_finished(now) {
            if self.current_index + 1 < self.playlist.len() {
                Advance::Next(self.current_index + 1)
            } else {
                Advance::Done
            }
        } else {
            Advance::Continue
        }
    }

    /// The name of each track of the playlist: its file's stem, or its whole
    /// path where it has none.
    pub fn playlist_titles(&self) -> (r: Vec<String>)
        ensures
            r.len() == self.playlist.len(),
            forall|i: int|
                0 <= i < r.len() ==> #[trigger] r[i]@ == crate::tags::stem_or_path(
                    crate::text::file_stem_of(self.playlist[i]@),
                    self.playlist[i]@,
                ),
    {
        let mut r: Vec<String> = Vec::new();
        let n = self.playlist.len();
        for j in 0..n
            invariant
                n == self.playlist.len(),
                r.len() == j,
                forall|i: int|
                    0 <= i < j ==> #[trigger] r[i]@ == crate::tags::stem_or_path(
                        crate::text::file_stem_of(self.playlist[i]@),
                        self.playlist[i]@,
                    ),
        {
            r.push(file_title(self.playlist[j].as_str()));
        }
        r
    }

    /// Seeks to `target`, or to the end of the track where `target` lies
    /// beyond it; returns the position that the decoder is to seek to.
    pub fn seek_to(&mut self, target: Nanos, now: Nanos) -> (r: Nanos)
        requires
            old(self).wf(),
        ensures
            *final(self) == old(self).sought(target as int, now),
            r == old(self).seek_target(target as int),
            final(self).wf(),
    {
        let target = if target <= self.total_duration {
            target
        } else {
            self.total_duration
        };
        self.paused_elapsed = target;
        if !self.is_paused {
            self.started_at = now;
        }
        target
    }

    /// Seeks `secs` seconds back, or to the start of the track.
    pub fn seek_backward(&mut self, secs: u64, now: Nanos) -> (r: Nanos)
        requires
            old(self).wf(),
            old(self).elapsed_at(now as int) <= MAX_NANOS,
        ensures
            *final(self) == old(self).sought(old(self).backward_target(secs, now as int), now),
            r == old(self).seek_target(old(self).backward_target(secs, now as int)),
            final(self).wf(),
    {
        let elapsed = self.elapsed(now);
        let step = from_secs(secs);
        let target = if elapsed >= step {
            elapsed - step
        } else {
            0
        };
        self.seek_to(target, now)
    }

    /// Seeks `secs` seconds forward, or to the end of the track.
    pub fn seek_forward(&mut self, secs: u64, now: Nanos) -> (r: Nanos)
        requires
            old(self).wf(),
            old(self).forward_target(secs, now as int) <= MAX_NANOS,
        ensures
            *final(self) == old(self).sought(old(self).forward_target(secs, now as int), now),
            r == old(self).seek_target(old(self).forward_target(secs, now as int)),
            final(self).wf(),
    {
        let elapsed = self.elapsed(now);
        let step = from_secs(secs);
        self.seek_to(elapsed + step, now)
    }
}


/// Pausing or resuming does not move the playing position: right after the
/// toggle, the time played is what it was right before.
pub proof fn toggle_keeps_position(p: AudioPlayer, now: Nanos)
    requires
        p.wf(),
        p.elapsed_at(now as int) <= MAX_NANOS,
    ensures
        p.toggled(now).elapsed_at(now as int) == p.elapsed_at(now as int),
        p.toggled(now).is_paused == !p.is_paused,
{
}

/// Pausing and resuming at the same moment changes nothing that can be
/// observed later: the pause state comes back, and at every later clock
/// reading the time played is what it would have been without the toggles.
pub proof fn toggle_twice_is_invisible(p: AudioPlayer, now: Nanos, later: int)
    requires
        p.wf(),
        p.elapsed_at(now as int) <= MAX_NANOS,
        p.started_at <= now <= later,
    ensures
        p.toggled(now).toggled(now).is_paused == p.is_paused,
        p.toggled(now).toggled(now).elapsed_at(later) == p.elapsed_at(later),
        p.toggled(now).toggled(now).current_index == p.current_index,
        p.toggled(now).toggled(now).volume == p.volume,
        p.toggled(now).toggled(now).playlist == p.playlist,
{
}

/// While paused, the time played stands still.
pub proof fn paused_position_stands_still(p: AudioPlayer, t1: int, t2: int)
    requires
        p.is_paused,
    ensures
        p.elapsed_at(t1) == p.elapsed_at(t2),
{
}

/// While playing, the time played advances with the clock.
pub proof fn playing_position_follows_clock(p: AudioPlayer, t1: int, t2: int)
    requires
        !p.is_paused,
        p.started_at <= t1 <= t2,
    ensures
        p.elapsed_at(t2) == p.elapsed_at(t1) + (t2 - t1),
{
}

/// A seek lands on its target, or on the end of the track where the target
/// lies beyond it, and keeps the pause state.
pub proof fn seek_lands_on_target(p: AudioPlayer, target: Nanos, now: Nanos)
    requires
        p.wf(),
    ensures
        p.sought(target as int, now).elapsed_at(now as int) == (if target <= p.total_duration {
            target as int
        } else {
            p.total_duration as int
        }),
        p.sought(target as int, now).elapsed_at(now as int) <= p.total_duration,
        p.sought(target as int, now).is_paused == p.is_paused,
        p.sought(target as int, now).wf(),
{
}

/// A loaded track starts from its beginning, with the pause state and the
/// volume kept.
pub proof fn load_starts_at_zero(p: AudioPlayer, index: usize, info: TrackInfo, now: Nanos)
    ensures
        p.loaded(index, info, now).elapsed_at(now as int) == 0,
        p.loaded(index, info, now).is_paused == p.is_paused,
        p.loaded(index, info, now).volume == p.volume,
        p.loaded(index, info, now).playlist == p.playlist,
{
}

/// "Next track" and then "previous track" come back to the track one started
/// from, and the other way round.
pub proof fn next_and_prev_undo_each_other(
    p: AudioPlayer,
    info: TrackInfo,
    now: Nanos,
)
    requires
        p.wf(),
    ensures
        p.next_index() matches Some(i) ==> p.loaded(i, info, now).prev_index() == Some(
            p.current_index,
        ),
        p.prev_index() matches Some(i) ==> p.loaded(i, info, now).next_index() == Some(
            p.current_index,
        ),
{
}

/// Navigation never leaves the playlist: every index that "next", "previous"
/// or the end of a track moves to lies inside it, so a loaded state stays
/// consistent.
pub proof fn navigation_stays_in_playlist(p: AudioPlayer, info: TrackInfo, now: Nanos, clock: int)
    requires
        p.wf(),
        info.total_duration <= MAX_NANOS,
    ensures
        p.next_index() matches Some(i) ==> i < p.playlist.len() && p.loaded(i, info, now).wf(),
        p.prev_index() matches Some(i) ==> i < p.playlist.len() && p.loaded(i, info, now).wf(),
        p.advance_at(clock) matches Advance::Next(i) ==> i < p.playlist.len() && p.loaded(
            i,
            info,
            now,
        ).wf(),
{
}

/// Seeking back by some seconds and then forward by as many comes back to
/// the position one started from, where neither seek hits an end of the track.
pub proof fn seek_back_then_forward_returns(p: AudioPlayer, secs: u64, now: Nanos)
    requires
        p.wf(),
        crate::time::secs_span(secs) <= p.elapsed_at(now as int) <= p.total_duration,
    ensures
        ({
            let q = p.sought(p.backward_target(secs, now as int), now);
            &&& q.forward_target(secs, now as int) == p.elapsed_at(now as int)
            &&& q.sought(q.forward_target(secs, now as int), now).elapsed_at(now as int)
                == p.elapsed_at(now as int)
        }),
{
}

/// Playback is over exactly when the last track of the playlist has been
/// played to its end; a track that has not finished is never left.
pub proof fn done_only_after_last_track(p: AudioPlayer, clock: int)
    requires
        p.wf(),
    ensures
        (p.advance_at(clock) == Advance::Done) <==> (p.finished_at(clock) && p.current_index + 1
            == p.playlist.len()),
        (p.advance_at(clock) == Advance::Continue) <==> !p.finished_at(clock),
        p.advance_at(clock) matches Advance::Next(i) ==> i == p.current_index + 1,
{
}

/// The time played never goes back as the clock moves on, stands still
/// while paused, and follows the clock exactly while playing, once the clock
/// has reached the moment playback started.
pub proof fn elapsed_never_decreases(p: AudioPlayer, t1: int, t2: int)
    requires
        t1 <= t2,
    ensures
        p.elapsed_at(t1) <= p.elapsed_at(t2),
        p.is_paused ==> p.elapsed_at(t2) == p.elapsed_at(t1),
        !p.is_paused && p.started_at <= t1 ==> p.elapsed_at(t2) - p.elapsed_at(t1) == t2 - t1,
{
}

/// One call on the player, with the arguments and clock reading it is made
/// with; the tracks that a call loads carry the metadata read for them.
pub enum Step {
    TogglePause(Nanos),
    SetVolume(u8),
    NextTrack(TrackInfo, Nanos),
    PrevTrack(TrackInfo, Nanos),
    CheckAdvance(TrackInfo, Nanos),
    SeekTo(Nanos, Nanos),
    SeekBackward(u64, Nanos),
    SeekForward(u64, Nanos),
}

/// Whether `step` may be made on `p`: its durations stay in range, and a
/// loaded track's length is a duration.
pub open spec fn step_allowed(p: AudioPlayer, step: Step) -> bool {
    match step {
        Step::TogglePause(now) => p.elapsed_at(now as int) <= MAX_NANOS,
        Step::SetVolume(_) => true,
        Step::NextTrack(info, _) => info.total_duration <= MAX_NANOS,
        Step::PrevTrack(info, _) => info.total_duration <= MAX_NANOS,
        Step::CheckAdvance(info, now) => p.elapsed_at(now as int) <= MAX_NANOS
            && info.total_duration <= MAX_NANOS,
        Step::SeekTo(_, _) => true,
        Step::SeekBackward(_, now) => p.elapsed_at(now as int) <= MAX_NANOS,
        Step::SeekForward(secs, now) => p.forward_target(secs, now as int) <= MAX_NANOS,
    }
}

/// The state after `step`: the state that the method's contract gives, and,
/// where it names a track to load, the state after loading it.
pub open spec fn after_step(p: AudioPlayer, step: Step) -> AudioPlayer {
    match step {
        Step::TogglePause(now) => p.toggled(now),
        Step::SetVolume(v) => AudioPlayer { volume: v, ..p },
        Step::NextTrack(info, now) => match p.next_index() {
            Some(i) => p.loaded(i, info, now),
            None => p,
        },
        Step::PrevTrack(info, now) => match p.prev_index() {
            Some(i) => p.loaded(i, info, now),
            None => p,
        },
        Step::CheckAdvance(info, now) => match p.advance_at(now as int) {
            Advance::Next(i) => p.loaded(i, info, now),
            _ => p,
        },
        Step::SeekTo(target, now) => p.sought(target as int, now),
        Step::SeekBackward(secs, now) => p.sought(p.backward_target(secs, now as int), now),
        Step::SeekForward(secs, now) => p.sought(p.forward_target(secs, now as int), now),
    }
}

/// Whether every step of `steps` may be made, in turn, from `p`.
pub open spec fn steps_allowed(p: AudioPlayer, steps: Seq<Step>) -> bool
    decreases steps.len(),
{
    steps.len() == 0 || (step_allowed(p, steps[0]) && steps_allowed(
        after_step(p, steps[0]),
        steps.drop_first(),
    ))
}

/// The state after the steps, in turn, from `p`.
pub open spec fn after_steps(p: AudioPlayer, steps: Seq<Step>) -> AudioPlayer
    decreases steps.len(),
{
    if steps.len() == 0 {
        p
    } else {
        after_steps(after_step(p, steps[0]), steps.drop_first())
    }
}

/// Whether no step of `steps` sets the volume above 100.
pub open spec fn volumes_in_range(steps: Seq<Step>) -> bool {
    forall|k: int| 0 <= k < steps.len() ==> (#[trigger] steps[k] matches Step::SetVolume(v) ==> v <= 100)
}

/// Through any sequence of calls, a player made by `new` stays consistent:
/// the playlist is the one it was made with and is not empty, the current
/// index stays inside it, and the volume stays within 0 to 100 when it is
/// only ever set within that range.
pub proof fn calls_keep_player_consistent(p: AudioPlayer, steps: Seq<Step>)
    requires
        p.wf(),
        steps_allowed(p, steps),
    ensures
        after_steps(p, steps).wf(),
        after_steps(p, steps).playlist == p.playlist,
        after_steps(p, steps).playlist.len() > 0,
        p.volume <= 100 && volumes_in_range(steps) ==> after_steps(p, steps).volume <= 100,
    decreases steps.len(),
{
    if steps.len() > 0 {
        let q = after_step(p, steps[0]);
        let rest = steps.drop_first();
        assert(q.wf() && q.playlist == p.playlist);
        if p.volume <= 100 && volumes_in_range(steps) {
            assert(steps[0] matches Step::SetVolume(v) ==> v <= 100);
            assert(q.volume <= 100);
            assert forall|k: int| 0 <= k < rest.len() implies (#[trigger] rest[k] matches Step::SetVolume(
                v,
            ) ==> v <= 100) by {
                assert(rest[k] == steps[k + 1]);
            }
        }
        calls_keep_player_consistent(q, rest);
    }
}

/// Exactly five extensions are audio extensions: mp3, flac, wav, ogg and
/// aac. Every other text, such as "jpg", "png" or "txt", is not; so a scan
/// keeps no cover art, lyrics or playlists.
pub proof fn only_five_audio_extensions(e: Seq<char>)
    ensures
        Set::new(|x: Seq<char>| audio_extension(x)) =~= set![
            seq!['m', 'p', '3'],
            seq!['f', 'l', 'a', 'c'],
            seq!['w', 'a', 'v'],
            seq!['o', 'g', 'g'],
            seq!['a', 'a', 'c'],
        ],
        e != seq!['m', 'p', '3'] && e != seq!['f', 'l', 'a', 'c'] && e != seq!['w', 'a', 'v'] && e
            != seq!['o', 'g', 'g'] && e != seq!['a', 'a', 'c'] ==> !audio_extension(e),
        audio_extension(e) ==> 3 <= e.len() <= 4,
{
}

/// Loading a track takes over all of its metadata (title, artist, album and
/// length) and its index, and keeps everything that belongs to the player
/// rather than to the track: the playlist, the volume and the pause state.
pub proof fn load_takes_track_metadata(p: AudioPlayer, index: usize, info: TrackInfo, now: Nanos)
    ensures
        p.loaded(index, info, now).title == info.title,
        p.loaded(index, info, now).artist == info.artist,
        p.loaded(index, info, now).album == info.album,
        p.loaded(index, info, now).total_duration == info.total_duration,
        p.loaded(index, info, now).current_index == index,
        p.loaded(index, info, now).playlist == p.playlist,
        p.loaded(index, info, now).volume == p.volume,
        p.loaded(index, info, now).is_paused == p.is_paused,
{
}

/// "Next" and "previous" move exactly one track, and only stop at the ends
/// of the playlist.
pub proof fn navigation_moves_one_track(p: AudioPlayer)
    requires
        p.wf(),
    ensures
        p.next_index() matches Some(i) ==> i == p.current_index + 1,
        p.next_index() is None <==> p.current_index + 1 == p.playlist.len(),
        p.prev_index() matches Some(i) ==> i + 1 == p.current_index,
        p.prev_index() is None <==> p.current_index == 0,
{
}

/// A seek key aims exactly `secs` seconds away from the current position:
/// forward always, backward as far as the start of the track.
pub proof fn seek_steps_are_exact(p: AudioPlayer, secs: u64, now: int)
    ensures
        p.forward_target(secs, now) - p.elapsed_at(now) == secs * 1_000_000_000,
        p.elapsed_at(now) >= secs * 1_000_000_000 ==> p.elapsed_at(now) - p.backward_target(
            secs,
            now,
        ) == secs * 1_000_000_000,
        p.elapsed_at(now) < secs * 1_000_000_000 ==> p.backward_target(secs, now) == 0,
        p.backward_target(secs, now) <= p.elapsed_at(now) <= p.forward_target(secs, now),
{
}

/// Pausing and resuming flip the pause state and nothing that belongs to
/// the track or the playlist.
pub proof fn toggle_flips_pause_only(p: AudioPlayer, now: Nanos)
    ensures
        p.toggled(now).is_paused != p.is_paused,
        p.toggled(now).current_index == p.current_index,
        p.toggled(now).playlist == p.playlist,
        p.toggled(now).title == p.title,
        p.toggled(now).artist == p.artist,
        p.toggled(now).album == p.album,
        p.toggled(now).total_duration == p.total_duration,
        p.toggled(now).volume == p.volume,
{
}

} // verus!
