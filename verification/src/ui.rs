//! What the terminal interface shows: the panels and their focus cycle, the
//! state handed to the renderer, and the text of the "Now Playing", queue and
//! visualizer panels. Drawing it on the terminal is left to the caller.

use vstd::prelude::*;
use crate::time::Nanos;
use crate::text::push_decimal;
use crate::audio_player::AudioPlayer;

verus! {

/// Current state of playback for the UI to render.
pub struct PlaybackInfo {
    pub title: String,
    pub artist: String,
    pub album: String,
    pub elapsed: Nanos,
    pub total: Nanos,
    pub is_paused: bool,
    pub volume: u8,
    pub shuffle: bool,
    pub repeat: RepeatMode,
}

#[derive(Debug, Clone, Copy, PartialEq, Eq, Structural)]
pub enum RepeatMode {
    Off,
    One,
    All,
}

pub struct LibraryItem {
    pub name: String,
    pub is_selected: bool,
}

pub struct QueueItem {
    pub title: String,
    pub is_current: bool,
}

/// The four panels of the interface, in the order that `Tab` walks them.
#[derive(Debug, Clone, Copy, PartialEq, Eq, Structural)]
pub enum Panel {
    Library,
    NowPlaying,
    Visualizer,
    Queue,
}

/// The panel after `p` in the focus cycle.
pub open spec fn panel_after(p: Panel) -> Panel {
    match p {
        Panel::Library => Panel::NowPlaying,
        Panel::NowPlaying => Panel::Visualizer,
        Panel::Visualizer => Panel::Queue,
        Panel::Queue => Panel::Library,
    }
}

/// The panel before `p` in the focus cycle.
pub open spec fn panel_before(p: Panel) -> Panel {
    match p {
        Panel::Library => Panel::Queue,
        Panel::NowPlaying => Panel::Library,
        Panel::Visualizer => Panel::NowPlaying,
        Panel::Queue => Panel::Visualizer,
    }
}

impl Panel {
    /// The panel that `Tab` moves the focus to.
    pub fn next(self) -> (r: Self)
        ensures
            r == panel_after(self),
    {
        match self {
            Panel::Library => Panel::NowPlaying,
            Panel::NowPlaying => Panel::Visualizer,
            Panel::Visualizer => Panel::Queue,
            Panel::Queue => Panel::Library,
        }
    }

    /// The panel that `Shift+Tab` moves the focus to.
    pub fn prev(self) -> (r: Self)
        ensures
            r == panel_before(self),
    {
        match self {
            Panel::Library => Panel::Queue,
            Panel::NowPlaying => Panel::Library,
            Panel::Visualizer => Panel::NowPlaying,
            Panel::Queue => Panel::Visualizer,
        }
    }
}

/// `Shift+Tab` undoes `Tab`, and `Tab` undoes `Shift+Tab`.
pub proof fn panel_moves_undo_each_other(p: Panel)
    ensures
        panel_before(panel_after(p)) == p,
        panel_after(panel_before(p)) == p,
{
}

/// The focus cycle has four steps: `Tab` pressed four times comes back to the
/// panel it started from, and visits every panel on the way.
pub proof fn panel_cycle_visits_all(p: Panel, q: Panel)
    ensures
        panel_after(panel_after(panel_after(panel_after(p)))) == p,
        q == p || q == panel_after(p) || q == panel_after(panel_after(p)) || q == panel_after(
            panel_after(panel_after(p)),
        ),
{
}

/// `Tab` walks the panels in the order Library, Now Playing, Visualizer,
/// Queue, and back to Library; `Shift+Tab` walks the same order backwards.
pub proof fn focus_order(i: int)
    requires
        0 <= i < 4,
    ensures
        ({
            let order = seq![Panel::Library, Panel::NowPlaying, Panel::Visualizer, Panel::Queue];
            &&& panel_after(order[i]) == order[(i + 1) % 4]
            &&& panel_before(order[(i + 1) % 4]) == order[i]
        }),
{
}

pub struct AppState {
    pub playback: Option<PlaybackInfo>,
    pub library: Vec<LibraryItem>,
    pub library_selected: usize,
    pub queue: Vec<QueueItem>,
    pub spectrum: Vec<u64>,
    pub focused_panel: Panel,
}

/// The queue shown for a playlist whose tracks have the names `titles`,
/// with the track at `current` marked as the one playing.
pub fn queue_items(titles: &[String], current: usize) -> (r: Vec<QueueItem>)
    ensures
        r.len() == titles.len(),
        forall|i: int|
            0 <= i < r.len() ==> #[trigger] r[i].title == titles[i] && r[i].is_current == (i
                == current),
{
    let mut r: Vec<QueueItem> = Vec::new();
    let n = titles.len();
    let mut j: usize = 0;
    while j < n
        invariant
            n == titles@.len(),
            j <= n,
            r@.len() == j,
            forall|i: int|
                0 <= i < j ==> #[trigger] r@[i].title == titles@[i] && r@[i].is_current == (i
                    == current),
        decreases n - j,
    {
        let ghost before = r@;
        let title = titles[j].clone();
        r.push(QueueItem { title, is_current: j == current });
        assert forall|i: int| 0 <= i < j + 1 implies #[trigger] r@[i].title == titles@[i]
            && r@[i].is_current == (i == current) by {
            if i < j {
                assert(r@[i] == before[i]);
            }
        }
        j = j + 1;
    }
    r
}

/// A `m:ss` clock label: whole minutes, a colon, and the remaining seconds
/// in two digits.
pub open spec fn clock_label(d: nat) -> Seq<char> {
    let total_secs = d / 1_000_000_000;
    let secs = total_secs % 60;
    crate::text::decimal(total_secs / 60) + seq![':'] + seq![
        crate::text::digit_char(secs / 10),
        crate::text::digit_char(secs % 10),
    ]
}

/// The label of a span of time, as the "Now Playing" panel shows it: whole
/// minutes, then the seconds in two digits (`3:07`); fractions of seconds
/// are dropped.
pub fn format_duration(d: Nanos) -> (r: String)
    ensures
        r@ == clock_label(d as nat),
{
    let total_secs = d / 1_000_000_000;
    let mins = total_secs / 60;
    let secs = total_secs % 60;
    let mut s = String::new();
    push_decimal(&mut s, mins);
    proof {
        reveal_strlit(":");
    }
    s.append(":");
    push_decimal(&mut s, secs / 10);
    push_decimal(&mut s, secs % 10);
    assert(s@ =~= clock_label(d as nat));
    s
}

/// The volume label: `Vol:` then the percentage and a percent sign.
pub open spec fn volume_label_text(volume: u8) -> Seq<char> {
    seq!['V', 'o', 'l', ':'] + crate::text::decimal(volume as nat) + seq!['%']
}

/// The volume label of the "Now Playing" panel, such as `Vol:85%`.
pub fn volume_label(volume: u8) -> (r: String)
    ensures
        r@ == volume_label_text(volume),
{
    proof {
        reveal_strlit("Vol:");
        reveal_strlit("%");
    }
    let mut s = "Vol:".to_owned();
    push_decimal(&mut s, volume as u128);
    s.append("%");
    assert(s@ =~= volume_label_text(volume));
    s
}

/// The text of the "Now Playing" panel besides the track's tags.
pub struct NowPlayingText {
    /// Shows whether playback can be resumed (a triangle) or paused (bars).
    pub play_icon: &'static str,
    pub shuffle_icon: &'static str,
    pub repeat_icon: &'static str,
    pub volume: String,
    pub elapsed: String,
    pub total: String,
}

/// The controls and time labels shown for `pb`.
pub fn now_playing_text(pb: &PlaybackInfo) -> (r: NowPlayingText)
    ensures
        r.play_icon@ == (if pb.is_paused {
            "▶"@
        } else {
            "▐▐"@
        }),
        r.shuffle_icon@ == (if pb.shuffle {
            "🔀"@
        } else {
            "  "@
        }),
        r.repeat_icon@ == (match pb.repeat {
            RepeatMode::Off => "  "@,
            RepeatMode::One => "🔂"@,
            RepeatMode::All => "🔁"@,
        }),
        r.volume@ == volume_label_text(pb.volume),
        r.elapsed@ == clock_label(pb.elapsed as nat),
        r.total@ == clock_label(pb.total as nat),
{
    let play_icon = if pb.is_paused {
        "▶"
    } else {
        "▐▐"
    };
    let shuffle_icon = if pb.shuffle {
        "🔀"
    } else {
        "  "
    };
    let repeat_icon = match pb.repeat {
        RepeatMode::Off => "  ",
        RepeatMode::One => "🔂",
        RepeatMode::All => "🔁",
    };
    NowPlayingText {
        play_icon,
        shuffle_icon,
        repeat_icon,
        volume: volume_label(pb.volume),
        elapsed: format_duration(pb.elapsed),
        total: format_duration(pb.total),
    }
}

/// How a piece of the queue line is styled.
#[derive(Debug, Clone, Copy, PartialEq, Eq, Structural)]
pub enum SpanStyle {
    /// The arrow between two tracks.
    Separator,
    /// The marker before the current track.
    Marker,
    /// The title of the current track.
    Current,
    /// The title of any other track.
    Plain,
}

/// A piece of the queue line.
pub struct QueueSpan {
    pub text: String,
    pub style: SpanStyle,
}

impl View for QueueSpan {
    type V = (Seq<char>, SpanStyle);

    open spec fn view(&self) -> (Seq<char>, SpanStyle) {
        (self.text@, self.style)
    }
}

/// The pieces that one queue item adds to the line: an arrow unless it is
/// the first item, then a marker and a highlighted title for the current
/// track, or a plain title for any other.
pub open spec fn item_spans(first: bool, item: QueueItem) -> Seq<(Seq<char>, SpanStyle)> {
    let sep = if first {
        Seq::<(Seq<char>, SpanStyle)>::empty()
    } else {
        seq![(" → "@, SpanStyle::Separator)]
    };
    if item.is_current {
        sep + seq![("▶ "@, SpanStyle::Marker), (item.title@, SpanStyle::Current)]
    } else {
        sep + seq![(item.title@, SpanStyle::Plain)]
    }
}

/// The queue line: the pieces of the items, one item after the other.
pub open spec fn queue_line(items: Seq<QueueItem>) -> Seq<(Seq<char>, SpanStyle)>
    decreases items.len(),
{
    if items.len() == 0 {
        Seq::empty()
    } else {
        queue_line(items.drop_last()) + item_spans(items.len() == 1, items.last())
    }
}

/// The pieces of the queue line for `items`.
pub fn queue_spans(items: &[QueueItem]) -> (r: Vec<QueueSpan>)
    ensures
        r@.map_values(|s: QueueSpan| s@) == queue_line(items@),
{
    let mut r: Vec<QueueSpan> = Vec::new();
    let n = items.len();
    for j in 0..n
        invariant
            n == items@.len(),
            r@.map_values(|s: QueueSpan| s@) == queue_line(items@.take(j as int)),
    {
        let ghost before = r@;
        if j > 0 {
            r.push(QueueSpan { text: " → ".to_owned(), style: SpanStyle::Separator });
        }
        if items[j].is_current {
            r.push(QueueSpan { text: "▶ ".to_owned(), style: SpanStyle::Marker });
            r.push(QueueSpan { text: items[j].title.clone(), style: SpanStyle::Current });
        } else {
            r.push(QueueSpan { text: items[j].title.clone(), style: SpanStyle::Plain });
        }
        assert(items@.take(j + 1).drop_last() =~= items@.take(j as int));
        assert(r@.map_values(|s: QueueSpan| s@) =~= before.map_values(|s: QueueSpan| s@)
            + item_spans(j == 0, items@[j as int]));
    }
    assert(items@.take(n as int) =~= items@);
    r
}

/// The height of the tallest bar of a spectrum, or 1 for an empty one.
pub fn spectrum_peak(spectrum: &[u64]) -> (r: u64)
    ensures
        spectrum@.len() == 0 ==> r == 1,
        spectrum@.len() > 0 ==> spectrum@.contains(r),
        forall|i: int| 0 <= i < spectrum@.len() ==> spectrum@[i] <= r,
{
    if spectrum.len() == 0 {
        return 1;
    }
    let mut best = spectrum[0];
    let n = spectrum.len();
    assert(spectrum@.subrange(0, 1)[0] == best);
    for j in 1..n
        invariant
            n == spectrum@.len(),
            n > 0,
            spectrum@.subrange(0, j as int).contains(best),
            forall|i: int| 0 <= i < j ==> spectrum@[i] <= best,
    {
        assert(spectrum@.subrange(0, j as int) =~= spectrum@.subrange(0, (j + 1) as int).drop_last());
        if spectrum[j] > best {
            best = spectrum[j];
            assert(spectrum@.subrange(0, (j + 1) as int)[j as int] == best);
        } else {
            proof {
                let k = choose|k: int| 0 <= k < j && spectrum@.subrange(0, j as int)[k] == best;
                assert(spectrum@.subrange(0, (j + 1) as int)[k] == best);
            }
        }
    }
    assert(spectrum@.subrange(0, n as int) =~= spectrum@);
    best
}

impl AudioPlayer {
    /// What the "Now Playing" panel shows for this player at `now`; shuffle
    /// and repeat are not offered and show as off.
    pub fn playback_info(&self, now: Nanos) -> (r: PlaybackInfo)
        requires
            self.wf(),
            self.elapsed_at(now as int) <= crate::time::MAX_NANOS,
        ensures
            r.title == self.title,
            r.artist == self.artist,
            r.album == self.album,
            r.elapsed == self.elapsed_at(now as int),
            r.total == self.total_duration,
            r.is_paused == self.is_paused,
            r.volume == self.volume,
            !r.shuffle,
            r.repeat == RepeatMode::Off,
    {
        PlaybackInfo {
            title: self.title.clone(),
            artist: self.artist.clone(),
            album: self.album.clone(),
            elapsed: self.elapsed(now),
            total: self.total_duration,
            is_paused: self.is_paused,
            volume: self.volume,
            shuffle: false,
            repeat: RepeatMode::Off,
        }
    }
}

/// The library browser for a playlist whose tracks have the names
/// `titles`, with the entry at `selected` highlighted.
pub fn library_items(titles: &[String], selected: usize) -> (r: Vec<LibraryItem>)
    ensures
        r.len() == titles.len(),
        forall|i: int|
            0 <= i < r.len() ==> #[trigger] r[i].name == titles[i] && r[i].is_selected == (i
                == selected),
{
    let mut r: Vec<LibraryItem> = Vec::new();
    let n = titles.len();
    let mut j: usize = 0;
    while j < n
        invariant
            n == titles@.len(),
            j <= n,
            r@.len() == j,
            forall|i: int|
                0 <= i < j ==> #[trigger] r@[i].name == titles@[i] && r@[i].is_selected == (i
                    == selected),
        decreases n - j,
    {
        let ghost before = r@;
        let name = titles[j].clone();
        r.push(LibraryItem { name, is_selected: j == selected });
        assert forall|i: int| 0 <= i < j + 1 implies #[trigger] r@[i].name == titles@[i]
            && r@[i].is_selected == (i == selected) by {
            if i < j {
                assert(r@[i] == before[i]);
            }
        }
        j = j + 1;
    }
    r
}

impl AppState {
    /// The interface state for `player` at `now`: its playback; its playlist
    /// both as the library browser, with the entry at `library_selected`
    /// highlighted, and as the queue, with the current track marked; an
    /// empty spectrum; and `focused_panel` focused.
    pub fn for_player(
        player: &AudioPlayer,
        focused_panel: Panel,
        library_selected: usize,
        now: Nanos,
    ) -> (r: AppState)
        requires
            player.wf(),
            player.elapsed_at(now as int) <= crate::time::MAX_NANOS,
        ensures
            r.playback matches Some(pb) && pb.title == player.title && pb.artist == player.artist
                && pb.album == player.album && pb.elapsed == player.elapsed_at(now as int)
                && pb.total == player.total_duration && pb.is_paused == player.is_paused
                && pb.volume == player.volume && !pb.shuffle && pb.repeat == RepeatMode::Off,
            r.library.len() == player.playlist.len(),
            forall|i: int|
                0 <= i < r.library.len() ==> (#[trigger] r.library[i]).is_selected == (i
                    == library_selected) && r.library[i].name@ == crate::tags::stem_or_path(
                    crate::text::file_stem_of(player.playlist[i]@),
                    player.playlist[i]@,
                ),
            r.library_selected == library_selected,
            r.queue.len() == player.playlist.len(),
            forall|i: int|
                0 <= i < r.queue.len() ==> (#[trigger] r.queue[i]).is_current == (i
                    == player.current_index) && r.queue[i].title@ == crate::tags::stem_or_path(
                    crate::text::file_stem_of(player.playlist[i]@),
                    player.playlist[i]@,
                ),
            r.spectrum.len() == 0,
            r.focused_panel == focused_panel,
    {
        let titles = player.playlist_titles();
        let queue = queue_items(titles.as_slice(), player.current_index);
        let library = library_items(titles.as_slice(), library_selected);
        assert forall|i: int| 0 <= i < queue.len() implies (#[trigger] queue[i]).title@
            == crate::tags::stem_or_path(
            crate::text::file_stem_of(player.playlist[i]@),
            player.playlist[i]@,
        ) by {
            assert(queue[i].title == titles@[i]);
            assert(titles[i]@ == crate::tags::stem_or_path(
                crate::text::file_stem_of(player.playlist[i]@),
                player.playlist[i]@,
            ));
        }
        assert forall|i: int| 0 <= i < library.len() implies (#[trigger] library[i]).name@
            == crate::tags::stem_or_path(
            crate::text::file_stem_of(player.playlist[i]@),
            player.playlist[i]@,
        ) by {
            assert(library[i].name == titles@[i]);
            assert(titles[i]@ == crate::tags::stem_or_path(
                crate::text::file_stem_of(player.playlist[i]@),
                player.playlist[i]@,
            ));
        }
        AppState {
            playback: Some(player.playback_info(now)),
            library,
            library_selected,
            queue,
            spectrum: Vec::new(),
            focused_panel,
        }
    }
}

/// The clock label reads back as the span it shows: the digits before the
/// colon are the whole minutes, and the two digits after it are the
/// remaining seconds.
pub proof fn clock_label_reads_back(d: nat)
    ensures
        ({
            let l = clock_label(d);
            &&& l.len() >= 4
            &&& l[l.len() - 3] == ':'
            &&& crate::text::all_digits(l.subrange(0, l.len() - 3))
            &&& crate::text::digits_value(l.subrange(0, l.len() - 3)) == d / 60_000_000_000
            &&& crate::text::all_digits(l.subrange(l.len() - 2, l.len() as int))
            &&& crate::text::digits_value(l.subrange(l.len() - 2, l.len() as int)) == (d
                / 1_000_000_000) % 60
        }),
{
    let total_secs = d / 1_000_000_000;
    let secs = total_secs % 60;
    let mins = total_secs / 60;
    crate::text::decimal_denotes_number(mins);
    let l = clock_label(d);
    let m = crate::text::decimal(mins);
    assert(l.subrange(0, l.len() - 3) =~= m);
    let tail = l.subrange(l.len() - 2, l.len() as int);
    assert(tail =~= seq![crate::text::digit_char(secs / 10), crate::text::digit_char(secs % 10)]);
    assert(tail.drop_last() =~= seq![crate::text::digit_char(secs / 10)]);
    assert(tail.drop_last().drop_last() =~= Seq::<char>::empty());
    crate::text::digit_char_value(secs / 10);
    crate::text::digit_char_value(secs % 10);
    assert(crate::text::digits_value(tail.drop_last()) == secs / 10) by {
        assert(crate::text::digits_value(tail.drop_last().drop_last()) == 0);
    }
    assert(crate::text::digits_value(tail) == secs);
    assert(crate::text::all_digits(tail));
    assert(l[l.len() - 3] == ':');
    assert(d / 60_000_000_000 == mins) by {
        assert(d / 1_000_000_000 / 60 == d / 60_000_000_000) by (nonlinear_arith);
    }
}

/// The volume label reads back as the volume: `Vol:`, the digits of the
/// percentage, and a percent sign.
pub proof fn volume_label_reads_back(volume: u8)
    ensures
        ({
            let l = volume_label_text(volume);
            &&& l.subrange(0, 4) == seq!['V', 'o', 'l', ':']
            &&& l.last() == '%'
            &&& crate::text::all_digits(l.subrange(4, l.len() - 1))
            &&& crate::text::digits_value(l.subrange(4, l.len() - 1)) == volume
        }),
{
    crate::text::decimal_denotes_number(volume as nat);
    let l = volume_label_text(volume);
    assert(l.subrange(0, 4) =~= seq!['V', 'o', 'l', ':']);
    assert(l.subrange(4, l.len() - 1) =~= crate::text::decimal(volume as nat));
}

/// How each queue item shows in the queue line: the line grows item by item;
/// every item but the first starts with an arrow; a current item, at any
/// position, shows as the marker followed by its title highlighted, and any
/// other item as its plain title.
pub proof fn queue_line_marks_current(items: Seq<QueueItem>, i: int)
    requires
        0 <= i < items.len(),
    ensures
        ({
            let before = queue_line(items.take(i));
            let after = queue_line(items.take(i + 1));
            let added = after.len() - before.len();
            &&& after.subrange(0, before.len() as int) == before
            &&& added == (if i > 0 {
                1int
            } else {
                0int
            }) + (if items[i].is_current {
                2int
            } else {
                1int
            })
            &&& i > 0 ==> after[before.len() as int] == (" → "@, SpanStyle::Separator)
            &&& items[i].is_current ==> after[after.len() - 2] == ("▶ "@, SpanStyle::Marker)
                && after.last() == (items[i].title@, SpanStyle::Current)
            &&& !items[i].is_current ==> after.last() == (items[i].title@, SpanStyle::Plain)
        }),
{
    let t = items.take(i + 1);
    assert(t.drop_last() =~= items.take(i));
    assert(t.last() == items[i]);
    let before = queue_line(items.take(i));
    let after = queue_line(t);
    assert(after.subrange(0, before.len() as int) =~= before);
}

/// The whole queue line is the line of all its items.
pub proof fn queue_line_covers_all_items(items: Seq<QueueItem>)
    ensures
        queue_line(items.take(items.len() as int)) == queue_line(items),
{
    assert(items.take(items.len() as int) =~= items);
}

} // verus!
