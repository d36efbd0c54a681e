//! The saved form of the player state: lightweight songs and playlists, the
//! queue, and the version check applied when it is read back.
use vstd::prelude::*;
use crate::model::{Playlist, Song};
use crate::play_mode::{mode_name, mode_of_name, play_mode_from_string, play_mode_to_string, PlayMode};
use crate::queue::{is_perm, PlayQueue};
use vstd::std_specs::convert::FromSpecImpl;
use crate::text::{dec_digits, push_chars, push_str, u64_dec_chars};

verus! {

/// The version of the state file this library writes and accepts.
pub const CURRENT_VERSION: u8 = 1;

/// A song as saved.
#[derive(Debug)]
pub struct SongLite {
    pub id: i64,
    pub name: String,
    pub artists: String,
}

impl Clone for SongLite {
    fn clone(&self) -> (r: Self)
        ensures
            r == *self,
    {
        SongLite { id: self.id, name: self.name.clone(), artists: self.artists.clone() }
    }
}

impl<'a> From<&'a Song> for SongLite {
    fn from(song: &'a Song) -> (r: Self) {
        SongLite { id: song.id, name: song.name.clone(), artists: song.artists.clone() }
    }
}

impl<'a> FromSpecImpl<&'a Song> for SongLite {
    open spec fn obeys_from_spec() -> bool {
        true
    }

    open spec fn from_spec(song: &'a Song) -> SongLite {
        SongLite { id: song.id, name: song.name, artists: song.artists }
    }
}

/// A playlist as saved.
#[derive(Debug)]
pub struct PlaylistLite {
    pub id: i64,
    pub name: String,
    pub track_count: i64,
}

impl Clone for PlaylistLite {
    fn clone(&self) -> (r: Self)
        ensures
            r == *self,
    {
        PlaylistLite { id: self.id, name: self.name.clone(), track_count: self.track_count }
    }
}

impl<'a> From<&'a Playlist> for PlaylistLite {
    fn from(p: &'a Playlist) -> (r: Self) {
        PlaylistLite { id: p.id, name: p.name.clone(), track_count: p.track_count }
    }
}

impl<'a> FromSpecImpl<&'a Playlist> for PlaylistLite {
    open spec fn obeys_from_spec() -> bool {
        true
    }

    open spec fn from_spec(p: &'a Playlist) -> PlaylistLite {
        PlaylistLite { id: p.id, name: p.name, track_count: p.track_count }
    }
}

/// The queue as saved.
#[derive(Debug)]
pub struct PlayQueueState {
    pub songs: Vec<SongLite>,
    pub order: Vec<usize>,
    pub cursor: Option<usize>,
    pub mode: String,
}

/// Playback progress as saved, with wall-clock times in milliseconds.
#[derive(Debug, Clone, Copy)]
pub struct PlaybackProgress {
    pub started_at_epoch_ms: Option<i64>,
    pub total_ms: Option<u64>,
    pub paused: bool,
    pub paused_at_epoch_ms: Option<i64>,
    pub paused_accum_ms: u64,
}

/// std's I/O error, carried by `PlayerStateError::Io`.
#[verifier::external_type_specification]
#[verifier::external_body]
pub struct ExIoError(std::io::Error);

/// Why the saved state could not be read or written.
#[derive(Debug)]
pub enum PlayerStateError {
    Io(std::io::Error),
    Serde(serde_json::Error),
    IncompatibleVersion { expected: u8, found: u8 },
}

/// Accepts a saved version equal to the current one.
pub fn check_version(found: u8) -> (r: Result<(), PlayerStateError>)
    ensures
        found == CURRENT_VERSION ==> r is Ok,
        found != CURRENT_VERSION ==> (r matches Err(
            PlayerStateError::IncompatibleVersion { expected, found: f },
        ) && expected == CURRENT_VERSION && f == found),
{
    if found != CURRENT_VERSION {
        return Err(PlayerStateError::IncompatibleVersion { expected: CURRENT_VERSION, found });
    }
    Ok(())
}

/// The first position in `songs` of a song with id `id`.
pub open spec fn first_pos_with_id(songs: Seq<Song>, id: i64) -> Option<int>
    decreases songs.len(),
{
    if songs.len() == 0 {
        None
    } else if songs[0].id == id {
        Some(0)
    } else {
        match first_pos_with_id(songs.drop_first(), id) {
            Some(i) => Some(i + 1),
            None => None,
        }
    }
}

fn find_id(songs: &Vec<Song>, id: i64) -> (r: Option<usize>)
    ensures
        match r {
            Some(i) => first_pos_with_id(songs@, id) == Some(i as int),
            None => first_pos_with_id(songs@, id) is None,
        },
{
    let mut i: usize = 0;
    assert(songs@.skip(0) == songs@);
    while i < songs.len()
        invariant
            i <= songs@.len(),
            forall|k: int| 0 <= k < i ==> songs@[k].id != id,
            first_pos_with_id(songs@, id) == match first_pos_with_id(songs@.skip(i as int), id) {
                Some(j) => Some(j + i),
                None => None,
            },
        decreases songs.len() - i,
    {
        assert(songs@.skip(i as int)[0] == songs@[i as int]);
        if songs[i].id == id {
            return Some(i);
        }
        assert(songs@.skip(i as int).drop_first() == songs@.skip(i + 1));
        i += 1;
    }
    None
}

/// The saved order: for each song in play order, the first position in the
/// song list with the same id.
pub open spec fn saved_order(songs: Seq<Song>, ordered: Seq<Song>) -> Seq<usize>
    decreases ordered.len(),
{
    if ordered.len() == 0 {
        seq![]
    } else {
        let rest = saved_order(songs, ordered.drop_last());
        match first_pos_with_id(songs, ordered.last().id) {
            Some(i) => rest.push(i as usize),
            None => rest,
        }
    }
}

pub open spec fn lite_of(s: Song) -> SongLite {
    SongLite { id: s.id, name: s.name, artists: s.artists }
}

/// The saved form of a queue in a mode.
pub fn queue_state_of(queue: &PlayQueue, mode: PlayMode) -> (r: PlayQueueState)
    requires
        queue.wf(),
    ensures
        r.songs@ == queue.songs_view().map_values(|s: Song| lite_of(s)),
        r.cursor == queue.cursor_view(),
        r.mode@ == mode_name(mode),
        r.order@ == saved_order(
            queue.songs_view(),
            queue.order_view().map_values(|k: usize| queue.songs_view()[k as int]),
        ),
{
    let songs = queue.songs();
    let mut lites: Vec<SongLite> = Vec::new();
    let mut i: usize = 0;
    while i < songs.len()
        invariant
            i <= songs@.len(),
            lites@ == songs@.take(i as int).map_values(|s: Song| lite_of(s)),
        decreases songs.len() - i,
    {
        lites.push(SongLite::from(&songs[i]));
        i += 1;
        assert(lites@ =~= songs@.take(i as int).map_values(|s: Song| lite_of(s)));
    }
    assert(songs@.take(songs@.len() as int) == songs@);
    let ordered = queue.ordered_songs();
    let ghost ov = queue.order_view().map_values(|k: usize| queue.songs_view()[k as int]);
    assert(ordered@ =~= ov);
    let mut order: Vec<usize> = Vec::new();
    let mut j: usize = 0;
    while j < ordered.len()
        invariant
            j <= ordered@.len(),
            order@ == saved_order(songs@, ordered@.take(j as int)),
        decreases ordered.len() - j,
    {
        let p = find_id(songs, ordered[j].id);
        assert(ordered@.take(j + 1).drop_last() == ordered@.take(j as int));
        assert(ordered@.take(j + 1).last() == ordered@[j as int]);
        match p {
            Some(k) => order.push(k),
            None => {},
        }
        j += 1;
    }
    assert(ordered@.take(ordered@.len() as int) == ordered@);
    PlayQueueState {
        songs: lites,
        order,
        cursor: queue.cursor_pos(),
        mode: play_mode_to_string(mode),
    }
}

pub open spec fn song_of_lite(l: SongLite) -> Song {
    Song { id: l.id, name: l.name, artists: l.artists }
}

/// The queue that a saved state restores: its songs in their given order,
/// the saved cursor where it is in range, and the saved mode.
pub fn restore_queue(state: &PlayQueueState) -> (r: (PlayQueue, PlayMode))
    ensures
        r.0.wf(),
        r.1 == mode_of_name(state.mode@),
        r.0.mode_view() == r.1,
        r.0.songs_view() == state.songs@.map_values(|l: SongLite| song_of_lite(l)),
        r.1 != PlayMode::Shuffle ==> r.0.order_view() == Seq::new(
            state.songs@.len(),
            |i: int| i as usize,
        ),
        r.0.cursor_view() == match state.cursor {
            Some(c) => if c < state.songs@.len() {
                Some(c)
            } else {
                None::<usize>
            },
            None => None::<usize>,
        },
{
    let mode = play_mode_from_string(state.mode.as_str());
    let mut songs: Vec<Song> = Vec::new();
    let mut i: usize = 0;
    while i < state.songs.len()
        invariant
            i <= state.songs@.len(),
            songs@ == state.songs@.take(i as int).map_values(|l: SongLite| song_of_lite(l)),
        decreases state.songs.len() - i,
    {
        let l = &state.songs[i];
        songs.push(Song { id: l.id, name: l.name.clone(), artists: l.artists.clone() });
        i += 1;
        assert(songs@ =~= state.songs@.take(i as int).map_values(|l: SongLite| song_of_lite(l)));
    }
    assert(state.songs@.take(state.songs@.len() as int) == state.songs@);
    let mut queue = PlayQueue::new(mode);
    queue.set_songs(songs, None);
    if let Some(c) = state.cursor {
        queue.set_cursor_pos(c);
    }
    (queue, mode)
}

/// Saving a queue and restoring it gives back its songs, its mode and, when
/// the queue plays in the given order, its cursor.
pub proof fn lemma_queue_save_restore(
    queue: PlayQueue,
    mode: PlayMode,
    saved: PlayQueueState,
    restored: PlayQueue,
    restored_mode: PlayMode,
)
    requires
        queue.wf(),
        saved.songs@ == queue.songs_view().map_values(|s: Song| lite_of(s)),
        saved.cursor == queue.cursor_view(),
        saved.mode@ == mode_name(mode),
        restored_mode == mode_of_name(saved.mode@),
        restored.songs_view() == saved.songs@.map_values(|l: SongLite| song_of_lite(l)),
        restored.cursor_view() == match saved.cursor {
            Some(c) => if c < saved.songs@.len() {
                Some(c)
            } else {
                None::<usize>
            },
            None => None::<usize>,
        },
    ensures
        restored.songs_view() == queue.songs_view(),
        restored_mode == mode,
        restored.cursor_view() == queue.cursor_view(),
{
    crate::play_mode::lemma_play_mode_name_roundtrip(mode);
    queue.lemma_wf();
    assert(restored.songs_view() =~= queue.songs_view());
}


/// The text of an I/O error, through `std::io::Error`'s `Display`.
#[verifier::external_body]
fn io_error_text(e: &std::io::Error) -> String {
    e.to_string()
}

/// The text of a JSON error, through `serde_json::Error`'s `Display`.
#[verifier::external_body]
fn serde_error_text(e: &serde_json::Error) -> String {
    e.to_string()
}

impl PlayerStateError {
    /// The message this error shows: `IO 错误: ` or `序列化错误: ` before the
    /// cause's text, or the versions that did not match.
    pub fn message(&self) -> (r: String)
        ensures
            self matches PlayerStateError::IncompatibleVersion { expected, found } ==> r@
                == "版本不兼容: 预期 "@ + dec_digits(expected as nat) + ", 找到 "@ + dec_digits(
                found as nat,
            ),
            self matches PlayerStateError::Io(_) ==> exists|t: Seq<char>| r@ == "IO 错误: "@ + t,
            self matches PlayerStateError::Serde(_) ==> exists|t: Seq<char>| r@ == "序列化错误: "@ + t,
    {
        match self {
            PlayerStateError::Io(e) => {
                let t = io_error_text(e);
                let mut s = "IO 错误: ".to_string();
                push_str(&mut s, t.as_str());
                assert(s@ == "IO 错误: "@ + t@);
                s
            },
            PlayerStateError::Serde(e) => {
                let t = serde_error_text(e);
                let mut s = "序列化错误: ".to_string();
                push_str(&mut s, t.as_str());
                assert(s@ == "序列化错误: "@ + t@);
                s
            },
            PlayerStateError::IncompatibleVersion { expected, found } => {
                let mut s = "版本不兼容: 预期 ".to_string();
                push_chars(&mut s, u64_dec_chars(*expected as u64).as_slice());
                push_str(&mut s, ", 找到 ");
                push_chars(&mut s, u64_dec_chars(*found as u64).as_slice());
                s
            },
        }
    }
}

/// The saved start of playback: `now` less the position, where playback has
/// moved; none at position zero.
pub open spec fn saved_start(now_ms: i64, elapsed_ms: u64) -> Option<i64> {
    if elapsed_ms > 0 {
        Some((now_ms - (elapsed_ms as i64)) as i64)
    } else {
        None
    }
}

/// Computes the saved start of playback from the time of saving and the position.
pub fn saved_started_at(now_ms: i64, elapsed_ms: u64) -> (r: Option<i64>)
    requires
        elapsed_ms > 0 ==> i64::MIN <= now_ms - (elapsed_ms as i64) <= i64::MAX,
    ensures
        r == saved_start(now_ms, elapsed_ms),
{
    if elapsed_ms > 0 {
        Some(now_ms - (elapsed_ms as i64))
    } else {
        None
    }
}

/// The position restored at `now` from a snapshot saved at `saved_at` whose
/// playback started at `started_at`: the time since the start plus the time
/// since saving (cut to 64 unsigned bits), less the paused time for a paused
/// snapshot (never below zero).
pub open spec fn restored_elapsed(started_at: i64, now: i64, saved_at: i64, paused: bool, paused_accum_ms: u64) -> u64 {
    let e = ((now - started_at) + (now - saved_at)) as u64;
    if paused {
        if e >= paused_accum_ms {
            (e - paused_accum_ms) as u64
        } else {
            0
        }
    } else {
        e
    }
}

/// Computes the position to resume at when a snapshot is restored.
pub fn restored_elapsed_ms(started_at: i64, now: i64, saved_at: i64, paused: bool, paused_accum_ms: u64) -> (r: u64)
    requires
        i64::MIN <= now - started_at <= i64::MAX,
        i64::MIN <= now - saved_at <= i64::MAX,
        i64::MIN <= (now - started_at) + (now - saved_at) <= i64::MAX,
    ensures
        r == restored_elapsed(started_at, now, saved_at, paused, paused_accum_ms),
{
    let since_start = now - started_at;
    let since_save = now - saved_at;
    let total = since_start + since_save;
    #[verifier::truncate]
    let e = total as u64;
    if paused {
        e.saturating_sub(paused_accum_ms)
    } else {
        e
    }
}

/// Saving while playing and restoring at the same instant resumes at the
/// saved position.
pub proof fn lemma_restore_at_save_keeps_position(now: i64, elapsed_ms: u64)
    requires
        0 < elapsed_ms <= i64::MAX,
        i64::MIN <= now - elapsed_ms,
    ensures
        restored_elapsed(saved_start(now, elapsed_ms)->0, now, now, false, 0) == elapsed_ms,
{
    let started = saved_start(now, elapsed_ms)->0;
    assert(started == now - elapsed_ms);
    assert(((now - started) + (now - now)) == elapsed_ms);
}

/// The playlists a snapshot restores: each saved playlist, of no special type.
pub fn playlists_from_lites(lites: &Vec<PlaylistLite>) -> (r: Vec<Playlist>)
    ensures
        r@.len() == lites@.len(),
        forall|i: int|
            0 <= i < r@.len() ==> #[trigger] r@[i] == (Playlist {
                id: lites@[i].id,
                name: lites@[i].name,
                track_count: lites@[i].track_count,
                special_type: 0,
            }),
{
    let mut out: Vec<Playlist> = Vec::new();
    let mut i: usize = 0;
    while i < lites.len()
        invariant
            i <= lites@.len(),
            out@.len() == i,
            forall|j: int|
                0 <= j < i ==> #[trigger] out@[j] == (Playlist {
                    id: lites@[j].id,
                    name: lites@[j].name,
                    track_count: lites@[j].track_count,
                    special_type: 0,
                }),
        decreases lites@.len() - i,
    {
        let l = &lites[i];
        out.push(Playlist { id: l.id, name: l.name.clone(), track_count: l.track_count, special_type: 0 });
        i = i + 1;
    }
    out
}

/// Where the player state is stored in the data directory.
pub open spec fn player_state_file(data_dir: Seq<char>) -> Seq<char> {
    if data_dir.len() == 0 || data_dir.last() == '/' {
        data_dir + "player_state.json"@
    } else {
        data_dir + seq!['/'] + "player_state.json"@
    }
}

/// The player state's file in the data directory.
pub fn player_state_path(data_dir: &str) -> (r: String)
    ensures
        r@ == player_state_file(data_dir@),
{
    let d = crate::text::chars_of(data_dir);
    let mut out = data_dir.to_string();
    if d.len() > 0 && d[d.len() - 1] != '/' {
        crate::text::push_char(&mut out, '/');
    }
    push_str(&mut out, "player_state.json");
    out
}

} // verus!
