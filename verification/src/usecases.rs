//! Decisions of the application actor: request ids, chunked loading of a
//! playlist's tracks, prefetching the next song, and the settings page.
use vstd::prelude::*;
use crate::model::{Playlist, Song, SongUrl};
use crate::netease_actor::NeteaseCommand;
use crate::play_mode::{
    PlayMode, mode_label, next_mode, next_play_mode, play_mode_label, prev_mode, prev_play_mode,
};
use crate::text::{
    chars_of, contains_chars, contains_seq, dec_digits, push_chars, push_str, signed_dec,
    i64_dec_chars, u64_dec_chars,
};
use crate::widgets::{br_label, br_text};

verus! {

/// Hands out the current request id and advances the counter, wrapping at the top.
/// The request id after `id`, wrapping to zero after the largest.
pub open spec fn bumped(id: u64) -> u64 {
    if id == u64::MAX {
        0
    } else {
        (id + 1) as u64
    }
}

pub fn next_id(id: &mut u64) -> (r: u64)
    ensures
        r == *old(id),
        *final(id) == (if *old(id) == u64::MAX {
            0
        } else {
            (*old(id) + 1) as u64
        }),
{
    let out = *id;
    *id = id.wrapping_add(1);
    out
}

/// How many track ids one song-detail request asks for.
pub const PLAYLIST_TRACKS_PAGE_SIZE: usize = 200;

/// The chunks in which the ids from `cursor` on are requested, in order.
pub open spec fn chunks_from(ids: Seq<i64>, cursor: int) -> Seq<Seq<i64>>
    decreases ids.len() - cursor,
{
    if cursor < 0 || cursor >= ids.len() {
        seq![]
    } else {
        let end = if cursor + PLAYLIST_TRACKS_PAGE_SIZE < ids.len() {
            cursor + PLAYLIST_TRACKS_PAGE_SIZE
        } else {
            ids.len() as int
        };
        seq![ids.subrange(cursor, end)] + chunks_from(ids, end)
    }
}

/// The chunks laid end to end.
pub open spec fn concat(chunks: Seq<Seq<i64>>) -> Seq<i64>
    decreases chunks.len(),
{
    if chunks.len() == 0 {
        seq![]
    } else {
        chunks[0] + concat(chunks.drop_first())
    }
}

/// Requesting the chunks in turn asks for every remaining id exactly once, in order.
pub proof fn lemma_chunks_cover(ids: Seq<i64>, cursor: int)
    requires
        0 <= cursor <= ids.len(),
    ensures
        concat(chunks_from(ids, cursor)) == ids.subrange(cursor, ids.len() as int),
    decreases ids.len() - cursor,
{
    if cursor < ids.len() {
        let end = if cursor + PLAYLIST_TRACKS_PAGE_SIZE < ids.len() {
            cursor + PLAYLIST_TRACKS_PAGE_SIZE
        } else {
            ids.len() as int
        };
        lemma_chunks_cover(ids, end);
        let cs = chunks_from(ids, cursor);
        assert(cs.drop_first() == chunks_from(ids, end));
        assert(ids.subrange(cursor, end) + ids.subrange(end, ids.len() as int) =~= ids.subrange(
            cursor,
            ids.len() as int,
        ));
    } else {
        assert(ids.subrange(cursor, ids.len() as int) =~= Seq::<i64>::empty());
    }
}

/// The loading of one playlist's tracks, chunk by chunk.
pub struct PlaylistTracksLoad {
    pub playlist_id: i64,
    pub total: usize,
    pub ids: Vec<i64>,
    pub cursor: usize,
    pub songs: Vec<Song>,
    pub inflight_req_id: Option<u64>,
}

impl PlaylistTracksLoad {
    /// A load of the given ids, nothing requested yet.
    pub fn new(playlist_id: i64, ids: Vec<i64>) -> (r: Self)
        ensures
            r.playlist_id == playlist_id,
            r.total == ids@.len(),
            r.ids == ids,
            r.cursor == 0,
            r.songs@.len() == 0,
            r.inflight_req_id is None,
    {
        let total = ids.len();
        PlaylistTracksLoad {
            playlist_id,
            total,
            ids,
            cursor: 0,
            songs: Vec::new(),
            inflight_req_id: None,
        }
    }

    /// Whether every id has been requested.
    pub fn is_done(&self) -> (r: bool)
        ensures
            r == (self.cursor >= self.ids@.len()),
    {
        self.cursor >= self.ids.len()
    }

    /// The next chunk of ids to request, at most a page, moving past it.
    pub fn next_chunk(&mut self) -> (r: Vec<i64>)
        requires
            old(self).cursor <= old(self).ids@.len(),
        ensures
            final(self).ids == old(self).ids,
            final(self).playlist_id == old(self).playlist_id,
            final(self).total == old(self).total,
            final(self).songs == old(self).songs,
            final(self).inflight_req_id == old(self).inflight_req_id,
            final(self).cursor <= final(self).ids@.len(),
            old(self).cursor < old(self).ids@.len() ==> chunks_from(
                old(self).ids@,
                old(self).cursor as int,
            ) == seq![r@] + chunks_from(final(self).ids@, final(self).cursor as int),
            old(self).cursor == old(self).ids@.len() ==> r@.len() == 0 && final(self).cursor
                == old(self).cursor,
    {
        let start = self.cursor;
        let end = if self.ids.len() - start > PLAYLIST_TRACKS_PAGE_SIZE {
            start + PLAYLIST_TRACKS_PAGE_SIZE
        } else {
            self.ids.len()
        };
        self.cursor = end;
        let mut out: Vec<i64> = Vec::new();
        let mut i = start;
        while i < end
            invariant
                start <= i <= end,
                end <= self.ids@.len(),
                out@ == self.ids@.subrange(start as int, i as int),
            decreases end - i,
        {
            out.push(self.ids[i]);
            i = i + 1;
            assert(out@ =~= self.ids@.subrange(start as int, i as int));
        }
        out
    }
}

/// The index of the liked-songs playlist: the first of special type 5 or
/// whose name contains `我喜欢`; the first playlist where none is.
pub open spec fn liked_index(playlists: Seq<Playlist>) -> int {
    if exists|i: int|
        0 <= i < playlists.len() && #[trigger] is_liked(playlists[i]) {
        choose|i: int|
            0 <= i < playlists.len() && is_liked(playlists[i]) && forall|j: int|
                0 <= j < i ==> !#[trigger] is_liked(playlists[j])
    } else {
        0
    }
}

/// Whether a playlist is the liked-songs one.
pub open spec fn is_liked(p: Playlist) -> bool {
    p.special_type == 5 || contains_seq(p.name@, "我喜欢"@)
}

/// Finds the playlist selected when the playlists arrive.
pub fn liked_playlist_index(playlists: &Vec<Playlist>) -> (r: usize)
    ensures
        r == liked_index(playlists@),
{
    let pat = chars_of("我喜欢");
    let mut i: usize = 0;
    while i < playlists.len()
        invariant
            i <= playlists@.len(),
            pat@ == "我喜欢"@,
            forall|j: int| 0 <= j < i ==> !#[trigger] is_liked(playlists@[j]),
        decreases playlists@.len() - i,
    {
        let name = chars_of(playlists[i].name.as_str());
        if playlists[i].special_type == 5 || contains_chars(name.as_slice(), pat.as_slice()) {
            proof {
                assert(is_liked(playlists@[i as int]));
                let c = choose|k: int|
                    0 <= k < playlists@.len() && is_liked(playlists@[k]) && forall|j: int|
                        0 <= j < k ==> !#[trigger] is_liked(playlists@[j]);
                assert(0 <= i < playlists@.len() && is_liked(playlists@[i as int]) && forall|j: int|
                    0 <= j < i ==> !#[trigger] is_liked(playlists@[j]));
                if c < i {
                    assert(!is_liked(playlists@[c]));
                }
                if c > i {
                    assert(!is_liked(playlists@[i as int]));
                }
            }
            return i;
        }
        i = i + 1;
    }
    0
}

/// The status line of the playlist list: the count, and the preload summary where there is one.
pub open spec fn list_status_text(count: usize, summary: Seq<char>) -> Seq<char> {
    let base = "歌单: "@ + dec_digits(count as nat) + " 个（已选中我喜欢的音乐，回车打开）"@;
    if summary.len() == 0 {
        base
    } else {
        base + " | "@ + summary
    }
}

/// Builds the status line of the playlist list.
pub fn playlist_list_status(count: usize, preload_summary: &str) -> (r: String)
    ensures
        r@ == list_status_text(count, preload_summary@),
{
    let mut s = "歌单: ".to_string();
    push_chars(&mut s, u64_dec_chars(count as u64).as_slice());
    push_str(&mut s, " 个（已选中我喜欢的音乐，回车打开）");
    let summary = chars_of(preload_summary);
    if summary.len() > 0 {
        push_str(&mut s, " | ");
        push_str(&mut s, preload_summary);
    }
    s
}

/// An audio prefetch for the audio worker: the song, the bit rate, the
/// address and the title it shows.
#[derive(Debug, PartialEq, Eq)]
pub struct PrefetchAudio {
    pub id: i64,
    pub br: i64,
    pub url: String,
    pub title: String,
}

/// A prefetch request in flight.
pub struct PendingPrefetch {
    pub req_id: u64,
    pub generation: u64,
    pub song_id: i64,
}

/// Prefetches the address and audio of the song that plays next, and drops
/// replies that the queue or the mode has outdated.
pub struct NextSongCacheManager {
    generation: u64,
    pending: Option<PendingPrefetch>,
    cached_song_id: Option<i64>,
}

impl NextSongCacheManager {
    /// The generation: it moves on whenever the queue or the mode changes.
    pub closed spec fn generation_view(&self) -> u64 {
        self.generation
    }

    /// The request in flight: its id, generation and song.
    pub closed spec fn pending_view(&self) -> Option<(u64, u64, i64)> {
        match self.pending {
            Some(p) => Some((p.req_id, p.generation, p.song_id)),
            None => None,
        }
    }

    /// The song whose audio was last prefetched.
    pub closed spec fn cached_view(&self) -> Option<i64> {
        self.cached_song_id
    }

    /// The id of the request in flight.
    pub open spec fn pending_req(&self) -> Option<u64> {
        match self.pending_view() {
            Some(p) => Some(p.0),
            None => None,
        }
    }

    /// Nothing pending, nothing cached.
    pub fn new() -> (r: Self)
        ensures
            r.generation_view() == 0,
            r.pending_view() is None,
            r.cached_view() is None,
    {
        NextSongCacheManager { generation: 0, pending: None, cached_song_id: None }
    }

    /// Outdates what was prefetched or is being prefetched (the queue or the mode changed).
    pub fn reset(&mut self)
        ensures
            final(self).generation_view() == (if old(self).generation_view() == u64::MAX {
                0
            } else {
                (old(self).generation_view() + 1) as u64
            }),
            final(self).pending_view() is None,
            final(self).cached_view() is None,
            call_effect(CacheCall::Reset, *old(self), *final(self)),
    {
        self.generation = self.generation.wrapping_add(1);
        self.pending = None;
        self.cached_song_id = None;
    }

    /// Whether a reply with this id answers the prefetch in flight.
    pub fn owns_req(&self, req_id: u64) -> (r: bool)
        ensures
            r == (self.pending_view() matches Some(p) && p.0 == req_id),
    {
        match &self.pending {
            Some(p) => p.req_id == req_id,
            None => false,
        }
    }

    /// Decides whether to prefetch, given the mode, the id of the song that
    /// plays next (none at the end of a sequential queue or with no queue) and
    /// the bit rate of playback: not in shuffle or single-loop mode, not for
    /// the song already prefetched. Where it does, it takes a request id,
    /// records the request, and returns the address request to send.
    pub fn prefetch_next(&mut self, mode: PlayMode, next_song_id: Option<i64>, play_br: i64, req_id: &mut u64) -> (r: Option<NeteaseCommand>)
        ensures
            final(self).generation_view() == old(self).generation_view(),
            final(self).cached_view() == old(self).cached_view(),
            (mode == PlayMode::Shuffle || mode == PlayMode::SingleLoop || next_song_id is None
                || next_song_id == old(self).cached_view()) ==> r is None && final(self).pending_view()
                == old(self).pending_view() && *final(req_id) == *old(req_id),
            !(mode == PlayMode::Shuffle || mode == PlayMode::SingleLoop || next_song_id is None
                || next_song_id == old(self).cached_view()) ==> r == Some(
                NeteaseCommand::SongUrl { req_id: *old(req_id), id: next_song_id->0, br: play_br },
            ) && final(self).pending_view() == Some(
                (*old(req_id), old(self).generation_view(), next_song_id->0),
            ) && *final(req_id) == (if *old(req_id) == u64::MAX {
                0
            } else {
                (*old(req_id) + 1) as u64
            }),
            call_effect(
                CacheCall::Prefetch {
                    asked: if r is Some {
                        Some(*old(req_id))
                    } else {
                        None
                    },
                },
                *old(self),
                *final(self),
            ),
    {
        if mode == PlayMode::Shuffle || mode == PlayMode::SingleLoop {
            return None;
        }
        let song_id = match next_song_id {
            Some(s) => s,
            None => return None,
        };
        if self.cached_song_id == Some(song_id) {
            return None;
        }
        let id = next_id(req_id);
        self.pending = Some(PendingPrefetch { req_id: id, generation: self.generation, song_id });
        Some(NeteaseCommand::SongUrl { req_id: id, id: song_id, br: play_br })
    }

    /// Takes an address reply for the prefetch: it is accepted where it answers
    /// the request in flight, of the current generation, for the same song;
    /// then the song counts as prefetched, and the audio prefetch to send is
    /// returned, at the bit rate of playback. The request is over either way.
    pub fn on_song_url(&mut self, req_id: u64, song_url: &SongUrl, play_br: i64) -> (r: Option<PrefetchAudio>)
        ensures
            final(self).generation_view() == old(self).generation_view(),
            final(self).pending_view() is None,
            r is Some <==> (old(self).pending_view() matches Some(p) && p.0 == req_id && p.1
                == old(self).generation_view() && p.2 == song_url.id),
            r matches Some(a) ==> a.id == song_url.id && a.br == play_br && a.url@ == song_url.url@
                && a.title@ == prefetch_title_text(song_url.id),
            r is Some ==> final(self).cached_view() == Some(song_url.id),
            r is None ==> final(self).cached_view() == old(self).cached_view(),
            call_effect(CacheCall::SongUrlReply, *old(self), *final(self)),
    {
        let pending = match self.pending.take() {
            Some(p) => p,
            None => return None,
        };
        if pending.req_id != req_id {
            return None;
        }
        if pending.generation != self.generation {
            return None;
        }
        if pending.song_id != song_url.id {
            return None;
        }
        self.cached_song_id = Some(song_url.id);
        Some(PrefetchAudio {
            id: song_url.id,
            br: play_br,
            url: song_url.url.clone(),
            title: prefetch_title(song_url.id),
        })
    }

    /// Takes a failure for the prefetch in flight: forgets the request and the
    /// cached song so that a later prefetch retries.
    pub fn on_error(&mut self, req_id: u64) -> (r: bool)
        ensures
            final(self).generation_view() == old(self).generation_view(),
            r == (old(self).pending_view() matches Some(p) && p.0 == req_id),
            r ==> final(self).pending_view() is None && final(self).cached_view() is None,
            !r ==> final(self).pending_view() == old(self).pending_view() && final(self).cached_view()
                == old(self).cached_view(),
            call_effect(CacheCall::Error { req: req_id }, *old(self), *final(self)),
    {
        if self.owns_req(req_id) {
            self.pending = None;
            self.cached_song_id = None;
            true
        } else {
            false
        }
    }
}

/// A call on the prefetch manager, as far as the request in flight goes.
pub enum CacheCall {
    /// `reset`.
    Reset,
    /// `prefetch_next`, with the id of the request it sent, if it sent one.
    Prefetch { asked: Option<u64> },
    /// `on_song_url`.
    SongUrlReply,
    /// `on_error` with this id.
    Error { req: u64 },
}

/// What a call does to the request in flight: a reset or an address reply
/// ends it, a prefetch that asks replaces it, a failure ends it where it
/// carries its id.
pub open spec fn call_effect(c: CacheCall, before: NextSongCacheManager, after: NextSongCacheManager) -> bool {
    match c {
        CacheCall::Reset => after.pending_req() is None,
        CacheCall::Prefetch { asked } => match asked {
            Some(q) => after.pending_req() == Some(q),
            None => after.pending_req() == before.pending_req(),
        },
        CacheCall::SongUrlReply => after.pending_req() is None,
        CacheCall::Error { req } => after.pending_req() == (if before.pending_req() == Some(req) {
            None
        } else {
            before.pending_req()
        }),
    }
}

/// Whether a call ends a request `r` asked before it.
pub open spec fn closes(c: CacheCall, r: u64) -> bool {
    match c {
        CacheCall::Reset => true,
        CacheCall::Prefetch { asked } => asked is Some,
        CacheCall::SongUrlReply => true,
        CacheCall::Error { req } => req == r,
    }
}

/// Whether request `r` was asked by the last prefetch that asked, and no
/// reset, address reply or failure for `r` came after it.
pub open spec fn asked_and_open(calls: Seq<CacheCall>, r: u64) -> bool {
    exists|i: int|
        0 <= i < calls.len() && calls[i] == (CacheCall::Prefetch { asked: Some(r) }) && forall|j: int|
            i < j < calls.len() ==> !closes(#[trigger] calls[j], r)
}

/// A reply id belongs to the prefetch manager exactly when the last prefetch
/// that asked sent it and no reset, address reply or failure for it came
/// since: over any history of calls from a manager with nothing in flight
/// (as `new` leaves it), each call doing what its contract states.
pub proof fn lemma_owns_req_history(ms: Seq<NextSongCacheManager>, calls: Seq<CacheCall>, r: u64)
    requires
        ms.len() == calls.len() + 1,
        ms[0].pending_req() is None,
        forall|k: int| #![trigger calls[k]] 0 <= k < calls.len() ==> call_effect(calls[k], ms[k], ms[k + 1]),
    ensures
        ms.last().pending_req() == Some(r) <==> asked_and_open(calls, r),
    decreases calls.len(),
{
    if calls.len() == 0 {
        return;
    }
    let n = calls.len() - 1;
    let prev_ms = ms.drop_last();
    let prev = calls.drop_last();
    assert forall|k: int| #![trigger prev[k]] 0 <= k < prev.len() implies call_effect(
        prev[k],
        prev_ms[k],
        prev_ms[k + 1],
    ) by {
        assert(prev[k] == calls[k]);
        assert(call_effect(calls[k], ms[k], ms[k + 1]));
    }
    lemma_owns_req_history(prev_ms, prev, r);
    assert(prev_ms.last() == ms[n]);
    assert(call_effect(calls[n], ms[n], ms[n + 1]));
    let c = calls[n];
    if asked_and_open(prev, r) && !closes(c, r) {
        let i = choose|i: int|
            0 <= i < prev.len() && prev[i] == (CacheCall::Prefetch { asked: Some(r) }) && forall|j: int|
                i < j < prev.len() ==> !closes(#[trigger] prev[j], r);
        assert forall|j: int| i < j < calls.len() implies !closes(#[trigger] calls[j], r) by {
            if j < n {
                assert(prev[j] == calls[j]);
            }
        }
        assert(calls[i] == prev[i]);
    }
    if asked_and_open(calls, r) {
        let i = choose|i: int|
            0 <= i < calls.len() && calls[i] == (CacheCall::Prefetch { asked: Some(r) }) && forall|j: int|
                i < j < calls.len() ==> !closes(#[trigger] calls[j], r);
        if i < n {
            assert(!closes(calls[n], r));
            assert forall|j: int| i < j < prev.len() implies !closes(#[trigger] prev[j], r) by {
                assert(prev[j] == calls[j]);
                assert(!closes(calls[j], r));
            }
            assert(prev[i] == calls[i]);
            assert(asked_and_open(prev, r));
        }
    }
    match c {
        CacheCall::Prefetch { asked } => {
            if asked == Some(r) {
                assert(calls[n] == (CacheCall::Prefetch { asked: Some(r) }));
                assert(asked_and_open(calls, r));
            }
        },
        _ => {},
    }
}

/// The title of the audio prefetch of a song: `预缓存: ` and its id.
pub open spec fn prefetch_title_text(id: i64) -> Seq<char> {
    "预缓存: "@ + signed_dec(id as int)
}

/// Builds the title of the audio prefetch of a song.
pub fn prefetch_title(id: i64) -> (r: String)
    ensures
        r@ == prefetch_title_text(id),
{
    let mut s = "预缓存: ".to_string();
    push_chars(&mut s, i64_dec_chars(id).as_slice());
    s
}

/// How many items the settings page has.
pub const SETTINGS_ITEMS_COUNT: usize = 6;

/// Whether the selected settings item is "log out", the last one.
pub fn is_logout_selected(selected: usize) -> (r: bool)
    ensures
        r == (selected == SETTINGS_ITEMS_COUNT - 1),
{
    selected == SETTINGS_ITEMS_COUNT - 1
}

/// Whether the selected settings item is "clear the audio cache", the one before last.
pub fn is_clear_cache_selected(selected: usize) -> (r: bool)
    ensures
        r == (selected == SETTINGS_ITEMS_COUNT - 2),
{
    selected == SETTINGS_ITEMS_COUNT - 2
}

/// The selection after moving up: one less, stopping at the first item.
pub fn settings_move_up(selected: usize) -> (r: usize)
    ensures
        r == (if selected > 0 {
            selected - 1
        } else {
            0
        }),
{
    if selected > 0 {
        selected - 1
    } else {
        0
    }
}

/// The selection after moving down: one more, stopping at the last item.
pub fn settings_move_down(selected: usize) -> (r: usize)
    requires
        selected < usize::MAX,
    ensures
        r == (if selected + 1 < SETTINGS_ITEMS_COUNT - 1 {
            selected + 1
        } else {
            SETTINGS_ITEMS_COUNT - 1
        }),
{
    if selected + 1 < SETTINGS_ITEMS_COUNT - 1 {
        selected + 1
    } else {
        SETTINGS_ITEMS_COUNT - 1
    }
}

/// The bitrates the settings page offers, lowest first.
pub open spec fn br_options() -> Seq<i64> {
    seq![128_000, 192_000, 320_000, 999_000]
}

/// The position of a bitrate among the options; the last where it is none of them.
pub open spec fn br_position(br: i64) -> int {
    if br == 128_000 {
        0
    } else if br == 192_000 {
        1
    } else if br == 320_000 {
        2
    } else {
        3
    }
}

/// The bitrate one option up (`dir > 0`) or down, stopping at the ends.
pub open spec fn stepped_br(br: i64, dir: i32) -> i64 {
    let pos = br_position(br);
    let next = if dir > 0 {
        if pos + 1 < 3 {
            pos + 1
        } else {
            3
        }
    } else if pos > 0 {
        pos - 1
    } else {
        0
    };
    br_options()[next]
}

/// Steps the bitrate one option up or down.
pub fn step_br(br: i64, dir: i32) -> (r: i64)
    ensures
        r == stepped_br(br, dir),
{
    let pos: usize = if br == 128_000 {
        0
    } else if br == 192_000 {
        1
    } else if br == 320_000 {
        2
    } else {
        3
    };
    let next: usize = if dir > 0 {
        if pos + 1 < 3 {
            pos + 1
        } else {
            3
        }
    } else if pos > 0 {
        pos - 1
    } else {
        0
    };
    if next == 0 {
        128_000
    } else if next == 1 {
        192_000
    } else if next == 2 {
        320_000
    } else {
        999_000
    }
}

/// The settings of playback that the settings page adjusts, with its status line.
pub struct PlaybackSettings {
    pub play_br: i64,
    pub play_mode: PlayMode,
    pub lyrics_offset_ms: i64,
    pub settings_status: String,
}

/// `a + b`, held within the range of `i64`.
pub open spec fn sat_add_i64(a: i64, b: i64) -> i64 {
    if a + b > i64::MAX {
        i64::MAX
    } else if a + b < i64::MIN {
        i64::MIN
    } else {
        (a + b) as i64
    }
}

/// `a + b`, held within the range of `i64` (what `saturating_add` gives).
pub fn saturating_add_i64(a: i64, b: i64) -> (r: i64)
    ensures
        r == sat_add_i64(a, b),
{
    if b > 0 && a > i64::MAX - b {
        i64::MAX
    } else if b < 0 && a < i64::MIN - b {
        i64::MIN
    } else {
        a + b
    }
}

/// Adjusts the selected settings item up (`dir > 0`) or down: item 0 steps
/// the bitrate, item 2 the play mode (outdating the prefetch), item 3 moves
/// the lyrics offset by 200 ms; each sets its status line. Item 1, the
/// volume, is left to the caller, told by `Some` with the direction.
pub fn apply_settings_adjust(
    selected: usize,
    s: &mut PlaybackSettings,
    dir: i32,
    cache: &mut NextSongCacheManager,
) -> (r: Option<bool>)
    ensures
        r == (if selected == 1 {
            Some(dir > 0)
        } else {
            None::<bool>
        }),
        selected == 0 ==> final(s).play_br == stepped_br(old(s).play_br, dir)
            && final(s).settings_status@ == "音质已设置为 "@ + br_text(final(s).play_br),
        selected != 0 ==> final(s).play_br == old(s).play_br,
        selected == 2 ==> final(s).play_mode == (if dir > 0 {
            next_mode(old(s).play_mode)
        } else {
            prev_mode(old(s).play_mode)
        }) && final(s).settings_status@ == "播放模式: "@ + mode_label(final(s).play_mode)
            && final(cache).pending_view() is None && final(cache).cached_view() is None,
        selected != 2 ==> final(s).play_mode == old(s).play_mode && *final(cache) == *old(cache),
        selected == 3 ==> final(s).lyrics_offset_ms == sat_add_i64(
            old(s).lyrics_offset_ms,
            if dir > 0 {
                200i64
            } else {
                -200i64
            },
        ) && final(s).settings_status@ == "歌词 offset: "@ + signed_dec(
            final(s).lyrics_offset_ms as int,
        ) + "ms"@,
        selected != 3 ==> final(s).lyrics_offset_ms == old(s).lyrics_offset_ms,
        selected > 3 || selected == 1 ==> final(s).settings_status == old(s).settings_status,
{
    if selected == 0 {
        s.play_br = step_br(s.play_br, dir);
        let mut st = "音质已设置为 ".to_string();
        push_str(&mut st, br_label(s.play_br));
        s.settings_status = st;
        None
    } else if selected == 1 {
        Some(dir > 0)
    } else if selected == 2 {
        s.play_mode = if dir > 0 {
            next_play_mode(s.play_mode)
        } else {
            prev_play_mode(s.play_mode)
        };
        let mut st = "播放模式: ".to_string();
        push_str(&mut st, play_mode_label(s.play_mode));
        s.settings_status = st;
        cache.reset();
        None
    } else if selected == 3 {
        let step: i64 = if dir > 0 {
            200
        } else {
            -200
        };
        s.lyrics_offset_ms = saturating_add_i64(s.lyrics_offset_ms, step);
        let mut st = "歌词 offset: ".to_string();
        push_chars(&mut st, i64_dec_chars(s.lyrics_offset_ms).as_slice());
        push_str(&mut st, "ms");
        s.settings_status = st;
        None
    } else {
        None
    }
}

/// Stepping the bitrate keeps it among the offered options.
pub proof fn lemma_stepped_br_is_option(br: i64, dir: i32)
    ensures
        br_options().contains(stepped_br(br, dir)),
{
    let pos = br_position(br);
    let next = if dir > 0 {
        if pos + 1 < 3 {
            pos + 1
        } else {
            3
        }
    } else if pos > 0 {
        pos - 1
    } else {
        0
    };
    assert(br_options()[next] == stepped_br(br, dir));
}

/// On an offered bitrate away from the top, stepping up then down gives it back.
pub proof fn lemma_br_up_then_down(br: i64)
    requires
        br_options().contains(br),
        br != 999_000,
    ensures
        stepped_br(stepped_br(br, 1i32), -1i32) == br,
{
}

} // verus!
