//! What of the state is saved when the application quits, and how it is
//! restored at start-up: paused, at the same position.
use vstd::prelude::*;
use crate::app_state::App;
use crate::model::{Playlist, Song};
use crate::persist::{
    PlaybackProgress, PlayQueueState, PlaylistLite, SongLite, lite_of, playlists_from_lites,
    restored_elapsed, restored_elapsed_ms, saved_start, saved_started_at, song_of_lite,
};
use crate::play_mode::{mode_name, mode_of_name, play_mode_from_string, play_mode_to_string};

verus! {

/// The saved state of the player and the playlists, without the volume and
/// the crossfade, which live outside the state.
pub struct SavedPlayer {
    pub play_song_id: Option<i64>,
    pub progress: PlaybackProgress,
    pub play_queue: PlayQueueState,
    pub play_br: i64,
    pub playlists: Vec<PlaylistLite>,
    pub playlists_selected: usize,
    pub saved_at_epoch_ms: i64,
}

/// Whether `x` fits in an `i64`.
pub open spec fn in_i64(x: int) -> bool {
    i64::MIN <= x <= i64::MAX
}

/// The saved form of a playlist.
pub open spec fn playlist_lite(p: Playlist) -> PlaylistLite {
    PlaylistLite { id: p.id, name: p.name, track_count: p.track_count }
}

/// The queue position that is saved: the position where it is in the queue.
pub open spec fn pos_in(pos: Option<usize>, len: nat) -> Option<usize> {
    match pos {
        Some(p) => if p < len {
            Some(p)
        } else {
            None
        },
        None => None,
    }
}

/// Whether `s` is what saving `a` at `now_ms` gives, with playback at
/// `elapsed_ms` and, where a pause is timed, paused for `paused_for_ms`:
/// the playing song; where playback started (the position less than now,
/// none at position zero); the length; the pause state, with when the pause
/// began (now where it is not timed); the pause time; the queue in its order
/// with its position and the mode's name; the bitrate; the playlists' ids,
/// names and counts; the selection; the time of saving.
pub open spec fn saved_from(a: App, now_ms: i64, elapsed_ms: u64, paused_for_ms: Option<u64>, s: SavedPlayer) -> bool {
    &&& s.play_song_id == a.play_song_id
    &&& s.progress == (PlaybackProgress {
        started_at_epoch_ms: saved_start(now_ms, elapsed_ms),
        total_ms: a.play_total_ms,
        paused: a.paused,
        paused_at_epoch_ms: if a.paused {
            Some(
                match paused_for_ms {
                    Some(d) => (now_ms - d) as i64,
                    None => now_ms,
                },
            )
        } else {
            None
        },
        paused_accum_ms: a.play_paused_accum_ms,
    })
    &&& s.play_queue.songs@ == a.queue@.map_values(|x: Song| lite_of(x))
    &&& s.play_queue.order@ == Seq::new(a.queue@.len(), |i: int| i as usize)
    &&& s.play_queue.cursor == pos_in(a.queue_pos, a.queue@.len())
    &&& s.play_queue.mode@ == mode_name(a.play_mode)
    &&& s.play_br == a.play_br
    &&& s.playlists@ == a.playlists@.map_values(|p: Playlist| playlist_lite(p))
    &&& s.playlists_selected == a.playlists_selected
    &&& s.saved_at_epoch_ms == now_ms
}

/// Whether the times of a save fit the arithmetic on them.
pub open spec fn save_fits(now_ms: i64, elapsed_ms: u64, paused_for_ms: Option<u64>) -> bool {
    &&& (elapsed_ms > 0 ==> elapsed_ms <= i64::MAX && in_i64(now_ms - elapsed_ms))
    &&& (paused_for_ms matches Some(d) ==> d <= i64::MAX && in_i64(now_ms - d))
}

/// Saves the state (see `saved_from`).
pub fn saved_player(app: &App, now_ms: i64, elapsed_ms: u64, paused_for_ms: Option<u64>) -> (r: SavedPlayer)
    requires
        save_fits(now_ms, elapsed_ms, paused_for_ms),
    ensures
        saved_from(*app, now_ms, elapsed_ms, paused_for_ms, r),
{
    let paused_at = if app.paused {
        Some(
            match paused_for_ms {
                Some(d) => now_ms - (d as i64),
                None => now_ms,
            },
        )
    } else {
        None
    };
    let mut songs: Vec<SongLite> = Vec::new();
    let mut order: Vec<usize> = Vec::new();
    let mut i: usize = 0;
    while i < app.queue.len()
        invariant
            i <= app.queue@.len(),
            songs@ == app.queue@.take(i as int).map_values(|x: Song| lite_of(x)),
            order@ == Seq::new(i as nat, |k: int| k as usize),
        decreases app.queue@.len() - i,
    {
        songs.push(SongLite::from(&app.queue[i]));
        order.push(i);
        i += 1;
        assert(songs@ =~= app.queue@.take(i as int).map_values(|x: Song| lite_of(x)));
        assert(order@ =~= Seq::new(i as nat, |k: int| k as usize));
    }
    assert(app.queue@.take(app.queue@.len() as int) == app.queue@);
    let cursor = match app.queue_pos {
        Some(p) => if p < app.queue.len() {
            Some(p)
        } else {
            None
        },
        None => None,
    };
    let mut playlists: Vec<PlaylistLite> = Vec::new();
    let mut j: usize = 0;
    while j < app.playlists.len()
        invariant
            j <= app.playlists@.len(),
            playlists@ == app.playlists@.take(j as int).map_values(|p: Playlist| playlist_lite(p)),
        decreases app.playlists@.len() - j,
    {
        playlists.push(PlaylistLite::from(&app.playlists[j]));
        j += 1;
        assert(playlists@ =~= app.playlists@.take(j as int).map_values(|p: Playlist| playlist_lite(p)));
    }
    assert(app.playlists@.take(app.playlists@.len() as int) == app.playlists@);
    SavedPlayer {
        play_song_id: app.play_song_id,
        progress: PlaybackProgress {
            started_at_epoch_ms: saved_started_at(now_ms, elapsed_ms),
            total_ms: app.play_total_ms,
            paused: app.paused,
            paused_at_epoch_ms: paused_at,
            paused_accum_ms: app.play_paused_accum_ms,
        },
        play_queue: PlayQueueState {
            songs,
            order,
            cursor,
            mode: play_mode_to_string(app.play_mode),
        },
        play_br: app.play_br,
        playlists,
        playlists_selected: app.playlists_selected,
        saved_at_epoch_ms: now_ms,
    }
}

/// Whether the times of a restore fit the arithmetic on them.
pub open spec fn restore_fits(s: SavedPlayer, now_ms: i64) -> bool {
    s.progress.started_at_epoch_ms matches Some(st) ==> {
        &&& in_i64(now_ms - st)
        &&& in_i64(now_ms - s.saved_at_epoch_ms)
        &&& in_i64((now_ms - st) + (now_ms - s.saved_at_epoch_ms))
    }
}

/// The position playback resumes at after restoring at `now_ms`: the saved
/// position moved on by the time since saving, less the pause time where it
/// was paused; none where playback had not started.
pub open spec fn resume_position(s: SavedPlayer, now_ms: i64) -> Option<u64> {
    match s.progress.started_at_epoch_ms {
        Some(st) => Some(
            restored_elapsed(
                st,
                now_ms,
                s.saved_at_epoch_ms,
                s.progress.paused,
                s.progress.paused_accum_ms,
            ),
        ),
        None => None,
    }
}

/// Whether `b` is `a` after restoring `s`: paused, with the saved song, its
/// length and pause time, the bitrate, the mode of the saved name, the queue
/// with its position where that is in it, and the playlists (of no special
/// type) with their selection; nothing else changes.
pub open spec fn restored_from(a: App, s: SavedPlayer, b: App) -> bool {
    &&& b.queue@ == s.play_queue.songs@.map_values(|l: SongLite| song_of_lite(l))
    &&& b.playlists@ == s.playlists@.map_values(
        |l: PlaylistLite| Playlist { id: l.id, name: l.name, track_count: l.track_count, special_type: 0 },
    )
    &&& b == (App {
        play_total_ms: s.progress.total_ms,
        paused: true,
        play_paused_accum_ms: s.progress.paused_accum_ms,
        play_song_id: s.play_song_id,
        play_br: s.play_br,
        play_mode: mode_of_name(s.play_queue.mode@),
        queue: b.queue,
        queue_pos: pos_in(s.play_queue.cursor, s.play_queue.songs@.len()),
        playlists: b.playlists,
        playlists_selected: s.playlists_selected,
        ..a
    })
}

/// The saved state with its playback start forgotten, as though playback had
/// not started.
pub open spec fn unstarted(s: SavedPlayer) -> SavedPlayer {
    SavedPlayer { progress: PlaybackProgress { started_at_epoch_ms: None, ..s.progress }, ..s }
}

/// Forgets the saved playback start where the time since it, the time since
/// saving, or their sum does not fit in 64 bits at `now_ms`; the rest of the
/// saved state stays as it is. Restoring is then always possible.
pub fn forget_unfit_start(saved: &mut SavedPlayer, now_ms: i64)
    ensures
        restore_fits(*final(saved), now_ms),
        *final(saved) == (if restore_fits(*old(saved), now_ms) {
            *old(saved)
        } else {
            unstarted(*old(saved))
        }),
{
    let fits = match saved.progress.started_at_epoch_ms {
        Some(st) => match (now_ms.checked_sub(st), now_ms.checked_sub(saved.saved_at_epoch_ms)) {
            (Some(a), Some(b)) => a.checked_add(b).is_some(),
            _ => false,
        },
        None => true,
    };
    if !fits {
        saved.progress.started_at_epoch_ms = None;
    }
}

/// Restores the saved state (see `restored_from`) and tells where playback
/// resumes (see `resume_position`).
pub fn restore_player(app: &mut App, saved: &SavedPlayer, now_ms: i64) -> (r: Option<u64>)
    requires
        restore_fits(*saved, now_ms),
    ensures
        restored_from(*old(app), *saved, *final(app)),
        r == resume_position(*saved, now_ms),
{
    let resume = match saved.progress.started_at_epoch_ms {
        Some(st) => Some(
            restored_elapsed_ms(
                st,
                now_ms,
                saved.saved_at_epoch_ms,
                saved.progress.paused,
                saved.progress.paused_accum_ms,
            ),
        ),
        None => None,
    };
    let mut songs: Vec<Song> = Vec::new();
    let mut i: usize = 0;
    while i < saved.play_queue.songs.len()
        invariant
            i <= saved.play_queue.songs@.len(),
            songs@ == saved.play_queue.songs@.take(i as int).map_values(|l: SongLite| song_of_lite(l)),
        decreases saved.play_queue.songs@.len() - i,
    {
        let l = &saved.play_queue.songs[i];
        songs.push(Song { id: l.id, name: l.name.clone(), artists: l.artists.clone() });
        i += 1;
        assert(songs@ =~= saved.play_queue.songs@.take(i as int).map_values(|l: SongLite| song_of_lite(l)));
    }
    assert(saved.play_queue.songs@.take(saved.play_queue.songs@.len() as int) == saved.play_queue.songs@);
    let pos = match saved.play_queue.cursor {
        Some(c) => if c < saved.play_queue.songs.len() {
            Some(c)
        } else {
            None
        },
        None => None,
    };
    let playlists = playlists_from_lites(&saved.playlists);
    assert(playlists@ =~= saved.playlists@.map_values(
        |l: PlaylistLite| Playlist { id: l.id, name: l.name, track_count: l.track_count, special_type: 0 },
    ));
    app.play_total_ms = saved.progress.total_ms;
    app.paused = true;
    app.play_paused_accum_ms = saved.progress.paused_accum_ms;
    app.play_song_id = saved.play_song_id;
    app.play_br = saved.play_br;
    app.play_mode = play_mode_from_string(saved.play_queue.mode.as_str());
    app.queue = songs;
    app.queue_pos = pos;
    app.playlists = playlists;
    app.playlists_selected = saved.playlists_selected;
    resume
}

/// Restoring what was saved, at the moment of saving, gives back the queue
/// and its position, the mode, the bitrate, the playing song, its length,
/// the pause time, the playlists' ids, names and counts, and the selection;
/// playback that had moved and was not paused resumes at the same position.
pub proof fn lemma_save_then_restore(
    a: App,
    now_ms: i64,
    elapsed_ms: u64,
    paused_for_ms: Option<u64>,
    s: SavedPlayer,
    b: App,
    c: App,
)
    requires
        save_fits(now_ms, elapsed_ms, paused_for_ms),
        saved_from(a, now_ms, elapsed_ms, paused_for_ms, s),
        restored_from(b, s, c),
    ensures
        c.queue@ == a.queue@,
        c.queue_pos == pos_in(a.queue_pos, a.queue@.len()),
        c.play_mode == a.play_mode,
        c.play_br == a.play_br,
        c.play_song_id == a.play_song_id,
        c.play_total_ms == a.play_total_ms,
        c.play_paused_accum_ms == a.play_paused_accum_ms,
        c.paused,
        c.playlists@.len() == a.playlists@.len(),
        forall|i: int|
            0 <= i < a.playlists@.len() ==> #[trigger] c.playlists@[i].id == a.playlists@[i].id
                && c.playlists@[i].name == a.playlists@[i].name && c.playlists@[i].track_count
                == a.playlists@[i].track_count,
        c.playlists_selected == a.playlists_selected,
        !a.paused && 0 < elapsed_ms <= i64::MAX ==> resume_position(s, now_ms) == Some(elapsed_ms),
{
    crate::play_mode::lemma_play_mode_name_roundtrip(a.play_mode);
    assert(c.queue@ =~= a.queue@);
    assert forall|i: int| 0 <= i < a.playlists@.len() implies #[trigger] c.playlists@[i].id == a.playlists@[i].id
        && c.playlists@[i].name == a.playlists@[i].name && c.playlists@[i].track_count
        == a.playlists@[i].track_count by {
        assert(s.playlists@[i] == playlist_lite(a.playlists@[i]));
    }
    if !a.paused && 0 < elapsed_ms <= i64::MAX {
        crate::persist::lemma_restore_at_save_keeps_position(now_ms, elapsed_ms);
    }
}

} // verus!
