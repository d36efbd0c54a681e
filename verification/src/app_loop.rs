//! The main loop's own decisions, beside the pages' handlers: the login poll,
//! start-up, switching pages, logging out, and the replies and player events
//! that change the playback state.
use vstd::prelude::*;
use crate::app_state::{
    App, SettingsActivation, cleared_by_logout, reset_app_after_logout, settings_activate,
    song_title,
};
use crate::command;
use crate::model::{Account, Song, SongUrl};
use crate::netease_actor::NeteaseCommand;
use crate::text::{chars_of, contains_chars, contains_seq, dec_digits, push_chars, push_str, u64_dec_chars};
use crate::play_mode::{mode_label, next_mode, next_play_mode, play_mode_label};
use crate::usecases::{NextSongCacheManager, PlaylistTracksLoad, next_id};

verus! {

/// The request id handed out after `id` (the counter wraps at the top).
pub open spec fn following_id(id: u64) -> u64 {
    if id == u64::MAX {
        0
    } else {
        (id + 1) as u64
    }
}

/// The requests whose replies the loop still waits for; a reply under any
/// other id is stale and dropped.
pub struct PendingRequests {
    pub search: Option<u64>,
    pub song_url: Option<(u64, String)>,
    pub playlists: Option<u64>,
    pub playlist_detail: Option<u64>,
    pub playlist_tracks: Option<PlaylistTracksLoad>,
    pub account: Option<u64>,
    pub login_qr_key: Option<u64>,
    pub login_poll: Option<u64>,
    pub login_set_cookie: Option<u64>,
    pub lyric: Option<(u64, i64)>,
}

impl PendingRequests {
    /// Nothing is awaited.
    pub open spec fn is_empty(&self) -> bool {
        &&& self.search is None
        &&& self.song_url is None
        &&& self.playlists is None
        &&& self.playlist_detail is None
        &&& self.playlist_tracks is None
        &&& self.account is None
        &&& self.login_qr_key is None
        &&& self.login_poll is None
        &&& self.login_set_cookie is None
        &&& self.lyric is None
    }

    /// No request awaited yet.
    pub fn new() -> (r: Self)
        ensures
            r.is_empty(),
    {
        PendingRequests {
            search: None,
            song_url: None,
            playlists: None,
            playlist_detail: None,
            playlist_tracks: None,
            account: None,
            login_qr_key: None,
            login_poll: None,
            login_set_cookie: None,
            lyric: None,
        }
    }

    /// Forgets every awaited request.
    pub fn clear(&mut self)
        ensures
            final(self).is_empty(),
    {
        self.search = None;
        self.song_url = None;
        self.playlists = None;
        self.playlist_detail = None;
        self.playlist_tracks = None;
        self.account = None;
        self.login_qr_key = None;
        self.login_poll = None;
        self.login_set_cookie = None;
        self.lyric = None;
    }
}

// ---------------------------------------------------------------- login poll and start-up

/// One tick of the login poll: while a QR key is shown and nobody is logged
/// in, asks for the key's state under a fresh id, which becomes the pending
/// poll; otherwise does nothing.
pub fn qr_poll_tick(app: &App, req_id: &mut u64, pending_login_poll: &mut Option<u64>) -> (r: Option<NeteaseCommand>)
    ensures
        app.login_unikey is Some && !app.logged_in ==> {
            &&& r matches Some(NeteaseCommand::LoginQrCheck { req_id: q, key }) && q == *old(req_id)
                && key@ == app.login_unikey.unwrap()@
            &&& *final(pending_login_poll) == Some(*old(req_id))
            &&& *final(req_id) == following_id(*old(req_id))
        },
        !(app.login_unikey is Some && !app.logged_in) ==> r is None && *final(req_id) == *old(req_id)
            && *final(pending_login_poll) == *old(pending_login_poll),
{
    if app.logged_in {
        return None;
    }
    match &app.login_unikey {
        Some(key) => {
            let id = next_id(req_id);
            *pending_login_poll = Some(id);
            Some(NeteaseCommand::LoginQrCheck { req_id: id, key: key.clone() })
        },
        None => None,
    }
}

/// Start-up: shows that the client is being set up and asks the service
/// actor to set it up under a fresh id.
pub fn bootstrap(app: &mut App, req_id: &mut u64) -> (r: NeteaseCommand)
    ensures
        r == (NeteaseCommand::Init { req_id: *old(req_id) }),
        *final(req_id) == following_id(*old(req_id)),
        final(app).login_status@ == "初始化中..."@,
        *final(app) == (App { login_status: final(app).login_status, ..*old(app) }),
{
    app.login_status = "初始化中...".to_string();
    let id = next_id(req_id);
    NeteaseCommand::Init { req_id: id }
}

// ---------------------------------------------------------------- tabs

/// `i` is where `v` first occurs in `views`.
pub open spec fn first_at(views: Seq<command::View>, v: command::View, i: int) -> bool {
    &&& 0 <= i < views.len()
    &&& views[i] == v
    &&& forall|j: int| 0 <= j < i ==> views[j] != v
}

/// The page after `current` among the tabs, wrapping around; a page that is
/// not a tab counts as the first.
pub fn tab_after(views: &Vec<command::View>, current: command::View) -> (r: command::View)
    requires
        views@.len() > 0,
    ensures
        forall|i: int| first_at(views@, current, i) ==> r == views@[(i + 1) % (views@.len() as int)],
        !(exists|i: int| first_at(views@, current, i)) ==> r == views@[1int % (views@.len() as int)],
{
    let mut i: usize = 0;
    while i < views.len()
        invariant
            i <= views@.len(),
            forall|j: int| 0 <= j < i ==> views@[j] != current,
        decreases views.len() - i,
    {
        if views[i] == current {
            assert(first_at(views@, current, i as int));
            assert forall|k: int| first_at(views@, current, k) implies k == i as int by {
                if k < i as int {
                    assert(views@[k] != current);
                }
                if k > i as int {
                    assert(views@[i as int] != current);
                }
            }
            return views[(i + 1) % views.len()];
        }
        i += 1;
    }
    assert forall|k: int| !first_at(views@, current, k) by {
        if 0 <= k < views@.len() {
            assert(views@[k] != current);
        }
    }
    views[1 % views.len()]
}

/// Moves to the next tab.
pub fn tab_next(app: &mut App, views: &Vec<command::View>)
    requires
        views@.len() > 0,
    ensures
        forall|i: int| first_at(views@, old(app).view, i) ==> final(app).view == views@[(i + 1) % (views@.len() as int)],
        !(exists|i: int| first_at(views@, old(app).view, i)) ==> final(app).view == views@[1int % (views@.len() as int)],
        *final(app) == (App { view: final(app).view, ..*old(app) }),
{
    app.view = tab_after(views, app.view);
}

/// Moves to the tab at `index`, where there is one; tells whether it moved.
pub fn tab_to(app: &mut App, views: &Vec<command::View>, index: usize) -> (r: bool)
    ensures
        r == (index < views@.len()),
        r ==> *final(app) == (App { view: views@[index as int], ..*old(app) }),
        !r ==> *final(app) == *old(app),
{
    if index < views.len() {
        app.view = views[index];
        true
    } else {
        false
    }
}

// ---------------------------------------------------------------- settings and logout

/// What activating the settings item leads to.
#[derive(Debug)]
pub enum ActivateOutcome {
    /// The audio cache is to be cleared.
    ClearCache,
    /// Only the status changed.
    StatusShown,
    /// Logged out here; playback is to stop, the service is to forget the
    /// login with this command, and the preloads are to be dropped.
    Logout { command: NeteaseCommand },
}

/// Activates the selected settings item. Clearing the cache is asked for by
/// its item on the settings page; any other activation logs out where
/// somebody is logged in, and shows that nobody is otherwise. Logging out
/// forgets every awaited request and resets the state.
pub fn activate_settings(app: &mut App, req_id: &mut u64, pending: &mut PendingRequests) -> (r: ActivateOutcome)
    ensures
        old(app).view == command::View::Settings && old(app).settings_selected == crate::usecases::SETTINGS_ITEMS_COUNT - 2 ==> {
            &&& r is ClearCache
            &&& final(app).settings_status@ == "正在清除音频缓存..."@
            &&& *final(app) == (App { settings_status: final(app).settings_status, ..*old(app) })
            &&& *final(req_id) == *old(req_id)
            &&& *final(pending) == *old(pending)
        },
        !(old(app).view == command::View::Settings && old(app).settings_selected == crate::usecases::SETTINGS_ITEMS_COUNT - 2) ==> {
            &&& !old(app).logged_in ==> {
                &&& r is StatusShown
                &&& final(app).settings_status@ == "未登录，无需退出"@
                &&& *final(app) == (App { settings_status: final(app).settings_status, ..*old(app) })
                &&& *final(req_id) == *old(req_id)
                &&& *final(pending) == *old(pending)
            }
            &&& old(app).logged_in ==> {
                &&& r matches ActivateOutcome::Logout { command } && command == (NeteaseCommand::LogoutLocal { req_id: *old(req_id) })
                &&& *final(req_id) == following_id(*old(req_id))
                &&& final(pending).is_empty()
                &&& cleared_by_logout(*final(app))
                &&& final(app).login_status@ == "已退出登录（已清理本地 cookie），按 l 重新登录"@
                &&& final(app).search_input == old(app).search_input
                &&& final(app).play_br == old(app).play_br
                &&& final(app).play_mode == old(app).play_mode
                &&& final(app).lyrics_offset_ms == old(app).lyrics_offset_ms
                &&& final(app).settings_selected == old(app).settings_selected
                &&& final(app).settings_status == old(app).settings_status
            }
        },
{
    match settings_activate(app) {
        SettingsActivation::ClearCache => {
            return ActivateOutcome::ClearCache;
        },
        SettingsActivation::NotLoggedIn => {
            return ActivateOutcome::StatusShown;
        },
        _ => {},
    }
    if !app.logged_in {
        app.settings_status = "未登录，无需退出".to_string();
        return ActivateOutcome::StatusShown;
    }
    let id = next_id(req_id);
    pending.clear();
    reset_app_after_logout(app);
    app.login_status = "已退出登录（已清理本地 cookie），按 l 重新登录".to_string();
    ActivateOutcome::Logout { command: NeteaseCommand::LogoutLocal { req_id: id } }
}

// ---------------------------------------------------------------- replies

/// Takes the account reply: where it answers the pending account request,
/// keeps the account and asks for its playlists under a fresh id, which
/// becomes the pending playlists request; a stale reply changes nothing.
pub fn on_account(
    app: &mut App,
    id: u64,
    account: Account,
    req_id: &mut u64,
    pending: &mut PendingRequests,
) -> (r: Option<NeteaseCommand>)
    ensures
        old(pending).account != Some(id) ==> r is None && *final(app) == *old(app) && *final(req_id)
            == *old(req_id) && *final(pending) == *old(pending),
        old(pending).account == Some(id) ==> {
            &&& r == Some(NeteaseCommand::UserPlaylists { req_id: *old(req_id), uid: account.uid })
            &&& *final(req_id) == following_id(*old(req_id))
            &&& *final(pending) == (PendingRequests { playlists: Some(*old(req_id)), ..*old(pending) })
            &&& final(app).playlists_status@ == "正在加载用户歌单..."@
            &&& final(app).account_nickname == Some(account.nickname)
            &&& *final(app) == (App {
                account_uid: Some(account.uid),
                account_nickname: final(app).account_nickname,
                playlists_status: final(app).playlists_status,
                ..*old(app)
            })
        },
{
    if pending.account != Some(id) {
        return None;
    }
    app.account_uid = Some(account.uid);
    app.account_nickname = Some(account.nickname);
    app.playlists_status = "正在加载用户歌单...".to_string();
    let next = next_id(req_id);
    pending.playlists = Some(next);
    Some(NeteaseCommand::UserPlaylists { req_id: next, uid: account.uid })
}

/// A track the player is to play.
#[derive(Debug)]
pub struct PlayTrack {
    pub id: i64,
    pub br: i64,
    pub url: String,
    pub title: String,
}

/// Takes a song-address reply. The pending song request is consumed either
/// way; where the reply answers it, the song starts under the pending title
/// at the chosen bitrate; a stale reply changes nothing else.
pub fn on_song_url_reply(app: &mut App, id: u64, song_url: SongUrl, pending: &mut PendingRequests) -> (r: Option<PlayTrack>)
    ensures
        final(pending).song_url is None,
        *final(pending) == (PendingRequests { song_url: None, ..*old(pending) }),
        match old(pending).song_url {
            Some((p, title)) => if p == id {
                &&& r == Some(PlayTrack { id: song_url.id, br: old(app).play_br, url: song_url.url, title })
                &&& final(app).play_status@ == "开始播放..."@
                &&& *final(app) == (App {
                    play_status: final(app).play_status,
                    play_song_id: Some(song_url.id),
                    ..*old(app)
                })
            } else {
                r is None && *final(app) == *old(app)
            },
            None => r is None && *final(app) == *old(app),
        },
{
    let taken = pending.song_url.take();
    match taken {
        Some((p, title)) => {
            if p != id {
                return None;
            }
            app.play_status = "开始播放...".to_string();
            app.play_song_id = Some(song_url.id);
            Some(PlayTrack { id: song_url.id, br: app.play_br, url: song_url.url, title })
        },
        None => None,
    }
}

/// The text a failure shows: `错误: ` and the message.
pub open spec fn error_text(message: Seq<char>) -> Seq<char> {
    "错误: "@ + message
}

/// Shows a failure reported by the service on the status line of the page
/// in view.
pub fn on_service_error(app: &mut App, message: &str)
    ensures
        old(app).view == command::View::Login ==> final(app).login_status@ == error_text(message@)
            && *final(app) == (App { login_status: final(app).login_status, ..*old(app) }),
        old(app).view == command::View::Playlists ==> final(app).playlists_status@ == error_text(message@)
            && *final(app) == (App { playlists_status: final(app).playlists_status, ..*old(app) }),
        old(app).view == command::View::Search ==> final(app).search_status@ == error_text(message@)
            && *final(app) == (App { search_status: final(app).search_status, ..*old(app) }),
        old(app).view == command::View::Lyrics ==> final(app).lyrics_status@ == error_text(message@)
            && *final(app) == (App { lyrics_status: final(app).lyrics_status, ..*old(app) }),
        old(app).view == command::View::Settings ==> final(app).settings_status@ == error_text(message@)
            && *final(app) == (App { settings_status: final(app).settings_status, ..*old(app) }),
{
    let mut text = "错误: ".to_string();
    push_str(&mut text, message);
    match app.view {
        command::View::Login => app.login_status = text,
        command::View::Playlists => app.playlists_status = text,
        command::View::Search => app.search_status = text,
        command::View::Lyrics => app.lyrics_status = text,
        command::View::Settings => app.settings_status = text,
    }
}

// ---------------------------------------------------------------- player events

/// What the audio player reports.
#[derive(Debug)]
pub enum AudioEvent {
    NowPlaying { song_id: i64, play_id: u64, title: String, duration_ms: Option<u64> },
    Paused(bool),
    Stopped,
    CacheCleared { files: u64, bytes: u64 },
    Ended { play_id: u64 },
    Error(String),
}

/// What the loop does besides changing the state, after a player event.
#[derive(Debug)]
pub enum AudioReaction {
    /// Nothing more.
    Nothing,
    /// A song started: its clock starts, the volume is set again, and its
    /// lyrics are asked for with this command.
    Started { lyric: NeteaseCommand },
    /// Playback paused: the pause clock starts.
    Paused,
    /// Playback resumed.
    Resumed,
    /// Playback stopped: the clocks stop.
    Stopped,
    /// The current song ended: the next one is to play.
    PlayNext,
    /// A failed download is retried: the song's address is asked for again.
    Retry { song_url: NeteaseCommand },
}

/// The marker of an error that is worth retrying: the download failed.
pub open spec fn download_failed_marker() -> Seq<char> {
    "下载音频失败"@
}

/// The song at the queue position, where it is in range.
pub open spec fn queue_song(a: App) -> Option<Song> {
    match a.queue_pos {
        Some(p) => if p < a.queue@.len() {
            Some(a.queue@[p as int])
        } else {
            None
        },
        None => None,
    }
}

/// The song a retry asks for: the playing song, else the one at the queue
/// position.
pub open spec fn retry_song_id(a: App) -> Option<i64> {
    match a.play_song_id {
        Some(id) => Some(id),
        None => match queue_song(a) {
            Some(s) => Some(s.id),
            None => None,
        },
    }
}

/// The title a retry announces: the queue's song, else the playing title,
/// else `未知歌曲`.
pub open spec fn retry_title(a: App) -> Seq<char> {
    match queue_song(a) {
        Some(s) => song_title(s),
        None => match a.now_playing {
            Some(t) => t@,
            None => "未知歌曲"@,
        },
    }
}

/// The status after `n` failed downloads, while retrying.
pub open spec fn retry_status(n: u32) -> Seq<char> {
    "播放失败，正在重试("@ + dec_digits(n as nat) + "/2)..."@
}

/// The status after the cache was cleared.
pub open spec fn cache_cleared_status(files: u64, bytes: u64) -> Seq<char> {
    "已清除音频缓存："@ + dec_digits(files as nat) + " 个文件，释放 "@ + dec_digits(
        (bytes / 1024 / 1024) as nat,
    ) + " MB"@
}

fn queue_song_exec(app: &App) -> (r: Option<&Song>)
    ensures
        match queue_song(*app) {
            Some(s) => r == Some(&s),
            None => r is None,
        },
{
    match app.queue_pos {
        Some(p) => if p < app.queue.len() {
            Some(&app.queue[p])
        } else {
            None
        },
        None => None,
    }
}

/// Takes a player event.
///
/// A song that starts becomes the playing one, unpaused, with no pause time
/// and no failures; its lyrics are cleared and asked for under a fresh id,
/// which becomes the pending lyric request. A pause or resume shows as such;
/// on resuming, `resumed_after_ms` (how long the pause lasted, where one was
/// timed) is added to the pause time, saturating. A stop clears the playing
/// song. A cleared cache shows what it freed. The end of the playing song
/// (not of an earlier one) asks for the next. A failure shows its text; a
/// failed download is counted, and the first two are retried: the song's
/// address is asked for again under a fresh id, which becomes the pending
/// song request with the song's title.
pub fn on_audio_event(
    app: &mut App,
    evt: AudioEvent,
    resumed_after_ms: Option<u64>,
    req_id: &mut u64,
    pending: &mut PendingRequests,
) -> (r: AudioReaction)
    ensures
        match evt {
            AudioEvent::NowPlaying { song_id, play_id, title, duration_ms } => {
                &&& r == (AudioReaction::Started { lyric: NeteaseCommand::Lyric { req_id: *old(req_id), song_id } })
                &&& *final(req_id) == following_id(*old(req_id))
                &&& *final(pending) == (PendingRequests { lyric: Some((*old(req_id), song_id)), ..*old(pending) })
                &&& final(app).play_status@ == "播放中"@
                &&& final(app).lyrics@.len() == 0
                &&& final(app).lyrics_status@ == "加载歌词..."@
                &&& *final(app) == (App {
                    now_playing: Some(title),
                    paused: false,
                    play_status: final(app).play_status,
                    play_total_ms: duration_ms,
                    play_paused_accum_ms: 0,
                    play_id: Some(play_id),
                    play_song_id: Some(song_id),
                    play_error_count: 0,
                    lyrics_song_id: None,
                    lyrics: final(app).lyrics,
                    lyrics_status: final(app).lyrics_status,
                    ..*old(app)
                })
            },
            AudioEvent::Paused(p) => {
                &&& r == (if p { AudioReaction::Paused } else { AudioReaction::Resumed })
                &&& final(app).play_status@ == (if p { "已暂停"@ } else { "播放中"@ })
                &&& final(app).play_paused_accum_ms == (match resumed_after_ms {
                    Some(d) if !p => if old(app).play_paused_accum_ms + d > u64::MAX {
                        u64::MAX
                    } else {
                        (old(app).play_paused_accum_ms + d) as u64
                    },
                    _ => old(app).play_paused_accum_ms,
                })
                &&& *final(app) == (App {
                    paused: p,
                    play_status: final(app).play_status,
                    play_paused_accum_ms: final(app).play_paused_accum_ms,
                    ..*old(app)
                })
                &&& *final(req_id) == *old(req_id)
                &&& *final(pending) == *old(pending)
            },
            AudioEvent::Stopped => {
                &&& r is Stopped
                &&& final(app).play_status@ == "已停止"@
                &&& *final(app) == (App {
                    paused: false,
                    play_status: final(app).play_status,
                    play_total_ms: None,
                    play_paused_accum_ms: 0,
                    play_id: None,
                    play_song_id: None,
                    play_error_count: 0,
                    ..*old(app)
                })
                &&& *final(req_id) == *old(req_id)
                &&& *final(pending) == *old(pending)
            },
            AudioEvent::CacheCleared { files, bytes } => {
                &&& r is Nothing
                &&& final(app).settings_status@ == cache_cleared_status(files, bytes)
                &&& *final(app) == (App { settings_status: final(app).settings_status, ..*old(app) })
                &&& *final(req_id) == *old(req_id)
                &&& *final(pending) == *old(pending)
            },
            AudioEvent::Ended { play_id } => {
                &&& r == (if old(app).play_id == Some(play_id) { AudioReaction::PlayNext } else { AudioReaction::Nothing })
                &&& *final(app) == *old(app)
                &&& *final(req_id) == *old(req_id)
                &&& *final(pending) == *old(pending)
            },
            AudioEvent::Error(e) => {
                let retryable = contains_seq(e@, download_failed_marker());
                let count = if !retryable {
                    old(app).play_error_count
                } else if old(app).play_error_count == u32::MAX {
                    u32::MAX
                } else {
                    (old(app).play_error_count + 1) as u32
                };
                let retry = retryable && count <= 2 && retry_song_id(*old(app)) is Some;
                &&& final(app).play_error_count == count
                &&& retry ==> {
                    &&& r == (AudioReaction::Retry {
                        song_url: NeteaseCommand::SongUrl {
                            req_id: *old(req_id),
                            id: retry_song_id(*old(app)).unwrap(),
                            br: old(app).play_br,
                        },
                    })
                    &&& final(app).play_status@ == retry_status(count)
                    &&& *final(req_id) == following_id(*old(req_id))
                    &&& final(pending).song_url matches Some((q, t)) && q == *old(req_id) && t@
                        == retry_title(*old(app))
                    &&& *final(pending) == (PendingRequests { song_url: final(pending).song_url, ..*old(pending) })
                }
                &&& !retry ==> {
                    &&& r is Nothing
                    &&& final(app).play_status@ == "播放错误: "@ + e@
                    &&& *final(req_id) == *old(req_id)
                    &&& *final(pending) == *old(pending)
                }
                &&& *final(app) == (App {
                    play_status: final(app).play_status,
                    play_error_count: count,
                    ..*old(app)
                })
            },
        },
{
    match evt {
        AudioEvent::NowPlaying { song_id, play_id, title, duration_ms } => {
            app.now_playing = Some(title);
            app.paused = false;
            app.play_status = "播放中".to_string();
            app.play_total_ms = duration_ms;
            app.play_paused_accum_ms = 0;
            app.play_id = Some(play_id);
            app.play_song_id = Some(song_id);
            app.play_error_count = 0;
            app.lyrics_song_id = None;
            app.lyrics = Vec::new();
            app.lyrics_status = "加载歌词...".to_string();
            let id = next_id(req_id);
            pending.lyric = Some((id, song_id));
            AudioReaction::Started { lyric: NeteaseCommand::Lyric { req_id: id, song_id } }
        },
        AudioEvent::Paused(p) => {
            app.paused = p;
            app.play_status = if p {
                "已暂停".to_string()
            } else {
                "播放中".to_string()
            };
            if p {
                AudioReaction::Paused
            } else {
                if let Some(d) = resumed_after_ms {
                    app.play_paused_accum_ms = app.play_paused_accum_ms.saturating_add(d);
                }
                AudioReaction::Resumed
            }
        },
        AudioEvent::Stopped => {
            app.paused = false;
            app.play_status = "已停止".to_string();
            app.play_total_ms = None;
            app.play_paused_accum_ms = 0;
            app.play_id = None;
            app.play_song_id = None;
            app.play_error_count = 0;
            AudioReaction::Stopped
        },
        AudioEvent::CacheCleared { files, bytes } => {
            let mut st = "已清除音频缓存：".to_string();
            push_chars(&mut st, u64_dec_chars(files).as_slice());
            push_str(&mut st, " 个文件，释放 ");
            push_chars(&mut st, u64_dec_chars(bytes / 1024 / 1024).as_slice());
            push_str(&mut st, " MB");
            app.settings_status = st;
            AudioReaction::Nothing
        },
        AudioEvent::Ended { play_id } => {
            if app.play_id == Some(play_id) {
                AudioReaction::PlayNext
            } else {
                AudioReaction::Nothing
            }
        },
        AudioEvent::Error(e) => {
            let mut st = "播放错误: ".to_string();
            push_str(&mut st, e.as_str());
            app.play_status = st;
            let text = chars_of(e.as_str());
            let marker = chars_of("下载音频失败");
            if !contains_chars(text.as_slice(), marker.as_slice()) {
                return AudioReaction::Nothing;
            }
            app.play_error_count = app.play_error_count.saturating_add(1);
            if app.play_error_count > 2 {
                return AudioReaction::Nothing;
            }
            let song_id = match app.play_song_id {
                Some(id) => id,
                None => match queue_song_exec(app) {
                    Some(s) => s.id,
                    None => {
                        return AudioReaction::Nothing;
                    },
                },
            };
            let title = match queue_song_exec(app) {
                Some(s) => {
                    let mut t = s.name.clone();
                    push_str(&mut t, " - ");
                    push_str(&mut t, s.artists.as_str());
                    t
                },
                None => match &app.now_playing {
                    Some(t) => t.clone(),
                    None => "未知歌曲".to_string(),
                },
            };
            let mut st = "播放失败，正在重试(".to_string();
            push_chars(&mut st, u64_dec_chars(app.play_error_count as u64).as_slice());
            push_str(&mut st, "/2)...");
            app.play_status = st;
            let id = next_id(req_id);
            pending.song_url = Some((id, title));
            AudioReaction::Retry { song_url: NeteaseCommand::SongUrl { req_id: id, id: song_id, br: app.play_br } }
        },
    }
}

// ---------------------------------------------------------------- play mode

/// Switches to the next play mode, shows it, and outdates the prefetched
/// next song.
pub fn cycle_play_mode(app: &mut App, cache: &mut NextSongCacheManager)
    ensures
        final(app).play_mode == next_mode(old(app).play_mode),
        final(app).play_status@ == "播放模式: "@ + mode_label(final(app).play_mode),
        *final(app) == (App { play_mode: final(app).play_mode, play_status: final(app).play_status, ..*old(app) }),
        final(cache).pending_view() is None,
        final(cache).cached_view() is None,
{
    app.play_mode = next_play_mode(app.play_mode);
    let mut st = "播放模式: ".to_string();
    push_str(&mut st, play_mode_label(app.play_mode));
    app.play_status = st;
    cache.reset();
}

// ---------------------------------------------------------------- cookie login

/// Takes the reply to a cookie login: where it answers the pending one, it
/// is consumed; a success closes the cookie input, logs in, shows the
/// playlists page and asks for the account under a fresh id, which becomes
/// the pending account request; a failure shows `验证失败: ` and its text.
/// A stale reply changes nothing.
pub fn on_login_cookie_set(
    app: &mut App,
    id: u64,
    success: bool,
    message: String,
    req_id: &mut u64,
    pending: &mut PendingRequests,
) -> (r: Option<NeteaseCommand>)
    ensures
        old(pending).login_set_cookie != Some(id) ==> r is None && *final(app) == *old(app)
            && *final(req_id) == *old(req_id) && *final(pending) == *old(pending),
        old(pending).login_set_cookie == Some(id) && success ==> {
            &&& r == Some(NeteaseCommand::UserAccount { req_id: *old(req_id) })
            &&& *final(req_id) == following_id(*old(req_id))
            &&& *final(pending) == (PendingRequests {
                login_set_cookie: None,
                account: Some(*old(req_id)),
                ..*old(pending)
            })
            &&& final(app).login_cookie_input@.len() == 0
            &&& final(app).login_status == message
            &&& final(app).playlists_status@ == "登录成功，正在加载账号信息..."@
            &&& *final(app) == (App {
                login_cookie_input: final(app).login_cookie_input,
                login_cookie_input_visible: false,
                logged_in: true,
                login_status: final(app).login_status,
                view: command::View::Playlists,
                playlists_status: final(app).playlists_status,
                ..*old(app)
            })
        },
        old(pending).login_set_cookie == Some(id) && !success ==> {
            &&& r is None
            &&& *final(req_id) == *old(req_id)
            &&& *final(pending) == (PendingRequests { login_set_cookie: None, ..*old(pending) })
            &&& final(app).login_status@ == "验证失败: "@ + message@
            &&& *final(app) == (App { login_status: final(app).login_status, ..*old(app) })
        },
{
    if pending.login_set_cookie != Some(id) {
        return None;
    }
    pending.login_set_cookie = None;
    if success {
        app.login_cookie_input = String::new();
        app.login_cookie_input_visible = false;
        app.logged_in = true;
        app.login_status = message;
        app.view = command::View::Playlists;
        app.playlists_status = "登录成功，正在加载账号信息...".to_string();
        let next = next_id(req_id);
        pending.account = Some(next);
        Some(NeteaseCommand::UserAccount { req_id: next })
    } else {
        let mut st = "验证失败: ".to_string();
        push_str(&mut st, message.as_str());
        app.login_status = st;
        None
    }
}

/// Shows a message on the status line of the page in view.
pub fn show_status(app: &mut App, message: String)
    ensures
        old(app).view == command::View::Login ==> *final(app) == (App { login_status: message, ..*old(app) }),
        old(app).view == command::View::Playlists ==> *final(app) == (App { playlists_status: message, ..*old(app) }),
        old(app).view == command::View::Search ==> *final(app) == (App { search_status: message, ..*old(app) }),
        old(app).view == command::View::Lyrics ==> *final(app) == (App { lyrics_status: message, ..*old(app) }),
        old(app).view == command::View::Settings ==> *final(app) == (App { settings_status: message, ..*old(app) }),
{
    match app.view {
        command::View::Login => app.login_status = message,
        command::View::Playlists => app.playlists_status = message,
        command::View::Search => app.search_status = message,
        command::View::Lyrics => app.lyrics_status = message,
        command::View::Settings => app.settings_status = message,
    }
}

} // verus!
