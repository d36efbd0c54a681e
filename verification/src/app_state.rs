//! The application state that the actor keeps, and how the commands of the
//! login, search, playlists, lyrics and settings pages and the service's
//! replies change it.
use vstd::prelude::*;
use crate::command;
use crate::command::PlaylistMode;
use crate::model::{LyricLine, Playlist, Song, clone_songs};
use crate::netease_actor::NeteaseCommand;
use crate::play_mode::{PlayMode, mode_of_name, play_mode_from_string};
use crate::text::{
    chars_of, dec_digits, push_chars, push_str, signed_dec, string_from_chars, trim, trim_chars,
    u64_dec_chars, i64_dec_chars,
};
use crate::usecases::{
    PlaylistTracksLoad, liked_index, liked_playlist_index, list_status_text, next_id,
    playlist_list_status,
};

verus! {

/// The application state that the commands and replies below read and change.
#[derive(Debug, Clone)]
pub struct App {
    pub logged_in: bool,
    pub view: command::View,
    pub login_status: String,
    pub login_unikey: Option<String>,
    pub login_qr_url: Option<String>,
    pub login_qr_ascii: Option<String>,
    pub login_cookie_input_visible: bool,
    pub login_cookie_input: String,
    pub account_uid: Option<i64>,
    pub account_nickname: Option<String>,
    pub playlists: Vec<Playlist>,
    pub playlists_selected: usize,
    pub playlist_mode: PlaylistMode,
    pub playlist_tracks: Vec<Song>,
    pub playlist_tracks_selected: usize,
    pub playlists_status: String,
    pub preload_summary: String,
    pub search_input: String,
    pub search_results: Vec<Song>,
    pub search_selected: usize,
    pub search_status: String,
    pub queue: Vec<Song>,
    pub queue_pos: Option<usize>,
    pub now_playing: Option<String>,
    pub play_status: String,
    pub paused: bool,
    pub play_total_ms: Option<u64>,
    pub play_paused_accum_ms: u64,
    pub play_id: Option<u64>,
    pub play_song_id: Option<i64>,
    pub play_error_count: u32,
    pub play_br: i64,
    pub play_mode: PlayMode,
    pub lyrics_song_id: Option<i64>,
    pub lyrics: Vec<LyricLine>,
    pub lyrics_status: String,
    pub lyrics_follow: bool,
    pub lyrics_selected: usize,
    pub lyrics_offset_ms: i64,
    pub settings_selected: usize,
    pub settings_status: String,
}

/// The title a song is announced by: its name, ` - `, its artists.
pub open spec fn song_title(s: Song) -> Seq<char> {
    s.name@ + " - "@ + s.artists@
}

fn song_title_exec(s: &Song) -> (r: String)
    ensures
        r@ == song_title(*s),
{
    let mut t = s.name.clone();
    push_str(&mut t, " - ");
    push_str(&mut t, s.artists.as_str());
    t
}

/// Whether a selection points into a list (or is 0 for an empty one).
pub open spec fn selection_ok(sel: usize, len: nat) -> bool {
    sel == 0 || sel < len
}

impl App {
    /// Every selection points into its list.
    pub open spec fn selections_ok(&self) -> bool {
        &&& selection_ok(self.playlists_selected, self.playlists@.len())
        &&& selection_ok(self.playlist_tracks_selected, self.playlist_tracks@.len())
        &&& selection_ok(self.search_selected, self.search_results@.len())
        &&& selection_ok(self.lyrics_selected, self.lyrics@.len())
    }
}

impl App {
    /// The state at start-up: nobody logged in, on the login page with the
    /// login hint, every list empty, every page's first status, the highest
    /// bitrate, list loop, lyrics following with no offset.
    pub fn new() -> (r: Self)
        ensures
            logged_out(r),
            r.search_input@.len() == 0,
            !r.login_cookie_input_visible,
            r.login_cookie_input@.len() == 0,
            r.play_br == 999_000,
            r.play_mode == PlayMode::ListLoop,
            r.lyrics_offset_ms == 0,
            r.settings_selected == 0,
            r.settings_status@.len() == 0,
    {
        App {
            logged_in: false,
            view: command::View::Login,
            login_status: "按 l 生成二维码；q 退出；Tab 切换页面".to_string(),
            login_unikey: None,
            login_qr_url: None,
            login_qr_ascii: None,
            login_cookie_input_visible: false,
            login_cookie_input: String::new(),
            account_uid: None,
            account_nickname: None,
            playlists: Vec::new(),
            playlists_selected: 0,
            playlist_mode: PlaylistMode::List,
            playlist_tracks: Vec::new(),
            playlist_tracks_selected: 0,
            playlists_status: "等待登录后加载歌单".to_string(),
            preload_summary: String::new(),
            search_input: String::new(),
            search_results: Vec::new(),
            search_selected: 0,
            search_status: "输入关键词，回车搜索".to_string(),
            queue: Vec::new(),
            queue_pos: None,
            now_playing: None,
            play_status: "未播放".to_string(),
            paused: false,
            play_total_ms: None,
            play_paused_accum_ms: 0,
            play_id: None,
            play_song_id: None,
            play_error_count: 0,
            play_br: 999_000,
            play_mode: PlayMode::ListLoop,
            lyrics_song_id: None,
            lyrics: Vec::new(),
            lyrics_status: "暂无歌词".to_string(),
            lyrics_follow: true,
            lyrics_selected: 0,
            lyrics_offset_ms: 0,
            settings_selected: 0,
            settings_status: String::new(),
        }
    }
}

/// Takes the stored settings that the state keeps: the bitrate, the play
/// mode by its stored name, and the lyric offset.
pub fn apply_settings(app: &mut App, br: i64, play_mode: &str, lyrics_offset_ms: i64)
    ensures
        *final(app) == (App {
            play_br: br,
            play_mode: mode_of_name(play_mode@),
            lyrics_offset_ms,
            ..*old(app)
        }),
{
    app.play_br = br;
    app.play_mode = play_mode_from_string(play_mode);
    app.lyrics_offset_ms = lyrics_offset_ms;
}

// ---------------------------------------------------------------- search

/// Submits the search text: refuses an empty one (after trimming), otherwise
/// clears the results and asks for up to 30 songs matching the trimmed text,
/// under a fresh request id that becomes the pending search.
pub fn search_submit(app: &mut App, req_id: &mut u64, pending_search: &mut Option<u64>) -> (r: Option<NeteaseCommand>)
    ensures
        trim(old(app).search_input@).len() == 0 ==> r is None && final(app).search_status@
            == "请输入关键词"@ && final(app).search_results == old(app).search_results
            && final(app).search_selected == old(app).search_selected && *final(pending_search)
            == *old(pending_search) && *final(req_id) == *old(req_id),
        trim(old(app).search_input@).len() > 0 ==> {
            &&& r matches Some(NeteaseCommand::CloudSearchSongs { req_id: q, keywords, limit, offset })
                && q == *old(req_id) && keywords@ == trim(old(app).search_input@) && limit == 30
                && offset == 0
            &&& *final(pending_search) == Some(*old(req_id))
            &&& final(app).search_status@ == "搜索中..."@
            &&& final(app).search_results@.len() == 0
            &&& final(app).search_selected == 0
        },
        *final(app) == (App {
            search_status: final(app).search_status,
            search_results: final(app).search_results,
            search_selected: final(app).search_selected,
            ..*old(app)
        }),
{
    let input = chars_of(app.search_input.as_str());
    let q = trim_chars(input.as_slice());
    if q.len() == 0 {
        app.search_status = "请输入关键词".to_string();
        return None;
    }
    app.search_status = "搜索中...".to_string();
    app.search_results = Vec::new();
    app.search_selected = 0;
    let id = next_id(req_id);
    *pending_search = Some(id);
    Some(
        NeteaseCommand::CloudSearchSongs {
            req_id: id,
            keywords: string_from_chars(q.as_slice()),
            limit: 30,
            offset: 0,
        },
    )
}

/// Types a character into the search text.
pub fn search_input_char(app: &mut App, c: char)
    ensures
        final(app).search_input@ == old(app).search_input@.push(c),
        *final(app) == (App { search_input: final(app).search_input, ..*old(app) }),
{
    crate::text::push_char(&mut app.search_input, c);
}

/// Deletes the last character of the search text, if any.
pub fn search_input_backspace(app: &mut App)
    ensures
        final(app).search_input@ == (if old(app).search_input@.len() > 0 {
            old(app).search_input@.drop_last()
        } else {
            old(app).search_input@
        }),
        *final(app) == (App { search_input: final(app).search_input, ..*old(app) }),
{
    let cs = chars_of(app.search_input.as_str());
    if cs.len() > 0 {
        let kept = crate::text::slice_to_vec(cs.as_slice(), 0, cs.len() - 1);
        app.search_input = string_from_chars(kept.as_slice());
        assert(kept@ =~= old(app).search_input@.drop_last());
    }
}

/// The selection one up, stopping at the top.
pub open spec fn moved_up(sel: usize) -> usize {
    if sel > 0 {
        (sel - 1) as usize
    } else {
        sel
    }
}

/// The selection one down, stopping at the last item.
pub open spec fn moved_down(sel: usize, len: nat) -> usize {
    if len > 0 && sel + 1 < len {
        (sel + 1) as usize
    } else {
        sel
    }
}

fn move_down_exec(sel: usize, len: usize) -> (r: usize)
    ensures
        r == moved_down(sel, len as nat),
{
    if len > 0 && sel < len - 1 {
        sel + 1
    } else {
        sel
    }
}

/// Moves the search selection up.
pub fn search_move_up(app: &mut App)
    ensures
        *final(app) == (App { search_selected: moved_up(old(app).search_selected), ..*old(app) }),
{
    if app.search_selected > 0 {
        app.search_selected = app.search_selected - 1;
    }
}

/// Moves the search selection down.
pub fn search_move_down(app: &mut App)
    ensures
        *final(app) == (App {
            search_selected: moved_down(old(app).search_selected, old(app).search_results@.len()),
            ..*old(app)
        }),
{
    app.search_selected = move_down_exec(app.search_selected, app.search_results.len());
}

/// Plays the selected search result (the player stops first): clears the
/// queue and asks for the song's address at the current bitrate; the request
/// id and the song's title become the pending address request.
pub fn search_play_selected(app: &mut App, req_id: &mut u64, pending_song_url: &mut Option<(u64, String)>) -> (r: Option<NeteaseCommand>)
    ensures
        old(app).search_selected >= old(app).search_results@.len() ==> r is None && *final(req_id)
            == *old(req_id) && final(app).queue == old(app).queue,
        old(app).search_selected < old(app).search_results@.len() ==> {
            let s = old(app).search_results@[old(app).search_selected as int];
            &&& r == Some(NeteaseCommand::SongUrl { req_id: *old(req_id), id: s.id, br: old(app).play_br })
            &&& *final(pending_song_url) matches Some((q, title)) && q == *old(req_id) && title@
                == song_title(s)
            &&& final(app).play_status@ == "获取播放链接..."@
            &&& final(app).queue@.len() == 0
            &&& final(app).queue_pos is None
        },
        *final(app) == (App {
            play_status: final(app).play_status,
            queue: final(app).queue,
            queue_pos: final(app).queue_pos,
            ..*old(app)
        }),
{
    if app.search_selected >= app.search_results.len() {
        return None;
    }
    let s = app.search_results[app.search_selected].clone();
    app.play_status = "获取播放链接...".to_string();
    app.queue = Vec::new();
    app.queue_pos = None;
    let title = song_title_exec(&s);
    let id = next_id(req_id);
    *pending_song_url = Some((id, title));
    Some(NeteaseCommand::SongUrl { req_id: id, id: s.id, br: app.play_br })
}

/// Takes the songs of a search reply; a reply to another request is ignored.
pub fn on_search_songs(app: &mut App, req_id: u64, songs: &Vec<Song>, pending_search: &mut Option<u64>) -> (r: bool)
    ensures
        r == (*old(pending_search) == Some(req_id)),
        !r ==> *final(app) == *old(app) && *final(pending_search) == *old(pending_search),
        r ==> {
            &&& *final(pending_search) is None
            &&& final(app).search_results@ == songs@
            &&& final(app).search_selected == 0
            &&& final(app).search_status@ == "结果: "@ + dec_digits(songs@.len()) + " 首"@
            &&& *final(app) == (App {
                search_results: final(app).search_results,
                search_selected: 0,
                search_status: final(app).search_status,
                ..*old(app)
            })
        },
{
    if *pending_search != Some(req_id) {
        return false;
    }
    *pending_search = None;
    app.search_results = clone_songs(songs);
    app.search_selected = 0;
    let mut st = "结果: ".to_string();
    push_chars(&mut st, u64_dec_chars(songs.len() as u64).as_slice());
    push_str(&mut st, " 首");
    app.search_status = st;
    true
}

// ---------------------------------------------------------------- lyrics

/// Switches between following the playing line and scrolling by hand (on the lyrics page).
pub fn lyrics_toggle_follow(app: &mut App)
    ensures
        old(app).view == command::View::Lyrics ==> final(app).lyrics_follow == !old(app).lyrics_follow && final(app).lyrics_status@ == (if final(app).lyrics_follow {
            "歌词：跟随模式"@
        } else {
            "歌词：锁定模式（↑↓滚动，g 回到当前行）"@
        }),
        *final(app) == (App {
            lyrics_follow: final(app).lyrics_follow,
            lyrics_status: final(app).lyrics_status,
            ..*old(app)
        }),
        old(app).view != command::View::Lyrics ==> *final(app) == *old(app),
{
    if app.view == command::View::Lyrics {
        app.lyrics_follow = !app.lyrics_follow;
        if app.lyrics_follow {
            app.lyrics_status = "歌词：跟随模式".to_string();
        } else {
            app.lyrics_status = "歌词：锁定模式（↑↓滚动，g 回到当前行）".to_string();
        }
    }
}

/// Scrolls the lyrics up, when scrolling by hand on the lyrics page.
pub fn lyrics_move_up(app: &mut App)
    ensures
        final(app).lyrics_selected == (if old(app).view == command::View::Lyrics && !old(app).lyrics_follow {
            moved_up(old(app).lyrics_selected)
        } else {
            old(app).lyrics_selected
        }),
        *final(app) == (App { lyrics_selected: final(app).lyrics_selected, ..*old(app) }),
{
    if app.view == command::View::Lyrics && !app.lyrics_follow && app.lyrics_selected > 0 {
        app.lyrics_selected = app.lyrics_selected - 1;
    }
}

/// Scrolls the lyrics down, when scrolling by hand on the lyrics page.
pub fn lyrics_move_down(app: &mut App)
    ensures
        final(app).lyrics_selected == (if old(app).view == command::View::Lyrics && !old(app).lyrics_follow {
            moved_down(old(app).lyrics_selected, old(app).lyrics@.len())
        } else {
            old(app).lyrics_selected
        }),
        *final(app) == (App { lyrics_selected: final(app).lyrics_selected, ..*old(app) }),
{
    if app.view == command::View::Lyrics && !app.lyrics_follow {
        app.lyrics_selected = move_down_exec(app.lyrics_selected, app.lyrics.len());
    }
}

/// Goes back to following the playing line (on the lyrics page).
pub fn lyrics_goto_current(app: &mut App)
    ensures
        old(app).view == command::View::Lyrics ==> *final(app) == (App {
            lyrics_follow: true,
            lyrics_status: final(app).lyrics_status,
            ..*old(app)
        }) && final(app).lyrics_status@ == "歌词：跟随模式"@,
        old(app).view != command::View::Lyrics ==> *final(app) == *old(app),
{
    if app.view == command::View::Lyrics {
        app.lyrics_follow = true;
        app.lyrics_status = "歌词：跟随模式".to_string();
    }
}

/// Moves the lyrics offset (on the lyrics page), saturating.
pub fn lyrics_offset_add(app: &mut App, ms: i64)
    ensures
        final(app).lyrics_offset_ms == (if old(app).view == command::View::Lyrics {
            crate::usecases::sat_add_i64(old(app).lyrics_offset_ms, ms)
        } else {
            old(app).lyrics_offset_ms
        }),
        *final(app) == (App { lyrics_offset_ms: final(app).lyrics_offset_ms, ..*old(app) }),
{
    if app.view == command::View::Lyrics {
        app.lyrics_offset_ms = crate::usecases::saturating_add_i64(app.lyrics_offset_ms, ms);
    }
}

fn clone_lyrics(v: &Vec<LyricLine>) -> (r: Vec<LyricLine>)
    ensures
        r@ == v@,
{
    let mut out: Vec<LyricLine> = Vec::new();
    let mut i: usize = 0;
    while i < v.len()
        invariant
            i <= v@.len(),
            out@ == v@.take(i as int),
        decreases v.len() - i,
    {
        out.push(v[i].clone());
        i += 1;
        assert(v@.take(i as int) == v@.take(i - 1).push(v@[i - 1]));
    }
    assert(v@.take(v@.len() as int) == v@);
    out
}

/// Takes the lyrics of a song; a reply to another request is ignored.
pub fn on_lyric(app: &mut App, req_id: u64, song_id: i64, lyrics: &Vec<LyricLine>, pending_lyric: &mut Option<(u64, i64)>) -> (r: bool)
    ensures
        r == (*old(pending_lyric) matches Some(p) && p.0 == req_id),
        !r ==> *final(app) == *old(app) && *final(pending_lyric) == *old(pending_lyric),
        r ==> {
            &&& *final(pending_lyric) is None
            &&& final(app).lyrics_song_id == Some(song_id)
            &&& final(app).lyrics@ == lyrics@
            &&& final(app).lyrics_selected == 0
            &&& final(app).lyrics_status@ == (if lyrics@.len() == 0 {
                "暂无歌词"@
            } else {
                "歌词: "@ + dec_digits(lyrics@.len()) + " 行"@
            })
            &&& *final(app) == (App {
                lyrics_song_id: Some(song_id),
                lyrics: final(app).lyrics,
                lyrics_selected: 0,
                lyrics_status: final(app).lyrics_status,
                ..*old(app)
            })
        },
{
    let matches_pending = match pending_lyric {
        Some((rid, _)) => *rid == req_id,
        None => false,
    };
    if !matches_pending {
        return false;
    }
    *pending_lyric = None;
    app.lyrics_song_id = Some(song_id);
    app.lyrics = clone_lyrics(lyrics);
    app.lyrics_selected = 0;
    if lyrics.len() == 0 {
        app.lyrics_status = "暂无歌词".to_string();
    } else {
        let mut st = "歌词: ".to_string();
        push_chars(&mut st, u64_dec_chars(lyrics.len() as u64).as_slice());
        push_str(&mut st, " 行");
        app.lyrics_status = st;
    }
    true
}

// ---------------------------------------------------------------- login

/// Asks for a QR login key, unless already logged in.
pub fn login_generate_qr(app: &mut App, req_id: &mut u64, pending_login_qr_key: &mut Option<u64>) -> (r: Option<NeteaseCommand>)
    ensures
        old(app).logged_in ==> r is None && *final(app) == *old(app) && *final(req_id) == *old(req_id),
        !old(app).logged_in ==> r == Some(NeteaseCommand::LoginQrKey { req_id: *old(req_id) })
            && *final(pending_login_qr_key) == Some(*old(req_id)) && final(app).login_status@
            == "正在生成二维码..."@,
        *final(app) == (App { login_status: final(app).login_status, ..*old(app) }),
{
    if app.logged_in {
        return None;
    }
    app.login_status = "正在生成二维码...".to_string();
    let id = next_id(req_id);
    *pending_login_qr_key = Some(id);
    Some(NeteaseCommand::LoginQrKey { req_id: id })
}

/// Opens or closes the cookie input, clearing it.
pub fn login_toggle_cookie_input(app: &mut App)
    ensures
        final(app).login_cookie_input_visible == !old(app).login_cookie_input_visible,
        final(app).login_cookie_input@.len() == 0,
        final(app).login_status@ == (if final(app).login_cookie_input_visible {
            "Cookie 输入模式：输入 MUSIC_U 值"@
        } else {
            "按 l 生成二维码；按 c 切换到 Cookie 登录"@
        }),
        *final(app) == (App {
            login_cookie_input_visible: final(app).login_cookie_input_visible,
            login_cookie_input: final(app).login_cookie_input,
            login_status: final(app).login_status,
            ..*old(app)
        }),
{
    app.login_cookie_input_visible = !app.login_cookie_input_visible;
    app.login_cookie_input = String::new();
    if app.login_cookie_input_visible {
        app.login_status = "Cookie 输入模式：输入 MUSIC_U 值".to_string();
    } else {
        app.login_status = "按 l 生成二维码；按 c 切换到 Cookie 登录".to_string();
    }
}

/// Types a character into the cookie input.
pub fn login_cookie_input_char(app: &mut App, c: char)
    ensures
        final(app).login_cookie_input@ == old(app).login_cookie_input@.push(c),
        *final(app) == (App { login_cookie_input: final(app).login_cookie_input, ..*old(app) }),
{
    crate::text::push_char(&mut app.login_cookie_input, c);
}

/// Deletes the last character of the cookie input, if any.
pub fn login_cookie_input_backspace(app: &mut App)
    ensures
        final(app).login_cookie_input@ == (if old(app).login_cookie_input@.len() > 0 {
            old(app).login_cookie_input@.drop_last()
        } else {
            old(app).login_cookie_input@
        }),
        *final(app) == (App { login_cookie_input: final(app).login_cookie_input, ..*old(app) }),
{
    let cs = chars_of(app.login_cookie_input.as_str());
    if cs.len() > 0 {
        let kept = crate::text::slice_to_vec(cs.as_slice(), 0, cs.len() - 1);
        app.login_cookie_input = string_from_chars(kept.as_slice());
        assert(kept@ =~= old(app).login_cookie_input@.drop_last());
    }
}

/// Submits the cookie input: refuses an empty one (after trimming),
/// otherwise hands out a request id for checking the trimmed cookie, which
/// becomes the pending cookie check.
pub fn login_cookie_submit(app: &mut App, req_id: &mut u64, pending_login_set_cookie: &mut Option<u64>) -> (r: Option<(u64, String)>)
    ensures
        trim(old(app).login_cookie_input@).len() == 0 ==> r is None && final(app).login_status@
            == "请输入 MUSIC_U 值"@ && *final(req_id) == *old(req_id),
        trim(old(app).login_cookie_input@).len() > 0 ==> (r matches Some((q, music_u)) && q
            == *old(req_id) && music_u@ == trim(old(app).login_cookie_input@)
            && *final(pending_login_set_cookie) == Some(q) && final(app).login_status@
            == "正在验证 Cookie..."@),
        *final(app) == (App { login_status: final(app).login_status, ..*old(app) }),
{
    let input = chars_of(app.login_cookie_input.as_str());
    let v = trim_chars(input.as_slice());
    if v.len() == 0 {
        app.login_status = "请输入 MUSIC_U 值".to_string();
        return None;
    }
    app.login_status = "正在验证 Cookie...".to_string();
    let id = next_id(req_id);
    *pending_login_set_cookie = Some(id);
    Some((id, string_from_chars(v.as_slice())))
}

/// The QR code drawn as text, or none where the data does not fit a QR code.
pub uninterp spec fn qr_dense_text(data: Seq<u8>) -> Option<Seq<char>>;

/// Builds a QR code with qrcode's `QrCode::new` and renders it with the
/// `Dense1x2` unicode renderer and a quiet zone; the contract claims that the
/// outcome depends on the data alone.
#[verifier::external_body]
fn qr_render(data: &[u8]) -> (r: Option<String>)
    ensures
        match r {
            Some(s) => qr_dense_text(data@) == Some(s@),
            None => qr_dense_text(data@) is None,
        },
{
    match qrcode::QrCode::new(data) {
        Ok(code) => Some(code.render::<qrcode::render::unicode::Dense1x2>().quiet_zone(true).build()),
        Err(_) => None,
    }
}

/// The QR code of a URL as text; an error notice where it cannot be made.
pub fn render_qr_ascii(url: &str) -> (r: String)
    ensures
        r@ == match qr_dense_text(vstd::utf8::encode_utf8(url@)) {
            Some(t) => t,
            None => "二维码生成失败"@,
        },
{
    match qr_render(url.as_bytes()) {
        Some(s) => s,
        None => "二维码生成失败".to_string(),
    }
}

/// Takes a QR login key: shows its URL and QR code; a reply to another
/// request is ignored.
pub fn on_login_qr_key(app: &mut App, req_id: u64, unikey: &str, pending_login_qr_key: &mut Option<u64>) -> (r: bool)
    ensures
        r == (*old(pending_login_qr_key) == Some(req_id)),
        !r ==> *final(app) == *old(app),
        r ==> {
            let url = "https://music.163.com/login?codekey="@ + unikey@;
            &&& *final(pending_login_qr_key) is None
            &&& final(app).login_unikey matches Some(k) && k@ == unikey@
            &&& final(app).login_qr_url matches Some(u) && u@ == url
            &&& final(app).login_qr_ascii matches Some(a) && a@ == match qr_dense_text(
                vstd::utf8::encode_utf8(url),
            ) {
                Some(t) => t,
                None => "二维码生成失败"@,
            }
            &&& final(app).login_status@ == "请用网易云 APP 扫码；扫码后会自动轮询状态"@
            &&& !final(app).logged_in
            &&& *final(app) == (App {
                login_unikey: final(app).login_unikey,
                login_qr_url: final(app).login_qr_url,
                login_qr_ascii: final(app).login_qr_ascii,
                login_status: final(app).login_status,
                logged_in: false,
                ..*old(app)
            })
        },
{
    if *pending_login_qr_key != Some(req_id) {
        return false;
    }
    *pending_login_qr_key = None;
    app.login_unikey = Some(unikey.to_string());
    let mut url = "https://music.163.com/login?codekey=".to_string();
    push_str(&mut url, unikey);
    let ascii = render_qr_ascii(url.as_str());
    app.login_qr_url = Some(url);
    app.login_qr_ascii = Some(ascii);
    app.login_status = "请用网易云 APP 扫码；扫码后会自动轮询状态".to_string();
    app.logged_in = false;
    true
}

/// Takes the state of a QR login: on success, logs in, shows the playlists and
/// asks for the account; otherwise shows the code and message. A reply to
/// another request is ignored.
pub fn on_login_qr_status(
    app: &mut App,
    req_id: u64,
    logged_in: bool,
    code: i64,
    message: &str,
    next_req: &mut u64,
    pending_login_poll: &Option<u64>,
    pending_account: &mut Option<u64>,
) -> (r: (bool, Option<NeteaseCommand>))
    ensures
        r.0 == (*pending_login_poll == Some(req_id)),
        !r.0 ==> *final(app) == *old(app) && r.1 is None,
        r.0 && logged_in ==> {
            &&& final(app).logged_in
            &&& final(app).login_status@ == "登录成功"@
            &&& final(app).view == command::View::Playlists
            &&& final(app).playlists_status@ == "登录成功，正在加载账号信息..."@
            &&& r.1 == Some(NeteaseCommand::UserAccount { req_id: *old(next_req) })
            &&& *final(pending_account) == Some(*old(next_req))
        },
        r.0 && !logged_in ==> r.1 is None && final(app).login_status@ == "扫码状态 code="@
            + signed_dec(code as int) + " "@ + message@,
        *final(app) == (App {
            logged_in: final(app).logged_in,
            login_status: final(app).login_status,
            view: final(app).view,
            playlists_status: final(app).playlists_status,
            ..*old(app)
        }),
        !logged_in ==> final(app).logged_in == old(app).logged_in && final(app).view == old(app).view && final(app).playlists_status == old(app).playlists_status,
        r.0 && logged_in ==> *final(next_req) == crate::usecases::bumped(*old(next_req)),
        !(r.0 && logged_in) ==> *final(next_req) == *old(next_req) && *final(pending_account)
            == *old(pending_account),
{
    if *pending_login_poll != Some(req_id) {
        return (false, None);
    }
    if logged_in {
        app.logged_in = true;
        app.login_status = "登录成功".to_string();
        app.view = command::View::Playlists;
        app.playlists_status = "登录成功，正在加载账号信息...".to_string();
        let id = next_id(next_req);
        *pending_account = Some(id);
        (true, Some(NeteaseCommand::UserAccount { req_id: id }))
    } else {
        let mut st = "扫码状态 code=".to_string();
        push_chars(&mut st, i64_dec_chars(code).as_slice());
        push_str(&mut st, " ");
        push_str(&mut st, message);
        app.login_status = st;
        (true, None)
    }
}

/// Takes the client's readiness: a restored login shows the playlists and
/// asks for the account; otherwise the login hint shows.
pub fn on_client_ready(app: &mut App, logged_in: bool, next_req: &mut u64, pending_account: &mut Option<u64>) -> (r: Option<NeteaseCommand>)
    ensures
        final(app).logged_in == logged_in,
        logged_in ==> final(app).view == command::View::Playlists && final(app).playlists_status@
            == "已登录（已从本地状态恢复），正在加载账号信息..."@ && r == Some(
            NeteaseCommand::UserAccount { req_id: *old(next_req) },
        ) && *final(pending_account) == Some(*old(next_req)),
        !logged_in ==> r is None && final(app).login_status@ == "按 l 生成二维码；q 退出；Tab 切换页面"@
            && final(app).view == old(app).view && final(app).playlists_status == old(app).playlists_status,
        logged_in ==> final(app).login_status == old(app).login_status,
        *final(app) == (App {
            logged_in,
            login_status: final(app).login_status,
            view: final(app).view,
            playlists_status: final(app).playlists_status,
            ..*old(app)
        }),
        logged_in ==> *final(next_req) == crate::usecases::bumped(*old(next_req)),
        !logged_in ==> *final(next_req) == *old(next_req) && *final(pending_account) == *old(pending_account),
{
    app.logged_in = logged_in;
    if logged_in {
        app.view = command::View::Playlists;
        app.playlists_status = "已登录（已从本地状态恢复），正在加载账号信息...".to_string();
        let id = next_id(next_req);
        *pending_account = Some(id);
        Some(NeteaseCommand::UserAccount { req_id: id })
    } else {
        app.login_status = "按 l 生成二维码；q 退出；Tab 切换页面".to_string();
        None
    }
}

// ---------------------------------------------------------------- playlists

/// Moves the playlist selection up.
pub fn playlists_move_up(app: &mut App)
    ensures
        *final(app) == (App { playlists_selected: moved_up(old(app).playlists_selected), ..*old(app) }),
{
    if app.playlists_selected > 0 {
        app.playlists_selected = app.playlists_selected - 1;
    }
}

/// Moves the playlist selection down.
pub fn playlists_move_down(app: &mut App)
    ensures
        *final(app) == (App {
            playlists_selected: moved_down(old(app).playlists_selected, old(app).playlists@.len()),
            ..*old(app)
        }),
{
    app.playlists_selected = move_down_exec(app.playlists_selected, app.playlists.len());
}

/// Moves the track selection up.
pub fn playlist_tracks_move_up(app: &mut App)
    ensures
        *final(app) == (App {
            playlist_tracks_selected: moved_up(old(app).playlist_tracks_selected),
            ..*old(app)
        }),
{
    if app.playlist_tracks_selected > 0 {
        app.playlist_tracks_selected = app.playlist_tracks_selected - 1;
    }
}

/// Moves the track selection down.
pub fn playlist_tracks_move_down(app: &mut App)
    ensures
        *final(app) == (App {
            playlist_tracks_selected: moved_down(
                old(app).playlist_tracks_selected,
                old(app).playlist_tracks@.len(),
            ),
            ..*old(app)
        }),
{
    app.playlist_tracks_selected = move_down_exec(
        app.playlist_tracks_selected,
        app.playlist_tracks.len(),
    );
}

/// Opens the selected playlist (in the list): asks for its track ids under
/// a fresh request id, which becomes the pending detail request.
pub fn playlists_open_selected(
    app: &mut App,
    req_id: &mut u64,
    pending_playlist_detail: &mut Option<u64>,
    pending_playlist_tracks: &mut Option<PlaylistTracksLoad>,
) -> (r: Option<NeteaseCommand>)
    ensures
        !(old(app).playlist_mode == PlaylistMode::List && old(app).playlists_selected < old(app).playlists@.len()) ==> r is None && *final(app) == *old(app) && *final(req_id) == *old(req_id),
        old(app).playlist_mode == PlaylistMode::List && old(app).playlists_selected < old(app).playlists@.len() ==> {
            &&& r == Some(
                NeteaseCommand::PlaylistDetail {
                    req_id: *old(req_id),
                    playlist_id: old(app).playlists@[old(app).playlists_selected as int].id,
                },
            )
            &&& *final(pending_playlist_detail) == Some(*old(req_id))
            &&& *final(pending_playlist_tracks) is None
            &&& final(app).playlists_status@ == "加载歌单歌曲中..."@
            &&& *final(app) == (App { playlists_status: final(app).playlists_status, ..*old(app) })
        },
{
    if app.playlist_mode != PlaylistMode::List || app.playlists_selected >= app.playlists.len() {
        return None;
    }
    let playlist_id = app.playlists[app.playlists_selected].id;
    app.playlists_status = "加载歌单歌曲中...".to_string();
    *pending_playlist_tracks = None;
    let id = next_id(req_id);
    *pending_playlist_detail = Some(id);
    Some(NeteaseCommand::PlaylistDetail { req_id: id, playlist_id })
}

/// Plays the selected track (in track mode): the tracks become the queue at
/// the selected position, and the song's address is asked for at the current
/// bitrate; the request id and the title become the pending address request.
pub fn playlist_tracks_play_selected(app: &mut App, req_id: &mut u64, pending_song_url: &mut Option<(u64, String)>) -> (r: Option<NeteaseCommand>)
    ensures
        !(old(app).playlist_mode == PlaylistMode::Tracks && old(app).playlist_tracks_selected < old(app).playlist_tracks@.len()) ==> r is None && *final(app) == *old(app) && *final(req_id)
            == *old(req_id),
        old(app).playlist_mode == PlaylistMode::Tracks && old(app).playlist_tracks_selected < old(app).playlist_tracks@.len() ==> {
            let s = old(app).playlist_tracks@[old(app).playlist_tracks_selected as int];
            &&& r == Some(NeteaseCommand::SongUrl { req_id: *old(req_id), id: s.id, br: old(app).play_br })
            &&& *final(pending_song_url) matches Some((q, title)) && q == *old(req_id) && title@
                == song_title(s)
            &&& final(app).queue@ == old(app).playlist_tracks@
            &&& final(app).queue_pos == Some(old(app).playlist_tracks_selected)
            &&& final(app).play_status@ == "获取播放链接..."@
            &&& *final(app) == (App {
                play_status: final(app).play_status,
                queue: final(app).queue,
                queue_pos: final(app).queue_pos,
                ..*old(app)
            })
        },
{
    if app.playlist_mode != PlaylistMode::Tracks || app.playlist_tracks_selected
        >= app.playlist_tracks.len() {
        return None;
    }
    let s = app.playlist_tracks[app.playlist_tracks_selected].clone();
    app.play_status = "获取播放链接...".to_string();
    app.queue = clone_songs(&app.playlist_tracks);
    app.queue_pos = Some(app.playlist_tracks_selected);
    let title = song_title_exec(&s);
    let id = next_id(req_id);
    *pending_song_url = Some((id, title));
    Some(NeteaseCommand::SongUrl { req_id: id, id: s.id, br: app.play_br })
}

/// Refreshes the status line of the playlist list (on the playlists page, in list mode).
pub fn refresh_playlist_list_status(app: &mut App)
    ensures
        old(app).view == command::View::Playlists && old(app).playlist_mode == PlaylistMode::List
            ==> final(app).playlists_status@ == list_status_text(
            old(app).playlists@.len() as usize,
            old(app).preload_summary@,
        ),
        !(old(app).view == command::View::Playlists && old(app).playlist_mode
            == PlaylistMode::List) ==> *final(app) == *old(app),
        *final(app) == (App { playlists_status: final(app).playlists_status, ..*old(app) }),
{
    if app.view == command::View::Playlists && app.playlist_mode == PlaylistMode::List {
        app.playlists_status = playlist_list_status(app.playlists.len(), app.preload_summary.as_str());
    }
}

/// Goes back from the tracks to the playlist list (on the playlists page),
/// dropping any pending load.
pub fn playlists_back(
    app: &mut App,
    pending_playlist_detail: &mut Option<u64>,
    pending_playlist_tracks: &mut Option<PlaylistTracksLoad>,
) -> (r: bool)
    ensures
        r == (old(app).view == command::View::Playlists),
        !r ==> *final(app) == *old(app),
        r ==> final(app).playlist_mode == PlaylistMode::List && *final(pending_playlist_detail)
            is None && *final(pending_playlist_tracks) is None && final(app).playlists_status@
            == list_status_text(old(app).playlists@.len() as usize, old(app).preload_summary@)
            && *final(app) == (App {
            playlist_mode: PlaylistMode::List,
            playlists_status: final(app).playlists_status,
            ..*old(app)
        }),
{
    if app.view == command::View::Playlists {
        app.playlist_mode = PlaylistMode::List;
        *pending_playlist_detail = None;
        *pending_playlist_tracks = None;
        refresh_playlist_list_status(app);
        true
    } else {
        false
    }
}

fn clone_playlists(v: &Vec<Playlist>) -> (r: Vec<Playlist>)
    ensures
        r@ == v@,
{
    let mut out: Vec<Playlist> = Vec::new();
    let mut i: usize = 0;
    while i < v.len()
        invariant
            i <= v@.len(),
            out@ == v@.take(i as int),
        decreases v.len() - i,
    {
        out.push(v[i].clone());
        i += 1;
        assert(v@.take(i as int) == v@.take(i - 1).push(v@[i - 1]));
    }
    assert(v@.take(v@.len() as int) == v@);
    out
}

/// Takes the user's playlists: selects the liked-songs one, shows the list,
/// and forgets the tracks. A reply to another request is ignored.
pub fn on_playlists(app: &mut App, req_id: u64, playlists: &Vec<Playlist>, pending_playlists: &mut Option<u64>) -> (r: bool)
    ensures
        r == (*old(pending_playlists) == Some(req_id)),
        !r ==> *final(app) == *old(app),
        r ==> {
            &&& *final(pending_playlists) is None
            &&& final(app).playlists@ == playlists@
            &&& final(app).playlists_selected == liked_index(playlists@)
            &&& final(app).playlist_mode == PlaylistMode::List
            &&& final(app).playlist_tracks@.len() == 0
            &&& final(app).playlist_tracks_selected == 0
            &&& old(app).view == command::View::Playlists ==> final(app).playlists_status@
                == list_status_text(playlists@.len() as usize, old(app).preload_summary@)
            &&& old(app).view != command::View::Playlists ==> final(app).playlists_status == old(app).playlists_status
            &&& *final(app) == (App {
                playlists: final(app).playlists,
                playlists_selected: final(app).playlists_selected,
                playlist_mode: PlaylistMode::List,
                playlist_tracks: final(app).playlist_tracks,
                playlist_tracks_selected: 0,
                playlists_status: final(app).playlists_status,
                ..*old(app)
            })
        },
{
    if *pending_playlists != Some(req_id) {
        return false;
    }
    *pending_playlists = None;
    app.playlists = clone_playlists(playlists);
    app.playlists_selected = liked_playlist_index(&app.playlists);
    app.playlist_mode = PlaylistMode::List;
    app.playlist_tracks = Vec::new();
    app.playlist_tracks_selected = 0;
    refresh_playlist_list_status(app);
    true
}

/// Takes a playlist's track ids: an empty list is reported; otherwise the
/// load starts with the first chunk, under a fresh request id. `None` for a
/// reply to another request.
pub fn on_playlist_detail(
    app: &mut App,
    req_id: u64,
    playlist_id: i64,
    ids: Vec<i64>,
    next_req: &mut u64,
    pending_playlist_detail: &mut Option<u64>,
    pending_playlist_tracks: &mut Option<PlaylistTracksLoad>,
) -> (r: Option<Option<NeteaseCommand>>)
    ensures
        *old(pending_playlist_detail) != Some(req_id) ==> r is None && *final(app) == *old(app),
        *old(pending_playlist_detail) == Some(req_id) && ids@.len() == 0 ==> r == Some(
            None::<NeteaseCommand>,
        ) && *final(pending_playlist_detail) is None && final(app).playlists_status@
            == "歌单为空或无法解析"@,
        *old(pending_playlist_detail) == Some(req_id) && ids@.len() > 0 ==> {
            &&& *final(pending_playlist_detail) is None
            &&& r matches Some(Some(NeteaseCommand::SongDetailByIds { req_id: q, ids: chunk }))
                && q == *old(next_req) && crate::usecases::chunks_from(ids@, 0)[0] == chunk@
            &&& *final(pending_playlist_tracks) matches Some(l) && l.playlist_id == playlist_id
                && l.ids@ == ids@ && l.inflight_req_id == Some(*old(next_req)) && l.songs@.len()
                == 0
            &&& final(app).playlists_status@ == "加载歌单歌曲中... 0/"@ + dec_digits(ids@.len())
        },
        *final(app) == (App { playlists_status: final(app).playlists_status, ..*old(app) }),
        *old(pending_playlist_detail) != Some(req_id) ==> *final(pending_playlist_detail)
            == *old(pending_playlist_detail),
        *old(pending_playlist_detail) == Some(req_id) && ids@.len() > 0 ==> *final(next_req)
            == crate::usecases::bumped(*old(next_req)),
        !(*old(pending_playlist_detail) == Some(req_id) && ids@.len() > 0) ==> *final(next_req)
            == *old(next_req) && *final(pending_playlist_tracks) == *old(pending_playlist_tracks),
{
    if *pending_playlist_detail != Some(req_id) {
        return None;
    }
    *pending_playlist_detail = None;
    if ids.len() == 0 {
        app.playlists_status = "歌单为空或无法解析".to_string();
        return Some(None);
    }
    let mut st = "加载歌单歌曲中... 0/".to_string();
    push_chars(&mut st, u64_dec_chars(ids.len() as u64).as_slice());
    app.playlists_status = st;
    let mut loader = PlaylistTracksLoad::new(playlist_id, ids);
    let id = next_id(next_req);
    let chunk = loader.next_chunk();
    loader.inflight_req_id = Some(id);
    *pending_playlist_tracks = Some(loader);
    Some(Some(NeteaseCommand::SongDetailByIds { req_id: id, ids: chunk }))
}


fn append_songs(dst: &mut Vec<Song>, src: &Vec<Song>)
    ensures
        final(dst)@ == old(dst)@ + src@,
{
    let mut i: usize = 0;
    while i < src.len()
        invariant
            i <= src@.len(),
            dst@ == old(dst)@ + src@.take(i as int),
        decreases src@.len() - i,
    {
        dst.push(src[i].clone());
        i += 1;
        assert(src@.take(i as int) == src@.take(i - 1).push(src@[i - 1]));
    }
    assert(src@.take(src@.len() as int) == src@);
}

/// Takes a chunk of a playlist's songs: where it answers the chunk in flight,
/// adds the songs and reports the progress; once every id was requested the
/// songs become the tracks and the queue, else the next chunk is asked for
/// under a fresh request id. A reply to another request is not taken.
pub fn on_playlist_songs(
    app: &mut App,
    req_id: u64,
    songs: &Vec<Song>,
    next_req: &mut u64,
    pending_playlist_tracks: &mut Option<PlaylistTracksLoad>,
) -> (r: (bool, Option<NeteaseCommand>))
    requires
        *old(pending_playlist_tracks) matches Some(l) ==> l.cursor <= l.ids@.len(),
    ensures
        r.0 == (*old(pending_playlist_tracks) matches Some(l) && l.inflight_req_id == Some(req_id)),
        !r.0 ==> r.1 is None && *final(app) == *old(app) && *final(pending_playlist_tracks) == *old(pending_playlist_tracks),
        r.0 ==> {
            let l = old(pending_playlist_tracks)->0;
            let all = l.songs@ + songs@;
            &&& l.cursor >= l.ids@.len() ==> {
                &&& r.1 is None
                &&& *final(pending_playlist_tracks) is None
                &&& final(app).playlist_tracks@ == all
                &&& final(app).queue@ == all
                &&& final(app).queue_pos == Some(0usize)
                &&& final(app).playlist_tracks_selected == 0
                &&& final(app).playlist_mode == PlaylistMode::Tracks
                &&& final(app).playlists_status@ == "歌曲: "@ + dec_digits(all.len()) + " 首（p 播放）"@
            }
            &&& l.cursor < l.ids@.len() ==> {
                &&& match (*final(pending_playlist_tracks), r.1) {
                    (Some(l2), Some(NeteaseCommand::SongDetailByIds { req_id: q, ids: chunk })) => {
                        &&& l2.songs@ == all
                        &&& l2.inflight_req_id == Some(*old(next_req))
                        &&& l2.ids == l.ids
                        &&& l2.total == l.total
                        &&& l2.playlist_id == l.playlist_id
                        &&& q == *old(next_req)
                        &&& crate::usecases::chunks_from(l.ids@, l.cursor as int) == seq![chunk@]
                            + crate::usecases::chunks_from(l2.ids@, l2.cursor as int)
                    },
                    _ => false,
                }
                &&& final(app).playlists_status@ == "加载歌单歌曲中... "@ + dec_digits(all.len())
                    + "/"@ + dec_digits(l.total as nat)
            }
        },
        r.0 && old(pending_playlist_tracks)->0.cursor < old(pending_playlist_tracks)->0.ids@.len()
            ==> *final(next_req) == crate::usecases::bumped(*old(next_req)),
        !(r.0 && old(pending_playlist_tracks)->0.cursor < old(pending_playlist_tracks)->0.ids@.len())
            ==> *final(next_req) == *old(next_req),
{
    let matches_inflight = match pending_playlist_tracks {
        Some(l) => l.inflight_req_id == Some(req_id),
        None => false,
    };
    if !matches_inflight {
        return (false, None);
    }
    let mut loader = pending_playlist_tracks.take().unwrap();
    loader.inflight_req_id = None;
    append_songs(&mut loader.songs, songs);
    if loader.is_done() {
        let n = loader.songs.len();
        app.playlist_tracks = loader.songs;
        app.playlist_tracks_selected = 0;
        app.playlist_mode = PlaylistMode::Tracks;
        app.queue = clone_songs(&app.playlist_tracks);
        app.queue_pos = Some(0);
        let mut st = "歌曲: ".to_string();
        push_chars(&mut st, u64_dec_chars(n as u64).as_slice());
        push_str(&mut st, " 首（p 播放）");
        app.playlists_status = st;
        (true, None)
    } else {
        let mut st = "加载歌单歌曲中... ".to_string();
        push_chars(&mut st, u64_dec_chars(loader.songs.len() as u64).as_slice());
        push_str(&mut st, "/");
        push_chars(&mut st, u64_dec_chars(loader.total as u64).as_slice());
        app.playlists_status = st;
        let id = next_id(next_req);
        let chunk = loader.next_chunk();
        loader.inflight_req_id = Some(id);
        *pending_playlist_tracks = Some(loader);
        (true, Some(NeteaseCommand::SongDetailByIds { req_id: id, ids: chunk }))
    }
}

// ---------------------------------------------------------------- settings

/// Moves the settings selection up (on the settings page).
pub fn settings_move_up_in_view(app: &mut App)
    ensures
        *final(app) == (App {
            settings_selected: if old(app).view == command::View::Settings {
                moved_up(old(app).settings_selected)
            } else {
                old(app).settings_selected
            },
            ..*old(app)
        }),
{
    if app.view == command::View::Settings {
        app.settings_selected = crate::usecases::settings_move_up(app.settings_selected);
    }
}

/// Moves the settings selection down (on the settings page), stopping at the last item.
pub fn settings_move_down_in_view(app: &mut App)
    requires
        old(app).settings_selected < usize::MAX,
    ensures
        *final(app) == (App {
            settings_selected: if old(app).view == command::View::Settings {
                if old(app).settings_selected + 1 < crate::usecases::SETTINGS_ITEMS_COUNT - 1 {
                    (old(app).settings_selected + 1) as usize
                } else {
                    (crate::usecases::SETTINGS_ITEMS_COUNT - 1) as usize
                }
            } else {
                old(app).settings_selected
            },
            ..*old(app)
        }),
{
    if app.view == command::View::Settings {
        app.settings_selected = crate::usecases::settings_move_down(app.settings_selected);
    }
}

/// What activating a settings item asks of the caller.
#[derive(Debug, Clone, Copy, PartialEq, Eq, Structural)]
pub enum SettingsActivation {
    /// Not on the settings page, or an item with no action.
    NotHandled,
    /// Clear the audio cache.
    ClearCache,
    /// Log out was chosen while logged out: nothing to do.
    NotLoggedIn,
    /// Log out.
    Logout,
}

/// Activates the selected settings item: the item before last clears the
/// audio cache, the last logs out (where logged in).
pub fn settings_activate(app: &mut App) -> (r: SettingsActivation)
    ensures
        old(app).view != command::View::Settings ==> r == SettingsActivation::NotHandled
            && *final(app) == *old(app),
        old(app).view == command::View::Settings ==> {
            &&& old(app).settings_selected == crate::usecases::SETTINGS_ITEMS_COUNT - 2 ==> r
                == SettingsActivation::ClearCache && final(app).settings_status@
                == "正在清除音频缓存..."@
            &&& old(app).settings_selected == crate::usecases::SETTINGS_ITEMS_COUNT - 1
                && !old(app).logged_in ==> r == SettingsActivation::NotLoggedIn
                && final(app).settings_status@ == "未登录，无需退出"@
            &&& old(app).settings_selected == crate::usecases::SETTINGS_ITEMS_COUNT - 1
                && old(app).logged_in ==> r == SettingsActivation::Logout && *final(app) == *old(app)
            &&& old(app).settings_selected < crate::usecases::SETTINGS_ITEMS_COUNT - 2 || old(app).settings_selected >= crate::usecases::SETTINGS_ITEMS_COUNT ==> r
                == SettingsActivation::NotHandled && *final(app) == *old(app)
        },
        *final(app) == (App { settings_status: final(app).settings_status, ..*old(app) }),
{
    if app.view != command::View::Settings {
        return SettingsActivation::NotHandled;
    }
    if crate::usecases::is_clear_cache_selected(app.settings_selected) {
        app.settings_status = "正在清除音频缓存...".to_string();
        SettingsActivation::ClearCache
    } else if crate::usecases::is_logout_selected(app.settings_selected) {
        if !app.logged_in {
            app.settings_status = "未登录，无需退出".to_string();
            SettingsActivation::NotLoggedIn
        } else {
            SettingsActivation::Logout
        }
    } else {
        SettingsActivation::NotHandled
    }
}

// ---------------------------------------------------------------- logout

/// The state after logging out: back on the login page with the login hint;
/// no QR code, account, playlists, tracks, preloads, search results, queue,
/// playing song or lyrics; each page's status back to its first text.
pub open spec fn logged_out(a: App) -> bool {
    &&& cleared_by_logout(a)
    &&& a.login_status@ == "按 l 生成二维码；q 退出；Tab 切换页面"@
}

/// What logging out clears, its login text aside.
pub open spec fn cleared_by_logout(a: App) -> bool {
    &&& !a.logged_in
    &&& a.view == command::View::Login
    &&& a.login_qr_url is None
    &&& a.login_qr_ascii is None
    &&& a.login_unikey is None
    &&& a.account_uid is None
    &&& a.account_nickname is None
    &&& a.playlists@.len() == 0
    &&& a.playlists_selected == 0
    &&& a.playlist_mode == PlaylistMode::List
    &&& a.playlist_tracks@.len() == 0
    &&& a.playlist_tracks_selected == 0
    &&& a.playlists_status@ == "等待登录后加载歌单"@
    &&& a.preload_summary@.len() == 0
    &&& a.search_results@.len() == 0
    &&& a.search_selected == 0
    &&& a.search_status@ == "输入关键词，回车搜索"@
    &&& a.queue@.len() == 0
    &&& a.queue_pos is None
    &&& a.now_playing is None
    &&& a.play_status@ == "未播放"@
    &&& !a.paused
    &&& a.play_total_ms is None
    &&& a.play_paused_accum_ms == 0
    &&& a.play_id is None
    &&& a.play_song_id is None
    &&& a.play_error_count == 0
    &&& a.lyrics_song_id is None
    &&& a.lyrics@.len() == 0
    &&& a.lyrics_status@ == "暂无歌词"@
    &&& a.lyrics_follow
    &&& a.lyrics_selected == 0
}

/// Resets the state after logging out; the search text, bitrate, play mode,
/// lyrics offset and the settings page are kept.
pub fn reset_app_after_logout(app: &mut App)
    ensures
        logged_out(*final(app)),
        final(app).search_input == old(app).search_input,
        final(app).login_cookie_input_visible == old(app).login_cookie_input_visible,
        final(app).login_cookie_input == old(app).login_cookie_input,
        final(app).play_br == old(app).play_br,
        final(app).play_mode == old(app).play_mode,
        final(app).lyrics_offset_ms == old(app).lyrics_offset_ms,
        final(app).settings_selected == old(app).settings_selected,
        final(app).settings_status == old(app).settings_status,
{
    app.logged_in = false;
    app.view = command::View::Login;
    app.login_qr_url = None;
    app.login_qr_ascii = None;
    app.login_unikey = None;
    app.login_status = "按 l 生成二维码；q 退出；Tab 切换页面".to_string();
    app.account_uid = None;
    app.account_nickname = None;
    app.playlists = Vec::new();
    app.playlists_selected = 0;
    app.playlist_mode = PlaylistMode::List;
    app.playlist_tracks = Vec::new();
    app.playlist_tracks_selected = 0;
    app.playlists_status = "等待登录后加载歌单".to_string();
    app.preload_summary = String::new();
    app.search_results = Vec::new();
    app.search_selected = 0;
    app.search_status = "输入关键词，回车搜索".to_string();
    app.queue = Vec::new();
    app.queue_pos = None;
    app.now_playing = None;
    app.play_status = "未播放".to_string();
    app.paused = false;
    app.play_total_ms = None;
    app.play_paused_accum_ms = 0;
    app.play_id = None;
    app.play_song_id = None;
    app.play_error_count = 0;
    app.lyrics_song_id = None;
    app.lyrics = Vec::new();
    app.lyrics_status = "暂无歌词".to_string();
    app.lyrics_follow = true;
    app.lyrics_selected = 0;
}

/// Logging out leaves every selection pointing into its (empty) list.
pub proof fn lemma_logged_out_selections_ok(a: App)
    requires
        logged_out(a),
    ensures
        a.selections_ok(),
{
}

/// Moving a selection up or down keeps it pointing into its list.
pub proof fn lemma_moves_keep_selection(sel: usize, len: nat)
    requires
        selection_ok(sel, len),
    ensures
        selection_ok(moved_up(sel), len),
        selection_ok(moved_down(sel, len), len),
{
}

} // verus!
