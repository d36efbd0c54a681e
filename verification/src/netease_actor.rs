//! The service actor's messages, and the event it answers each reply with.
use vstd::prelude::*;
use crate::convert::{
    extract_unikey, lyric_resp_fits, lyric_views, lyrics_spec, song_of, song_view, to_account, to_login_status, to_playlist_track_ids,
    to_lyrics, to_playlists, to_song_list_from_detail, to_song_list_from_search, to_song_url,
};
use crate::dto::{
    CloudSearchResp, LoginQrCheckResp, LyricResp, LoginQrKeyResp, PlaylistDetailResp, SongDetailResp,
    SongInfo, SongUrlResp, TrackId, UserAccountResp, UserPlaylistResp,
};
use crate::model::{Account, LoginStatus, LyricLine, Playlist, Song, SongUrl};

verus! {

/// What the application asks of the service actor; each request carries its id.
#[derive(Debug)]
pub enum NeteaseCommand {
    Init { req_id: u64 },
    EnsureAnonymous { req_id: u64 },
    LoginQrKey { req_id: u64 },
    LoginQrCheck { req_id: u64, key: String },
    UserAccount { req_id: u64 },
    UserPlaylists { req_id: u64, uid: i64 },
    PlaylistDetail { req_id: u64, playlist_id: i64 },
    SongDetailByIds { req_id: u64, ids: Vec<i64> },
    CloudSearchSongs { req_id: u64, keywords: String, limit: i64, offset: i64 },
    SongUrl { req_id: u64, id: i64, br: i64 },
    Lyric { req_id: u64, song_id: i64 },
    LogoutLocal { req_id: u64 },
    LoginSetCookie { req_id: u64, music_u: String },
}

/// What the service actor reports back, under the id of the request.
#[derive(Debug)]
pub enum NeteaseEvent {
    ClientReady { req_id: u64, logged_in: bool },
    AnonymousReady { req_id: u64 },
    LoginQrKey { req_id: u64, unikey: String },
    LoginQrStatus { req_id: u64, status: LoginStatus },
    Account { req_id: u64, account: Account },
    Playlists { req_id: u64, playlists: Vec<Playlist> },
    PlaylistTrackIds { req_id: u64, playlist_id: i64, ids: Vec<i64> },
    Songs { req_id: u64, songs: Vec<Song> },
    SearchSongs { req_id: u64, songs: Vec<Song> },
    SongUrl { req_id: u64, song_url: SongUrl },
    Lyric { req_id: u64, song_id: i64, lyrics: Vec<LyricLine> },
    LoggedOut { req_id: u64 },
    LoginCookieSet { req_id: u64, success: bool, message: String },
    Error { req_id: u64, message: String },
}

/// Whether `e` is the error event for request `req_id` with text `m`.
pub open spec fn is_error_event(e: NeteaseEvent, req_id: u64, m: Seq<char>) -> bool {
    e matches NeteaseEvent::Error { req_id: q, message } && q == req_id && message@ == m
}

/// The id of the request a command carries.
pub open spec fn command_req_id(c: NeteaseCommand) -> u64 {
    match c {
        NeteaseCommand::Init { req_id } => req_id,
        NeteaseCommand::EnsureAnonymous { req_id } => req_id,
        NeteaseCommand::LoginQrKey { req_id } => req_id,
        NeteaseCommand::LoginQrCheck { req_id, .. } => req_id,
        NeteaseCommand::UserAccount { req_id } => req_id,
        NeteaseCommand::UserPlaylists { req_id, .. } => req_id,
        NeteaseCommand::PlaylistDetail { req_id, .. } => req_id,
        NeteaseCommand::SongDetailByIds { req_id, .. } => req_id,
        NeteaseCommand::CloudSearchSongs { req_id, .. } => req_id,
        NeteaseCommand::SongUrl { req_id, .. } => req_id,
        NeteaseCommand::Lyric { req_id, .. } => req_id,
        NeteaseCommand::LogoutLocal { req_id } => req_id,
        NeteaseCommand::LoginSetCookie { req_id, .. } => req_id,
    }
}

/// The id of the request an event answers.
pub open spec fn event_req_id(e: NeteaseEvent) -> u64 {
    match e {
        NeteaseEvent::ClientReady { req_id, .. } => req_id,
        NeteaseEvent::AnonymousReady { req_id } => req_id,
        NeteaseEvent::LoginQrKey { req_id, .. } => req_id,
        NeteaseEvent::LoginQrStatus { req_id, .. } => req_id,
        NeteaseEvent::Account { req_id, .. } => req_id,
        NeteaseEvent::Playlists { req_id, .. } => req_id,
        NeteaseEvent::PlaylistTrackIds { req_id, .. } => req_id,
        NeteaseEvent::Songs { req_id, .. } => req_id,
        NeteaseEvent::SearchSongs { req_id, .. } => req_id,
        NeteaseEvent::SongUrl { req_id, .. } => req_id,
        NeteaseEvent::Lyric { req_id, .. } => req_id,
        NeteaseEvent::LoggedOut { req_id } => req_id,
        NeteaseEvent::LoginCookieSet { req_id, .. } => req_id,
        NeteaseEvent::Error { req_id, .. } => req_id,
    }
}

/// The id a command carries.
pub fn req_id_of(c: &NeteaseCommand) -> (r: u64)
    ensures
        r == command_req_id(*c),
{
    match c {
        NeteaseCommand::Init { req_id } => *req_id,
        NeteaseCommand::EnsureAnonymous { req_id } => *req_id,
        NeteaseCommand::LoginQrKey { req_id } => *req_id,
        NeteaseCommand::LoginQrCheck { req_id, .. } => *req_id,
        NeteaseCommand::UserAccount { req_id } => *req_id,
        NeteaseCommand::UserPlaylists { req_id, .. } => *req_id,
        NeteaseCommand::PlaylistDetail { req_id, .. } => *req_id,
        NeteaseCommand::SongDetailByIds { req_id, .. } => *req_id,
        NeteaseCommand::CloudSearchSongs { req_id, .. } => *req_id,
        NeteaseCommand::SongUrl { req_id, .. } => *req_id,
        NeteaseCommand::Lyric { req_id, .. } => *req_id,
        NeteaseCommand::LogoutLocal { req_id } => *req_id,
        NeteaseCommand::LoginSetCookie { req_id, .. } => *req_id,
    }
}

/// The event for a failed request: the failure's text under the request's id.
pub fn failure_event(req_id: u64, message: String) -> (r: NeteaseEvent)
    ensures
        is_error_event(r, req_id, message@),
{
    NeteaseEvent::Error { req_id, message }
}

/// The event for a QR-key reply: the key, or the error for a missing key.
pub fn qr_key_event(req_id: u64, resp: LoginQrKeyResp) -> (r: NeteaseEvent)
    ensures
        event_req_id(r) == req_id,
        match (resp.unikey, resp.data) {
            (Some(u), _) => r == NeteaseEvent::LoginQrKey { req_id, unikey: u },
            (None, Some(d)) => r == NeteaseEvent::LoginQrKey { req_id, unikey: d.unikey },
            (None, None) => is_error_event(r, req_id, "缺少字段: unikey"@),
        },
{
    match extract_unikey(resp) {
        Ok(unikey) => NeteaseEvent::LoginQrKey { req_id, unikey },
        Err(e) => {
            let message = e.message();
            proof {
                reveal_strlit("unikey");
                reveal_strlit("缺少字段: ");
                reveal_strlit("缺少字段: unikey");
                assert("缺少字段: "@ + "unikey"@ =~= "缺少字段: unikey"@);
            }
            NeteaseEvent::Error { req_id, message }
        },
    }
}

/// The event for a QR-check reply: the login state it reports.
pub fn qr_status_event(req_id: u64, resp: LoginQrCheckResp) -> (r: NeteaseEvent)
    ensures
        r matches NeteaseEvent::LoginQrStatus { req_id: q, status } && q == req_id && status.code
            == resp.code && status.logged_in == (resp.code == 803) && status.message
            == resp.message,
{
    let status = to_login_status(resp);
    NeteaseEvent::LoginQrStatus { req_id, status }
}

/// The event for an account reply: the account, or the error for a missing part.
pub fn account_event(req_id: u64, resp: UserAccountResp) -> (r: NeteaseEvent)
    ensures
        event_req_id(r) == req_id,
        match (resp.account, resp.profile) {
            (Some(a), Some(p)) => r == NeteaseEvent::Account {
                req_id,
                account: Account { uid: a.id, nickname: p.nickname },
            },
            (None, _) => is_error_event(r, req_id, "缺少字段: account"@),
            (Some(_), None) => is_error_event(r, req_id, "缺少字段: profile"@),
        },
{
    match to_account(resp) {
        Ok(account) => NeteaseEvent::Account { req_id, account },
        Err(e) => {
            let message = e.message();
            proof {
                reveal_strlit("account");
                reveal_strlit("profile");
                reveal_strlit("缺少字段: ");
                reveal_strlit("缺少字段: account");
                reveal_strlit("缺少字段: profile");
                assert("缺少字段: "@ + "account"@ =~= "缺少字段: account"@);
                assert("缺少字段: "@ + "profile"@ =~= "缺少字段: profile"@);
            }
            NeteaseEvent::Error { req_id, message }
        },
    }
}

/// The event for a playlists reply: the playlists, in order.
pub fn playlists_event(req_id: u64, resp: UserPlaylistResp) -> (r: NeteaseEvent)
    ensures
        r matches NeteaseEvent::Playlists { req_id: q, playlists } && q == req_id
            && playlists@.len() == resp.playlist@.len() && forall|i: int|
            0 <= i < playlists@.len() ==> #[trigger] playlists@[i] == (Playlist {
                id: resp.playlist@[i].id,
                name: resp.playlist@[i].name,
                track_count: resp.playlist@[i].track_count,
                special_type: resp.playlist@[i].special_type,
            }),
{
    let playlists = to_playlists(resp);
    NeteaseEvent::Playlists { req_id, playlists }
}

/// The event for a playlist-detail reply: the playlist's track ids.
pub fn track_ids_event(req_id: u64, playlist_id: i64, resp: PlaylistDetailResp) -> (r: NeteaseEvent)
    ensures
        r matches NeteaseEvent::PlaylistTrackIds { req_id: q, playlist_id: p, ids } && q == req_id
            && p == playlist_id && match resp.playlist {
            None => ids@.len() == 0,
            Some(pl) => ids@ == pl.track_ids@.map_values(|t: TrackId| t.id),
        },
{
    let ids = to_playlist_track_ids(resp);
    NeteaseEvent::PlaylistTrackIds { req_id, playlist_id, ids }
}

/// The event for a song-detail reply: its songs.
pub fn songs_event(req_id: u64, resp: SongDetailResp) -> (r: NeteaseEvent)
    ensures
        r matches NeteaseEvent::Songs { req_id: q, songs } && q == req_id && songs@.map_values(
            |s: Song| song_view(s),
        ) == resp.songs@.map_values(|s: SongInfo| song_of(s)),
{
    let songs = to_song_list_from_detail(resp);
    NeteaseEvent::Songs { req_id, songs }
}

/// The event for a search reply: the songs found.
pub fn search_songs_event(req_id: u64, resp: CloudSearchResp) -> (r: NeteaseEvent)
    ensures
        r matches NeteaseEvent::SearchSongs { req_id: q, songs } && q == req_id && match resp.result {
            None => songs@.len() == 0,
            Some(res) => songs@.map_values(|s: Song| song_view(s)) == res.songs@.map_values(
                |s: SongInfo| song_of(s),
            ),
        },
{
    let songs = to_song_list_from_search(resp);
    NeteaseEvent::SearchSongs { req_id, songs }
}

/// The event for a song-address reply: the first address, or the error for
/// an empty reply or a missing address.
pub fn song_url_event(req_id: u64, resp: SongUrlResp) -> (r: NeteaseEvent)
    ensures
        event_req_id(r) == req_id,
        resp.data@.len() == 0 ==> is_error_event(r, req_id, "响应为空"@),
        resp.data@.len() > 0 ==> match resp.data@[0].url {
            Some(u) => r == NeteaseEvent::SongUrl {
                req_id,
                song_url: SongUrl { id: resp.data@[0].id, url: u },
            },
            None => is_error_event(r, req_id, "缺少字段: data[0].url"@),
        },
{
    match to_song_url(resp) {
        Ok(song_url) => NeteaseEvent::SongUrl { req_id, song_url },
        Err(e) => {
            let message = e.message();
            proof {
                reveal_strlit("data[0].url");
                reveal_strlit("缺少字段: ");
                reveal_strlit("缺少字段: data[0].url");
                assert("缺少字段: "@ + "data[0].url"@ =~= "缺少字段: data[0].url"@);
            }
            NeteaseEvent::Error { req_id, message }
        },
    }
}

/// The event for a lyric reply: the song's lines, in time order, with their
/// translations.
pub fn lyric_event(req_id: u64, song_id: i64, resp: LyricResp) -> (r: NeteaseEvent)
    requires
        lyric_resp_fits(resp),
    ensures
        r matches NeteaseEvent::Lyric { req_id: q, song_id: s, lyrics } && q == req_id && s
            == song_id && lyric_views(lyrics@) == lyrics_spec(resp),
{
    let lyrics = to_lyrics(resp);
    NeteaseEvent::Lyric { req_id, song_id, lyrics }
}

/// The event for a cookie login: on success `登录成功`, else the failure's text.
pub fn cookie_set_event(req_id: u64, outcome: Result<(), String>) -> (r: NeteaseEvent)
    ensures
        match outcome {
            Ok(()) => r matches NeteaseEvent::LoginCookieSet { req_id: q, success, message } && q
                == req_id && success && message@ == "登录成功"@,
            Err(m) => r == (NeteaseEvent::LoginCookieSet { req_id, success: false, message: m }),
        },
{
    match outcome {
        Ok(()) => NeteaseEvent::LoginCookieSet { req_id, success: true, message: "登录成功".to_string() },
        Err(m) => NeteaseEvent::LoginCookieSet { req_id, success: false, message: m },
    }
}

} // verus!
