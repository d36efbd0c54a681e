use netease_ratui::app_state::{
    login_cookie_submit, login_generate_qr, login_toggle_cookie_input, lyrics_move_down,
    lyrics_toggle_follow, on_client_ready, on_login_qr_key, on_login_qr_status, on_lyric,
    on_playlist_detail, on_playlist_songs, on_playlists, on_search_songs, playlist_tracks_play_selected,
    playlists_back, playlists_move_down, playlists_open_selected, render_qr_ascii,
    reset_app_after_logout, search_input_backspace, search_input_char, search_play_selected,
    search_submit, settings_activate, App, SettingsActivation,
};
use netease_ratui::command::{PlaylistMode, View};
use netease_ratui::model::{LyricLine, Playlist, Song};
use netease_ratui::netease_actor::NeteaseCommand;
use netease_ratui::play_mode::PlayMode;

fn app() -> App {
    App {
        logged_in: false,
        view: View::Login,
        login_status: String::new(),
        login_unikey: None,
        login_qr_url: None,
        login_qr_ascii: None,
        login_cookie_input_visible: false,
        login_cookie_input: String::new(),
        account_uid: None,
        account_nickname: None,
        playlists: vec![],
        playlists_selected: 0,
        playlist_mode: PlaylistMode::List,
        playlist_tracks: vec![],
        playlist_tracks_selected: 0,
        playlists_status: String::new(),
        preload_summary: String::new(),
        search_input: String::new(),
        search_results: vec![],
        search_selected: 0,
        search_status: String::new(),
        queue: vec![],
        queue_pos: None,
        now_playing: None,
        play_status: String::new(),
        paused: false,
        play_total_ms: None,
        play_paused_accum_ms: 0,
        play_id: None,
        play_song_id: None,
        play_error_count: 0,
        play_br: 320_000,
        play_mode: PlayMode::ListLoop,
        lyrics_song_id: None,
        lyrics: vec![],
        lyrics_status: String::new(),
        lyrics_follow: true,
        lyrics_selected: 0,
        lyrics_offset_ms: 0,
        settings_selected: 0,
        settings_status: String::new(),
    }
}

fn song(id: i64, name: &str) -> Song {
    Song { id, name: name.to_string(), artists: "Artist".to_string() }
}

#[test]
fn search_submit_trims_and_requests() {
    let mut a = app();
    let mut req = 4u64;
    let mut pending = None;
    assert!(search_submit(&mut a, &mut req, &mut pending).is_none());
    assert_eq!(a.search_status, "请输入关键词");
    search_input_char(&mut a, ' ');
    search_input_char(&mut a, '周');
    search_input_char(&mut a, 'x');
    search_input_backspace(&mut a);
    match search_submit(&mut a, &mut req, &mut pending) {
        Some(NeteaseCommand::CloudSearchSongs { req_id, keywords, limit, offset }) => {
            assert_eq!(req_id, 4);
            assert_eq!(keywords, "周");
            assert_eq!(limit, 30);
            assert_eq!(offset, 0);
        }
        _ => panic!("expected a search request"),
    }
    assert_eq!(pending, Some(4));
    assert_eq!(a.search_status, "搜索中...");
    assert!(!on_search_songs(&mut a, 99, &vec![song(1, "A")], &mut pending));
    assert!(on_search_songs(&mut a, 4, &vec![song(1, "A"), song(2, "B")], &mut pending));
    assert_eq!(a.search_results.len(), 2);
    assert_eq!(a.search_status, "结果: 2 首");
    assert_eq!(pending, None);
}

#[test]
fn search_play_selected_requests_url() {
    let mut a = app();
    a.search_results = vec![song(1, "A"), song(2, "B")];
    a.search_selected = 1;
    a.queue = vec![song(9, "Q")];
    let mut req = 7u64;
    let mut pending = None;
    let cmd = search_play_selected(&mut a, &mut req, &mut pending);
    assert!(matches!(cmd, Some(NeteaseCommand::SongUrl { req_id: 7, id: 2, br: 320_000 })));
    assert_eq!(pending, Some((7, "B - Artist".to_string())));
    assert!(a.queue.is_empty());
    assert_eq!(a.play_status, "获取播放链接...");
}

#[test]
fn lyrics_follow_and_scroll() {
    let mut a = app();
    a.view = View::Lyrics;
    a.lyrics = vec![
        LyricLine { time_ms: 0, text: "a".to_string(), translation: None },
        LyricLine { time_ms: 1, text: "b".to_string(), translation: None },
    ];
    lyrics_move_down(&mut a);
    assert_eq!(a.lyrics_selected, 0);
    lyrics_toggle_follow(&mut a);
    assert!(!a.lyrics_follow);
    assert_eq!(a.lyrics_status, "歌词：锁定模式（↑↓滚动，g 回到当前行）");
    lyrics_move_down(&mut a);
    lyrics_move_down(&mut a);
    assert_eq!(a.lyrics_selected, 1);
    let mut pending = Some((3u64, 42i64));
    assert!(!on_lyric(&mut a, 2, 42, &vec![], &mut pending));
    assert!(on_lyric(&mut a, 3, 42, &vec![], &mut pending));
    assert_eq!(a.lyrics_status, "暂无歌词");
    assert_eq!(a.lyrics_song_id, Some(42));
}

#[test]
fn login_flow() {
    let mut a = app();
    let mut req = 1u64;
    let mut pending_key = None;
    assert!(matches!(
        login_generate_qr(&mut a, &mut req, &mut pending_key),
        Some(NeteaseCommand::LoginQrKey { req_id: 1 })
    ));
    assert!(on_login_qr_key(&mut a, 1, "KEY", &mut pending_key));
    assert_eq!(a.login_qr_url, Some("https://music.163.com/login?codekey=KEY".to_string()));
    assert!(a.login_qr_ascii.as_ref().unwrap().len() > 0);
    let mut pending_account = None;
    let (taken, cmd) = on_login_qr_status(&mut a, 5, false, 801, "等待扫码", &mut req, &Some(5), &mut pending_account);
    assert!(taken && cmd.is_none());
    assert_eq!(a.login_status, "扫码状态 code=801 等待扫码");
    let (taken, cmd) = on_login_qr_status(&mut a, 5, true, 803, "ok", &mut req, &Some(5), &mut pending_account);
    assert!(taken);
    assert!(matches!(cmd, Some(NeteaseCommand::UserAccount { req_id: 2 })));
    assert!(a.logged_in);
    assert_eq!(a.view, View::Playlists);
    assert!(login_generate_qr(&mut a, &mut req, &mut pending_key).is_none());
}

#[test]
fn cookie_login_input() {
    let mut a = app();
    login_toggle_cookie_input(&mut a);
    assert!(a.login_cookie_input_visible);
    assert_eq!(a.login_status, "Cookie 输入模式：输入 MUSIC_U 值");
    let mut req = 3u64;
    let mut pending = None;
    assert!(login_cookie_submit(&mut a, &mut req, &mut pending).is_none());
    a.login_cookie_input = "  abc ".to_string();
    assert_eq!(login_cookie_submit(&mut a, &mut req, &mut pending), Some((3, "abc".to_string())));
    assert_eq!(pending, Some(3));
}

#[test]
fn client_ready_restores_login() {
    let mut a = app();
    let mut req = 8u64;
    let mut pending = None;
    assert!(on_client_ready(&mut a, false, &mut req, &mut pending).is_none());
    assert_eq!(a.login_status, "按 l 生成二维码；q 退出；Tab 切换页面");
    assert!(matches!(
        on_client_ready(&mut a, true, &mut req, &mut pending),
        Some(NeteaseCommand::UserAccount { req_id: 8 })
    ));
    assert_eq!(a.view, View::Playlists);
}

#[test]
fn playlists_open_load_and_play() {
    let mut a = app();
    a.view = View::Playlists;
    let mut pending_lists = Some(1u64);
    let lists = vec![
        Playlist { id: 10, name: "A".to_string(), track_count: 2, special_type: 0 },
        Playlist { id: 11, name: "我喜欢的音乐".to_string(), track_count: 3, special_type: 0 },
    ];
    assert!(on_playlists(&mut a, 1, &lists, &mut pending_lists));
    assert_eq!(a.playlists_selected, 1);
    assert_eq!(a.playlists_status, "歌单: 2 个（已选中我喜欢的音乐，回车打开）");
    playlists_move_down(&mut a);
    assert_eq!(a.playlists_selected, 1);
    let mut req = 20u64;
    let mut pending_detail = None;
    let mut pending_tracks = None;
    assert!(matches!(
        playlists_open_selected(&mut a, &mut req, &mut pending_detail, &mut pending_tracks),
        Some(NeteaseCommand::PlaylistDetail { req_id: 20, playlist_id: 11 })
    ));
    let r = on_playlist_detail(&mut a, 20, 11, vec![5, 6], &mut req, &mut pending_detail, &mut pending_tracks);
    match r {
        Some(Some(NeteaseCommand::SongDetailByIds { req_id, ids })) => {
            assert_eq!(req_id, 21);
            assert_eq!(ids, vec![5, 6]);
        }
        _ => panic!("expected a song-detail request"),
    }
    assert_eq!(a.playlists_status, "加载歌单歌曲中... 0/2");
    let (taken, next) = on_playlist_songs(&mut a, 21, &vec![song(5, "S5"), song(6, "S6")], &mut req, &mut pending_tracks);
    assert!(taken && next.is_none());
    assert_eq!(a.playlist_mode, PlaylistMode::Tracks);
    assert_eq!(a.queue.len(), 2);
    assert_eq!(a.playlists_status, "歌曲: 2 首（p 播放）");
    let mut pending_url = None;
    a.playlist_tracks_selected = 1;
    assert!(matches!(
        playlist_tracks_play_selected(&mut a, &mut req, &mut pending_url),
        Some(NeteaseCommand::SongUrl { req_id: 22, id: 6, .. })
    ));
    assert_eq!(a.queue_pos, Some(1));
    assert!(playlists_back(&mut a, &mut pending_detail, &mut pending_tracks));
    assert_eq!(a.playlist_mode, PlaylistMode::List);
}

#[test]
fn empty_playlist_is_reported() {
    let mut a = app();
    let mut req = 1u64;
    let mut pending_detail = Some(4u64);
    let mut pending_tracks = None;
    assert!(on_playlist_detail(&mut a, 3, 1, vec![], &mut req, &mut pending_detail, &mut pending_tracks).is_none());
    assert!(matches!(
        on_playlist_detail(&mut a, 4, 1, vec![], &mut req, &mut pending_detail, &mut pending_tracks),
        Some(None)
    ));
    assert_eq!(a.playlists_status, "歌单为空或无法解析");
}

#[test]
fn settings_activation_and_logout_reset() {
    let mut a = app();
    a.view = View::Settings;
    a.settings_selected = 4;
    assert_eq!(settings_activate(&mut a), SettingsActivation::ClearCache);
    assert_eq!(a.settings_status, "正在清除音频缓存...");
    a.settings_selected = 5;
    assert_eq!(settings_activate(&mut a), SettingsActivation::NotLoggedIn);
    a.logged_in = true;
    assert_eq!(settings_activate(&mut a), SettingsActivation::Logout);
    a.search_results = vec![song(1, "A")];
    a.queue = vec![song(1, "A")];
    reset_app_after_logout(&mut a);
    assert!(!a.logged_in);
    assert_eq!(a.view, View::Login);
    assert!(a.search_results.is_empty());
    assert!(a.queue.is_empty());
    assert_eq!(a.playlists_status, "等待登录后加载歌单");
    assert_eq!(a.lyrics_status, "暂无歌词");
    assert!(a.lyrics_follow);
}

#[test]
fn qr_rendering_of_a_url() {
    let s = render_qr_ascii("https://music.163.com/login?codekey=abc");
    assert!(s.lines().count() > 10);
}
