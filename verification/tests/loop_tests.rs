use netease_ratui::app_loop::{
    activate_settings, bootstrap, cycle_play_mode, on_account, on_audio_event,
    on_login_cookie_set, on_service_error, on_song_url_reply, qr_poll_tick, tab_after, tab_next,
    tab_to, ActivateOutcome, AudioEvent, AudioReaction, PendingRequests,
};
use netease_ratui::app_state::{apply_settings, App};
use netease_ratui::command::View;
use netease_ratui::model::{Account, LyricLine, Song, SongUrl};
use netease_ratui::netease_actor::{cookie_set_event, NeteaseCommand, NeteaseEvent};
use netease_ratui::play_mode::PlayMode;
use netease_ratui::usecases::NextSongCacheManager;

fn song(id: i64, name: &str) -> Song {
    Song { id, name: name.to_string(), artists: "A".to_string() }
}

#[test]
fn new_app_starts_logged_out_on_login_page() {
    let a = App::new();
    assert!(!a.logged_in);
    assert_eq!(a.view, View::Login);
    assert_eq!(a.login_status, "按 l 生成二维码；q 退出；Tab 切换页面");
    assert_eq!(a.play_status, "未播放");
    assert_eq!(a.play_br, 999_000);
    assert_eq!(a.play_mode, PlayMode::ListLoop);
}

#[test]
fn apply_settings_keeps_bitrate_mode_and_offset() {
    let mut a = App::new();
    apply_settings(&mut a, 320_000, "Shuffle", -400);
    assert_eq!(a.play_br, 320_000);
    assert_eq!(a.play_mode, PlayMode::Shuffle);
    assert_eq!(a.lyrics_offset_ms, -400);
    apply_settings(&mut a, 128_000, "bogus", 0);
    assert_eq!(a.play_mode, PlayMode::ListLoop);
}

#[test]
fn qr_poll_only_while_key_shown_and_logged_out() {
    let mut a = App::new();
    let mut req = 7u64;
    let mut pending = None;
    assert!(qr_poll_tick(&a, &mut req, &mut pending).is_none());
    assert_eq!(req, 7);
    a.login_unikey = Some("KEY".to_string());
    match qr_poll_tick(&a, &mut req, &mut pending) {
        Some(NeteaseCommand::LoginQrCheck { req_id, key }) => {
            assert_eq!(req_id, 7);
            assert_eq!(key, "KEY");
        }
        other => panic!("unexpected {:?}", other),
    }
    assert_eq!(pending, Some(7));
    assert_eq!(req, 8);
    a.logged_in = true;
    assert!(qr_poll_tick(&a, &mut req, &mut pending).is_none());
    assert_eq!(req, 8);
}

#[test]
fn bootstrap_asks_to_initialise() {
    let mut a = App::new();
    let mut req = u64::MAX;
    let c = bootstrap(&mut a, &mut req);
    assert!(matches!(c, NeteaseCommand::Init { req_id } if req_id == u64::MAX));
    assert_eq!(req, 0);
    assert_eq!(a.login_status, "初始化中...");
}

#[test]
fn tabs_wrap_and_unknown_counts_as_first() {
    let tabs = vec![View::Playlists, View::Search, View::Lyrics, View::Settings];
    assert_eq!(tab_after(&tabs, View::Playlists), View::Search);
    assert_eq!(tab_after(&tabs, View::Settings), View::Playlists);
    assert_eq!(tab_after(&tabs, View::Login), View::Search);
    let mut a = App::new();
    a.view = View::Settings;
    tab_next(&mut a, &tabs);
    assert_eq!(a.view, View::Playlists);
    assert!(tab_to(&mut a, &tabs, 2));
    assert_eq!(a.view, View::Lyrics);
    assert!(!tab_to(&mut a, &tabs, 4));
    assert_eq!(a.view, View::Lyrics);
}

#[test]
fn activating_settings_clears_cache_or_logs_out() {
    let mut a = App::new();
    a.view = View::Settings;
    a.settings_selected = 4;
    let mut req = 3u64;
    let mut p = PendingRequests::new();
    assert!(matches!(activate_settings(&mut a, &mut req, &mut p), ActivateOutcome::ClearCache));
    assert_eq!(a.settings_status, "正在清除音频缓存...");

    a.settings_selected = 5;
    assert!(matches!(activate_settings(&mut a, &mut req, &mut p), ActivateOutcome::StatusShown));
    assert_eq!(a.settings_status, "未登录，无需退出");

    a.logged_in = true;
    a.search_input = "keep".to_string();
    p.search = Some(9);
    p.lyric = Some((2, 5));
    match activate_settings(&mut a, &mut req, &mut p) {
        ActivateOutcome::Logout { command: NeteaseCommand::LogoutLocal { req_id } } => assert_eq!(req_id, 3),
        other => panic!("unexpected {:?}", other),
    }
    assert_eq!(req, 4);
    assert!(p.search.is_none() && p.lyric.is_none());
    assert!(!a.logged_in);
    assert_eq!(a.view, View::Login);
    assert_eq!(a.login_status, "已退出登录（已清理本地 cookie），按 l 重新登录");
    assert_eq!(a.search_input, "keep");
}

#[test]
fn account_reply_asks_for_playlists_unless_stale() {
    let mut a = App::new();
    let mut req = 10u64;
    let mut p = PendingRequests::new();
    p.account = Some(4);
    let acc = Account { uid: 77, nickname: "nick".to_string() };
    assert!(on_account(&mut a, 5, acc.clone_for_test(), &mut req, &mut p).is_none());
    assert_eq!(req, 10);
    assert!(a.account_uid.is_none());
    match on_account(&mut a, 4, acc, &mut req, &mut p) {
        Some(NeteaseCommand::UserPlaylists { req_id, uid }) => {
            assert_eq!(req_id, 10);
            assert_eq!(uid, 77);
        }
        other => panic!("unexpected {:?}", other),
    }
    assert_eq!(p.playlists, Some(10));
    assert_eq!(a.account_uid, Some(77));
    assert_eq!(a.account_nickname.as_deref(), Some("nick"));
    assert_eq!(a.playlists_status, "正在加载用户歌单...");
}

trait CloneForTest {
    fn clone_for_test(&self) -> Self;
}

impl CloneForTest for Account {
    fn clone_for_test(&self) -> Self {
        Account { uid: self.uid, nickname: self.nickname.clone() }
    }
}

#[test]
fn song_url_reply_starts_the_pending_song() {
    let mut a = App::new();
    a.play_br = 320_000;
    let mut p = PendingRequests::new();
    p.song_url = Some((3, "T - A".to_string()));
    let url = SongUrl { id: 42, url: "http://x".to_string() };
    assert!(on_song_url_reply(&mut a, 4, url.clone(), &mut p).is_none());
    assert!(p.song_url.is_none());
    p.song_url = Some((3, "T - A".to_string()));
    let t = on_song_url_reply(&mut a, 3, url, &mut p).unwrap();
    assert_eq!((t.id, t.br, t.url.as_str(), t.title.as_str()), (42, 320_000, "http://x", "T - A"));
    assert_eq!(a.play_status, "开始播放...");
    assert_eq!(a.play_song_id, Some(42));
    assert!(p.song_url.is_none());
}

#[test]
fn service_error_goes_to_the_page_in_view() {
    let mut a = App::new();
    a.view = View::Search;
    on_service_error(&mut a, "boom");
    assert_eq!(a.search_status, "错误: boom");
    a.view = View::Lyrics;
    on_service_error(&mut a, "x");
    assert_eq!(a.lyrics_status, "错误: x");
}

#[test]
fn now_playing_resets_playback_and_asks_for_lyrics() {
    let mut a = App::new();
    a.play_error_count = 2;
    a.lyrics = vec![LyricLine { time_ms: 0, text: "x".to_string(), translation: None }];
    let mut req = 20u64;
    let mut p = PendingRequests::new();
    let r = on_audio_event(
        &mut a,
        AudioEvent::NowPlaying { song_id: 9, play_id: 3, title: "S".to_string(), duration_ms: Some(1000) },
        None,
        &mut req,
        &mut p,
    );
    assert!(matches!(r, AudioReaction::Started { lyric: NeteaseCommand::Lyric { req_id: 20, song_id: 9 } }));
    assert_eq!(p.lyric, Some((20, 9)));
    assert_eq!(a.play_id, Some(3));
    assert_eq!(a.play_song_id, Some(9));
    assert_eq!(a.play_error_count, 0);
    assert_eq!(a.play_total_ms, Some(1000));
    assert!(a.lyrics.is_empty());
    assert_eq!(a.lyrics_status, "加载歌词...");
    assert_eq!(a.play_status, "播放中");
}

#[test]
fn pause_resume_adds_the_pause_time_saturating() {
    let mut a = App::new();
    let mut req = 1u64;
    let mut p = PendingRequests::new();
    let r = on_audio_event(&mut a, AudioEvent::Paused(true), None, &mut req, &mut p);
    assert!(matches!(r, AudioReaction::Paused));
    assert_eq!(a.play_status, "已暂停");
    a.play_paused_accum_ms = u64::MAX - 1;
    let r = on_audio_event(&mut a, AudioEvent::Paused(false), Some(5), &mut req, &mut p);
    assert!(matches!(r, AudioReaction::Resumed));
    assert_eq!(a.play_paused_accum_ms, u64::MAX);
    assert_eq!(a.play_status, "播放中");
}

#[test]
fn end_of_an_earlier_song_is_ignored() {
    let mut a = App::new();
    a.play_id = Some(5);
    let mut req = 1u64;
    let mut p = PendingRequests::new();
    assert!(matches!(on_audio_event(&mut a, AudioEvent::Ended { play_id: 4 }, None, &mut req, &mut p), AudioReaction::Nothing));
    assert!(matches!(on_audio_event(&mut a, AudioEvent::Ended { play_id: 5 }, None, &mut req, &mut p), AudioReaction::PlayNext));
}

#[test]
fn cache_cleared_and_stopped() {
    let mut a = App::new();
    let mut req = 1u64;
    let mut p = PendingRequests::new();
    on_audio_event(&mut a, AudioEvent::CacheCleared { files: 3, bytes: 5 * 1024 * 1024 + 7 }, None, &mut req, &mut p);
    assert_eq!(a.settings_status, "已清除音频缓存：3 个文件，释放 5 MB");
    a.play_id = Some(1);
    a.play_song_id = Some(2);
    assert!(matches!(on_audio_event(&mut a, AudioEvent::Stopped, None, &mut req, &mut p), AudioReaction::Stopped));
    assert_eq!(a.play_status, "已停止");
    assert!(a.play_id.is_none() && a.play_song_id.is_none());
}

#[test]
fn download_failures_are_retried_twice() {
    let mut a = App::new();
    a.queue = vec![song(11, "Q")];
    a.queue_pos = Some(0);
    a.play_br = 128_000;
    let mut req = 30u64;
    let mut p = PendingRequests::new();
    let r = on_audio_event(&mut a, AudioEvent::Error("下载音频失败: timeout".to_string()), None, &mut req, &mut p);
    match r {
        AudioReaction::Retry { song_url: NeteaseCommand::SongUrl { req_id, id, br } } => {
            assert_eq!((req_id, id, br), (30, 11, 128_000));
        }
        other => panic!("unexpected {:?}", other),
    }
    assert_eq!(a.play_status, "播放失败，正在重试(1/2)...");
    assert_eq!(p.song_url, Some((30, "Q - A".to_string())));
    let r = on_audio_event(&mut a, AudioEvent::Error("下载音频失败".to_string()), None, &mut req, &mut p);
    assert!(matches!(r, AudioReaction::Retry { .. }));
    assert_eq!(a.play_status, "播放失败，正在重试(2/2)...");
    let r = on_audio_event(&mut a, AudioEvent::Error("下载音频失败".to_string()), None, &mut req, &mut p);
    assert!(matches!(r, AudioReaction::Nothing));
    assert_eq!(a.play_error_count, 3);
    assert_eq!(a.play_status, "播放错误: 下载音频失败");
}

#[test]
fn other_failures_only_show() {
    let mut a = App::new();
    a.play_song_id = Some(3);
    let mut req = 1u64;
    let mut p = PendingRequests::new();
    let r = on_audio_event(&mut a, AudioEvent::Error("decode".to_string()), None, &mut req, &mut p);
    assert!(matches!(r, AudioReaction::Nothing));
    assert_eq!(a.play_status, "播放错误: decode");
    assert_eq!(a.play_error_count, 0);
    assert_eq!(req, 1);
}

#[test]
fn retry_title_falls_back_to_now_playing_then_unknown() {
    let mut a = App::new();
    a.play_song_id = Some(3);
    a.now_playing = Some("Now".to_string());
    let mut req = 1u64;
    let mut p = PendingRequests::new();
    on_audio_event(&mut a, AudioEvent::Error("下载音频失败".to_string()), None, &mut req, &mut p);
    assert_eq!(p.song_url, Some((1, "Now".to_string())));
    a.now_playing = None;
    on_audio_event(&mut a, AudioEvent::Error("下载音频失败".to_string()), None, &mut req, &mut p);
    assert_eq!(p.song_url, Some((2, "未知歌曲".to_string())));
}

#[test]
fn cycle_mode_shows_and_outdates_prefetch() {
    let mut a = App::new();
    let mut cache = NextSongCacheManager::new();
    cycle_play_mode(&mut a, &mut cache);
    assert_eq!(a.play_mode, PlayMode::SingleLoop);
    assert_eq!(a.play_status, "播放模式: 单曲循环");
}

#[test]
fn cookie_login_reply() {
    let mut a = App::new();
    a.login_cookie_input_visible = true;
    a.login_cookie_input = "abc".to_string();
    let mut req = 5u64;
    let mut p = PendingRequests::new();
    p.login_set_cookie = Some(2);
    assert!(on_login_cookie_set(&mut a, 3, true, "x".to_string(), &mut req, &mut p).is_none());
    assert_eq!(p.login_set_cookie, Some(2));
    let c = on_login_cookie_set(&mut a, 2, true, "登录成功".to_string(), &mut req, &mut p);
    assert!(matches!(c, Some(NeteaseCommand::UserAccount { req_id: 5 })));
    assert!(a.logged_in && !a.login_cookie_input_visible && a.login_cookie_input.is_empty());
    assert_eq!(a.view, View::Playlists);
    assert_eq!(p.account, Some(5));
    assert!(p.login_set_cookie.is_none());

    let mut b = App::new();
    p.login_set_cookie = Some(8);
    assert!(on_login_cookie_set(&mut b, 8, false, "bad".to_string(), &mut req, &mut p).is_none());
    assert_eq!(b.login_status, "验证失败: bad");
}

#[test]
fn cookie_set_events() {
    assert!(matches!(cookie_set_event(1, Ok(())), NeteaseEvent::LoginCookieSet { req_id: 1, success: true, ref message } if message == "登录成功"));
    assert!(matches!(cookie_set_event(2, Err("e".to_string())), NeteaseEvent::LoginCookieSet { req_id: 2, success: false, ref message } if message == "e"));
}
