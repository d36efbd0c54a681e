use netease_ratui::app_state::App;
use netease_ratui::command::{PlaylistMode, UiFocus, View};
use netease_ratui::model::{LyricLine, Playlist, Song};
use netease_ratui::panels::{context_panel, queue_preview_lines, PanelExtras};
use netease_ratui::play_mode::PlayMode;
use netease_ratui::screens::{
    footer_lines, header_status_text, highlighted_row, left_panel_lines, login_cookie_texts,
    login_qr_texts, lyric_highlight, lyric_rows, lyric_scroll_padding, menu_rows, now_panel_lines,
    playlist_detail_lines, playlist_rows, search_hint_text, search_rows, settings_items,
    tab_labels, toast_text, track_rows, FooterInput, COOKIE_HELP_COMPACT, COOKIE_HELP_FULL,
};
use netease_ratui::toast::Toast;

fn song(id: i64, name: &str, artists: &str) -> Song {
    Song { id, name: name.to_string(), artists: artists.to_string() }
}

fn extras() -> PanelExtras {
    PanelExtras {
        offset_text: "+0.00s".to_string(),
        volume_text: "100%".to_string(),
        elapsed_ms: 0,
        crossfade_ms: 300,
    }
}

#[test]
fn queue_preview_marks_the_current_song() {
    let q = vec![song(1, "a", "x"), song(2, "b", "y"), song(3, "c", "z")];
    assert!(queue_preview_lines(&q, Some(1), 0).is_empty());
    assert_eq!(queue_preview_lines(&vec![], None, 5), vec!["队列: 空".to_string()]);
    assert_eq!(
        queue_preview_lines(&q, Some(1), 5),
        vec!["队列:2/3".to_string(), ">2.b-y".to_string(), " 3.c-z".to_string()]
    );
    assert_eq!(queue_preview_lines(&q, Some(9), 2), vec!["队列:3/3".to_string(), ">3.c-z".to_string()]);
    assert_eq!(queue_preview_lines(&q, None, 1), vec!["队列:1/3".to_string()]);
}

#[test]
fn context_panel_for_each_page() {
    let mut a = App::new();
    let (t, lines) = context_panel(&a, 10, &extras());
    assert_eq!(t, "登录");
    assert_eq!(lines, vec![a.login_status.clone(), "已登录: 否".to_string()]);

    a.view = View::Playlists;
    a.playlists_status = "ok".to_string();
    a.playlists = vec![Playlist { id: 1, name: "P".to_string(), track_count: 12, special_type: 0 }];
    a.queue = vec![song(5, "s", "t")];
    a.queue_pos = Some(0);
    let (t, lines) = context_panel(&a, 7, &extras());
    assert_eq!(t, "歌单");
    assert_eq!(
        lines,
        vec!["ok", "模式: 歌单", "数量: 1 | 选中: 1", "歌单: P", "曲目: 12", "队列:1/1", ">1.s-t"]
            .into_iter()
            .map(String::from)
            .collect::<Vec<_>>()
    );
    a.playlist_mode = PlaylistMode::Tracks;
    let (_, lines) = context_panel(&a, 3, &extras());
    assert_eq!(lines, vec!["ok", "模式: 歌曲", "数量: 0 | 选中: 0"].into_iter().map(String::from).collect::<Vec<_>>());

    a.view = View::Settings;
    a.settings_selected = 2;
    a.play_br = 128_000;
    let (t, lines) = context_panel(&a, 3, &extras());
    assert_eq!(t, "设置");
    assert_eq!(lines[1], "选中: 3");
    assert_eq!(lines[2], "音质: 128k");
    assert_eq!(lines[4], "模式: 列表循环");
    assert_eq!(lines[6], "淡入淡出: 300ms");
}

#[test]
fn context_panel_lyrics_shows_current_line() {
    let mut a = App::new();
    a.view = View::Lyrics;
    a.lyrics = vec![
        LyricLine { time_ms: 0, text: "one".to_string(), translation: None },
        LyricLine { time_ms: 1000, text: "two".to_string(), translation: None },
    ];
    a.lyrics_offset_ms = 500;
    let mut x = extras();
    x.elapsed_ms = 600;
    let (_, lines) = context_panel(&a, 10, &x);
    assert_eq!(lines.len(), 5);
    assert_eq!(lines[4], "当前: two");
    assert_eq!(lines[3], "行数: 2");
}

#[test]
fn list_rows() {
    let pls = vec![
        Playlist { id: 1, name: "我喜欢的音乐".to_string(), track_count: 3, special_type: 0 },
        Playlist { id: 2, name: "Mix".to_string(), track_count: -1, special_type: 0 },
        Playlist { id: 3, name: "Fav".to_string(), track_count: 0, special_type: 5 },
    ];
    assert_eq!(
        playlist_rows(&pls),
        vec!["1. 我喜欢的音乐(3首) ♥", "2. Mix(-1首)", "3. Fav(0首) ♥"].into_iter().map(String::from).collect::<Vec<_>>()
    );
    let songs = vec![song(9, "n", "a")];
    assert_eq!(track_rows(&songs), vec!["1. n-a".to_string()]);
    assert_eq!(search_rows(&songs), vec!["9. n-a(1)".to_string()]);
    assert_eq!(highlighted_row(0, 3), None);
    assert_eq!(highlighted_row(2, 3), Some(1));
    assert_eq!(highlighted_row(4, 3), Some(3));
}

#[test]
fn playlist_detail_hint() {
    let pls = vec![Playlist { id: 1, name: "P".to_string(), track_count: 4, special_type: 0 }];
    assert_eq!(
        playlist_detail_lines("s", &pls, 0),
        vec!["s".to_string(), "".to_string(), "选中:P(4首)\n回车打开歌单".to_string()]
    );
    assert_eq!(playlist_detail_lines("s", &pls, 1)[2], "暂无歌单，等待登录后加载");
}

#[test]
fn footer_text() {
    let x = FooterInput {
        view_status: "hi".to_string(),
        now_playing: None,
        elapsed_ms: 60_000,
        total_ms: Some(240_000),
        paused: true,
        play_mode: PlayMode::Shuffle,
        volume_text: "80%".to_string(),
        play_br: 999_000,
    };
    let l = footer_lines(&x);
    assert_eq!(l[0], "提示:hi|Now:-");
    assert_eq!(
        l[1],
        "时间: 01:00 / 04:00 (暂停) | 模式: 随机 | 音量: 80% | 音质: 最高 | 进度: [######------------------]"
    );
    assert!(l[2].starts_with("1-4 切换页"));
    let y = FooterInput { total_ms: None, paused: false, now_playing: Some("S".to_string()), ..x };
    let l = footer_lines(&y);
    assert_eq!(l[0], "提示:hi|Now:S");
    assert!(l[1].starts_with("时间: 01:00 / --:-- | 模式"));
}

#[test]
fn now_panel_and_settings_items() {
    assert_eq!(
        now_panel_lines(&None, "未播放", PlayMode::Sequential, "50%", 192_000),
        vec!["Now:-", "状态:未播放", "模式:顺序", "音量:50%", "音质:192k"].into_iter().map(String::from).collect::<Vec<_>>()
    );
    let items = settings_items(1, "100%", PlayMode::ListLoop, "-0.20s", 0, false);
    assert_eq!(items[0], "音质: 自定义");
    assert_eq!(items[3], "歌词 offset: -0.20s");
    assert_eq!(items[4], "淡入淡出: 关闭");
    assert_eq!(items[6], "退出登录（未登录）");
    assert_eq!(settings_items(1, "", PlayMode::ListLoop, "", 250, true)[4], "淡入淡出: 250ms");
}

#[test]
fn lyrics_rows_and_highlight() {
    let l = vec![
        LyricLine { time_ms: 0, text: "a".to_string(), translation: Some("  ".to_string()) },
        LyricLine { time_ms: 10, text: "b".to_string(), translation: Some("B".to_string()) },
    ];
    let rows = lyric_rows(&l);
    assert_eq!(rows[0], vec!["a".to_string()]);
    assert_eq!(rows[1], vec!["b".to_string(), "  B".to_string()]);
    assert_eq!(lyric_highlight(&l, true, 0, 12, 0), 1);
    assert_eq!(lyric_highlight(&l, true, 0, 12, -5), 0);
    assert_eq!(lyric_highlight(&l, false, 7, 0, 0), 1);
    assert_eq!(lyric_scroll_padding(30), 5);
    assert_eq!(lyric_scroll_padding(8), 3);
    assert_eq!(lyric_scroll_padding(1), 0);
}

#[test]
fn menu_and_toast_and_header() {
    let items = vec!["a".to_string(), "b".to_string()];
    assert_eq!(menu_rows(&items, 1), vec!["   a".to_string(), " > b".to_string()]);
    assert_eq!(toast_text(&Toast::error("x")), "❌ x");
    assert_eq!(toast_text(&Toast::info("y")), "ℹ️  y");
    assert_eq!(tab_labels(&vec!["歌单".to_string(), "搜索".to_string()]), vec!["歌单[F1]".to_string(), "搜索[F2]".to_string()]);
    assert_eq!(search_hint_text(""), "Search[1]: (type and Enter)");
    assert_eq!(search_hint_text("k"), "Search[1]: k");
    assert_eq!(header_status_text("歌单", UiFocus::BodyCenter, true, false), "View:歌单|Focus:Center|Login:Yes|Help:Off");
}

#[test]
fn left_panel_per_page() {
    let mut a = App::new();
    let (t, lines) = left_panel_lines(&a, "+0.00s", 0).unwrap();
    assert_eq!(t, "登录");
    assert_eq!(lines[1], "l 生成二维码");
    a.view = View::Playlists;
    assert!(left_panel_lines(&a, "", 0).is_none());
    a.view = View::Settings;
    let (_, lines) = left_panel_lines(&a, "", 2).unwrap();
    assert_eq!(lines, vec![" 播放", " 歌词", ">缓存", " 账号"].into_iter().map(String::from).collect::<Vec<_>>());
}

#[test]
fn login_texts() {
    let (qr, info) = login_qr_texts(&None, &None, "s", false, true);
    assert_eq!(qr, "尚未生成二维码\n\n按 l 生成二维码\n按 c 使用 Cookie 登录");
    assert!(info.starts_with("状态:\ns\n\n已登录: 否 (可扫码或 Cookie 登录)\n\n快捷键:"));
    assert!(info.ends_with("URL:\n-"));
    let (qr, info) = login_qr_texts(&Some("QR".to_string()), &Some("u".to_string()), "s", true, false);
    assert_eq!(qr, "QR");
    assert!(info.starts_with("状态: s\n已登录: 是\nURL: u\n\n快捷键:"));
    let (p, h) = login_cookie_texts("st", true);
    assert_eq!(p, "状态: st\n手动登录：输入 MUSIC_U Cookie 值");
    assert_eq!(h, COOKIE_HELP_FULL);
    let (p, h) = login_cookie_texts("st", false);
    assert_eq!(p, "手动登录：输入 MUSIC_U Cookie 值");
    assert_eq!(h, COOKIE_HELP_COMPACT);
}
