use netease_ratui::model::{Playlist, SongUrl};
use netease_ratui::play_mode::PlayMode;
use netease_ratui::usecases::{
    apply_settings_adjust, is_clear_cache_selected, is_logout_selected, liked_playlist_index,
    next_id, playlist_list_status, prefetch_title, saturating_add_i64, settings_move_down,
    settings_move_up, step_br, NextSongCacheManager, PlaybackSettings, PlaylistTracksLoad,
    PrefetchAudio,
};
use netease_ratui::netease_actor::NeteaseCommand;

fn asked(c: Option<NeteaseCommand>) -> Option<(u64, i64, i64)> {
    match c {
        Some(NeteaseCommand::SongUrl { req_id, id, br }) => Some((req_id, id, br)),
        Some(_) => panic!("not an address request"),
        None => None,
    }
}

#[test]
fn next_id_hands_out_and_wraps() {
    let mut id = 5u64;
    assert_eq!(next_id(&mut id), 5);
    assert_eq!(id, 6);
    let mut top = u64::MAX;
    assert_eq!(next_id(&mut top), u64::MAX);
    assert_eq!(top, 0);
}

#[test]
fn playlist_tracks_load_in_chunks() {
    let ids: Vec<i64> = (0..450).collect();
    let mut load = PlaylistTracksLoad::new(9, ids.clone());
    assert_eq!(load.total, 450);
    assert!(!load.is_done());
    let a = load.next_chunk();
    let b = load.next_chunk();
    let c = load.next_chunk();
    assert!(load.is_done());
    assert_eq!(a.len(), 200);
    assert_eq!(b.len(), 200);
    assert_eq!(c.len(), 50);
    let all: Vec<i64> = a.into_iter().chain(b).chain(c).collect();
    assert_eq!(all, ids);
    assert!(load.next_chunk().is_empty());
}

#[test]
fn liked_playlist_is_selected() {
    let p = |id, name: &str, st| Playlist { id, name: name.to_string(), track_count: 0, special_type: st };
    assert_eq!(liked_playlist_index(&vec![p(1, "A", 0), p(2, "我喜欢的音乐", 0)]), 1);
    assert_eq!(liked_playlist_index(&vec![p(1, "A", 0), p(2, "B", 5)]), 1);
    assert_eq!(liked_playlist_index(&vec![p(1, "A", 0)]), 0);
}

#[test]
fn list_status_line() {
    assert_eq!(playlist_list_status(3, ""), "歌单: 3 个（已选中我喜欢的音乐，回车打开）");
    assert_eq!(
        playlist_list_status(3, "预加载 1/3"),
        "歌单: 3 个（已选中我喜欢的音乐，回车打开） | 预加载 1/3"
    );
}

#[test]
fn prefetch_cycle() {
    let mut m = NextSongCacheManager::new();
    let mut req = 10u64;
    assert!(!m.owns_req(10));
    assert_eq!(asked(m.prefetch_next(PlayMode::Shuffle, Some(7), 320_000, &mut req)), None);
    assert_eq!(asked(m.prefetch_next(PlayMode::SingleLoop, Some(7), 320_000, &mut req)), None);
    assert_eq!(asked(m.prefetch_next(PlayMode::ListLoop, None, 320_000, &mut req)), None);
    assert_eq!(req, 10);
    assert_eq!(asked(m.prefetch_next(PlayMode::ListLoop, Some(7), 320_000, &mut req)), Some((10, 7, 320_000)));
    assert!(m.owns_req(10));
    let url = SongUrl { id: 7, url: "u".to_string() };
    assert_eq!(m.on_song_url(11, &url, 320_000), None);
    assert!(!m.owns_req(10));
    assert_eq!(asked(m.prefetch_next(PlayMode::ListLoop, Some(7), 320_000, &mut req)), Some((11, 7, 320_000)));
    assert_eq!(
        m.on_song_url(11, &url, 320_000),
        Some(PrefetchAudio { id: 7, br: 320_000, url: "u".to_string(), title: "预缓存: 7".to_string() })
    );
    assert!(!m.owns_req(11));
    assert_eq!(asked(m.prefetch_next(PlayMode::ListLoop, Some(7), 320_000, &mut req)), None);
    m.reset();
    assert_eq!(asked(m.prefetch_next(PlayMode::Sequential, Some(7), 999_000, &mut req)), Some((12, 7, 999_000)));
    assert!(m.on_error(12));
    assert!(!m.on_error(12));
}

#[test]
fn outdated_prefetch_reply_is_dropped() {
    let mut m = NextSongCacheManager::new();
    let mut req = 1u64;
    assert_eq!(asked(m.prefetch_next(PlayMode::ListLoop, Some(3), 128_000, &mut req)), Some((1, 3, 128_000)));
    m.reset();
    assert!(!m.owns_req(1));
    let url = SongUrl { id: 3, url: "u".to_string() };
    assert_eq!(m.on_song_url(1, &url, 128_000), None);
    let mut m2 = NextSongCacheManager::new();
    assert_eq!(asked(m2.prefetch_next(PlayMode::ListLoop, Some(3), 128_000, &mut req)), Some((2, 3, 128_000)));
    let wrong = SongUrl { id: 4, url: "u".to_string() };
    assert_eq!(m2.on_song_url(2, &wrong, 128_000), None);
    assert_eq!(prefetch_title(-3), "预缓存: -3");
}

#[test]
fn owned_request_is_the_last_asked_and_open() {
    let mut m = NextSongCacheManager::new();
    let mut req = 40u64;
    asked(m.prefetch_next(PlayMode::ListLoop, Some(1), 320_000, &mut req));
    asked(m.prefetch_next(PlayMode::ListLoop, Some(2), 320_000, &mut req));
    assert!(!m.owns_req(40));
    assert!(m.owns_req(41));
    assert!(!m.on_error(40));
    assert!(m.owns_req(41));
    assert_eq!(asked(m.prefetch_next(PlayMode::Shuffle, Some(3), 320_000, &mut req)), None);
    assert!(m.owns_req(41));
    assert!(m.on_error(41));
    assert!(!m.owns_req(41));
}

#[test]
fn settings_selection_and_steps() {
    assert!(is_logout_selected(5));
    assert!(is_clear_cache_selected(4));
    assert_eq!(settings_move_up(0), 0);
    assert_eq!(settings_move_down(5), 5);
    assert_eq!(settings_move_down(2), 3);
    assert_eq!(step_br(320_000, 1), 999_000);
    assert_eq!(step_br(999_000, 1), 999_000);
    assert_eq!(step_br(128_000, -1), 128_000);
    assert_eq!(step_br(12_345, -1), 320_000);
    assert_eq!(saturating_add_i64(i64::MAX, 200), i64::MAX);
}

#[test]
fn settings_adjust_items() {
    let mut s = PlaybackSettings {
        play_br: 320_000,
        play_mode: PlayMode::ListLoop,
        lyrics_offset_ms: 0,
        settings_status: String::new(),
    };
    let mut cache = NextSongCacheManager::new();
    assert_eq!(apply_settings_adjust(0, &mut s, -1, &mut cache), None);
    assert_eq!(s.play_br, 192_000);
    assert_eq!(s.settings_status, "音质已设置为 192k");
    assert_eq!(apply_settings_adjust(1, &mut s, 1, &mut cache), Some(true));
    assert_eq!(apply_settings_adjust(2, &mut s, 1, &mut cache), None);
    assert_eq!(s.play_mode, PlayMode::SingleLoop);
    assert_eq!(s.settings_status, "播放模式: 单曲循环");
    assert_eq!(apply_settings_adjust(3, &mut s, -1, &mut cache), None);
    assert_eq!(s.lyrics_offset_ms, -200);
    assert_eq!(s.settings_status, "歌词 offset: -200ms");
}
