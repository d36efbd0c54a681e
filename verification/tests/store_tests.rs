use netease_ratui::model::{Playlist, Song};
use netease_ratui::persist::{
    check_version, playlists_from_lites, restored_elapsed_ms, saved_started_at, PlayerStateError,
    PlaylistLite, SongLite, CURRENT_VERSION,
};
use netease_ratui::play_mode::{play_mode_from_string, play_mode_to_string, PlayMode};
use netease_ratui::queue::PlayQueue;

#[test]
fn test_song_lite_from_song() {
    let song = Song {
        id: 123,
        name: "Test Song".to_string(),
        artists: "Test Artist".to_string(),
    };

    let lite = SongLite::from(&song);
    assert_eq!(lite.id, 123);
    assert_eq!(lite.name, "Test Song");
    assert_eq!(lite.artists, "Test Artist");
}

#[test]
fn test_play_mode_conversion() {
    assert_eq!(play_mode_to_string(PlayMode::Sequential), "Sequential");
    assert_eq!(play_mode_to_string(PlayMode::ListLoop), "ListLoop");
    assert_eq!(play_mode_to_string(PlayMode::SingleLoop), "SingleLoop");
    assert_eq!(play_mode_to_string(PlayMode::Shuffle), "Shuffle");

    assert_eq!(play_mode_from_string("Sequential"), PlayMode::Sequential);
    assert_eq!(play_mode_from_string("ListLoop"), PlayMode::ListLoop);
    assert_eq!(play_mode_from_string("SingleLoop"), PlayMode::SingleLoop);
    assert_eq!(play_mode_from_string("Shuffle"), PlayMode::Shuffle);
    assert_eq!(play_mode_from_string("Invalid"), PlayMode::ListLoop);
}

#[test]
fn test_playlist_lite_from_playlist() {
    let playlist = Playlist {
        id: 456,
        name: "Test Playlist".to_string(),
        track_count: 100,
        special_type: 0,
    };

    let lite = PlaylistLite::from(&playlist);
    assert_eq!(lite.id, 456);
    assert_eq!(lite.name, "Test Playlist");
    assert_eq!(lite.track_count, 100);
}

#[test]
fn test_player_state_error_display() {
    let err = PlayerStateError::Io(std::io::Error::new(
        std::io::ErrorKind::NotFound,
        "file not found",
    ));
    assert!(err.message().contains("IO 错误"));

    let err = PlayerStateError::IncompatibleVersion {
        expected: 1,
        found: 2,
    };
    assert!(err.message().contains("版本不兼容"));
}

#[test]
fn incompatible_version_message_names_both_versions() {
    let err = PlayerStateError::IncompatibleVersion {
        expected: 1,
        found: 99,
    };
    assert_eq!(err.message(), "版本不兼容: 预期 1, 找到 99");
}

#[test]
fn version_check_accepts_only_current() {
    assert!(check_version(CURRENT_VERSION).is_ok());
    match check_version(99) {
        Err(PlayerStateError::IncompatibleVersion { expected, found }) => {
            assert_eq!(expected, 1);
            assert_eq!(found, 99);
        }
        _ => panic!("Expected IncompatibleVersion error"),
    }
}

#[test]
fn test_playqueue_set_cursor_pos() {
    let mut queue = PlayQueue::new(PlayMode::Sequential);

    queue.set_cursor_pos(0);
    assert_eq!(queue.cursor_pos(), None);

    let songs = vec![
        Song {
            id: 1,
            name: "Song 1".to_string(),
            artists: "Artist 1".to_string(),
        },
        Song {
            id: 2,
            name: "Song 2".to_string(),
            artists: "Artist 2".to_string(),
        },
    ];
    queue.set_songs(songs, None);

    queue.set_cursor_pos(1);
    assert_eq!(queue.cursor_pos(), Some(1));

    queue.set_cursor_pos(10);
    assert_eq!(queue.cursor_pos(), None);
}

#[test]
fn save_then_restore_at_once_keeps_position() {
    let now = 1_704_067_380_000i64;
    let started = saved_started_at(now, 65_000).unwrap();
    assert_eq!(started, now - 65_000);
    assert_eq!(restored_elapsed_ms(started, now, now, false, 0), 65_000);
    assert_eq!(saved_started_at(now, 0), None);
}

#[test]
fn restore_of_paused_snapshot_subtracts_paused_time() {
    let saved = 1_000_000i64;
    let started = saved - 10_000;
    assert_eq!(restored_elapsed_ms(started, saved + 1_000, saved, true, 3_000), 9_000);
    assert_eq!(restored_elapsed_ms(started, saved, saved, true, 20_000), 0);
}

#[test]
fn restored_playlists_have_no_special_type() {
    let lites = vec![PlaylistLite {
        id: 1,
        name: "我的歌单".to_string(),
        track_count: 100,
    }];
    let ps = playlists_from_lites(&lites);
    assert_eq!(ps.len(), 1);
    assert_eq!(ps[0].id, 1);
    assert_eq!(ps[0].name, "我的歌单");
    assert_eq!(ps[0].track_count, 100);
    assert_eq!(ps[0].special_type, 0);
}
