use netease_ratui::app_state::App;
use netease_ratui::model::{Playlist, Song};
use netease_ratui::play_mode::PlayMode;
use netease_ratui::snapshot::{forget_unfit_start, restore_player, saved_player};

fn song(id: i64) -> Song {
    Song { id, name: format!("s{id}"), artists: "a".to_string() }
}

#[test]
fn save_records_queue_progress_and_playlists() {
    let mut a = App::new();
    a.queue = vec![song(1), song(2), song(3)];
    a.queue_pos = Some(1);
    a.play_mode = PlayMode::SingleLoop;
    a.play_br = 320_000;
    a.play_song_id = Some(2);
    a.play_total_ms = Some(200_000);
    a.paused = true;
    a.play_paused_accum_ms = 700;
    a.playlists = vec![Playlist { id: 9, name: "P".to_string(), track_count: 4, special_type: 5 }];
    a.playlists_selected = 0;
    let s = saved_player(&a, 1_000_000, 60_000, Some(2_000));
    assert_eq!(s.progress.started_at_epoch_ms, Some(940_000));
    assert_eq!(s.progress.paused_at_epoch_ms, Some(998_000));
    assert!(s.progress.paused);
    assert_eq!(s.play_queue.order, vec![0, 1, 2]);
    assert_eq!(s.play_queue.cursor, Some(1));
    assert_eq!(s.play_queue.mode, "SingleLoop");
    assert_eq!(s.playlists[0].track_count, 4);
    assert_eq!(s.saved_at_epoch_ms, 1_000_000);

    let s0 = saved_player(&a, 5, 0, None);
    assert_eq!(s0.progress.started_at_epoch_ms, None);
    assert_eq!(s0.progress.paused_at_epoch_ms, Some(5));
}

#[test]
fn restore_at_save_time_gives_back_state_and_position() {
    let mut a = App::new();
    a.queue = vec![song(1), song(2)];
    a.queue_pos = Some(1);
    a.play_mode = PlayMode::Shuffle;
    a.play_br = 128_000;
    a.play_song_id = Some(2);
    a.play_total_ms = Some(90_000);
    a.playlists = vec![Playlist { id: 3, name: "Q".to_string(), track_count: 7, special_type: 5 }];
    let s = saved_player(&a, 50_000, 12_345, None);
    let mut b = App::new();
    let resume = restore_player(&mut b, &s, 50_000);
    assert_eq!(resume, Some(12_345));
    assert_eq!(b.queue, a.queue);
    assert_eq!(b.queue_pos, Some(1));
    assert_eq!(b.play_mode, PlayMode::Shuffle);
    assert_eq!(b.play_br, 128_000);
    assert_eq!(b.play_song_id, Some(2));
    assert!(b.paused);
    assert_eq!(b.playlists[0].special_type, 0);
    assert_eq!(b.playlists[0].name, "Q");
}

#[test]
fn restore_later_moves_position_on_and_drops_pause_time_when_paused() {
    let mut a = App::new();
    a.paused = true;
    a.play_paused_accum_ms = 1_000;
    let s = saved_player(&a, 10_000, 4_000, None);
    let mut b = App::new();
    // saved 4 s in; restored 2 s after the save: 4 + 2 + 2 - 1 (pause time)
    assert_eq!(restore_player(&mut b, &s, 12_000), Some(7_000));
    let empty = saved_player(&App::new(), 10_000, 0, None);
    assert_eq!(restore_player(&mut b, &empty, 12_000), None);
}

use netease_ratui::persist::{
    check_version, PlayQueueState, PlaybackProgress, PlayerStateError, PlaylistLite, SongLite,
};
use netease_ratui::snapshot::SavedPlayer;
use netease_ratui::widgets::{playback_time_ms, PlaybackClock};

#[test]
fn test_playback_elapsed_ms_no_start() {
    let clock = PlaybackClock { started_at: None, paused: false, paused_at: None, paused_accum_ms: 0, total_ms: None };
    let (elapsed, _) = playback_time_ms(&clock);
    assert_eq!(elapsed, 0);
}

#[test]
fn test_apply_snapshot_incompatible_version() {
    let result = check_version(99);
    assert!(result.is_err());
    match result {
        Err(PlayerStateError::IncompatibleVersion { expected, found }) => {
            assert_eq!(expected, 1);
            assert_eq!(found, 99);
        }
        _ => panic!("Expected IncompatibleVersion error"),
    }
}

#[test]
fn test_apply_snapshot_basic() {
    let now = 1_704_067_380_000i64;
    let saved = SavedPlayer {
        play_song_id: Some(123),
        progress: PlaybackProgress {
            started_at_epoch_ms: None,
            total_ms: Some(180000),
            paused: true,
            paused_at_epoch_ms: None,
            paused_accum_ms: 5000,
        },
        play_queue: PlayQueueState {
            songs: vec![SongLite { id: 123, name: "Test Song".to_string(), artists: "Test Artist".to_string() }],
            order: vec![0],
            cursor: Some(0),
            mode: "ListLoop".to_string(),
        },
        play_br: 320000,
        playlists: vec![PlaylistLite { id: 1, name: "My Playlist".to_string(), track_count: 50 }],
        playlists_selected: 0,
        saved_at_epoch_ms: now,
    };
    assert!(check_version(1).is_ok());
    let mut app = App::new();
    let resume = restore_player(&mut app, &saved, now);
    assert_eq!(resume, None);
    assert_eq!(app.play_song_id, Some(123));
    assert_eq!(app.play_br, 320000);
    assert_eq!(app.play_total_ms, Some(180000));
    assert_eq!(app.paused, true);
    assert_eq!(app.play_paused_accum_ms, 5000);
    assert_eq!(app.playlists.len(), 1);
    assert_eq!(app.playlists[0].id, 1);
    assert_eq!(app.play_mode, PlayMode::ListLoop);
    assert_eq!(app.queue_pos, Some(0));
}

#[test]
fn unfit_start_is_forgotten_before_restoring() {
    let a = App::new();
    let mut s = saved_player(&a, 50_000, 12_345, None);
    forget_unfit_start(&mut s, 60_000);
    assert_eq!(s.progress.started_at_epoch_ms, Some(37_655));
    let mut far = saved_player(&a, 50_000, 12_345, None);
    far.progress.started_at_epoch_ms = Some(i64::MIN + 5);
    forget_unfit_start(&mut far, 60_000);
    assert_eq!(far.progress.started_at_epoch_ms, None);
    assert_eq!(far.saved_at_epoch_ms, 50_000);
    let mut b = App::new();
    assert_eq!(restore_player(&mut b, &far, 60_000), None);
}
