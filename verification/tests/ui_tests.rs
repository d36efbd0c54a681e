use netease_ratui::layout::{calculate_tab_index, canvas_rect, tab_index_for_widths, Rect};
use netease_ratui::model::LyricLine;
use netease_ratui::play_mode::{play_mode_label, PlayMode};
use netease_ratui::toast::{default_menu_items, is_expired_after, Toast, ToastLevel};
use netease_ratui::widgets::{
    apply_lyrics_offset, br_label, centered_rect, current_lyric_index, elapsed_from, fmt_mmss,
    menu_popup_rect, progress_bar_text,
};

#[test]
fn test_toast_error_duration() {
    assert_eq!(ToastLevel::Error.duration_ms(), Some(8000));
}

#[test]
fn test_toast_warning_duration() {
    assert_eq!(ToastLevel::Warning.duration_ms(), Some(5000));
}

#[test]
fn test_toast_info_duration() {
    assert_eq!(ToastLevel::Info.duration_ms(), Some(3000));
}

#[test]
fn test_toast_expiration() {
    let toast = Toast::info("test");
    assert!(!toast.is_expired());

    let toast = Toast::error("test");
    assert!(!toast.is_expired());
}

#[test]
fn test_error_toast_has_8s_duration() {
    let toast = Toast::error("test error");
    assert_eq!(toast.level, ToastLevel::Error);
    assert_eq!(toast.level.duration_ms(), Some(8000));
}

#[test]
fn test_info_toast_has_3s_duration() {
    let toast = Toast::info("test info");
    assert_eq!(toast.level, ToastLevel::Info);
    assert_eq!(toast.level.duration_ms(), Some(3000));
}

#[test]
fn test_warning_toast_has_5s_duration() {
    let toast = Toast::warning("test warning");
    assert_eq!(toast.level, ToastLevel::Warning);
    assert_eq!(toast.level.duration_ms(), Some(5000));
}

#[test]
fn new_toast_replaces_old_toast() {
    let _toast1 = Toast::info("first");
    let toast2 = Toast::error("second");

    let current = toast2;

    assert_eq!(current.message, "second");
    assert_eq!(current.level, ToastLevel::Error);
}

#[test]
fn toast_expires_after_its_duration() {
    assert!(!is_expired_after(ToastLevel::Info, 2999));
    assert!(is_expired_after(ToastLevel::Info, 3000));
    assert!(!is_expired_after(ToastLevel::Error, 7999));
    assert!(is_expired_after(ToastLevel::Error, 8000));
    assert!(is_expired_after(ToastLevel::Warning, 5000));
}

#[test]
fn default_menu_items_has_at_least_4() {
    let items = default_menu_items();
    assert!(
        items.len() >= 4,
        "菜单应有至少 4 个选项，实际有 {} 个",
        items.len()
    );
    assert!(items.iter().any(|i| i.contains("收藏")));
    assert!(items.iter().any(|i| i.contains("下载")));
}

#[test]
fn progress_bar_playing_shows_correct_fill() {
    let result = progress_bar_text(60_000, Some(240_000), 24);
    let hashes = result.chars().filter(|c| *c == '#').count();
    let dashes = result.chars().filter(|c| *c == '-').count();
    assert_eq!(
        hashes, 6,
        "expected 6 filled chars, got {hashes} in: {result}"
    );
    assert_eq!(
        dashes, 18,
        "expected 18 empty chars, got {dashes} in: {result}"
    );
}

#[test]
fn fmt_mmss_formats_elapsed_time() {
    assert_eq!(fmt_mmss(90_000), "01:30");
}

#[test]
fn fmt_mmss_formats_total_duration() {
    assert_eq!(fmt_mmss(240_000), "04:00");
}

#[test]
fn progress_bar_paused_position_unchanged() {
    let bar1 = progress_bar_text(120_000, Some(240_000), 24);
    let bar2 = progress_bar_text(120_000, Some(240_000), 24);
    assert_eq!(bar1, bar2, "paused progress bar position should not change");
}

#[test]
fn progress_bar_empty_state_when_no_song() {
    let result = progress_bar_text(0, None, 24);
    let hashes = result.chars().filter(|c| *c == '#').count();
    let dashes = result.chars().filter(|c| *c == '-').count();
    assert_eq!(hashes, 0, "no fill when no song");
    assert_eq!(dashes, 24, "all dashes when no song");

    assert_eq!(fmt_mmss(0), "00:00");
}

#[test]
fn progress_bar_fill_never_exceeds_width() {
    let result = progress_bar_text(300_000, Some(240_000), 24);
    let hashes = result.chars().filter(|c| *c == '#').count();
    let dashes = result.chars().filter(|c| *c == '-').count();
    assert_eq!(hashes, 24, "fill should saturate at width");
    assert_eq!(dashes, 0, "no dashes when fully filled");
    assert_eq!(hashes + dashes, 24, "total bar width should be 24");
}

#[test]
fn pause_indicator_in_time_text() {
    let paused = true;
    let suffix = if paused { " (暂停)" } else { "" };
    assert!(
        suffix.contains("暂停"),
        "paused time text should contain 暂停 marker"
    );

    let not_paused_suffix = if false { " (暂停)" } else { "" };
    assert!(
        !not_paused_suffix.contains("暂停"),
        "non-paused time text should not contain 暂停 marker"
    );
}

#[test]
fn progress_bar_exact_text_and_rounding() {
    assert_eq!(progress_bar_text(60_000, Some(240_000), 4), "进度: [#---]");
    // 1/8 of 4 cells is half a cell, rounded up
    assert_eq!(progress_bar_text(30_000, Some(240_000), 4), "进度: [#---]");
    assert_eq!(progress_bar_text(29_000, Some(240_000), 4), "进度: [----]");
    assert_eq!(progress_bar_text(5, Some(0), 3), "进度: [---]");
}

#[test]
fn fmt_mmss_long_durations() {
    assert_eq!(fmt_mmss(59_999), "00:59");
    assert_eq!(fmt_mmss(6_000_000), "100:00");
}

#[test]
fn br_labels() {
    assert_eq!(br_label(128_000), "128k");
    assert_eq!(br_label(192_000), "192k");
    assert_eq!(br_label(320_000), "320k");
    assert_eq!(br_label(999_000), "最高");
    assert_eq!(br_label(1), "自定义");
}

#[test]
fn play_mode_labels() {
    assert_eq!(play_mode_label(PlayMode::Sequential), "顺序");
    assert_eq!(play_mode_label(PlayMode::ListLoop), "列表循环");
    assert_eq!(play_mode_label(PlayMode::SingleLoop), "单曲循环");
    assert_eq!(play_mode_label(PlayMode::Shuffle), "随机");
}

#[test]
fn lyrics_offset_saturates() {
    assert_eq!(apply_lyrics_offset(1_000, 200), 1_200);
    assert_eq!(apply_lyrics_offset(1_000, -200), 800);
    assert_eq!(apply_lyrics_offset(100, -200), 0);
    assert_eq!(apply_lyrics_offset(u64::MAX - 1, 200), u64::MAX);
}

fn line(t: u64) -> LyricLine {
    LyricLine {
        time_ms: t,
        text: format!("at {t}"),
        translation: None,
    }
}

#[test]
fn current_lyric_index_finds_playing_line() {
    let lines = vec![line(1_000), line(2_000), line(3_000)];
    assert_eq!(current_lyric_index(&[], 5), None);
    assert_eq!(current_lyric_index(&lines, 0), Some(0));
    assert_eq!(current_lyric_index(&lines, 1_000), Some(0));
    assert_eq!(current_lyric_index(&lines, 2_500), Some(1));
    assert_eq!(current_lyric_index(&lines, 3_000), Some(2));
    assert_eq!(current_lyric_index(&lines, 9_000), Some(2));
}

#[test]
fn playback_elapsed_subtracts_pauses() {
    assert_eq!(elapsed_from(10_000, 3_000), 7_000);
    assert_eq!(elapsed_from(1_000, 3_000), 0);
}

#[test]
fn canvas_is_centered_or_absent() {
    let area = Rect { x: 0, y: 0, width: 130, height: 40 };
    assert_eq!(
        canvas_rect(area),
        Some(Rect { x: 4, y: 5, width: 122, height: 29 })
    );
    let small = Rect { x: 0, y: 0, width: 121, height: 40 };
    assert_eq!(canvas_rect(small), None);
    let low = Rect { x: 0, y: 0, width: 130, height: 28 };
    assert_eq!(canvas_rect(low), None);
    let exact = Rect { x: 0, y: 0, width: 122, height: 29 };
    assert_eq!(canvas_rect(exact), Some(exact));
}

#[test]
fn centered_and_menu_rects() {
    let area = Rect { x: 0, y: 0, width: 128, height: 36 };
    assert_eq!(
        centered_rect(area, 40, 6),
        Rect { x: 44, y: 15, width: 40, height: 6 }
    );
    assert_eq!(
        menu_popup_rect(area, 4),
        Rect { x: 44, y: 15, width: 40, height: 6 }
    );
    let tiny = Rect { x: 0, y: 0, width: 10, height: 5 };
    assert_eq!(menu_popup_rect(tiny, 4), Rect { x: 2, y: 2, width: 6, height: 1 });
}

#[test]
fn tab_strip_geometry() {
    // widths 2 and 3: tab 0 covers 0..4, a divider at 4, tab 1 covers 5..10
    let widths = vec![2u16, 3u16];
    assert_eq!(tab_index_for_widths(&widths, 0), Some(0));
    assert_eq!(tab_index_for_widths(&widths, 3), Some(0));
    assert_eq!(tab_index_for_widths(&widths, 4), None);
    assert_eq!(tab_index_for_widths(&widths, 5), Some(1));
    assert_eq!(tab_index_for_widths(&widths, 9), Some(1));
    assert_eq!(tab_index_for_widths(&widths, 10), None);
}

#[test]
fn tab_index_uses_display_width_of_titles() {
    // "歌单" is four cells wide: tab 0 covers 0..6, divider at 6, "Ab" covers 7..11
    let titles = vec!["歌单".to_string(), "Ab".to_string()];
    assert_eq!(calculate_tab_index(&titles, 5), Some(0));
    assert_eq!(calculate_tab_index(&titles, 6), None);
    assert_eq!(calculate_tab_index(&titles, 7), Some(1));
}
