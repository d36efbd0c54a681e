use netease_ratui::command::{AppCommand, PlaylistMode, View};
use netease_ratui::layout::{Rect, MIN_CANVAS_HEIGHT, MIN_CANVAS_WIDTH};
use netease_ratui::mouse::{
    handle_mouse_at, handle_mouse_with_canvas, is_double_click, row_to_item_index, seek_position_ms,
    DoubleClickDetector, MouseButton, MouseContext, MouseEvent, MouseEventKind, Panel,
    FOOTER_HEIGHT, HEADER_HEIGHT, LEFT_WIDTH,
};

fn canvas() -> Rect {
    Rect {
        x: 0,
        y: 0,
        width: MIN_CANVAS_WIDTH,
        height: MIN_CANVAS_HEIGHT,
    }
}

fn ctx(view: View) -> MouseContext {
    MouseContext {
        help_visible: false,
        view,
        playlist_mode: PlaylistMode::List,
        tab_titles: vec!["歌单".to_string(), "搜索".to_string(), "歌词".to_string(), "设置".to_string()],
        playlists_count: 0,
        playlist_tracks_count: 0,
        search_results_count: 0,
        play_total_ms: None,
    }
}

fn click(col: u16, row: u16) -> MouseEvent {
    MouseEvent {
        kind: MouseEventKind::Down(MouseButton::Left),
        column: col,
        row,
    }
}

#[test]
fn click_playlist_list_selects_item() {
    let mut c = ctx(View::Playlists);
    c.playlists_count = 3;
    let mut dc = DoubleClickDetector::new();
    let cmds = handle_mouse_with_canvas(&c, click(5, HEADER_HEIGHT + 3), &canvas(), &mut dc);
    assert_eq!(cmds, vec![AppCommand::PlaylistsMoveTo { index: 2 }]);
}

#[test]
fn click_playlist_tracks_selects_item() {
    let mut c = ctx(View::Playlists);
    c.playlist_mode = PlaylistMode::Tracks;
    c.playlist_tracks_count = 4;
    let mut dc = DoubleClickDetector::new();
    let cmds = handle_mouse_with_canvas(&c, click(LEFT_WIDTH + 10, HEADER_HEIGHT + 4), &canvas(), &mut dc);
    assert_eq!(cmds, vec![AppCommand::PlaylistTracksMoveTo { index: 3 }]);
}

#[test]
fn click_search_result_selects_item() {
    let mut c = ctx(View::Search);
    c.search_results_count = 3;
    let mut dc = DoubleClickDetector::new();
    let cmds = handle_mouse_with_canvas(&c, click(LEFT_WIDTH + 10, HEADER_HEIGHT + 2), &canvas(), &mut dc);
    assert_eq!(cmds, vec![AppCommand::SearchMoveTo { index: 1 }]);
}

#[test]
fn click_on_border_row_does_not_select() {
    let mut c = ctx(View::Search);
    c.search_results_count = 1;
    let mut dc = DoubleClickDetector::new();
    let cmds = handle_mouse_with_canvas(&c, click(LEFT_WIDTH + 10, HEADER_HEIGHT), &canvas(), &mut dc);
    assert!(cmds.is_empty());
}

#[test]
fn click_right_panel_and_outside_canvas_do_nothing() {
    let mut c = ctx(View::Search);
    c.search_results_count = 1;
    let mut dc = DoubleClickDetector::new();
    assert!(handle_mouse_with_canvas(&c, click(100, HEADER_HEIGHT + 1), &canvas(), &mut dc).is_empty());
    assert!(handle_mouse_with_canvas(&c, click(200, 5), &canvas(), &mut dc).is_empty());
}

#[test]
fn double_click_search_result_plays_selected() {
    let mut c = ctx(View::Search);
    c.search_results_count = 3;
    let mut dc = DoubleClickDetector::new();
    let ev = click(LEFT_WIDTH + 10, HEADER_HEIGHT + 3);
    assert_eq!(
        handle_mouse_with_canvas(&c, ev, &canvas(), &mut dc),
        vec![AppCommand::SearchMoveTo { index: 2 }]
    );
    assert_eq!(
        handle_mouse_with_canvas(&c, ev, &canvas(), &mut dc),
        vec![AppCommand::SearchPlaySelected]
    );
}

#[test]
fn double_click_playlist_list_opens_selected() {
    let mut c = ctx(View::Playlists);
    c.playlists_count = 2;
    let mut dc = DoubleClickDetector::new();
    let ev = click(5, HEADER_HEIGHT + 2);
    assert_eq!(
        handle_mouse_with_canvas(&c, ev, &canvas(), &mut dc),
        vec![AppCommand::PlaylistsMoveTo { index: 1 }]
    );
    assert_eq!(
        handle_mouse_with_canvas(&c, ev, &canvas(), &mut dc),
        vec![AppCommand::PlaylistsOpenSelected]
    );
}

#[test]
fn double_click_detector_same_item_double_click() {
    let mut dc = DoubleClickDetector::new();
    assert!(!dc.check_and_update(Panel::Center, 0), "首次点击不应是双击");
    assert!(dc.check_and_update(Panel::Center, 0), "同位置快速点击应是双击");
}

#[test]
fn double_click_detector_different_items_no_double() {
    let mut dc = DoubleClickDetector::new();
    assert!(!dc.check_and_update(Panel::Center, 0), "首次点击");
    assert!(!dc.check_and_update(Panel::Center, 1), "不同项不应触发双击");
}

#[test]
fn double_click_detector_different_panels_no_double() {
    let mut dc = DoubleClickDetector::new();
    assert!(!dc.check_and_update(Panel::Left, 0), "首次点击左面板");
    assert!(!dc.check_and_update(Panel::Center, 0), "不同面板不应触发双击");
}

#[test]
fn double_click_detector_invalidate_resets() {
    let mut dc = DoubleClickDetector::new();
    assert!(!dc.check_and_update(Panel::Center, 0), "首次点击");
    dc.invalidate();
    assert!(!dc.check_and_update(Panel::Center, 0), "invalidate 后不应触发双击");
}

#[test]
fn double_click_window_decision() {
    assert!(is_double_click(Some((Panel::Left, 3)), Panel::Left, 3, 500));
    assert!(!is_double_click(Some((Panel::Left, 3)), Panel::Left, 3, 501));
    assert!(!is_double_click(None, Panel::Left, 3, 0));
}

#[test]
fn progress_bar_seek_positions() {
    let mut c = ctx(View::Playlists);
    c.play_total_ms = Some(240_000);
    let mut dc = DoubleClickDetector::new();
    let footer_row = MIN_CANVAS_HEIGHT - FOOTER_HEIGHT;
    let half = handle_mouse_with_canvas(&c, click(MIN_CANVAS_WIDTH / 2, footer_row), &canvas(), &mut dc);
    assert_eq!(half, vec![AppCommand::PlayerSeekAbsoluteMs { ms: 120_000 }]);
    let start = handle_mouse_with_canvas(&c, click(0, footer_row), &canvas(), &mut dc);
    assert_eq!(start, vec![AppCommand::PlayerSeekAbsoluteMs { ms: 0 }]);
    let end = handle_mouse_with_canvas(&c, click(MIN_CANVAS_WIDTH - 1, footer_row), &canvas(), &mut dc);
    assert_eq!(end, vec![AppCommand::PlayerSeekAbsoluteMs { ms: 238_033 }]);
}

#[test]
fn progress_bar_seek_no_song_no_seek() {
    let c = ctx(View::Playlists);
    let mut dc = DoubleClickDetector::new();
    let cmds = handle_mouse_with_canvas(&c, click(10, MIN_CANVAS_HEIGHT - FOOTER_HEIGHT), &canvas(), &mut dc);
    assert!(cmds.is_empty());
}

#[test]
fn scroll_changes_volume() {
    let c = ctx(View::Playlists);
    let mut dc = DoubleClickDetector::new();
    let up = MouseEvent { kind: MouseEventKind::ScrollUp, column: 10, row: 10 };
    let down = MouseEvent { kind: MouseEventKind::ScrollDown, column: 10, row: 10 };
    assert_eq!(handle_mouse_with_canvas(&c, up, &canvas(), &mut dc), vec![AppCommand::PlayerVolumeUp]);
    assert_eq!(handle_mouse_with_canvas(&c, down, &canvas(), &mut dc), vec![AppCommand::PlayerVolumeDown]);
}

#[test]
fn tab_click_still_works_with_seek_and_scroll() {
    let mut c = ctx(View::Playlists);
    c.play_total_ms = Some(240_000);
    let mut dc = DoubleClickDetector::new();
    assert_eq!(
        handle_mouse_with_canvas(&c, click(1, 0), &canvas(), &mut dc),
        vec![AppCommand::TabTo { index: 0 }]
    );
    assert_eq!(
        handle_mouse_with_canvas(&c, click(8, 0), &canvas(), &mut dc),
        vec![AppCommand::TabTo { index: 1 }]
    );
}

#[test]
fn help_visible_blocks_all_mouse_events() {
    let mut c = ctx(View::Playlists);
    c.help_visible = true;
    c.play_total_ms = Some(240_000);
    c.playlists_count = 3;
    let mut dc = DoubleClickDetector::new();
    assert!(handle_mouse_with_canvas(&c, click(5, HEADER_HEIGHT + 1), &canvas(), &mut dc).is_empty());
    let up = MouseEvent { kind: MouseEventKind::ScrollUp, column: 10, row: 10 };
    assert!(handle_mouse_with_canvas(&c, up, &canvas(), &mut dc).is_empty());
}

#[test]
fn rows_map_to_items_below_the_border() {
    assert_eq!(row_to_item_index(0, 5), None);
    assert_eq!(row_to_item_index(1, 5), Some(0));
    assert_eq!(row_to_item_index(5, 5), Some(4));
    assert_eq!(row_to_item_index(6, 5), None);
}

#[test]
fn seek_position_rounds_to_nearest_millisecond() {
    assert_eq!(seek_position_ms(32, 128, 240_000), 60_000);
    assert_eq!(seek_position_ms(1, 3, 2), 1);
    assert_eq!(seek_position_ms(0, 128, 240_000), 0);
}

#[test]
fn timed_double_click_window() {
    let mut dc = DoubleClickDetector::new();
    assert!(!dc.check_and_update_at(Panel::Center, 2, 1_000));
    assert!(dc.check_and_update_at(Panel::Center, 2, 1_500));
    assert!(!dc.check_and_update_at(Panel::Center, 2, 2_001));
    assert!(!dc.check_and_update_at(Panel::Center, 3, 2_100));
    assert!(!dc.check_and_update_at(Panel::Left, 3, 2_200));
}

#[test]
fn timed_search_double_click_plays() {
    let mut c = ctx(View::Search);
    c.search_results_count = 3;
    let mut dc = DoubleClickDetector::new();
    let ev = click(LEFT_WIDTH + 10, HEADER_HEIGHT + 3);
    let first = handle_mouse_at(&c, ev, &canvas(), &mut dc, 10_000);
    assert_eq!(first, vec![AppCommand::SearchMoveTo { index: 2 }]);
    let second = handle_mouse_at(&c, ev, &canvas(), &mut dc, 10_400);
    assert_eq!(second, vec![AppCommand::SearchPlaySelected]);
    let late = handle_mouse_at(&c, ev, &canvas(), &mut dc, 11_000);
    assert_eq!(late, vec![AppCommand::SearchMoveTo { index: 2 }]);
}
