use netease_ratui::command::{AppCommand, PlaylistMode, View};
use netease_ratui::layout::{Rect, MIN_CANVAS_HEIGHT, MIN_CANVAS_WIDTH};
use netease_ratui::mouse::{
    handle_mouse_with_canvas, DoubleClickDetector, MouseButton, MouseContext, MouseEvent,
    MouseEventKind, CENTER_WIDTH, FOOTER_HEIGHT, HEADER_HEIGHT, LEFT_WIDTH,
};

fn test_canvas() -> Rect {
    Rect { x: 0, y: 0, width: MIN_CANVAS_WIDTH, height: MIN_CANVAS_HEIGHT }
}

fn ctx(view: View) -> MouseContext {
    MouseContext {
        help_visible: false,
        view,
        playlist_mode: PlaylistMode::List,
        tab_titles: vec!["歌单".to_string(), "搜索".to_string(), "歌词".to_string(), "设置".to_string()],
        playlists_count: 0,
        playlist_tracks_count: 0,
        search_results_count: 0,
        play_total_ms: None,
    }
}

fn make_mouse_event(local_col: u16, local_row: u16, canvas_x: u16, canvas_y: u16) -> MouseEvent {
    MouseEvent { kind: MouseEventKind::Down(MouseButton::Left), column: canvas_x + local_col, row: canvas_y + local_row }
}

fn run_mouse(c: &MouseContext, ev: MouseEvent) -> Vec<AppCommand> {
    let mut dc = DoubleClickDetector::new();
    handle_mouse_with_canvas(c, ev, &test_canvas(), &mut dc)
}

fn seek_ms(cmds: &[AppCommand]) -> u64 {
    assert_eq!(cmds.len(), 1);
    match cmds[0] {
        AppCommand::PlayerSeekAbsoluteMs { ms } => ms,
        other => panic!("expected a seek, got {:?}", other),
    }
}

#[test]
fn click_below_items_does_not_select() {
    let mut c = ctx(View::Search);
    c.search_results_count = 1;
    assert!(run_mouse(&c, make_mouse_event(LEFT_WIDTH + 10, HEADER_HEIGHT + 6, 0, 0)).is_empty());
}

#[test]
fn click_right_panel_does_not_select() {
    let mut c = ctx(View::Search);
    c.search_results_count = 1;
    assert!(run_mouse(&c, make_mouse_event(LEFT_WIDTH + CENTER_WIDTH + 5, HEADER_HEIGHT + 1, 0, 0)).is_empty());
}

#[test]
fn click_footer_does_not_trigger() {
    let mut c = ctx(View::Search);
    c.search_results_count = 1;
    assert!(run_mouse(&c, make_mouse_event(LEFT_WIDTH + 10, MIN_CANVAS_HEIGHT - FOOTER_HEIGHT, 0, 0)).is_empty());
}

#[test]
fn click_empty_list_does_not_select() {
    let c = ctx(View::Search);
    assert!(run_mouse(&c, make_mouse_event(LEFT_WIDTH + 10, HEADER_HEIGHT + 1, 0, 0)).is_empty());
}

#[test]
fn click_playlists_list_mode_center_does_not_select() {
    let mut c = ctx(View::Playlists);
    c.playlists_count = 1;
    assert!(run_mouse(&c, make_mouse_event(LEFT_WIDTH + 10, HEADER_HEIGHT + 1, 0, 0)).is_empty());
}

#[test]
fn double_click_playlist_tracks_plays_selected() {
    let mut c = ctx(View::Playlists);
    c.playlist_mode = PlaylistMode::Tracks;
    c.playlist_tracks_count = 3;
    let mut dc = DoubleClickDetector::new();
    let first = handle_mouse_with_canvas(&c, make_mouse_event(LEFT_WIDTH + 10, HEADER_HEIGHT + 2, 0, 0), &test_canvas(), &mut dc);
    assert_eq!(first, vec![AppCommand::PlaylistTracksMoveTo { index: 1 }]);
    let second = handle_mouse_with_canvas(&c, make_mouse_event(LEFT_WIDTH + 10, HEADER_HEIGHT + 2, 0, 0), &test_canvas(), &mut dc);
    assert_eq!(second, vec![AppCommand::PlaylistTracksPlaySelected]);
}

#[test]
fn cross_panel_clicks_do_not_trigger_double_click() {
    let mut c = ctx(View::Playlists);
    c.playlist_mode = PlaylistMode::Tracks;
    c.playlists_count = 2;
    c.playlist_tracks_count = 2;
    let mut dc = DoubleClickDetector::new();
    let first = handle_mouse_with_canvas(&c, make_mouse_event(5, HEADER_HEIGHT + 1, 0, 0), &test_canvas(), &mut dc);
    assert_eq!(first, vec![AppCommand::PlaylistsMoveTo { index: 0 }]);
    let second = handle_mouse_with_canvas(&c, make_mouse_event(LEFT_WIDTH + 10, HEADER_HEIGHT + 1, 0, 0), &test_canvas(), &mut dc);
    assert_eq!(second, vec![AppCommand::PlaylistTracksMoveTo { index: 0 }]);
}

#[test]
fn double_click_different_items_just_selects() {
    let mut c = ctx(View::Search);
    c.search_results_count = 2;
    let mut dc = DoubleClickDetector::new();
    let first = handle_mouse_with_canvas(&c, make_mouse_event(LEFT_WIDTH + 10, HEADER_HEIGHT + 1, 0, 0), &test_canvas(), &mut dc);
    assert_eq!(first, vec![AppCommand::SearchMoveTo { index: 0 }]);
    let second = handle_mouse_with_canvas(&c, make_mouse_event(LEFT_WIDTH + 10, HEADER_HEIGHT + 2, 0, 0), &test_canvas(), &mut dc);
    assert_eq!(second, vec![AppCommand::SearchMoveTo { index: 1 }]);
}

#[test]
fn click_outside_canvas_does_not_trigger() {
    let mut c = ctx(View::Search);
    c.search_results_count = 1;
    let ev = MouseEvent { kind: MouseEventKind::Down(MouseButton::Left), column: MIN_CANVAS_WIDTH + 10, row: HEADER_HEIGHT + 1 };
    assert!(run_mouse(&c, ev).is_empty());
}

#[test]
fn progress_bar_seek_quarter_position() {
    let mut c = ctx(View::Playlists);
    c.play_total_ms = Some(240_000);
    let quarter_col = MIN_CANVAS_WIDTH / 4;
    let ms = seek_ms(&run_mouse(&c, make_mouse_event(quarter_col, MIN_CANVAS_HEIGHT - FOOTER_HEIGHT, 0, 0)));
    let expected = (240_000.0 * (quarter_col as f64 / MIN_CANVAS_WIDTH as f64)).round() as u64;
    assert!((ms as i64 - expected as i64).unsigned_abs() <= 1000);
}

#[test]
fn progress_bar_seek_three_quarter_position() {
    let mut c = ctx(View::Playlists);
    c.play_total_ms = Some(240_000);
    let col = (MIN_CANVAS_WIDTH * 3) / 4;
    let ms = seek_ms(&run_mouse(&c, make_mouse_event(col, MIN_CANVAS_HEIGHT - FOOTER_HEIGHT, 0, 0)));
    let expected = (240_000.0 * (col as f64 / MIN_CANVAS_WIDTH as f64)).round() as u64;
    assert!((ms as i64 - expected as i64).unsigned_abs() <= 1000);
}

#[test]
fn progress_bar_seek_start_position() {
    let mut c = ctx(View::Playlists);
    c.play_total_ms = Some(240_000);
    let ms = seek_ms(&run_mouse(&c, make_mouse_event(0, MIN_CANVAS_HEIGHT - FOOTER_HEIGHT, 0, 0)));
    assert!(ms < 2000);
}

#[test]
fn progress_bar_seek_end_position() {
    let mut c = ctx(View::Playlists);
    c.play_total_ms = Some(240_000);
    let ms = seek_ms(&run_mouse(&c, make_mouse_event(MIN_CANVAS_WIDTH - 1, MIN_CANVAS_HEIGHT - FOOTER_HEIGHT, 0, 0)));
    assert!(ms >= 238_000);
}

#[test]
fn scroll_up_sends_volume_up() {
    let c = ctx(View::Playlists);
    let ev = MouseEvent { kind: MouseEventKind::ScrollUp, column: MIN_CANVAS_WIDTH / 2, row: MIN_CANVAS_HEIGHT / 2 };
    assert_eq!(run_mouse(&c, ev), vec![AppCommand::PlayerVolumeUp]);
}

#[test]
fn scroll_down_sends_volume_down() {
    let c = ctx(View::Playlists);
    let ev = MouseEvent { kind: MouseEventKind::ScrollDown, column: MIN_CANVAS_WIDTH / 2, row: MIN_CANVAS_HEIGHT / 2 };
    assert_eq!(run_mouse(&c, ev), vec![AppCommand::PlayerVolumeDown]);
}

#[test]
fn outside_canvas_mouse_ignored() {
    let c = ctx(View::Playlists);
    let click = MouseEvent { kind: MouseEventKind::Down(MouseButton::Left), column: MIN_CANVAS_WIDTH + 10, row: HEADER_HEIGHT + 1 };
    let scroll = MouseEvent { kind: MouseEventKind::ScrollUp, column: MIN_CANVAS_WIDTH + 10, row: HEADER_HEIGHT + 1 };
    assert!(run_mouse(&c, click).is_empty());
    assert!(run_mouse(&c, scroll).is_empty());
}

#[test]
fn cross_area_toast_visible_mouse_click_still_works() {
    let mut c = ctx(View::Search);
    c.search_results_count = 2;
    assert_eq!(
        run_mouse(&c, make_mouse_event(LEFT_WIDTH + 10, HEADER_HEIGHT + 2, 0, 0)),
        vec![AppCommand::SearchMoveTo { index: 1 }]
    );
}
