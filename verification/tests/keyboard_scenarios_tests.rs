use netease_ratui::command::{AppCommand, PlaylistMode, UiFocus, View};
use netease_ratui::keyboard::{handle_key, KeyContext, KeyOutcome};
use netease_ratui::keys::{KeyBindings, KeyCode, KeyEvent, KeyEventKind, KeyModifiers};

fn ctx(view: View, focus: UiFocus) -> KeyContext {
    KeyContext {
        help_visible: false,
        menu_visible: false,
        view,
        ui_focus: focus,
        login_cookie_input_visible: false,
        playlist_mode: PlaylistMode::List,
        keybindings: KeyBindings::default(),
    }
}

fn menu_ctx(view: View) -> KeyContext {
    KeyContext { menu_visible: true, ..ctx(view, UiFocus::BodyCenter) }
}

fn press(code: KeyCode) -> KeyEvent {
    KeyEvent { code, modifiers: KeyModifiers::none(), kind: KeyEventKind::Press }
}

fn only(out: &KeyOutcome, cmd: AppCommand) {
    assert!(!out.quit);
    assert_eq!(out.commands, vec![cmd]);
}

#[test]
fn space_in_search_input_does_not_send_toggle_pause() {
    let out = handle_key(&ctx(View::Search, UiFocus::HeaderSearch), press(KeyCode::Char(' ')));
    assert!(out.commands.iter().all(|c| !matches!(c, AppCommand::PlayerTogglePause)));
}

#[test]
fn space_in_search_body_center_sends_toggle_pause() {
    for focus in [UiFocus::BodyCenter, UiFocus::BodyLeft, UiFocus::BodyRight] {
        let out = handle_key(&ctx(View::Search, focus), press(KeyCode::Char(' ')));
        only(&out, AppCommand::PlayerTogglePause);
    }
}

#[test]
fn space_in_lyrics_sends_toggle_pause() {
    let out = handle_key(&ctx(View::Lyrics, UiFocus::BodyCenter), press(KeyCode::Char(' ')));
    only(&out, AppCommand::PlayerTogglePause);
}

#[test]
fn toast_visible_down_key_triggers_list_move() {
    let out = handle_key(&ctx(View::Playlists, UiFocus::BodyCenter), press(KeyCode::Down));
    only(&out, AppCommand::PlaylistsMoveDown);
}

#[test]
fn toast_visible_up_key_triggers_list_move() {
    let out = handle_key(&ctx(View::Playlists, UiFocus::BodyCenter), press(KeyCode::Up));
    only(&out, AppCommand::PlaylistsMoveUp);
}

#[test]
fn toast_visible_space_triggers_toggle_pause() {
    let out = handle_key(&ctx(View::Playlists, UiFocus::BodyCenter), press(KeyCode::Char(' ')));
    only(&out, AppCommand::PlayerTogglePause);
}

#[test]
fn toast_visible_q_triggers_quit() {
    let out = handle_key(&ctx(View::Playlists, UiFocus::BodyCenter), press(KeyCode::Char('q')));
    assert!(out.quit);
    assert_eq!(out.commands, vec![AppCommand::Quit]);
}

#[test]
fn toast_visible_esc_does_not_dismiss() {
    let out = handle_key(&ctx(View::Playlists, UiFocus::BodyCenter), press(KeyCode::Esc));
    assert!(!out.quit);
    assert!(out.commands.is_empty());
}

#[test]
fn menu_esc_sends_menu_cancel() {
    only(&handle_key(&menu_ctx(View::Playlists), press(KeyCode::Esc)), AppCommand::MenuCancel);
}

#[test]
fn menu_enter_sends_menu_select() {
    only(&handle_key(&menu_ctx(View::Playlists), press(KeyCode::Enter)), AppCommand::MenuSelect);
}

#[test]
fn menu_jk_moves_highlight() {
    let c = menu_ctx(View::Playlists);
    only(&handle_key(&c, press(KeyCode::Char('j'))), AppCommand::MenuMoveDown);
    only(&handle_key(&c, press(KeyCode::Char('k'))), AppCommand::MenuMoveUp);
    only(&handle_key(&c, press(KeyCode::Up)), AppCommand::MenuMoveUp);
    only(&handle_key(&c, press(KeyCode::Down)), AppCommand::MenuMoveDown);
}

#[test]
fn menu_visible_keys_do_not_penetrate() {
    let c = menu_ctx(View::Playlists);
    let out = handle_key(&c, press(KeyCode::Char(' ')));
    assert!(!out.quit && out.commands.is_empty());
    let out = handle_key(&c, press(KeyCode::Char('q')));
    assert!(!out.quit && out.commands.is_empty());
}

#[test]
fn page_up_in_search_sends_search_page_up() {
    only(&handle_key(&ctx(View::Search, UiFocus::BodyCenter), press(KeyCode::PageUp)), AppCommand::SearchPageUp);
}

#[test]
fn home_in_search_sends_search_jump_top() {
    only(&handle_key(&ctx(View::Search, UiFocus::BodyCenter), press(KeyCode::Home)), AppCommand::SearchJumpTop);
}

#[test]
fn end_in_search_sends_search_jump_bottom() {
    only(&handle_key(&ctx(View::Search, UiFocus::BodyCenter), press(KeyCode::End)), AppCommand::SearchJumpBottom);
}

#[test]
fn page_down_in_playlists_left_sends_playlists_page_down() {
    only(
        &handle_key(&ctx(View::Playlists, UiFocus::BodyLeft), press(KeyCode::PageDown)),
        AppCommand::PlaylistsPageDown,
    );
}

#[test]
fn page_down_in_playlist_tracks_sends_tracks_page_down() {
    let c = KeyContext { playlist_mode: PlaylistMode::Tracks, ..ctx(View::Playlists, UiFocus::BodyCenter) };
    only(&handle_key(&c, press(KeyCode::PageDown)), AppCommand::PlaylistTracksPageDown);
}

#[test]
fn home_end_in_playlists_left_sends_jump_commands() {
    let c = ctx(View::Playlists, UiFocus::BodyLeft);
    only(&handle_key(&c, press(KeyCode::Home)), AppCommand::PlaylistsJumpTop);
    only(&handle_key(&c, press(KeyCode::End)), AppCommand::PlaylistsJumpBottom);
}

#[test]
fn cross_area_search_space_tab_menu_esc_flow() {
    let search = ctx(View::Search, UiFocus::HeaderSearch);
    only(&handle_key(&search, press(KeyCode::Char(' '))), AppCommand::SearchInputChar { c: ' ' });
    only(&handle_key(&search, press(KeyCode::Tab)), AppCommand::UiFocusNext);
    let results = ctx(View::Search, UiFocus::BodyCenter);
    only(&handle_key(&results, press(KeyCode::Char('m'))), AppCommand::MenuOpen);
    only(&handle_key(&menu_ctx(View::Search), press(KeyCode::Esc)), AppCommand::MenuCancel);
}
