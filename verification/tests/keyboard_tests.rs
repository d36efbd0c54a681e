use netease_ratui::command::{AppCommand, PlaylistMode, UiFocus, View};
use netease_ratui::keyboard::{handle_key, KeyContext};
use netease_ratui::keys::{KeyAction, KeyBindings, KeyCode, KeyEvent, KeyEventKind, KeyModifiers};

fn ctx(view: View, focus: UiFocus) -> KeyContext {
    KeyContext {
        help_visible: false,
        menu_visible: false,
        view,
        ui_focus: focus,
        login_cookie_input_visible: false,
        playlist_mode: PlaylistMode::List,
        keybindings: KeyBindings::default(),
    }
}

fn press(code: KeyCode) -> KeyEvent {
    KeyEvent {
        code,
        modifiers: KeyModifiers::none(),
        kind: KeyEventKind::Press,
    }
}

fn with_mods(code: KeyCode, shift: bool, control: bool, alt: bool) -> KeyEvent {
    KeyEvent {
        code,
        modifiers: KeyModifiers {
            shift,
            control,
            alt,
            other: false,
        },
        kind: KeyEventKind::Press,
    }
}

#[test]
fn keyboard_tab_release_is_ignored() {
    let c = ctx(View::Playlists, UiFocus::BodyLeft);
    let key = KeyEvent {
        code: KeyCode::Tab,
        modifiers: KeyModifiers::none(),
        kind: KeyEventKind::Release,
    };
    let out = handle_key(&c, key);
    assert!(!out.quit);
    assert!(out.commands.is_empty());
}

#[test]
fn tab_press_sends_focus_next_once() {
    let c = ctx(View::Playlists, UiFocus::BodyLeft);
    let out = handle_key(&c, press(KeyCode::Tab));
    assert!(!out.quit);
    assert_eq!(out.commands, vec![AppCommand::UiFocusNext]);
}

#[test]
fn ctrl_tab_switches_page() {
    let c = ctx(View::Playlists, UiFocus::BodyLeft);
    let out = handle_key(&c, with_mods(KeyCode::Tab, false, true, false));
    assert_eq!(out.commands, vec![AppCommand::TabNext]);
}

#[test]
fn f1_sends_tab_to_index_0() {
    let c = ctx(View::Playlists, UiFocus::BodyLeft);
    for f_key in 1..=4u8 {
        let out = handle_key(&c, press(KeyCode::F(f_key)));
        assert!(!out.quit);
        assert_eq!(
            out.commands,
            vec![AppCommand::TabTo {
                index: (f_key as usize) - 1
            }]
        );
    }
}

#[test]
fn number_keys_send_ui_focus_set() {
    let c = ctx(View::Playlists, UiFocus::BodyCenter);
    let cases = vec![
        ('1', UiFocus::HeaderSearch),
        ('2', UiFocus::BodyLeft),
        ('3', UiFocus::BodyCenter),
        ('4', UiFocus::BodyRight),
    ];
    for (key_char, expected_focus) in cases {
        let out = handle_key(&c, press(KeyCode::Char(key_char)));
        assert!(!out.quit);
        assert_eq!(
            out.commands,
            vec![AppCommand::UiFocusSet {
                focus: expected_focus
            }]
        );
    }
}

#[test]
fn number_keys_in_search_input_send_search_char_not_focus_set() {
    let c = ctx(View::Search, UiFocus::HeaderSearch);
    for key_char in ['1', '2', '3', '4'] {
        let out = handle_key(&c, press(KeyCode::Char(key_char)));
        assert!(!out.quit);
        assert_eq!(out.commands, vec![AppCommand::SearchInputChar { c: key_char }]);
    }
}

#[test]
fn backtab_sends_focus_prev() {
    let c = ctx(View::Playlists, UiFocus::BodyLeft);
    let out = handle_key(&c, press(KeyCode::BackTab));
    assert!(!out.quit);
    assert_eq!(out.commands, vec![AppCommand::UiFocusPrev]);
}

#[test]
fn alt_number_keys_always_switch_focus_even_in_search() {
    let c = ctx(View::Search, UiFocus::HeaderSearch);
    for (key_char, expected_focus) in [
        ('1', UiFocus::HeaderSearch),
        ('2', UiFocus::BodyLeft),
        ('3', UiFocus::BodyCenter),
        ('4', UiFocus::BodyRight),
    ] {
        let out = handle_key(&c, with_mods(KeyCode::Char(key_char), false, false, true));
        assert_eq!(
            out.commands,
            vec![AppCommand::UiFocusSet {
                focus: expected_focus
            }]
        );
    }
}

#[test]
fn space_in_search_input_sends_search_input_char() {
    let c = ctx(View::Search, UiFocus::HeaderSearch);
    let out = handle_key(&c, press(KeyCode::Char(' ')));
    assert!(!out.quit);
    assert_eq!(out.commands, vec![AppCommand::SearchInputChar { c: ' ' }]);
}

#[test]
fn space_in_playlists_sends_toggle_pause() {
    let c = ctx(View::Playlists, UiFocus::BodyCenter);
    let out = handle_key(&c, press(KeyCode::Char(' ')));
    assert_eq!(out.commands, vec![AppCommand::PlayerTogglePause]);
}

#[test]
fn q_quits_and_sends_quit() {
    let c = ctx(View::Playlists, UiFocus::BodyCenter);
    let out = handle_key(&c, press(KeyCode::Char('q')));
    assert!(out.quit);
    assert_eq!(out.commands, vec![AppCommand::Quit]);
}

#[test]
fn m_key_sends_menu_open() {
    let c = ctx(View::Playlists, UiFocus::BodyCenter);
    let out = handle_key(&c, press(KeyCode::Char('m')));
    assert!(!out.quit);
    assert_eq!(out.commands, vec![AppCommand::MenuOpen]);
}

#[test]
fn menu_keys_and_no_penetration() {
    let mut c = ctx(View::Playlists, UiFocus::BodyCenter);
    c.menu_visible = true;
    assert_eq!(handle_key(&c, press(KeyCode::Esc)).commands, vec![AppCommand::MenuCancel]);
    assert_eq!(handle_key(&c, press(KeyCode::Enter)).commands, vec![AppCommand::MenuSelect]);
    assert_eq!(handle_key(&c, press(KeyCode::Char('j'))).commands, vec![AppCommand::MenuMoveDown]);
    assert_eq!(handle_key(&c, press(KeyCode::Char('k'))).commands, vec![AppCommand::MenuMoveUp]);
    let q = handle_key(&c, press(KeyCode::Char('q')));
    assert!(!q.quit);
    assert!(q.commands.is_empty());
    assert!(handle_key(&c, press(KeyCode::Char(' '))).commands.is_empty());
}

#[test]
fn help_overlay_only_closes() {
    let mut c = ctx(View::Playlists, UiFocus::BodyCenter);
    c.help_visible = true;
    assert_eq!(handle_key(&c, press(KeyCode::Esc)).commands, vec![AppCommand::UiToggleHelp]);
    assert_eq!(handle_key(&c, press(KeyCode::Char('?'))).commands, vec![AppCommand::UiToggleHelp]);
    let q = handle_key(&c, press(KeyCode::Char('q')));
    assert!(!q.quit);
    assert!(q.commands.is_empty());
}

#[test]
fn cross_area_custom_space_search_input_still_works() {
    let mut c = ctx(View::Search, UiFocus::HeaderSearch);
    let mut b = KeyBindings::empty();
    b.bind(KeyCode::Char('p'), KeyAction::PlayerTogglePause);
    c.keybindings = b;
    assert_eq!(
        handle_key(&c, press(KeyCode::Char(' '))).commands,
        vec![AppCommand::SearchInputChar { c: ' ' }]
    );
    c.ui_focus = UiFocus::BodyCenter;
    assert!(handle_key(&c, press(KeyCode::Char(' '))).commands.is_empty());
    assert_eq!(
        handle_key(&c, press(KeyCode::Char('p'))).commands,
        vec![AppCommand::PlayerTogglePause]
    );
}

#[test]
fn global_player_keys() {
    let c = ctx(View::Lyrics, UiFocus::BodyCenter);
    assert_eq!(
        handle_key(&c, with_mods(KeyCode::Char('s'), false, true, false)).commands,
        vec![AppCommand::PlayerStop]
    );
    assert_eq!(
        handle_key(&c, with_mods(KeyCode::Left, false, true, false)).commands,
        vec![AppCommand::PlayerSeekBackwardMs { ms: 5_000 }]
    );
    assert_eq!(
        handle_key(&c, with_mods(KeyCode::Right, false, true, false)).commands,
        vec![AppCommand::PlayerSeekForwardMs { ms: 5_000 }]
    );
    assert_eq!(
        handle_key(&c, with_mods(KeyCode::Up, false, false, true)).commands,
        vec![AppCommand::PlayerVolumeUp]
    );
    assert_eq!(
        handle_key(&c, with_mods(KeyCode::Left, false, false, true)).commands,
        vec![AppCommand::LyricsOffsetAddMs { ms: -200 }]
    );
    assert_eq!(
        handle_key(&c, with_mods(KeyCode::Right, true, false, true)).commands,
        vec![AppCommand::LyricsOffsetAddMs { ms: 50 }]
    );
    assert_eq!(
        handle_key(&c, press(KeyCode::Char('['))).commands,
        vec![AppCommand::PlayerPrev]
    );
    assert_eq!(
        handle_key(&c, press(KeyCode::Char('M'))).commands,
        vec![AppCommand::PlayerCycleMode]
    );
}

#[test]
fn page_down_in_search_sends_search_page_down() {
    let c = ctx(View::Search, UiFocus::BodyCenter);
    assert_eq!(handle_key(&c, press(KeyCode::PageDown)).commands, vec![AppCommand::SearchPageDown]);
    assert_eq!(handle_key(&c, press(KeyCode::PageUp)).commands, vec![AppCommand::SearchPageUp]);
    assert_eq!(handle_key(&c, press(KeyCode::Home)).commands, vec![AppCommand::SearchJumpTop]);
    assert_eq!(handle_key(&c, press(KeyCode::End)).commands, vec![AppCommand::SearchJumpBottom]);
}

#[test]
fn playlists_left_and_center_keys() {
    let mut c = ctx(View::Playlists, UiFocus::BodyLeft);
    assert_eq!(handle_key(&c, press(KeyCode::PageDown)).commands, vec![AppCommand::PlaylistsPageDown]);
    assert_eq!(handle_key(&c, press(KeyCode::Home)).commands, vec![AppCommand::PlaylistsJumpTop]);
    assert_eq!(handle_key(&c, press(KeyCode::End)).commands, vec![AppCommand::PlaylistsJumpBottom]);
    assert_eq!(handle_key(&c, press(KeyCode::Enter)).commands, vec![AppCommand::PlaylistsOpenSelected]);
    c.playlist_mode = PlaylistMode::Tracks;
    assert_eq!(
        handle_key(&c, press(KeyCode::Enter)).commands,
        vec![AppCommand::Back, AppCommand::PlaylistsOpenSelected]
    );
    c.ui_focus = UiFocus::BodyCenter;
    assert_eq!(
        handle_key(&c, press(KeyCode::PageDown)).commands,
        vec![AppCommand::PlaylistTracksPageDown]
    );
    assert_eq!(
        handle_key(&c, press(KeyCode::Char('p'))).commands,
        vec![AppCommand::PlaylistTracksPlaySelected]
    );
    assert_eq!(handle_key(&c, press(KeyCode::Char('b'))).commands, vec![AppCommand::Back]);
}

#[test]
fn login_and_settings_keys() {
    let mut c = ctx(View::Login, UiFocus::BodyCenter);
    assert_eq!(handle_key(&c, press(KeyCode::Char('l'))).commands, vec![AppCommand::LoginGenerateQr]);
    c.login_cookie_input_visible = true;
    assert_eq!(
        handle_key(&c, press(KeyCode::Char('x'))).commands,
        vec![AppCommand::LoginCookieInputChar { c: 'x' }]
    );
    assert_eq!(handle_key(&c, press(KeyCode::Enter)).commands, vec![AppCommand::LoginCookieSubmit]);
    let s = ctx(View::Settings, UiFocus::BodyCenter);
    assert_eq!(handle_key(&s, press(KeyCode::Left)).commands, vec![AppCommand::SettingsDecrease]);
    assert_eq!(handle_key(&s, press(KeyCode::Enter)).commands, vec![AppCommand::SettingsActivate]);
}

#[test]
fn bindings_resolve_and_rebind() {
    let mut b = KeyBindings::default();
    assert_eq!(b.resolve(KeyCode::Char('q')), Some(KeyAction::Quit));
    assert_eq!(b.resolve(KeyCode::Char(' ')), Some(KeyAction::PlayerTogglePause));
    assert_eq!(b.resolve(KeyCode::Char('z')), None);
    b.bind(KeyCode::Char('q'), KeyAction::MenuOpen);
    assert_eq!(b.resolve(KeyCode::Char('q')), Some(KeyAction::MenuOpen));
    assert_eq!(b.resolve(KeyCode::Char('?')), Some(KeyAction::UiToggleHelp));
}
