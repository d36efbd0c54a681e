//! What a key press asks of the application, given what the screen shows.
use vstd::prelude::*;
use crate::command;
use crate::command::{AppCommand, PlaylistMode, UiFocus};
use crate::keys::{KeyAction, KeyBindings, KeyCode, KeyEvent, KeyEventKind};

verus! {

/// What the key handler reads of the application state.
pub struct KeyContext {
    pub help_visible: bool,
    pub menu_visible: bool,
    pub view: command::View,
    pub ui_focus: UiFocus,
    /// On the login page: whether the cookie input is open.
    pub login_cookie_input_visible: bool,
    /// On the playlists page: whether it lists playlists or tracks.
    pub playlist_mode: PlaylistMode,
    pub keybindings: KeyBindings,
}

/// The commands a key press sends, and whether the application should quit.
pub struct KeyOutcome {
    pub commands: Vec<AppCommand>,
    pub quit: bool,
}

/// The action bound to a key, if any.
pub open spec fn bound(ctx: KeyContext, code: KeyCode) -> Option<KeyAction> {
    if ctx.keybindings@.dom().contains(code) {
        Some(ctx.keybindings@[code])
    } else {
        None
    }
}

/// The focus area that a digit key `1` to `4` selects.
pub open spec fn digit_focus(c: char) -> Option<UiFocus> {
    if c == '1' {
        Some(UiFocus::HeaderSearch)
    } else if c == '2' {
        Some(UiFocus::BodyLeft)
    } else if c == '3' {
        Some(UiFocus::BodyCenter)
    } else if c == '4' {
        Some(UiFocus::BodyRight)
    } else {
        None
    }
}

/// The command a bound action stands for.
pub open spec fn action_command(a: KeyAction) -> AppCommand {
    match a {
        KeyAction::Quit => AppCommand::Quit,
        KeyAction::UiToggleHelp => AppCommand::UiToggleHelp,
        KeyAction::MenuOpen => AppCommand::MenuOpen,
        KeyAction::PlayerPrev => AppCommand::PlayerPrev,
        KeyAction::PlayerNext => AppCommand::PlayerNext,
        KeyAction::PlayerCycleMode => AppCommand::PlayerCycleMode,
        KeyAction::PlayerStop => AppCommand::PlayerStop,
        KeyAction::PlayerTogglePause => AppCommand::PlayerTogglePause,
    }
}

/// Whether the search box has the focus on the search page.
pub open spec fn in_search_input(ctx: KeyContext) -> bool {
    ctx.view == command::View::Search && ctx.ui_focus == UiFocus::HeaderSearch
}

/// While the help overlay shows: Esc closes it, and so does `?` while `?` is bound to help.
pub open spec fn help_response(ctx: KeyContext, key: KeyEvent) -> Seq<AppCommand> {
    if key.code == KeyCode::Esc {
        seq![AppCommand::UiToggleHelp]
    } else if key.code == KeyCode::Char('?') && bound(ctx, KeyCode::Char('?')) == Some(
        KeyAction::UiToggleHelp,
    ) {
        seq![AppCommand::UiToggleHelp]
    } else {
        seq![]
    }
}

/// While the menu shows, it takes every key.
pub open spec fn menu_response(key: KeyEvent) -> Seq<AppCommand> {
    if key.code == KeyCode::Esc {
        seq![AppCommand::MenuCancel]
    } else if key.code == KeyCode::Enter {
        seq![AppCommand::MenuSelect]
    } else if key.code == KeyCode::Up || key.code == KeyCode::Char('k') {
        seq![AppCommand::MenuMoveUp]
    } else if key.code == KeyCode::Down || key.code == KeyCode::Char('j') {
        seq![AppCommand::MenuMoveDown]
    } else {
        seq![]
    }
}

/// A plain key bound to an action sends that action's command; Space bound to
/// pause is left to the later stages, which know about the search box.
pub open spec fn binding_response(ctx: KeyContext, key: KeyEvent) -> Option<Seq<AppCommand>> {
    if key.modifiers.no_modifier() {
        match bound(ctx, key.code) {
            Some(a) => if a == KeyAction::PlayerTogglePause && key.code == KeyCode::Char(' ') {
                None
            } else {
                Some(seq![action_command(a)])
            },
            None => None,
        }
    } else {
        None
    }
}

/// Tab cycles the focus (with Ctrl: the page); F1 to F4 pick a page.
pub open spec fn tab_response(key: KeyEvent) -> Option<Seq<AppCommand>> {
    match key.code {
        KeyCode::Tab => if key.modifiers.control {
            Some(seq![AppCommand::TabNext])
        } else {
            Some(seq![AppCommand::UiFocusNext])
        },
        KeyCode::F(k) => if 1 <= k <= 4 {
            Some(seq![AppCommand::TabTo { index: (k - 1) as usize }])
        } else {
            None
        },
        _ => None,
    }
}

/// Alt with a digit `1` to `4` always moves the focus.
pub open spec fn alt_digit_response(key: KeyEvent) -> Option<Seq<AppCommand>> {
    match key.code {
        KeyCode::Char(c) => if key.modifiers.alt && digit_focus(c) is Some {
            Some(seq![AppCommand::UiFocusSet { focus: digit_focus(c)->0 }])
        } else {
            None
        },
        _ => None,
    }
}

/// The player and focus keys that work on every page; `None` where the key
/// goes on to the page.
pub open spec fn global_response(ctx: KeyContext, key: KeyEvent) -> Option<Seq<AppCommand>> {
    let m = key.modifiers;
    let code = key.code;
    if code is Char && !m.control && digit_focus(code->Char_0) is Some {
        if in_search_input(ctx) {
            None
        } else {
            Some(seq![AppCommand::UiFocusSet { focus: digit_focus(code->Char_0)->0 }])
        }
    } else if code == KeyCode::Char(' ') {
        if in_search_input(ctx) {
            Some(seq![AppCommand::SearchInputChar { c: ' ' }])
        } else if bound(ctx, KeyCode::Char(' ')) == Some(KeyAction::PlayerTogglePause) {
            Some(seq![AppCommand::PlayerTogglePause])
        } else {
            Some(seq![])
        }
    } else if code == KeyCode::Char('s') && m.control {
        Some(seq![AppCommand::PlayerStop])
    } else if code == KeyCode::Left && m.control {
        Some(seq![AppCommand::PlayerSeekBackwardMs { ms: 5000 }])
    } else if code == KeyCode::Right && m.control {
        Some(seq![AppCommand::PlayerSeekForwardMs { ms: 5000 }])
    } else if code == KeyCode::Up && m.alt {
        Some(seq![AppCommand::PlayerVolumeUp])
    } else if code == KeyCode::Down && m.alt {
        Some(seq![AppCommand::PlayerVolumeDown])
    } else if code == KeyCode::Left && m.alt && ctx.view == command::View::Lyrics {
        Some(seq![AppCommand::LyricsOffsetAddMs { ms: if m.shift { -50i64 } else { -200i64 } }])
    } else if code == KeyCode::Right && m.alt && ctx.view == command::View::Lyrics {
        Some(seq![AppCommand::LyricsOffsetAddMs { ms: if m.shift { 50i64 } else { 200i64 } }])
    } else {
        None
    }
}

/// The login page: the cookie input takes text; otherwise `l` asks for a QR
/// code and `c` opens the cookie input.
pub open spec fn login_response(ctx: KeyContext, key: KeyEvent) -> Seq<AppCommand> {
    if ctx.ui_focus != UiFocus::BodyCenter {
        seq![]
    } else if ctx.login_cookie_input_visible {
        match key.code {
            KeyCode::Esc => seq![AppCommand::LoginToggleCookieInput],
            KeyCode::Enter => seq![AppCommand::LoginCookieSubmit],
            KeyCode::Backspace => seq![AppCommand::LoginCookieInputBackspace],
            KeyCode::Char(c) => if !key.modifiers.control {
                seq![AppCommand::LoginCookieInputChar { c }]
            } else {
                seq![]
            },
            _ => seq![],
        }
    } else if key.code == KeyCode::Char('l') {
        seq![AppCommand::LoginGenerateQr]
    } else if key.code == KeyCode::Char('c') {
        seq![AppCommand::LoginToggleCookieInput]
    } else {
        seq![]
    }
}

/// The command a list key sends, for the playlist list or for the tracks.
pub open spec fn list_key_command(code: KeyCode, tracks: bool) -> Option<AppCommand> {
    match code {
        KeyCode::Up => Some(
            if tracks {
                AppCommand::PlaylistTracksMoveUp
            } else {
                AppCommand::PlaylistsMoveUp
            },
        ),
        KeyCode::Down => Some(
            if tracks {
                AppCommand::PlaylistTracksMoveDown
            } else {
                AppCommand::PlaylistsMoveDown
            },
        ),
        KeyCode::PageDown => Some(
            if tracks {
                AppCommand::PlaylistTracksPageDown
            } else {
                AppCommand::PlaylistsPageDown
            },
        ),
        KeyCode::PageUp => Some(
            if tracks {
                AppCommand::PlaylistTracksPageUp
            } else {
                AppCommand::PlaylistsPageUp
            },
        ),
        KeyCode::Home => Some(
            if tracks {
                AppCommand::PlaylistTracksJumpTop
            } else {
                AppCommand::PlaylistsJumpTop
            },
        ),
        KeyCode::End => Some(
            if tracks {
                AppCommand::PlaylistTracksJumpBottom
            } else {
                AppCommand::PlaylistsJumpBottom
            },
        ),
        _ => None,
    }
}

/// The playlists page: `b` goes back; the left panel moves in the playlist
/// list and opens one with Enter; the center moves in the list or the tracks.
pub open spec fn playlists_response(ctx: KeyContext, key: KeyEvent) -> Seq<AppCommand> {
    let tracks = ctx.playlist_mode == PlaylistMode::Tracks;
    if key.code == KeyCode::Char('b') {
        seq![AppCommand::Back]
    } else if ctx.ui_focus == UiFocus::BodyLeft {
        if key.code == KeyCode::Enter {
            if tracks {
                seq![AppCommand::Back, AppCommand::PlaylistsOpenSelected]
            } else {
                seq![AppCommand::PlaylistsOpenSelected]
            }
        } else {
            match list_key_command(key.code, false) {
                Some(cmd) => seq![cmd],
                None => seq![],
            }
        }
    } else if ctx.ui_focus == UiFocus::BodyCenter {
        if key.code == KeyCode::Enter && !tracks {
            seq![AppCommand::PlaylistsOpenSelected]
        } else if key.code == KeyCode::Char('p') && tracks {
            seq![AppCommand::PlaylistTracksPlaySelected]
        } else {
            match list_key_command(key.code, tracks) {
                Some(cmd) => seq![cmd],
                None => seq![],
            }
        }
    } else {
        seq![]
    }
}

/// The search page: the search box takes text and Enter searches; the results
/// move with the list keys and `p` plays the selected one.
pub open spec fn search_response(ctx: KeyContext, key: KeyEvent) -> Seq<AppCommand> {
    if ctx.ui_focus == UiFocus::HeaderSearch {
        match key.code {
            KeyCode::Enter => seq![AppCommand::SearchSubmit],
            KeyCode::Backspace => seq![AppCommand::SearchInputBackspace],
            KeyCode::Char(c) => if !key.modifiers.control {
                seq![AppCommand::SearchInputChar { c }]
            } else {
                seq![]
            },
            _ => seq![],
        }
    } else if ctx.ui_focus == UiFocus::BodyCenter {
        match key.code {
            KeyCode::Char(c) => if c == 'p' {
                seq![AppCommand::SearchPlaySelected]
            } else {
                seq![]
            },
            KeyCode::Up => seq![AppCommand::SearchMoveUp],
            KeyCode::Down => seq![AppCommand::SearchMoveDown],
            KeyCode::PageDown => seq![AppCommand::SearchPageDown],
            KeyCode::PageUp => seq![AppCommand::SearchPageUp],
            KeyCode::Home => seq![AppCommand::SearchJumpTop],
            KeyCode::End => seq![AppCommand::SearchJumpBottom],
            _ => seq![],
        }
    } else {
        seq![]
    }
}

/// The lyrics page: `o` toggles following, `g` goes to the current line,
/// Up and Down scroll.
pub open spec fn lyrics_response(ctx: KeyContext, key: KeyEvent) -> Seq<AppCommand> {
    if ctx.ui_focus != UiFocus::BodyCenter {
        seq![]
    } else {
        match key.code {
            KeyCode::Char(c) => if c == 'o' {
                seq![AppCommand::LyricsToggleFollow]
            } else if c == 'g' {
                seq![AppCommand::LyricsGotoCurrent]
            } else {
                seq![]
            },
            KeyCode::Up => seq![AppCommand::LyricsMoveUp],
            KeyCode::Down => seq![AppCommand::LyricsMoveDown],
            _ => seq![],
        }
    }
}

/// The settings page: the left panel picks a group, the center an item,
/// which Left and Right adjust and Enter activates.
pub open spec fn settings_response(ctx: KeyContext, key: KeyEvent) -> Seq<AppCommand> {
    if ctx.ui_focus == UiFocus::BodyLeft {
        match key.code {
            KeyCode::Up => seq![AppCommand::SettingsGroupPrev],
            KeyCode::Down => seq![AppCommand::SettingsGroupNext],
            KeyCode::Enter => seq![AppCommand::UiFocusSet { focus: UiFocus::BodyCenter }],
            KeyCode::Tab => seq![AppCommand::UiFocusSet { focus: UiFocus::BodyCenter }],
            _ => seq![],
        }
    } else if ctx.ui_focus == UiFocus::BodyCenter {
        match key.code {
            KeyCode::Up => seq![AppCommand::SettingsItemPrev],
            KeyCode::Down => seq![AppCommand::SettingsItemNext],
            KeyCode::Left => seq![AppCommand::SettingsDecrease],
            KeyCode::Right => seq![AppCommand::SettingsIncrease],
            KeyCode::Enter => seq![AppCommand::SettingsActivate],
            KeyCode::Tab => seq![AppCommand::UiFocusSet { focus: UiFocus::BodyLeft }],
            _ => seq![],
        }
    } else {
        seq![]
    }
}

/// What the page shown makes of the key.
pub open spec fn page_response(ctx: KeyContext, key: KeyEvent) -> Seq<AppCommand> {
    match ctx.view {
        command::View::Login => login_response(ctx, key),
        command::View::Playlists => playlists_response(ctx, key),
        command::View::Search => search_response(ctx, key),
        command::View::Lyrics => lyrics_response(ctx, key),
        command::View::Settings => settings_response(ctx, key),
    }
}

/// The stages after the tab keys: Alt with a digit, the global keys, the page.
pub open spec fn later_response(ctx: KeyContext, key: KeyEvent) -> Seq<AppCommand> {
    match alt_digit_response(key) {
        Some(cmds) => cmds,
        None => match global_response(ctx, key) {
            Some(cmds) => cmds,
            None => page_response(ctx, key),
        },
    }
}

/// The commands a key event sends, in order, and whether the application quits.
pub open spec fn key_response(ctx: KeyContext, key: KeyEvent) -> (Seq<AppCommand>, bool) {
    if key.kind == KeyEventKind::Release {
        (seq![], false)
    } else if ctx.help_visible {
        (help_response(ctx, key), false)
    } else if ctx.menu_visible {
        (menu_response(key), false)
    } else {
        match binding_response(ctx, key) {
            Some(cmds) => (cmds, cmds == seq![AppCommand::Quit]),
            None => if key.code == KeyCode::BackTab {
                (seq![AppCommand::UiFocusPrev] + later_response(ctx, key), false)
            } else {
                match tab_response(key) {
                    Some(cmds) => (cmds, false),
                    None => (later_response(ctx, key), false),
                }
            },
        }
    }
}


/// A stage's result as plain values.
pub open spec fn opt_seq(r: Option<Vec<AppCommand>>) -> Option<Seq<AppCommand>> {
    match r {
        Some(v) => Some(v@),
        None => None,
    }
}

fn one(c: AppCommand) -> (r: Vec<AppCommand>)
    ensures
        r@ == seq![c],
{
    let mut v = Vec::new();
    v.push(c);
    v
}

fn digit_focus_exec(c: char) -> (r: Option<UiFocus>)
    ensures
        r == digit_focus(c),
{
    if c == '1' {
        Some(UiFocus::HeaderSearch)
    } else if c == '2' {
        Some(UiFocus::BodyLeft)
    } else if c == '3' {
        Some(UiFocus::BodyCenter)
    } else if c == '4' {
        Some(UiFocus::BodyRight)
    } else {
        None
    }
}

fn bound_exec(ctx: &KeyContext, code: KeyCode) -> (r: Option<KeyAction>)
    requires
        ctx.keybindings.wf(),
    ensures
        r == bound(*ctx, code),
{
    ctx.keybindings.resolve(code)
}

fn action_command_exec(a: KeyAction) -> (r: AppCommand)
    ensures
        r == action_command(a),
{
    match a {
        KeyAction::Quit => AppCommand::Quit,
        KeyAction::UiToggleHelp => AppCommand::UiToggleHelp,
        KeyAction::MenuOpen => AppCommand::MenuOpen,
        KeyAction::PlayerPrev => AppCommand::PlayerPrev,
        KeyAction::PlayerNext => AppCommand::PlayerNext,
        KeyAction::PlayerCycleMode => AppCommand::PlayerCycleMode,
        KeyAction::PlayerStop => AppCommand::PlayerStop,
        KeyAction::PlayerTogglePause => AppCommand::PlayerTogglePause,
    }
}

fn help_stage(ctx: &KeyContext, key: &KeyEvent) -> (r: Vec<AppCommand>)
    requires
        ctx.keybindings.wf(),
    ensures
        r@ == help_response(*ctx, *key),
{
    if key.code == KeyCode::Esc {
        one(AppCommand::UiToggleHelp)
    } else if key.code == KeyCode::Char('?') && bound_exec(ctx, KeyCode::Char('?')) == Some(
        KeyAction::UiToggleHelp,
    ) {
        one(AppCommand::UiToggleHelp)
    } else {
        Vec::new()
    }
}

fn menu_stage(key: &KeyEvent) -> (r: Vec<AppCommand>)
    ensures
        r@ == menu_response(*key),
{
    if key.code == KeyCode::Esc {
        one(AppCommand::MenuCancel)
    } else if key.code == KeyCode::Enter {
        one(AppCommand::MenuSelect)
    } else if key.code == KeyCode::Up || key.code == KeyCode::Char('k') {
        one(AppCommand::MenuMoveUp)
    } else if key.code == KeyCode::Down || key.code == KeyCode::Char('j') {
        one(AppCommand::MenuMoveDown)
    } else {
        Vec::new()
    }
}

fn binding_stage(ctx: &KeyContext, key: &KeyEvent) -> (r: Option<Vec<AppCommand>>)
    requires
        ctx.keybindings.wf(),
    ensures
        opt_seq(r) == binding_response(*ctx, *key),
{
    if key.modifiers.is_none() {
        match bound_exec(ctx, key.code) {
            Some(a) => if a == KeyAction::PlayerTogglePause && key.code == KeyCode::Char(' ') {
                None
            } else {
                Some(one(action_command_exec(a)))
            },
            None => None,
        }
    } else {
        None
    }
}

fn tab_stage(key: &KeyEvent) -> (r: Option<Vec<AppCommand>>)
    ensures
        opt_seq(r) == tab_response(*key),
{
    match key.code {
        KeyCode::Tab => if key.modifiers.control {
            Some(one(AppCommand::TabNext))
        } else {
            Some(one(AppCommand::UiFocusNext))
        },
        KeyCode::F(k) => if 1 <= k && k <= 4 {
            Some(one(AppCommand::TabTo { index: (k - 1) as usize }))
        } else {
            None
        },
        _ => None,
    }
}

fn alt_digit_stage(key: &KeyEvent) -> (r: Option<Vec<AppCommand>>)
    ensures
        opt_seq(r) == alt_digit_response(*key),
{
    match key.code {
        KeyCode::Char(c) => if key.modifiers.alt {
            match digit_focus_exec(c) {
                Some(focus) => Some(one(AppCommand::UiFocusSet { focus })),
                None => None,
            }
        } else {
            None
        },
        _ => None,
    }
}

fn in_search_input_exec(ctx: &KeyContext) -> (r: bool)
    ensures
        r == in_search_input(*ctx),
{
    ctx.view == command::View::Search && ctx.ui_focus == UiFocus::HeaderSearch
}

fn global_stage(ctx: &KeyContext, key: &KeyEvent) -> (r: Option<Vec<AppCommand>>)
    requires
        ctx.keybindings.wf(),
    ensures
        opt_seq(r) == global_response(*ctx, *key),
{
    let m = key.modifiers;
    let code = key.code;
    let digit = match code {
        KeyCode::Char(c) => if !m.control {
            digit_focus_exec(c)
        } else {
            None
        },
        _ => None,
    };
    if let Some(focus) = digit {
        if in_search_input_exec(ctx) {
            None
        } else {
            Some(one(AppCommand::UiFocusSet { focus }))
        }
    } else if code == KeyCode::Char(' ') {
        if in_search_input_exec(ctx) {
            Some(one(AppCommand::SearchInputChar { c: ' ' }))
        } else if bound_exec(ctx, KeyCode::Char(' ')) == Some(KeyAction::PlayerTogglePause) {
            Some(one(AppCommand::PlayerTogglePause))
        } else {
            Some(Vec::new())
        }
    } else if code == KeyCode::Char('s') && m.control {
        Some(one(AppCommand::PlayerStop))
    } else if code == KeyCode::Left && m.control {
        Some(one(AppCommand::PlayerSeekBackwardMs { ms: 5000 }))
    } else if code == KeyCode::Right && m.control {
        Some(one(AppCommand::PlayerSeekForwardMs { ms: 5000 }))
    } else if code == KeyCode::Up && m.alt {
        Some(one(AppCommand::PlayerVolumeUp))
    } else if code == KeyCode::Down && m.alt {
        Some(one(AppCommand::PlayerVolumeDown))
    } else if code == KeyCode::Left && m.alt && ctx.view == command::View::Lyrics {
        let ms: i64 = if m.shift {
            -50
        } else {
            -200
        };
        Some(one(AppCommand::LyricsOffsetAddMs { ms }))
    } else if code == KeyCode::Right && m.alt && ctx.view == command::View::Lyrics {
        let ms: i64 = if m.shift {
            50
        } else {
            200
        };
        Some(one(AppCommand::LyricsOffsetAddMs { ms }))
    } else {
        None
    }
}

fn login_stage(ctx: &KeyContext, key: &KeyEvent) -> (r: Vec<AppCommand>)
    ensures
        r@ == login_response(*ctx, *key),
{
    if ctx.ui_focus != UiFocus::BodyCenter {
        Vec::new()
    } else if ctx.login_cookie_input_visible {
        match key.code {
            KeyCode::Esc => one(AppCommand::LoginToggleCookieInput),
            KeyCode::Enter => one(AppCommand::LoginCookieSubmit),
            KeyCode::Backspace => one(AppCommand::LoginCookieInputBackspace),
            KeyCode::Char(c) => if !key.modifiers.control {
                one(AppCommand::LoginCookieInputChar { c })
            } else {
                Vec::new()
            },
            _ => Vec::new(),
        }
    } else if key.code == KeyCode::Char('l') {
        one(AppCommand::LoginGenerateQr)
    } else if key.code == KeyCode::Char('c') {
        one(AppCommand::LoginToggleCookieInput)
    } else {
        Vec::new()
    }
}

fn list_key_command_exec(code: KeyCode, tracks: bool) -> (r: Option<AppCommand>)
    ensures
        r == list_key_command(code, tracks),
{
    match code {
        KeyCode::Up => Some(
            if tracks {
                AppCommand::PlaylistTracksMoveUp
            } else {
                AppCommand::PlaylistsMoveUp
            },
        ),
        KeyCode::Down => Some(
            if tracks {
                AppCommand::PlaylistTracksMoveDown
            } else {
                AppCommand::PlaylistsMoveDown
            },
        ),
        KeyCode::PageDown => Some(
            if tracks {
                AppCommand::PlaylistTracksPageDown
            } else {
                AppCommand::PlaylistsPageDown
            },
        ),
        KeyCode::PageUp => Some(
            if tracks {
                AppCommand::PlaylistTracksPageUp
            } else {
                AppCommand::PlaylistsPageUp
            },
        ),
        KeyCode::Home => Some(
            if tracks {
                AppCommand::PlaylistTracksJumpTop
            } else {
                AppCommand::PlaylistsJumpTop
            },
        ),
        KeyCode::End => Some(
            if tracks {
                AppCommand::PlaylistTracksJumpBottom
            } else {
                AppCommand::PlaylistsJumpBottom
            },
        ),
        _ => None,
    }
}

fn playlists_stage(ctx: &KeyContext, key: &KeyEvent) -> (r: Vec<AppCommand>)
    ensures
        r@ == playlists_response(*ctx, *key),
{
    let tracks = ctx.playlist_mode == PlaylistMode::Tracks;
    if key.code == KeyCode::Char('b') {
        one(AppCommand::Back)
    } else if ctx.ui_focus == UiFocus::BodyLeft {
        if key.code == KeyCode::Enter {
            let mut v = Vec::new();
            if tracks {
                v.push(AppCommand::Back);
            }
            v.push(AppCommand::PlaylistsOpenSelected);
            v
        } else {
            match list_key_command_exec(key.code, false) {
                Some(cmd) => one(cmd),
                None => Vec::new(),
            }
        }
    } else if ctx.ui_focus == UiFocus::BodyCenter {
        if key.code == KeyCode::Enter && !tracks {
            one(AppCommand::PlaylistsOpenSelected)
        } else if key.code == KeyCode::Char('p') && tracks {
            one(AppCommand::PlaylistTracksPlaySelected)
        } else {
            match list_key_command_exec(key.code, tracks) {
                Some(cmd) => one(cmd),
                None => Vec::new(),
            }
        }
    } else {
        Vec::new()
    }
}

fn search_stage(ctx: &KeyContext, key: &KeyEvent) -> (r: Vec<AppCommand>)
    ensures
        r@ == search_response(*ctx, *key),
{
    if ctx.ui_focus == UiFocus::HeaderSearch {
        match key.code {
            KeyCode::Enter => one(AppCommand::SearchSubmit),
            KeyCode::Backspace => one(AppCommand::SearchInputBackspace),
            KeyCode::Char(c) => if !key.modifiers.control {
                one(AppCommand::SearchInputChar { c })
            } else {
                Vec::new()
            },
            _ => Vec::new(),
        }
    } else if ctx.ui_focus == UiFocus::BodyCenter {
        match key.code {
            KeyCode::Char(c) => if c == 'p' {
                one(AppCommand::SearchPlaySelected)
            } else {
                Vec::new()
            },
            KeyCode::Up => one(AppCommand::SearchMoveUp),
            KeyCode::Down => one(AppCommand::SearchMoveDown),
            KeyCode::PageDown => one(AppCommand::SearchPageDown),
            KeyCode::PageUp => one(AppCommand::SearchPageUp),
            KeyCode::Home => one(AppCommand::SearchJumpTop),
            KeyCode::End => one(AppCommand::SearchJumpBottom),
            _ => Vec::new(),
        }
    } else {
        Vec::new()
    }
}

fn lyrics_stage(ctx: &KeyContext, key: &KeyEvent) -> (r: Vec<AppCommand>)
    ensures
        r@ == lyrics_response(*ctx, *key),
{
    if ctx.ui_focus != UiFocus::BodyCenter {
        Vec::new()
    } else {
        match key.code {
            KeyCode::Char(c) => if c == 'o' {
                one(AppCommand::LyricsToggleFollow)
            } else if c == 'g' {
                one(AppCommand::LyricsGotoCurrent)
            } else {
                Vec::new()
            },
            KeyCode::Up => one(AppCommand::LyricsMoveUp),
            KeyCode::Down => one(AppCommand::LyricsMoveDown),
            _ => Vec::new(),
        }
    }
}

fn settings_stage(ctx: &KeyContext, key: &KeyEvent) -> (r: Vec<AppCommand>)
    ensures
        r@ == settings_response(*ctx, *key),
{
    if ctx.ui_focus == UiFocus::BodyLeft {
        match key.code {
            KeyCode::Up => one(AppCommand::SettingsGroupPrev),
            KeyCode::Down => one(AppCommand::SettingsGroupNext),
            KeyCode::Enter => one(AppCommand::UiFocusSet { focus: UiFocus::BodyCenter }),
            KeyCode::Tab => one(AppCommand::UiFocusSet { focus: UiFocus::BodyCenter }),
            _ => Vec::new(),
        }
    } else if ctx.ui_focus == UiFocus::BodyCenter {
        match key.code {
            KeyCode::Up => one(AppCommand::SettingsItemPrev),
            KeyCode::Down => one(AppCommand::SettingsItemNext),
            KeyCode::Left => one(AppCommand::SettingsDecrease),
            KeyCode::Right => one(AppCommand::SettingsIncrease),
            KeyCode::Enter => one(AppCommand::SettingsActivate),
            KeyCode::Tab => one(AppCommand::UiFocusSet { focus: UiFocus::BodyLeft }),
            _ => Vec::new(),
        }
    } else {
        Vec::new()
    }
}

fn later_stage(ctx: &KeyContext, key: &KeyEvent) -> (r: Vec<AppCommand>)
    requires
        ctx.keybindings.wf(),
    ensures
        r@ == later_response(*ctx, *key),
{
    if let Some(cmds) = alt_digit_stage(key) {
        return cmds;
    }
    if let Some(cmds) = global_stage(ctx, key) {
        return cmds;
    }
    match ctx.view {
        command::View::Login => login_stage(ctx, key),
        command::View::Playlists => playlists_stage(ctx, key),
        command::View::Search => search_stage(ctx, key),
        command::View::Lyrics => lyrics_stage(ctx, key),
        command::View::Settings => settings_stage(ctx, key),
    }
}

/// Decides what a key event asks of the application: the commands to send,
/// in order, and whether to quit.
pub fn handle_key(ctx: &KeyContext, key: KeyEvent) -> (r: KeyOutcome)
    requires
        ctx.keybindings.wf(),
    ensures
        (r.commands@, r.quit) == key_response(*ctx, key),
{
    if key.kind == KeyEventKind::Release {
        return KeyOutcome { commands: Vec::new(), quit: false };
    }
    if ctx.help_visible {
        return KeyOutcome { commands: help_stage(ctx, &key), quit: false };
    }
    if ctx.menu_visible {
        return KeyOutcome { commands: menu_stage(&key), quit: false };
    }
    if let Some(cmds) = binding_stage(ctx, &key) {
        let quit = cmds.len() == 1 && cmds[0] == AppCommand::Quit;
        proof {
            if quit {
                assert(cmds@ =~= seq![AppCommand::Quit]);
            }
        }
        return KeyOutcome { commands: cmds, quit };
    }
    if key.code == KeyCode::BackTab {
        let mut cmds = one(AppCommand::UiFocusPrev);
        let mut rest = later_stage(ctx, &key);
        cmds.append(&mut rest);
        return KeyOutcome { commands: cmds, quit: false };
    }
    if let Some(cmds) = tab_stage(&key) {
        return KeyOutcome { commands: cmds, quit: false };
    }
    KeyOutcome { commands: later_stage(ctx, &key), quit: false }
}


/// A released key sends nothing and never quits.
pub proof fn lemma_release_is_ignored(ctx: KeyContext, key: KeyEvent)
    requires
        key.kind == KeyEventKind::Release,
    ensures
        key_response(ctx, key) == (Seq::<AppCommand>::empty(), false),
{
    assert(key_response(ctx, key).0 =~= Seq::<AppCommand>::empty());
}

/// On the lyrics page with the center focused and no overlay open, Up scrolls
/// the lyrics up and Down scrolls them down, one command each, unless Alt is
/// held (the volume) or the plain key is bound to an action.
pub proof fn lemma_lyrics_arrows_scroll(ctx: KeyContext, key: KeyEvent)
    requires
        key.kind != KeyEventKind::Release,
        !ctx.help_visible,
        !ctx.menu_visible,
        ctx.view == command::View::Lyrics,
        ctx.ui_focus == UiFocus::BodyCenter,
        key.code == KeyCode::Up || key.code == KeyCode::Down,
        !key.modifiers.alt,
        key.modifiers.no_modifier() ==> bound(ctx, key.code) is None,
    ensures
        key.code == KeyCode::Up ==> key_response(ctx, key) == (seq![AppCommand::LyricsMoveUp], false),
        key.code == KeyCode::Down ==> key_response(ctx, key) == (seq![AppCommand::LyricsMoveDown], false),
{
}

/// The application quits exactly when a plain key bound to `Quit` is pressed
/// with no overlay open, and then the one command sent is `Quit`.
pub proof fn lemma_quit_only_through_binding(ctx: KeyContext, key: KeyEvent)
    ensures
        key_response(ctx, key).1 <==> (key.kind != KeyEventKind::Release && !ctx.help_visible
            && !ctx.menu_visible && key.modifiers.no_modifier() && bound(ctx, key.code) == Some(
            KeyAction::Quit,
        )),
        key_response(ctx, key).1 ==> key_response(ctx, key).0 == seq![AppCommand::Quit],
{
    if key.kind != KeyEventKind::Release && !ctx.help_visible && !ctx.menu_visible {
        match binding_response(ctx, key) {
            Some(cmds) => {
                let a = bound(ctx, key.code)->0;
                if cmds == seq![AppCommand::Quit] {
                    assert(cmds[0] == action_command(a));
                }
            },
            None => {},
        }
    }
}

/// While the help overlay shows, a key sends at most `UiToggleHelp` and never quits.
pub proof fn lemma_help_overlay_captures_keys(ctx: KeyContext, key: KeyEvent)
    requires
        ctx.help_visible,
    ensures
        !key_response(ctx, key).1,
        key_response(ctx, key).0.len() <= 1,
        forall|i: int|
            0 <= i < key_response(ctx, key).0.len() ==> key_response(ctx, key).0[i]
                == AppCommand::UiToggleHelp,
{
}

/// While the menu shows, a key sends at most one menu command and never quits.
pub proof fn lemma_menu_captures_keys(ctx: KeyContext, key: KeyEvent)
    requires
        !ctx.help_visible,
        ctx.menu_visible,
    ensures
        !key_response(ctx, key).1,
        key_response(ctx, key).0.len() <= 1,
        forall|i: int|
            0 <= i < key_response(ctx, key).0.len() ==> {
                let c = #[trigger] key_response(ctx, key).0[i];
                c == AppCommand::MenuCancel || c == AppCommand::MenuSelect || c
                    == AppCommand::MenuMoveUp || c == AppCommand::MenuMoveDown
            },
{
}

/// In the search box, a digit `1` to `4` or Space pressed without modifiers is
/// typed into the search text, unless the key is bound to an action other
/// than Space's pause.
pub proof fn lemma_search_box_takes_digits_and_space(ctx: KeyContext, key: KeyEvent, c: char)
    requires
        key.kind != KeyEventKind::Release,
        !ctx.help_visible,
        !ctx.menu_visible,
        in_search_input(ctx),
        key.modifiers.no_modifier(),
        key.code == KeyCode::Char(c),
        digit_focus(c) is Some || c == ' ',
        bound(ctx, key.code) is None || (c == ' ' && bound(ctx, key.code) == Some(
            KeyAction::PlayerTogglePause,
        )),
    ensures
        key_response(ctx, key) == (seq![AppCommand::SearchInputChar { c }], false),
{
}

/// A key sends at most two commands.
pub proof fn lemma_at_most_two_commands(ctx: KeyContext, key: KeyEvent)
    ensures
        key_response(ctx, key).0.len() <= 2,
{
    assert(page_response(ctx, key).len() <= 2);
    if key.code == KeyCode::BackTab {
        assert(alt_digit_response(key) is None);
        assert(global_response(ctx, key) is None);
        assert(page_response(ctx, key).len() == 0);
    }
}

} // verus!
