//! Pages, focus areas and the commands the UI sends to the application.
use vstd::prelude::*;

verus! {

/// The page shown in the body.
#[derive(Debug, Clone, Copy, PartialEq, Eq, Structural)]
pub enum View {
    Login,
    Playlists,
    Search,
    Lyrics,
    Settings,
}

/// The area that has the keyboard focus.
#[derive(Debug, Clone, Copy, PartialEq, Eq, Structural)]
pub enum UiFocus {
    HeaderSearch,
    BodyLeft,
    BodyCenter,
    BodyRight,
}

/// Whether the playlists page lists playlists or the tracks of one.
#[derive(Debug, Clone, Copy, PartialEq, Eq, Structural)]
pub enum PlaylistMode {
    List,
    Tracks,
}

/// What the UI asks the application to do.
#[allow(inconsistent_fields)]
#[derive(Debug, Clone, Copy, PartialEq, Eq, Structural)]
pub enum AppCommand {
    Bootstrap,
    Quit,
    UiToggleHelp,
    UiFocusNext,
    UiFocusPrev,
    UiFocusSet { focus: UiFocus },
    TabNext,
    TabTo { index: usize },
    Back,
    MenuOpen,
    MenuCancel,
    MenuSelect,
    MenuMoveUp,
    MenuMoveDown,
    LoginGenerateQr,
    LoginToggleCookieInput,
    LoginCookieInputChar { c: char },
    LoginCookieInputBackspace,
    LoginCookieSubmit,
    SearchSubmit,
    SearchInputChar { c: char },
    SearchInputBackspace,
    SearchMoveUp,
    SearchMoveDown,
    SearchPageUp,
    SearchPageDown,
    SearchJumpTop,
    SearchJumpBottom,
    SearchMoveTo { index: usize },
    SearchPlaySelected,
    PlaylistsMoveUp,
    PlaylistsMoveDown,
    PlaylistsPageUp,
    PlaylistsPageDown,
    PlaylistsJumpTop,
    PlaylistsJumpBottom,
    PlaylistsMoveTo { index: usize },
    PlaylistsOpenSelected,
    PlaylistTracksMoveUp,
    PlaylistTracksMoveDown,
    PlaylistTracksPageUp,
    PlaylistTracksPageDown,
    PlaylistTracksJumpTop,
    PlaylistTracksJumpBottom,
    PlaylistTracksMoveTo { index: usize },
    PlaylistTracksPlaySelected,
    LyricsToggleFollow,
    LyricsGotoCurrent,
    LyricsMoveUp,
    LyricsMoveDown,
    LyricsOffsetAddMs { ms: i64 },
    PlayerTogglePause,
    PlayerStop,
    PlayerPrev,
    PlayerNext,
    PlayerCycleMode,
    PlayerVolumeUp,
    PlayerVolumeDown,
    PlayerSeekBackwardMs { ms: u64 },
    PlayerSeekForwardMs { ms: u64 },
    PlayerSeekAbsoluteMs { ms: u64 },
    SettingsGroupPrev,
    SettingsGroupNext,
    SettingsItemPrev,
    SettingsItemNext,
    SettingsMoveUp,
    SettingsMoveDown,
    SettingsDecrease,
    SettingsIncrease,
    SettingsActivate,
}

} // verus!
