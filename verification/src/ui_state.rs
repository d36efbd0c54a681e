//! What only the UI keeps: the help overlay, the focus, the action menu and
//! the settings group; and the commands that change it.
use vstd::prelude::*;
use crate::command::{AppCommand, UiFocus};

verus! {

/// The UI's own state.
#[derive(Debug, Clone, Copy, PartialEq, Eq, Structural)]
pub struct UiLocal {
    pub help_visible: bool,
    pub ui_focus: UiFocus,
    pub menu_visible: bool,
    pub menu_selected: usize,
    pub settings_group_selected: usize,
}

/// How many settings groups there are.
pub const SETTINGS_GROUPS: usize = 4;

/// The position of a focus area in the focus cycle: the search box, then the
/// left, center and right panels.
pub open spec fn focus_index(f: UiFocus) -> int {
    match f {
        UiFocus::HeaderSearch => 0,
        UiFocus::BodyLeft => 1,
        UiFocus::BodyCenter => 2,
        UiFocus::BodyRight => 3,
    }
}

/// The focus area at a position of the cycle.
pub open spec fn focus_at(i: int) -> UiFocus {
    if i == 0 {
        UiFocus::HeaderSearch
    } else if i == 1 {
        UiFocus::BodyLeft
    } else if i == 2 {
        UiFocus::BodyCenter
    } else {
        UiFocus::BodyRight
    }
}

/// The next focus area in the cycle.
pub open spec fn focus_after(f: UiFocus) -> UiFocus {
    focus_at((focus_index(f) + 1) % 4)
}

/// The previous focus area in the cycle.
pub open spec fn focus_before(f: UiFocus) -> UiFocus {
    focus_at((focus_index(f) + 3) % 4)
}

/// What a command does to the UI's own state, for a menu of `menu_len`
/// items; `None` for a command that is not the UI's own.
pub open spec fn ui_after(u: UiLocal, cmd: AppCommand, menu_len: nat) -> Option<UiLocal> {
    match cmd {
        AppCommand::UiToggleHelp => Some(UiLocal { help_visible: !u.help_visible, ..u }),
        AppCommand::UiFocusNext => Some(UiLocal { ui_focus: focus_after(u.ui_focus), ..u }),
        AppCommand::UiFocusPrev => Some(UiLocal { ui_focus: focus_before(u.ui_focus), ..u }),
        AppCommand::UiFocusSet { focus } => Some(UiLocal { ui_focus: focus, ..u }),
        AppCommand::MenuOpen => Some(UiLocal { menu_visible: true, menu_selected: 0, ..u }),
        AppCommand::MenuCancel => Some(UiLocal { menu_visible: false, ..u }),
        AppCommand::MenuSelect => Some(UiLocal { menu_visible: false, ..u }),
        AppCommand::MenuMoveUp => Some(
            UiLocal {
                menu_selected: if u.menu_selected > 0 {
                    (u.menu_selected - 1) as usize
                } else {
                    0
                },
                ..u
            },
        ),
        AppCommand::MenuMoveDown => Some(
            UiLocal {
                menu_selected: if u.menu_selected + 1 < menu_len {
                    (u.menu_selected + 1) as usize
                } else {
                    u.menu_selected
                },
                ..u
            },
        ),
        AppCommand::SettingsGroupPrev => Some(
            UiLocal {
                settings_group_selected: if u.settings_group_selected > 0 {
                    (u.settings_group_selected - 1) as usize
                } else {
                    0
                },
                ..u
            },
        ),
        AppCommand::SettingsGroupNext => Some(
            UiLocal {
                settings_group_selected: if u.settings_group_selected + 1 < SETTINGS_GROUPS {
                    (u.settings_group_selected + 1) as usize
                } else {
                    (SETTINGS_GROUPS - 1) as usize
                },
                ..u
            },
        ),
        _ => None,
    }
}

fn focus_after_exec(f: UiFocus) -> (r: UiFocus)
    ensures
        r == focus_after(f),
{
    match f {
        UiFocus::HeaderSearch => UiFocus::BodyLeft,
        UiFocus::BodyLeft => UiFocus::BodyCenter,
        UiFocus::BodyCenter => UiFocus::BodyRight,
        UiFocus::BodyRight => UiFocus::HeaderSearch,
    }
}

fn focus_before_exec(f: UiFocus) -> (r: UiFocus)
    ensures
        r == focus_before(f),
{
    match f {
        UiFocus::HeaderSearch => UiFocus::BodyRight,
        UiFocus::BodyLeft => UiFocus::HeaderSearch,
        UiFocus::BodyCenter => UiFocus::BodyLeft,
        UiFocus::BodyRight => UiFocus::BodyCenter,
    }
}

impl UiLocal {
    /// At start-up: no help, the center panel focused, the menu closed, the
    /// first settings group.
    pub fn new() -> (r: Self)
        ensures
            !r.help_visible,
            r.ui_focus == UiFocus::BodyCenter,
            !r.menu_visible,
            r.menu_selected == 0,
            r.settings_group_selected == 0,
    {
        UiLocal {
            help_visible: false,
            ui_focus: UiFocus::BodyCenter,
            menu_visible: false,
            menu_selected: 0,
            settings_group_selected: 0,
        }
    }

    /// Applies a command of the UI's own (see `ui_after`); tells whether it
    /// was one. A command that is not leaves the state as it was.
    pub fn apply(&mut self, cmd: AppCommand, menu_len: usize) -> (r: bool)
        ensures
            r == ui_after(*old(self), cmd, menu_len as nat) is Some,
            r ==> *final(self) == ui_after(*old(self), cmd, menu_len as nat).unwrap(),
            !r ==> *final(self) == *old(self),
    {
        match cmd {
            AppCommand::UiToggleHelp => self.help_visible = !self.help_visible,
            AppCommand::UiFocusNext => self.ui_focus = focus_after_exec(self.ui_focus),
            AppCommand::UiFocusPrev => self.ui_focus = focus_before_exec(self.ui_focus),
            AppCommand::UiFocusSet { focus } => self.ui_focus = focus,
            AppCommand::MenuOpen => {
                self.menu_visible = true;
                self.menu_selected = 0;
            },
            AppCommand::MenuCancel => self.menu_visible = false,
            AppCommand::MenuSelect => self.menu_visible = false,
            AppCommand::MenuMoveUp => {
                if self.menu_selected > 0 {
                    self.menu_selected = self.menu_selected - 1;
                }
            },
            AppCommand::MenuMoveDown => {
                if menu_len > 0 && self.menu_selected < menu_len - 1 {
                    self.menu_selected = self.menu_selected + 1;
                }
            },
            AppCommand::SettingsGroupPrev => {
                if self.settings_group_selected > 0 {
                    self.settings_group_selected = self.settings_group_selected - 1;
                }
            },
            AppCommand::SettingsGroupNext => {
                if self.settings_group_selected < SETTINGS_GROUPS - 1 {
                    self.settings_group_selected = self.settings_group_selected + 1;
                } else {
                    self.settings_group_selected = SETTINGS_GROUPS - 1;
                }
            },
            _ => {
                return false;
            },
        }
        true
    }
}

/// Moving the focus forward and back again returns to where it was, and
/// four moves forward go round the whole cycle.
pub proof fn lemma_focus_cycle(f: UiFocus)
    ensures
        focus_before(focus_after(f)) == f,
        focus_after(focus_before(f)) == f,
        focus_after(focus_after(focus_after(focus_after(f)))) == f,
{
}

} // verus!
