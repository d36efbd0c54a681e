//! Keys, the configurable key bindings, and what a key press asks of the application.
use vstd::prelude::*;
use crate::command;
use crate::command::{AppCommand, PlaylistMode, UiFocus};

verus! {

/// A key of the keyboard, as the terminal reports it.
#[derive(Debug, Clone, Copy, PartialEq, Eq, Structural)]
pub enum KeyCode {
    Backspace,
    Enter,
    Left,
    Right,
    Up,
    Down,
    Home,
    End,
    PageUp,
    PageDown,
    Tab,
    BackTab,
    Delete,
    Insert,
    F(u8),
    Char(char),
    Esc,
    /// Any key this application gives no meaning to.
    Other,
}

/// The modifier keys held with a key.
#[derive(Debug, Clone, Copy, PartialEq, Eq, Structural)]
pub struct KeyModifiers {
    pub shift: bool,
    pub control: bool,
    pub alt: bool,
    /// Super, hyper or meta.
    pub other: bool,
}

impl KeyModifiers {
    /// No modifier held.
    pub fn none() -> (r: Self)
        ensures
            r.no_modifier(),
    {
        KeyModifiers { shift: false, control: false, alt: false, other: false }
    }

    pub open spec fn no_modifier(self) -> bool {
        !self.shift && !self.control && !self.alt && !self.other
    }

    /// Whether no modifier is held.
    pub fn is_none(&self) -> (r: bool)
        ensures
            r == self.no_modifier(),
    {
        !self.shift && !self.control && !self.alt && !self.other
    }
}

/// Whether a key went down, repeats, or went up.
#[derive(Debug, Clone, Copy, PartialEq, Eq, Structural)]
pub enum KeyEventKind {
    Press,
    Repeat,
    Release,
}

/// One key event.
#[derive(Debug, Clone, Copy, PartialEq, Eq, Structural)]
pub struct KeyEvent {
    pub code: KeyCode,
    pub modifiers: KeyModifiers,
    pub kind: KeyEventKind,
}

/// The actions a user may bind to a plain key.
#[derive(Debug, Clone, Copy, PartialEq, Eq, Structural)]
pub enum KeyAction {
    Quit,
    UiToggleHelp,
    MenuOpen,
    PlayerPrev,
    PlayerNext,
    PlayerCycleMode,
    PlayerStop,
    PlayerTogglePause,
}

/// Whether no key occurs twice among the pairs.
pub open spec fn keys_unique(s: Seq<(KeyCode, KeyAction)>) -> bool {
    forall|i: int, j: int| 0 <= i < s.len() && 0 <= j < s.len() && i != j ==> s[i].0 != s[j].0
}

/// The map that the pairs stand for.
pub open spec fn pairs_map(s: Seq<(KeyCode, KeyAction)>) -> Map<KeyCode, KeyAction> {
    Map::new(
        |k: KeyCode| exists|i: int| 0 <= i < s.len() && s[i].0 == k,
        |k: KeyCode| s[choose|i: int| 0 <= i < s.len() && s[i].0 == k].1,
    )
}

/// Where a unique key sits, the map gives its pair's action.
pub proof fn lemma_pairs_map_at(s: Seq<(KeyCode, KeyAction)>, i: int)
    requires
        keys_unique(s),
        0 <= i < s.len(),
    ensures
        pairs_map(s).dom().contains(s[i].0),
        pairs_map(s)[s[i].0] == s[i].1,
{
    let k = s[i].0;
    assert(exists|j: int| 0 <= j < s.len() && s[j].0 == k);
    let j = choose|j: int| 0 <= j < s.len() && s[j].0 == k;
    assert(j == i);
}

/// The action a key resolves to under the bindings `m`.
pub open spec fn resolved(m: Map<KeyCode, KeyAction>, code: KeyCode) -> Option<KeyAction> {
    if m.dom().contains(code) {
        Some(m[code])
    } else {
        None
    }
}

/// After binding a key, it resolves to the new action, and every other key
/// resolves as before.
pub proof fn lemma_bind_then_resolve(m: Map<KeyCode, KeyAction>, code: KeyCode, action: KeyAction, other: KeyCode)
    ensures
        resolved(m.insert(code, action), code) == Some(action),
        other != code ==> resolved(m.insert(code, action), other) == resolved(m, other),
{
}

/// The key bindings: which plain key triggers which action.
pub struct KeyBindings {
    pairs: Vec<(KeyCode, KeyAction)>,
}

impl vstd::view::View for KeyBindings {
    type V = Map<KeyCode, KeyAction>;

    closed spec fn view(&self) -> Map<KeyCode, KeyAction> {
        pairs_map(self.pairs@)
    }
}

impl KeyBindings {
    /// No key bound twice.
    pub closed spec fn wf(&self) -> bool {
        keys_unique(self.pairs@)
    }

    /// No key bound.
    pub fn empty() -> (r: Self)
        ensures
            r.wf(),
            r@ == Map::<KeyCode, KeyAction>::empty(),
    {
        let r = KeyBindings { pairs: Vec::new() };
        assert(r@ =~= Map::<KeyCode, KeyAction>::empty());
        r
    }

    /// The action bound to a key, if any.
    pub fn resolve(&self, code: KeyCode) -> (r: Option<KeyAction>)
        requires
            self.wf(),
        ensures
            r == resolved(self@, code),
    {
        let mut i: usize = 0;
        while i < self.pairs.len()
            invariant
                i <= self.pairs@.len(),
                keys_unique(self.pairs@),
                forall|j: int| 0 <= j < i ==> self.pairs@[j].0 != code,
            decreases self.pairs@.len() - i,
        {
            if self.pairs[i].0 == code {
                proof {
                    lemma_pairs_map_at(self.pairs@, i as int);
                }
                return Some(self.pairs[i].1);
            }
            i = i + 1;
        }
        None
    }

    /// Binds a key to an action, replacing what the key was bound to.
    pub fn bind(&mut self, code: KeyCode, action: KeyAction)
        requires
            old(self).wf(),
        ensures
            final(self).wf(),
            final(self)@ == old(self)@.insert(code, action),
    {
        let ghost s0 = self.pairs@;
        let mut i: usize = 0;
        while i < self.pairs.len()
            invariant
                i <= self.pairs@.len(),
                self.pairs@ == s0,
                old(self).pairs@ == s0,
                keys_unique(s0),
                forall|j: int| 0 <= j < i ==> s0[j].0 != code,
            decreases self.pairs@.len() - i,
        {
            if self.pairs[i].0 == code {
                self.pairs.set(i, (code, action));
                proof {
                    let s1 = self.pairs@;
                    assert(keys_unique(s1));
                    assert forall|k: KeyCode| #[trigger] pairs_map(s1).dom().contains(k)
                        == pairs_map(s0).insert(code, action).dom().contains(k) by {
                        if exists|j: int| 0 <= j < s0.len() && s0[j].0 == k {
                            let j = choose|j: int| 0 <= j < s0.len() && s0[j].0 == k;
                            assert(s1[j].0 == k);
                        }
                        if exists|j: int| 0 <= j < s1.len() && s1[j].0 == k {
                            let j = choose|j: int| 0 <= j < s1.len() && s1[j].0 == k;
                            assert(s0[j].0 == k);
                        }
                    }
                    assert forall|k: KeyCode| #[trigger] pairs_map(s1).dom().contains(k) implies
                        pairs_map(s1)[k] == pairs_map(s0).insert(code, action)[k] by {
                        let j = choose|j: int| 0 <= j < s1.len() && s1[j].0 == k;
                        lemma_pairs_map_at(s1, j);
                        if k != code {
                            lemma_pairs_map_at(s0, j);
                        }
                    }
                    assert(pairs_map(s1) =~= pairs_map(s0).insert(code, action));
                }
                return;
            }
            i = i + 1;
        }
        self.pairs.push((code, action));
        proof {
            let s1 = self.pairs@;
            assert(s1 == s0.push((code, action)));
            assert(keys_unique(s1));
            assert forall|k: KeyCode| #[trigger] pairs_map(s1).dom().contains(k)
                == pairs_map(s0).insert(code, action).dom().contains(k) by {
                if exists|j: int| 0 <= j < s0.len() && s0[j].0 == k {
                    let j = choose|j: int| 0 <= j < s0.len() && s0[j].0 == k;
                    assert(s1[j].0 == k);
                }
                if k == code {
                    assert(s1[s0.len() as int].0 == k);
                }
            }
            assert forall|k: KeyCode| #[trigger] pairs_map(s1).dom().contains(k) implies
                pairs_map(s1)[k] == pairs_map(s0).insert(code, action)[k] by {
                let j = choose|j: int| 0 <= j < s1.len() && s1[j].0 == k;
                lemma_pairs_map_at(s1, j);
                if k != code {
                    lemma_pairs_map_at(s0, j);
                }
            }
            assert(pairs_map(s1) =~= pairs_map(s0).insert(code, action));
        }
    }
}


/// The bindings a fresh install starts with.
pub open spec fn default_bindings_map() -> Map<KeyCode, KeyAction> {
    map![
        KeyCode::Char('q') => KeyAction::Quit,
        KeyCode::Char('?') => KeyAction::UiToggleHelp,
        KeyCode::Char('m') => KeyAction::MenuOpen,
        KeyCode::Char(' ') => KeyAction::PlayerTogglePause,
        KeyCode::Char('[') => KeyAction::PlayerPrev,
        KeyCode::Char(']') => KeyAction::PlayerNext,
        KeyCode::Char('M') => KeyAction::PlayerCycleMode,
    ]
}

impl Default for KeyBindings {
    /// `q` quits, `?` toggles help, `m` opens the menu, Space toggles pause,
    /// `[` and `]` go to the previous and next song, `M` cycles the play mode.
    fn default() -> (r: Self)
        ensures
            r.wf(),
            r@ == default_bindings_map(),
    {
        let mut r = KeyBindings::empty();
        r.bind(KeyCode::Char('q'), KeyAction::Quit);
        r.bind(KeyCode::Char('?'), KeyAction::UiToggleHelp);
        r.bind(KeyCode::Char('m'), KeyAction::MenuOpen);
        r.bind(KeyCode::Char(' '), KeyAction::PlayerTogglePause);
        r.bind(KeyCode::Char('['), KeyAction::PlayerPrev);
        r.bind(KeyCode::Char(']'), KeyAction::PlayerNext);
        r.bind(KeyCode::Char('M'), KeyAction::PlayerCycleMode);
        assert(r@ =~= default_bindings_map());
        r
    }
}

} // verus!
