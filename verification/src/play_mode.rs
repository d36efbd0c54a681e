//! Play modes, their stored names and their labels.
use vstd::prelude::*;
use crate::text::str_is;

verus! {

/// How the queue advances when a song ends.
#[derive(Debug, Clone, Copy, PartialEq, Eq, Structural)]
pub enum PlayMode {
    Sequential,
    ListLoop,
    SingleLoop,
    Shuffle,
}

/// The name under which a mode is stored in settings and state files.
pub open spec fn mode_name(m: PlayMode) -> Seq<char> {
    match m {
        PlayMode::Sequential => "Sequential"@,
        PlayMode::ListLoop => "ListLoop"@,
        PlayMode::SingleLoop => "SingleLoop"@,
        PlayMode::Shuffle => "Shuffle"@,
    }
}

/// The mode a stored name stands for; any unknown name is `ListLoop`.
pub open spec fn mode_of_name(s: Seq<char>) -> PlayMode {
    if s == "Sequential"@ {
        PlayMode::Sequential
    } else if s == "SingleLoop"@ {
        PlayMode::SingleLoop
    } else if s == "Shuffle"@ {
        PlayMode::Shuffle
    } else {
        PlayMode::ListLoop
    }
}

/// The stored name of a mode.
pub fn play_mode_to_string(m: PlayMode) -> (r: String)
    ensures
        r@ == mode_name(m),
{
    match m {
        PlayMode::Sequential => "Sequential",
        PlayMode::ListLoop => "ListLoop",
        PlayMode::SingleLoop => "SingleLoop",
        PlayMode::Shuffle => "Shuffle",
    }.to_owned()
}

/// The mode of a stored name; unknown names give `ListLoop`.
pub fn play_mode_from_string(s: &str) -> (r: PlayMode)
    ensures
        r == mode_of_name(s@),
{
    if str_is(s, "Sequential") {
        PlayMode::Sequential
    } else if str_is(s, "SingleLoop") {
        PlayMode::SingleLoop
    } else if str_is(s, "Shuffle") {
        PlayMode::Shuffle
    } else {
        PlayMode::ListLoop
    }
}

/// A mode's stored name reads back as the same mode.
pub proof fn lemma_play_mode_name_roundtrip(m: PlayMode)
    ensures
        mode_of_name(mode_name(m)) == m,
{
    reveal_strlit("Sequential");
    reveal_strlit("ListLoop");
    reveal_strlit("SingleLoop");
    reveal_strlit("Shuffle");
    assert("ListLoop"@ != "Sequential"@) by {
        assert("ListLoop"@[0] != "Sequential"@[0]);
    }
    assert("ListLoop"@ != "SingleLoop"@) by {
        assert("ListLoop"@[0] != "SingleLoop"@[0]);
    }
    assert("ListLoop"@ != "Shuffle"@) by {
        assert("ListLoop"@[0] != "Shuffle"@[0]);
    }
    assert("SingleLoop"@ != "Sequential"@) by {
        assert("SingleLoop"@[1] != "Sequential"@[1]);
    }
    assert("Shuffle"@ != "Sequential"@) by {
        assert("Shuffle"@[1] != "Sequential"@[1]);
    }
    assert("Shuffle"@ != "SingleLoop"@) by {
        assert("Shuffle"@[1] != "SingleLoop"@[1]);
    }
}

/// The label the UI shows for a mode.
pub open spec fn mode_label(m: PlayMode) -> Seq<char> {
    match m {
        PlayMode::Sequential => "顺序"@,
        PlayMode::ListLoop => "列表循环"@,
        PlayMode::SingleLoop => "单曲循环"@,
        PlayMode::Shuffle => "随机"@,
    }
}

pub fn play_mode_label(m: PlayMode) -> (r: &'static str)
    ensures
        r@ == mode_label(m),
{
    match m {
        PlayMode::Sequential => "顺序",
        PlayMode::ListLoop => "列表循环",
        PlayMode::SingleLoop => "单曲循环",
        PlayMode::Shuffle => "随机",
    }
}

/// The mode after `m` in the cycle Sequential, ListLoop, SingleLoop, Shuffle.
pub open spec fn next_mode(m: PlayMode) -> PlayMode {
    match m {
        PlayMode::Sequential => PlayMode::ListLoop,
        PlayMode::ListLoop => PlayMode::SingleLoop,
        PlayMode::SingleLoop => PlayMode::Shuffle,
        PlayMode::Shuffle => PlayMode::Sequential,
    }
}

/// The mode before `m` in the same cycle.
pub open spec fn prev_mode(m: PlayMode) -> PlayMode {
    match m {
        PlayMode::Sequential => PlayMode::Shuffle,
        PlayMode::ListLoop => PlayMode::Sequential,
        PlayMode::SingleLoop => PlayMode::ListLoop,
        PlayMode::Shuffle => PlayMode::SingleLoop,
    }
}

pub fn next_play_mode(m: PlayMode) -> (r: PlayMode)
    ensures
        r == next_mode(m),
{
    match m {
        PlayMode::Sequential => PlayMode::ListLoop,
        PlayMode::ListLoop => PlayMode::SingleLoop,
        PlayMode::SingleLoop => PlayMode::Shuffle,
        PlayMode::Shuffle => PlayMode::Sequential,
    }
}

pub fn prev_play_mode(m: PlayMode) -> (r: PlayMode)
    ensures
        r == prev_mode(m),
{
    match m {
        PlayMode::Sequential => PlayMode::Shuffle,
        PlayMode::ListLoop => PlayMode::Sequential,
        PlayMode::SingleLoop => PlayMode::ListLoop,
        PlayMode::Shuffle => PlayMode::SingleLoop,
    }
}

/// Stepping back undoes stepping forward, and forward undoes back.
pub proof fn lemma_mode_cycle_inverse(m: PlayMode)
    ensures
        prev_mode(next_mode(m)) == m,
        next_mode(prev_mode(m)) == m,
{
}

/// Four steps forward come back to the start.
pub proof fn lemma_mode_cycle_period(m: PlayMode)
    ensures
        next_mode(next_mode(next_mode(next_mode(m)))) == m,
{
}

} // verus!
