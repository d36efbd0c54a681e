//! The play queue: the songs, the order in which they play, and the position
//! of the current song in that order.
use vstd::prelude::*;
use crate::model::{clone_songs, Song};
use crate::play_mode::PlayMode;
use crate::rng::random_below;

verus! {

/// `order` lists each index below `n` exactly once.
pub open spec fn is_perm(order: Seq<usize>, n: nat) -> bool {
    &&& order.len() == n
    &&& forall|i: int| 0 <= i < order.len() ==> #[trigger] order[i] < n
    &&& order.no_duplicates()
}

/// `s` with the entries at `a` and `b` exchanged.
pub open spec fn swapped(s: Seq<usize>, a: int, b: int) -> Seq<usize> {
    s.update(a, s[b]).update(b, s[a])
}

/// Draws for shuffling the first `i` entries: one for each position from
/// `i - 1` down to `1`, each below one more than its position (`draws[k]` is
/// for position `i - 1 - k`).
pub open spec fn valid_draws(draws: Seq<usize>, i: nat) -> bool {
    &&& draws.len() == (if i >= 1 { (i - 1) as nat } else { 0 })
    &&& forall|k: int| 0 <= k < draws.len() ==> #[trigger] draws[k] < i - k
}

/// The Fisher-Yates shuffle of the first `i` entries: the entry at `i - 1`
/// changes place with the one at the first draw, then the first `i - 1`
/// entries are shuffled with the other draws.
pub open spec fn fisher_yates(s: Seq<usize>, i: nat, draws: Seq<usize>) -> Seq<usize>
    decreases i,
{
    if i <= 1 || draws.len() == 0 {
        s
    } else {
        fisher_yates(swapped(s, i - 1, draws[0] as int), (i - 1) as nat, draws.drop_first())
    }
}

/// The indices `0..n` in order.
pub open spec fn in_order(n: nat) -> Seq<usize> {
    Seq::new(n, |i: int| i as usize)
}

proof fn lemma_draws_tail(draws: Seq<usize>, i: nat)
    requires
        valid_draws(draws, i),
        i >= 2,
    ensures
        valid_draws(draws.drop_first(), (i - 1) as nat),
        draws[0] < i,
{
    assert(draws[0] < i - 0);
    assert forall|k: int| 0 <= k < draws.drop_first().len() implies #[trigger] draws.drop_first()[k]
        < (i - 1) - k by {
        assert(draws[k + 1] < i - (k + 1));
    }
}

proof fn lemma_swapped_keeps_perm(s: Seq<usize>, n: nat, a: int, b: int)
    requires
        is_perm(s, n),
        0 <= a < n,
        0 <= b < n,
    ensures
        is_perm(swapped(s, a, b), n),
{
    let t = swapped(s, a, b);
    assert forall|x: int, y: int| 0 <= x < t.len() && 0 <= y < t.len() && x != y implies t[x]
        != t[y] by {
        let sx = if x == b { a } else if x == a { b } else { x };
        let sy = if y == b { a } else if y == a { b } else { y };
        assert(t[x] == s[sx]);
        assert(t[y] == s[sy]);
    }
    assert forall|x: int| 0 <= x < t.len() implies #[trigger] t[x] < n by {
        let sx = if x == b { a } else if x == a { b } else { x };
        assert(t[x] == s[sx]);
    }
}

/// Shuffling leaves the entries from position `i` on where they were.
proof fn lemma_fisher_yates_keeps_rest(s: Seq<usize>, i: nat, draws: Seq<usize>, p: int)
    requires
        i <= s.len(),
        valid_draws(draws, i),
        i <= p < s.len(),
    ensures
        fisher_yates(s, i, draws).len() == s.len(),
        fisher_yates(s, i, draws)[p] == s[p],
    decreases i,
{
    if i >= 2 {
        lemma_draws_tail(draws, i);
        lemma_fisher_yates_keeps_rest(swapped(s, i - 1, draws[0] as int), (i - 1) as nat, draws.drop_first(), p);
    }
}

/// A Fisher-Yates shuffle of a permutation of `0..n` is one too.
pub proof fn lemma_fisher_yates_is_perm(s: Seq<usize>, i: nat, draws: Seq<usize>, n: nat)
    requires
        is_perm(s, n),
        i <= n,
        valid_draws(draws, i),
    ensures
        is_perm(fisher_yates(s, i, draws), n),
    decreases i,
{
    if i >= 2 {
        lemma_draws_tail(draws, i);
        lemma_swapped_keeps_perm(s, n, i - 1, draws[0] as int);
        lemma_fisher_yates_is_perm(swapped(s, i - 1, draws[0] as int), (i - 1) as nat, draws.drop_first(), n);
    }
}

/// Different draws give different orders: a shuffle of a permutation of
/// `0..n` depends on every draw, and no two draw sequences give the same
/// order. (The first draw decides which entry ends last; the rest shuffle
/// what is before it.)
pub proof fn lemma_fisher_yates_draws_distinguish(s: Seq<usize>, i: nat, d1: Seq<usize>, d2: Seq<usize>, n: nat)
    requires
        is_perm(s, n),
        i <= n,
        valid_draws(d1, i),
        valid_draws(d2, i),
        d1 != d2,
    ensures
        fisher_yates(s, i, d1) != fisher_yates(s, i, d2),
    decreases i,
{
    if i <= 1 {
        assert(d1 =~= d2);
    } else {
        lemma_draws_tail(d1, i);
        lemma_draws_tail(d2, i);
        let s1 = swapped(s, i - 1, d1[0] as int);
        let s2 = swapped(s, i - 1, d2[0] as int);
        lemma_fisher_yates_keeps_rest(s1, (i - 1) as nat, d1.drop_first(), i - 1);
        lemma_fisher_yates_keeps_rest(s2, (i - 1) as nat, d2.drop_first(), i - 1);
        assert(s1[i - 1] == s[d1[0] as int]);
        assert(s2[i - 1] == s[d2[0] as int]);
        if d1[0] != d2[0] {
            assert(s[d1[0] as int] != s[d2[0] as int]);
            assert(fisher_yates(s, i, d1)[i - 1] != fisher_yates(s, i, d2)[i - 1]);
        } else {
            if d1.drop_first() == d2.drop_first() {
                assert(d1 =~= d2) by {
                    assert forall|k: int| 0 <= k < d1.len() implies d1[k] == d2[k] by {
                        if k > 0 {
                            assert(d1[k] == d1.drop_first()[k - 1]);
                            assert(d2[k] == d2.drop_first()[k - 1]);
                        }
                    }
                }
            }
            lemma_swapped_keeps_perm(s, n, i - 1, d1[0] as int);
            lemma_fisher_yates_draws_distinguish(s1, (i - 1) as nat, d1.drop_first(), d2.drop_first(), n);
        }
    }
}

/// In shuffle mode the play order of `n` songs is a permutation of `0..n`
/// that the draws decide: different draws give different orders, so an
/// order that ignored the draws (such as the list order for every draw)
/// is not a shuffle.
pub proof fn lemma_shuffled_order(n: nat, d1: Seq<usize>, d2: Seq<usize>)
    requires
        n <= usize::MAX,
        valid_draws(d1, n),
        valid_draws(d2, n),
    ensures
        is_perm(fisher_yates(in_order(n), n, d1), n),
        d1 != d2 ==> fisher_yates(in_order(n), n, d1) != fisher_yates(in_order(n), n, d2),
{
    let s = in_order(n);
    assert(is_perm(s, n)) by {
        assert forall|x: int, y: int| 0 <= x < s.len() && 0 <= y < s.len() && x != y implies s[x]
            != s[y] by {}
    }
    lemma_fisher_yates_is_perm(s, n, d1, n);
    if d1 != d2 {
        lemma_fisher_yates_draws_distinguish(s, n, d1, d2, n);
    }
}

/// Shuffles an order with the given draws (see `fisher_yates`).
pub fn shuffle_with_draws(order: &mut Vec<usize>, draws: &Vec<usize>)
    requires
        valid_draws(draws@, old(order)@.len()),
    ensures
        final(order)@ == fisher_yates(old(order)@, old(order)@.len(), draws@),
{
    let n = order.len();
    let mut i: usize = n;
    let mut k: usize = 0;
    assert(draws@.skip(0) =~= draws@);
    while i > 1
        invariant
            order@.len() == n,
            n == old(order)@.len(),
            k + i == n,
            valid_draws(draws@, n as nat),
            fisher_yates(old(order)@, n as nat, draws@) == fisher_yates(order@, i as nat, draws@.skip(k as int)),
        decreases i,
    {
        let ghost rest = draws@.skip(k as int);
        assert(valid_draws(rest, i as nat)) by {
            assert forall|m: int| 0 <= m < rest.len() implies #[trigger] rest[m] < i - m by {
                assert(rest[m] == draws@[k + m]);
                assert(draws@[k + m] < n - (k + m));
            }
        }
        assert(rest[0] == draws@[k as int]);
        let j = draws[k];
        let a = order[i - 1];
        let b = order[j];
        let ghost before = order@;
        order.set(i - 1, b);
        order.set(j, a);
        assert(order@ == swapped(before, i - 1, j as int));
        assert(rest.drop_first() =~= draws@.skip(k + 1));
        i = i - 1;
        k = k + 1;
    }
}

/// Draws for shuffling `n` entries, from the random source.
fn draw_shuffle(n: usize) -> (d: Vec<usize>)
    ensures
        valid_draws(d@, n as nat),
{
    let mut d: Vec<usize> = Vec::new();
    let mut i: usize = n;
    while i > 1
        invariant
            i <= n,
            d@.len() + i == n,
            n >= 1 ==> i >= 1,
            forall|k: int| 0 <= k < d@.len() ==> #[trigger] d@[k] < n - k,
        decreases i,
    {
        let j = random_below(i);
        d.push(j);
        i = i - 1;
    }
    d
}

pub struct PlayQueue {
    songs: Vec<Song>,
    order: Vec<usize>,
    cursor: Option<usize>,
    mode: PlayMode,
}

impl PlayQueue {
    /// The order is a permutation of the songs' indices and the cursor
    /// points into it.
    pub closed spec fn wf(self) -> bool {
        &&& is_perm(self.order@, self.songs@.len())
        &&& (self.cursor matches Some(c) ==> c < self.songs@.len())
    }

    /// The songs, in the order they were given.
    pub closed spec fn songs_view(self) -> Seq<Song> {
        self.songs@
    }

    /// The play order: indices into the songs.
    pub closed spec fn order_view(self) -> Seq<usize> {
        self.order@
    }

    /// Position of the current song in the play order.
    pub closed spec fn cursor_view(self) -> Option<usize> {
        self.cursor
    }

    pub closed spec fn mode_view(self) -> PlayMode {
        self.mode
    }

    /// What the invariant gives: the order is a permutation and the cursor
    /// is in range.
    pub proof fn lemma_wf(self)
        requires
            self.wf(),
        ensures
            is_perm(self.order_view(), self.songs_view().len()),
            self.cursor_view() matches Some(c) ==> c < self.songs_view().len(),
    {
    }

    /// An empty queue in the given mode.
    pub fn new(mode: PlayMode) -> (q: Self)
        ensures
            q.wf(),
            q.songs_view().len() == 0,
            q.cursor_view() is None,
            q.mode_view() == mode,
    {
        PlayQueue { songs: Vec::new(), order: Vec::new(), cursor: None, mode }
    }

    pub fn songs(&self) -> (r: &Vec<Song>)
        ensures
            r@ == self.songs_view(),
    {
        &self.songs
    }

    pub fn mode(&self) -> (r: PlayMode)
        ensures
            r == self.mode_view(),
    {
        self.mode
    }

    pub fn cursor_pos(&self) -> (r: Option<usize>)
        requires
            self.wf(),
        ensures
            r == self.cursor_view(),
            r matches Some(c) ==> c < self.songs_view().len(),
    {
        self.cursor
    }

    pub fn is_empty(&self) -> (r: bool)
        ensures
            r == (self.songs_view().len() == 0),
    {
        self.songs.len() == 0
    }

    pub fn len(&self) -> (r: usize)
        ensures
            r == self.songs_view().len(),
    {
        self.songs.len()
    }

    /// The play order as indices into the songs.
    pub fn order(&self) -> (r: &Vec<usize>)
        requires
            self.wf(),
        ensures
            r@ == self.order_view(),
            is_perm(r@, self.songs_view().len()),
    {
        &self.order
    }

    /// The songs in play order.
    pub fn ordered_songs(&self) -> (r: Vec<Song>)
        requires
            self.wf(),
        ensures
            r@.len() == self.songs_view().len(),
            r@.len() == self.order_view().len(),
            forall|i: int|
                0 <= i < r@.len() ==> #[trigger] r@[i] == self.songs_view()[self.order_view()[i] as int],
    {
        let mut out: Vec<Song> = Vec::new();
        let mut i: usize = 0;
        while i < self.order.len()
            invariant
                i <= self.order@.len(),
                is_perm(self.order@, self.songs@.len()),
                out@.len() == i,
                forall|j: int| 0 <= j < i ==> #[trigger] out@[j] == self.songs@[self.order@[j] as int],
            decreases self.order.len() - i,
        {
            let k = self.order[i];
            assert(k < self.songs@.len());
            out.push(self.songs[k].clone());
            i += 1;
        }
        out
    }

    /// The current song.
    pub fn current(&self) -> (r: Option<&Song>)
        requires
            self.wf(),
        ensures
            match self.cursor_view() {
                Some(c) => r == Some(&self.songs_view()[self.order_view()[c as int] as int]),
                None => r is None,
            },
    {
        match self.cursor {
            Some(c) => {
                let k = self.order[c];
                Some(&self.songs[k])
            },
            None => None,
        }
    }

    /// Points the cursor at position `pos` of the play order, or clears it
    /// when `pos` is past the end.
    pub fn set_cursor_pos(&mut self, pos: usize)
        requires
            old(self).wf(),
        ensures
            final(self).wf(),
            final(self).songs_view() == old(self).songs_view(),
            final(self).order_view() == old(self).order_view(),
            final(self).mode_view() == old(self).mode_view(),
            final(self).cursor_view() == (if pos < old(self).songs_view().len() {
                Some(pos)
            } else {
                None::<usize>
            }),
    {
        if pos < self.songs.len() {
            self.cursor = Some(pos);
        } else {
            self.cursor = None;
        }
    }

    /// Replaces the songs. The play order is the given order, shuffled in
    /// shuffle mode; the cursor is put on `start` (an index into the songs)
    /// when it is one, else cleared.
    pub fn set_songs(&mut self, songs: Vec<Song>, start: Option<usize>)
        requires
            old(self).wf(),
        ensures
            final(self).wf(),
            final(self).songs_view() == songs@,
            final(self).mode_view() == old(self).mode_view(),
            old(self).mode_view() != PlayMode::Shuffle ==> final(self).order_view() == Seq::new(
                songs@.len(),
                |i: int| i as usize,
            ),
            old(self).mode_view() == PlayMode::Shuffle ==> exists|d: Seq<usize>|
                valid_draws(d, songs@.len()) && final(self).order_view() == fisher_yates(
                    in_order(songs@.len()),
                    songs@.len(),
                    d,
                ),
            match start {
                Some(s) => if s < songs@.len() {
                    final(self).cursor_view() matches Some(c) && final(self).order_view()[c as int]
                        == s
                } else {
                    final(self).cursor_view() is None
                },
                None => final(self).cursor_view() is None,
            },
    {
        let n = songs.len();
        let mut order: Vec<usize> = Vec::new();
        let mut i: usize = 0;
        while i < n
            invariant
                i <= n,
                order@ == Seq::new(i as nat, |j: int| j as usize),
            decreases n - i,
        {
            order.push(i);
            i += 1;
            assert(order@ =~= Seq::new(i as nat, |j: int| j as usize));
        }
        assert(is_perm(order@, n as nat));
        assert(order@ =~= in_order(n as nat));
        if matches!(self.mode, PlayMode::Shuffle) {
            shuffle(&mut order, n);
        }
        let cursor = match start {
            Some(s) => if s < n {
                Some(position_of(&order, s))
            } else {
                None
            },
            None => None,
        };
        self.songs = songs;
        self.order = order;
        self.cursor = cursor;
    }

    /// Replaces the songs, shuffling `0..n` with the given draws in shuffle
    /// mode (see `set_songs`, which draws them at random); the cursor is put
    /// on `start` (an index into the songs) when it is one, else cleared.
    pub fn set_songs_with_draws(&mut self, songs: Vec<Song>, start: Option<usize>, draws: &Vec<usize>)
        requires
            old(self).wf(),
            old(self).mode_view() == PlayMode::Shuffle ==> valid_draws(draws@, songs@.len()),
        ensures
            final(self).wf(),
            final(self).songs_view() == songs@,
            final(self).mode_view() == old(self).mode_view(),
            old(self).mode_view() != PlayMode::Shuffle ==> final(self).order_view() == Seq::new(
                songs@.len(),
                |i: int| i as usize,
            ),
            old(self).mode_view() == PlayMode::Shuffle ==> final(self).order_view() == fisher_yates(
                in_order(songs@.len()),
                songs@.len(),
                draws@,
            ),
            match start {
                Some(s) => if s < songs@.len() {
                    final(self).cursor_view() matches Some(c) && final(self).order_view()[c as int]
                        == s
                } else {
                    final(self).cursor_view() is None
                },
                None => final(self).cursor_view() is None,
            },
    {
        let n = songs.len();
        let mut order: Vec<usize> = Vec::new();
        let mut i: usize = 0;
        while i < n
            invariant
                i <= n,
                order@ == Seq::new(i as nat, |j: int| j as usize),
            decreases n - i,
        {
            order.push(i);
            i += 1;
            assert(order@ =~= Seq::new(i as nat, |j: int| j as usize));
        }
        assert(is_perm(order@, n as nat));
        assert(order@ =~= in_order(n as nat));
        if matches!(self.mode, PlayMode::Shuffle) {
            shuffle_with_draws(&mut order, draws);
            proof {
                lemma_fisher_yates_is_perm(in_order(n as nat), n as nat, draws@, n as nat);
            }
        }
        let cursor = match start {
            Some(s) => if s < n {
                Some(position_of(&order, s))
            } else {
                None
            },
            None => None,
        };
        self.songs = songs;
        self.order = order;
        self.cursor = cursor;
    }

    /// Changes the mode; the order is kept.
    pub fn set_mode(&mut self, mode: PlayMode)
        requires
            old(self).wf(),
        ensures
            final(self).wf(),
            final(self).mode_view() == mode,
            final(self).songs_view() == old(self).songs_view(),
            final(self).order_view() == old(self).order_view(),
            final(self).cursor_view() == old(self).cursor_view(),
    {
        self.mode = mode;
    }

    /// Empties the queue.
    pub fn clear(&mut self)
        requires
            old(self).wf(),
        ensures
            final(self).wf(),
            final(self).songs_view().len() == 0,
            final(self).cursor_view() is None,
            final(self).mode_view() == old(self).mode_view(),
    {
        self.songs = Vec::new();
        self.order = Vec::new();
        self.cursor = None;
    }
}

/// Position of `s` in a permutation of `0..n`.
fn position_of(order: &Vec<usize>, s: usize) -> (r: usize)
    requires
        exists|n: nat| is_perm(order@, n) && s < n,
        order@.len() <= usize::MAX,
    ensures
        r < order@.len(),
        order@[r as int] == s,
{
    let ghost n = choose|n: nat| is_perm(order@, n) && s < n;
    proof {
        lemma_perm_covers(order@, n, s);
    }
    let mut i: usize = 0;
    while i < order.len()
        invariant
            i <= order@.len(),
            exists|j: int| i <= j < order@.len() && order@[j] == s,
        decreases order.len() - i,
    {
        if order[i] == s {
            return i;
        }
        i += 1;
    }
    i
}

/// Every index below `n` occurs in a permutation of `0..n`.
pub proof fn lemma_perm_covers(order: Seq<usize>, n: nat, s: usize)
    requires
        is_perm(order, n),
        s < n,
        n <= usize::MAX,
    ensures
        exists|j: int| 0 <= j < order.len() && order[j] == s,
{
    let f = |i: int| order[i] as nat;
    if forall|j: int| 0 <= j < order.len() ==> order[j] != s {
        // The `n` entries take fewer than `n` distinct values: a contradiction.
        let set_vals = order.to_set();
        order.unique_seq_to_set();
        assert forall|x: usize| set_vals.contains(x) implies x < n && x != s by {
            let j = choose|j: int| 0 <= j < order.len() && order[j] == x;
        }
        let bound = Set::new(|x: usize| x < n && x != s);
        lemma_bounded_set_len(n, s);
        vstd::set_lib::lemma_len_subset(set_vals, bound);
    }
}

proof fn lemma_bounded_set_len(n: nat, s: usize)
    requires
        s < n,
        n <= usize::MAX,
    ensures
        Set::new(|x: usize| x < n && x != s).finite(),
        Set::new(|x: usize| x < n && x != s).len() == n - 1,
{
    let full = Set::new(|x: usize| x < n);
    lemma_range_set(n);
    assert(Set::new(|x: usize| x < n && x != s) =~= full.remove(s));
}

proof fn lemma_range_set(n: nat)
    requires
        n <= usize::MAX,
    ensures
        Set::new(|x: usize| x < n).finite(),
        Set::new(|x: usize| x < n).len() == n,
    decreases n,
{
    if n == 0 {
        assert(Set::new(|x: usize| x < n) =~= Set::empty());
    } else {
        lemma_range_set((n - 1) as nat);
        assert(Set::new(|x: usize| x < n) =~= Set::new(|x: usize| x < n - 1).insert(
            (n - 1) as usize,
        ));
    }
}

/// Shuffles a permutation in place (Fisher-Yates with random draws): the
/// order is `fisher_yates` of the old one for the draws made.
fn shuffle(order: &mut Vec<usize>, n: usize)
    requires
        is_perm(old(order)@, n as nat),
    ensures
        is_perm(final(order)@, n as nat),
        exists|d: Seq<usize>|
            valid_draws(d, n as nat) && final(order)@ == fisher_yates(old(order)@, n as nat, d),
{
    let draws = draw_shuffle(order.len());
    shuffle_with_draws(order, &draws);
    proof {
        lemma_fisher_yates_is_perm(old(order)@, n as nat, draws@, n as nat);
    }
}

} // verus!
