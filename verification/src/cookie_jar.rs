//! A map from names to values, kept in insertion order: the cookies of a
//! session and the header fields built from them.
use vstd::prelude::*;
use crate::text::str_is;

verus! {

/// Whether no name occurs twice among the entries.
pub open spec fn names_unique(s: Seq<(String, String)>) -> bool {
    forall|i: int, j: int| 0 <= i < s.len() && 0 <= j < s.len() && i != j ==> s[i].0@ != s[j].0@
}

/// The map that the entries stand for.
pub open spec fn entries_map(s: Seq<(String, String)>) -> Map<Seq<char>, Seq<char>> {
    Map::new(
        |k: Seq<char>| exists|i: int| 0 <= i < s.len() && s[i].0@ == k,
        |k: Seq<char>| s[choose|i: int| 0 <= i < s.len() && s[i].0@ == k].1@,
    )
}

/// The entries as pairs of character sequences, in order.
pub open spec fn entries_views(s: Seq<(String, String)>) -> Seq<(Seq<char>, Seq<char>)> {
    s.map_values(|e: (String, String)| (e.0@, e.1@))
}

/// Where a name sits among unique names, the map gives its entry's value.
pub proof fn lemma_entries_map_at(s: Seq<(String, String)>, i: int)
    requires
        names_unique(s),
        0 <= i < s.len(),
    ensures
        entries_map(s).dom().contains(s[i].0@),
        entries_map(s)[s[i].0@] == s[i].1@,
{
    let k = s[i].0@;
    assert(exists|j: int| 0 <= j < s.len() && s[j].0@ == k);
    let j = choose|j: int| 0 <= j < s.len() && s[j].0@ == k;
    assert(j == i);
}

/// Names and values, each name at most once, in the order they were added.
pub struct CookieJar {
    entries: Vec<(String, String)>,
}

impl vstd::view::View for CookieJar {
    type V = Map<Seq<char>, Seq<char>>;

    closed spec fn view(&self) -> Map<Seq<char>, Seq<char>> {
        entries_map(self.entries@)
    }
}

impl CookieJar {
    /// No name occurs twice.
    pub closed spec fn wf(&self) -> bool {
        names_unique(self.entries@)
    }

    /// The entries in the order they were added.
    pub closed spec fn ordered(&self) -> Seq<(Seq<char>, Seq<char>)> {
        entries_views(self.entries@)
    }

    /// The ordered entries hold exactly the map's pairs, each name once.
    pub proof fn lemma_ordered_is_map(&self)
        requires
            self.wf(),
        ensures
            forall|i: int|
                0 <= i < self.ordered().len() ==> self@.dom().contains(#[trigger] self.ordered()[i].0)
                    && self@[self.ordered()[i].0] == self.ordered()[i].1,
            forall|k: Seq<char>|
                #[trigger] self@.dom().contains(k) ==> exists|i: int|
                    0 <= i < self.ordered().len() && self.ordered()[i].0 == k,
            forall|i: int, j: int|
                0 <= i < self.ordered().len() && 0 <= j < self.ordered().len() && i != j
                    ==> self.ordered()[i].0 != self.ordered()[j].0,
    {
        let s = self.entries@;
        assert forall|i: int| 0 <= i < self.ordered().len() implies self@.dom().contains(
            #[trigger] self.ordered()[i].0,
        ) && self@[self.ordered()[i].0] == self.ordered()[i].1 by {
            lemma_entries_map_at(s, i);
        }
        assert forall|k: Seq<char>| #[trigger] self@.dom().contains(k) implies exists|i: int|
            0 <= i < self.ordered().len() && self.ordered()[i].0 == k by {
            let i = choose|i: int| 0 <= i < s.len() && s[i].0@ == k;
            assert(self.ordered()[i].0 == k);
        }
    }

    /// An empty jar.
    pub fn new() -> (r: Self)
        ensures
            r.wf(),
            r@ == Map::<Seq<char>, Seq<char>>::empty(),
            r.ordered().len() == 0,
    {
        let r = CookieJar { entries: Vec::new() };
        assert(r@ =~= Map::<Seq<char>, Seq<char>>::empty());
        r
    }

    /// The number of entries.
    pub fn len(&self) -> (r: usize)
        ensures
            r == self.ordered().len(),
    {
        self.entries.len()
    }

    /// The name and value of entry `i`, in insertion order.
    pub fn entry(&self, i: usize) -> (r: (&String, &String))
        requires
            i < self.ordered().len(),
        ensures
            (r.0@, r.1@) == self.ordered()[i as int],
    {
        (&self.entries[i].0, &self.entries[i].1)
    }

    fn position(&self, name: &str) -> (r: Option<usize>)
        requires
            self.wf(),
        ensures
            match r {
                Some(i) => i < self.entries@.len() && self.entries@[i as int].0@ == name@,
                None => !self@.dom().contains(name@),
            },
    {
        let mut i: usize = 0;
        while i < self.entries.len()
            invariant
                i <= self.entries@.len(),
                forall|j: int| 0 <= j < i ==> self.entries@[j].0@ != name@,
            decreases self.entries@.len() - i,
        {
            if str_is(self.entries[i].0.as_str(), name) {
                return Some(i);
            }
            i = i + 1;
        }
        None
    }

    /// Whether `name` has a value.
    pub fn contains_key(&self, name: &str) -> (r: bool)
        requires
            self.wf(),
        ensures
            r == self@.dom().contains(name@),
    {
        match self.position(name) {
            Some(i) => {
                proof {
                    lemma_entries_map_at(self.entries@, i as int);
                }
                true
            },
            None => false,
        }
    }

    /// The value of `name`, if it has one.
    pub fn get(&self, name: &str) -> (r: Option<&String>)
        requires
            self.wf(),
        ensures
            r is Some == self@.dom().contains(name@),
            r matches Some(v) ==> v@ == self@[name@],
    {
        match self.position(name) {
            Some(i) => {
                proof {
                    lemma_entries_map_at(self.entries@, i as int);
                }
                Some(&self.entries[i].1)
            },
            None => None,
        }
    }

    /// Sets `name` to `value`, keeping its place if it had a value.
    pub fn insert(&mut self, name: String, value: String)
        requires
            old(self).wf(),
        ensures
            final(self).wf(),
            final(self)@ == old(self)@.insert(name@, value@),
    {
        let ghost s0 = self.entries@;
        match self.position(name.as_str()) {
            Some(i) => {
                self.entries.set(i, (name, value));
                proof {
                    let s1 = self.entries@;
                    let k0 = s1[i as int].0@;
                    let v0 = s1[i as int].1@;
                    assert(names_unique(s1));
                    assert forall|k: Seq<char>| #[trigger] entries_map(s1).dom().contains(k)
                        == entries_map(s0).insert(k0, v0).dom().contains(k) by {
                        if exists|j: int| 0 <= j < s0.len() && s0[j].0@ == k {
                            let j = choose|j: int| 0 <= j < s0.len() && s0[j].0@ == k;
                            assert(s1[j].0@ == k);
                        }
                        if exists|j: int| 0 <= j < s1.len() && s1[j].0@ == k {
                            let j = choose|j: int| 0 <= j < s1.len() && s1[j].0@ == k;
                            assert(s0[j].0@ == k);
                        }
                    }
                    assert forall|k: Seq<char>| #[trigger] entries_map(s1).dom().contains(k) implies
                        entries_map(s1)[k] == entries_map(s0).insert(k0, v0)[k] by {
                        let j = choose|j: int| 0 <= j < s1.len() && s1[j].0@ == k;
                        lemma_entries_map_at(s1, j);
                        if k != k0 {
                            lemma_entries_map_at(s0, j);
                        }
                    }
                    assert(entries_map(s1) =~= entries_map(s0).insert(k0, v0));
                }
            },
            None => {
                self.entries.push((name, value));
                proof {
                    let s1 = self.entries@;
                    let k0 = s1[s0.len() as int].0@;
                    let v0 = s1[s0.len() as int].1@;
                    assert(s1 == s0.push(s1[s0.len() as int]));
                    assert(names_unique(s1)) by {
                        assert forall|j: int| 0 <= j < s0.len() implies s0[j].0@ != k0 by {
                            if s0[j].0@ == k0 {
                                assert(entries_map(s0).dom().contains(k0));
                            }
                        }
                    }
                    assert forall|k: Seq<char>| #[trigger] entries_map(s1).dom().contains(k)
                        == entries_map(s0).insert(k0, v0).dom().contains(k) by {
                        if exists|j: int| 0 <= j < s0.len() && s0[j].0@ == k {
                            let j = choose|j: int| 0 <= j < s0.len() && s0[j].0@ == k;
                            assert(s1[j].0@ == k);
                        }
                        if k == k0 {
                            assert(s1[s0.len() as int].0@ == k);
                        }
                    }
                    assert forall|k: Seq<char>| #[trigger] entries_map(s1).dom().contains(k) implies
                        entries_map(s1)[k] == entries_map(s0).insert(k0, v0)[k] by {
                        let j = choose|j: int| 0 <= j < s1.len() && s1[j].0@ == k;
                        lemma_entries_map_at(s1, j);
                        if k != k0 {
                            lemma_entries_map_at(s0, j);
                        }
                    }
                    assert(entries_map(s1) =~= entries_map(s0).insert(k0, v0));
                }
            },
        }
    }

    /// Sets `name` to `value` only where `name` has no value yet.
    pub fn set_default(&mut self, name: &str, value: String)
        requires
            old(self).wf(),
        ensures
            final(self).wf(),
            final(self)@ == (if old(self)@.dom().contains(name@) {
                old(self)@
            } else {
                old(self)@.insert(name@, value@)
            }),
    {
        if !self.contains_key(name) {
            self.insert(name.to_string(), value);
        }
    }

    /// A copy of the jar.
    pub fn duplicate(&self) -> (r: Self)
        requires
            self.wf(),
        ensures
            r.wf(),
            r@ == self@,
            r.ordered() == self.ordered(),
    {
        let mut entries: Vec<(String, String)> = Vec::new();
        let mut i: usize = 0;
        while i < self.entries.len()
            invariant
                i <= self.entries@.len(),
                entries@.len() == i,
                forall|j: int|
                    0 <= j < i ==> #[trigger] entries@[j].0@ == self.entries@[j].0@
                        && entries@[j].1@ == self.entries@[j].1@,
            decreases self.entries@.len() - i,
        {
            let e = (self.entries[i].0.clone(), self.entries[i].1.clone());
            entries.push(e);
            i = i + 1;
        }
        let r = CookieJar { entries };
        proof {
            let s = self.entries@;
            let t = r.entries@;
            assert(names_unique(t));
            assert(entries_views(t) =~= entries_views(s));
            assert forall|k: Seq<char>| #[trigger] entries_map(t).dom().contains(k)
                == entries_map(s).dom().contains(k) by {
                if exists|j: int| 0 <= j < s.len() && s[j].0@ == k {
                    let j = choose|j: int| 0 <= j < s.len() && s[j].0@ == k;
                    assert(t[j].0@ == k);
                }
                if exists|j: int| 0 <= j < t.len() && t[j].0@ == k {
                    let j = choose|j: int| 0 <= j < t.len() && t[j].0@ == k;
                    assert(s[j].0@ == k);
                }
            }
            assert forall|k: Seq<char>| #[trigger] entries_map(t).dom().contains(k) implies
                entries_map(t)[k] == entries_map(s)[k] by {
                let j = choose|j: int| 0 <= j < t.len() && t[j].0@ == k;
                lemma_entries_map_at(t, j);
                lemma_entries_map_at(s, j);
            }
            assert(entries_map(t) =~= entries_map(s));
        }
        r
    }
}

} // verus!
