//! A small set of strings, kept as a duplicate-free list.

use vstd::prelude::*;
use crate::text::str_eq;

verus! {

broadcast use vstd::seq_lib::group_seq_properties;

pub open spec fn distinct(s: Seq<Seq<char>>) -> bool {
    forall|a: int, b: int| 0 <= a < b < s.len() ==> #[trigger] s[a] != #[trigger] s[b]
}

/// `after` holds the members of `before`, with `key` flipped: added when it
/// was absent, removed when it was present.
pub open spec fn toggled_at(before: Seq<Seq<char>>, after: Seq<Seq<char>>, key: Seq<char>) -> bool {
    &&& after.contains(key) == !before.contains(key)
    &&& forall|k: Seq<char>| k != key ==> (#[trigger] after.contains(k) <==> before.contains(k))
}

/// Toggling the same string twice gives back the members the set started
/// with.
pub proof fn lemma_toggle_twice_restores(
    first: Seq<Seq<char>>,
    second: Seq<Seq<char>>,
    third: Seq<Seq<char>>,
    key: Seq<char>,
)
    requires
        toggled_at(first, second, key),
        toggled_at(second, third, key),
    ensures
        forall|k: Seq<char>| #[trigger] third.contains(k) <==> first.contains(k),
{
    assert forall|k: Seq<char>| #[trigger] third.contains(k) <==> first.contains(k) by {
        if k != key {
            assert(second.contains(k) <==> first.contains(k));
        }
    }
}

pub struct StringSet {
    items: Vec<String>,
}

impl View for StringSet {
    type V = Seq<Seq<char>>;

    closed spec fn view(&self) -> Seq<Seq<char>> {
        Seq::new(self.items@.len(), |i: int| self.items@[i]@)
    }
}

impl StringSet {
    /// No string occurs twice.
    pub closed spec fn wf(&self) -> bool {
        distinct(self@)
    }

    /// A well-formed set holds no string twice.
    pub proof fn lemma_wf_distinct(&self)
        requires
            self.wf(),
        ensures
            distinct(self@),
    {
    }

    pub fn new() -> (set: Self)
        ensures
            set.wf(),
            set@.len() == 0,
    {
        StringSet { items: Vec::new() }
    }

    pub fn len(&self) -> (n: usize)
        ensures
            n == self@.len(),
    {
        self.items.len()
    }

    /// Position of `key`, if present.
    fn find(&self, key: &str) -> (pos: Option<usize>)
        ensures
            match pos {
                Some(i) => i < self@.len() && self@[i as int] == key@,
                None => !self@.contains(key@),
            },
    {
        let mut i: usize = 0;
        while i < self.items.len()
            invariant
                i <= self.items@.len(),
                forall|k: int| 0 <= k < i ==> #[trigger] self@[k] != key@,
            decreases self.items@.len() - i,
        {
            if str_eq(self.items[i].as_str(), key) {
                return Some(i);
            }
            i = i + 1;
        }
        None
    }

    pub fn contains(&self, key: &str) -> (found: bool)
        ensures
            found == self@.contains(key@),
    {
        match self.find(key) {
            Some(i) => {
                assert(self@[i as int] == key@);
                true
            },
            None => false,
        }
    }

    /// Adds `key`; returns whether it was absent.
    pub fn insert(&mut self, key: String) -> (added: bool)
        requires
            old(self).wf(),
        ensures
            final(self).wf(),
            added == !old(self)@.contains(key@),
            added ==> final(self)@ == old(self)@.push(key@),
            !added ==> final(self)@ == old(self)@,
    {
        match self.find(key.as_str()) {
            Some(i) => {
                assert(self@[i as int] == key@);
                false
            },
            None => {
                let ghost before = self@;
                self.items.push(key);
                proof {
                    assert(self@ =~= before.push(key@));
                }
                true
            },
        }
    }

    /// Removes `key`; returns whether it was present.
    pub fn remove(&mut self, key: &str) -> (removed: bool)
        requires
            old(self).wf(),
        ensures
            final(self).wf(),
            removed == old(self)@.contains(key@),
            forall|k: Seq<char>| #[trigger] final(self)@.contains(k) <==> (old(self)@.contains(k) && k != key@),
    {
        match self.find(key) {
            Some(i) => {
                let ghost before = self@;
                let ghost items_before = self.items@;
                self.items.remove(i);
                proof {
                    assert(self@ =~= before.remove(i as int)) by {
                        before.remove_ensures(i as int);
                    }
                    before.remove_ensures(i as int);
                    assert forall|k: Seq<char>| #[trigger] self@.contains(k) <==> (before.contains(k) && k != key@) by {
                        if self@.contains(k) {
                            let a = choose|a: int| 0 <= a < self@.len() && self@[a] == k;
                            if a < i {
                                assert(before[a] == k);
                                assert(a != i);
                            } else {
                                assert(before[a + 1] == k);
                            }
                        }
                        if before.contains(k) && k != key@ {
                            let a = choose|a: int| 0 <= a < before.len() && before[a] == k;
                            if a < i {
                                assert(self@[a] == k);
                            } else {
                                assert(a != i);
                                assert(self@[a - 1] == k);
                            }
                        }
                    }
                    assert forall|a: int, b: int| 0 <= a < b < self@.len() implies #[trigger] self@[a] != #[trigger] self@[b] by {
                        let a2 = if a < i { a } else { a + 1 };
                        let b2 = if b < i { b } else { b + 1 };
                        assert(self@[a] == before[a2]);
                        assert(self@[b] == before[b2]);
                    }
                }
                true
            },
            None => false,
        }
    }

    /// Removes `key` when present, adds it otherwise.
    pub fn toggle(&mut self, key: String)
        requires
            old(self).wf(),
        ensures
            final(self).wf(),
            final(self)@.contains(key@) == !old(self)@.contains(key@),
            forall|k: Seq<char>| k != key@ ==> (#[trigger] final(self)@.contains(k) <==> old(self)@.contains(k)),
            toggled_at(old(self)@, final(self)@, key@),
    {
        if !self.remove(key.as_str()) {
            let ghost before = self@;
            self.insert(key);
            proof {
                assert forall|k: Seq<char>| k != key@ implies (#[trigger] self@.contains(k) <==> before.contains(k)) by {
                    if self@.contains(k) {
                        let a = choose|a: int| 0 <= a < self@.len() && self@[a] == k;
                        if a < before.len() {
                            assert(before[a] == k);
                        }
                    }
                    if before.contains(k) {
                        let a = choose|a: int| 0 <= a < before.len() && before[a] == k;
                        assert(self@[a] == k);
                    }
                }
                assert(self@[self@.len() - 1] == key@);
            }
        }
    }

    /// Empties the set, handing back its strings.
    pub fn drain(&mut self) -> (all: Vec<String>)
        requires
            old(self).wf(),
        ensures
            final(self).wf(),
            final(self)@.len() == 0,
            all@.len() == old(self)@.len(),
            forall|i: int| 0 <= i < all@.len() ==> #[trigger] all@[i]@ == old(self)@[i],
    {
        let mut all: Vec<String> = Vec::new();
        std::mem::swap(&mut all, &mut self.items);
        proof {
            assert(self@ =~= Seq::<Seq<char>>::empty());
        }
        all
    }

    pub fn clear(&mut self)
        ensures
            final(self).wf(),
            final(self)@.len() == 0,
    {
        self.items.clear();
        assert(self@ =~= Seq::<Seq<char>>::empty());
    }
}

} // verus!
