//! A small map from characters to counts, kept as a list of distinct keys in
//! the order in which they were first set.
use vstd::prelude::*;

verus! {

/// The count stored for `c` in a list of entries, looking from the end.
pub open spec fn lookup(entries: Seq<(char, u32)>, c: char) -> Option<u32>
    decreases entries.len(),
{
    if entries.len() == 0 {
        None
    } else if entries.last().0 == c {
        Some(entries.last().1)
    } else {
        lookup(entries.drop_last(), c)
    }
}

/// No key appears twice.
pub open spec fn distinct_keys(entries: Seq<(char, u32)>) -> bool {
    forall|i: int, j: int|
        0 <= i < entries.len() && 0 <= j < entries.len() && i != j ==> #[trigger] entries[i].0
            != #[trigger] entries[j].0
}

pub proof fn lemma_lookup_at(entries: Seq<(char, u32)>, i: int)
    requires
        distinct_keys(entries),
        0 <= i < entries.len(),
    ensures
        lookup(entries, entries[i].0) == Some(entries[i].1),
    decreases entries.len(),
{
    if i < entries.len() - 1 {
        assert(entries.last().0 != entries[i].0);
        assert(distinct_keys(entries.drop_last()));
        lemma_lookup_at(entries.drop_last(), i);
    }
}

pub proof fn lemma_lookup_absent(entries: Seq<(char, u32)>, c: char)
    requires
        forall|i: int| 0 <= i < entries.len() ==> #[trigger] entries[i].0 != c,
    ensures
        lookup(entries, c) is None,
    decreases entries.len(),
{
    if entries.len() > 0 {
        lemma_lookup_absent(entries.drop_last(), c);
    }
}

pub proof fn lemma_lookup_found(entries: Seq<(char, u32)>, c: char)
    requires
        lookup(entries, c) is Some,
    ensures
        exists|i: int| 0 <= i < entries.len() && #[trigger] entries[i].0 == c,
    decreases entries.len(),
{
    if entries.last().0 != c {
        lemma_lookup_found(entries.drop_last(), c);
        let i = choose|i: int| 0 <= i < entries.len() - 1 && #[trigger] entries.drop_last()[i].0 == c;
        assert(entries[i].0 == c);
    } else {
        assert(entries[entries.len() - 1].0 == c);
    }
}

/// The sum of the counts of a list of entries.
pub open spec fn entries_total(entries: Seq<(char, u32)>) -> int
    decreases entries.len(),
{
    if entries.len() == 0 {
        0
    } else {
        entries_total(entries.drop_last()) + entries.last().1
    }
}

pub proof fn lemma_total_update(entries: Seq<(char, u32)>, i: int, e: (char, u32))
    requires
        0 <= i < entries.len(),
    ensures
        entries_total(entries.update(i, e)) == entries_total(entries) - entries[i].1 + e.1,
    decreases entries.len(),
{
    let u = entries.update(i, e);
    if i == entries.len() - 1 {
        assert(u.drop_last() =~= entries.drop_last());
    } else {
        assert(u.drop_last() =~= entries.drop_last().update(i, e));
        lemma_total_update(entries.drop_last(), i, e);
    }
}

/// A map from letters to counts. It is a list of distinct keys rather than a
/// `HashMap`: vstd gives `char` keys no hashing model, and the letter machine
/// walks the counts in a loop, which a list walks in an order that can be
/// stated. Two maps are equal when they hold the same counts, whatever the
/// order of their entries.
#[derive(Debug, Eq)]
pub struct LetterCounts {
    entries: Vec<(char, u32)>,
}

impl LetterCounts {
    #[verifier::type_invariant]
    spec fn keys_distinct(self) -> bool {
        distinct_keys(self.entries@)
    }

    /// The entries, in the order in which their keys were first set.
    pub closed spec fn entry_seq(self) -> Seq<(char, u32)> {
        self.entries@
    }

    /// The count stored for `c`, if any.
    pub open spec fn get_spec(self, c: char) -> Option<u32> {
        lookup(self.entry_seq(), c)
    }

    /// The sum of all stored counts.
    pub open spec fn total(self) -> int {
        entries_total(self.entry_seq())
    }

    /// The count for `c`, zero when none is stored.
    pub open spec fn count(self, c: char) -> u32 {
        match self.get_spec(c) {
            Some(n) => n,
            None => 0,
        }
    }

    pub proof fn lemma_entry(self, i: int)
        requires
            distinct_keys(self.entry_seq()),
            0 <= i < self.entry_seq().len(),
        ensures
            self.get_spec(self.entry_seq()[i].0) == Some(self.entry_seq()[i].1),
    {
        lemma_lookup_at(self.entry_seq(), i);
    }

    /// Every `LetterCounts` has distinct keys.
    pub fn lemma_distinct(&self)
        ensures
            distinct_keys(self.entry_seq()),
    {
        proof {
            use_type_invariant(self);
        }
    }

    pub fn new() -> (r: LetterCounts)
        ensures
            r.entry_seq() == Seq::<(char, u32)>::empty(),
            forall|c: char| r.get_spec(c) is None,
    {
        LetterCounts { entries: Vec::new() }
    }

    pub fn len(&self) -> (r: usize)
        ensures
            r == self.entry_seq().len(),
    {
        self.entries.len()
    }

    /// The `i`-th entry.
    pub fn entry(&self, i: usize) -> (r: (char, u32))
        requires
            i < self.entry_seq().len(),
        ensures
            r == self.entry_seq()[i as int],
    {
        self.entries[i]
    }

    fn position(&self, c: char) -> (r: Option<usize>)
        ensures
            match r {
                Some(i) => i < self.entry_seq().len() && self.entry_seq()[i as int].0 == c,
                None => forall|i: int|
                    0 <= i < self.entry_seq().len() ==> #[trigger] self.entry_seq()[i].0 != c,
            },
    {
        let mut i: usize = 0;
        while i < self.entries.len()
            invariant
                i <= self.entries@.len(),
                forall|k: int| 0 <= k < i ==> #[trigger] self.entries@[k].0 != c,
            decreases self.entries.len() - i,
        {
            if self.entries[i].0 == c {
                return Some(i);
            }
            i = i + 1;
        }
        None
    }

    /// The count stored for `c`, if any.
    pub fn get(&self, c: char) -> (r: Option<u32>)
        ensures
            r == self.get_spec(c),
    {
        proof {
            use_type_invariant(self);
        }
        match self.position(c) {
            Some(i) => {
                proof {
                    lemma_lookup_at(self.entries@, i as int);
                }
                Some(self.entries[i].1)
            },
            None => {
                proof {
                    lemma_lookup_absent(self.entries@, c);
                }
                None
            },
        }
    }

    /// The count for `c`, zero when none is stored.
    pub fn count_of(&self, c: char) -> (r: u32)
        ensures
            r == self.count(c),
    {
        match self.get(c) {
            Some(n) => n,
            None => 0,
        }
    }

    /// Stores `n` as the count of `c`; a new key goes at the end.
    pub fn set(&mut self, c: char, n: u32)
        ensures
            forall|d: char| #[trigger]
                final(self).get_spec(d) == if d == c {
                    Some(n)
                } else {
                    old(self).get_spec(d)
                },
            old(self).get_spec(c) is Some ==> final(self).entry_seq().len() == old(
                self,
            ).entry_seq().len(),
            old(self).get_spec(c) is Some ==> forall|i: int|
                0 <= i < old(self).entry_seq().len() ==> (#[trigger] final(self).entry_seq()[i]).0
                    == old(self).entry_seq()[i].0,
            old(self).get_spec(c) is None ==> final(self).entry_seq() == old(
                self,
            ).entry_seq().push((c, n)),
            final(self).total() == old(self).total() - old(self).count(c) + n,
    {
        proof {
            use_type_invariant(&*self);
        }
        let ghost before = self.entries@;
        match self.position(c) {
            Some(i) => {
                proof {
                    lemma_lookup_at(before, i as int);
                }
                let mut entries: Vec<(char, u32)> = Vec::new();
                std::mem::swap(&mut entries, &mut self.entries);
                entries.set(i, (c, n));
                proof {
                    lemma_total_update(before, i as int, (c, n));
                    assert(entries@ =~= before.update(i as int, (c, n)));
                    assert(distinct_keys(entries@));
                    assert forall|d: char| #[trigger]
                        lookup(entries@, d) == if d == c {
                            Some(n)
                        } else {
                            lookup(before, d)
                        } by {
                        if d == c {
                            lemma_lookup_at(entries@, i as int);
                        } else if lookup(before, d) is Some {
                            lemma_lookup_found(before, d);
                            let k = choose|k: int| 0 <= k < before.len() && #[trigger] before[k].0 == d;
                            lemma_lookup_at(before, k);
                            lemma_lookup_at(entries@, k);
                        } else {
                            if lookup(entries@, d) is Some {
                                lemma_lookup_found(entries@, d);
                                let k = choose|k: int|
                                    0 <= k < entries@.len() && #[trigger] entries@[k].0 == d;
                                lemma_lookup_at(before, k);
                            }
                        }
                    }
                }
                self.entries = entries;
            },
            None => {
                proof {
                    lemma_lookup_absent(before, c);
                }
                let mut entries: Vec<(char, u32)> = Vec::new();
                std::mem::swap(&mut entries, &mut self.entries);
                entries.push((c, n));
                proof {
                    assert(entries@.drop_last() =~= before);
                    assert(entries_total(entries@) == entries_total(before) + n);
                    assert(distinct_keys(entries@));
                }
                self.entries = entries;
            },
        }
    }
}

impl View for LetterCounts {
    type V = Map<char, u32>;

    /// The stored counts, by key.
    open spec fn view(&self) -> Map<char, u32> {
        Map::new(|c: char| self.get_spec(c) is Some, |c: char| self.count(c))
    }
}

impl LetterCounts {
    /// Stores `n` as the count of `c`.
    pub fn insert(&mut self, c: char, n: u32)
        ensures
            final(self)@ == old(self)@.insert(c, n),
    {
        self.set(c, n);
        proof {
            assert(final(self)@ =~= old(self)@.insert(c, n));
        }
    }
}

impl Clone for LetterCounts {
    fn clone(&self) -> (r: LetterCounts)
        ensures
            r.entry_seq() == self.entry_seq(),
    {
        proof {
            use_type_invariant(self);
        }
        let mut entries: Vec<(char, u32)> = Vec::new();
        let mut i: usize = 0;
        while i < self.entries.len()
            invariant
                i <= self.entries@.len(),
                entries@ == self.entries@.subrange(0, i as int),
            decreases self.entries.len() - i,
        {
            entries.push(self.entries[i]);
            i = i + 1;
            proof {
                assert(entries@ =~= self.entries@.subrange(0, i as int));
            }
        }
        proof {
            assert(entries@ =~= self.entries@);
        }
        LetterCounts { entries }
    }
}


impl LetterCounts {
    /// Every count stored here is stored the same in `other`.
    fn covered_by(&self, other: &LetterCounts) -> (r: bool)
        ensures
            r == forall|c: char| #[trigger]
                self.get_spec(c) is Some ==> other.get_spec(c) == self.get_spec(c),
    {
        proof {
            use_type_invariant(self);
        }
        let mut i: usize = 0;
        while i < self.entries.len()
            invariant
                i <= self.entries@.len(),
                distinct_keys(self.entries@),
                forall|k: int|
                    0 <= k < i ==> other.get_spec(#[trigger] self.entries@[k].0) == Some(
                        self.entries@[k].1,
                    ),
            decreases self.entries.len() - i,
        {
            let (c, n) = self.entries[i];
            if other.get(c) != Some(n) {
                proof {
                    lemma_lookup_at(self.entries@, i as int);
                    assert(self.get_spec(c) is Some);
                }
                return false;
            }
            i = i + 1;
        }
        proof {
            assert forall|c: char| #[trigger] self.get_spec(c) is Some implies other.get_spec(c)
                == self.get_spec(c) by {
                lemma_lookup_found(self.entries@, c);
                let k = choose|k: int| 0 <= k < self.entries@.len() && #[trigger] self.entries@[k].0 == c;
                lemma_lookup_at(self.entries@, k);
            }
        }
        true
    }
}

impl PartialEq for LetterCounts {
    fn eq(&self, other: &LetterCounts) -> (r: bool) {
        let r = self.covered_by(other) && other.covered_by(self);
        proof {
            if r {
                assert forall|c: char| #[trigger] self.get_spec(c) == other.get_spec(c) by {
                    if self.get_spec(c) is None && other.get_spec(c) is Some {
                        assert(false);
                    }
                }
                assert(self@ =~= other@);
            } else if self@ == other@ {
                assert forall|c: char| #[trigger] self.get_spec(c) is Some implies other.get_spec(c)
                    == self.get_spec(c) by {
                    assert(self@.contains_key(c));
                    assert(other@.contains_key(c));
                    assert(self@[c] == other@[c]);
                    assert(self@[c] == self.count(c));
                    assert(other@[c] == other.count(c));
                }
                assert forall|c: char| #[trigger] other.get_spec(c) is Some implies self.get_spec(c)
                    == other.get_spec(c) by {
                    assert(other@.contains_key(c));
                    assert(self@.contains_key(c));
                    assert(self@[c] == other@[c]);
                    assert(self@[c] == self.count(c));
                    assert(other@[c] == other.count(c));
                }
            }
        }
        r
    }
}

impl vstd::std_specs::cmp::PartialEqSpecImpl for LetterCounts {
    open spec fn obeys_eq_spec() -> bool {
        true
    }

    /// Equal counts, whatever the order of the entries.
    open spec fn eq_spec(&self, other: &LetterCounts) -> bool {
        self@ == other@
    }
}

} // verus!
