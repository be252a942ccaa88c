//! The inherent data bag.
//!
//! A block must embed a small set of environment-derived facts ("inherent
//! data"): a timestamp, the primary chain's validation context, and the
//! like.  Each fact is filed under an item key and carried as an opaque
//! encoded value.  Keys are unique; their order is irrelevant.  The bag is
//! built once per attempt by merging one or more provider outputs.

use vstd::prelude::*;

verus! {

/// One keyed, opaque, encoded fact.
pub struct InherentEntry {
    /// The item key the fact is filed under.
    pub key: u64,
    /// The encoded fact itself.
    pub value: Vec<u8>,
}

/// Rejected ways of growing an [`InherentDataBag`].
#[derive(PartialEq, Eq, Structural, Clone, Copy, Debug)]
pub enum InherentError {
    /// The key is already present in the bag.
    DuplicateKey,
}

/// A mapping from item key to opaque encoded value.  Keys are unique.
pub struct InherentDataBag {
    entries: Vec<InherentEntry>,
}

/// The mapping a sequence of entries stands for; a later entry would win
/// over an earlier one with the same key, but a well-formed bag never holds
/// two entries with one key.
pub open spec fn entries_map(s: Seq<InherentEntry>) -> Map<u64, Seq<u8>>
    decreases s.len(),
{
    if s.len() == 0 {
        Map::empty()
    } else {
        entries_map(s.drop_last()).insert(s.last().key, s.last().value@)
    }
}

/// Whether some entry of `s` carries the key `key`.
pub open spec fn entries_have_key(s: Seq<InherentEntry>, key: u64) -> bool {
    exists|i: int| 0 <= i < s.len() && s[i].key == key
}

/// Whether no two entries of `s` share a key.
pub open spec fn entries_unique(s: Seq<InherentEntry>) -> bool {
    forall|i: int, j: int| 0 <= i < j < s.len() ==> s[i].key != s[j].key
}

/// A key is in the mapping exactly when some entry carries it.
pub proof fn lemma_entries_map_dom(s: Seq<InherentEntry>)
    ensures
        forall|key: u64| #[trigger]
            entries_map(s).dom().contains(key) <==> entries_have_key(s, key),
    decreases s.len(),
{
    if s.len() > 0 {
        lemma_entries_map_dom(s.drop_last());
        assert forall|key: u64| #[trigger]
            entries_map(s).dom().contains(key) implies entries_have_key(s, key) by {
            if key == s.last().key {
                assert(s[s.len() - 1].key == key);
            } else {
                assert(entries_map(s.drop_last()).dom().contains(key));
                assert(entries_have_key(s.drop_last(), key));
                let i = choose|i: int| 0 <= i < s.drop_last().len() && s.drop_last()[i].key == key;
                assert(s.drop_last()[i] == s[i]);
                assert(s[i].key == key);
            }
        }
        assert forall|key: u64| entries_have_key(s, key) implies #[trigger]
            entries_map(s).dom().contains(key) by {
            let i = choose|i: int| 0 <= i < s.len() && s[i].key == key;
            if i < s.len() - 1 {
                assert(s.drop_last()[i].key == key);
                assert(entries_have_key(s.drop_last(), key));
                assert(entries_map(s.drop_last()).dom().contains(key));
            }
        }
    }
}

/// An entry not followed by another with the same key gives the mapping its
/// value at that key.
pub proof fn lemma_entries_map_at(s: Seq<InherentEntry>, i: int)
    requires
        0 <= i < s.len(),
        forall|j: int| i < j < s.len() ==> s[j].key != s[i].key,
    ensures
        entries_map(s).dom().contains(s[i].key),
        entries_map(s)[s[i].key] == s[i].value@,
    decreases s.len(),
{
    if i < s.len() - 1 {
        assert(s.drop_last()[i] == s[i]);
        lemma_entries_map_at(s.drop_last(), i);
    }
}

impl View for InherentDataBag {
    type V = Map<u64, Seq<u8>>;

    /// The bag is the mapping its entries stand for.
    closed spec fn view(&self) -> Map<u64, Seq<u8>> {
        entries_map(self.entries@)
    }
}

impl InherentDataBag {
    /// Well-formedness: no two entries share a key.
    pub closed spec fn wf(&self) -> bool {
        entries_unique(self.entries@)
    }

    /// Creates an empty bag.
    pub fn new() -> (bag: InherentDataBag)
        ensures
            bag.wf(),
            bag@ == Map::<u64, Seq<u8>>::empty(),
    {
        InherentDataBag { entries: Vec::new() }
    }

    /// The number of facts in the bag.
    pub fn len(&self) -> (n: usize)
        requires
            self.wf(),
        ensures
            n == self@.dom().len(),
    {
        proof {
            lemma_entries_unique_len(self.entries@);
        }
        self.entries.len()
    }

    /// Whether a fact is filed under `key`.
    pub fn contains_key(&self, key: u64) -> (present: bool)
        ensures
            present == self@.dom().contains(key),
    {
        proof {
            lemma_entries_map_dom(self.entries@);
        }
        let n: usize = self.entries.len();
        let mut i: usize = 0;
        while i < n
            invariant
                n == self.entries.len(),
                0 <= i <= n,
                forall|j: int| 0 <= j < i ==> self.entries@[j].key != key,
            decreases n - i,
        {
            if self.entries[i].key == key {
                proof {
                    lemma_entries_map_dom(self.entries@);
                    assert(self.entries@[i as int].key == key);
                    assert(entries_have_key(self.entries@, key));
                }
                return true;
            }
            i = i + 1;
        }
        false
    }

    /// The fact filed under `key`, if any.
    pub fn get(&self, key: u64) -> (value: Option<&Vec<u8>>)
        requires
            self.wf(),
        ensures
            match value {
                Some(v) => self@.dom().contains(key) && v@ == self@[key],
                None => !self@.dom().contains(key),
            },
    {
        proof {
            lemma_entries_map_dom(self.entries@);
        }
        let n: usize = self.entries.len();
        let mut i: usize = 0;
        while i < n
            invariant
                n == self.entries.len(),
                0 <= i <= n,
                self.wf(),
                forall|j: int| 0 <= j < i ==> self.entries@[j].key != key,
            decreases n - i,
        {
            if self.entries[i].key == key {
                proof {
                    lemma_entries_map_at(self.entries@, i as int);
                }
                return Some(&self.entries[i].value);
            }
            i = i + 1;
        }
        None
    }

    /// Files `value` under `key`.  Fails, leaving the bag unchanged, when the
    /// key is already taken: keys are unique and a fact is never overwritten.
    pub fn insert(&mut self, key: u64, value: Vec<u8>) -> (result: Result<(), InherentError>)
        requires
            old(self).wf(),
        ensures
            final(self).wf(),
            match result {
                Ok(()) => !old(self)@.dom().contains(key) && final(self)@ == old(self)@.insert(
                    key,
                    value@,
                ),
                Err(InherentError::DuplicateKey) => old(self)@.dom().contains(key) && final(self)@
                    == old(self)@,
            },
    {
        if self.contains_key(key) {
            return Err(InherentError::DuplicateKey);
        }
        proof {
            lemma_entries_map_dom(self.entries@);
        }
        let ghost before = self.entries@;
        self.entries.push(InherentEntry { key, value });
        proof {
            assert(self.entries@.drop_last() =~= before);
        }
        Ok(())
    }

    /// Moves every fact of `other` into this bag.  Fails, leaving this bag
    /// unchanged, when the two bags share a key; otherwise the result holds
    /// the facts of both.
    pub fn merge(&mut self, other: InherentDataBag) -> (result: Result<(), InherentError>)
        requires
            old(self).wf(),
            other.wf(),
        ensures
            final(self).wf(),
            match result {
                Ok(()) => old(self)@.dom().disjoint(other@.dom()) && final(self)@ == old(
                    self,
                )@.union_prefer_right(other@),
                Err(InherentError::DuplicateKey) => !old(self)@.dom().disjoint(other@.dom())
                    && final(self)@ == old(self)@,
            },
    {
        proof {
            lemma_entries_map_dom(self.entries@);
            lemma_entries_map_dom(other.entries@);
        }
        let n: usize = other.entries.len();
        let mut i: usize = 0;
        while i < n
            invariant
                n == other.entries.len(),
                0 <= i <= n,
                self.wf(),
                other.wf(),
                forall|j: int| 0 <= j < i ==> !self@.dom().contains(
                    #[trigger] other.entries@[j].key,
                ),
            decreases n - i,
        {
            if self.contains_key(other.entries[i].key) {
                proof {
                    lemma_entries_map_dom(other.entries@);
                    assert(other.entries@[i as int].key == other.entries@[i as int].key);
                    assert(entries_have_key(other.entries@, other.entries@[i as int].key));
                    assert(!self@.dom().disjoint(other@.dom()));
                }
                return Err(InherentError::DuplicateKey);
            }
            i = i + 1;
        }
        proof {
            assert forall|key: u64| other@.dom().contains(key) implies !self@.dom().contains(
                key,
            ) by {
                lemma_entries_map_dom(other.entries@);
                let j = choose|j: int|
                    0 <= j < other.entries@.len() && other.entries@[j].key == key;
                assert(!self@.dom().contains(other.entries@[j].key));
            }
            assert(self@.dom().disjoint(other@.dom()));
        }
        let ghost self_before = self@;
        let ghost other_entries = other.entries@;
        let mut incoming = other.entries;
        let m: usize = incoming.len();
        let mut k: usize = 0;
        // Consume the incoming entries front to back, so that what remains is
        // always the suffix not yet filed.
        while k < m
            invariant
                m == other_entries.len(),
                0 <= k <= m,
                incoming@ == other_entries.skip(k as int),
                self.wf(),
                entries_unique(other_entries),
                self@ == self_before.union_prefer_right(entries_map(other_entries.take(k as int))),
                forall|j: int| 0 <= j < m ==> !self_before.dom().contains(
                    #[trigger] other_entries[j].key,
                ),
            decreases m - k,
        {
            let entry = incoming.remove(0);
            proof {
                assert(entry == other_entries[k as int]);
                assert(incoming@ =~= other_entries.skip(k + 1));
                lemma_entries_map_dom(other_entries.take(k as int));
                assert forall|j: int| 0 <= j < k implies other_entries.take(k as int)[j].key
                    != entry.key by {
                    assert(other_entries[j].key != other_entries[k as int].key);
                }
                assert(!entries_have_key(other_entries.take(k as int), entry.key));
                assert(!self@.dom().contains(entry.key));
            }
            let ghost map_so_far = entries_map(other_entries.take(k as int));
            let inserted = self.insert(entry.key, entry.value);
            proof {
                assert(inserted is Ok);
                assert(other_entries.take(k + 1).drop_last() =~= other_entries.take(k as int));
                assert(entries_map(other_entries.take(k + 1)) == map_so_far.insert(
                    other_entries[k as int].key,
                    other_entries[k as int].value@,
                ));
                assert(self@ =~= self_before.union_prefer_right(
                    entries_map(other_entries.take(k + 1)),
                ));
            }
            k = k + 1;
        }
        proof {
            assert(other_entries.take(m as int) =~= other_entries);
        }
        Ok(())
    }
}

/// With unique keys, the mapping has exactly one key per entry.
pub proof fn lemma_entries_unique_len(s: Seq<InherentEntry>)
    requires
        entries_unique(s),
    ensures
        entries_map(s).dom().len() == s.len(),
        entries_map(s).dom().finite(),
    decreases s.len(),
{
    if s.len() > 0 {
        lemma_entries_unique_len(s.drop_last());
        lemma_entries_map_dom(s.drop_last());
        assert(!entries_have_key(s.drop_last(), s.last().key));
    }
}

} // verus!
