//! The set of pending edits, keyed by `(category, key)`.

use vstd::prelude::*;

verus! {

/// One pending edit: the new value of `key` in `category`, already written as
/// it must appear in the configuration text.
pub struct PendingChange {
    pub category: String,
    pub key: String,
    pub value: String,
}

/// The identity of a pending edit.
pub open spec fn change_key(c: PendingChange) -> (Seq<char>, Seq<char>) {
    (c.category@, c.key@)
}

/// No two entries of `s` address the same `(category, key)`.
pub open spec fn keys_unique(s: Seq<PendingChange>) -> bool {
    forall|i: int, j: int|
        0 <= i < j < s.len() ==> change_key(#[trigger] s[i]) != change_key(#[trigger] s[j])
}

/// The mapping that a sequence of entries stands for; a later entry wins.
pub open spec fn changes_map(s: Seq<PendingChange>) -> Map<(Seq<char>, Seq<char>), Seq<char>>
    decreases s.len(),
{
    if s.len() == 0 {
        Map::empty()
    } else {
        changes_map(s.drop_last()).insert(change_key(s.last()), s.last().value@)
    }
}

/// Every entry of a sequence with unique keys is found in its mapping, and
/// the mapping holds nothing else.
pub proof fn lemma_changes_map_entries(s: Seq<PendingChange>)
    requires
        keys_unique(s),
    ensures
        forall|i: int|
            0 <= i < s.len() ==> #[trigger] changes_map(s).contains_key(change_key(s[i]))
                && changes_map(s)[change_key(s[i])] == s[i].value@,
        forall|k: (Seq<char>, Seq<char>)|
            #[trigger] changes_map(s).contains_key(k) ==> exists|i: int|
                0 <= i < s.len() && change_key(s[i]) == k,
        changes_map(s).dom().len() == s.len(),
        changes_map(s).dom().finite(),
    decreases s.len(),
{
    if s.len() > 0 {
        let p = s.drop_last();
        assert(keys_unique(p)) by {
            assert forall|i: int, j: int| 0 <= i < j < p.len() implies change_key(p[i])
                != change_key(p[j]) by {
                assert(p[i] == s[i] && p[j] == s[j]);
            }
        }
        lemma_changes_map_entries(p);
        let k = change_key(s.last());
        assert(!changes_map(p).contains_key(k)) by {
            if changes_map(p).contains_key(k) {
                let i = choose|i: int| 0 <= i < p.len() && change_key(p[i]) == k;
                assert(s[i] == p[i]);
                assert(change_key(s[i]) != change_key(s[s.len() - 1]));
            }
        }
        assert forall|i: int| 0 <= i < s.len() implies #[trigger] changes_map(s).contains_key(
            change_key(s[i]),
        ) && changes_map(s)[change_key(s[i])] == s[i].value@ by {
            if i < s.len() - 1 {
                assert(s[i] == p[i]);
            }
        }
        assert forall|k2: (Seq<char>, Seq<char>)| #[trigger]
            changes_map(s).contains_key(k2) implies exists|i: int|
            0 <= i < s.len() && change_key(s[i]) == k2 by {
            if k2 != k {
                let i = choose|i: int| 0 <= i < p.len() && change_key(p[i]) == k2;
                assert(s[i] == p[i]);
            } else {
                assert(change_key(s[s.len() - 1]) == k2);
            }
        }
    }
}

/// Overwriting an entry in place is the same as inserting its new value.
pub proof fn lemma_changes_map_update(s: Seq<PendingChange>, i: int, c: PendingChange)
    requires
        keys_unique(s),
        0 <= i < s.len(),
        change_key(c) == change_key(s[i]),
    ensures
        changes_map(s.update(i, c)) == changes_map(s).insert(change_key(c), c.value@),
        keys_unique(s.update(i, c)),
    decreases s.len(),
{
    let t = s.update(i, c);
    assert(keys_unique(t)) by {
        assert forall|a: int, b: int| 0 <= a < b < t.len() implies change_key(t[a])
            != change_key(t[b]) by {
            assert(change_key(t[a]) == change_key(s[a]));
            assert(change_key(t[b]) == change_key(s[b]));
        }
    }
    let p = s.drop_last();
    if i == s.len() - 1 {
        assert(t.drop_last() == p);
        assert(changes_map(t) =~= changes_map(s).insert(change_key(c), c.value@));
    } else {
        assert(keys_unique(p)) by {
            assert forall|a: int, b: int| 0 <= a < b < p.len() implies change_key(p[a])
                != change_key(p[b]) by {
                assert(p[a] == s[a] && p[b] == s[b]);
            }
        }
        lemma_changes_map_update(p, i, c);
        assert(t.drop_last() == p.update(i, c));
        assert(t.last() == s.last());
        assert(change_key(s[i]) != change_key(s[s.len() - 1]));
        assert(changes_map(t) =~= changes_map(s).insert(change_key(c), c.value@));
    }
}

/// The mapping after recording each of `vs`, in order, as the value of `k`.
pub open spec fn record_all(
    m: Map<(Seq<char>, Seq<char>), Seq<char>>,
    k: (Seq<char>, Seq<char>),
    vs: Seq<Seq<char>>,
) -> Map<(Seq<char>, Seq<char>), Seq<char>>
    decreases vs.len(),
{
    if vs.len() == 0 {
        m
    } else {
        record_all(m, k, vs.drop_last()).insert(k, vs.last())
    }
}

/// However many values are recorded for one key, only the last one stays,
/// and every other key keeps what it had.
pub proof fn lemma_last_record_wins(
    m: Map<(Seq<char>, Seq<char>), Seq<char>>,
    k: (Seq<char>, Seq<char>),
    vs: Seq<Seq<char>>,
)
    requires
        vs.len() > 0,
    ensures
        record_all(m, k, vs) == m.insert(k, vs.last()),
    decreases vs.len(),
{
    if vs.len() > 1 {
        lemma_last_record_wins(m, k, vs.drop_last());
        assert(record_all(m, k, vs) == record_all(m, k, vs.drop_last()).insert(k, vs.last()));
        assert(record_all(m, k, vs) =~= m.insert(k, vs.last()));
    } else {
        assert(vs.drop_last().len() == 0);
        assert(record_all(m, k, vs.drop_last()) == m);
        assert(record_all(m, k, vs) == record_all(m, k, vs.drop_last()).insert(k, vs.last()));
    }
}

/// Pending edits, at most one per `(category, key)`.
pub struct ChangeSet {
    entries: Vec<PendingChange>,
}

impl View for ChangeSet {
    type V = Map<(Seq<char>, Seq<char>), Seq<char>>;

    closed spec fn view(&self) -> Self::V {
        changes_map(self.entries@)
    }
}

impl ChangeSet {
    /// The entries hold one value per key.
    pub closed spec fn wf(&self) -> bool {
        keys_unique(self.entries@)
    }

    /// The entries, in the order in which their keys were first recorded.
    pub closed spec fn entries_seq(&self) -> Seq<PendingChange> {
        self.entries@
    }

    /// The mapping is the one that the entries stand for, one per key.
    pub proof fn lemma_entries(&self)
        requires
            self.wf(),
        ensures
            keys_unique(self.entries_seq()),
            self@ == changes_map(self.entries_seq()),
    {
    }

    /// An empty change set.
    pub fn new() -> (r: ChangeSet)
        ensures
            r.wf(),
            r@ == Map::<(Seq<char>, Seq<char>), Seq<char>>::empty(),
    {
        ChangeSet { entries: Vec::new() }
    }

    /// Records `value` as the pending value of `key` in `category`, replacing
    /// any earlier value of that key.
    pub fn record(&mut self, category: &str, key: &str, value: &str)
        requires
            old(self).wf(),
        ensures
            final(self).wf(),
            final(self)@ == old(self)@.insert((category@, key@), value@),
    {
        let c = PendingChange {
            category: String::from_str(category),
            key: String::from_str(key),
            value: String::from_str(value),
        };
        let mut i: usize = 0;
        while i < self.entries.len()
            invariant
                self.wf(),
                self.entries@ == old(self).entries@,
                0 <= i <= self.entries.len(),
                forall|j: int| 0 <= j < i ==> change_key(#[trigger] self.entries@[j]) != change_key(c),
                change_key(c) == (category@, key@),
                c.value@ == value@,
            decreases self.entries.len() - i,
        {
            if self.entries[i].category == c.category && self.entries[i].key == c.key {
                proof {
                    lemma_changes_map_update(self.entries@, i as int, c);
                }
                self.entries.set(i, c);
                return;
            }
            i = i + 1;
        }
        let ghost before = self.entries@;
        self.entries.push(c);
        proof {
            assert(self.entries@.drop_last() == before);
            assert(keys_unique(self.entries@)) by {
                assert forall|a: int, b: int| 0 <= a < b < self.entries@.len() implies change_key(
                    self.entries@[a],
                ) != change_key(self.entries@[b]) by {
                    if b == before.len() {
                        assert(self.entries@[a] == before[a]);
                    } else {
                        assert(self.entries@[a] == before[a] && self.entries@[b] == before[b]);
                    }
                }
            }
        }
    }

    /// Whether no edit is pending.
    pub fn is_empty(&self) -> (r: bool)
        requires
            self.wf(),
        ensures
            r == (self@.dom().len() == 0),
    {
        proof {
            lemma_changes_map_entries(self.entries@);
        }
        self.entries.len() == 0
    }

    /// The number of pending edits.
    pub fn len(&self) -> (r: usize)
        requires
            self.wf(),
        ensures
            r == self@.dom().len(),
    {
        proof {
            lemma_changes_map_entries(self.entries@);
        }
        self.entries.len()
    }

    /// Drops every pending edit.
    pub fn clear(&mut self)
        ensures
            final(self).wf(),
            final(self)@ == Map::<(Seq<char>, Seq<char>), Seq<char>>::empty(),
    {
        self.entries.clear();
    }

    /// The pending value of `key` in `category`, if there is one.
    pub fn get(&self, category: &str, key: &str) -> (r: Option<String>)
        requires
            self.wf(),
        ensures
            match r {
                Some(v) => self@.contains_key((category@, key@)) && v@ == self@[(category@, key@)],
                None => !self@.contains_key((category@, key@)),
            },
    {
        proof {
            lemma_changes_map_entries(self.entries@);
        }
        let cat = String::from_str(category);
        let k = String::from_str(key);
        let mut i: usize = 0;
        while i < self.entries.len()
            invariant
                self.wf(),
                0 <= i <= self.entries.len(),
                cat@ == category@,
                k@ == key@,
                forall|j: int|
                    0 <= j < i ==> change_key(#[trigger] self.entries@[j]) != (category@, key@),
            decreases self.entries.len() - i,
        {
            if self.entries[i].category == cat && self.entries[i].key == k {
                proof {
                    lemma_changes_map_entries(self.entries@);
                    assert(change_key(self.entries@[i as int]) == (category@, key@));
                }
                return Some(self.entries[i].value.clone());
            }
            i = i + 1;
        }
        None
    }

    /// Every pending edit once, in no particular order.
    pub fn snapshot(&self) -> (r: Vec<PendingChange>)
        requires
            self.wf(),
        ensures
            keys_unique(r@),
            changes_map(r@) == self@,
            r@ == self.entries_seq(),
    {
        let mut r: Vec<PendingChange> = Vec::new();
        let mut i: usize = 0;
        while i < self.entries.len()
            invariant
                0 <= i <= self.entries.len(),
                r@ == self.entries@.subrange(0, i as int),
            decreases self.entries.len() - i,
        {
            let e = &self.entries[i];
            r.push(
                PendingChange {
                    category: e.category.clone(),
                    key: e.key.clone(),
                    value: e.value.clone(),
                },
            );
            proof {
                assert(r@ == self.entries@.subrange(0, i + 1));
            }
            i = i + 1;
        }
        proof {
            assert(r@ == self.entries@);
        }
        r
    }
}

} // verus!
