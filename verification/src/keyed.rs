//! Values keyed by 32-byte account addresses, each address at most once:
//! the map from an account to what was last recorded for it.
use crate::pubkey::same_key;
use vstd::prelude::*;

verus! {

/// No address occurs twice among the entries.
pub open spec fn unique_keys<V>(s: Seq<([u8; 32], V)>) -> bool {
    forall|i: int, j: int| 0 <= i < j < s.len() ==> (#[trigger] s[i]).0@ != (#[trigger] s[j]).0@
}

/// Whether some entry has address `k`.
pub open spec fn has_key<V>(s: Seq<([u8; 32], V)>, k: Seq<u8>) -> bool {
    exists|i: int| 0 <= i < s.len() && (#[trigger] s[i]).0@ == k
}

/// Position of the entry with address `k`, if there is one.
pub open spec fn index_of_key<V>(s: Seq<([u8; 32], V)>, k: Seq<u8>) -> Option<int> {
    if has_key(s, k) {
        Some(choose|i: int| 0 <= i < s.len() && (#[trigger] s[i]).0@ == k)
    } else {
        None
    }
}

/// The map from each address to its value; a later entry wins.
pub open spec fn as_map<V>(s: Seq<([u8; 32], V)>) -> Map<Seq<u8>, V>
    decreases s.len(),
{
    if s.len() == 0 {
        Map::empty()
    } else {
        as_map(s.drop_last()).insert(s.last().0@, s.last().1)
    }
}

/// The entries after recording `v` for `k`: the entry of `k` replaced in
/// place, or a new last entry.
pub open spec fn upsert<V>(s: Seq<([u8; 32], V)>, k: [u8; 32], v: V) -> Seq<([u8; 32], V)> {
    match index_of_key(s, k@) {
        Some(i) => s.update(i, (k, v)),
        None => s.push((k, v)),
    }
}

/// The map of a sequence holds exactly its addresses.
pub proof fn lemma_as_map_dom<V>(s: Seq<([u8; 32], V)>, k: Seq<u8>)
    ensures
        as_map(s).dom().contains(k) <==> has_key(s, k),
    decreases s.len(),
{
    if s.len() > 0 {
        lemma_as_map_dom(s.drop_last(), k);
        if has_key(s, k) && s.last().0@ != k {
            let i = choose|i: int| 0 <= i < s.len() && (#[trigger] s[i]).0@ == k;
            assert(s.drop_last()[i] == s[i]);
        }
        if has_key(s.drop_last(), k) {
            let i = choose|i: int| 0 <= i < s.len() - 1 && (#[trigger] s.drop_last()[i]).0@ == k;
            assert(s[i] == s.drop_last()[i]);
        }
    }
}

/// With unique addresses, the map gives each entry's value for its address.
pub proof fn lemma_as_map_index<V>(s: Seq<([u8; 32], V)>, i: int)
    requires
        unique_keys(s),
        0 <= i < s.len(),
    ensures
        as_map(s).dom().contains(s[i].0@),
        as_map(s)[s[i].0@] == s[i].1,
    decreases s.len(),
{
    if i < s.len() - 1 {
        lemma_as_map_index(s.drop_last(), i);
        assert(s.drop_last()[i] == s[i]);
    }
}

/// With unique addresses, the map holds as many addresses as there are
/// entries.
pub proof fn lemma_as_map_len<V>(s: Seq<([u8; 32], V)>)
    requires
        unique_keys(s),
    ensures
        as_map(s).dom().finite(),
        as_map(s).dom().len() == s.len(),
    decreases s.len(),
{
    if s.len() > 0 {
        let t = s.drop_last();
        assert(unique_keys(t)) by {
            assert forall|i: int, j: int| 0 <= i < j < t.len() implies (#[trigger] t[i]).0@
                != (#[trigger] t[j]).0@ by {
                assert(t[i] == s[i] && t[j] == s[j]);
            }
        }
        lemma_as_map_len(t);
        lemma_as_map_dom(t, s.last().0@);
        if has_key(t, s.last().0@) {
            let i = choose|i: int| 0 <= i < t.len() && (#[trigger] t[i]).0@ == s.last().0@;
            assert(s[i] == t[i]);
            assert(s[i].0@ != s[s.len() - 1].0@);
        }
    }
}

/// Replacing the value of an existing address updates the map at it.
pub proof fn lemma_as_map_update<V>(s: Seq<([u8; 32], V)>, i: int, k: [u8; 32], v: V)
    requires
        unique_keys(s),
        0 <= i < s.len(),
        s[i].0@ == k@,
    ensures
        as_map(s.update(i, (k, v))) == as_map(s).insert(k@, v),
    decreases s.len(),
{
    let t = s.update(i, (k, v));
    if i == s.len() - 1 {
        assert(t.drop_last() =~= s.drop_last());
        assert(as_map(t) =~= as_map(s).insert(k@, v));
    } else {
        assert(t.drop_last() =~= s.drop_last().update(i, (k, v)));
        lemma_as_map_update(s.drop_last(), i, k, v);
        assert(s.last().0@ != k@);
        assert(as_map(t) =~= as_map(s).insert(k@, v));
    }
}

/// A read after a write gives back what was written: once `v` is recorded
/// for `k` (as [`KeyedList::insert`] does), `k` maps to `v`, and every other
/// address maps to what it mapped to before.
pub proof fn lemma_get_after_insert<V>(
    before: Map<Seq<u8>, V>,
    after: Map<Seq<u8>, V>,
    k: Seq<u8>,
    v: V,
    other: Seq<u8>,
)
    requires
        after == before.insert(k, v),
    ensures
        after.dom().contains(k),
        after[k] == v,
        other != k ==> (after.dom().contains(other) <==> before.dom().contains(other)),
        other != k && before.dom().contains(other) ==> after[other] == before[other],
{
}

/// Entries keyed by account address, each address at most once.
pub struct KeyedList<V> {
    entries: Vec<([u8; 32], V)>,
}

impl<V> KeyedList<V> {
    /// The entries in the order in which their addresses were first recorded.
    pub closed spec fn entries_seq(&self) -> Seq<([u8; 32], V)> {
        self.entries@
    }

    #[verifier::type_invariant]
    closed spec fn keys_are_unique(&self) -> bool {
        unique_keys(self.entries@)
    }

    /// The map from each address to its value.
    pub open spec fn map_view(&self) -> Map<Seq<u8>, V> {
        as_map(self.entries_seq())
    }

    /// An empty list.
    pub fn new() -> (r: Self)
        ensures
            r.entries_seq() == Seq::<([u8; 32], V)>::empty(),
    {
        KeyedList { entries: Vec::new() }
    }

    /// Number of distinct addresses.
    pub fn len(&self) -> (r: usize)
        ensures
            r == self.entries_seq().len(),
            unique_keys(self.entries_seq()),
    {
        proof {
            use_type_invariant(self);
        }
        self.entries.len()
    }

    /// The entry at position `i`.
    pub fn entry(&self, i: usize) -> (r: &([u8; 32], V))
        requires
            i < self.entries_seq().len(),
        ensures
            *r == self.entries_seq()[i as int],
    {
        &self.entries[i]
    }

    /// Position of the entry with address `key`.
    pub fn find(&self, key: &[u8; 32]) -> (r: Option<usize>)
        ensures
            r == (match index_of_key(self.entries_seq(), key@) {
                Some(i) => Some(i as usize),
                None => None::<usize>,
            }),
            r matches Some(i) ==> i < self.entries_seq().len() && self.entries_seq()[i as int].0@
                == key@,
            unique_keys(self.entries_seq()),
    {
        proof {
            use_type_invariant(self);
        }
        let mut i: usize = 0;
        while i < self.entries.len()
            invariant
                i <= self.entries@.len(),
                unique_keys(self.entries@),
                forall|j: int| 0 <= j < i ==> (#[trigger] self.entries@[j]).0@ != key@,
            decreases self.entries@.len() - i,
        {
            if same_key(&self.entries[i].0, key) {
                let ghost s = self.entries@;
                assert(has_key(s, key@));
                let ghost c = choose|j: int| 0 <= j < s.len() && (#[trigger] s[j]).0@ == key@;
                assert(c == i as int) by {
                    if c < i {
                    } else if c > i {
                        assert(s[i as int].0@ != s[c].0@);
                    }
                }
                return Some(i);
            }
            i = i + 1;
        }
        None
    }

    /// The value recorded for `key`.
    pub fn get(&self, key: &[u8; 32]) -> (r: Option<&V>)
        ensures
            r is Some <==> self.map_view().dom().contains(key@),
            r matches Some(v) ==> *v == self.map_view()[key@],
    {
        proof {
            use_type_invariant(self);
            lemma_as_map_dom(self.entries@, key@);
        }
        match self.find(key) {
            Some(i) => {
                proof {
                    lemma_as_map_index(self.entries@, i as int);
                }
                Some(&self.entries[i].1)
            },
            None => None,
        }
    }

    /// Records `value` for `key`, replacing what was recorded for it before.
    pub fn insert(&mut self, key: [u8; 32], value: V)
        ensures
            final(self).entries_seq() == upsert(old(self).entries_seq(), key, value),
            final(self).map_view() == old(self).map_view().insert(key@, value),
            unique_keys(final(self).entries_seq()),
    {
        proof {
            use_type_invariant(&*self);
        }
        let ghost s = self.entries@;
        let found = self.find(&key);
        let mut entries: Vec<([u8; 32], V)> = Vec::new();
        std::mem::swap(&mut entries, &mut self.entries);
        match found {
            Some(i) => {
                proof {
                    assert(unique_keys(s.update(i as int, (key, value)))) by {
                        let t = s.update(i as int, (key, value));
                        assert forall|a: int, b: int| 0 <= a < b < t.len() implies (#[trigger] t[a]).0@
                            != (#[trigger] t[b]).0@ by {
                            assert(s[a].0@ != s[b].0@);
                        }
                    }
                    lemma_as_map_update(s, i as int, key, value);
                }
                entries.set(i, (key, value));
            },
            None => {
                proof {
                    assert(!has_key(s, key@));
                    assert(unique_keys(s.push((key, value)))) by {
                        let t = s.push((key, value));
                        assert forall|a: int, b: int| 0 <= a < b < t.len() implies (#[trigger] t[a]).0@
                            != (#[trigger] t[b]).0@ by {
                            if b == s.len() {
                                assert(t[a] == s[a]);
                            } else {
                                assert(s[a].0@ != s[b].0@);
                            }
                        }
                    }
                    assert(s.push((key, value)).drop_last() =~= s);
                }
                entries.push((key, value));
            },
        }
        self.entries = entries;
    }
}

} // verus!
