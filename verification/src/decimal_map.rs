//! Ordered maps keyed by decimals, where keys are compared numerically (so
//! `1.5` and `1.50` are the same key), entries kept in ascending key order.

use vstd::prelude::*;

use crate::decimal::Decimal;

verus! {

/// The numeric key of an entry.
pub open spec fn entry_key<V>(e: (Decimal, V)) -> int {
    e.0@.value()
}

/// Keys strictly ascend along the sequence.
pub open spec fn is_ascending<V>(s: Seq<(Decimal, V)>) -> bool {
    forall|i: int, j: int| 0 <= i < j < s.len() ==> entry_key(s[i]) < entry_key(s[j])
}

/// Some entry of `s` has key `k`.
pub open spec fn has_key<V>(s: Seq<(Decimal, V)>, k: int) -> bool {
    exists|i: int| 0 <= i < s.len() && entry_key(#[trigger] s[i]) == k
}

/// The map from numeric keys to the entries holding them.
pub open spec fn entries_map<V>(s: Seq<(Decimal, V)>) -> Map<int, (Decimal, V)> {
    Map::new(
        |k: int| has_key(s, k),
        |k: int| s[choose|i: int| 0 <= i < s.len() && entry_key(#[trigger] s[i]) == k],
    )
}

/// The map that inserting the entries of `s` one after the other builds:
/// a later entry replaces an earlier one with the same key.
pub open spec fn collect_entries<V>(s: Seq<(Decimal, V)>) -> Map<int, (Decimal, V)>
    decreases s.len(),
{
    if s.len() == 0 {
        Map::empty()
    } else {
        collect_entries(s.drop_last()).insert(entry_key(s.last()), s.last())
    }
}

/// An ordered map keyed by decimals compared numerically.
#[derive(Debug)]
pub struct DecimalMap<V> {
    entries: Vec<(Decimal, V)>,
}

impl<V> View for DecimalMap<V> {
    type V = Seq<(Decimal, V)>;

    closed spec fn view(&self) -> Seq<(Decimal, V)> {
        self.entries@
    }
}

proof fn lemma_unique_position<V>(s: Seq<(Decimal, V)>, i: int, j: int)
    requires
        is_ascending(s),
        0 <= i < s.len(),
        0 <= j < s.len(),
        entry_key(s[i]) == entry_key(s[j]),
    ensures
        i == j,
{
    if i < j {
        assert(entry_key(s[i]) < entry_key(s[j]));
    } else if j < i {
        assert(entry_key(s[j]) < entry_key(s[i]));
    }
}

/// The entry of an ascending sequence at position `i` is the one the map
/// gives for its key.
proof fn lemma_map_at<V>(s: Seq<(Decimal, V)>, i: int)
    requires
        is_ascending(s),
        0 <= i < s.len(),
    ensures
        entries_map(s).contains_key(entry_key(s[i])),
        entries_map(s)[entry_key(s[i])] == s[i],
{
    let k = entry_key(s[i]);
    assert(has_key(s, k));
    let j = choose|j: int| 0 <= j < s.len() && entry_key(#[trigger] s[j]) == k;
    lemma_unique_position(s, i, j);
}

proof fn lemma_map_remove<V>(s: Seq<(Decimal, V)>, i: int)
    requires
        is_ascending(s),
        0 <= i < s.len(),
    ensures
        is_ascending(s.remove(i)),
        entries_map(s.remove(i)) =~= entries_map(s).remove(entry_key(s[i])),
{
    let r = s.remove(i);
    let k = entry_key(s[i]);
    assert(is_ascending(r)) by {
        assert forall|a: int, b: int| 0 <= a < b < r.len() implies entry_key(r[a]) < entry_key(r[b]) by {
            let sa = if a < i { a } else { a + 1 };
            let sb = if b < i { b } else { b + 1 };
            assert(r[a] == s[sa]);
            assert(r[b] == s[sb]);
        }
    }
    assert forall|k2: int| #[trigger] has_key(r, k2) <==> (has_key(s, k2) && k2 != k) by {
        if has_key(r, k2) {
            let a = choose|a: int| 0 <= a < r.len() && entry_key(#[trigger] r[a]) == k2;
            let sa = if a < i { a } else { a + 1 };
            assert(r[a] == s[sa]);
            assert(sa != i);
            if k2 == k {
                lemma_unique_position(s, sa, i);
            }
        }
        if has_key(s, k2) && k2 != k {
            let a = choose|a: int| 0 <= a < s.len() && entry_key(#[trigger] s[a]) == k2;
            assert(a != i);
            let ra = if a < i { a } else { a - 1 };
            assert(r[ra] == s[a]);
        }
    }
    assert forall|k2: int| #[trigger] has_key(r, k2) implies entries_map(r)[k2] == entries_map(s)[k2] by {
        let a = choose|a: int| 0 <= a < r.len() && entry_key(#[trigger] r[a]) == k2;
        let sa = if a < i { a } else { a + 1 };
        assert(r[a] == s[sa]);
        lemma_map_at(r, a);
        lemma_map_at(s, sa);
    }
}

proof fn lemma_map_insert<V>(s: Seq<(Decimal, V)>, i: int, e: (Decimal, V))
    requires
        is_ascending(s),
        0 <= i <= s.len(),
        forall|j: int| 0 <= j < i ==> entry_key(#[trigger] s[j]) < entry_key(e),
        forall|j: int| i <= j < s.len() ==> entry_key(e) < entry_key(#[trigger] s[j]),
    ensures
        is_ascending(s.insert(i, e)),
        entries_map(s.insert(i, e)) =~= entries_map(s).insert(entry_key(e), e),
{
    let r = s.insert(i, e);
    let k = entry_key(e);
    assert(is_ascending(r)) by {
        assert forall|a: int, b: int| 0 <= a < b < r.len() implies entry_key(r[a]) < entry_key(r[b]) by {
            if a < i && b < i {
                assert(r[a] == s[a] && r[b] == s[b]);
            } else if a < i && b == i {
                assert(r[a] == s[a]);
            } else if a < i {
                assert(r[a] == s[a] && r[b] == s[b - 1]);
            } else if a == i {
                assert(r[b] == s[b - 1]);
            } else {
                assert(r[a] == s[a - 1] && r[b] == s[b - 1]);
            }
        }
    }
    assert(r[i] == e);
    assert forall|k2: int| #[trigger] has_key(r, k2) <==> (has_key(s, k2) || k2 == k) by {
        if has_key(r, k2) {
            let a = choose|a: int| 0 <= a < r.len() && entry_key(#[trigger] r[a]) == k2;
            if a < i {
                assert(r[a] == s[a]);
            } else if a > i {
                assert(r[a] == s[a - 1]);
            }
        }
        if has_key(s, k2) {
            let a = choose|a: int| 0 <= a < s.len() && entry_key(#[trigger] s[a]) == k2;
            let ra = if a < i { a } else { a + 1 };
            assert(r[ra] == s[a]);
        }
        if k2 == k {
            assert(entry_key(r[i]) == k2);
        }
    }
    assert forall|k2: int| #[trigger] has_key(r, k2) implies entries_map(r)[k2] == entries_map(s).insert(k, e)[k2] by {
        let a = choose|a: int| 0 <= a < r.len() && entry_key(#[trigger] r[a]) == k2;
        lemma_map_at(r, a);
        if a < i {
            assert(r[a] == s[a]);
            lemma_map_at(s, a);
        } else if a > i {
            assert(r[a] == s[a - 1]);
            lemma_map_at(s, a - 1);
        }
    }
}

proof fn lemma_map_replace<V>(s: Seq<(Decimal, V)>, i: int, e: (Decimal, V))
    requires
        is_ascending(s),
        0 <= i < s.len(),
        entry_key(s[i]) == entry_key(e),
    ensures
        is_ascending(s.update(i, e)),
        entries_map(s.update(i, e)) =~= entries_map(s).insert(entry_key(e), e),
{
    let r = s.update(i, e);
    let k = entry_key(e);
    assert(is_ascending(r)) by {
        assert forall|a: int, b: int| 0 <= a < b < r.len() implies entry_key(r[a]) < entry_key(r[b]) by {
            assert(entry_key(s[a]) < entry_key(s[b]));
        }
    }
    assert forall|k2: int| #[trigger] has_key(r, k2) <==> has_key(s, k2) by {
        if has_key(r, k2) {
            let a = choose|a: int| 0 <= a < r.len() && entry_key(#[trigger] r[a]) == k2;
            assert(entry_key(s[a]) == k2);
        }
        if has_key(s, k2) {
            let a = choose|a: int| 0 <= a < s.len() && entry_key(#[trigger] s[a]) == k2;
            assert(entry_key(r[a]) == k2);
        }
    }
    lemma_map_at(s, i);
    assert forall|k2: int| #[trigger] has_key(r, k2) implies entries_map(r)[k2] == entries_map(s).insert(k, e)[k2] by {
        let a = choose|a: int| 0 <= a < r.len() && entry_key(#[trigger] r[a]) == k2;
        lemma_map_at(r, a);
        if a != i {
            lemma_map_at(s, a);
        }
    }
}

impl<V> DecimalMap<V> {
    #[verifier::type_invariant]
    spec fn well_formed(self) -> bool {
        is_ascending(self.entries@)
    }

    /// The map from numeric keys to entries `(key, value)`.
    pub open spec fn as_map(self) -> Map<int, (Decimal, V)> {
        entries_map(self@)
    }
}

impl<V: Copy> DecimalMap<V> {
    /// An empty map.
    pub fn new() -> (m: Self)
        ensures
            m@ == Seq::<(Decimal, V)>::empty(),
            m.as_map() == Map::<int, (Decimal, V)>::empty(),
    {
        let m = DecimalMap { entries: Vec::new() };
        assert(m.as_map() =~= Map::<int, (Decimal, V)>::empty());
        m
    }

    /// The entries in ascending key order.
    pub fn entries(&self) -> (e: &Vec<(Decimal, V)>)
        ensures
            e@ == self@,
            is_ascending(self@),
    {
        proof {
            use_type_invariant(self);
        }
        &self.entries
    }

    pub fn len(&self) -> (n: usize)
        ensures
            n == self@.len(),
            n == self.as_map().len(),
    {
        proof {
            use_type_invariant(self);
            lemma_map_len(self.entries@);
        }
        self.entries.len()
    }

    /// The position of the first entry whose key is not below `key`.
    fn lower_bound(&self, key: &Decimal) -> (i: usize)
        ensures
            i <= self@.len(),
            forall|j: int| 0 <= j < i ==> entry_key(#[trigger] self@[j]) < key@.value(),
            forall|j: int| i <= j < self@.len() ==> key@.value() <= entry_key(#[trigger] self@[j]),
    {
        proof {
            use_type_invariant(self);
        }
        let mut i: usize = 0;
        while i < self.entries.len()
            invariant
                i <= self.entries@.len(),
                is_ascending(self.entries@),
                forall|j: int| 0 <= j < i ==> entry_key(#[trigger] self.entries@[j]) < key@.value(),
            decreases self.entries@.len() - i,
        {
            if !self.entries[i].0.num_lt(key) {
                assert forall|j: int| i <= j < self.entries@.len() implies key@.value() <= entry_key(
                    #[trigger] self.entries@[j],
                ) by {
                    if j > i {
                        assert(entry_key(self.entries@[i as int]) < entry_key(self.entries@[j]));
                    }
                }
                return i;
            }
            i = i + 1;
        }
        i
    }

    /// The value stored under `key`, if any.
    pub fn get(&self, key: &Decimal) -> (v: Option<V>)
        ensures
            v is Some <==> self.as_map().contains_key(key@.value()),
            v matches Some(x) ==> x == self.as_map()[key@.value()].1,
    {
        proof {
            use_type_invariant(self);
        }
        let i = self.lower_bound(key);
        if i < self.entries.len() && self.entries[i].0.num_eq(key) {
            proof {
                lemma_map_at(self.entries@, i as int);
            }
            Some(self.entries[i].1)
        } else {
            proof {
                if has_key(self.entries@, key@.value()) {
                    let a = choose|a: int| 0 <= a < self.entries@.len() && entry_key(#[trigger] self.entries@[a]) == key@.value();
                    if a > i {
                        assert(entry_key(self.entries@[i as int]) < entry_key(self.entries@[a]));
                    }
                }
            }
            None
        }
    }

    /// Removes the entry under `key`, returning its value.
    pub fn remove(&mut self, key: &Decimal) -> (v: Option<V>)
        ensures
            final(self).as_map() == old(self).as_map().remove(key@.value()),
            v is Some <==> old(self).as_map().contains_key(key@.value()),
            v matches Some(x) ==> x == old(self).as_map()[key@.value()].1,
    {
        proof {
            use_type_invariant(&*self);
        }
        let i = self.lower_bound(key);
        if i < self.entries.len() && self.entries[i].0.num_eq(key) {
            proof {
                lemma_map_at(self.entries@, i as int);
                lemma_map_remove(self.entries@, i as int);
            }
            let mut entries = Vec::new();
        std::mem::swap(&mut entries, &mut self.entries);
            let (_, value) = entries.remove(i);
            self.entries = entries;
            Some(value)
        } else {
            proof {
                if has_key(self.entries@, key@.value()) {
                    let a = choose|a: int| 0 <= a < self.entries@.len() && entry_key(#[trigger] self.entries@[a]) == key@.value();
                    if a > i {
                        assert(entry_key(self.entries@[i as int]) < entry_key(self.entries@[a]));
                    }
                }
                assert(self.as_map() =~= self.as_map().remove(key@.value()));
            }
            None
        }
    }

    /// Stores `value` under `key` (`BTreeMap::insert`): a numerically equal
    /// key already present stays as it is and only its value is replaced.
    pub fn insert(&mut self, key: Decimal, value: V)
        ensures
            final(self).as_map() == old(self).as_map().insert(
                key@.value(),
                (
                    if old(self).as_map().contains_key(key@.value()) {
                        old(self).as_map()[key@.value()].0
                    } else {
                        key
                    },
                    value,
                ),
            ),
    {
        proof {
            use_type_invariant(&*self);
        }
        let i = self.lower_bound(&key);
        let mut entries = Vec::new();
        std::mem::swap(&mut entries, &mut self.entries);
        if i < entries.len() && entries[i].0.num_eq(&key) {
            let kept = entries[i].0;
            proof {
                lemma_map_at(entries@, i as int);
                lemma_map_replace(entries@, i as int, (kept, value));
            }
            entries.set(i, (kept, value));
        } else {
            proof {
                assert forall|j: int| i <= j < entries@.len() implies key@.value() < entry_key(#[trigger] entries@[j]) by {
                    if j > i {
                        assert(entry_key(entries@[i as int]) < entry_key(entries@[j]));
                    }
                }
                lemma_map_insert(entries@, i as int, (key, value));
                if has_key(entries@, key@.value()) {
                    let a = choose|a: int| 0 <= a < entries@.len() && entry_key(#[trigger] entries@[a]) == key@.value();
                    if a > i {
                        assert(entry_key(entries@[i as int]) < entry_key(entries@[a]));
                    }
                }
            }
            entries.insert(i, (key, value));
        }
        self.entries = entries;
    }

    /// Stores the entry `(key, value)`, replacing any entry with a
    /// numerically equal key, key included.
    fn replace(&mut self, key: Decimal, value: V)
        ensures
            final(self).as_map() == old(self).as_map().insert(key@.value(), (key, value)),
    {
        proof {
            use_type_invariant(&*self);
        }
        let i = self.lower_bound(&key);
        let mut entries = Vec::new();
        std::mem::swap(&mut entries, &mut self.entries);
        if i < entries.len() && entries[i].0.num_eq(&key) {
            proof {
                lemma_map_replace(entries@, i as int, (key, value));
            }
            entries.set(i, (key, value));
        } else {
            proof {
                assert forall|j: int| i <= j < entries@.len() implies key@.value() < entry_key(#[trigger] entries@[j]) by {
                    if j > i {
                        assert(entry_key(entries@[i as int]) < entry_key(entries@[j]));
                    }
                }
                lemma_map_insert(entries@, i as int, (key, value));
            }
            entries.insert(i, (key, value));
        }
        self.entries = entries;
    }

    /// The map built by inserting the given entries in order; a later entry
    /// replaces an earlier one with a numerically equal key.
    pub fn from_entries(items: Vec<(Decimal, V)>) -> (m: Self)
        ensures
            m.as_map() == collect_entries(items@),
    {
        let mut m = DecimalMap::new();
        let mut i: usize = 0;
        while i < items.len()
            invariant
                i <= items@.len(),
                m.as_map() == collect_entries(items@.take(i as int)),
            decreases items@.len() - i,
        {
            let (k, v) = items[i];
            m.replace(k, v);
            assert(items@.take(i + 1).drop_last() =~= items@.take(i as int));
            i = i + 1;
        }
        assert(items@.take(items@.len() as int) =~= items@);
        m
    }
}

impl<V: Copy> Clone for DecimalMap<V> {
    fn clone(&self) -> (m: Self)
        ensures
            m@ == self@,
    {
        proof {
            use_type_invariant(self);
        }
        let mut entries: Vec<(Decimal, V)> = Vec::new();
        let mut i: usize = 0;
        while i < self.entries.len()
            invariant
                i <= self.entries@.len(),
                entries@ == self.entries@.take(i as int),
            decreases self.entries@.len() - i,
        {
            entries.push(self.entries[i]);
            assert(self.entries@.take(i + 1) =~= self.entries@.take(i as int).push(self.entries@[i as int]));
            i = i + 1;
        }
        assert(self.entries@.take(self.entries@.len() as int) =~= self.entries@);
        DecimalMap { entries }
    }
}

proof fn lemma_map_len<V>(s: Seq<(Decimal, V)>)
    requires
        is_ascending(s),
    ensures
        entries_map(s).len() == s.len(),
        entries_map(s).dom().finite(),
    decreases s.len(),
{
    if s.len() == 0 {
        assert(entries_map(s).dom() =~= Set::<int>::empty());
    } else {
        let last = s.len() - 1;
        lemma_map_remove(s, last);
        assert(s.remove(last) =~= s.drop_last());
        lemma_map_len(s.drop_last());
        lemma_map_at(s, last);
        assert(entries_map(s).dom() =~= entries_map(s.drop_last()).dom().insert(entry_key(s[last])));
        assert(!entries_map(s.drop_last()).dom().contains(entry_key(s[last])));
    }
}

} // verus!
