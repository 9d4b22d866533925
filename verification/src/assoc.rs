//! Association lists with distinct keys, read as maps; and lists without
//! repetition, read as sets.

use vstd::prelude::*;

verus! {

/// No two entries share a key.
pub open spec fn keys_unique<A, B>(s: Seq<(A, B)>) -> bool {
    forall|i: int, j: int| 0 <= i < j < s.len() ==> (#[trigger] s[i]).0 != (#[trigger] s[j]).0
}

/// Some entry has key `k`.
pub open spec fn has_assoc<A, B>(s: Seq<(A, B)>, k: A) -> bool {
    exists|i: int| 0 <= i < s.len() && (#[trigger] s[i]).0 == k
}

/// The position of the entry with key `k` (meaningful when there is one).
pub open spec fn assoc_position<A, B>(s: Seq<(A, B)>, k: A) -> int {
    choose|i: int| 0 <= i < s.len() && (#[trigger] s[i]).0 == k
}

/// The map from keys to values the list holds.
pub open spec fn assoc_map<A, B>(s: Seq<(A, B)>) -> Map<A, B> {
    Map::new(|k: A| has_assoc(s, k), |k: A| s[assoc_position(s, k)].1)
}

pub proof fn lemma_assoc_at<A, B>(s: Seq<(A, B)>, i: int)
    requires
        keys_unique(s),
        0 <= i < s.len(),
    ensures
        assoc_map(s).contains_key(s[i].0),
        assoc_map(s)[s[i].0] == s[i].1,
        assoc_position(s, s[i].0) == i,
{
    let k = s[i].0;
    assert(has_assoc(s, k));
    let j = assoc_position(s, k);
    if i < j {
        assert(s[i].0 != s[j].0);
    } else if j < i {
        assert(s[j].0 != s[i].0);
    }
}

pub proof fn lemma_assoc_remove<A, B>(s: Seq<(A, B)>, i: int)
    requires
        keys_unique(s),
        0 <= i < s.len(),
    ensures
        keys_unique(s.remove(i)),
        assoc_map(s.remove(i)) =~= assoc_map(s).remove(s[i].0),
{
    let r = s.remove(i);
    let k = s[i].0;
    assert(keys_unique(r)) by {
        assert forall|a: int, b: int| 0 <= a < b < r.len() implies (#[trigger] r[a]).0 != (#[trigger] r[b]).0 by {
            let sa = if a < i { a } else { a + 1 };
            let sb = if b < i { b } else { b + 1 };
            assert(r[a] == s[sa] && r[b] == s[sb]);
            assert(s[sa].0 != s[sb].0);
        }
    }
    assert forall|k2: A| #[trigger] has_assoc(r, k2) <==> (has_assoc(s, k2) && k2 != k) by {
        if has_assoc(r, k2) {
            let a = choose|a: int| 0 <= a < r.len() && (#[trigger] r[a]).0 == k2;
            let sa = if a < i { a } else { a + 1 };
            assert(r[a] == s[sa]);
            if k2 == k {
                if sa < i {
                    assert(s[sa].0 != s[i].0);
                } else {
                    assert(s[i].0 != s[sa].0);
                }
            }
        }
        if has_assoc(s, k2) && k2 != k {
            let a = choose|a: int| 0 <= a < s.len() && (#[trigger] s[a]).0 == k2;
            let ra = if a < i { a } else { a - 1 };
            assert(r[ra] == s[a]);
        }
    }
    assert forall|k2: A| #[trigger] has_assoc(r, k2) implies assoc_map(r)[k2] == assoc_map(s)[k2] by {
        let a = choose|a: int| 0 <= a < r.len() && (#[trigger] r[a]).0 == k2;
        let sa = if a < i { a } else { a + 1 };
        assert(r[a] == s[sa]);
        lemma_assoc_at(r, a);
        lemma_assoc_at(s, sa);
    }
}

pub proof fn lemma_assoc_push<A, B>(s: Seq<(A, B)>, e: (A, B))
    requires
        keys_unique(s),
        !has_assoc(s, e.0),
    ensures
        keys_unique(s.push(e)),
        assoc_map(s.push(e)) =~= assoc_map(s).insert(e.0, e.1),
{
    let r = s.push(e);
    assert(keys_unique(r)) by {
        assert forall|a: int, b: int| 0 <= a < b < r.len() implies (#[trigger] r[a]).0 != (#[trigger] r[b]).0 by {
            if b == s.len() {
                assert(r[a] == s[a]);
            } else {
                assert(r[a] == s[a] && r[b] == s[b]);
            }
        }
    }
    assert(r[s.len() as int] == e);
    assert forall|k2: A| #[trigger] has_assoc(r, k2) <==> (has_assoc(s, k2) || k2 == e.0) by {
        if has_assoc(r, k2) {
            let a = choose|a: int| 0 <= a < r.len() && (#[trigger] r[a]).0 == k2;
            if a < s.len() {
                assert(r[a] == s[a]);
            }
        }
        if has_assoc(s, k2) {
            let a = choose|a: int| 0 <= a < s.len() && (#[trigger] s[a]).0 == k2;
            assert(r[a] == s[a]);
        }
        if k2 == e.0 {
            assert(r[s.len() as int].0 == k2);
        }
    }
    assert forall|k2: A| #[trigger] has_assoc(r, k2) implies assoc_map(r)[k2] == assoc_map(s).insert(e.0, e.1)[k2] by {
        let a = choose|a: int| 0 <= a < r.len() && (#[trigger] r[a]).0 == k2;
        lemma_assoc_at(r, a);
        if a < s.len() {
            assert(r[a] == s[a]);
            lemma_assoc_at(s, a);
        }
    }
}

pub proof fn lemma_assoc_empty<A, B>()
    ensures
        keys_unique(Seq::<(A, B)>::empty()),
        assoc_map(Seq::<(A, B)>::empty()) =~= Map::<A, B>::empty(),
{
}

/// The set of the elements of a list.
pub open spec fn elements<A>(s: Seq<A>) -> Set<A> {
    Set::new(|x: A| exists|i: int| 0 <= i < s.len() && s[i] == x)
}

/// No element occurs twice.
pub open spec fn distinct<A>(s: Seq<A>) -> bool {
    forall|i: int, j: int| 0 <= i < j < s.len() ==> s[i] != s[j]
}

pub proof fn lemma_elements_remove<A>(s: Seq<A>, i: int)
    requires
        distinct(s),
        0 <= i < s.len(),
    ensures
        distinct(s.remove(i)),
        elements(s.remove(i)) =~= elements(s).remove(s[i]),
{
    let r = s.remove(i);
    assert(distinct(r)) by {
        assert forall|a: int, b: int| 0 <= a < b < r.len() implies r[a] != r[b] by {
            let sa = if a < i { a } else { a + 1 };
            let sb = if b < i { b } else { b + 1 };
            assert(r[a] == s[sa] && r[b] == s[sb]);
        }
    }
    assert forall|x: A| elements(r).contains(x) <==> (elements(s).contains(x) && x != s[i]) by {
        if elements(r).contains(x) {
            let a = choose|a: int| 0 <= a < r.len() && r[a] == x;
            let sa = if a < i { a } else { a + 1 };
            assert(r[a] == s[sa]);
            assert(s.contains(x));
        }
        if elements(s).contains(x) && x != s[i] {
            let a = choose|a: int| 0 <= a < s.len() && s[a] == x;
            let ra = if a < i { a } else { a - 1 };
            assert(r[ra] == s[a]);
        }
    }
}

pub proof fn lemma_elements_push<A>(s: Seq<A>, x: A)
    requires
        distinct(s),
        !elements(s).contains(x),
    ensures
        distinct(s.push(x)),
        elements(s.push(x)) =~= elements(s).insert(x),
{
    let r = s.push(x);
    assert(distinct(r)) by {
        assert forall|a: int, b: int| 0 <= a < b < r.len() implies r[a] != r[b] by {
            if b == s.len() {
                assert(r[a] == s[a]);
                assert(elements(s).contains(s[a]));
            } else {
                assert(r[a] == s[a] && r[b] == s[b]);
            }
        }
    }
    assert forall|y: A| elements(r).contains(y) <==> (elements(s).contains(y) || y == x) by {
        if elements(r).contains(y) {
            let a = choose|a: int| 0 <= a < r.len() && r[a] == y;
            if a < s.len() {
                assert(r[a] == s[a]);
            }
        }
        if elements(s).contains(y) {
            let a = choose|a: int| 0 <= a < s.len() && s[a] == y;
            assert(r[a] == s[a]);
        }
        if y == x {
            assert(r[s.len() as int] == x);
        }
    }
}

} // verus!
