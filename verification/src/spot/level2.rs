//! The Level 2 feed of a market and the order book kept current with it.
//!
//! A feed message lists changes of price levels, each under a sequence
//! number. The book applies, in sequence order, the changes numbered above
//! its own sequence:
//!   1. a change at a price of zero (or below) only advances the sequence;
//!   2. otherwise the level at that price leaves the book (the bid side is
//!      looked at first, then the ask side);
//!   3. and unless the new size is zero, the level comes back on the side
//!      the change names, with the new size.

use vstd::prelude::*;

use crate::decimal::Decimal;
use crate::decimal_map::{DecimalMap, entry_key, is_ascending};
use crate::spot::market::OrderBook;

verus! {

broadcast use vstd::std_specs::vec::group_vec_axioms;

/// A change of a price level: whether it is a bid, its price and new size.
pub type Level2Change = (bool, Decimal, Decimal);

/// The changes of a feed message, each as `(price, size, sequence)`.
#[derive(Clone, Debug)]
pub struct Level2Changes {
    pub asks: Vec<(Decimal, Decimal, Decimal)>,
    pub bids: Vec<(Decimal, Decimal, Decimal)>,
}

/// A Level 2 feed message.
#[derive(Clone, Debug)]
pub struct Level2Update {
    pub changes: Level2Changes,
}

/// The entry a change listed as `(price, size, sequence)` makes.
pub open spec fn sequenced(t: (Decimal, Decimal, Decimal), is_bid: bool) -> (Decimal, Level2Change) {
    (t.2, (is_bid, t.0, t.1))
}

/// The ask changes, then the bid changes, as sequenced entries.
pub open spec fn update_entries(asks: Seq<(Decimal, Decimal, Decimal)>, bids: Seq<(Decimal, Decimal, Decimal)>) -> Seq<(Decimal, Level2Change)> {
    asks.map_values(|t: (Decimal, Decimal, Decimal)| sequenced(t, false)) + bids.map_values(
        |t: (Decimal, Decimal, Decimal)| sequenced(t, true),
    )
}

/// The map from sequence numbers to changes that a message gives, built as
/// `BTreeMap::insert` builds it: asks first, then bids; of several changes
/// under one sequence number the last value stands, under the key first
/// inserted.
pub open spec fn insert_entries(m: Map<int, (Decimal, Level2Change)>, s: Seq<(Decimal, Level2Change)>) -> Map<int, (Decimal, Level2Change)>
    decreases s.len(),
{
    if s.len() == 0 {
        m
    } else {
        let prev = insert_entries(m, s.drop_last());
        let k = entry_key(s.last());
        prev.insert(k, (if prev.contains_key(k) { prev[k].0 } else { s.last().0 }, s.last().1))
    }
}

/// The sequenced entries of a message list its ask changes first, each as
/// an ask (`is_bid` false) under its own sequence number with its own price
/// and size, then its bid changes likewise, each as a bid.
pub proof fn lemma_update_entries_sides(asks: Seq<(Decimal, Decimal, Decimal)>, bids: Seq<(Decimal, Decimal, Decimal)>)
    ensures
        update_entries(asks, bids).len() == asks.len() + bids.len(),
        forall|i: int| 0 <= i < asks.len() ==> #[trigger] update_entries(asks, bids)[i] == (asks[i].2, (false, asks[i].0, asks[i].1)),
        forall|j: int| 0 <= j < bids.len() ==> #[trigger] update_entries(asks, bids)[asks.len() + j] == (bids[j].2, (true, bids[j].0, bids[j].1)),
{
}

/// Building a map from entries that all lie on one side, starting from a map
/// whose values all lie on that side, gives values on that side only.
pub proof fn lemma_insert_entries_one_side(m: Map<int, (Decimal, Level2Change)>, s: Seq<(Decimal, Level2Change)>, is_bid: bool)
    requires
        forall|k: int| m.contains_key(k) ==> (#[trigger] m[k]).1.0 == is_bid,
        forall|i: int| 0 <= i < s.len() ==> (#[trigger] s[i]).1.0 == is_bid,
    ensures
        forall|k: int| insert_entries(m, s).contains_key(k) ==> (#[trigger] insert_entries(m, s)[k]).1.0 == is_bid,
    decreases s.len(),
{
    if s.len() > 0 {
        let t = s.drop_last();
        assert forall|i: int| 0 <= i < t.len() implies (#[trigger] t[i]).1.0 == is_bid by {
            assert(t[i] == s[i]);
        }
        lemma_insert_entries_one_side(m, t, is_bid);
        assert(s.last() == s[s.len() - 1]);
        let prev = insert_entries(m, t);
        let k0 = entry_key(s.last());
        assert forall|k: int| insert_entries(m, s).contains_key(k) implies (#[trigger] insert_entries(m, s)[k]).1.0 == is_bid by {
            if k != k0 {
                assert(insert_entries(m, s)[k] == prev[k]);
            }
        }
    }
}

/// A message with ask changes only is read as ask changes only, and one with
/// bid changes only as bid changes only.
pub proof fn lemma_one_sided_message(asks: Seq<(Decimal, Decimal, Decimal)>, bids: Seq<(Decimal, Decimal, Decimal)>)
    ensures
        bids.len() == 0 ==> forall|k: int| #![trigger insert_entries(Map::empty(), update_entries(asks, bids))[k]]
            insert_entries(Map::empty(), update_entries(asks, bids)).contains_key(k)
                ==> !insert_entries(Map::empty(), update_entries(asks, bids))[k].1.0,
        asks.len() == 0 ==> forall|k: int| #![trigger insert_entries(Map::empty(), update_entries(asks, bids))[k]]
            insert_entries(Map::empty(), update_entries(asks, bids)).contains_key(k)
                ==> insert_entries(Map::empty(), update_entries(asks, bids))[k].1.0,
{
    lemma_update_entries_sides(asks, bids);
    let e = update_entries(asks, bids);
    if bids.len() == 0 {
        assert forall|i: int| 0 <= i < e.len() implies (#[trigger] e[i]).1.0 == false by {
            assert(e[i] == (asks[i].2, (false, asks[i].0, asks[i].1)));
        }
        lemma_insert_entries_one_side(Map::empty(), e, false);
    }
    if asks.len() == 0 {
        assert forall|i: int| 0 <= i < e.len() implies (#[trigger] e[i]).1.0 == true by {
            assert(e[asks.len() + i] == (bids[i].2, (true, bids[i].0, bids[i].1)));
        }
        lemma_insert_entries_one_side(Map::empty(), e, true);
    }
}

impl Level2Update {
    /// The changes keyed by their sequence number (`From<Level2Update> for
    /// BTreeMap`).
    pub fn into_sequenced(self) -> (m: DecimalMap<Level2Change>)
        ensures
            m.as_map() == insert_entries(Map::empty(), update_entries(self.changes.asks@, self.changes.bids@)),
    {
        let ghost entries = update_entries(self.changes.asks@, self.changes.bids@);
        let asks = self.changes.asks;
        let bids = self.changes.bids;
        let mut m: DecimalMap<Level2Change> = DecimalMap::new();
        let mut i: usize = 0;
        while i < asks.len()
            invariant
                i <= asks@.len(),
                entries == update_entries(asks@, bids@),
                m.as_map() == insert_entries(Map::empty(), entries.take(i as int)),
            decreases asks@.len() - i,
        {
            let (price, size, seq) = asks[i];
            m.insert(seq, (false, price, size));
            assert(entries.take(i + 1).drop_last() =~= entries.take(i as int));
            assert(entries[i as int] == sequenced(asks@[i as int], false));
            i = i + 1;
        }
        let mut j: usize = 0;
        while j < bids.len()
            invariant
                j <= bids@.len(),
                i == asks@.len(),
                entries == update_entries(asks@, bids@),
                m.as_map() == insert_entries(Map::empty(), entries.take(i + j)),
            decreases bids@.len() - j,
        {
            let (price, size, seq) = bids[j];
            m.insert(seq, (true, price, size));
            assert(entries.take(i + j + 1).drop_last() =~= entries.take(i + j));
            assert(entries[i + j] == sequenced(bids@[j as int], true));
            j = j + 1;
        }
        assert(entries.take(i + j) =~= entries);
        m
    }
}

/// The abstract content of a book: its sequence and its two sides, each a
/// map from price (in units of `10^-28`) to the level `(price, size)`.
pub struct BookSides {
    pub sequence: Decimal,
    pub bids: Map<int, (Decimal, Decimal)>,
    pub asks: Map<int, (Decimal, Decimal)>,
}

/// `BTreeMap::insert` of a level: a numerically equal price already present
/// keeps its representation, and the size is replaced.
pub open spec fn insert_level(m: Map<int, (Decimal, Decimal)>, price: Decimal, size: Decimal) -> Map<int, (Decimal, Decimal)> {
    let k = price@.value();
    m.insert(k, (if m.contains_key(k) { m[k].0 } else { price }, size))
}

/// The effect of one change on the two sides.
pub open spec fn apply_change(bids: Map<int, (Decimal, Decimal)>, asks: Map<int, (Decimal, Decimal)>, change: Level2Change) -> (Map<int, (Decimal, Decimal)>, Map<int, (Decimal, Decimal)>) {
    let (is_bid, price, size) = change;
    let k = price@.value();
    if k <= 0 {
        (bids, asks)
    } else {
        let (b, a) = if bids.contains_key(k) { (bids.remove(k), asks) } else { (bids, asks.remove(k)) };
        if size@.value() > 0 {
            if is_bid { (insert_level(b, price, size), a) } else { (b, insert_level(a, price, size)) }
        } else {
            (b, a)
        }
    }
}

/// The effect of one sequenced change on a book.
pub open spec fn apply_entry(st: BookSides, e: (Decimal, Level2Change)) -> BookSides {
    let (b, a) = apply_change(st.bids, st.asks, e.1);
    BookSides { sequence: e.0, bids: b, asks: a }
}

/// The book after the changes of `s`, in order, of which those numbered
/// above `start` apply.
pub open spec fn replay(st: BookSides, start: int, s: Seq<(Decimal, Level2Change)>) -> BookSides
    decreases s.len(),
{
    if s.len() == 0 {
        st
    } else {
        let prev = replay(st, start, s.drop_last());
        if entry_key(s.last()) > start { apply_entry(prev, s.last()) } else { prev }
    }
}

impl OrderBook {
    /// The abstract content of the book.
    pub open spec fn sides(self) -> BookSides {
        BookSides { sequence: self.sequence, bids: self.bids.as_map(), asks: self.asks.as_map() }
    }

    /// Applies a feed message: its changes numbered above the book's
    /// sequence, in sequence order, by the rules above.
    pub fn apply_level2(&mut self, updates: &DecimalMap<Level2Change>)
        ensures
            final(self).sides() == replay(old(self).sides(), old(self).sequence@.value(), updates@),
            final(self).time == old(self).time,
    {
        let start = self.sequence;
        let entries = updates.entries();
        let mut i: usize = 0;
        while i < entries.len()
            invariant
                i <= entries@.len(),
                self.sides() == replay(old(self).sides(), start@.value(), entries@.take(i as int)),
                self.time == old(self).time,
                start == old(self).sequence,
            decreases entries@.len() - i,
        {
            let (seq, change) = entries[i];
            let (is_bid, price, size) = change;
            assert(entries@.take(i + 1).drop_last() =~= entries@.take(i as int));
            if start.num_lt(&seq) {
                if price.is_positive() {
                    if self.bids.remove(&price).is_none() {
                        self.asks.remove(&price);
                    }
                    if size.is_positive() {
                        if is_bid {
                            self.bids.insert(price, size);
                        } else {
                            self.asks.insert(price, size);
                        }
                    }
                }
                self.sequence = seq;
            }
            proof {
                let e = entries@[i as int];
                assert(entries@.take(i + 1).last() == e);
                let prev = replay(old(self).sides(), start@.value(), entries@.take(i as int));
                let next = replay(old(self).sides(), start@.value(), entries@.take(i + 1));
                assert(self.bids.as_map() =~= next.bids);
                assert(self.asks.as_map() =~= next.asks);
            }
            i = i + 1;
        }
        assert(entries@.take(entries@.len() as int) =~= entries@);
    }
}


/// No price is on both sides.
pub open spec fn sides_disjoint(bids: Map<int, (Decimal, Decimal)>, asks: Map<int, (Decimal, Decimal)>) -> bool {
    forall|k: int| !(#[trigger] bids.contains_key(k) && asks.contains_key(k))
}

/// A change at a price of zero or below leaves both sides as they are.
pub proof fn lemma_change_nonpositive_price(bids: Map<int, (Decimal, Decimal)>, asks: Map<int, (Decimal, Decimal)>, change: Level2Change)
    requires
        change.1@.value() <= 0,
    ensures
        apply_change(bids, asks, change) == (bids, asks),
{
}

/// On a book whose sides share no price, a change at a positive price
/// touches that price only: afterwards the level is on the side the change
/// names, with the change's price and size, when the size is positive, and
/// on neither side otherwise; the sides still share no price.
pub proof fn lemma_change_effect(bids: Map<int, (Decimal, Decimal)>, asks: Map<int, (Decimal, Decimal)>, change: Level2Change)
    requires
        sides_disjoint(bids, asks),
        change.1@.value() > 0,
    ensures
        ({
            let (b, a) = apply_change(bids, asks, change);
            let (is_bid, price, size) = change;
            let k = price@.value();
            &&& sides_disjoint(b, a)
            &&& b.remove(k) == bids.remove(k)
            &&& a.remove(k) == asks.remove(k)
            &&& b.contains_key(k) == (is_bid && size@.value() > 0)
            &&& a.contains_key(k) == (!is_bid && size@.value() > 0)
            &&& b.contains_key(k) ==> b[k] == (price, size)
            &&& a.contains_key(k) ==> a[k] == (price, size)
        }),
{
    let (b, a) = apply_change(bids, asks, change);
    let k = change.1@.value();
    assert(!(bids.contains_key(k) && asks.contains_key(k)));
    assert(b.remove(k) =~= bids.remove(k));
    assert(a.remove(k) =~= asks.remove(k));
    assert(sides_disjoint(b, a)) by {
        assert forall|k2: int| !(#[trigger] b.contains_key(k2) && a.contains_key(k2)) by {
            assert(!(bids.contains_key(k2) && asks.contains_key(k2)));
        }
    }
}

/// Replaying changes keeps the sides free of shared prices.
pub proof fn lemma_replay_keeps_disjoint(st: BookSides, start: int, s: Seq<(Decimal, Level2Change)>)
    requires
        sides_disjoint(st.bids, st.asks),
    ensures
        sides_disjoint(replay(st, start, s).bids, replay(st, start, s).asks),
    decreases s.len(),
{
    if s.len() > 0 {
        lemma_replay_keeps_disjoint(st, start, s.drop_last());
        let prev = replay(st, start, s.drop_last());
        if entry_key(s.last()) > start && s.last().1.1@.value() > 0 {
            lemma_change_effect(prev.bids, prev.asks, s.last().1);
        }
    }
}

/// Changes numbered at or below the book's sequence change nothing.
pub proof fn lemma_replay_stale(st: BookSides, start: int, s: Seq<(Decimal, Level2Change)>)
    requires
        forall|i: int| 0 <= i < s.len() ==> entry_key(#[trigger] s[i]) <= start,
    ensures
        replay(st, start, s) == st,
    decreases s.len(),
{
    if s.len() > 0 {
        assert(entry_key(s[s.len() - 1]) <= start);
        lemma_replay_stale(st, start, s.drop_last());
    }
}

/// After a replay, the book's sequence is the number of the last change
/// applied: that of the last change of the message when it is above the
/// book's former sequence, else the former sequence.
pub proof fn lemma_replay_sequence(st: BookSides, s: Seq<(Decimal, Level2Change)>)
    requires
        is_ascending(s),
    ensures
        s.len() > 0 && entry_key(s.last()) > st.sequence@.value() ==> replay(st, st.sequence@.value(), s).sequence == s.last().0,
        !(s.len() > 0 && entry_key(s.last()) > st.sequence@.value()) ==> replay(st, st.sequence@.value(), s).sequence == st.sequence,
        forall|i: int| 0 <= i < s.len() ==> entry_key(#[trigger] s[i]) <= replay(st, st.sequence@.value(), s).sequence@.value(),
    decreases s.len(),
{
    let start = st.sequence@.value();
    if s.len() > 0 {
        let t = s.drop_last();
        assert(is_ascending(t));
        lemma_replay_sequence(st, t);
        if entry_key(s.last()) <= start {
            assert forall|i: int| 0 <= i < t.len() implies entry_key(#[trigger] t[i]) <= start by {
                assert(t[i] == s[i]);
                assert(entry_key(s[i]) < entry_key(s[s.len() - 1]));
            }
            lemma_replay_stale(st, start, t);
        }
        assert forall|i: int| 0 <= i < s.len() implies entry_key(#[trigger] s[i]) <= replay(st, start, s).sequence@.value() by {
            if i < s.len() - 1 {
                assert(s[i] == t[i]);
                assert(entry_key(s[i]) < entry_key(s[s.len() - 1]));
            }
        }
    }
}

/// Applying the same message twice leaves the book as applying it once.
pub proof fn lemma_apply_twice(st: BookSides, s: Seq<(Decimal, Level2Change)>)
    requires
        is_ascending(s),
    ensures
        ({
            let once = replay(st, st.sequence@.value(), s);
            replay(once, once.sequence@.value(), s) == once
        }),
{
    lemma_replay_sequence(st, s);
    let once = replay(st, st.sequence@.value(), s);
    lemma_replay_stale(once, once.sequence@.value(), s);
}


/// The bookkeeping of a live order book: the book that feed messages keep
/// current, and the sequence of the book last published to readers. On each
/// tick of the publishing clock, a book that moved on since is published.
#[derive(Debug)]
pub struct LiveBookSync {
    last_seq: Decimal,
    next_book: OrderBook,
}

impl LiveBookSync {
    pub closed spec fn last_published(self) -> Decimal {
        self.last_seq
    }

    pub closed spec fn book(self) -> OrderBook {
        self.next_book
    }

    /// Starts from a snapshot, which readers already hold.
    pub fn new(book: OrderBook) -> (s: LiveBookSync)
        ensures
            s.last_published() == book.sequence,
            s.book().sides() == book.sides(),
            s.book().time == book.time,
    {
        LiveBookSync { last_seq: book.sequence, next_book: book }
    }

    /// The book as it stands.
    pub fn current(&self) -> (b: &OrderBook)
        ensures
            *b == self.book(),
    {
        &self.next_book
    }

    /// Applies a feed message to the book.
    pub fn on_updates(&mut self, updates: &DecimalMap<Level2Change>)
        ensures
            final(self).book().sides() == replay(old(self).book().sides(), old(self).book().sequence@.value(), updates@),
            final(self).book().time == old(self).book().time,
            final(self).last_published() == old(self).last_published(),
    {
        self.next_book.apply_level2(updates);
    }

    /// A tick of the publishing clock: the book to publish, when its
    /// sequence moved above the one last published.
    pub fn on_tick(&mut self) -> (r: Option<OrderBook>)
        ensures
            final(self).book() == old(self).book(),
            old(self).last_published()@.value() < old(self).book().sequence@.value() ==> {
                &&& r matches Some(b) && b.sides() == old(self).book().sides() && b.time == old(self).book().time
                &&& final(self).last_published() == old(self).book().sequence
            },
            r is Some ==> old(self).last_published()@.value() < final(self).last_published()@.value(),
            !(old(self).last_published()@.value() < old(self).book().sequence@.value()) ==> {
                &&& r is None
                &&& final(self).last_published() == old(self).last_published()
            },
    {
        if self.last_seq.num_lt(&self.next_book.sequence) {
            self.last_seq = self.next_book.sequence;
            Some(self.next_book.clone())
        } else {
            None
        }
    }
}

} // verus!
