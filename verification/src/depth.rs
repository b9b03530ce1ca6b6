//! Depth cache: the reconstructed order book of one instrument, built from
//! full snapshots and incremental deltas, with the ordering invariant that
//! stale updates never change the book.

use crate::types::DepthLevel;
use vstd::pervasive::VecAdditionalExecFns;
use vstd::prelude::*;

verus! {

/// The map price → quantity that a sequence of levels represents; a later
/// entry for the same price wins.
pub open spec fn side_map(s: Seq<DepthLevel>) -> Map<u64, u64>
    decreases s.len(),
{
    if s.len() == 0 {
        Map::empty()
    } else {
        side_map(s.drop_last()).insert(s.last().price, s.last().qty)
    }
}

/// No two levels share a price.
pub open spec fn distinct_prices(s: Seq<DepthLevel>) -> bool {
    forall|i: int, j: int|
        0 <= i < j < s.len() ==> (#[trigger] s[i]).price != (#[trigger] s[j]).price
}

/// Every level carries a positive quantity.
pub open spec fn all_positive(s: Seq<DepthLevel>) -> bool {
    forall|i: int| 0 <= i < s.len() ==> (#[trigger] s[i]).qty > 0
}

/// One level applied to a side: a zero quantity removes the price, any
/// other quantity upserts it.
pub open spec fn apply_level(m: Map<u64, u64>, l: DepthLevel) -> Map<u64, u64> {
    if l.qty == 0 {
        m.remove(l.price)
    } else {
        m.insert(l.price, l.qty)
    }
}

/// A sequence of levels applied to a side, in order.
pub open spec fn apply_levels(m: Map<u64, u64>, s: Seq<DepthLevel>) -> Map<u64, u64>
    decreases s.len(),
{
    if s.len() == 0 {
        m
    } else {
        apply_level(apply_levels(m, s.drop_last()), s.last())
    }
}

proof fn lemma_side_map_contains(s: Seq<DepthLevel>, p: u64)
    ensures
        side_map(s).dom().contains(p) <==> exists|i: int|
            0 <= i < s.len() && (#[trigger] s[i]).price == p,
    decreases s.len(),
{
    if s.len() > 0 {
        lemma_side_map_contains(s.drop_last(), p);
        if s.last().price == p {
            assert(s[s.len() - 1].price == p);
        } else if side_map(s).dom().contains(p) {
            let i = choose|i: int| 0 <= i < s.drop_last().len() && (#[trigger] s.drop_last()[i]).price == p;
            assert(s[i].price == p);
        } else {
            if exists|i: int| 0 <= i < s.len() && (#[trigger] s[i]).price == p {
                let i = choose|i: int| 0 <= i < s.len() && (#[trigger] s[i]).price == p;
                assert(s.drop_last()[i] == s[i]);
            }
        }
    }
}

proof fn lemma_side_map_update(s: Seq<DepthLevel>, i: int, l: DepthLevel)
    requires
        0 <= i < s.len(),
        distinct_prices(s),
        s[i].price == l.price,
    ensures
        side_map(s.update(i, l)) =~= side_map(s).insert(l.price, l.qty),
    decreases s.len(),
{
    let t = s.update(i, l);
    if i == s.len() - 1 {
        assert(t.drop_last() =~= s.drop_last());
        assert(t.last() == l);
    } else {
        assert(t.drop_last() =~= s.drop_last().update(i, l));
        assert(t.last() == s.last());
        lemma_side_map_update(s.drop_last(), i, l);
        // the last level's price differs from l.price, so the two inserts commute
        assert(s[s.len() - 1].price != s[i].price);
    }
}

proof fn lemma_side_map_remove_at(s: Seq<DepthLevel>, i: int)
    requires
        0 <= i < s.len(),
        distinct_prices(s),
    ensures
        side_map(s.remove(i)) =~= side_map(s).remove(s[i].price),
    decreases s.len(),
{
    let t = s.remove(i);
    if i == s.len() - 1 {
        assert(t =~= s.drop_last());
        lemma_side_map_contains(s.drop_last(), s[i].price);
        assert(forall|j: int|
            0 <= j < s.drop_last().len() ==> (#[trigger] s.drop_last()[j]).price != s[i].price);
        assert(!side_map(s.drop_last()).dom().contains(s[i].price));
    } else {
        assert(t.drop_last() =~= s.drop_last().remove(i));
        assert(t.last() == s.last());
        lemma_side_map_remove_at(s.drop_last(), i);
        assert(s[s.len() - 1].price != s[i].price);
    }
}

/// The position of a price in a side, if it is there.
fn find_price(v: &Vec<DepthLevel>, price: u64) -> (r: Option<usize>)
    ensures
        match r {
            Some(i) => i < v@.len() && v@[i as int].price == price,
            None => forall|j: int| 0 <= j < v@.len() ==> (#[trigger] v@[j]).price != price,
        },
{
    let n = v.len();
    let mut i: usize = 0;
    while i < n
        invariant
            i <= n,
            n == v@.len(),
            forall|j: int| 0 <= j < i ==> (#[trigger] v@[j]).price != price,
        decreases n - i,
    {
        if v[i].price == price {
            return Some(i);
        }
        i = i + 1;
    }
    None
}

/// Applies one level to a side in place.
fn set_level(v: &mut Vec<DepthLevel>, l: DepthLevel)
    requires
        distinct_prices(old(v)@),
        all_positive(old(v)@),
    ensures
        distinct_prices(final(v)@),
        all_positive(final(v)@),
        side_map(final(v)@) == apply_level(side_map(old(v)@), l),
{
    let found = find_price(v, l.price);
    if l.qty == 0 {
        match found {
            Some(i) => {
                proof {
                    lemma_side_map_remove_at(v@, i as int);
                    v@.remove_ensures(i as int);
                }
                let ghost old_s = v@;
                v.remove(i);
                proof {
                    assert forall|a: int| 0 <= a < v@.len() implies (#[trigger] v@[a]).qty
                        > 0 by {
                        if a < i {
                            assert(v@[a] == old_s[a]);
                        } else {
                            assert(v@[a] == old_s[a + 1]);
                        }
                    }
                    assert forall|a: int, b: int| 0 <= a < b < v@.len() implies (
                    #[trigger] v@[a]).price != (#[trigger] v@[b]).price by {
                        let a0 = if a < i {
                            a
                        } else {
                            a + 1
                        };
                        let b0 = if b < i {
                            b
                        } else {
                            b + 1
                        };
                        assert(v@[a] == old_s[a0]);
                        assert(v@[b] == old_s[b0]);
                        assert(old_s[a0].price != old_s[b0].price);
                    }
                }
            },
            None => {
                proof {
                    lemma_side_map_contains(v@, l.price);
                    assert(side_map(v@).remove(l.price) =~= side_map(v@));
                }
            },
        }
    } else {
        match found {
            Some(i) => {
                proof {
                    lemma_side_map_update(v@, i as int, l);
                }
                v.set(i, l);
            },
            None => {
                v.push(l);
                proof {
                    assert(v@.drop_last() =~= old(v)@);
                    assert(side_map(v@) == side_map(old(v)@).insert(l.price, l.qty));
                }
            },
        }
    }
}

/// Applies a sequence of levels to a side in place.
fn apply_side(v: &mut Vec<DepthLevel>, levels: &Vec<DepthLevel>)
    requires
        distinct_prices(old(v)@),
        all_positive(old(v)@),
    ensures
        distinct_prices(final(v)@),
        all_positive(final(v)@),
        side_map(final(v)@) == apply_levels(side_map(old(v)@), levels@),
{
    let n = levels.len();
    let mut i: usize = 0;
    while i < n
        invariant
            i <= n,
            n == levels@.len(),
            distinct_prices(v@),
            all_positive(v@),
            side_map(v@) == apply_levels(side_map(old(v)@), levels@.take(i as int)),
        decreases n - i,
    {
        set_level(v, levels[i]);
        proof {
            assert(levels@.take(i + 1).drop_last() =~= levels@.take(i as int));
            assert(levels@.take(i + 1).last() == levels@[i as int]);
        }
        i = i + 1;
    }
    proof {
        assert(levels@.take(n as int) =~= levels@);
    }
}

/// One depth message: the update identifier, the book time, and the levels
/// for each side.
#[derive(Debug, Clone, PartialEq)]
pub struct DepthPayload {
    pub last_update_id: u64,
    pub time: u64,
    pub bids: Vec<DepthLevel>,
    pub asks: Vec<DepthLevel>,
}

/// A full replacement of the book, or an incremental change to it.
#[derive(Debug, Clone, PartialEq)]
pub enum DepthUpdate {
    Snapshot(DepthPayload),
    Delta(DepthPayload),
}

/// The reconstructed order book of one instrument, plus the identifier and
/// time of the last applied update.
#[derive(Debug, Clone, PartialEq)]
pub struct DepthCache {
    pub bids: Vec<DepthLevel>,
    pub asks: Vec<DepthLevel>,
    /// Identifier of the last applied update; updates at or below it are
    /// discarded.
    pub last_update_id: u64,
    /// Time of the last applied update, for staleness detection.
    pub time: u64,
    /// Whether a full snapshot has been applied since the stream started;
    /// deltas before the first snapshot are discarded.
    pub has_snapshot: bool,
}

impl DepthCache {
    /// Both sides hold distinct prices and positive quantities.
    pub open spec fn wf(&self) -> bool {
        distinct_prices(self.bids@) && all_positive(self.bids@) && distinct_prices(self.asks@)
            && all_positive(self.asks@)
    }

    /// Whether the cache accepts an update: a delta needs a prior snapshot
    /// and a strictly newer identifier; a snapshot needs a strictly newer
    /// identifier only once one was applied.
    pub open spec fn accepts(&self, update: &DepthUpdate) -> bool {
        match update {
            DepthUpdate::Snapshot(p) => !self.has_snapshot || p.last_update_id
                > self.last_update_id,
            DepthUpdate::Delta(p) => self.has_snapshot && p.last_update_id > self.last_update_id,
        }
    }

    /// An empty cache, as at stream (re)connect.
    pub fn new() -> (r: DepthCache)
        ensures
            r.wf(),
            r.bids@.len() == 0,
            r.asks@.len() == 0,
            r.last_update_id == 0,
            r.time == 0,
            !r.has_snapshot,
    {
        DepthCache {
            bids: Vec::new(),
            asks: Vec::new(),
            last_update_id: 0,
            time: 0,
            has_snapshot: false,
        }
    }

    /// Applies an update. A stale or premature update leaves the cache
    /// unchanged; an accepted snapshot rebuilds each side from empty, an
    /// accepted delta upserts and removes individual levels, and either
    /// advances the identifier and time to the update's.
    pub fn update(&mut self, update: DepthUpdate)
        requires
            old(self).wf(),
        ensures
            final(self).wf(),
            !old(self).accepts(&update) ==> *final(self) == *old(self),
            old(self).accepts(&update) ==> match update {
                DepthUpdate::Snapshot(p) => side_map(final(self).bids@) == apply_levels(
                    Map::empty(),
                    p.bids@,
                ) && side_map(final(self).asks@) == apply_levels(Map::empty(), p.asks@)
                    && final(self).last_update_id == p.last_update_id && final(self).time == p.time
                    && final(self).has_snapshot,
                DepthUpdate::Delta(p) => side_map(final(self).bids@) == apply_levels(
                    side_map(old(self).bids@),
                    p.bids@,
                ) && side_map(final(self).asks@) == apply_levels(side_map(old(self).asks@), p.asks@)
                    && final(self).last_update_id == p.last_update_id && final(self).time == p.time
                    && final(self).has_snapshot,
            },
    {
        match update {
            DepthUpdate::Snapshot(p) => {
                if !self.has_snapshot || p.last_update_id > self.last_update_id {
                    self.bids.clear();
                    self.asks.clear();
                    apply_side(&mut self.bids, &p.bids);
                    apply_side(&mut self.asks, &p.asks);
                    self.last_update_id = p.last_update_id;
                    self.time = p.time;
                    self.has_snapshot = true;
                }
            },
            DepthUpdate::Delta(p) => {
                if self.has_snapshot && p.last_update_id > self.last_update_id {
                    apply_side(&mut self.bids, &p.bids);
                    apply_side(&mut self.asks, &p.asks);
                    self.last_update_id = p.last_update_id;
                    self.time = p.time;
                }
            },
        }
    }

    /// Whether the feed looks degraded: no update has been applied within
    /// the expected interval before `now_ms`. Reported, not fatal.
    pub fn is_stale(&self, now_ms: u64, expected_interval_ms: u64) -> (r: bool)
        ensures
            r == (self.time + expected_interval_ms < now_ms),
    {
        now_ms > expected_interval_ms && self.time < now_ms - expected_interval_ms
    }

    /// An immutable copy of the current book, bids then asks, taken at
    /// emission time so readers never observe a partially updated book.
    pub fn book(&self) -> (r: (Vec<DepthLevel>, Vec<DepthLevel>))
        ensures
            r.0@ == self.bids@,
            r.1@ == self.asks@,
    {
        (copy_levels(&self.bids), copy_levels(&self.asks))
    }
}

/// A copy of a side, level by level.
fn copy_levels(v: &Vec<DepthLevel>) -> (r: Vec<DepthLevel>)
    ensures
        r@ == v@,
{
    let n = v.len();
    let mut r: Vec<DepthLevel> = Vec::new();
    let mut i: usize = 0;
    while i < n
        invariant
            i <= n,
            n == v@.len(),
            r@ =~= v@.take(i as int),
        decreases n - i,
    {
        r.push(v[i]);
        proof {
            assert(v@.take(i + 1) =~= v@.take(i as int).push(v@[i as int]));
        }
        i = i + 1;
    }
    proof {
        assert(v@.take(n as int) =~= v@);
    }
    r
}

} // verus!
