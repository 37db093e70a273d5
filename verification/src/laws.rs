use vstd::prelude::*;
use crate::types::{QtyTimestamp, SnapshotRow, INVALID_MIN, INVALID_MAX, BUY, SELL, qty_is_positive};
use crate::scan::{
    has_positive, highest_positive_below, lemma_highest_positive_below, lemma_lowest_positive_above,
};
use crate::fuse::{
    FusedHashMapMarketDepth, TopOfBook, level_after_update, qty_at, timestamp_at, top_after_bid_update, top_after_ask_update,
    snapshot_levels, snapshot_max_tick, snapshot_min_tick, on_side, without_range,
};

verus! {

/// A feed newer than the level it meets (or meeting no level) is what the
/// level then reads: its quantity and time where it has a positive lot count,
/// no level (quantity zero) otherwise. A feed no newer than an existing level
/// leaves the levels as they were. Levels at other ticks never change.
pub proof fn lemma_level_update_reads_back(
    m: Map<i32, QtyTimestamp>,
    tick: i32,
    qty_lot: i32,
    qty: u32,
    ts: i64,
)
    ensures
        ({
            let m2 = level_after_update(m, tick, qty_lot, qty, ts);
            &&& (!m.contains_key(tick) || ts > m[tick].timestamp) && qty_lot > 0 ==> {
                &&& qty_at(m2, tick) == qty
                &&& timestamp_at(m2, tick) == ts
            }
            &&& (!m.contains_key(tick) || ts > m[tick].timestamp) && qty_lot <= 0 ==> {
                &&& !m2.contains_key(tick)
                &&& qty_at(m2, tick) == 0
            }
            &&& m.contains_key(tick) && ts <= m[tick].timestamp ==> m2 == m
            &&& forall|k: i32| k != tick ==> (#[trigger] m2.contains_key(k) <==> m.contains_key(k))
            &&& forall|k: i32| k != tick && m.contains_key(k) ==> #[trigger] m2[k] == m[k]
        }),
{
}

/// A bid with a nonzero lot count, at or above the best bid and no older than
/// it, becomes the best bid, stamped with its time. Where it stays below the
/// best ask the ask side is untouched; where it reaches the best ask and is no
/// older than it, the best ask moves up past it to the next positive ask level
/// up to the highest ask bound (or to `INVALID_MAX`), stamped with the bid's
/// time. The highest ask bound never moves.
pub proof fn lemma_fresh_bid_becomes_best(
    t: TopOfBook,
    bid: Map<i32, QtyTimestamp>,
    ask: Map<i32, QtyTimestamp>,
    tick: i32,
    qty_lot: i32,
    ts: i64,
)
    requires
        qty_lot != 0,
        tick >= t.best_bid_tick,
        ts >= t.best_bid_timestamp,
        tick < t.best_ask_tick || ts >= t.best_ask_timestamp,
        tick < INVALID_MAX,
    ensures
        ({
            let r = top_after_bid_update(t, bid, ask, tick, qty_lot, ts);
            &&& r.best_bid_tick == tick
            &&& r.best_bid_timestamp == ts
            &&& r.high_ask_tick == t.high_ask_tick
            &&& tick < t.best_ask_tick ==> r.best_ask_tick == t.best_ask_tick && r.best_ask_timestamp
                == t.best_ask_timestamp
            &&& tick >= t.best_ask_tick ==> {
                &&& r.best_ask_tick > tick
                &&& r.best_ask_timestamp == ts
                &&& r.best_ask_tick == INVALID_MAX || (has_positive(ask, r.best_ask_tick as int)
                    && r.best_ask_tick <= t.high_ask_tick)
                &&& forall|p: int| tick < p < r.best_ask_tick && p <= t.high_ask_tick ==> !#[trigger] has_positive(ask, p)
            }
        }),
{
    lemma_lowest_positive_above(ask, tick as int, t.high_ask_tick as int);
}

/// An ask with a nonzero lot count, at or below the best ask and no older than
/// it, becomes the best ask, stamped with its time. Where it stays above the
/// best bid the bid side is untouched; where it reaches the best bid and is no
/// older than it, the best bid moves down below it to the next positive bid
/// level down to the lowest bid bound (or to `INVALID_MIN`), stamped with the
/// ask's time. The lowest bid bound never moves.
pub proof fn lemma_fresh_ask_becomes_best(
    t: TopOfBook,
    bid: Map<i32, QtyTimestamp>,
    ask: Map<i32, QtyTimestamp>,
    tick: i32,
    qty_lot: i32,
    ts: i64,
)
    requires
        qty_lot != 0,
        tick <= t.best_ask_tick,
        ts >= t.best_ask_timestamp,
        tick > t.best_bid_tick || ts >= t.best_bid_timestamp,
        tick > INVALID_MIN,
    ensures
        ({
            let r = top_after_ask_update(t, bid, ask, tick, qty_lot, ts);
            &&& r.best_ask_tick == tick
            &&& r.best_ask_timestamp == ts
            &&& r.low_bid_tick == t.low_bid_tick
            &&& tick > t.best_bid_tick ==> r.best_bid_tick == t.best_bid_tick && r.best_bid_timestamp
                == t.best_bid_timestamp
            &&& tick <= t.best_bid_tick ==> {
                &&& r.best_bid_tick < tick
                &&& r.best_bid_timestamp == ts
                &&& r.best_bid_tick == INVALID_MIN || (has_positive(bid, r.best_bid_tick as int)
                    && t.low_bid_tick <= r.best_bid_tick)
                &&& forall|p: int| r.best_bid_tick < p < tick && t.low_bid_tick <= p ==> !#[trigger] has_positive(bid, p)
            }
        }),
{
    lemma_highest_positive_below(bid, tick as int, t.low_bid_tick as int);
}

/// A bid with a nonzero lot count, at or above the best bid and no older than
/// it, that reaches a best ask newer than itself, gives way: the best ask and
/// its time stay, and the best bid becomes the highest positive bid level
/// below the best ask, down to the lowest bid bound (or `INVALID_MIN`),
/// stamped with the best ask's time.
pub proof fn lemma_crossing_bid_older_than_ask_gives_way(
    t: TopOfBook,
    bid: Map<i32, QtyTimestamp>,
    ask: Map<i32, QtyTimestamp>,
    tick: i32,
    qty_lot: i32,
    ts: i64,
)
    requires
        qty_lot != 0,
        tick >= t.best_bid_tick,
        ts >= t.best_bid_timestamp,
        tick >= t.best_ask_tick,
        ts < t.best_ask_timestamp,
    ensures
        ({
            let r = top_after_bid_update(t, bid, ask, tick, qty_lot, ts);
            &&& r.best_ask_tick == t.best_ask_tick
            &&& r.best_ask_timestamp == t.best_ask_timestamp
            &&& r.high_ask_tick == t.high_ask_tick
            &&& r.best_bid_timestamp == t.best_ask_timestamp
            &&& r.best_bid_tick < t.best_ask_tick || r.best_bid_tick == INVALID_MIN
            &&& r.best_bid_tick == INVALID_MIN || (has_positive(bid, r.best_bid_tick as int)
                && t.low_bid_tick <= r.best_bid_tick)
            &&& forall|p: int| r.best_bid_tick < p < t.best_ask_tick && t.low_bid_tick <= p ==> !#[trigger] has_positive(bid, p)
        }),
{
    lemma_highest_positive_below(bid, t.best_ask_tick as int, t.low_bid_tick as int);
}

/// An ask with a nonzero lot count, at or below the best ask and no older than
/// it, that reaches a best bid newer than itself, gives way: the best bid and
/// its time stay, and the best ask becomes the lowest positive ask level above
/// the best bid, up to the highest ask bound (or `INVALID_MAX`), stamped with
/// the best bid's time.
pub proof fn lemma_crossing_ask_older_than_bid_gives_way(
    t: TopOfBook,
    bid: Map<i32, QtyTimestamp>,
    ask: Map<i32, QtyTimestamp>,
    tick: i32,
    qty_lot: i32,
    ts: i64,
)
    requires
        qty_lot != 0,
        tick <= t.best_ask_tick,
        ts >= t.best_ask_timestamp,
        tick <= t.best_bid_tick,
        ts < t.best_bid_timestamp,
    ensures
        ({
            let r = top_after_ask_update(t, bid, ask, tick, qty_lot, ts);
            &&& r.best_bid_tick == t.best_bid_tick
            &&& r.best_bid_timestamp == t.best_bid_timestamp
            &&& r.low_bid_tick == t.low_bid_tick
            &&& r.best_ask_timestamp == t.best_bid_timestamp
            &&& r.best_ask_tick > t.best_bid_tick || r.best_ask_tick == INVALID_MAX
            &&& r.best_ask_tick == INVALID_MAX || (has_positive(ask, r.best_ask_tick as int)
                && r.best_ask_tick <= t.high_ask_tick)
            &&& forall|p: int| t.best_bid_tick < p < r.best_ask_tick && p <= t.high_ask_tick ==> !#[trigger] has_positive(ask, p)
        }),
{
    lemma_lowest_positive_above(ask, t.best_bid_tick as int, t.high_ask_tick as int);
}

/// A bid feed that neither deletes the best bid (zero lots at its tick, no
/// older than it) nor takes it (nonzero lots, at or above it, no older than
/// it) leaves the top of the book as it was, but for a nonzero feed's widening
/// of the lowest bid bound.
pub proof fn lemma_other_bid_feed_keeps_top(
    t: TopOfBook,
    bid: Map<i32, QtyTimestamp>,
    ask: Map<i32, QtyTimestamp>,
    tick: i32,
    qty_lot: i32,
    ts: i64,
)
    requires
        qty_lot == 0 ==> !(tick == t.best_bid_tick && ts >= t.best_bid_timestamp),
        qty_lot != 0 ==> !(tick >= t.best_bid_tick && ts >= t.best_bid_timestamp),
    ensures
        ({
            let r = top_after_bid_update(t, bid, ask, tick, qty_lot, ts);
            &&& r.best_bid_tick == t.best_bid_tick
            &&& r.best_bid_timestamp == t.best_bid_timestamp
            &&& r.best_ask_tick == t.best_ask_tick
            &&& r.best_ask_timestamp == t.best_ask_timestamp
            &&& r.high_ask_tick == t.high_ask_tick
            &&& qty_lot == 0 ==> r.low_bid_tick == t.low_bid_tick
        }),
{
}

/// An ask feed that neither deletes the best ask (zero lots at its tick, no
/// older than it) nor takes it (nonzero lots, at or below it, no older than
/// it) leaves the top of the book as it was, but for a nonzero feed's widening
/// of the highest ask bound.
pub proof fn lemma_other_ask_feed_keeps_top(
    t: TopOfBook,
    bid: Map<i32, QtyTimestamp>,
    ask: Map<i32, QtyTimestamp>,
    tick: i32,
    qty_lot: i32,
    ts: i64,
)
    requires
        qty_lot == 0 ==> !(tick == t.best_ask_tick && ts >= t.best_ask_timestamp),
        qty_lot != 0 ==> !(tick <= t.best_ask_tick && ts >= t.best_ask_timestamp),
    ensures
        ({
            let r = top_after_ask_update(t, bid, ask, tick, qty_lot, ts);
            &&& r.best_bid_tick == t.best_bid_tick
            &&& r.best_bid_timestamp == t.best_bid_timestamp
            &&& r.best_ask_tick == t.best_ask_tick
            &&& r.best_ask_timestamp == t.best_ask_timestamp
            &&& r.low_bid_tick == t.low_bid_tick
            &&& qty_lot == 0 ==> r.high_ask_tick == t.high_ask_tick
        }),
{
}

/// Deleting the best bid (zero lots at its tick, no older than it) moves the
/// best bid down: to the highest positive bid level below it, no lower than
/// the lowest bid bound, or to `INVALID_MIN` where there is none, in which case
/// the lowest bid bound resets to `INVALID_MAX`. The ask side stays.
pub proof fn lemma_best_bid_deletion(
    t: TopOfBook,
    bid: Map<i32, QtyTimestamp>,
    ask: Map<i32, QtyTimestamp>,
    ts: i64,
)
    requires
        ts >= t.best_bid_timestamp,
    ensures
        ({
            let r = top_after_bid_update(t, bid, ask, t.best_bid_tick, 0, ts);
            &&& r.best_ask_tick == t.best_ask_tick
            &&& r.best_ask_timestamp == t.best_ask_timestamp
            &&& r.high_ask_tick == t.high_ask_tick
            &&& r.best_bid_timestamp == ts
            &&& r.best_bid_tick == INVALID_MIN || (r.best_bid_tick < t.best_bid_tick && t.low_bid_tick
                <= r.best_bid_tick && has_positive(bid, r.best_bid_tick as int))
            &&& forall|p: int| r.best_bid_tick < p < t.best_bid_tick && t.low_bid_tick <= p ==> !#[trigger] has_positive(bid, p)
            &&& r.low_bid_tick == if r.best_bid_tick == INVALID_MIN { INVALID_MAX } else { t.low_bid_tick }
        }),
{
    lemma_highest_positive_below(bid, t.best_bid_tick as int, t.low_bid_tick as int);
}

/// Deleting the best ask (zero lots at its tick, no older than it) moves the
/// best ask up: to the lowest positive ask level above it, no higher than the
/// highest ask bound, or to `INVALID_MAX` where there is none, in which case the
/// highest ask bound resets to `INVALID_MIN`. The bid side stays.
pub proof fn lemma_best_ask_deletion(
    t: TopOfBook,
    bid: Map<i32, QtyTimestamp>,
    ask: Map<i32, QtyTimestamp>,
    ts: i64,
)
    requires
        ts >= t.best_ask_timestamp,
    ensures
        ({
            let r = top_after_ask_update(t, bid, ask, t.best_ask_tick, 0, ts);
            &&& r.best_bid_tick == t.best_bid_tick
            &&& r.best_bid_timestamp == t.best_bid_timestamp
            &&& r.low_bid_tick == t.low_bid_tick
            &&& r.best_ask_timestamp == ts
            &&& r.best_ask_tick == INVALID_MAX || (r.best_ask_tick > t.best_ask_tick && r.best_ask_tick
                <= t.high_ask_tick && has_positive(ask, r.best_ask_tick as int))
            &&& forall|p: int| t.best_ask_tick < p < r.best_ask_tick && p <= t.high_ask_tick ==> !#[trigger] has_positive(ask, p)
            &&& r.high_ask_tick == if r.best_ask_tick == INVALID_MAX { INVALID_MIN } else { t.high_ask_tick }
        }),
{
    lemma_lowest_positive_above(ask, t.best_ask_tick as int, t.high_ask_tick as int);
}

/// The levels a snapshot sets up on a side are exactly the ticks of that
/// side's rows, each holding the quantity and time of the last such row.
pub proof fn lemma_snapshot_levels(rows: Seq<SnapshotRow>, bid: bool)
    ensures
        forall|k: i32|
            #[trigger] snapshot_levels(rows, bid).contains_key(k) <==> exists|i: int|
                0 <= i < rows.len() && on_side(#[trigger] rows[i], bid) && rows[i].price_tick == k,
        forall|i: int|
            0 <= i < rows.len() && on_side(#[trigger] rows[i], bid) && (forall|j: int|
                i < j < rows.len() && on_side(#[trigger] rows[j], bid) ==> rows[j].price_tick != rows[i].price_tick)
                ==> snapshot_levels(rows, bid)[rows[i].price_tick] == (QtyTimestamp {
                qty: rows[i].qty,
                timestamp: rows[i].exch_ts,
            }),
    decreases rows.len(),
{
    if rows.len() > 0 {
        let init = rows.drop_last();
        lemma_snapshot_levels(init, bid);
        let n = rows.len() - 1;
        assert forall|k: i32|
            #[trigger] snapshot_levels(rows, bid).contains_key(k) <==> exists|i: int|
                0 <= i < rows.len() && on_side(#[trigger] rows[i], bid) && rows[i].price_tick == k by {
            if snapshot_levels(rows, bid).contains_key(k) {
                if on_side(rows[n], bid) && rows[n].price_tick == k {
                } else {
                    assert(snapshot_levels(init, bid).contains_key(k));
                    let i = choose|i: int|
                        0 <= i < init.len() && on_side(#[trigger] init[i], bid) && init[i].price_tick == k;
                    assert(rows[i] == init[i]);
                }
            }
            if exists|i: int| 0 <= i < rows.len() && on_side(#[trigger] rows[i], bid) && rows[i].price_tick == k {
                let i = choose|i: int| 0 <= i < rows.len() && on_side(#[trigger] rows[i], bid) && rows[i].price_tick == k;
                if i < n {
                    assert(init[i] == rows[i]);
                    assert(snapshot_levels(init, bid).contains_key(k));
                }
            }
        }
        assert forall|i: int|
            0 <= i < rows.len() && on_side(#[trigger] rows[i], bid) && (forall|j: int|
                i < j < rows.len() && on_side(#[trigger] rows[j], bid) ==> rows[j].price_tick != rows[i].price_tick)
                implies snapshot_levels(rows, bid)[rows[i].price_tick] == (QtyTimestamp {
                qty: rows[i].qty,
                timestamp: rows[i].exch_ts,
            }) by {
            if i < n {
                assert(init[i] == rows[i]);
                assert forall|j: int|
                    i < j < init.len() && on_side(#[trigger] init[j], bid) implies init[j].price_tick != init[i].price_tick by {
                    assert(init[j] == rows[j]);
                }
                if on_side(rows[n], bid) {
                    assert(rows[n].price_tick != rows[i].price_tick);
                }
            }
        }
    }
}

/// The best bid a snapshot sets up is the highest bid row's tick and the
/// lowest bid bound the lowest (and mirrored for asks): every row of a side
/// lies between the two, and each of the two is some row's tick, or a sentinel
/// where the side has no row.
pub proof fn lemma_snapshot_extremes(rows: Seq<SnapshotRow>, bid: bool)
    ensures
        forall|i: int|
            0 <= i < rows.len() && on_side(#[trigger] rows[i], bid) ==> snapshot_min_tick(rows, bid)
                <= rows[i].price_tick <= snapshot_max_tick(rows, bid),
        snapshot_max_tick(rows, bid) == INVALID_MIN || exists|i: int|
            0 <= i < rows.len() && on_side(#[trigger] rows[i], bid) && rows[i].price_tick == snapshot_max_tick(rows, bid),
        snapshot_min_tick(rows, bid) == INVALID_MAX || exists|i: int|
            0 <= i < rows.len() && on_side(#[trigger] rows[i], bid) && rows[i].price_tick == snapshot_min_tick(rows, bid),
    decreases rows.len(),
{
    if rows.len() > 0 {
        let init = rows.drop_last();
        lemma_snapshot_extremes(init, bid);
        let n = rows.len() - 1;
        assert forall|i: int|
            0 <= i < rows.len() && on_side(#[trigger] rows[i], bid) implies snapshot_min_tick(rows, bid)
                <= rows[i].price_tick <= snapshot_max_tick(rows, bid) by {
            if i < n {
                assert(init[i] == rows[i]);
            }
        }
        if snapshot_max_tick(rows, bid) != INVALID_MIN {
            if on_side(rows[n], bid) && snapshot_max_tick(rows, bid) == rows[n].price_tick {
            } else {
                let i = choose|i: int|
                    0 <= i < init.len() && on_side(#[trigger] init[i], bid) && init[i].price_tick == snapshot_max_tick(init, bid);
                assert(rows[i] == init[i]);
            }
        }
        if snapshot_min_tick(rows, bid) != INVALID_MAX {
            if on_side(rows[n], bid) && snapshot_min_tick(rows, bid) == rows[n].price_tick {
            } else {
                let i = choose|i: int|
                    0 <= i < init.len() && on_side(#[trigger] init[i], bid) && init[i].price_tick == snapshot_min_tick(init, bid);
                assert(rows[i] == init[i]);
            }
        }
    }
}

/// The state that bid feeds alone keep, up to the time `last_ts`: every bid
/// level holds a positive quantity, lies at an actual tick no lower than the
/// lowest bid bound and no higher than the best bid, and is no newer than
/// `last_ts`; the best bid is a bid level unless it is `INVALID_MIN`; neither
/// best price is newer than `last_ts`. The ask side may hold anything.
pub open spec fn bid_side_consistent(d: FusedHashMapMarketDepth, last_ts: int) -> bool {
    let m = d.bid_depth@;
    &&& d.best_ask_timestamp <= last_ts
    &&& d.best_bid_timestamp <= last_ts
    &&& d.best_bid_tick != INVALID_MIN ==> m.contains_key(d.best_bid_tick)
    &&& forall|k: i32| #[trigger] m.contains_key(k) ==> {
        &&& qty_is_positive(m[k].qty)
        &&& INVALID_MIN < k < INVALID_MAX
        &&& d.low_bid_tick <= k <= d.best_bid_tick
        &&& m[k].timestamp <= last_ts
    }
}

/// The mirror image of `bid_side_consistent` for ask feeds alone; the bid
/// side may hold anything.
pub open spec fn ask_side_consistent(d: FusedHashMapMarketDepth, last_ts: int) -> bool {
    let m = d.ask_depth@;
    &&& d.best_bid_timestamp <= last_ts
    &&& d.best_ask_timestamp <= last_ts
    &&& d.best_ask_tick != INVALID_MAX ==> m.contains_key(d.best_ask_tick)
    &&& forall|k: i32| #[trigger] m.contains_key(k) ==> {
        &&& qty_is_positive(m[k].qty)
        &&& INVALID_MIN < k < INVALID_MAX
        &&& d.best_ask_tick <= k <= d.high_ask_tick
        &&& m[k].timestamp <= last_ts
    }
}

/// A fresh depth holds both consistent states, up to time zero.
pub proof fn lemma_new_depth_consistent(d: FusedHashMapMarketDepth)
    requires
        d.bid_depth@ == Map::<i32, QtyTimestamp>::empty(),
        d.ask_depth@ == Map::<i32, QtyTimestamp>::empty(),
        d.best_bid_tick == INVALID_MIN,
        d.best_ask_tick == INVALID_MAX,
        d.best_bid_timestamp == 0,
        d.best_ask_timestamp == 0,
    ensures
        bid_side_consistent(d, 0),
        ask_side_consistent(d, 0),
{
}

/// Where the bid side is consistent, the best bid is the highest tick with a
/// positive bid quantity, or `INVALID_MIN` where no tick has one.
pub proof fn lemma_consistent_best_bid_is_highest(d: FusedHashMapMarketDepth, last_ts: int)
    requires
        bid_side_consistent(d, last_ts),
    ensures
        forall|t: i32| #[trigger] qty_is_positive(qty_at(d.bid_depth@, t)) <==> d.bid_depth@.contains_key(t),
        forall|t: i32| qty_is_positive(#[trigger] qty_at(d.bid_depth@, t)) ==> t <= d.best_bid_tick,
        d.best_bid_tick != INVALID_MIN ==> qty_is_positive(qty_at(d.bid_depth@, d.best_bid_tick)),
        d.best_bid_tick == INVALID_MIN ==> forall|t: i32| !qty_is_positive(#[trigger] qty_at(d.bid_depth@, t)),
{
}

/// Where the ask side is consistent, the best ask is the lowest tick with a
/// positive ask quantity, or `INVALID_MAX` where no tick has one.
pub proof fn lemma_consistent_best_ask_is_lowest(d: FusedHashMapMarketDepth, last_ts: int)
    requires
        ask_side_consistent(d, last_ts),
    ensures
        forall|t: i32| #[trigger] qty_is_positive(qty_at(d.ask_depth@, t)) <==> d.ask_depth@.contains_key(t),
        forall|t: i32| qty_is_positive(#[trigger] qty_at(d.ask_depth@, t)) ==> d.best_ask_tick <= t,
        d.best_ask_tick != INVALID_MAX ==> qty_is_positive(qty_at(d.ask_depth@, d.best_ask_tick)),
        d.best_ask_tick == INVALID_MAX ==> forall|t: i32| !qty_is_positive(#[trigger] qty_at(d.ask_depth@, t)),
{
}

/// Bid feeds newer than everything before keep the bid side consistent: a
/// feed at an actual tick, with a lot count that is zero or positive and a
/// positive quantity wherever the lot count is positive (what a quantity of
/// at least zero gives), moves a consistent depth, as `update_bid_depth`
/// moves it, to a depth consistent up to the feed's time. With
/// `lemma_new_depth_consistent` and `lemma_consistent_best_bid_is_highest`:
/// from a fresh depth, through such feeds only (whatever the ask side held),
/// the best bid is always the highest tick with a positive quantity, and every
/// bid level is positive.
pub proof fn lemma_fresh_bid_feed_keeps_consistent(
    before: FusedHashMapMarketDepth,
    after: FusedHashMapMarketDepth,
    tick: i32,
    qty_lot: i32,
    qty: u32,
    ts: i64,
    last_ts: int,
)
    requires
        bid_side_consistent(before, last_ts),
        INVALID_MIN < tick < INVALID_MAX,
        qty_lot >= 0,
        qty_lot > 0 ==> qty_is_positive(qty),
        ts > last_ts,
        after.bid_depth@ == level_after_update(before.bid_depth@, tick, qty_lot, qty, ts),
        after.top() == top_after_bid_update(
            before.top(),
            after.bid_depth@,
            before.ask_depth@,
            tick,
            qty_lot,
            ts,
        ),
    ensures
        bid_side_consistent(after, ts as int),
{
    let m = before.bid_depth@;
    let m2 = after.bid_depth@;
    if qty_lot == 0 && tick == before.best_bid_tick {
        lemma_highest_positive_below(m2, before.best_bid_tick as int, before.low_bid_tick as int);
        let r = highest_positive_below(m2, before.best_bid_tick as int, before.low_bid_tick as int);
        assert forall|k: i32| #[trigger] m2.contains_key(k) implies k <= after.best_bid_tick by {
            assert(m.contains_key(k) && k != tick);
            assert(has_positive(m2, k as int));
        }
    }
}

/// The mirror image of `lemma_fresh_bid_feed_keeps_consistent`: from a fresh
/// depth, through fresh ask feeds only (whatever the bid side held), the best
/// ask is always the lowest tick with a positive quantity, and every ask level
/// is positive.
pub proof fn lemma_fresh_ask_feed_keeps_consistent(
    before: FusedHashMapMarketDepth,
    after: FusedHashMapMarketDepth,
    tick: i32,
    qty_lot: i32,
    qty: u32,
    ts: i64,
    last_ts: int,
)
    requires
        ask_side_consistent(before, last_ts),
        INVALID_MIN < tick < INVALID_MAX,
        qty_lot >= 0,
        qty_lot > 0 ==> qty_is_positive(qty),
        ts > last_ts,
        after.ask_depth@ == level_after_update(before.ask_depth@, tick, qty_lot, qty, ts),
        after.top() == top_after_ask_update(
            before.top(),
            before.bid_depth@,
            after.ask_depth@,
            tick,
            qty_lot,
            ts,
        ),
    ensures
        ask_side_consistent(after, ts as int),
{
    let m = before.ask_depth@;
    let m2 = after.ask_depth@;
    if qty_lot == 0 && tick == before.best_ask_tick {
        lemma_lowest_positive_above(m2, before.best_ask_tick as int, before.high_ask_tick as int);
        assert forall|k: i32| #[trigger] m2.contains_key(k) implies after.best_ask_tick <= k by {
            assert(m.contains_key(k) && k != tick);
            assert(has_positive(m2, k as int));
        }
    }
}

/// Over any run of calls, each of which (`update_bid_depth`,
/// `update_ask_depth`, `clear_depth`, `apply_snapshot`, `add`) keeps the sizes
/// of the depth it starts from, every depth of the run has the tick size and
/// the lot size of the first.
pub proof fn lemma_sizes_kept_over_run(run: Seq<FusedHashMapMarketDepth>)
    requires
        forall|i: int| 0 < i < run.len() ==> #[trigger] run[i].keeps_sizes(&run[i - 1]),
    ensures
        forall|i: int| 0 <= i < run.len() ==> #[trigger] run[i].keeps_sizes(&run[0]),
    decreases run.len(),
{
    if run.len() > 1 {
        let init = run.drop_last();
        assert forall|i: int| 0 < i < init.len() implies #[trigger] init[i].keeps_sizes(&init[i - 1]) by {
            assert(run[i].keeps_sizes(&run[i - 1]));
        }
        lemma_sizes_kept_over_run(init);
        assert forall|i: int| 0 <= i < run.len() implies #[trigger] run[i].keeps_sizes(&run[0]) by {
            if i < init.len() {
                assert(init[i].keeps_sizes(&init[0]));
            } else {
                assert(run[i].keeps_sizes(&run[i - 1]));
                assert(init[i - 1].keeps_sizes(&init[0]));
            }
        }
    }
}

/// What a snapshot sets up depends on its rows alone: two depths that have
/// each taken the same rows hold the same levels and the same best ticks and
/// bounds, whatever they held before. In particular, taking a snapshot twice
/// leaves what taking it once does.
pub proof fn lemma_snapshot_forgets_prior_state(
    a: FusedHashMapMarketDepth,
    b: FusedHashMapMarketDepth,
    rows: Seq<SnapshotRow>,
)
    requires
        a.holds_snapshot(rows),
        b.holds_snapshot(rows),
    ensures
        a.bid_depth@ == b.bid_depth@,
        a.ask_depth@ == b.ask_depth@,
        a.top() == (TopOfBook {
            best_bid_timestamp: a.best_bid_timestamp,
            best_ask_timestamp: a.best_ask_timestamp,
            ..b.top()
        }),
{
}

/// A bid feed with a nonzero lot count at `tick` widens the lowest bid bound
/// down to `tick` (and no further), whatever its time relative to the best
/// bid, so that later scans down from the best bid reach its level.
pub proof fn lemma_nonzero_bid_feed_widens_low_bound(
    t: TopOfBook,
    bid: Map<i32, QtyTimestamp>,
    ask: Map<i32, QtyTimestamp>,
    tick: i32,
    qty_lot: i32,
    ts: i64,
)
    requires
        qty_lot != 0,
    ensures
        top_after_bid_update(t, bid, ask, tick, qty_lot, ts).low_bid_tick == if tick < t.low_bid_tick {
            tick
        } else {
            t.low_bid_tick
        },
{
}

/// An ask feed with a nonzero lot count at `tick` widens the highest ask bound
/// up to `tick` (and no further), whatever its time and whatever the bid side
/// holds, so that later scans up from the best ask reach its level.
pub proof fn lemma_nonzero_ask_feed_widens_high_bound(
    t: TopOfBook,
    bid: Map<i32, QtyTimestamp>,
    ask: Map<i32, QtyTimestamp>,
    tick: i32,
    qty_lot: i32,
    ts: i64,
)
    requires
        qty_lot != 0,
    ensures
        top_after_ask_update(t, bid, ask, tick, qty_lot, ts).high_ask_tick == if tick > t.high_ask_tick {
            tick
        } else {
            t.high_ask_tick
        },
{
}

/// Two calls: a bid feed sets a positive level at `p` below the best bid,
/// whatever its time; then the best bid is deleted. The new best bid is a
/// positive level at or above `p`, and below the deleted one.
pub proof fn lemma_deleting_best_bid_reaches_lower_level(
    t0: TopOfBook,
    bid0: Map<i32, QtyTimestamp>,
    ask: Map<i32, QtyTimestamp>,
    p: i32,
    qty_lot: i32,
    qty: u32,
    ts1: i64,
    ts2: i64,
    qty2: u32,
)
    requires
        qty_lot != 0,
        has_positive(level_after_update(bid0, p, qty_lot, qty, ts1), p as int),
        p < top_after_bid_update(t0, level_after_update(bid0, p, qty_lot, qty, ts1), ask, p, qty_lot, ts1).best_bid_tick,
        ts2 >= top_after_bid_update(t0, level_after_update(bid0, p, qty_lot, qty, ts1), ask, p, qty_lot, ts1).best_bid_timestamp,
    ensures
        ({
            let bid1 = level_after_update(bid0, p, qty_lot, qty, ts1);
            let t1 = top_after_bid_update(t0, bid1, ask, p, qty_lot, ts1);
            let bid2 = level_after_update(bid1, t1.best_bid_tick, 0, qty2, ts2);
            let t2 = top_after_bid_update(t1, bid2, ask, t1.best_bid_tick, 0, ts2);
            &&& p <= t2.best_bid_tick < t1.best_bid_tick
            &&& has_positive(bid2, t2.best_bid_tick as int)
        }),
{
    let bid1 = level_after_update(bid0, p, qty_lot, qty, ts1);
    let t1 = top_after_bid_update(t0, bid1, ask, p, qty_lot, ts1);
    let bid2 = level_after_update(bid1, t1.best_bid_tick, 0, qty2, ts2);
    lemma_nonzero_bid_feed_widens_low_bound(t0, bid1, ask, p, qty_lot, ts1);
    assert(has_positive(bid2, p as int));
    lemma_highest_positive_below(bid2, t1.best_bid_tick as int, t1.low_bid_tick as int);
}

/// Two calls: an ask feed sets a positive level at `p` above the best ask,
/// whatever its time and whatever the bid side holds; then the best ask is
/// deleted. The new best ask is a positive level at or below `p`, and above the
/// deleted one.
pub proof fn lemma_deleting_best_ask_reaches_higher_level(
    t0: TopOfBook,
    bid: Map<i32, QtyTimestamp>,
    ask0: Map<i32, QtyTimestamp>,
    p: i32,
    qty_lot: i32,
    qty: u32,
    ts1: i64,
    ts2: i64,
    qty2: u32,
)
    requires
        qty_lot != 0,
        has_positive(level_after_update(ask0, p, qty_lot, qty, ts1), p as int),
        top_after_ask_update(t0, bid, level_after_update(ask0, p, qty_lot, qty, ts1), p, qty_lot, ts1).best_ask_tick < p,
        ts2 >= top_after_ask_update(t0, bid, level_after_update(ask0, p, qty_lot, qty, ts1), p, qty_lot, ts1).best_ask_timestamp,
    ensures
        ({
            let ask1 = level_after_update(ask0, p, qty_lot, qty, ts1);
            let t1 = top_after_ask_update(t0, bid, ask1, p, qty_lot, ts1);
            let ask2 = level_after_update(ask1, t1.best_ask_tick, 0, qty2, ts2);
            let t2 = top_after_ask_update(t1, bid, ask2, t1.best_ask_tick, 0, ts2);
            &&& t1.best_ask_tick < t2.best_ask_tick <= p
            &&& has_positive(ask2, t2.best_ask_tick as int)
        }),
{
    let ask1 = level_after_update(ask0, p, qty_lot, qty, ts1);
    let t1 = top_after_ask_update(t0, bid, ask1, p, qty_lot, ts1);
    let ask2 = level_after_update(ask1, t1.best_ask_tick, 0, qty2, ts2);
    lemma_nonzero_ask_feed_widens_high_bound(t0, bid, ask1, p, qty_lot, ts1);
    assert(has_positive(ask2, p as int));
    lemma_lowest_positive_above(ask2, t1.best_ask_tick as int, t1.high_ask_tick as int);
}

/// Clearing a tick range removes exactly the levels in it: every level outside
/// `[lo, hi]` stays as it was, none inside remains, and an empty range
/// (`lo > hi`) changes nothing.
pub proof fn lemma_without_range_removes_only_range(m: Map<i32, QtyTimestamp>, lo: int, hi: int)
    ensures
        forall|k: i32|
            #[trigger] without_range(m, lo, hi).contains_key(k) <==> (m.contains_key(k) && !(lo <= k <= hi)),
        forall|k: i32| #[trigger] without_range(m, lo, hi).contains_key(k) ==> without_range(m, lo, hi)[k] == m[k],
        lo > hi ==> without_range(m, lo, hi) == m,
{
    if lo > hi {
        assert(without_range(m, lo, hi) =~= m);
    }
}

/// A snapshot sorts its rows by their flag bits alone, whatever other bits
/// they carry: a row with the `BUY` bit sets a bid level at its tick, which the
/// best bid and the lowest bid bound enclose; a row without it but with the
/// `SELL` bit sets an ask level, which the best ask and the highest ask bound
/// enclose; the last such row at a tick gives the level; no other level
/// exists; and each best price and bound is some such row's tick, or the
/// sentinel where the side has no row.
pub proof fn lemma_snapshot_sides_follow_flag_bits(d: FusedHashMapMarketDepth, rows: Seq<SnapshotRow>)
    requires
        d.holds_snapshot(rows),
    ensures
        forall|i: int|
            0 <= i < rows.len() && #[trigger] rows[i].ev & BUY == BUY ==> {
                &&& d.bid_depth@.contains_key(rows[i].price_tick)
                &&& d.low_bid_tick <= rows[i].price_tick <= d.best_bid_tick
            },
        forall|i: int|
            0 <= i < rows.len() && #[trigger] rows[i].ev & BUY != BUY && rows[i].ev & SELL == SELL ==> {
                &&& d.ask_depth@.contains_key(rows[i].price_tick)
                &&& d.best_ask_tick <= rows[i].price_tick <= d.high_ask_tick
            },
        forall|i: int|
            0 <= i < rows.len() && #[trigger] rows[i].ev & BUY == BUY && (forall|j: int|
                i < j < rows.len() && #[trigger] rows[j].ev & BUY == BUY ==> rows[j].price_tick != rows[i].price_tick)
                ==> d.bid_depth@[rows[i].price_tick] == (QtyTimestamp { qty: rows[i].qty, timestamp: rows[i].exch_ts }),
        forall|k: i32|
            #[trigger] d.bid_depth@.contains_key(k) ==> exists|i: int|
                0 <= i < rows.len() && #[trigger] rows[i].ev & BUY == BUY && rows[i].price_tick == k,
        forall|k: i32|
            #[trigger] d.ask_depth@.contains_key(k) ==> exists|i: int|
                0 <= i < rows.len() && #[trigger] rows[i].ev & BUY != BUY && rows[i].ev & SELL == SELL
                    && rows[i].price_tick == k,
        d.best_bid_tick == INVALID_MIN || exists|i: int|
            0 <= i < rows.len() && #[trigger] rows[i].ev & BUY == BUY && rows[i].price_tick == d.best_bid_tick,
        d.low_bid_tick == INVALID_MAX || exists|i: int|
            0 <= i < rows.len() && #[trigger] rows[i].ev & BUY == BUY && rows[i].price_tick == d.low_bid_tick,
        d.best_ask_tick == INVALID_MAX || exists|i: int|
            0 <= i < rows.len() && #[trigger] rows[i].ev & BUY != BUY && rows[i].ev & SELL == SELL
                && rows[i].price_tick == d.best_ask_tick,
        d.high_ask_tick == INVALID_MIN || exists|i: int|
            0 <= i < rows.len() && #[trigger] rows[i].ev & BUY != BUY && rows[i].ev & SELL == SELL
                && rows[i].price_tick == d.high_ask_tick,
{
    lemma_snapshot_levels(rows, true);
    lemma_snapshot_levels(rows, false);
    lemma_snapshot_extremes(rows, true);
    lemma_snapshot_extremes(rows, false);
}

} // verus!
