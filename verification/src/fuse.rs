use vstd::prelude::*;
use std::collections::HashMap;
use crate::types::{
    QtyTimestamp, L3Order, Side, BacktestError, SnapshotRow, INVALID_MIN, INVALID_MAX, BUY, SELL,
};
use crate::laws::{lemma_snapshot_extremes, lemma_snapshot_levels};
use crate::scan::{
    depth_below, depth_above, highest_positive_below, lowest_positive_above,
    lemma_highest_positive_below, lemma_lowest_positive_above,
};

verus! {

broadcast use vstd::std_specs::hash::group_hash_axioms;

/// L2/L3 market depth based on hash maps.
///
/// Besides the levels of each side it tracks the latest best bid and best ask,
/// with the time of the feed that set each, so that a missing feed cannot
/// leave a deleted best price in place.
///
/// Prices are integer ticks; quantities, the tick size and the lot size are
/// carried as IEEE-754 single-precision bit patterns.
pub struct FusedHashMapMarketDepth {
    pub tick_size: u32,
    pub lot_size: u32,
    pub timestamp: i64,
    pub ask_depth: HashMap<i32, QtyTimestamp>,
    pub bid_depth: HashMap<i32, QtyTimestamp>,
    pub best_bid_tick: i32,
    pub best_ask_tick: i32,
    pub best_bid_timestamp: i64,
    pub best_ask_timestamp: i64,
    pub low_bid_tick: i32,
    pub high_ask_tick: i32,
    pub orders: HashMap<i64, L3Order>,
}

/// The best prices of a depth, the feed times that set them, and the range
/// that bounds the bid levels from below and the ask levels from above.
pub struct TopOfBook {
    pub best_bid_tick: i32,
    pub best_ask_tick: i32,
    pub best_bid_timestamp: i64,
    pub best_ask_timestamp: i64,
    pub low_bid_tick: i32,
    pub high_ask_tick: i32,
}

/// The quantity at `tick`: that of its level, or zero where there is none.
pub open spec fn qty_at(m: Map<i32, QtyTimestamp>, tick: i32) -> u32 {
    if m.contains_key(tick) {
        m[tick].qty
    } else {
        0
    }
}

/// The levels of one side after a feed of quantity `qty` (`qty_lot` lots) at
/// `tick` and time `ts`: a feed older than or as old as the level it meets is
/// ignored; otherwise a positive lot count sets the level and any other
/// removes it.
pub open spec fn level_after_update(
    m: Map<i32, QtyTimestamp>,
    tick: i32,
    qty_lot: i32,
    qty: u32,
    ts: i64,
) -> Map<i32, QtyTimestamp> {
    if m.contains_key(tick) {
        if ts > m[tick].timestamp {
            if qty_lot > 0 {
                m.insert(tick, QtyTimestamp { qty, timestamp: ts })
            } else {
                m.remove(tick)
            }
        } else {
            m
        }
    } else if qty_lot > 0 {
        m.insert(tick, QtyTimestamp { qty, timestamp: ts })
    } else {
        m
    }
}

/// `m` without the levels whose ticks lie in `[lo, hi]`.
pub open spec fn without_range(m: Map<i32, QtyTimestamp>, lo: int, hi: int) -> Map<i32, QtyTimestamp> {
    Map::new(|k: i32| m.contains_key(k) && !(lo <= k <= hi), |k: i32| m[k])
}

/// A snapshot row of the bid side.
pub open spec fn is_bid_row(r: SnapshotRow) -> bool {
    r.ev & BUY == BUY
}

/// A snapshot row of the ask side (a row flagged both ways counts as a bid).
pub open spec fn is_ask_row(r: SnapshotRow) -> bool {
    !is_bid_row(r) && r.ev & SELL == SELL
}

pub open spec fn on_side(r: SnapshotRow, bid: bool) -> bool {
    if bid {
        is_bid_row(r)
    } else {
        is_ask_row(r)
    }
}

/// The levels of one side that a snapshot sets up: each row of that side
/// sets the level at its tick, a later row overriding an earlier one.
pub open spec fn snapshot_levels(rows: Seq<SnapshotRow>, bid: bool) -> Map<i32, QtyTimestamp>
    decreases rows.len(),
{
    if rows.len() == 0 {
        Map::empty()
    } else {
        let m = snapshot_levels(rows.drop_last(), bid);
        let r = rows.last();
        if on_side(r, bid) {
            m.insert(r.price_tick, QtyTimestamp { qty: r.qty, timestamp: r.exch_ts })
        } else {
            m
        }
    }
}

/// The highest tick among the snapshot rows of one side, or `INVALID_MIN`.
pub open spec fn snapshot_max_tick(rows: Seq<SnapshotRow>, bid: bool) -> i32
    decreases rows.len(),
{
    if rows.len() == 0 {
        INVALID_MIN
    } else {
        let t = snapshot_max_tick(rows.drop_last(), bid);
        if on_side(rows.last(), bid) {
            max_tick(t, rows.last().price_tick)
        } else {
            t
        }
    }
}

/// The lowest tick among the snapshot rows of one side, or `INVALID_MAX`.
pub open spec fn snapshot_min_tick(rows: Seq<SnapshotRow>, bid: bool) -> i32
    decreases rows.len(),
{
    if rows.len() == 0 {
        INVALID_MAX
    } else {
        let t = snapshot_min_tick(rows.drop_last(), bid);
        if on_side(rows.last(), bid) {
            min_tick(t, rows.last().price_tick)
        } else {
            t
        }
    }
}

/// No row that belongs to a side is at `INVALID_MAX`.
pub open spec fn snapshot_ticks_in_range(rows: Seq<SnapshotRow>) -> bool {
    forall|i: int|
        0 <= i < rows.len() && (is_bid_row(#[trigger] rows[i]) || is_ask_row(rows[i]))
            ==> rows[i].price_tick < INVALID_MAX
}

/// The time stamped on the level at `tick`, or zero where there is none.
pub open spec fn timestamp_at(m: Map<i32, QtyTimestamp>, tick: i32) -> i64 {
    if m.contains_key(tick) {
        m[tick].timestamp
    } else {
        0
    }
}

pub open spec fn min_tick(a: i32, b: i32) -> i32 {
    if a <= b { a } else { b }
}

pub open spec fn max_tick(a: i32, b: i32) -> i32 {
    if a >= b { a } else { b }
}

/// The top of the book after a bid feed at `tick`, given the bid levels after
/// the feed (`bid`) and the ask levels (`ask`).
///
/// A feed with zero lots at the best bid, no older than it, moves the best bid
/// down to the next positive level. Any other lot count, at or above the best
/// bid and no older than it, makes `tick` the best bid; where that crosses the
/// best ask, the older of the two sides gives way: the best ask moves up past
/// the bid, or the bid moves down below the ask.
pub open spec fn top_after_bid_update(
    t: TopOfBook,
    bid: Map<i32, QtyTimestamp>,
    ask: Map<i32, QtyTimestamp>,
    tick: i32,
    qty_lot: i32,
    ts: i64,
) -> TopOfBook {
    if qty_lot == 0 {
        if tick == t.best_bid_tick && ts >= t.best_bid_timestamp {
            let nb = highest_positive_below(bid, t.best_bid_tick as int, t.low_bid_tick as int) as i32;
            TopOfBook {
                best_bid_tick: nb,
                best_bid_timestamp: ts,
                low_bid_tick: if nb == INVALID_MIN { INVALID_MAX } else { t.low_bid_tick },
                ..t
            }
        } else {
            t
        }
    } else {
        let t1 = if tick >= t.best_bid_tick && ts >= t.best_bid_timestamp {
            if tick >= t.best_ask_tick {
                if ts >= t.best_ask_timestamp {
                    TopOfBook {
                        best_bid_tick: tick,
                        best_bid_timestamp: ts,
                        best_ask_tick: lowest_positive_above(ask, tick as int, t.high_ask_tick as int) as i32,
                        best_ask_timestamp: ts,
                        ..t
                    }
                } else {
                    TopOfBook {
                        best_bid_tick: highest_positive_below(bid, t.best_ask_tick as int, t.low_bid_tick as int) as i32,
                        best_bid_timestamp: t.best_ask_timestamp,
                        ..t
                    }
                }
            } else {
                TopOfBook { best_bid_tick: tick, best_bid_timestamp: ts, ..t }
            }
        } else {
            t
        };
        TopOfBook { low_bid_tick: min_tick(t1.low_bid_tick, tick), ..t1 }
    }
}

/// The top of the book after an ask feed at `tick`, given the ask levels after
/// the feed (`ask`) and the bid levels (`bid`); the mirror image of
/// `top_after_bid_update`.
pub open spec fn top_after_ask_update(
    t: TopOfBook,
    bid: Map<i32, QtyTimestamp>,
    ask: Map<i32, QtyTimestamp>,
    tick: i32,
    qty_lot: i32,
    ts: i64,
) -> TopOfBook {
    if qty_lot == 0 {
        if tick == t.best_ask_tick && ts >= t.best_ask_timestamp {
            let na = lowest_positive_above(ask, t.best_ask_tick as int, t.high_ask_tick as int) as i32;
            TopOfBook {
                best_ask_tick: na,
                best_ask_timestamp: ts,
                high_ask_tick: if na == INVALID_MAX { INVALID_MIN } else { t.high_ask_tick },
                ..t
            }
        } else {
            t
        }
    } else {
        let t1 = if tick <= t.best_ask_tick && ts >= t.best_ask_timestamp {
            if t.best_bid_tick >= tick {
                if ts >= t.best_bid_timestamp {
                    TopOfBook {
                        best_ask_tick: tick,
                        best_ask_timestamp: ts,
                        best_bid_tick: highest_positive_below(bid, tick as int, t.low_bid_tick as int) as i32,
                        best_bid_timestamp: ts,
                        ..t
                    }
                } else {
                    TopOfBook {
                        best_ask_tick: lowest_positive_above(ask, t.best_bid_tick as int, t.high_ask_tick as int) as i32,
                        best_ask_timestamp: t.best_bid_timestamp,
                        ..t
                    }
                }
            } else {
                TopOfBook { best_ask_tick: tick, best_ask_timestamp: ts, ..t }
            }
        } else {
            t
        };
        TopOfBook { high_ask_tick: max_tick(t1.high_ask_tick, tick), ..t1 }
    }
}

impl FusedHashMapMarketDepth {
    /// Well-formedness: the two ticks from which the book scans upwards, the
    /// best bid and the highest ask bound, are never `INVALID_MAX`, so that the
    /// tick above them exists.
    pub open spec fn wf(&self) -> bool {
        &&& self.best_bid_tick < INVALID_MAX
        &&& self.high_ask_tick < INVALID_MAX
    }

    pub open spec fn top(&self) -> TopOfBook {
        TopOfBook {
            best_bid_tick: self.best_bid_tick,
            best_ask_tick: self.best_ask_tick,
            best_bid_timestamp: self.best_bid_timestamp,
            best_ask_timestamp: self.best_ask_timestamp,
            low_bid_tick: self.low_bid_tick,
            high_ask_tick: self.high_ask_tick,
        }
    }

    /// The depth holds exactly what a snapshot of `rows` sets up, whatever it
    /// held before.
    pub open spec fn holds_snapshot(&self, rows: Seq<SnapshotRow>) -> bool {
        &&& self.bid_depth@ == snapshot_levels(rows, true)
        &&& self.ask_depth@ == snapshot_levels(rows, false)
        &&& self.best_bid_tick == snapshot_max_tick(rows, true)
        &&& self.low_bid_tick == snapshot_min_tick(rows, true)
        &&& self.best_ask_tick == snapshot_min_tick(rows, false)
        &&& self.high_ask_tick == snapshot_max_tick(rows, false)
    }

    /// The tick size and the lot size are those of `before`.
    pub open spec fn keeps_sizes(&self, before: &Self) -> bool {
        &&& self.tick_size == before.tick_size
        &&& self.lot_size == before.lot_size
    }

    /// The settings and order records, which a depth feed leaves alone.
    pub open spec fn same_settings(&self, other: &Self) -> bool {
        &&& self.tick_size == other.tick_size
        &&& self.lot_size == other.lot_size
        &&& self.timestamp == other.timestamp
        &&& self.orders@ == other.orders@
    }

    /// An empty depth with the given tick and lot sizes (bit patterns).
    pub fn new(tick_size: u32, lot_size: u32) -> (r: Self)
        ensures
            r.wf(),
            r.tick_size == tick_size,
            r.lot_size == lot_size,
            r.timestamp == 0,
            r.ask_depth@ == Map::<i32, QtyTimestamp>::empty(),
            r.bid_depth@ == Map::<i32, QtyTimestamp>::empty(),
            r.orders@ == Map::<i64, L3Order>::empty(),
            r.best_bid_tick == INVALID_MIN,
            r.best_ask_tick == INVALID_MAX,
            r.best_bid_timestamp == 0,
            r.best_ask_timestamp == 0,
            r.low_bid_tick == INVALID_MAX,
            r.high_ask_tick == INVALID_MIN,
    {
        FusedHashMapMarketDepth {
            tick_size,
            lot_size,
            timestamp: 0,
            ask_depth: HashMap::new(),
            bid_depth: HashMap::new(),
            best_bid_tick: INVALID_MIN,
            best_ask_tick: INVALID_MAX,
            best_bid_timestamp: 0,
            best_ask_timestamp: 0,
            low_bid_tick: INVALID_MAX,
            high_ask_tick: INVALID_MIN,
            orders: HashMap::new(),
        }
    }
}

/// Applies a feed to the levels of one side and returns the quantity the
/// level held before (zero where there was none).
fn update_level(
    depth: &mut HashMap<i32, QtyTimestamp>,
    tick: i32,
    qty_lot: i32,
    qty: u32,
    ts: i64,
) -> (prev_qty: u32)
    ensures
        final(depth)@ == level_after_update(old(depth)@, tick, qty_lot, qty, ts),
        prev_qty == qty_at(old(depth)@, tick),
{
    let found: Option<QtyTimestamp> = match depth.get(&tick) {
        Some(level) => Some(*level),
        None => None,
    };
    match found {
        Some(level) => {
            if ts > level.timestamp {
                if qty_lot > 0 {
                    let _ = depth.insert(tick, QtyTimestamp { qty, timestamp: ts });
                } else {
                    let _ = depth.remove(&tick);
                }
            }
            level.qty
        },
        None => {
            if qty_lot > 0 {
                let _ = depth.insert(tick, QtyTimestamp { qty, timestamp: ts });
            }
            0
        },
    }
}

/// Removes the levels at the ticks `lo..stop`.
fn remove_range(depth: &mut HashMap<i32, QtyTimestamp>, lo: i32, stop: i32)
    ensures
        final(depth)@ == without_range(old(depth)@, lo as int, stop - 1),
{
    let ghost orig = depth@;
    let mut t: i32 = lo;
    assert(depth@ =~= without_range(orig, lo as int, lo - 1));
    while t < stop
        invariant
            lo <= t,
            t == lo || t <= stop,
            depth@ == without_range(orig, lo as int, t - 1),
        decreases stop - t,
    {
        if depth.contains_key(&t) {
            let _ = depth.remove(&t);
        }
        assert(depth@ =~= without_range(orig, lo as int, t as int));
        t = t + 1;
    }
    assert(depth@ =~= without_range(orig, lo as int, stop - 1));
}

impl FusedHashMapMarketDepth {
    /// Applies a bid-side feed: `qty` (bit pattern) worth `qty_lot` lots at
    /// `price_tick`, stamped `timestamp`. Returns the tick, the best bid before
    /// and after, the level's quantity before, `qty`, and `timestamp`.
    /// A nonzero feed at `INVALID_MAX` that would take the best bid and meet the
    /// best ask as no older than it is refused: the scan above it would step
    /// past the largest tick.
    pub fn update_bid_depth(&mut self, price_tick: i32, qty_lot: i32, qty: u32, timestamp: i64) -> (r: (
        i32,
        i32,
        i32,
        u32,
        u32,
        i64,
    ))
        requires
            old(self).wf(),
            price_tick == INVALID_MAX ==> !(qty_lot != 0 && timestamp >= old(self).best_bid_timestamp
                && timestamp >= old(self).best_ask_timestamp),
        ensures
            final(self).wf(),
            final(self).same_settings(old(self)),
            final(self).keeps_sizes(old(self)),
            final(self).bid_depth@ == level_after_update(old(self).bid_depth@, price_tick, qty_lot, qty, timestamp),
            final(self).ask_depth@ == old(self).ask_depth@,
            final(self).top() == top_after_bid_update(
                old(self).top(),
                final(self).bid_depth@,
                old(self).ask_depth@,
                price_tick,
                qty_lot,
                timestamp,
            ),
            r == (
                price_tick,
                old(self).best_bid_tick,
                final(self).best_bid_tick,
                qty_at(old(self).bid_depth@, price_tick),
                qty,
                timestamp,
            ),
            old(self).best_bid_tick < old(self).best_ask_tick ==> final(self).best_bid_tick
                < final(self).best_ask_tick,
            qty_lot != 0 ==> final(self).low_bid_tick == if price_tick < old(self).low_bid_tick {
                price_tick
            } else {
                old(self).low_bid_tick
            },
    {
        let prev_best_bid_tick = self.best_bid_tick;
        let prev_qty = update_level(&mut self.bid_depth, price_tick, qty_lot, qty, timestamp);
        proof {
            lemma_highest_positive_below(self.bid_depth@, self.best_bid_tick as int, self.low_bid_tick as int);
            lemma_highest_positive_below(self.bid_depth@, self.best_ask_tick as int, self.low_bid_tick as int);
            lemma_lowest_positive_above(self.ask_depth@, price_tick as int, self.high_ask_tick as int);
        }
        if qty_lot == 0 {
            if price_tick == self.best_bid_tick && timestamp >= self.best_bid_timestamp {
                self.best_bid_tick = depth_below(&self.bid_depth, self.best_bid_tick, self.low_bid_tick);
                self.best_bid_timestamp = timestamp;
                if self.best_bid_tick == INVALID_MIN {
                    self.low_bid_tick = INVALID_MAX;
                }
            }
        } else {
            if price_tick >= self.best_bid_tick && timestamp >= self.best_bid_timestamp {
                self.best_bid_tick = price_tick;
                self.best_bid_timestamp = timestamp;
                if self.best_bid_tick >= self.best_ask_tick {
                    if timestamp >= self.best_ask_timestamp {
                        self.best_ask_tick = depth_above(&self.ask_depth, self.best_bid_tick, self.high_ask_tick);
                        self.best_ask_timestamp = timestamp;
                    } else {
                        self.best_bid_tick = depth_below(&self.bid_depth, self.best_ask_tick, self.low_bid_tick);
                        self.best_bid_timestamp = self.best_ask_timestamp;
                    }
                }
            }
            if price_tick < self.low_bid_tick {
                self.low_bid_tick = price_tick;
            }
        }
        (price_tick, prev_best_bid_tick, self.best_bid_tick, prev_qty, qty, timestamp)
    }

    /// Applies an ask-side feed: `qty` (bit pattern) worth `qty_lot` lots at
    /// `price_tick`, stamped `timestamp`. Returns the tick, the best ask before
    /// and after, the level's quantity before, `qty`, and `timestamp`.
    /// At `INVALID_MAX` only a zero feed that does not delete the best ask is
    /// taken: a deletion there would scan past the largest tick, and a nonzero
    /// feed would make `INVALID_MAX` the highest ask bound.
    pub fn update_ask_depth(&mut self, price_tick: i32, qty_lot: i32, qty: u32, timestamp: i64) -> (r: (
        i32,
        i32,
        i32,
        u32,
        u32,
        i64,
    ))
        requires
            old(self).wf(),
            price_tick == INVALID_MAX ==> qty_lot == 0 && !(old(self).best_ask_tick == INVALID_MAX
                && timestamp >= old(self).best_ask_timestamp),
        ensures
            final(self).wf(),
            final(self).same_settings(old(self)),
            final(self).keeps_sizes(old(self)),
            final(self).ask_depth@ == level_after_update(old(self).ask_depth@, price_tick, qty_lot, qty, timestamp),
            final(self).bid_depth@ == old(self).bid_depth@,
            final(self).top() == top_after_ask_update(
                old(self).top(),
                old(self).bid_depth@,
                final(self).ask_depth@,
                price_tick,
                qty_lot,
                timestamp,
            ),
            r == (
                price_tick,
                old(self).best_ask_tick,
                final(self).best_ask_tick,
                qty_at(old(self).ask_depth@, price_tick),
                qty,
                timestamp,
            ),
            old(self).best_bid_tick < old(self).best_ask_tick && price_tick != INVALID_MIN ==> final(self).best_bid_tick
                < final(self).best_ask_tick,
            qty_lot != 0 ==> final(self).high_ask_tick == if price_tick > old(self).high_ask_tick {
                price_tick
            } else {
                old(self).high_ask_tick
            },
    {
        let prev_best_ask_tick = self.best_ask_tick;
        let prev_qty = update_level(&mut self.ask_depth, price_tick, qty_lot, qty, timestamp);
        proof {
            lemma_lowest_positive_above(self.ask_depth@, self.best_ask_tick as int, self.high_ask_tick as int);
            lemma_lowest_positive_above(self.ask_depth@, self.best_bid_tick as int, self.high_ask_tick as int);
            lemma_highest_positive_below(self.bid_depth@, price_tick as int, self.low_bid_tick as int);
        }
        if qty_lot == 0 {
            if price_tick == self.best_ask_tick && timestamp >= self.best_ask_timestamp {
                self.best_ask_tick = depth_above(&self.ask_depth, self.best_ask_tick, self.high_ask_tick);
                self.best_ask_timestamp = timestamp;
                if self.best_ask_tick == INVALID_MAX {
                    self.high_ask_tick = INVALID_MIN;
                }
            }
        } else {
            if price_tick <= self.best_ask_tick && timestamp >= self.best_ask_timestamp {
                self.best_ask_tick = price_tick;
                self.best_ask_timestamp = timestamp;
                if self.best_bid_tick >= self.best_ask_tick {
                    if timestamp >= self.best_bid_timestamp {
                        self.best_bid_tick = depth_below(&self.bid_depth, self.best_ask_tick, self.low_bid_tick);
                        self.best_bid_timestamp = timestamp;
                    } else {
                        self.best_ask_tick = depth_above(&self.ask_depth, self.best_bid_tick, self.high_ask_tick);
                        self.best_ask_timestamp = self.best_bid_timestamp;
                    }
                }
            }
            if price_tick > self.high_ask_tick {
                self.high_ask_tick = price_tick;
            }
        }
        (price_tick, prev_best_ask_tick, self.best_ask_tick, prev_qty, qty, timestamp)
    }

    /// Clears one side up to a price tick: with `side == BUY` the bid levels
    /// from `clear_upto` up to the best bid, with `side == SELL` the ask levels
    /// from the best ask up to `clear_upto`; then the best price of that side
    /// is looked up again, starting two ticks beyond `clear_upto` (at
    /// `clear_upto - 2` for bids, `clear_upto + 2` for asks). With any other
    /// `side` both sides are cleared.
    pub fn clear_depth(&mut self, side: i64, clear_upto: i32)
        requires
            old(self).wf(),
            side == BUY ==> clear_upto > INVALID_MIN,
            side == SELL ==> clear_upto < INVALID_MAX - 1,
        ensures
            final(self).wf(),
            final(self).same_settings(old(self)),
            final(self).keeps_sizes(old(self)),
            final(self).best_bid_timestamp == old(self).best_bid_timestamp,
            final(self).best_ask_timestamp == old(self).best_ask_timestamp,
            side == BUY ==> {
                let bid = if old(self).best_bid_tick != INVALID_MIN {
                    without_range(old(self).bid_depth@, clear_upto as int, old(self).best_bid_tick as int)
                } else {
                    old(self).bid_depth@
                };
                &&& final(self).bid_depth@ == bid
                &&& final(self).ask_depth@ == old(self).ask_depth@
                &&& final(self).best_bid_tick == highest_positive_below(bid, clear_upto - 1, old(self).low_bid_tick as int)
                &&& final(self).low_bid_tick == if final(self).best_bid_tick == INVALID_MIN {
                    INVALID_MAX
                } else {
                    old(self).low_bid_tick
                }
                &&& final(self).best_ask_tick == old(self).best_ask_tick
                &&& final(self).high_ask_tick == old(self).high_ask_tick
                &&& final(self).best_bid_tick < clear_upto
                &&& old(self).best_bid_tick != INVALID_MIN ==> forall|t: i32|
                    clear_upto <= t <= old(self).best_bid_tick ==> !#[trigger] final(self).bid_depth@.contains_key(t)
                &&& forall|k: i32|
                    k < clear_upto || k > old(self).best_bid_tick || old(self).best_bid_tick == INVALID_MIN ==> {
                        &&& #[trigger] final(self).bid_depth@.contains_key(k) == old(self).bid_depth@.contains_key(k)
                        &&& old(self).bid_depth@.contains_key(k) ==> final(self).bid_depth@[k] == old(self).bid_depth@[k]
                    }
            },
            side == SELL ==> {
                let ask = if old(self).best_ask_tick != INVALID_MAX {
                    without_range(old(self).ask_depth@, old(self).best_ask_tick as int, clear_upto as int)
                } else {
                    old(self).ask_depth@
                };
                &&& final(self).ask_depth@ == ask
                &&& final(self).bid_depth@ == old(self).bid_depth@
                &&& final(self).best_ask_tick == lowest_positive_above(ask, clear_upto + 1, old(self).high_ask_tick as int)
                &&& final(self).high_ask_tick == if final(self).best_ask_tick == INVALID_MAX {
                    INVALID_MIN
                } else {
                    old(self).high_ask_tick
                }
                &&& final(self).best_bid_tick == old(self).best_bid_tick
                &&& final(self).low_bid_tick == old(self).low_bid_tick
                &&& final(self).best_ask_tick > clear_upto
                &&& old(self).best_ask_tick != INVALID_MAX ==> forall|t: i32|
                    old(self).best_ask_tick <= t <= clear_upto ==> !#[trigger] final(self).ask_depth@.contains_key(t)
                &&& forall|k: i32|
                    k < old(self).best_ask_tick || k > clear_upto || old(self).best_ask_tick == INVALID_MAX ==> {
                        &&& #[trigger] final(self).ask_depth@.contains_key(k) == old(self).ask_depth@.contains_key(k)
                        &&& old(self).ask_depth@.contains_key(k) ==> final(self).ask_depth@[k] == old(self).ask_depth@[k]
                    }
            },
            side != BUY && side != SELL ==> {
                &&& final(self).bid_depth@ == Map::<i32, QtyTimestamp>::empty()
                &&& final(self).ask_depth@ == Map::<i32, QtyTimestamp>::empty()
                &&& final(self).best_bid_tick == INVALID_MIN
                &&& final(self).best_ask_tick == INVALID_MAX
                &&& final(self).low_bid_tick == INVALID_MAX
                &&& final(self).high_ask_tick == INVALID_MIN
            },
    {
        if side == BUY {
            if self.best_bid_tick != INVALID_MIN {
                remove_range(&mut self.bid_depth, clear_upto, self.best_bid_tick + 1);
            }
            proof {
                lemma_highest_positive_below(self.bid_depth@, clear_upto - 1, self.low_bid_tick as int);
            }
            self.best_bid_tick = depth_below(&self.bid_depth, clear_upto - 1, self.low_bid_tick);
            if self.best_bid_tick == INVALID_MIN {
                self.low_bid_tick = INVALID_MAX;
            }
        } else if side == SELL {
            if self.best_ask_tick != INVALID_MAX {
                remove_range(&mut self.ask_depth, self.best_ask_tick, clear_upto + 1);
            }
            proof {
                lemma_lowest_positive_above(self.ask_depth@, clear_upto + 1, self.high_ask_tick as int);
            }
            self.best_ask_tick = depth_above(&self.ask_depth, clear_upto + 1, self.high_ask_tick);
            if self.best_ask_tick == INVALID_MAX {
                self.high_ask_tick = INVALID_MIN;
            }
        } else {
            self.bid_depth.clear();
            self.ask_depth.clear();
            self.best_bid_tick = INVALID_MIN;
            self.best_ask_tick = INVALID_MAX;
            self.low_bid_tick = INVALID_MAX;
            self.high_ask_tick = INVALID_MIN;
        }
    }

    /// Replaces both sides with a snapshot: every bid row sets the bid level
    /// at its tick and every ask row the ask level; the best bid is the highest
    /// bid row and the best ask the lowest ask row. What it sets up depends on
    /// the rows alone. A row of a side at `INVALID_MAX` leaves the depth not
    /// well-formed, which the other updates refuse.
    pub fn apply_snapshot(&mut self, rows: &Vec<SnapshotRow>)
        ensures
            snapshot_ticks_in_range(rows@) ==> final(self).wf(),
            final(self).same_settings(old(self)),
            final(self).keeps_sizes(old(self)),
            final(self).best_bid_timestamp == old(self).best_bid_timestamp,
            final(self).best_ask_timestamp == old(self).best_ask_timestamp,
            final(self).holds_snapshot(rows@),
            forall|i: int|
                0 <= i < rows@.len() && #[trigger] rows@[i].ev & BUY == BUY ==> {
                    &&& final(self).bid_depth@.contains_key(rows@[i].price_tick)
                    &&& final(self).low_bid_tick <= rows@[i].price_tick <= final(self).best_bid_tick
                },
            forall|i: int|
                0 <= i < rows@.len() && #[trigger] rows@[i].ev & BUY != BUY && rows@[i].ev & SELL == SELL ==> {
                    &&& final(self).ask_depth@.contains_key(rows@[i].price_tick)
                    &&& final(self).best_ask_tick <= rows@[i].price_tick <= final(self).high_ask_tick
                },
            forall|k: i32|
                #[trigger] final(self).bid_depth@.contains_key(k) ==> exists|i: int|
                    0 <= i < rows@.len() && #[trigger] rows@[i].ev & BUY == BUY && rows@[i].price_tick == k,
            forall|k: i32|
                #[trigger] final(self).ask_depth@.contains_key(k) ==> exists|i: int|
                    0 <= i < rows@.len() && #[trigger] rows@[i].ev & BUY != BUY && rows@[i].ev & SELL == SELL
                        && rows@[i].price_tick == k,
            final(self).best_bid_tick == INVALID_MIN || exists|i: int|
                0 <= i < rows@.len() && #[trigger] rows@[i].ev & BUY == BUY && rows@[i].price_tick == final(self).best_bid_tick,
            final(self).low_bid_tick == INVALID_MAX || exists|i: int|
                0 <= i < rows@.len() && #[trigger] rows@[i].ev & BUY == BUY && rows@[i].price_tick == final(self).low_bid_tick,
            final(self).best_ask_tick == INVALID_MAX || exists|i: int|
                0 <= i < rows@.len() && #[trigger] rows@[i].ev & BUY != BUY && rows@[i].ev & SELL == SELL
                    && rows@[i].price_tick == final(self).best_ask_tick,
            final(self).high_ask_tick == INVALID_MIN || exists|i: int|
                0 <= i < rows@.len() && #[trigger] rows@[i].ev & BUY != BUY && rows@[i].ev & SELL == SELL
                    && rows@[i].price_tick == final(self).high_ask_tick,
    {
        self.best_bid_tick = INVALID_MIN;
        self.best_ask_tick = INVALID_MAX;
        self.low_bid_tick = INVALID_MAX;
        self.high_ask_tick = INVALID_MIN;
        self.bid_depth.clear();
        self.ask_depth.clear();
        let ghost settings = *old(self);
        let mut i: usize = 0;
        assert(rows@.take(0) =~= Seq::<SnapshotRow>::empty());
        while i < rows.len()
            invariant
                i <= rows.len(),
                self.same_settings(&settings),
                self.best_bid_timestamp == settings.best_bid_timestamp,
                self.best_ask_timestamp == settings.best_ask_timestamp,
                self.bid_depth@ == snapshot_levels(rows@.take(i as int), true),
                self.ask_depth@ == snapshot_levels(rows@.take(i as int), false),
                self.best_bid_tick == snapshot_max_tick(rows@.take(i as int), true),
                self.low_bid_tick == snapshot_min_tick(rows@.take(i as int), true),
                self.best_ask_tick == snapshot_min_tick(rows@.take(i as int), false),
                self.high_ask_tick == snapshot_max_tick(rows@.take(i as int), false),
            decreases rows.len() - i,
        {
            let row = rows[i];
            proof {
                assert(rows@.take(i + 1).drop_last() =~= rows@.take(i as int));
                assert(rows@.take(i + 1).last() == row);
            }
            let price_tick = row.price_tick;
            if row.ev & BUY == BUY {
                if price_tick > self.best_bid_tick {
                    self.best_bid_tick = price_tick;
                }
                if price_tick < self.low_bid_tick {
                    self.low_bid_tick = price_tick;
                }
                let _ = self.bid_depth.insert(price_tick, QtyTimestamp { qty: row.qty, timestamp: row.exch_ts });
            } else if row.ev & SELL == SELL {
                if price_tick < self.best_ask_tick {
                    self.best_ask_tick = price_tick;
                }
                if price_tick > self.high_ask_tick {
                    self.high_ask_tick = price_tick;
                }
                let _ = self.ask_depth.insert(price_tick, QtyTimestamp { qty: row.qty, timestamp: row.exch_ts });
            }
            i = i + 1;
        }
        assert(rows@.take(rows.len() as int) =~= rows@);
        proof {
            lemma_snapshot_extremes(rows@, true);
            lemma_snapshot_extremes(rows@, false);
            lemma_snapshot_levels(rows@, true);
            lemma_snapshot_levels(rows@, false);
        }
    }
}

/// Looks up the quantity at `tick` in the levels of one side.
fn level_qty(depth: &HashMap<i32, QtyTimestamp>, tick: i32) -> (r: u32)
    ensures
        r == qty_at(depth@, tick),
{
    match depth.get(&tick) {
        Some(level) => level.qty,
        None => QtyTimestamp::default().qty,
    }
}

/// Sets the quantity of the level at `tick`, creating the level (at time
/// zero) where there is none.
fn set_level_qty(depth: &mut HashMap<i32, QtyTimestamp>, tick: i32, qty: u32)
    ensures
        final(depth)@ == old(depth)@.insert(tick, QtyTimestamp { qty, timestamp: timestamp_at(old(depth)@, tick) }),
{
    let level: QtyTimestamp = match depth.get(&tick) {
        Some(level) => *level,
        None => QtyTimestamp::default(),
    };
    let _ = depth.insert(tick, QtyTimestamp { qty, timestamp: level.timestamp });
}

impl FusedHashMapMarketDepth {
    /// Adds a market-by-order order. Fails, changing nothing, when an order
    /// with the same id is already there. Otherwise the order is recorded and
    /// the level at its tick, on its side (bid for a buy, ask otherwise), is
    /// given the quantity `level_qty`: the level's quantity with the order's
    /// quantity added, which the caller computes in floating point from
    /// `bid_qty_at_tick` / `ask_qty_at_tick` and the order's quantity.
    pub fn add(&mut self, order: L3Order, level_qty: u32) -> (r: Result<(), BacktestError>)
        ensures
            final(self).keeps_sizes(old(self)),
            final(self).timestamp == old(self).timestamp,
            final(self).top() == old(self).top(),
            old(self).orders@.contains_key(order.order_id) ==> {
                &&& r == Err::<(), BacktestError>(BacktestError::OrderIdExist)
                &&& final(self).orders@ == old(self).orders@
                &&& final(self).bid_depth@ == old(self).bid_depth@
                &&& final(self).ask_depth@ == old(self).ask_depth@
            },
            !old(self).orders@.contains_key(order.order_id) ==> {
                &&& r == Ok::<(), BacktestError>(())
                &&& final(self).orders@ == old(self).orders@.insert(order.order_id, order)
                &&& order.side == Side::Buy ==> {
                    &&& final(self).bid_depth@ == old(self).bid_depth@.insert(
                        order.price_tick,
                        QtyTimestamp { qty: level_qty, timestamp: timestamp_at(old(self).bid_depth@, order.price_tick) },
                    )
                    &&& final(self).ask_depth@ == old(self).ask_depth@
                }
                &&& order.side != Side::Buy ==> {
                    &&& final(self).ask_depth@ == old(self).ask_depth@.insert(
                        order.price_tick,
                        QtyTimestamp { qty: level_qty, timestamp: timestamp_at(old(self).ask_depth@, order.price_tick) },
                    )
                    &&& final(self).bid_depth@ == old(self).bid_depth@
                }
            },
    {
        if self.orders.contains_key(&order.order_id) {
            return Err(BacktestError::OrderIdExist);
        }
        let _ = self.orders.insert(order.order_id, order);
        if order.side == Side::Buy {
            set_level_qty(&mut self.bid_depth, order.price_tick, level_qty);
        } else {
            set_level_qty(&mut self.ask_depth, order.price_tick, level_qty);
        }
        Ok(())
    }

    pub fn best_bid_tick(&self) -> (r: i32)
        ensures
            r == self.best_bid_tick,
    {
        self.best_bid_tick
    }

    pub fn best_ask_tick(&self) -> (r: i32)
        ensures
            r == self.best_ask_tick,
    {
        self.best_ask_tick
    }

    /// The tick size (bit pattern).
    pub fn tick_size(&self) -> (r: u32)
        ensures
            r == self.tick_size,
    {
        self.tick_size
    }

    /// The lot size (bit pattern).
    pub fn lot_size(&self) -> (r: u32)
        ensures
            r == self.lot_size,
    {
        self.lot_size
    }

    /// The bid quantity (bit pattern) at `price_tick`; zero where there is no
    /// level.
    pub fn bid_qty_at_tick(&self, price_tick: i32) -> (r: u32)
        ensures
            r == qty_at(self.bid_depth@, price_tick),
    {
        level_qty(&self.bid_depth, price_tick)
    }

    /// The ask quantity (bit pattern) at `price_tick`; zero where there is no
    /// level.
    pub fn ask_qty_at_tick(&self, price_tick: i32) -> (r: u32)
        ensures
            r == qty_at(self.ask_depth@, price_tick),
    {
        level_qty(&self.ask_depth, price_tick)
    }
}

} // verus!
