use std::collections::HashMap;

use fused_depth::fuse::FusedHashMapMarketDepth;
use fused_depth::scan::{depth_above, depth_below};
use fused_depth::types::{
    qty_positive, BacktestError, L3Order, QtyTimestamp, Side, SnapshotRow, BUY, INVALID_MAX, INVALID_MIN, SELL,
};

fn bits(x: f32) -> u32 {
    x.to_bits()
}

fn depth() -> FusedHashMapMarketDepth {
    FusedHashMapMarketDepth::new(bits(0.1), bits(0.01))
}

fn row(ev: i64, price_tick: i32, qty: f32, exch_ts: i64) -> SnapshotRow {
    SnapshotRow { ev, price_tick, qty: bits(qty), exch_ts }
}

#[test]
fn new_depth_is_empty() {
    let d = depth();
    assert_eq!(d.best_bid_tick(), INVALID_MIN);
    assert_eq!(d.best_ask_tick(), INVALID_MAX);
    assert_eq!(d.low_bid_tick, INVALID_MAX);
    assert_eq!(d.high_ask_tick, INVALID_MIN);
    assert_eq!(d.tick_size(), bits(0.1));
    assert_eq!(d.lot_size(), bits(0.01));
    assert_eq!(d.bid_qty_at_tick(100), 0);
    assert_eq!(d.ask_qty_at_tick(100), 0);
    assert!(d.bid_depth.is_empty() && d.ask_depth.is_empty() && d.orders.is_empty());
}

#[test]
fn qty_positivity_follows_float_order() {
    assert!(qty_positive(bits(0.01)));
    assert!(qty_positive(bits(f32::INFINITY)));
    assert!(qty_positive(bits(f32::MIN_POSITIVE)));
    assert!(qty_positive(1));
    assert!(!qty_positive(bits(0.0)));
    assert!(!qty_positive(bits(-0.0)));
    assert!(!qty_positive(bits(-1.0)));
    assert!(!qty_positive(bits(f32::NAN)));
}

#[test]
fn scans_find_nearest_positive_level() {
    let mut m: HashMap<i32, QtyTimestamp> = HashMap::new();
    m.insert(95, QtyTimestamp { qty: bits(1.0), timestamp: 0 });
    m.insert(97, QtyTimestamp { qty: bits(0.0), timestamp: 0 });
    m.insert(99, QtyTimestamp { qty: bits(2.0), timestamp: 0 });
    m.insert(103, QtyTimestamp { qty: bits(3.0), timestamp: 0 });
    assert_eq!(depth_below(&m, 99, 90), 95);
    assert_eq!(depth_below(&m, 100, 90), 99);
    assert_eq!(depth_below(&m, 99, 96), INVALID_MIN);
    assert_eq!(depth_below(&m, 90, 100), INVALID_MIN);
    assert_eq!(depth_above(&m, 95, 110), 99);
    assert_eq!(depth_above(&m, 99, 110), 103);
    assert_eq!(depth_above(&m, 99, 102), INVALID_MAX);
    assert_eq!(depth_above(&m, 110, 100), INVALID_MAX);
}

#[test]
fn update_returns_previous_state() {
    let mut d = depth();
    let r = d.update_bid_depth(100, 1, bits(0.01), 1);
    assert_eq!(r, (100, INVALID_MIN, 100, 0, bits(0.01), 1));
    let r = d.update_bid_depth(100, 3, bits(0.03), 2);
    assert_eq!(r, (100, 100, 100, bits(0.01), bits(0.03), 2));
    let r = d.update_ask_depth(105, 2, bits(0.02), 2);
    assert_eq!(r, (105, INVALID_MAX, 105, 0, bits(0.02), 2));
    assert_eq!(d.bid_qty_at_tick(100), bits(0.03));
    assert_eq!(d.bid_depth.get(&100), Some(&QtyTimestamp { qty: bits(0.03), timestamp: 2 }));
}

#[test]
fn stale_feed_leaves_level_unchanged() {
    let mut d = depth();
    d.update_bid_depth(100, 1, bits(0.01), 5);
    d.update_bid_depth(100, 7, bits(0.07), 5);
    d.update_bid_depth(100, 0, bits(0.0), 4);
    assert_eq!(d.bid_qty_at_tick(100), bits(0.01));
    assert_eq!(d.best_bid_tick(), 100);
    d.update_bid_depth(100, 0, bits(0.0), 6);
    assert_eq!(d.bid_qty_at_tick(100), 0);
    assert!(d.bid_depth.get(&100).is_none());
    assert_eq!(d.best_bid_tick(), INVALID_MIN);
    assert_eq!(d.low_bid_tick, INVALID_MAX);
}

#[test]
fn deleting_best_ask_moves_it_up() {
    let mut d = depth();
    d.update_ask_depth(100, 1, bits(0.01), 1);
    d.update_ask_depth(102, 1, bits(0.01), 1);
    d.update_ask_depth(105, 1, bits(0.01), 1);
    assert_eq!(d.best_ask_tick(), 100);
    assert_eq!(d.high_ask_tick, 105);
    d.update_ask_depth(100, 0, bits(0.0), 2);
    assert_eq!(d.best_ask_tick(), 102);
    d.update_ask_depth(102, 0, bits(0.0), 3);
    d.update_ask_depth(105, 0, bits(0.0), 4);
    assert_eq!(d.best_ask_tick(), INVALID_MAX);
    assert_eq!(d.high_ask_tick, INVALID_MIN);
}

#[test]
fn crossing_bid_pushes_older_ask_away() {
    let mut d = depth();
    d.update_ask_depth(100, 1, bits(0.01), 1);
    d.update_ask_depth(103, 1, bits(0.01), 1);
    d.update_bid_depth(101, 1, bits(0.01), 2);
    assert_eq!(d.best_bid_tick(), 101);
    assert_eq!(d.best_ask_tick(), 103);
    assert!(d.best_bid_tick() < d.best_ask_tick());
}

#[test]
fn crossing_ask_older_than_bid_gives_way() {
    let mut d = depth();
    d.update_bid_depth(100, 1, bits(0.01), 5);
    d.update_ask_depth(101, 1, bits(0.01), 3);
    d.update_ask_depth(106, 1, bits(0.01), 3);
    // An ask at the best bid, but older than it: the ask side gives way.
    d.update_ask_depth(100, 1, bits(0.01), 4);
    assert_eq!(d.best_bid_tick(), 100);
    assert_eq!(d.best_ask_tick(), 101);
    assert_eq!(d.best_ask_timestamp, 5);
}

#[test]
fn book_stays_uncrossed_over_a_sequence() {
    let mut d = depth();
    let feeds: [(bool, i32, i32, i64); 10] = [
        (true, 100, 1, 1),
        (false, 102, 1, 1),
        (true, 103, 2, 2),
        (false, 101, 1, 1),
        (false, 99, 3, 3),
        (true, 98, 1, 2),
        (true, 99, 0, 4),
        (false, 104, 1, 5),
        (true, 104, 1, 6),
        (false, 100, 0, 7),
    ];
    for (is_bid, tick, lot, ts) in feeds {
        if is_bid {
            d.update_bid_depth(tick, lot, bits(0.01 * lot as f32), ts);
        } else {
            d.update_ask_depth(tick, lot, bits(0.01 * lot as f32), ts);
        }
        assert!(d.best_bid_tick() < d.best_ask_tick());
    }
}

#[test]
fn negative_lot_count_counts_as_nonzero_for_best_price() {
    let mut d = depth();
    d.update_bid_depth(100, -1, bits(-0.01), 1);
    assert!(d.bid_depth.get(&100).is_none());
    assert_eq!(d.best_bid_tick(), 100);
    assert_eq!(d.low_bid_tick, 100);
}

#[test]
fn deletion_skips_non_positive_levels() {
    let mut d = depth();
    let rows = vec![
        row(BUY, 97, 1.0, 1),
        row(BUY, 98, f32::NAN, 1),
        row(BUY, 99, -1.0, 1),
        row(BUY, 100, 0.0, 1),
    ];
    d.apply_snapshot(&rows);
    assert_eq!(d.best_bid_tick(), 100);
    d.update_bid_depth(100, 0, bits(0.0), 2);
    assert_eq!(d.best_bid_tick(), 97);
}

#[test]
fn clear_bids_up_to_a_tick() {
    let mut d = depth();
    for t in 100..104 {
        d.update_bid_depth(t, 1, bits(0.01), 1);
    }
    assert_eq!(d.best_bid_tick(), 103);
    d.clear_depth(BUY, 103);
    assert_eq!(d.bid_qty_at_tick(103), 0);
    assert_eq!(d.bid_qty_at_tick(102), bits(0.01));
    // The search for the new best bid starts below `clear_upto - 1`.
    assert_eq!(d.best_bid_tick(), 101);
    d.clear_depth(BUY, 101);
    assert_eq!(d.bid_qty_at_tick(101), 0);
    // Levels above the best bid are outside the cleared range.
    assert_eq!(d.bid_qty_at_tick(102), bits(0.01));
    assert_eq!(d.bid_qty_at_tick(100), bits(0.01));
    assert_eq!(d.best_bid_tick(), INVALID_MIN);
    assert_eq!(d.low_bid_tick, INVALID_MAX);
}

#[test]
fn clear_asks_up_to_a_tick() {
    let mut d = depth();
    for t in 100..104 {
        d.update_ask_depth(t, 1, bits(0.01), 1);
    }
    assert_eq!(d.best_ask_tick(), 100);
    d.clear_depth(SELL, 100);
    assert_eq!(d.ask_qty_at_tick(100), 0);
    assert_eq!(d.ask_qty_at_tick(101), bits(0.01));
    assert_eq!(d.best_ask_tick(), 102);
    d.clear_depth(SELL, 102);
    assert_eq!(d.best_ask_tick(), INVALID_MAX);
    assert_eq!(d.high_ask_tick, INVALID_MIN);
    assert_eq!(d.ask_qty_at_tick(103), bits(0.01));
}

#[test]
fn clear_everything() {
    let mut d = depth();
    d.update_bid_depth(100, 1, bits(0.01), 1);
    d.update_ask_depth(101, 1, bits(0.01), 1);
    d.clear_depth(0, 0);
    assert!(d.bid_depth.is_empty() && d.ask_depth.is_empty());
    assert_eq!(d.best_bid_tick(), INVALID_MIN);
    assert_eq!(d.best_ask_tick(), INVALID_MAX);
    assert_eq!(d.low_bid_tick, INVALID_MAX);
    assert_eq!(d.high_ask_tick, INVALID_MIN);
    assert_eq!(d.best_bid_timestamp, 1);
}

#[test]
fn snapshot_replaces_both_sides() {
    let mut d = depth();
    d.update_bid_depth(50, 1, bits(0.01), 1);
    d.update_ask_depth(60, 1, bits(0.01), 1);
    let rows = vec![
        row(BUY, 99, 0.5, 10),
        row(BUY, 98, 0.25, 10),
        row(SELL, 101, 0.75, 10),
        row(SELL, 103, 1.5, 10),
        row(BUY, 99, 0.125, 11),
        row(0, 120, 9.0, 12),
    ];
    d.apply_snapshot(&rows);
    assert_eq!(d.best_bid_tick(), 99);
    assert_eq!(d.low_bid_tick, 98);
    assert_eq!(d.best_ask_tick(), 101);
    assert_eq!(d.high_ask_tick, 103);
    assert_eq!(d.bid_qty_at_tick(50), 0);
    assert_eq!(d.ask_qty_at_tick(60), 0);
    assert_eq!(d.bid_depth.get(&99), Some(&QtyTimestamp { qty: bits(0.125), timestamp: 11 }));
    assert_eq!(d.ask_qty_at_tick(103), bits(1.5));
    assert_eq!(d.bid_qty_at_tick(120), 0);
    assert_eq!(d.ask_qty_at_tick(120), 0);
    assert_eq!(d.bid_depth.len(), 2);
    assert_eq!(d.ask_depth.len(), 2);
}

#[test]
fn snapshot_row_flagged_both_ways_is_a_bid() {
    let mut d = depth();
    d.apply_snapshot(&vec![row(BUY | SELL, 100, 1.0, 1)]);
    assert_eq!(d.bid_qty_at_tick(100), bits(1.0));
    assert_eq!(d.ask_qty_at_tick(100), 0);
    assert_eq!(d.best_ask_tick(), INVALID_MAX);
}

#[test]
fn add_orders() {
    let mut d = depth();
    let buy = L3Order { order_id: 1, side: Side::Buy, price_tick: 100, qty: bits(0.5), timestamp: 1 };
    assert_eq!(d.add(buy, bits(0.5)), Ok(()));
    assert_eq!(d.bid_qty_at_tick(100), bits(0.5));
    assert_eq!(d.orders.get(&1), Some(&buy));
    let again = L3Order { order_id: 1, side: Side::Sell, price_tick: 105, qty: bits(1.0), timestamp: 2 };
    assert_eq!(d.add(again, bits(1.0)), Err(BacktestError::OrderIdExist));
    assert_eq!(d.ask_qty_at_tick(105), 0);
    assert_eq!(d.orders.get(&1), Some(&buy));
    let sell = L3Order { order_id: 2, side: Side::Sell, price_tick: 105, qty: bits(1.0), timestamp: 2 };
    assert_eq!(d.add(sell, bits(1.0)), Ok(()));
    assert_eq!(d.ask_qty_at_tick(105), bits(1.0));
    assert_eq!(d.best_ask_tick(), INVALID_MAX);
}

#[test]
fn add_keeps_level_timestamp() {
    let mut d = depth();
    d.update_bid_depth(100, 1, bits(0.01), 7);
    let buy = L3Order { order_id: 9, side: Side::Buy, price_tick: 100, qty: bits(0.02), timestamp: 8 };
    assert_eq!(d.add(buy, bits(0.03)), Ok(()));
    assert_eq!(d.bid_depth.get(&100), Some(&QtyTimestamp { qty: bits(0.03), timestamp: 7 }));
}

#[test]
fn default_level_is_zero() {
    let q = QtyTimestamp::default();
    assert_eq!(q.qty, 0);
    assert_eq!(q.timestamp, 0);
    assert_eq!(f32::from_bits(q.qty), 0.0);
}

#[test]
fn older_bid_at_the_largest_tick_is_taken() {
    let mut d = depth();
    d.update_bid_depth(100, 1, bits(0.01), 5);
    let r = d.update_bid_depth(INVALID_MAX, 1, bits(0.01), 4);
    assert_eq!(r, (INVALID_MAX, 100, 100, 0, bits(0.01), 4));
    assert_eq!(d.bid_qty_at_tick(INVALID_MAX), bits(0.01));
    assert_eq!(d.best_bid_tick(), 100);
}

#[test]
fn zero_ask_at_the_largest_tick_is_taken() {
    let mut d = depth();
    d.update_ask_depth(100, 1, bits(0.01), 5);
    let r = d.update_ask_depth(INVALID_MAX, 0, bits(0.0), 6);
    assert_eq!(r, (INVALID_MAX, 100, 100, 0, bits(0.0), 6));
    assert_eq!(d.best_ask_tick(), 100);
}

#[test]
fn snapshot_at_the_largest_tick_is_taken() {
    let mut d = depth();
    d.apply_snapshot(&vec![row(SELL, INVALID_MAX, 1.0, 1), row(BUY, 10, 1.0, 1)]);
    assert_eq!(d.high_ask_tick, INVALID_MAX);
    assert_eq!(d.best_ask_tick(), INVALID_MAX);
    assert_eq!(d.ask_qty_at_tick(INVALID_MAX), bits(1.0));
    assert_eq!(d.best_bid_tick(), 10);
}

#[test]
fn snapshot_result_depends_on_rows_alone() {
    let rows = vec![row(BUY, 99, 0.5, 10), row(SELL, 101, 0.75, 10), row(SELL, 104, 0.25, 9)];
    let mut a = depth();
    a.update_bid_depth(50, 1, bits(0.01), 1);
    a.update_ask_depth(200, 1, bits(0.01), 1);
    a.apply_snapshot(&rows);
    let mut b = depth();
    b.apply_snapshot(&rows);
    b.apply_snapshot(&rows);
    assert_eq!(a.bid_depth, b.bid_depth);
    assert_eq!(a.ask_depth, b.ask_depth);
    assert_eq!(
        (a.best_bid_tick, a.best_ask_tick, a.low_bid_tick, a.high_ask_tick),
        (b.best_bid_tick, b.best_ask_tick, b.low_bid_tick, b.high_ask_tick)
    );
}

#[test]
fn fresh_bid_feeds_keep_best_bid_highest() {
    let mut d = depth();
    let feeds: [(i32, i32); 8] = [(100, 1), (103, 2), (101, 1), (103, 0), (105, 3), (105, 0), (101, 0), (100, 0)];
    let mut ts: i64 = 0;
    for (tick, lot) in feeds {
        ts += 1;
        d.update_bid_depth(tick, lot, bits(0.01 * lot as f32), ts);
        let highest = d.bid_depth.keys().copied().max().unwrap_or(INVALID_MIN);
        assert_eq!(d.best_bid_tick(), highest);
        assert!(d.bid_depth.values().all(|l| qty_positive(l.qty)));
    }
    assert_eq!(d.best_bid_tick(), INVALID_MIN);
}

#[test]
fn fresh_ask_feeds_keep_best_ask_lowest() {
    let mut d = depth();
    let feeds: [(i32, i32); 8] = [(100, 1), (97, 2), (99, 1), (97, 0), (95, 3), (95, 0), (99, 0), (100, 0)];
    let mut ts: i64 = 0;
    for (tick, lot) in feeds {
        ts += 1;
        d.update_ask_depth(tick, lot, bits(0.01 * lot as f32), ts);
        let lowest = d.ask_depth.keys().copied().min().unwrap_or(INVALID_MAX);
        assert_eq!(d.best_ask_tick(), lowest);
        assert!(d.ask_depth.values().all(|l| qty_positive(l.qty)));
    }
    assert_eq!(d.best_ask_tick(), INVALID_MAX);
}

#[test]
fn sizes_survive_every_call() {
    let mut d = depth();
    d.update_bid_depth(100, 1, bits(0.01), 1);
    d.update_ask_depth(101, 1, bits(0.01), 1);
    d.clear_depth(BUY, 100);
    d.apply_snapshot(&vec![row(BUY, 99, 0.5, 10)]);
    let _ = d.add(L3Order { order_id: 3, side: Side::Buy, price_tick: 99, qty: bits(0.5), timestamp: 11 }, bits(1.0));
    assert_eq!(d.tick_size(), bits(0.1));
    assert_eq!(d.lot_size(), bits(0.01));
}
