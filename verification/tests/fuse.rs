use fused_depth::fuse::FusedHashMapMarketDepth;

fn new_depth(tick_size: f32, lot_size: f32) -> FusedHashMapMarketDepth {
    FusedHashMapMarketDepth::new(tick_size.to_bits(), lot_size.to_bits())
}

fn to_tick(depth: &FusedHashMapMarketDepth, price: f32) -> i32 {
    (price / f32::from_bits(depth.tick_size())).round() as i32
}

fn to_lot(depth: &FusedHashMapMarketDepth, qty: f32) -> i32 {
    (qty / f32::from_bits(depth.lot_size())).round() as i32
}

fn update_bid(depth: &mut FusedHashMapMarketDepth, price: f32, qty: f32, timestamp: i64) -> (i32, i32, i32, f32, f32, i64) {
    let tick = to_tick(depth, price);
    let lot = to_lot(depth, qty);
    let r = depth.update_bid_depth(tick, lot, qty.to_bits(), timestamp);
    (r.0, r.1, r.2, f32::from_bits(r.3), f32::from_bits(r.4), r.5)
}

fn update_ask(depth: &mut FusedHashMapMarketDepth, price: f32, qty: f32, timestamp: i64) -> (i32, i32, i32, f32, f32, i64) {
    let tick = to_tick(depth, price);
    let lot = to_lot(depth, qty);
    let r = depth.update_ask_depth(tick, lot, qty.to_bits(), timestamp);
    (r.0, r.1, r.2, f32::from_bits(r.3), f32::from_bits(r.4), r.5)
}

fn bid_qty(depth: &FusedHashMapMarketDepth, tick: i32) -> f32 {
    f32::from_bits(depth.bid_qty_at_tick(tick))
}

fn ask_qty(depth: &FusedHashMapMarketDepth, tick: i32) -> f32 {
    f32::from_bits(depth.ask_qty_at_tick(tick))
}

#[test]
fn test_update_bid_depth() {
    let mut depth = new_depth(0.1, 0.01);

    update_bid(&mut depth, 10.1, 0.01, 1);
    update_bid(&mut depth, 10.2, 0.02, 1);
    assert_eq!(depth.best_bid_tick(), 102);
    update_bid(&mut depth, 10.2, 0.03, 0);
    assert_eq!(bid_qty(&depth, 102), 0.02);
    update_bid(&mut depth, 10.3, 0.03, 0);
    assert_eq!(depth.best_bid_tick(), 102);
    update_bid(&mut depth, 10.3, 0.03, 2);
    assert_eq!(depth.best_bid_tick(), 103);
    update_bid(&mut depth, 10.3, 0.0, 1);
    assert_eq!(depth.best_bid_tick(), 103);
    assert_eq!(bid_qty(&depth, 103), 0.03);
    update_bid(&mut depth, 10.3, 0.0, 2);
    assert_eq!(depth.best_bid_tick(), 102);
}

#[test]
fn test_update_ask_depth() {
    let mut depth = new_depth(0.1, 0.01);

    update_ask(&mut depth, 10.2, 0.02, 1);
    update_ask(&mut depth, 10.1, 0.01, 1);
    assert_eq!(depth.best_ask_tick(), 101);
    update_ask(&mut depth, 10.1, 0.03, 0);
    assert_eq!(ask_qty(&depth, 101), 0.01);
    update_ask(&mut depth, 10.0, 0.03, 0);
    assert_eq!(depth.best_ask_tick(), 101);
    update_ask(&mut depth, 10.0, 0.03, 2);
    assert_eq!(depth.best_ask_tick(), 100);
    update_ask(&mut depth, 10.0, 0.0, 1);
    assert_eq!(depth.best_ask_tick(), 100);
    assert_eq!(ask_qty(&depth, 100), 0.03);
    update_ask(&mut depth, 10.0, 0.0, 2);
    assert_eq!(depth.best_ask_tick(), 101);
}

#[test]
fn test_update_bid_ask_depth_cross() {
    let mut depth = new_depth(0.1, 0.01);

    update_bid(&mut depth, 10.1, 0.01, 1);
    update_bid(&mut depth, 10.2, 0.02, 1);
    update_ask(&mut depth, 10.3, 0.02, 1);
    update_ask(&mut depth, 10.4, 0.01, 1);

    update_ask(&mut depth, 10.2, 0.01, 3);
    assert_eq!(depth.best_bid_tick(), 101);
    assert_eq!(depth.best_ask_tick(), 102);

    update_bid(&mut depth, 10.2, 0.03, 5);
    assert_eq!(depth.best_bid_tick(), 102);
    assert_eq!(depth.best_ask_tick(), 103);

    update_ask(&mut depth, 10.2, 0.01, 4);
    assert_eq!(depth.best_bid_tick(), 102);
    assert_eq!(depth.best_ask_tick(), 103);
    update_ask(&mut depth, 10.2, 0.0, 4);

    update_ask(&mut depth, 10.3, 0.01, 7);
    update_bid(&mut depth, 10.3, 0.01, 6);
    assert_eq!(depth.best_bid_tick(), 102);
    assert_eq!(depth.best_ask_tick(), 103);
}
