use vstd::prelude::*;

verus! {

/// The tick that stands for "no bid": lower than every price tick.
pub const INVALID_MIN: i32 = -2147483648i32;

/// The tick that stands for "no ask": higher than every price tick.
pub const INVALID_MAX: i32 = 2147483647i32;

/// Event flag of a buy (bid-side) event.
pub const BUY: i64 = 0x2000_0000i64;

/// Event flag of a sell (ask-side) event.
pub const SELL: i64 = 0x1000_0000i64;

/// A quantity is carried as the IEEE-754 bit pattern of a single-precision
/// float. It is greater than zero exactly when the sign bit is clear, the
/// value is not zero, and it is not a NaN: the bit patterns `1..=0x7f80_0000`.
pub open spec fn qty_is_positive(bits: u32) -> bool {
    0 < bits && bits <= 0x7f80_0000u32
}

/// Executable form of `qty_is_positive`.
pub fn qty_positive(bits: u32) -> (r: bool)
    ensures
        r == qty_is_positive(bits),
{
    0 < bits && bits <= 0x7f80_0000u32
}

/// The quantity resting at a price level, and the time of the feed that set it.
#[derive(Clone, Copy, Debug, PartialEq, Eq, Structural)]
pub struct QtyTimestamp {
    /// Bit pattern of the single-precision quantity.
    pub qty: u32,
    pub timestamp: i64,
}

impl Default for QtyTimestamp {
    /// A zero quantity (the bit pattern of `+0.0`) at time zero.
    fn default() -> (r: Self)
        ensures
            r.qty == 0,
            r.timestamp == 0,
    {
        QtyTimestamp { qty: 0, timestamp: 0 }
    }
}

/// The side of an order.
#[derive(Clone, Copy, Debug, PartialEq, Eq, Structural)]
pub enum Side {
    Buy,
    Sell,
}

/// A market-by-order (L3) order.
#[derive(Clone, Copy, Debug, PartialEq, Eq, Structural)]
pub struct L3Order {
    pub order_id: i64,
    pub side: Side,
    pub price_tick: i32,
    /// Bit pattern of the single-precision quantity.
    pub qty: u32,
    pub timestamp: i64,
}

/// Errors of the depth's order bookkeeping.
#[derive(Clone, Copy, Debug, PartialEq, Eq, Structural)]
pub enum BacktestError {
    /// An order with the same id is already in the depth.
    OrderIdExist,
}

/// One row of a depth snapshot, with its price already turned into a tick.
#[derive(Clone, Copy, Debug, PartialEq, Eq, Structural)]
pub struct SnapshotRow {
    /// Event flags; `BUY` and `SELL` select the side.
    pub ev: i64,
    pub price_tick: i32,
    /// Bit pattern of the single-precision quantity.
    pub qty: u32,
    /// Exchange timestamp of the row.
    pub exch_ts: i64,
}

} // verus!
