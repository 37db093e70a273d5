use vstd::prelude::*;
use std::collections::HashMap;
use crate::types::{QtyTimestamp, INVALID_MIN, INVALID_MAX, qty_is_positive, qty_positive};

verus! {

broadcast use vstd::std_specs::hash::group_hash_axioms;

/// The level at tick `t` exists and holds a positive quantity.
pub open spec fn has_positive(m: Map<i32, QtyTimestamp>, t: int) -> bool {
    m.contains_key(t as i32) && qty_is_positive(m[t as i32].qty)
}

/// The highest tick `t` with `end <= t < start` whose level holds a positive
/// quantity, or `INVALID_MIN` when there is none.
pub open spec fn highest_positive_below(m: Map<i32, QtyTimestamp>, start: int, end: int) -> int
    decreases start - end,
{
    if start <= end {
        INVALID_MIN as int
    } else if has_positive(m, start - 1) {
        start - 1
    } else {
        highest_positive_below(m, start - 1, end)
    }
}

/// The lowest tick `t` with `start < t <= end` whose level holds a positive
/// quantity, or `INVALID_MAX` when there is none.
pub open spec fn lowest_positive_above(m: Map<i32, QtyTimestamp>, start: int, end: int) -> int
    decreases end - start,
{
    if end <= start {
        INVALID_MAX as int
    } else if has_positive(m, start + 1) {
        start + 1
    } else {
        lowest_positive_above(m, start + 1, end)
    }
}

/// Whether the level at `t` in `depth` holds a positive quantity.
fn level_positive(depth: &HashMap<i32, QtyTimestamp>, t: i32) -> (r: bool)
    ensures
        r == has_positive(depth@, t as int),
{
    match depth.get(&t) {
        Some(level) => qty_positive(level.qty),
        None => false,
    }
}

/// Scans down from `start - 1` to `end` for the first tick with a positive
/// quantity.
pub fn depth_below(depth: &HashMap<i32, QtyTimestamp>, start: i32, end: i32) -> (r: i32)
    ensures
        r as int == highest_positive_below(depth@, start as int, end as int),
{
    let mut t: i32 = start;
    while t > end
        invariant
            highest_positive_below(depth@, start as int, end as int)
                == highest_positive_below(depth@, t as int, end as int),
        decreases t - end,
    {
        let cand: i32 = t - 1;
        if level_positive(depth, cand) {
            return cand;
        }
        t = cand;
    }
    INVALID_MIN
}

/// Scans up from `start + 1` to `end` for the first tick with a positive
/// quantity.
pub fn depth_above(depth: &HashMap<i32, QtyTimestamp>, start: i32, end: i32) -> (r: i32)
    requires
        start < INVALID_MAX,
        end < INVALID_MAX,
    ensures
        r as int == lowest_positive_above(depth@, start as int, end as int),
{
    let mut t: i32 = start + 1;
    let stop: i32 = end + 1;
    while t < stop
        invariant
            INVALID_MIN < t,
            stop == end + 1,
            lowest_positive_above(depth@, start as int, end as int)
                == lowest_positive_above(depth@, t - 1, end as int),
        decreases stop - t,
    {
        if level_positive(depth, t) {
            return t;
        }
        t = t + 1;
    }
    INVALID_MAX
}

} // verus!

verus! {

/// What `depth_below` finds: either nothing (`INVALID_MIN`, and no tick of
/// `[end, start)` holds a positive quantity), or a tick of `[end, start)`
/// holding a positive quantity above which, up to `start`, none does.
pub proof fn lemma_highest_positive_below(m: Map<i32, QtyTimestamp>, start: int, end: int)
    ensures
        ({
            let r = highest_positive_below(m, start, end);
            ||| r == INVALID_MIN as int && forall|t: int| end <= t < start ==> !#[trigger] has_positive(m, t)
            ||| end <= r < start && has_positive(m, r) && forall|t: int| r < t < start ==> !#[trigger] has_positive(m, t)
        }),
    decreases start - end,
{
    if start > end && !has_positive(m, start - 1) {
        lemma_highest_positive_below(m, start - 1, end);
    }
}

/// What `depth_above` finds: either nothing (`INVALID_MAX`, and no tick of
/// `(start, end]` holds a positive quantity), or a tick of `(start, end]`
/// holding a positive quantity below which, down to `start`, none does.
pub proof fn lemma_lowest_positive_above(m: Map<i32, QtyTimestamp>, start: int, end: int)
    ensures
        ({
            let r = lowest_positive_above(m, start, end);
            ||| r == INVALID_MAX as int && forall|t: int| start < t <= end ==> !#[trigger] has_positive(m, t)
            ||| start < r <= end && has_positive(m, r) && forall|t: int| start < t < r ==> !#[trigger] has_positive(m, t)
        }),
    decreases end - start,
{
    if end > start && !has_positive(m, start + 1) {
        lemma_lowest_positive_above(m, start + 1, end);
    }
}

} // verus!
