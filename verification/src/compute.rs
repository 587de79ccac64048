//! The synthetic computation unit: the one CPU-bound primitive shared by the
//! background workers and the connection handlers, so that their resource
//! consumption is comparable. It is a pure function of an iteration count,
//! with cost proportional to that count.

use vstd::prelude::*;

verus! {

/// The iteration count a single computation unit runs at.
pub const DEFAULT_UNIT_SIZE: u64 = 20000000;

/// Supplies the size of the next computation unit. Both the background
/// workers and the connection handlers draw their unit size from here.
pub fn get_count() -> (count: u64)
    ensures
        count == DEFAULT_UNIT_SIZE,
{
    DEFAULT_UNIT_SIZE
}

/// One computation unit: counts up to `count` one step at a time. The result
/// is the accumulated count itself; only the work's duration matters to the
/// experiment, not the value.
pub fn heavy_stuff(count: u64) -> (acc: u64)
    ensures
        acc == count,
{
    let mut acc: u64 = 0;
    let mut i: u64 = 0;
    while i < count
        invariant
            i <= count,
            acc == i,
        decreases count - i,
    {
        acc = acc + 1;
        i = i + 1;
    }
    acc
}

/// One full turn of a background worker's loop: request a unit size, then
/// execute one computation unit of that size.
pub fn worker_iteration() -> (acc: u64)
    ensures
        acc == DEFAULT_UNIT_SIZE,
{
    let count = get_count();
    heavy_stuff(count)
}

} // verus!
