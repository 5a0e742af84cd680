use vstd::prelude::*;

use crate::metrics::RamMetrics;

verus! {

/// `a - b`, or zero when `b` exceeds `a`.
pub open spec fn sat_sub(a: u64, b: u64) -> u64 {
    if a >= b {
        (a - b) as u64
    } else {
        0
    }
}

/// `r` holds the readings given, with the cached amount approximated from
/// them.
pub open spec fn ram_metrics_ok(
    r: RamMetrics,
    total_bytes: u64,
    used_bytes: u64,
    available_bytes: u64,
    free_bytes: u64,
) -> bool {
    &&& r.total_bytes == total_bytes
    &&& r.used_bytes == used_bytes
    &&& r.available_bytes == available_bytes
    &&& r.free_bytes == free_bytes
    &&& r.cached_approx_bytes == sat_sub(sat_sub(total_bytes, used_bytes), free_bytes)
}

/// RAM figures from one reading of the memory counters (all in bytes).
/// The cached amount is approximated as total − used − free, stopping at
/// zero.
pub fn ram_metrics(total_bytes: u64, used_bytes: u64, available_bytes: u64, free_bytes: u64) -> (r:
    RamMetrics)
    ensures
        ram_metrics_ok(r, total_bytes, used_bytes, available_bytes, free_bytes),
{
    let cached_approx_bytes = total_bytes.saturating_sub(used_bytes).saturating_sub(free_bytes);
    RamMetrics { total_bytes, used_bytes, available_bytes, free_bytes, cached_approx_bytes }
}

/// The cached amount never exceeds what is left of the total after the used
/// and free amounts, and is exact whenever they fit in the total.
pub proof fn lemma_cached_bounds(total: u64, used: u64, free: u64)
    ensures
        sat_sub(sat_sub(total, used), free) <= total,
        used + free <= total ==> sat_sub(sat_sub(total, used), free) == total - used - free,
{
}

/// The RAM figures keep every reading, and the cached amount is what the
/// total leaves after the used and free amounts: used, free and cached add
/// up to the total when used and free fit in it, and nothing is counted as
/// cached when they do not.
pub proof fn lemma_ram_metrics_shows(r: RamMetrics, total: u64, used: u64, available: u64, free: u64)
    requires
        ram_metrics_ok(r, total, used, available, free),
    ensures
        r.total_bytes == total && r.used_bytes == used,
        r.available_bytes == available && r.free_bytes == free,
        used + free <= total ==> r.used_bytes + r.free_bytes + r.cached_approx_bytes
            == r.total_bytes,
        used + free > total ==> r.cached_approx_bytes == 0,
{
}

} // verus!
