//! The cached read path: the freshness test and the atomic commit of an
//! acquisition outcome to the shared cell.
//!
//! The cell itself is one `Log` held under a mutual-exclusion lock by
//! the surrounding server; every decision the read path takes on the locked
//! value is a function here. A caller that holds the lock first asks
//! `cache_lookup`; on a miss it runs one driver acquisition cycle and
//! commits the outcome with `apply_acquisition` before releasing.

use crate::reading::{AcquisitionError, Log, UDCO2SStat, sentinel_log};
use vstd::prelude::*;

verus! {

/// Whether an entry stamped at second `time` is still fresh at second
/// `now` under a freshness window of `window` seconds: strictly less
/// than `window` seconds have elapsed.
pub open spec fn fresh(time: int, window: int, now: int) -> bool {
    time + window > now
}

/// The freshness test, exactly as the read path applies it to the cell.
pub fn should_use_cache(data: &Log, window_secs: u16, now: i64) -> (r: bool)
    requires
        now >= 0,
    ensures
        r == fresh(data.time as int, window_secs as int, now as int),
{
    data.time > now - window_secs as i64
}

/// The cache-hit decision: a copy of the cached entry, verbatim, while
/// it is fresh; a miss otherwise.
pub fn cache_lookup(data: &Log, window_secs: u16, now: i64) -> (r: Option<Log>)
    requires
        now >= 0,
    ensures
        fresh(data.time as int, window_secs as int, now as int) ==> r == Some(*data),
        !fresh(data.time as int, window_secs as int, now as int) ==> r is None,
{
    if should_use_cache(data, window_secs, now) {
        Some(*data)
    } else {
        None
    }
}

/// Commit one acquisition outcome to the cell: a success overwrites it
/// with the new reading stamped `now` and returns the new entry; a
/// failure leaves the cell exactly as it was and propagates the error
/// unchanged, so a later request may still serve the retained entry.
pub fn apply_acquisition(data: &mut Log, outcome: Result<UDCO2SStat, AcquisitionError>, now: i64) -> (r:
    Result<Log, AcquisitionError>)
    ensures
        match outcome {
            Ok(stat) => *final(data) == (Log { time: now, status: stat }) && r == Ok::<
                Log,
                AcquisitionError,
            >(*final(data)),
            Err(e) => *final(data) == *old(data) && r == Err::<Log, AcquisitionError>(e),
        },
{
    match outcome {
        Ok(stat) => {
            let entry = Log { time: now, status: stat };
            *data = entry;
            Ok(entry)
        },
        Err(e) => Err(e),
    }
}

/// While less time than the freshness window has elapsed since the
/// cached entry was stamped, the entry is fresh, so the read path serves it
/// verbatim and no acquisition is started.
pub proof fn lemma_within_window_is_fresh(time: int, window: int, now: int)
    requires
        now - time < window,
    ensures
        fresh(time, window, now),
{
}

/// Once at least the freshness window has elapsed the entry is stale,
/// so the read path reports a miss and the caller, who holds the exclusive
/// lock, runs exactly one acquisition cycle.
pub proof fn lemma_window_elapsed_is_stale(time: int, window: int, now: int)
    requires
        now - time >= window,
    ensures
        !fresh(time, window, now),
{
}

/// The sentinel cell contents are stale at every time at or beyond the
/// freshness window, so the first request always attempts a live
/// acquisition. (Within the first `window` seconds after the epoch the
/// sentinel would still count as fresh; any realistic clock reading
/// lies far beyond them.)
pub proof fn lemma_sentinel_stale(window: u16, now: i64)
    requires
        now >= window,
    ensures
        !fresh(sentinel_log().time as int, window as int, now as int),
{
}

} // verus!
