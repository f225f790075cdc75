//! The one reading of the outside world the core needs: the wall
//! clock, as whole seconds since the Unix epoch.

use vstd::prelude::*;

verus! {

/// Relies on `std::time::SystemTime::now` and
/// `SystemTime::duration_since(UNIX_EPOCH)`: the wall clock as whole
/// seconds since the epoch. A clock reading before the epoch is
/// reported as 0, and one beyond `i64::MAX` seconds saturates, so the
/// result is never negative.
#[verifier::external_body]
pub fn now_time() -> (r: i64)
    ensures
        r >= 0,
{
    match std::time::SystemTime::now().duration_since(std::time::SystemTime::UNIX_EPOCH) {
        Ok(d) => i64::try_from(d.as_secs()).unwrap_or(i64::MAX),
        Err(_) => 0,
    }
}

} // verus!
