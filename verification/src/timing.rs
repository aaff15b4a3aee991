//! Spans of time, given by Podman in nanoseconds.

use std::time::Duration;
use vstd::prelude::*;

verus! {

/// Nanoseconds in a second.
pub const NANOS_PER_SEC: u64 = 1_000_000_000;

/// Seconds between checks, and seconds a check may take, where the container sets none.
pub const DEFAULT_SECS: u64 = 30;

/// What `Duration::from_nanos` makes of this many nanoseconds.
pub uninterp spec fn span(nanos: u64) -> Duration;

/// How many nanoseconds a `Duration` lasts, as `Duration::as_nanos` counts them.
pub uninterp spec fn total_nanos(d: Duration) -> nat;

/// `Duration::from_nanos` depends on the number of nanoseconds alone, and lasts that
/// many.
pub assume_specification[ Duration::from_nanos ](nanos: u64) -> (res: Duration)
    ensures
        res == span(nanos),
        total_nanos(res) == nanos,
;

/// `Duration::from_secs` lasts a thousand million times as many nanoseconds. Where that
/// number fits, it is what `Duration::from_nanos` makes of it.
pub assume_specification[ Duration::from_secs ](secs: u64) -> (res: Duration)
    ensures
        secs * NANOS_PER_SEC <= u64::MAX ==> res == span((secs * NANOS_PER_SEC) as u64),
        total_nanos(res) == secs * NANOS_PER_SEC,
;

/// The nanoseconds meant by a setting: where it is zero, the default of thirty seconds.
pub open spec fn effective_nanos(ns: u64) -> u64 {
    if ns == 0 {
        (DEFAULT_SECS * NANOS_PER_SEC) as u64
    } else {
        ns
    }
}

/// The span is the one that a setting means, and lasts as long.
pub open spec fn is_meant_by(d: Duration, ns: u64) -> bool {
    d == span(effective_nanos(ns)) && total_nanos(d) == effective_nanos(ns)
}

/// The time meant by an interval or timeout setting of a container.
///
/// Zero means thirty seconds, so the result is never the empty span.
pub fn ns_to_duration(ns: u64) -> (res: Duration)
    ensures
        is_meant_by(res, ns),
        total_nanos(res) > 0,
        ns > 0 ==> res == span(ns) && total_nanos(res) == ns,
        ns == 0 ==> res == span(30_000_000_000) && total_nanos(res) == 30_000_000_000,
{
    if ns == 0 {
        Duration::from_secs(DEFAULT_SECS)
    } else {
        Duration::from_nanos(ns)
    }
}

/// Every setting means more than no time. A longer positive setting means a longer
/// time, and zero means the same as thirty seconds and as nothing else.
pub proof fn law_longer_settings_mean_longer_times(
    a: u64,
    b: u64,
    shorter: Duration,
    longer: Duration,
)
    requires
        a < b,
        is_meant_by(shorter, a),
        is_meant_by(longer, b),
    ensures
        total_nanos(shorter) > 0,
        total_nanos(longer) > 0,
        a > 0 ==> total_nanos(shorter) < total_nanos(longer),
        a == 0 ==> (shorter == longer <==> b == DEFAULT_SECS * NANOS_PER_SEC),
{
}

/// A positive setting means exactly itself, and zero means exactly thirty seconds.
pub proof fn law_setting_means_itself_or_thirty_seconds(ns: u64, d: Duration)
    requires
        is_meant_by(d, ns),
    ensures
        ns > 0 ==> d == span(ns) && total_nanos(d) == ns,
        ns == 0 ==> d == span(30_000_000_000) && total_nanos(d) == 30_000_000_000,
        ns > 0 ==> effective_nanos(ns) == ns,
        ns == 0 ==> effective_nanos(ns) == 30_000_000_000,
{
}

} // verus!
