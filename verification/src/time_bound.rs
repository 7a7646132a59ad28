use vstd::prelude::*;

verus! {

/// Whether a record may be claimed before or after its timestamp.
#[derive(Debug, Clone, Copy, PartialEq, Eq, Structural)]
pub enum TimeBoundKind {
    Before,
    After,
}

/// A time predicate gating claim eligibility: claims are allowed only
/// up to (`Before`) or only from (`After`) the given timestamp.
/// Immutable once attached to a record.
#[derive(Debug, Clone, Copy, PartialEq, Eq, Structural)]
pub struct TimeBound {
    pub kind: TimeBoundKind,
    pub timestamp: u64,
}

/// What a time bound means at time `now`: `Before` holds while
/// `now <= timestamp`, `After` holds once `now >= timestamp`.
pub open spec fn time_bound_holds(time_bound: TimeBound, now: u64) -> bool {
    match time_bound.kind {
        TimeBoundKind::Before => now <= time_bound.timestamp,
        TimeBoundKind::After => now >= time_bound.timestamp,
    }
}

/// Check a time bound against the current time `now`. Total over all
/// inputs; no side effects.
pub fn check_time_bound(time_bound: &TimeBound, now: u64) -> (r: bool)
    ensures
        r == time_bound_holds(*time_bound, now),
{
    match time_bound.kind {
        TimeBoundKind::Before => now <= time_bound.timestamp,
        TimeBoundKind::After => now >= time_bound.timestamp,
    }
}

} // verus!
