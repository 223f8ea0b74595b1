//! The arithmetic of sleeping: how a precise sleep divides into a coarse
//! suspension and a spin on the clock.

use vstd::prelude::*;

verus! {

/// Nanoseconds in a second.
pub const NANOS_PER_SEC: u32 = 1_000_000_000;

/// How long before its deadline a precise sleep stops suspending and starts
/// to poll the clock: four milliseconds, in nanoseconds.
pub const SPIN_MARGIN_NANOS: u32 = 4_000_000;

/// A span of time in whole seconds and nanoseconds.
#[derive(Clone, Copy, Debug, PartialEq, Eq, Structural)]
pub struct Span {
    pub secs: u64,
    pub nanos: u32,
}

/// The length in nanoseconds of `secs` seconds and `nanos` nanoseconds.
pub open spec fn total_nanos(secs: u64, nanos: u32) -> int {
    secs * NANOS_PER_SEC + nanos
}

impl Span {
    /// The length of the span in nanoseconds.
    pub open spec fn nanoseconds(self) -> int {
        total_nanos(self.secs, self.nanos)
    }

    /// True when the nanoseconds stay below one second.
    pub open spec fn normal(self) -> bool {
        self.nanos < NANOS_PER_SEC
    }
}

/// A precise sleep, laid out.
#[derive(Clone, Copy, Debug, PartialEq, Eq, Structural)]
pub struct SleepPlan {
    /// How long to suspend before the spin, if at all.
    pub coarse: Option<Span>,
    /// The whole sleep: the spin ends once this much time has passed since
    /// the sleep was asked for.
    pub total: Span,
}

/// Brings seconds and nanoseconds into normal form, with any whole seconds
/// among the nanoseconds carried over. The answer is `None` exactly where the
/// seconds would no longer fit.
pub fn span(secs: u64, nanos: u32) -> (r: Option<Span>)
    ensures
        match r {
            Some(s) => s.normal() && s.nanoseconds() == total_nanos(secs, nanos),
            None => secs + nanos / NANOS_PER_SEC > u64::MAX,
        },
{
    let carry: u64 = (nanos / NANOS_PER_SEC) as u64;
    let rest: u32 = nanos % NANOS_PER_SEC;
    match secs.checked_add(carry) {
        Some(whole) => Some(Span { secs: whole, nanos: rest }),
        None => None,
    }
}

/// The span that ends `SPIN_MARGIN_NANOS` before `total` does, or `None` if
/// `total` is shorter than that.
fn before_margin(total: Span) -> (r: Option<Span>)
    requires
        total.normal(),
    ensures
        match r {
            Some(s) => s.normal() && s.nanoseconds() == total.nanoseconds() - SPIN_MARGIN_NANOS,
            None => total.nanoseconds() < SPIN_MARGIN_NANOS,
        },
{
    if total.nanos >= SPIN_MARGIN_NANOS {
        Some(Span { secs: total.secs, nanos: total.nanos - SPIN_MARGIN_NANOS })
    } else if total.secs > 0 {
        Some(Span { secs: total.secs - 1, nanos: total.nanos + (NANOS_PER_SEC - SPIN_MARGIN_NANOS) })
    } else {
        None
    }
}

/// Lays out a precise sleep of `secs` seconds and `nanos` nanoseconds:
/// suspend until the margin is left, then poll the clock until the whole
/// time has passed. A sleep shorter than the margin is all spin. The answer
/// is `None` exactly where the time asked for cannot be held.
pub fn plan_precise_sleep(secs: u64, nanos: u32) -> (r: Option<SleepPlan>)
    ensures
        match r {
            Some(plan) => {
                &&& plan.total.normal()
                &&& plan.total.nanoseconds() == total_nanos(secs, nanos)
                &&& match plan.coarse {
                    Some(c) => c.normal() && c.nanoseconds() == total_nanos(secs, nanos)
                        - SPIN_MARGIN_NANOS,
                    None => total_nanos(secs, nanos) < SPIN_MARGIN_NANOS,
                }
            },
            None => secs + nanos / NANOS_PER_SEC > u64::MAX,
        },
{
    match span(secs, nanos) {
        Some(total) => Some(SleepPlan { coarse: before_margin(total), total }),
        None => None,
    }
}

/// Tells whether the spin goes on: whether less time has passed than the
/// sleep is long.
pub fn keeps_spinning(elapsed: Span, total: Span) -> (r: bool)
    ensures
        r == (elapsed.nanoseconds() < total.nanoseconds()),
{
    assert(elapsed.secs * NANOS_PER_SEC <= u64::MAX * NANOS_PER_SEC) by (nonlinear_arith);
    assert(total.secs * NANOS_PER_SEC <= u64::MAX * NANOS_PER_SEC) by (nonlinear_arith);
    let passed: u128 = elapsed.secs as u128 * NANOS_PER_SEC as u128 + elapsed.nanos as u128;
    let wanted: u128 = total.secs as u128 * NANOS_PER_SEC as u128 + total.nanos as u128;
    passed < wanted
}

} // verus!
