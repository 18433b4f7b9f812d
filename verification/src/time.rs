//! Points in time and spans of time, at a resolution of one millisecond.

use vstd::prelude::*;

use core::cmp::Ordering;
use core::ops::{Add, Div, Sub};
use vstd::std_specs::cmp::PartialOrdSpec;
use vstd::std_specs::ops::{AddSpec, DivSpec, SubSpec};

verus! {

/// A point in time, as a signed number of milliseconds from an origin that the user of the
/// library chooses.
#[derive(Debug, Clone, Copy, PartialEq, Eq, Structural)]
pub struct Instant {
    pub millis: i64,
}

/// A span of time, as a number of milliseconds.
#[derive(Debug, Clone, Copy, PartialEq, Eq, Structural)]
pub struct Duration {
    pub millis: u64,
}

impl View for Instant {
    type V = int;

    open spec fn view(&self) -> int {
        self.millis as int
    }
}

impl View for Duration {
    type V = int;

    open spec fn view(&self) -> int {
        self.millis as int
    }
}

/// How two integers compare.
pub open spec fn order(a: int, b: int) -> Ordering {
    if a < b {
        Ordering::Less
    } else if a == b {
        Ordering::Equal
    } else {
        Ordering::Greater
    }
}

/// The smaller of two integers.
pub open spec fn min(a: int, b: int) -> int {
    if a <= b {
        a
    } else {
        b
    }
}

/// The larger of two integers.
pub open spec fn max(a: int, b: int) -> int {
    if a <= b {
        b
    } else {
        a
    }
}

impl Instant {
    /// The instant that lies `millis` milliseconds after the origin.
    pub fn from_millis(millis: i64) -> (r: Instant)
        ensures
            r@ == millis,
    {
        Instant { millis }
    }

    /// The earlier of two instants.
    pub fn min(self, other: Instant) -> (r: Instant)
        ensures
            r@ == min(self@, other@),
    {
        if self <= other {
            self
        } else {
            other
        }
    }
}

impl Duration {
    /// The span of `millis` milliseconds.
    pub fn from_millis(millis: u64) -> (r: Duration)
        ensures
            r@ == millis,
    {
        Duration { millis }
    }

    /// The span of `secs` seconds.
    pub fn from_secs(secs: u64) -> (r: Duration)
        requires
            secs * 1000 <= u64::MAX,
        ensures
            r@ == secs * 1000,
    {
        Duration { millis: secs * 1000 }
    }

    /// The longer of two spans.
    pub fn max(self, other: Duration) -> (r: Duration)
        ensures
            r@ == max(self@, other@),
    {
        if self <= other {
            other
        } else {
            self
        }
    }
}

impl PartialOrd for Instant {
    fn partial_cmp(&self, other: &Self) -> (r: Option<Ordering>) {
        if self.millis < other.millis {
            Some(Ordering::Less)
        } else if self.millis == other.millis {
            Some(Ordering::Equal)
        } else {
            Some(Ordering::Greater)
        }
    }
}

impl vstd::std_specs::cmp::PartialOrdSpecImpl for Instant {
    open spec fn obeys_partial_cmp_spec() -> bool {
        true
    }

    open spec fn partial_cmp_spec(&self, other: &Self) -> Option<Ordering> {
        Some(order(self@, other@))
    }
}

impl PartialOrd for Duration {
    fn partial_cmp(&self, other: &Self) -> (r: Option<Ordering>) {
        if self.millis < other.millis {
            Some(Ordering::Less)
        } else if self.millis == other.millis {
            Some(Ordering::Equal)
        } else {
            Some(Ordering::Greater)
        }
    }
}

impl vstd::std_specs::cmp::PartialOrdSpecImpl for Duration {
    open spec fn obeys_partial_cmp_spec() -> bool {
        true
    }

    open spec fn partial_cmp_spec(&self, other: &Self) -> Option<Ordering> {
        Some(order(self@, other@))
    }
}

/// The instant that lies a span after another one, where it can be represented.
impl Add<Duration> for Instant {
    type Output = Instant;

    fn add(self, rhs: Duration) -> (r: Instant) {
        Instant { millis: (self.millis as i128 + rhs.millis as i128) as i64 }
    }
}

impl vstd::std_specs::ops::AddSpecImpl<Duration> for Instant {
    open spec fn obeys_add_spec() -> bool {
        true
    }

    open spec fn add_req(self, rhs: Duration) -> bool {
        self@ + rhs@ <= i64::MAX
    }

    open spec fn add_spec(self, rhs: Duration) -> Instant {
        Instant { millis: (self@ + rhs@) as i64 }
    }
}

/// The span between two instants, whichever comes first.
impl Sub<Instant> for Instant {
    type Output = Duration;

    fn sub(self, rhs: Instant) -> (r: Duration) {
        if rhs.millis <= self.millis {
            Duration { millis: (self.millis as i128 - rhs.millis as i128) as u64 }
        } else {
            Duration { millis: (rhs.millis as i128 - self.millis as i128) as u64 }
        }
    }
}

impl vstd::std_specs::ops::SubSpecImpl<Instant> for Instant {
    open spec fn obeys_sub_spec() -> bool {
        true
    }

    open spec fn sub_req(self, rhs: Instant) -> bool {
        true
    }

    open spec fn sub_spec(self, rhs: Instant) -> Duration {
        Duration { millis: (max(self@, rhs@) - min(self@, rhs@)) as u64 }
    }
}

/// A span divided by a whole number, rounded down.
impl Div<u32> for Duration {
    type Output = Duration;

    fn div(self, rhs: u32) -> (r: Duration) {
        Duration { millis: self.millis / (rhs as u64) }
    }
}

impl vstd::std_specs::ops::DivSpecImpl<u32> for Duration {
    open spec fn obeys_div_spec() -> bool {
        true
    }

    open spec fn div_req(self, rhs: u32) -> bool {
        rhs != 0
    }

    open spec fn div_spec(self, rhs: u32) -> Duration {
        Duration { millis: (self@ / rhs as int) as u64 }
    }
}

/// Instants and spans of time count milliseconds, and so do the sums, differences and fractions of
/// them.
pub proof fn times_count_milliseconds(t: Instant, u: Instant, d: Duration, n: u32)
    requires
        n > 0,
    ensures
        t@ == t.millis,
        d@ == d.millis,
        t.add_req(d) == (t.millis + d.millis <= i64::MAX),
        t.millis + d.millis <= i64::MAX ==> t.add_spec(d).millis == t.millis + d.millis,
        t.sub_req(u),
        t.sub_spec(u).millis == if t.millis >= u.millis {
            t.millis - u.millis
        } else {
            u.millis - t.millis
        },
        d.div_req(n),
        d.div_spec(n).millis == d.millis as int / n as int,
{
    assert(0 <= d.millis as int / n as int <= d.millis as int) by (nonlinear_arith)
        requires
            n > 0,
    ;
}

/// Instants and spans of time are ordered by their milliseconds.
pub proof fn times_are_ordered(t: Instant, u: Instant, c: Duration, d: Duration)
    ensures
        t.millis < u.millis ==> t.partial_cmp_spec(&u) == Some(Ordering::Less),
        t.millis == u.millis ==> t.partial_cmp_spec(&u) == Some(Ordering::Equal),
        t.millis > u.millis ==> t.partial_cmp_spec(&u) == Some(Ordering::Greater),
        c.millis < d.millis ==> c.partial_cmp_spec(&d) == Some(Ordering::Less),
        c.millis == d.millis ==> c.partial_cmp_spec(&d) == Some(Ordering::Equal),
        c.millis > d.millis ==> c.partial_cmp_spec(&d) == Some(Ordering::Greater),
{
}

/// The smaller and the larger of two numbers are the two numbers, and lie in that order.
pub proof fn min_and_max_are_bounds(a: int, b: int)
    ensures
        min(a, b) <= a,
        min(a, b) <= b,
        min(a, b) == a || min(a, b) == b,
        max(a, b) >= a,
        max(a, b) >= b,
        max(a, b) == a || max(a, b) == b,
{
}

} // verus!
