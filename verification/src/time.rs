//! Points in time and spans of time, with nanosecond resolution.

use vstd::prelude::*;

verus! {

/// The number of nanoseconds in a second.
pub const NANOS_PER_SEC: u32 = 1_000_000_000;

/// The number of nanoseconds in a millisecond.
pub const NANOS_PER_MILLI: u32 = 1_000_000;

/// A second has a billion nanoseconds, and a millisecond is a thousandth of it.
pub proof fn a_second_has_a_billion_nanoseconds()
    ensures
        NANOS_PER_SEC == 1_000_000_000,
        NANOS_PER_MILLI * 1000 == NANOS_PER_SEC,
        SystemTime::latest() == 0x7fff_ffff_ffff_ffff * 1_000_000_000 + 999_999_999,
{
}

/// A span of time: whole seconds and a fraction of a second in nanoseconds.
/// Its view is its length in nanoseconds.
#[derive(Clone, Copy, Debug, PartialEq, Eq, PartialOrd, Ord, Hash)]
pub struct Duration {
    secs: u64,
    nanos: u32,
}

impl View for Duration {
    type V = nat;

    closed spec fn view(&self) -> nat {
        (self.secs * NANOS_PER_SEC + self.nanos) as nat
    }
}

impl Duration {
    #[verifier::type_invariant]
    spec fn canonical(self) -> bool {
        self.nanos < NANOS_PER_SEC
    }

    /// The span of `secs` seconds and `nanos` nanoseconds.
    pub fn new(secs: u64, nanos: u32) -> (result: Self)
        requires
            nanos < NANOS_PER_SEC,
        ensures
            result@ == secs * NANOS_PER_SEC + nanos,
    {
        Duration { secs, nanos }
    }

    /// The span of `secs` seconds.
    pub fn from_secs(secs: u64) -> (result: Self)
        ensures
            result@ == secs * NANOS_PER_SEC,
    {
        Duration { secs, nanos: 0 }
    }

    /// The span of `millis` milliseconds.
    pub fn from_millis(millis: u64) -> (result: Self)
        ensures
            result@ == millis * NANOS_PER_MILLI,
    {
        let secs: u64 = millis / 1000;
        let rest: u32 = (millis % 1000) as u32;
        Duration { secs, nanos: rest * NANOS_PER_MILLI }
    }

    /// The whole seconds and the remaining nanoseconds of the span.
    pub fn parts(&self) -> (result: (u64, u32))
        ensures
            result.0 * NANOS_PER_SEC + result.1 == self@,
            result.1 < NANOS_PER_SEC,
    {
        proof {
            use_type_invariant(self);
        }
        (self.secs, self.nanos)
    }

    /// Whether the span has no length.
    pub fn is_zero(&self) -> (result: bool)
        ensures
            result == (self@ == 0),
    {
        self.secs == 0 && self.nanos == 0
    }

    /// The number of whole milliseconds in the span.
    pub fn as_millis(&self) -> (result: u128)
        ensures
            result == self@ / NANOS_PER_MILLI as nat,
    {
        proof {
            use_type_invariant(self);
        }
        self.secs as u128 * 1000 + (self.nanos / NANOS_PER_MILLI) as u128
    }
}

/// A point in time: whole seconds from the Unix epoch, rounded towards the
/// past, and the nanoseconds after them. Its view is the number of nanoseconds
/// from the Unix epoch, negative before it.
#[derive(Clone, Copy, Debug, PartialEq, Eq, PartialOrd, Ord, Hash)]
pub struct SystemTime {
    secs: i64,
    nanos: u32,
}

impl View for SystemTime {
    type V = int;

    closed spec fn view(&self) -> int {
        self.secs * NANOS_PER_SEC + self.nanos
    }
}

impl SystemTime {
    #[verifier::type_invariant]
    spec fn canonical(self) -> bool {
        self.nanos < NANOS_PER_SEC
    }

    /// The latest point in time that can be represented.
    pub open spec fn latest() -> int {
        i64::MAX * NANOS_PER_SEC + (NANOS_PER_SEC - 1)
    }

    /// The Unix epoch.
    pub fn unix_epoch() -> (result: Self)
        ensures
            result@ == 0,
    {
        SystemTime { secs: 0, nanos: 0 }
    }

    /// The point `nanos` nanoseconds after the second `secs`.
    pub fn from_parts(secs: i64, nanos: u32) -> (result: Self)
        requires
            nanos < NANOS_PER_SEC,
        ensures
            result@ == secs * NANOS_PER_SEC + nanos,
    {
        SystemTime { secs, nanos }
    }

    /// The seconds from the epoch, rounded towards the past, and the
    /// nanoseconds after them.
    pub fn parts(&self) -> (result: (i64, u32))
        ensures
            result.0 * NANOS_PER_SEC + result.1 == self@,
            result.1 < NANOS_PER_SEC,
    {
        proof {
            use_type_invariant(self);
        }
        (self.secs, self.nanos)
    }

    /// Whether the point lies before `other`.
    pub fn is_before(&self, other: &Self) -> (result: bool)
        ensures
            result == (self@ < other@),
    {
        proof {
            use_type_invariant(self);
            use_type_invariant(other);
        }
        self.secs < other.secs || (self.secs == other.secs && self.nanos < other.nanos)
    }

    /// The point `duration` later, unless it lies beyond the latest one.
    pub fn checked_add(&self, duration: Duration) -> (result: Option<Self>)
        ensures
            result is Some == (self@ + duration@ <= Self::latest()),
            result matches Some(later) ==> later@ == self@ + duration@,
    {
        proof {
            use_type_invariant(self);
            use_type_invariant(&duration);
        }
        let sum: u32 = self.nanos + duration.nanos;
        let carry: bool = sum >= NANOS_PER_SEC;
        let nanos: u32 = if carry {
            sum - NANOS_PER_SEC
        } else {
            sum
        };
        let secs: i128 = self.secs as i128 + duration.secs as i128 + if carry {
            1
        } else {
            0
        };
        if secs > i64::MAX as i128 {
            None
        } else {
            Some(SystemTime { secs: secs as i64, nanos })
        }
    }

    /// The point `duration` later, or `limit` if that comes first.
    pub fn add_up_to(&self, duration: Duration, limit: Self) -> (result: Self)
        ensures
            result@ == if self@ + duration@ <= limit@ {
                self@ + duration@
            } else {
                limit@
            },
    {
        proof {
            use_type_invariant(&limit);
        }
        match self.checked_add(duration) {
            Some(later) => if limit.is_before(&later) {
                limit
            } else {
                later
            },
            None => limit,
        }
    }
}

/// A span is what its seconds and nanoseconds say, however it was made: they come
/// back as they were put in, and the whole milliseconds in it are counted.
pub proof fn span_is_what_it_was_made_of(
    secs: u64,
    nanos: u32,
    span: Duration,
    parts: (u64, u32),
    millis: u128,
    zero: bool,
)
    requires
        nanos < 1_000_000_000,
        call_ensures(Duration::new, (secs, nanos), span),
        call_ensures(Duration::parts, (&span,), parts),
        call_ensures(Duration::as_millis, (&span,), millis),
        call_ensures(Duration::is_zero, (&span,), zero),
    ensures
        parts == (secs, nanos),
        millis == secs * 1000 + nanos / 1_000_000,
        zero <==> secs == 0 && nanos == 0,
        span@ == secs * 1_000_000_000 + nanos,
{
}

/// Spans of seconds and of milliseconds have that many of them.
pub proof fn span_has_its_seconds_or_milliseconds(
    count: u64,
    of_secs: Duration,
    secs: (u64, u32),
    of_millis: Duration,
    millis: u128,
    rest: (u64, u32),
)
    requires
        call_ensures(Duration::from_secs, (count,), of_secs),
        call_ensures(Duration::parts, (&of_secs,), secs),
        call_ensures(Duration::from_millis, (count,), of_millis),
        call_ensures(Duration::as_millis, (&of_millis,), millis),
        call_ensures(Duration::parts, (&of_millis,), rest),
    ensures
        secs == (count, 0u32),
        millis == count,
        rest.1 % 1_000_000 == 0,
{
}

/// A point in time is what its seconds and nanoseconds say, and points are in the
/// order of their seconds and then of their nanoseconds.
pub proof fn point_is_what_it_was_made_of(
    secs: i64,
    nanos: u32,
    point: SystemTime,
    parts: (i64, u32),
    epoch: SystemTime,
    epoch_parts: (i64, u32),
    other: SystemTime,
    other_parts: (i64, u32),
    before: bool,
)
    requires
        nanos < 1_000_000_000,
        call_ensures(SystemTime::from_parts, (secs, nanos), point),
        call_ensures(SystemTime::parts, (&point,), parts),
        call_ensures(SystemTime::unix_epoch, (), epoch),
        call_ensures(SystemTime::parts, (&epoch,), epoch_parts),
        call_ensures(SystemTime::parts, (&other,), other_parts),
        call_ensures(SystemTime::is_before, (&point, &other), before),
    ensures
        parts == (secs, nanos),
        point@ == secs * 1_000_000_000 + nanos,
        epoch_parts == (0i64, 0u32),
        before <==> secs < other_parts.0 || secs == other_parts.0 && nanos < other_parts.1,
{
}

/// A point in time can be moved on by a span unless that leads beyond the last
/// second that can be counted, and is then that much later. Moved on up to a
/// limit, it is the earlier of the two.
pub proof fn point_moves_on_by_the_span(
    point: SystemTime,
    parts: (i64, u32),
    span: Duration,
    span_parts: (u64, u32),
    later: Option<SystemTime>,
    limit: SystemTime,
    end: SystemTime,
)
    requires
        call_ensures(SystemTime::parts, (&point,), parts),
        call_ensures(Duration::parts, (&span,), span_parts),
        call_ensures(SystemTime::checked_add, (&point, span), later),
        call_ensures(SystemTime::add_up_to, (&point, span, limit), end),
    ensures
        ({
            let sum = (parts.0 + span_parts.0) * 1_000_000_000 + parts.1 + span_parts.1;
            &&& later is Some <==> sum < 0x8000_0000_0000_0000 * 1_000_000_000
            &&& later matches Some(moved) ==> moved@ == sum
            &&& end@ <= sum && end@ <= limit@
            &&& end@ == sum || end@ == limit@
        }),
{
}

} // verus!
