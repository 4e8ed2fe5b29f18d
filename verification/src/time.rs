//! Instants and durations, held as whole seconds and nanoseconds.
//!
//! Every deadline in this crate is an [`Instant`]: a point on the UTC time
//! line, counted from the Unix epoch. A [`Duration`] is a signed span that an
//! instant can be moved by. Both are plain values, so that the arithmetic on
//! them is proved here and the system clock is read in exactly one place.

use vstd::prelude::*;

verus! {

/// Nanoseconds in one second.
pub const NANOS_PER_SEC: u32 = 1_000_000_000;

/// The longest span, in whole seconds, that a [`Duration`] may cover
/// forwards. Backwards it may cover up to that many seconds and a fraction;
/// such a span counts one whole second more and the rest forwards.
pub const MAX_DURATION_SECS: i64 = 9_223_372_036_854_775;

/// The latest second that the system clock can report.
pub const MAX_CLOCK_SECS: i64 = 185_542_587_187_199;

/// A signed span of time: `secs` whole seconds plus `nanos` nanoseconds.
///
/// The nanoseconds always count forwards, so that half a second before zero
/// is `secs == -1` with `nanos == 500_000_000`.
#[derive(Clone, Copy, Debug, PartialEq, Eq, Structural)]
pub struct Duration {
    pub secs: i64,
    pub nanos: u32,
}

impl Duration {
    /// The fraction is below one second and the whole seconds are no more
    /// than [`MAX_DURATION_SECS`] forwards, and no more than one second
    /// beyond that backwards.
    pub open spec fn wf(self) -> bool {
        &&& self.nanos < NANOS_PER_SEC
        &&& -MAX_DURATION_SECS - 1 <= self.secs <= MAX_DURATION_SECS
    }

    /// The span in nanoseconds.
    pub open spec fn as_nanos(self) -> int {
        self.secs * 1_000_000_000 + self.nanos
    }

    /// The span of `secs` seconds and `nanos` nanoseconds, or `None` where
    /// that is no well-formed span.
    pub fn new(secs: i64, nanos: u32) -> (d: Option<Duration>)
        ensures
            d == if (Duration { secs, nanos }).wf() {
                Some(Duration { secs, nanos })
            } else {
                None::<Duration>
            },
    {
        if nanos < NANOS_PER_SEC && -MAX_DURATION_SECS - 1 <= secs && secs <= MAX_DURATION_SECS {
            Some(Duration { secs, nanos })
        } else {
            None
        }
    }

    /// The span of `secs` seconds and `nanos` nanoseconds, where the
    /// nanoseconds may count backwards too, or `None` where no well-formed
    /// span is that long.
    pub fn from_signed(secs: i64, nanos: i32) -> (d: Option<Duration>)
        ensures
            d matches Some(span) ==> span.wf() && span.as_nanos() == secs * 1_000_000_000 + nanos,
            d is Some <==> (-MAX_DURATION_SECS - 1) * 1_000_000_000 <= secs * 1_000_000_000
                + nanos <= MAX_DURATION_SECS * 1_000_000_000 + 999_999_999,
    {
        let n: i64 = nanos as i64;
        let billion: i64 = 1_000_000_000;
        // How many whole seconds the nanoseconds hold, rounded towards the
        // past, and what is left of them.
        let whole: i64 = if n >= 0 {
            n / billion
        } else {
            -((billion - 1 - n) / billion)
        };
        let rest: i64 = n - whole * billion;
        assert(0 <= rest < 1_000_000_000 && -3 <= whole <= 2);
        if secs < -MAX_DURATION_SECS - 4 || secs > MAX_DURATION_SECS + 3 {
            None
        } else {
            Duration::new(secs + whole, rest as u32)
        }
    }

    /// The span of `secs` whole seconds.
    pub fn seconds(secs: u32) -> (d: Duration)
        ensures
            d.wf(),
            d.as_nanos() == secs * 1_000_000_000,
            d == (Duration { secs: secs as i64, nanos: 0 }),
    {
        Duration { secs: secs as i64, nanos: 0 }
    }
}

/// A point on the UTC time line: `secs` whole seconds since the Unix epoch
/// plus `nanos` nanoseconds.
#[derive(Clone, Copy, Debug, PartialEq, Eq, Structural)]
pub struct Instant {
    pub secs: i64,
    pub nanos: u32,
}

impl Instant {
    /// The fraction is below one second.
    pub open spec fn wf(self) -> bool {
        self.nanos < NANOS_PER_SEC
    }

    /// Nanoseconds since the Unix epoch.
    pub open spec fn as_nanos(self) -> int {
        self.secs * 1_000_000_000 + self.nanos
    }

    /// Whether moving this instant by `d` stays within what an instant can
    /// hold.
    pub open spec fn can_add(self, d: Duration) -> bool {
        i64::MIN <= self.secs + d.secs && self.secs + d.secs + 1 <= i64::MAX
    }

    /// This instant moved by `d`.
    pub open spec fn spec_plus(self, d: Duration) -> Instant {
        if self.nanos + d.nanos >= NANOS_PER_SEC {
            Instant {
                secs: (self.secs + d.secs + 1) as i64,
                nanos: (self.nanos + d.nanos - NANOS_PER_SEC) as u32,
            }
        } else {
            Instant { secs: (self.secs + d.secs) as i64, nanos: (self.nanos + d.nanos) as u32 }
        }
    }

    /// The instant `nanos` nanoseconds after the second `secs` since the
    /// Unix epoch, or `None` where the nanoseconds make up a second or more.
    pub fn from_timestamp(secs: i64, nanos: u32) -> (t: Option<Instant>)
        ensures
            t == if nanos < NANOS_PER_SEC {
                Some(Instant { secs, nanos })
            } else {
                None::<Instant>
            },
    {
        if nanos < NANOS_PER_SEC {
            Some(Instant { secs, nanos })
        } else {
            None
        }
    }

    /// Whether this instant can be moved by `d`.
    pub fn fits(&self, d: &Duration) -> (b: bool)
        ensures
            b == self.can_add(*d),
    {
        match self.secs.checked_add(d.secs) {
            Some(sum) => sum < i64::MAX,
            None => false,
        }
    }

    /// Whole seconds since the Unix epoch, rounded towards the past.
    pub fn timestamp(&self) -> (secs: i64)
        ensures
            secs == self.secs,
    {
        self.secs
    }

    /// This instant moved by `d`.
    pub fn plus(&self, d: Duration) -> (t: Instant)
        requires
            self.wf(),
            d.wf(),
            self.can_add(d),
        ensures
            t == self.spec_plus(d),
            t.wf(),
            t.as_nanos() == self.as_nanos() + d.as_nanos(),
    {
        let sum: u32 = self.nanos + d.nanos;
        if sum >= NANOS_PER_SEC {
            Instant { secs: self.secs + d.secs + 1, nanos: sum - NANOS_PER_SEC }
        } else {
            Instant { secs: self.secs + d.secs, nanos: sum }
        }
    }

    /// Whether this instant lies strictly before `other`.
    pub fn is_before(&self, other: &Instant) -> (b: bool)
        requires
            self.wf(),
            other.wf(),
        ensures
            b == (self.as_nanos() < other.as_nanos()),
    {
        self.secs < other.secs || (self.secs == other.secs && self.nanos < other.nanos)
    }

    /// Moving an instant by a duration adds their nanoseconds.
    pub proof fn lemma_plus_adds(t: Instant, d: Duration)
        requires
            t.wf(),
            d.wf(),
            t.can_add(d),
        ensures
            t.spec_plus(d).wf(),
            t.spec_plus(d).as_nanos() == t.as_nanos() + d.as_nanos(),
    {
    }

    /// Whether this instant is one that the system clock can report: not
    /// before the Unix epoch, not after [`MAX_CLOCK_SECS`], with a fraction
    /// below one second. Such an instant can be moved by every well-formed
    /// duration.
    pub open spec fn is_clock_reading(self) -> bool {
        self.wf() && 0 <= self.secs <= MAX_CLOCK_SECS
    }

    /// The present moment, as the system clock reports it.
    pub fn now() -> (t: Instant)
        ensures
            t.is_clock_reading(),
    {
        utc_now()
    }
}

/// Reads the system clock with `chrono::Utc::now`.
///
/// The clock may report any moment, so nothing is claimed of which one comes
/// back. What is claimed is the shape of every reading: `chrono` builds it
/// from a count of seconds since the epoch that is not negative, whose day
/// number fits in an `i32`, and from a fraction below one second.
///
/// `chrono` panics where the system clock stands before the Unix epoch.
#[verifier::external_body]
fn utc_now() -> (t: Instant)
    ensures
        t.is_clock_reading(),
{
    let now = chrono::Utc::now();
    Instant { secs: now.timestamp(), nanos: now.timestamp_subsec_nanos() }
}

} // verus!
