//! Points in time and spans of time, counted in nanoseconds.

use vstd::prelude::*;

verus! {

/// Nanoseconds in one second.
pub const NANOS_PER_SEC: u32 = 1_000_000_000;

/// A point in time: whole seconds since the Unix epoch and the nanoseconds
/// past that second. Its view is the number of nanoseconds since the epoch.
#[derive(Debug, Clone, Copy, PartialEq, Eq)]
pub struct Timestamp {
    secs: i64,
    nanos: u32,
}

/// A span of time that is never negative. Its view is its length in
/// nanoseconds.
#[derive(Debug, Clone, Copy, PartialEq, Eq)]
pub struct Elapsed {
    secs: u64,
    nanos: u32,
}

/// The time that passes from `from` to `to`, zero where `to` is the earlier.
pub open spec fn elapsed_between(from: int, to: int) -> nat {
    if from <= to {
        (to - from) as nat
    } else {
        0
    }
}

impl View for Timestamp {
    type V = int;

    closed spec fn view(&self) -> int {
        self.secs * (NANOS_PER_SEC as int) + self.nanos
    }
}

impl View for Elapsed {
    type V = nat;

    closed spec fn view(&self) -> nat {
        (self.secs * (NANOS_PER_SEC as int) + self.nanos) as nat
    }
}

impl Timestamp {
    #[verifier::type_invariant]
    spec fn sub_second(self) -> bool {
        self.nanos < NANOS_PER_SEC
    }

    /// The point `nanos` nanoseconds after second `secs`; `None` where `nanos`
    /// is a second or more.
    pub fn new(secs: i64, nanos: u32) -> (made: Option<Timestamp>)
        ensures
            made is Some <==> nanos < NANOS_PER_SEC,
            made matches Some(t) ==> t@ == secs * NANOS_PER_SEC + nanos,
    {
        if nanos < NANOS_PER_SEC {
            Some(Timestamp { secs, nanos })
        } else {
            None
        }
    }

    /// Whole seconds since the epoch, rounded down.
    pub fn secs(&self) -> (secs: i64)
        ensures
            secs == self@ / (NANOS_PER_SEC as int),
    {
        proof {
            use_type_invariant(self);
        }
        self.secs
    }

    /// Nanoseconds past the whole second.
    pub fn subsec_nanos(&self) -> (nanos: u32)
        ensures
            nanos == self@ % (NANOS_PER_SEC as int),
    {
        proof {
            use_type_invariant(self);
        }
        self.nanos
    }

    /// The current time by the system clock. The clock decides the
    /// instant; all that is known of it here is that it does not lie before
    /// the epoch, since the reading fails on a clock that does.
    pub fn now() -> (now: Timestamp)
        ensures
            0 <= now@,
    {
        let reading: (i64, u32) = utc_now();
        Timestamp { secs: reading.0, nanos: reading.1 }
    }

    /// The time from this point to `later`, zero where `later` is the earlier.
    pub fn elapsed_until(&self, later: &Timestamp) -> (span: Elapsed)
        ensures
            span@ == elapsed_between(self@, later@),
    {
        proof {
            use_type_invariant(self);
            use_type_invariant(later);
        }
        if later.secs < self.secs || (later.secs == self.secs && later.nanos < self.nanos) {
            Elapsed { secs: 0, nanos: 0 }
        } else if later.nanos >= self.nanos {
            let whole: i128 = later.secs as i128 - self.secs as i128;
            Elapsed { secs: whole as u64, nanos: later.nanos - self.nanos }
        } else {
            let whole: i128 = later.secs as i128 - self.secs as i128 - 1;
            Elapsed { secs: whole as u64, nanos: later.nanos + (NANOS_PER_SEC - self.nanos) }
        }
    }
}

impl Elapsed {
    #[verifier::type_invariant]
    spec fn sub_second(self) -> bool {
        self.nanos < NANOS_PER_SEC
    }

    /// The span of `secs` seconds and `nanos` nanoseconds; `None` where `nanos`
    /// is a second or more.
    pub fn new(secs: u64, nanos: u32) -> (made: Option<Elapsed>)
        ensures
            made is Some <==> nanos < NANOS_PER_SEC,
            made matches Some(span) ==> span@ == secs * NANOS_PER_SEC + nanos,
    {
        if nanos < NANOS_PER_SEC {
            Some(Elapsed { secs, nanos })
        } else {
            None
        }
    }

    /// Whole seconds of the span.
    pub fn secs(&self) -> (secs: u64)
        ensures
            secs == self@ / (NANOS_PER_SEC as nat),
    {
        proof {
            use_type_invariant(self);
        }
        self.secs
    }

    /// Nanoseconds past the whole seconds.
    pub fn subsec_nanos(&self) -> (nanos: u32)
        ensures
            nanos == self@ % (NANOS_PER_SEC as nat),
    {
        proof {
            use_type_invariant(self);
        }
        self.nanos
    }
}

/// Reads the system clock through `chrono::Utc::now` and takes the reading
/// apart with `DateTime::timestamp` and `DateTime::timestamp_subsec_nanos`.
///
/// Nothing is claimed of the instant itself. What is claimed is the shape of
/// the reading: chrono makes it, with `DateTime::from_timestamp`, from the
/// whole seconds and the sub-second nanoseconds of the std `Duration` since
/// the Unix epoch, and documents that the two accessors give back what a
/// `DateTime` was made from. So the seconds are not negative and the
/// nanoseconds are below one second. chrono panics where the system clock
/// stands before the epoch.
#[verifier::external_body]
fn utc_now() -> (reading: (i64, u32))
    ensures
        0 <= reading.0,
        reading.1 < NANOS_PER_SEC,
{
    let now = chrono::Utc::now();
    (now.timestamp(), now.timestamp_subsec_nanos())
}

} // verus!
