//! Points in time and lengths of time, both counted in whole nanoseconds.

use vstd::prelude::*;

verus! {

/// Nanoseconds in one second.
pub const NANOS_PER_SEC: u32 = 1_000_000_000;

/// A length of time that is never negative: whole seconds and the
/// nanoseconds of the last, unfinished second.
#[derive(Clone, Copy, Debug, PartialEq, Eq)]
pub struct Span {
    secs: u64,
    nanos: u32,
}

impl View for Span {
    type V = nat;

    /// The length in nanoseconds.
    closed spec fn view(&self) -> nat {
        (self.secs as nat) * 1_000_000_000 + (self.nanos as nat)
    }
}

impl Span {
    #[verifier::type_invariant]
    spec fn well_formed(self) -> bool {
        self.nanos < NANOS_PER_SEC
    }

    /// A span of `secs` seconds and `nanos` nanoseconds, unless `nanos` is a
    /// full second or more.
    pub fn new(secs: u64, nanos: u32) -> (span: Option<Span>)
        ensures
            span is Some <==> nanos < NANOS_PER_SEC,
            span matches Some(s) ==> s@ == secs * 1_000_000_000 + nanos,
    {
        if nanos < NANOS_PER_SEC {
            Some(Span { secs, nanos })
        } else {
            None
        }
    }

    /// A span of `secs` whole seconds.
    pub fn from_secs(secs: u64) -> (span: Span)
        ensures
            span@ == secs * 1_000_000_000,
    {
        Span { secs, nanos: 0 }
    }

    /// The whole seconds of the span.
    pub fn as_secs(&self) -> (secs: u64)
        ensures
            secs == self@ / 1_000_000_000,
    {
        proof {
            use_type_invariant(self);
        }
        self.secs
    }

    /// What is left of the span beyond its whole seconds, in nanoseconds.
    pub fn subsec_nanos(&self) -> (nanos: u32)
        ensures
            nanos == self@ % 1_000_000_000,
    {
        proof {
            use_type_invariant(self);
        }
        self.nanos
    }

    /// Whether this span is as long as `other`, or longer.
    pub fn at_least(&self, other: &Span) -> (longer: bool)
        ensures
            longer == (self@ >= other@),
    {
        proof {
            use_type_invariant(self);
            use_type_invariant(other);
        }
        self.secs > other.secs || (self.secs == other.secs && self.nanos >= other.nanos)
    }
}

/// A point in time: whole seconds since 1970-01-01 00:00:00 UTC, negative
/// before it, and the nanoseconds that follow them.
#[derive(Clone, Copy, Debug, PartialEq, Eq)]
pub struct Timestamp {
    secs: i64,
    nanos: u32,
}

impl View for Timestamp {
    type V = int;

    /// Nanoseconds since the epoch.
    closed spec fn view(&self) -> int {
        (self.secs as int) * 1_000_000_000 + (self.nanos as int)
    }
}

impl Timestamp {
    #[verifier::type_invariant]
    spec fn well_formed(self) -> bool {
        self.nanos < NANOS_PER_SEC
    }

    /// The point `nanos` nanoseconds after second `secs`, unless `nanos` is
    /// a full second or more.
    pub fn new(secs: i64, nanos: u32) -> (at: Option<Timestamp>)
        ensures
            at is Some <==> nanos < NANOS_PER_SEC,
            at matches Some(t) ==> t@ == secs * 1_000_000_000 + nanos,
    {
        if nanos < NANOS_PER_SEC {
            Some(Timestamp { secs, nanos })
        } else {
            None
        }
    }

    /// The point `secs` seconds and `nanos` nanoseconds after the epoch,
    /// unless `nanos` is a full second or more, or the point lies too late
    /// for the 64 bits that count its seconds.
    pub fn since_epoch(secs: u64, nanos: u32) -> (at: Option<Timestamp>)
        ensures
            at is Some <==> nanos < NANOS_PER_SEC && secs <= i64::MAX,
            at matches Some(t) ==> t@ == secs * 1_000_000_000 + nanos,
    {
        if nanos < NANOS_PER_SEC && secs <= i64::MAX as u64 {
            Some(Timestamp { secs: secs as i64, nanos })
        } else {
            None
        }
    }

    /// The point `secs` seconds and `nanos` nanoseconds before the epoch,
    /// unless `nanos` is a full second or more, or the point lies too early
    /// for the 64 bits that count its seconds.
    pub fn before_epoch(secs: u64, nanos: u32) -> (at: Option<Timestamp>)
        ensures
            at is Some <==> nanos < NANOS_PER_SEC && secs * 1_000_000_000 + nanos
                <= 9_223_372_036_854_775_808 * 1_000_000_000,
            at matches Some(t) ==> t@ == -(secs * 1_000_000_000 + nanos),
    {
        if nanos >= NANOS_PER_SEC {
            None
        } else if nanos == 0 {
            if secs <= i64::MAX as u64 {
                Some(Timestamp { secs: -(secs as i64), nanos: 0 })
            } else if secs == i64::MAX as u64 + 1 {
                Some(Timestamp { secs: i64::MIN, nanos: 0 })
            } else {
                None
            }
        } else if secs <= i64::MAX as u64 {
            Some(Timestamp { secs: -(secs as i64) - 1, nanos: NANOS_PER_SEC - nanos })
        } else {
            None
        }
    }

    /// The time from this point up to `now`; none if this point lies after
    /// `now`.
    pub fn elapsed_at(&self, now: &Timestamp) -> (age: Option<Span>)
        ensures
            age is Some <==> self@ <= now@,
            age matches Some(a) ==> a@ == now@ - self@,
    {
        proof {
            use_type_invariant(self);
            use_type_invariant(now);
        }
        if self.secs > now.secs || (self.secs == now.secs && self.nanos > now.nanos) {
            None
        } else {
            let whole: u64 = (now.secs as i128 - self.secs as i128) as u64;
            if now.nanos >= self.nanos {
                Some(Span { secs: whole, nanos: now.nanos - self.nanos })
            } else {
                Some(Span { secs: whole - 1, nanos: now.nanos + NANOS_PER_SEC - self.nanos })
            }
        }
    }
}

} // verus!
