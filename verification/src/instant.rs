//! A monotonic timestamp with microsecond resolution, and the clock that
//! hands such timestamps out in order.

use std::ops::Sub;
use vstd::prelude::*;
use vstd::std_specs::ops::SubSpec;
use vstd::std_specs::ops::SubSpecImpl;

verus! {

/// A point in time, counted in microseconds since the hardware counter
/// started. The only arithmetic on it is the subtraction of an earlier
/// instant from a later one, which gives the microseconds between them.
#[derive(Clone, Copy, Debug, PartialEq, Eq, PartialOrd, Ord, Hash, Structural)]
pub struct Instant {
    micros: u64,
}

impl View for Instant {
    type V = nat;

    /// The microseconds since the counter started.
    closed spec fn view(&self) -> nat {
        self.micros as nat
    }
}

impl Instant {
    /// The instant at which the counter started.
    pub fn start() -> (t: Instant)
        ensures
            t@ == 0,
    {
        Instant { micros: 0 }
    }

    /// The instant `micros` microseconds after the counter started.
    pub fn from_micros(micros: u64) -> (t: Instant)
        ensures
            t@ == micros,
    {
        Instant { micros }
    }

    /// The microseconds since the counter started.
    pub fn as_micros(&self) -> (micros: u64)
        ensures
            micros == self@,
    {
        self.micros
    }

    /// Whether `self` was taken no later than `other`.
    pub fn is_at_or_before(&self, other: &Instant) -> (b: bool)
        ensures
            b == (self@ <= other@),
    {
        self.micros <= other.micros
    }

    /// The microseconds from `earlier` to `self`, or `None` where `earlier`
    /// is in fact the later of the two.
    pub fn checked_duration_since(&self, earlier: &Instant) -> (d: Option<u64>)
        ensures
            earlier@ <= self@ ==> d == Some((self@ - earlier@) as u64),
            earlier@ > self@ ==> d.is_none(),
    {
        if earlier.micros <= self.micros {
            Some(self.micros - earlier.micros)
        } else {
            None
        }
    }
}

impl SubSpecImpl<Instant> for Instant {
    open spec fn obeys_sub_spec() -> bool {
        true
    }

    /// Subtraction is defined for an earlier instant on the right only.
    open spec fn sub_req(self, rhs: Instant) -> bool {
        rhs@ <= self@
    }

    open spec fn sub_spec(self, rhs: Instant) -> u64 {
        (self@ - rhs@) as u64
    }
}

impl Sub<Instant> for Instant {
    type Output = u64;

    /// The microseconds elapsed from `rhs` to `self`.
    fn sub(self, rhs: Instant) -> (d: u64)
        ensures
            d == self@ - rhs@,
    {
        self.micros - rhs.micros
    }
}

/// The clock: it turns readings of the hardware counter into instants that
/// never run backwards. Reading the counter is the caller's part.
#[derive(Debug)]
pub struct Clock {
    latest: Instant,
}

impl View for Clock {
    type V = nat;

    /// The time of the latest sample, in microseconds.
    closed spec fn view(&self) -> nat {
        self.latest@
    }
}

/// The time that a clock whose latest sample was at `latest` gives to a
/// reading of `ticks`: the reading itself, unless the counter has fallen
/// back behind the latest sample, for which the clock stands still.
pub open spec fn time_at(latest: nat, ticks: u64) -> nat {
    if ticks >= latest {
        ticks as nat
    } else {
        latest
    }
}

impl Clock {
    /// A clock that has taken no sample yet.
    pub fn new() -> (clock: Clock)
        ensures
            clock@ == 0,
    {
        Clock { latest: Instant::start() }
    }

    /// The latest sample.
    pub fn latest(&self) -> (t: Instant)
        ensures
            t@ == self@,
    {
        self.latest
    }

    /// Takes a sample: the instant for a reading `ticks` of the counter,
    /// which counts microseconds. The sample is never earlier than the one
    /// before it, so that the time elapsed between two samples, the earlier
    /// subtracted from the later, is defined and not negative.
    pub fn sample(&mut self, ticks: u64) -> (now: Instant)
        ensures
            now@ == time_at(old(self)@, ticks),
            final(self)@ == now@,
            old(self)@ <= now@,
    {
        if ticks >= self.latest.micros {
            self.latest = Instant { micros: ticks };
        }
        self.latest
    }
}

/// Two instants with the same count of microseconds are the same instant,
/// and every count fits the hardware counter's 64 bits.
pub proof fn lemma_instant_is_its_count(a: Instant, b: Instant)
    ensures
        a@ <= u64::MAX,
        a@ == b@ <==> a == b,
{
}

/// Elapsed time between samples taken in order is never negative, and it adds
/// up: going from `a` to `c` takes as long as going from `a` to `b` and then
/// from `b` to `c`.
pub proof fn lemma_elapsed_adds_up(a: Instant, b: Instant, c: Instant)
    requires
        a@ <= b@ <= c@,
    ensures
        SubSpec::sub_req(b, a) && SubSpec::sub_req(c, b) && SubSpec::sub_req(c, a),
        0 <= SubSpec::sub_spec(b, a) <= SubSpec::sub_spec(c, a),
        SubSpec::sub_spec(c, a) == SubSpec::sub_spec(c, b) + SubSpec::sub_spec(b, a),
        a@ + SubSpec::sub_spec(b, a) == b@,
{
}

} // verus!
