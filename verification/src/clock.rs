//! A clock read in nanoseconds since it was started, whose readings never go
//! back.

use vstd::prelude::*;

verus! {

#[verifier::external_type_specification]
#[verifier::external_body]
pub struct ExInstant(instant::Instant);

/// `instant::Instant::now`: the present moment. Nothing is claimed of it.
#[verifier::external_body]
fn instant_now() -> (t: instant::Instant) {
    instant::Instant::now()
}

/// `Instant::elapsed`: the time gone by since `t`. Nothing is claimed of it.
#[verifier::external_body]
fn instant_elapsed(t: &instant::Instant) -> (d: instant::Duration) {
    t.elapsed()
}

/// `Duration::as_nanos`: the nanoseconds in `d`. Nothing is claimed of it.
#[verifier::external_body]
fn duration_nanos(d: &instant::Duration) -> (ns: u128) {
    d.as_nanos()
}

/// The reading that follows the reading `last` when `ns` nanoseconds have
/// gone by since the start: `ns` itself, held at the largest value where it
/// does not fit, and never less than `last`.
pub open spec fn reading(last: u64, ns: u128) -> u64 {
    if ns > u64::MAX {
        u64::MAX
    } else if ns < last {
        last
    } else {
        ns as u64
    }
}

/// Computes the reading that follows `last` from the nanoseconds gone by.
pub fn next_reading(last: u64, ns: u128) -> (now: u64)
    ensures
        now == reading(last, ns),
        now >= last,
{
    if ns > u64::MAX as u128 {
        u64::MAX
    } else if ns < last as u128 {
        last
    } else {
        ns as u64
    }
}

/// The clock that stamps filesystem changes and times the quiet period. Its
/// readings never go back.
pub struct Clock {
    origin: instant::Instant,
    last: u64,
}

impl View for Clock {
    type V = u64;

    /// The last reading, zero before the first.
    closed spec fn view(&self) -> u64 {
        self.last
    }
}

impl Clock {
    /// The moment the clock was started.
    pub closed spec fn started(&self) -> instant::Instant {
        self.origin
    }

    /// A clock whose zero is the moment of this call, with no reading taken
    /// yet.
    pub fn start() -> (clock: Self)
        ensures
            clock@ == 0,
    {
        Clock { origin: instant_now(), last: 0 }
    }

    /// Nanoseconds since the clock was started: at least the reading
    /// before, and held at the largest value where they do not fit. The
    /// clock keeps the reading and goes on from the same start.
    pub fn nanos(&mut self) -> (now: u64)
        ensures
            now >= old(self)@,
            final(self)@ == now,
            final(self).started() == old(self).started(),
    {
        let elapsed = instant_elapsed(&self.origin);
        let ns: u128 = duration_nanos(&elapsed);
        let now = next_reading(self.last, ns);
        self.last = now;
        now
    }
}

} // verus!
