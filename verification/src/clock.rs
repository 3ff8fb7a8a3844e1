use vstd::prelude::*;

verus! {

/// A source of time, in milliseconds since a moment of its own choosing.
/// Nothing is known of what it reads: not even that time goes forward.
pub trait Clock {
    fn millis(&self) -> u64;
}

/// A moment of the monotonic clock of `std`.
#[verifier::external_type_specification]
#[verifier::external_body]
pub struct ExInstant(std::time::Instant);

/// `Instant::now` reads the clock of the machine. Nothing is claimed of the
/// moment it returns.
pub assume_specification[ std::time::Instant::now ]() -> (moment: std::time::Instant);

/// `Instant::elapsed` reads the clock of the machine. Nothing is claimed of
/// the span it returns.
pub assume_specification[ std::time::Instant::elapsed ](moment: &std::time::Instant) -> (passed:
    std::time::Duration);

/// `Duration::as_millis` gives the whole milliseconds of a span. Nothing is
/// claimed of the number.
pub assume_specification[ std::time::Duration::as_millis ](passed: &std::time::Duration) -> (whole:
    u128);

/// The clock of the machine, read in milliseconds since the clock was made.
#[derive(Clone, Copy, Debug)]
pub struct SystemClock {
    origin: std::time::Instant,
}

impl SystemClock {
    /// A clock that starts at zero now.
    pub fn new() -> (clock: SystemClock) {
        SystemClock { origin: std::time::Instant::now() }
    }
}

/// Cuts a number of milliseconds to what sixty-four bits hold.
pub fn clamp_millis(millis: u128) -> (r: u64)
    ensures
        millis <= u64::MAX ==> r == millis,
        millis > u64::MAX ==> r == u64::MAX,
{
    if millis <= 0xffff_ffff_ffff_ffff {
        millis as u64
    } else {
        u64::MAX
    }
}

impl Clock for SystemClock {
    fn millis(&self) -> u64 {
        let passed = self.origin.elapsed();
        clamp_millis(passed.as_millis())
    }
}

} // verus!
