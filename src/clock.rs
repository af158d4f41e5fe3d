use vstd::prelude::*;
use crate::error::EmuError;

verus! {

/// Nanoseconds in one second.
pub const NANOS_PER_SECOND: u64 = 1_000_000_000;

/// The number of whole cycles of a `speed` Hz clock that fit in `elapsed_ns`
/// nanoseconds: the largest `n` with `n` periods of exactly `1e9 / speed`
/// nanoseconds no longer than `elapsed_ns`.
pub open spec fn cycles_due(speed: u32, elapsed_ns: u64) -> int {
    (elapsed_ns as int * speed as int) / (NANOS_PER_SECOND as int)
}

/// The count after a pacing pass at `elapsed_ns` of a `speed` Hz clock that
/// had counted `total` cycles: every cycle period that has fully elapsed is
/// counted (up to the largest `u64`), and nothing is ever taken back.
pub open spec fn paced_total(total: u64, speed: u32, elapsed_ns: u64) -> u64 {
    let due = cycles_due(speed, elapsed_ns);
    if due <= total {
        total
    } else if due > u64::MAX {
        u64::MAX
    } else {
        due as u64
    }
}

/// A hardware-cycle counter paced to a configured frequency.
///
/// The counter advances by one for each cycle period of exactly `1e9 / speed`
/// nanoseconds that has fully elapsed, every deadline one whole period after
/// the previous one (never recomputed from the time of the pass). It therefore
/// never gets ahead of the configured frequency, and it falls behind only
/// while no pass is made. The time source lives outside the library: the
/// owner feeds the clock the nanoseconds elapsed since it started pacing.
#[derive(Debug, Clone, Copy, PartialEq, Eq, Structural)]
pub struct Clock {
    total_cycles: u64,
    clock_speed: u32,
}

impl Clock {
    /// The configured frequency in Hz.
    pub closed spec fn speed(self) -> u32 {
        self.clock_speed
    }

    /// The cycles counted so far.
    pub closed spec fn total(self) -> u64 {
        self.total_cycles
    }

    /// A clock at `speed` Hz that has counted nothing yet; a frequency of
    /// zero is refused, since no period can be derived from it.
    pub fn new(speed: u32) -> (r: Result<Clock, EmuError>)
        ensures
            speed == 0 ==> r == Err::<Clock, EmuError>(EmuError::InvalidConfiguration),
            speed > 0 ==> (r matches Ok(c) && c.speed() == speed && c.total() == 0),
    {
        if speed == 0 {
            return Err(EmuError::InvalidConfiguration);
        }
        Ok(Clock { total_cycles: 0, clock_speed: speed })
    }

    /// The number of cycles counted so far.
    pub fn get_total_cycles(&self) -> (r: u64)
        ensures
            r == self.total(),
    {
        self.total_cycles
    }

    /// The configured frequency in Hz.
    pub fn get_speed(&self) -> (r: u32)
        ensures
            r == self.speed(),
    {
        self.clock_speed
    }

    /// One pacing pass, `elapsed_ns` nanoseconds after the clock started.
    pub fn advance_to(&mut self, elapsed_ns: u64)
        ensures
            final(self).speed() == old(self).speed(),
            final(self).total() == paced_total(old(self).total(), old(self).speed(), elapsed_ns),
    {
        assert(elapsed_ns as int * self.clock_speed as int <= 0xFFFF_FFFF_FFFF_FFFF * 0xFFFF_FFFF)
            by (nonlinear_arith)
            requires
                elapsed_ns <= 0xFFFF_FFFF_FFFF_FFFFu64,
                self.clock_speed <= 0xFFFF_FFFFu32,
        ;
        let product = (elapsed_ns as u128) * (self.clock_speed as u128);
        let due = product / (NANOS_PER_SECOND as u128);
        if due > self.total_cycles as u128 {
            self.total_cycles = if due > u64::MAX as u128 {
                u64::MAX
            } else {
                due as u64
            };
        }
    }
}

/// Reading the counter never goes backwards: a pacing pass between two reads,
/// at whatever time, leaves the count at least where it was.
pub proof fn lemma_clock_monotonic(c: Clock, elapsed_ns: u64)
    ensures
        paced_total(c.total(), c.speed(), elapsed_ns) >= c.total(),
{
}

/// A `speed` Hz clock that has counted nothing yet and is paced at times
/// `t1 <= t2` holds, after the pass at `t2`, exactly the number of whole
/// cycle periods in `t2`: with `F` the frequency and `T` the elapsed time, the
/// count `n` satisfies `n <= F * T < n + 1`. It never gets ahead of the
/// configured frequency and is less than one increment behind it. (The bound
/// on `t2` keeps the count inside `u64`.)
pub proof fn lemma_clock_paced(speed: u32, t1: u64, t2: u64)
    requires
        speed > 0,
        t1 <= t2,
        cycles_due(speed, t2) <= u64::MAX,
    ensures
        paced_total(0, speed, t1) == cycles_due(speed, t1),
        paced_total(paced_total(0, speed, t1), speed, t2) == cycles_due(speed, t2),
        cycles_due(speed, t2) * NANOS_PER_SECOND <= t2 as int * speed as int,
        (t2 as int) * (speed as int) < (cycles_due(speed, t2) + 1) * NANOS_PER_SECOND,
{
    let p1 = t1 as int * speed as int;
    let p2 = t2 as int * speed as int;
    assert(p1 <= p2) by (nonlinear_arith)
        requires
            t1 <= t2,
            p1 == t1 as int * speed as int,
            p2 == t2 as int * speed as int,
    ;
    assert(p1 / 1_000_000_000 <= p2 / 1_000_000_000) by (nonlinear_arith)
        requires
            0 <= p1 <= p2,
    ;
    assert((p2 / 1_000_000_000) * 1_000_000_000 <= p2 < (p2 / 1_000_000_000 + 1) * 1_000_000_000)
        by (nonlinear_arith)
        requires
            p2 >= 0,
    ;
}

} // verus!
