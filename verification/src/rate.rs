//! Frame rates as exact integers, and the frame interval they imply.

use vstd::prelude::*;

verus! {

/// Nanoseconds in one thousand seconds: a rate of one millihertz has a frame
/// interval of this many nanoseconds.
pub const NANOS_PER_KILOSECOND: u64 = 1_000_000_000_000;

/// The frame interval of a rate of `millihertz` thousandths of a frame per
/// second, in nanoseconds, rounded to the nearest nanosecond (a half rounds up).
pub open spec fn interval_nanos(millihertz: int) -> int
    recommends
        millihertz > 0,
{
    (NANOS_PER_KILOSECOND + millihertz / 2) / millihertz
}

/// A strictly positive frame rate, held in millihertz (thousandths of a frame
/// per second), so that rates such as 59.94 are exact.
#[derive(Debug, Clone, Copy, PartialEq, Eq, Structural)]
pub struct Fps {
    millihertz: u64,
}

impl Fps {
    #[verifier::type_invariant]
    spec fn positive(self) -> bool {
        self.millihertz > 0
    }

    /// The rate in millihertz.
    pub closed spec fn spec_millihertz(&self) -> u64 {
        self.millihertz
    }

    /// Whether the rate is strictly positive. Every rate that executable code
    /// holds is; a rate that only a proof speaks of has to assume it.
    pub open spec fn is_valid(&self) -> bool {
        self.spec_millihertz() > 0
    }

    /// The rate that holds `millihertz` thousandths of a frame per second.
    pub closed spec fn spec_from_millihertz(millihertz: u64) -> Fps {
        Fps { millihertz }
    }

    /// 60 frames per second.
    pub fn hertz_60() -> (r: Fps)
        ensures
            r == Fps::spec_from_millihertz(60_000),
            r.spec_millihertz() == 60_000,
    {
        Fps { millihertz: 60_000 }
    }

    /// 120 frames per second.
    pub fn hertz_120() -> (r: Fps)
        ensures
            r == Fps::spec_from_millihertz(120_000),
            r.spec_millihertz() == 120_000,
    {
        Fps { millihertz: 120_000 }
    }

    /// The rate of `millihertz` thousandths of a frame per second; a rate of
    /// zero is rejected.
    pub fn from_millihertz(millihertz: u64) -> (r: Option<Fps>)
        ensures
            r.is_some() <==> millihertz > 0,
            r matches Some(fps) ==> fps == Fps::spec_from_millihertz(millihertz)
                && fps.spec_millihertz() == millihertz,
    {
        if millihertz == 0 {
            None
        } else {
            Some(Fps { millihertz })
        }
    }

    /// The rate of `hertz` whole frames per second; a rate of zero is rejected.
    pub fn from_hertz(hertz: u32) -> (r: Option<Fps>)
        ensures
            r.is_some() <==> hertz > 0,
            r matches Some(fps) ==> fps == Fps::spec_from_millihertz((hertz * 1000) as u64)
                && fps.spec_millihertz() == hertz * 1000,
    {
        if hertz == 0 {
            None
        } else {
            let wide: u64 = hertz.into();
            Some(Fps { millihertz: wide * 1000 })
        }
    }

    /// The rate in millihertz; never zero.
    #[verifier::when_used_as_spec(spec_millihertz)]
    pub fn millihertz(&self) -> (m: u64)
        ensures
            m == self.spec_millihertz(),
            m > 0,
    {
        proof {
            use_type_invariant(self);
        }
        self.millihertz
    }

    /// The time between two frames at this rate, to the nearest nanosecond.
    pub fn frame_interval_nanos(&self) -> (n: u64)
        ensures
            n == interval_nanos(self.spec_millihertz() as int),
            n <= NANOS_PER_KILOSECOND,
    {
        proof {
            use_type_invariant(self);
        }
        let m: u64 = self.millihertz;
        let n: u64 = (NANOS_PER_KILOSECOND + m / 2) / m;
        proof {
            lemma_interval_bounds(m as int);
        }
        n
    }
}

/// A rate is its number of millihertz: the number is read back from the rate
/// made of it, and two rates of the same number are one rate.
pub proof fn lemma_rate_is_its_millihertz(a: Fps, b: Fps, millihertz: u64)
    ensures
        Fps::spec_from_millihertz(millihertz).spec_millihertz() == millihertz,
        a.spec_millihertz() == b.spec_millihertz() ==> a == b,
        Fps::spec_from_millihertz(a.spec_millihertz()) == a,
{
}

/// The rounded frame interval is at most that of the slowest rate, one
/// millihertz, and it is zero exactly for the rates above two frames per
/// nanosecond.
pub proof fn lemma_interval_bounds(millihertz: int)
    requires
        millihertz > 0,
    ensures
        0 <= interval_nanos(millihertz) <= NANOS_PER_KILOSECOND,
        interval_nanos(millihertz) == 0 <==> millihertz > 2 * NANOS_PER_KILOSECOND,
{
    let n = NANOS_PER_KILOSECOND + millihertz / 2;
    let q = n / millihertz;
    assert(n == q * millihertz + n % millihertz && 0 <= n % millihertz < millihertz)
        by (nonlinear_arith)
        requires
            millihertz > 0,
            q == n / millihertz,
    ;
    let k: int = NANOS_PER_KILOSECOND as int;
    assert(q <= -1 ==> q * millihertz <= -millihertz) by (nonlinear_arith)
        requires
            millihertz > 0,
    ;
    assert(q >= 1 ==> q * millihertz >= millihertz) by (nonlinear_arith)
        requires
            millihertz > 0,
    ;
    assert(q >= k + 1 ==> q * millihertz >= k + millihertz) by (nonlinear_arith)
        requires
            millihertz > 0,
            k >= 0,
    ;
    assert(q == 0 ==> q * millihertz == 0) by (nonlinear_arith);
}

/// The frame interval, taken as a number of nanoseconds, differs from the
/// exact reciprocal of the rate by at most half a nanosecond: multiplied by the
/// rate it misses one thousand seconds by at most half the rate.
pub proof fn lemma_interval_is_reciprocal(fps: Fps)
    requires
        fps.is_valid(),
    ensures
        2 * (interval_nanos(fps.spec_millihertz() as int) * fps.spec_millihertz()
            - NANOS_PER_KILOSECOND) <= fps.spec_millihertz(),
        2 * (NANOS_PER_KILOSECOND - interval_nanos(fps.spec_millihertz() as int)
            * fps.spec_millihertz()) <= fps.spec_millihertz(),
{
    let m = fps.spec_millihertz() as int;
    let n = NANOS_PER_KILOSECOND + m / 2;
    let q = n / m;
    assert(n == q * m + n % m && 0 <= n % m < m) by (nonlinear_arith)
        requires
            m > 0,
            q == n / m,
    ;
}

} // verus!
