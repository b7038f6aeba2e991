use vstd::prelude::*;

verus! {

/// Intervals shorter than this many microseconds are counted as this long.
pub const MIN_INTERVAL_US: u64 = 1000;

/// A throughput, held exactly as bits over microseconds. Bits per
/// microsecond is the same unit as megabits per second, so the value in
/// Mbps is `bits / micros`.
#[derive(Clone, Copy, Debug, PartialEq, Eq)]
pub struct Rate {
    pub bits: u128,
    pub micros: u64,
}

/// The rate of `bytes` moved over `elapsed_us` microseconds, the interval
/// floored to `MIN_INTERVAL_US`.
pub open spec fn rate_of(bytes: u64, elapsed_us: u64) -> Rate {
    Rate {
        bits: (8 * bytes) as u128,
        micros: if elapsed_us < MIN_INTERVAL_US {
            MIN_INTERVAL_US
        } else {
            elapsed_us
        },
    }
}

/// Computes the throughput of `bytes` moved over `elapsed_us` microseconds.
/// Serves both interval and cumulative sampling: callers choose the deltas.
pub fn rate_over(bytes: u64, elapsed_us: u64) -> (r: Rate)
    ensures
        r == rate_of(bytes, elapsed_us),
        r.bits == 8 * bytes,
        r.micros >= MIN_INTERVAL_US,
{
    let micros = if elapsed_us < MIN_INTERVAL_US {
        MIN_INTERVAL_US
    } else {
        elapsed_us
    };
    Rate { bits: (bytes as u128) * 8, micros }
}

/// The sampler is a function of its inputs alone: equal inputs give equal
/// rates, however often and in whatever order it is run.
pub proof fn rate_is_deterministic(b1: u64, t1: u64, b2: u64, t2: u64)
    requires
        b1 == b2,
        t1 == t2,
    ensures
        rate_of(b1, t1) == rate_of(b2, t2),
{
}

/// A rate computed over a session's elapsed time matches the whole
/// milliseconds reported beside it: the interval, in whole milliseconds, is
/// the reported count, or one where that count is zero.
pub proof fn rate_interval_matches_ms(bytes: u64, elapsed_us: u64)
    ensures
        rate_of(bytes, elapsed_us).bits == 8 * bytes,
        rate_of(bytes, elapsed_us).micros / 1000 == if elapsed_us / 1000 == 0 {
            1
        } else {
            elapsed_us / 1000
        },
{
}

} // verus!
