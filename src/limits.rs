use vstd::prelude::*;

verus! {

/// Shortest run a session is allowed, in milliseconds.
pub const MIN_RUN_MS: u64 = 250;

/// Time between two progress reports, in microseconds.
pub const REPORT_EVERY_US: u64 = 250_000;

/// The run length actually used for a requested duration.
pub open spec fn run_length_ms(duration_ms: u64) -> u64 {
    if duration_ms < MIN_RUN_MS {
        MIN_RUN_MS
    } else {
        duration_ms
    }
}

/// Whether a session started `now_us` microseconds ago has used up its run.
pub open spec fn deadline_reached(duration_ms: u64, now_us: u64) -> bool {
    now_us as int >= run_length_ms(duration_ms) as int * 1000
}

/// The run length for a requested duration: the request, but never less
/// than the shortest allowed run.
pub fn stop_after_ms(duration_ms: u64) -> (r: u64)
    ensures
        r == run_length_ms(duration_ms),
        r >= MIN_RUN_MS,
        r >= duration_ms,
{
    if duration_ms < MIN_RUN_MS {
        MIN_RUN_MS
    } else {
        duration_ms
    }
}

/// Whether the run has ended at `now_us` microseconds after the start.
pub fn past_deadline(duration_ms: u64, now_us: u64) -> (r: bool)
    ensures
        r == deadline_reached(duration_ms, now_us),
{
    let stop_ms = stop_after_ms(duration_ms);
    (now_us as u128) >= (stop_ms as u128) * 1000
}

/// Whether an HTTP status code lies in the success class.
pub open spec fn status_is_success(code: u16) -> bool {
    200 <= code && code < 300
}

/// Tells whether an HTTP status code reports success (2xx).
pub fn is_success_status(code: u16) -> (r: bool)
    ensures
        r == status_is_success(code),
{
    200 <= code && code < 300
}


/// The session clock after a reading: readings never move it backwards.
pub open spec fn clock_after(clock_us: u64, reading_us: u64) -> u64 {
    if reading_us < clock_us {
        clock_us
    } else {
        reading_us
    }
}

/// `a + b`, or the largest `u64` where the sum does not fit.
pub open spec fn add_capped(a: u64, b: u64) -> u64 {
    if a + b > u64::MAX {
        u64::MAX
    } else {
        (a + b) as u64
    }
}

/// Adds a byte count to a running total, holding at the largest `u64`.
pub fn add_bytes(total: u64, more: u64) -> (r: u64)
    ensures
        r == add_capped(total, more),
        r >= total,
{
    if more > u64::MAX - total {
        u64::MAX
    } else {
        total + more
    }
}

/// Advances a session clock to a new reading, never backwards.
pub fn advance_clock(clock_us: u64, reading_us: u64) -> (r: u64)
    ensures
        r == clock_after(clock_us, reading_us),
        r >= clock_us,
{
    if reading_us < clock_us {
        clock_us
    } else {
        reading_us
    }
}

/// A requested duration under the minimum, zero included, still runs for
/// the minimum: the run is never over at its start, and is over exactly
/// once the minimum has passed.
pub proof fn short_runs_floored(duration_ms: u64, now_us: u64)
    requires
        duration_ms <= MIN_RUN_MS,
    ensures
        !deadline_reached(duration_ms, 0),
        deadline_reached(duration_ms, now_us) == (now_us >= MIN_RUN_MS * 1000),
{
}

} // verus!
