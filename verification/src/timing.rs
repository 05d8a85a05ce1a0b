use vstd::prelude::*;

verus! {

/// Relies on rand::random: draws a value from the thread-local generator.
/// Nothing can be promised of a random value.
pub assume_specification<T>[ rand::random::<T> ]() -> (r: T)
    where
        rand::distributions::Standard: rand::distributions::Distribution<T>,
;

/// The inter-keystroke delay for one observed random value: the base delay
/// plus the random value reduced modulo the jitter span. The result always
/// lies in `[base, base + span - 1]`, the human-cadence window.
pub fn compute_delay(base_delay_ms: u32, jitter_span_ms: u32, random_value: u32) -> (d: u64)
    requires
        jitter_span_ms > 0,
    ensures
        d == base_delay_ms + random_value % jitter_span_ms,
        base_delay_ms <= d <= base_delay_ms + jitter_span_ms - 1,
{
    base_delay_ms as u64 + (random_value % jitter_span_ms) as u64
}

/// Draw a fresh random value and compute the jittered delay from it. Whatever
/// the draw, the delay lies in `[base, base + span - 1]`.
pub fn jittered_delay(base_delay_ms: u32, jitter_span_ms: u32) -> (d: u64)
    requires
        jitter_span_ms > 0,
    ensures
        base_delay_ms <= d <= base_delay_ms + jitter_span_ms - 1,
{
    let random_value: u32 = rand::random();
    compute_delay(base_delay_ms, jitter_span_ms, random_value)
}

} // verus!
