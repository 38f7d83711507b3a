//! When waiting payments of others are passed on.

use vstd::prelude::*;

verus! {

/// The times, in milliseconds, at which payments may be passed on: from the earliest time
/// on, of which the lower 64 bits count, and before five times that time.
pub open spec fn forward_window(time_forwardable_millis: u128) -> Option<(u64, u64)> {
    let min = time_forwardable_millis as int % 0x1_0000_0000_0000_0000;
    if 0 < min && 5 * min <= u64::MAX {
        Some((min as u64, (5 * min) as u64))
    } else {
        None
    }
}

/// Computes [`forward_window`].
pub fn forward_times(time_forwardable_millis: u128) -> (r: Option<(u64, u64)>)
    ensures
        r == forward_window(time_forwardable_millis),
{
    let min: u64 = #[verifier::truncate]
    (time_forwardable_millis as u64);
    assert(min == time_forwardable_millis % 0x1_0000_0000_0000_0000) by (bit_vector)
        requires
            min == time_forwardable_millis as u64,
    ;
    if min == 0 {
        return None;
    }
    match min.checked_mul(5) {
        Some(max) => Some((min, max)),
        None => None,
    }
}

/// Calls `rand::Rng::gen_range` on `rand::thread_rng`, which picks any number from `low` on
/// and below `high`. It panics where there is none.
#[verifier::external_body]
fn gen_range(low: u64, high: u64) -> (r: u64)
    requires
        low < high,
    ensures
        low <= r < high,
{
    rand::Rng::gen_range(&mut rand::thread_rng(), low, high)
}

/// How long to wait before payments are passed on: a random time within the window, which
/// makes it harder to tell by the clock which payments belong together.
pub fn forward_delay(min_millis: u64, max_millis: u64) -> (millis: u64)
    requires
        min_millis < max_millis,
    ensures
        min_millis <= millis < max_millis,
{
    gen_range(min_millis, max_millis)
}

/// Every window holds the earliest time, so a delay within it can always be picked, and any
/// such delay is at least the earliest time and less than five times it.
pub proof fn windows_hold_a_delay(time_forwardable_millis: u128)
    ensures
        forward_window(time_forwardable_millis) matches Some((min, max)) ==> {
            &&& 0 < min < max
            &&& max == 5 * min
        },
{
}

/// Of the earliest time only the lower 64 bits count. They are where the window begins, and
/// it ends at five times as many milliseconds. There is no window where that is no later
/// time, or none that fits in 64 bits.
pub proof fn windows_begin_at_the_earliest_time(high: u64, low: u64)
    ensures
        ({
            let window = forward_window((high * 0x1_0000_0000_0000_0000 + low) as u128);
            if low == 0 || low > u64::MAX / 5 {
                window is None
            } else {
                window matches Some((min, max)) && min == low && max == low + low + low + low + low
            }
        }),
{
    let time = high * 0x1_0000_0000_0000_0000 + low;
    assert(0 <= time <= u128::MAX);
    assert(time % 0x1_0000_0000_0000_0000 == low as int);
}

} // verus!
