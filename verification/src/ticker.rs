use vstd::prelude::*;

verus! {

/// How often, in nanoseconds, the input thread sends a tick to the
/// dashboard when no key is pressed.
pub open spec fn tick_rate_nanos() -> u128 {
    200_000_000
}

/// How long the input thread waits for a key, given the tick rate and the
/// time since the last tick (in nanoseconds): what is left of the tick
/// period, and nothing once the period is over.
pub fn poll_timeout(tick_rate: u128, since_last_tick: u128) -> (timeout: u128)
    ensures
        timeout == (if since_last_tick <= tick_rate {
            tick_rate - since_last_tick
        } else {
            0
        }),
{
    if since_last_tick <= tick_rate {
        tick_rate - since_last_tick
    } else {
        0
    }
}

/// Whether a tick is due: more than a tick period passed since the last.
pub fn tick_due(tick_rate: u128, since_last_tick: u128) -> (due: bool)
    ensures
        due == (since_last_tick > tick_rate),
{
    since_last_tick > tick_rate
}

/// The tick rate of the dashboard, in nanoseconds.
pub fn tick_rate() -> (rate: u128)
    ensures
        rate == tick_rate_nanos(),
{
    200_000_000
}

} // verus!
