//! Time that is set aside for something.

use vstd::prelude::*;

verus! {

/// After `elapsed_nanos` nanoseconds, `budget_secs` seconds are over.
pub open spec fn is_up(elapsed_nanos: int, budget_secs: int) -> bool {
    elapsed_nanos >= budget_secs * 1_000_000_000
}

/// Says whether `budget_secs` seconds are over after `elapsed_nanos` nanoseconds.
pub fn time_is_up(elapsed_nanos: u128, budget_secs: u64) -> (r: bool)
    ensures
        r == is_up(elapsed_nanos as int, budget_secs as int),
{
    elapsed_nanos >= budget_secs as u128 * 1_000_000_000
}

/// No time at all is over at the first look.
pub proof fn law_no_time_is_up_at_once(elapsed_nanos: nat)
    ensures
        is_up(elapsed_nanos as int, 0),
{
}

/// Time that is over stays over.
pub proof fn law_time_stays_up(earlier: nat, later: nat, budget_secs: nat)
    requires
        earlier <= later,
        is_up(earlier as int, budget_secs as int),
    ensures
        is_up(later as int, budget_secs as int),
{
}

/// The time is up exactly where as many whole seconds have passed as were given.
pub proof fn law_whole_seconds_count(elapsed_nanos: u128, budget_secs: u64, r: bool)
    requires
        call_ensures(time_is_up, (elapsed_nanos, budget_secs), r),
    ensures
        r <==> elapsed_nanos as int / 1_000_000_000 >= budget_secs,
{
}

} // verus!
