use vstd::prelude::*;

use vstd::arithmetic::div_mod::lemma_div_is_ordered;
use vstd::arithmetic::div_mod::lemma_div_multiples_vanish;
use vstd::arithmetic::mul::lemma_mul_inequality;
use vstd::arithmetic::mul::lemma_mul_nonnegative;

use crate::errors::PresaleError;
use crate::state::BuyerState;
use crate::state::MAX_TIME;

verus! {

/// Release curve of the tokens a buyer has purchased. The immediate slice
/// (`immediate_release` percent of `total_amount`) is claimable from
/// `start_time` on, even during the cliff; the rest vests linearly over
/// `duration` seconds counted from `start_time`. Later purchases raise
/// `total_amount` without resetting `start_time`: they vest on the first
/// purchase's clock.
#[derive(Clone, Copy, Debug, PartialEq, Eq, Structural)]
pub struct VestingSchedule {
    /// Token smallest units purchased in total.
    pub total_amount: u64,
    /// Token smallest units already claimed.
    pub released_amount: u64,
    /// Time of the buyer's first purchase; fixed after creation.
    pub start_time: i64,
    /// Seconds after `start_time` during which only the immediate slice is
    /// claimable.
    pub cliff: i64,
    /// Seconds of linear release; 0 unlocks everything at once.
    pub duration: i64,
    /// Percent of `total_amount` claimable immediately.
    pub immediate_release: u8,
}

impl VestingSchedule {
    pub open spec fn wf(self) -> bool {
        &&& self.released_amount <= self.total_amount
        &&& self.immediate_release <= 100
        &&& 0 <= self.start_time <= MAX_TIME
        &&& 0 <= self.cliff <= MAX_TIME
        &&& 0 <= self.duration <= MAX_TIME
    }

    /// The schedule of a buyer who has not purchased yet.
    pub open spec fn empty() -> VestingSchedule {
        VestingSchedule {
            total_amount: 0,
            released_amount: 0,
            start_time: 0,
            cliff: 0,
            duration: 0,
            immediate_release: 0,
        }
    }
}

/// The immediate-release slice: `floor(total * immediate_release / 100)`.
pub open spec fn spec_immediate_amount(s: VestingSchedule) -> int {
    (s.total_amount as int) * (s.immediate_release as int) / 100
}

/// Token smallest units vested at time `now`: the whole total once
/// `duration` has elapsed (or when `duration` is 0), only the immediate
/// slice during the cliff, and the immediate slice plus a linear share of
/// the rest in between.
pub open spec fn spec_vested(s: VestingSchedule, now: i64) -> int {
    if s.total_amount == 0 {
        0
    } else if s.duration == 0 {
        s.total_amount as int
    } else if now < s.start_time + s.cliff {
        spec_immediate_amount(s)
    } else if now - s.start_time >= s.duration {
        s.total_amount as int
    } else {
        spec_immediate_amount(s) + (s.total_amount - spec_immediate_amount(s)) * (now - s.start_time)
            / (s.duration as int)
    }
}

/// What a claim at time `now` pays out. During the cliff the unclaimed part
/// of the immediate slice is claimable and nothing more; elsewhere it is
/// vested minus released, which is negative exactly when more has been
/// released than is vested at `now` (a regressed clock).
pub open spec fn spec_claimable(s: VestingSchedule, now: i64) -> int {
    if s.total_amount == 0 {
        0
    } else if s.duration == 0 {
        s.total_amount - s.released_amount
    } else if now < s.start_time + s.cliff {
        if s.released_amount < spec_immediate_amount(s) {
            spec_immediate_amount(s) - s.released_amount
        } else {
            0
        }
    } else {
        spec_vested(s, now) - s.released_amount
    }
}

/// The immediate slice is between 0 and the schedule's total.
pub proof fn lemma_immediate_bounds(s: VestingSchedule)
    requires
        s.immediate_release <= 100,
    ensures
        0 <= spec_immediate_amount(s) <= s.total_amount,
{
    let t = s.total_amount as int;
    let p = s.immediate_release as int;
    lemma_mul_nonnegative(t, p);
    lemma_div_is_ordered(0, t * p, 100);
    lemma_mul_inequality(p, 100, t);
    assert(p * t == t * p) by (nonlinear_arith);
    assert(100 * t == t * 100) by (nonlinear_arith);
    lemma_div_is_ordered(t * p, 100 * t, 100);
    lemma_div_multiples_vanish(t, 100);
}

/// The vested amount always lies between 0 and the schedule's total.
pub proof fn lemma_vested_bounds(s: VestingSchedule, now: i64)
    requires
        s.wf(),
    ensures
        0 <= spec_vested(s, now) <= s.total_amount,
{
    lemma_immediate_bounds(s);
    if s.total_amount != 0 && s.duration != 0 && now >= s.start_time + s.cliff && now
        - s.start_time < s.duration {
        let rest = s.total_amount - spec_immediate_amount(s);
        let e = now - s.start_time;
        let d = s.duration as int;
        lemma_mul_nonnegative(rest, e);
        lemma_div_is_ordered(0, rest * e, d);
        lemma_mul_inequality(e, d, rest);
        assert(e * rest == rest * e) by (nonlinear_arith);
        assert(d * rest == rest * d) by (nonlinear_arith);
        lemma_div_is_ordered(rest * e, d * rest, d);
        lemma_div_multiples_vanish(rest, d);
    }
}

/// Vesting is monotone: as time moves forward, the vested amount never
/// decreases, and it never exceeds the schedule's total.
pub proof fn lemma_vested_monotonic(s: VestingSchedule, t1: i64, t2: i64)
    requires
        s.wf(),
        t1 <= t2,
    ensures
        0 <= spec_vested(s, t1) <= spec_vested(s, t2) <= s.total_amount,
{
    lemma_vested_bounds(s, t1);
    lemma_vested_bounds(s, t2);
    lemma_immediate_bounds(s);
    if s.total_amount != 0 && s.duration != 0 {
        let rest = s.total_amount - spec_immediate_amount(s);
        let d = s.duration as int;
        let e1 = t1 - s.start_time;
        let e2 = t2 - s.start_time;
        if t1 >= s.start_time + s.cliff && e1 < d {
            if e2 < d {
                lemma_mul_inequality(e1, e2, rest);
                assert(e1 * rest == rest * e1) by (nonlinear_arith);
                assert(e2 * rest == rest * e2) by (nonlinear_arith);
                lemma_div_is_ordered(rest * e1, rest * e2, d);
            }
        }
    }
}

/// Monotone vesting at the claim level: for a buyer in a reachable state
/// (released never exceeds what is vested) and times `t1 <= t2`, the
/// claimable amount is non-negative and `claimable + released` never
/// decreases with time and never exceeds the schedule's total.
pub proof fn lemma_claimable_monotonic(s: VestingSchedule, t1: i64, t2: i64)
    requires
        s.wf(),
        s.released_amount <= spec_vested(s, t1),
        t1 <= t2,
    ensures
        0 <= spec_claimable(s, t1),
        0 <= spec_claimable(s, t2),
        spec_claimable(s, t1) + s.released_amount <= spec_claimable(s, t2) + s.released_amount,
        spec_claimable(s, t2) + s.released_amount <= s.total_amount,
{
    lemma_vested_monotonic(s, t1, t2);
    lemma_immediate_bounds(s);
}

/// The released amount never overtakes the vested amount as time moves
/// forward: once `released <= vested` holds it keeps holding, because
/// vesting is monotone. A claim leaves `released` equal to the vested
/// amount at claim time, so under a non-decreasing clock every reachable
/// schedule satisfies `released <= vested(now)`.
pub proof fn lemma_released_within_vested(s: VestingSchedule, t1: i64, t2: i64)
    requires
        s.wf(),
        s.released_amount <= spec_vested(s, t1),
        t1 <= t2,
    ensures
        s.released_amount <= spec_vested(s, t2),
{
    lemma_vested_monotonic(s, t1, t2);
}

/// Token smallest units vested at `current_time` under `schedule`.
pub fn calculate_vested(schedule: &VestingSchedule, current_time: i64) -> (r: u64)
    requires
        schedule.wf(),
    ensures
        r == spec_vested(*schedule, current_time),
{
    proof {
        lemma_immediate_bounds(*schedule);
        lemma_vested_bounds(*schedule, current_time);
    }
    if schedule.total_amount == 0 {
        return 0;
    }
    if schedule.duration == 0 {
        return schedule.total_amount;
    }
    let immediate_amount = ((schedule.total_amount as u128) * (schedule.immediate_release as u128)
        / 100) as u64;
    if current_time < schedule.start_time + schedule.cliff {
        return immediate_amount;
    }
    let time_elapsed = current_time - schedule.start_time;
    if time_elapsed >= schedule.duration {
        return schedule.total_amount;
    }
    let vesting_amount = schedule.total_amount - immediate_amount;
    proof {
        let rest = vesting_amount as int;
        let e = time_elapsed as int;
        let d = schedule.duration as int;
        lemma_mul_nonnegative(rest, e);
        lemma_div_is_ordered(0, rest * e, d);
        lemma_mul_inequality(e, d, rest);
        assert(e * rest == rest * e) by (nonlinear_arith);
        assert(d * rest == rest * d) by (nonlinear_arith);
        lemma_div_is_ordered(rest * e, d * rest, d);
        lemma_div_multiples_vanish(rest, d);
        assert(rest * e <= u128::MAX) by (nonlinear_arith)
            requires
                0 <= rest <= u64::MAX,
                0 <= e <= MAX_TIME,
        ;
    }
    let vested_portion = ((vesting_amount as u128) * (time_elapsed as u128)
        / (schedule.duration as u128)) as u64;
    immediate_amount + vested_portion
}

/// What the buyer can claim at `current_time`: `Ok` with the claimable
/// amount, or `Overflow` when more has been released than is vested at
/// `current_time` (only a clock that ran backwards can produce that state).
pub fn calculate_claimable(buyer_state: &BuyerState, current_time: i64) -> (r: Result<
    u64,
    PresaleError,
>)
    requires
        buyer_state.wf(),
    ensures
        spec_claimable(buyer_state.vesting_schedule, current_time) >= 0 ==> r == Ok::<
            u64,
            PresaleError,
        >(spec_claimable(buyer_state.vesting_schedule, current_time) as u64),
        spec_claimable(buyer_state.vesting_schedule, current_time) < 0 ==> r == Err::<
            u64,
            PresaleError,
        >(PresaleError::Overflow),
{
    let schedule = &buyer_state.vesting_schedule;
    proof {
        lemma_immediate_bounds(*schedule);
    }
    if schedule.total_amount == 0 {
        return Ok(0);
    }
    if schedule.duration == 0 {
        return Ok(schedule.total_amount - schedule.released_amount);
    }
    let immediate_amount = ((schedule.total_amount as u128) * (schedule.immediate_release as u128)
        / 100) as u64;
    if current_time < schedule.start_time + schedule.cliff {
        if schedule.released_amount < immediate_amount {
            return Ok(immediate_amount - schedule.released_amount);
        }
        return Ok(0);
    }
    let vested_amount = calculate_vested(schedule, current_time);
    if schedule.released_amount > vested_amount {
        return Err(PresaleError::Overflow);
    }
    Ok(vested_amount - schedule.released_amount)
}

} // verus!
