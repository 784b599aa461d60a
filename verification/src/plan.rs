//! The charge plan: how much energy the battery lacks, how many cheap slots
//! the window offers to fetch it, and how long the next expensive stretch
//! lasts.

use vstd::prelude::*;
use crate::config::BatteryConfig;
use crate::config::OptimizerConfig;
use crate::tibber::PricePoint;
use crate::tiers::PriceTiers;
use crate::units::floor_div;
use crate::units::steps_to_cover;
use crate::units::steps_to_cover_exec;
use crate::window::by_start;
use crate::window::chronological;
use crate::window::count_at_most;
use crate::window::count_slots_below_threshold;
use crate::window::find_first;
use crate::window::first_match;
use crate::window::lemma_first_match;
use crate::window::PriceTest;

verus! {

/// Length assumed for an expensive stretch whose end the window does not
/// show: eight hours, in minutes.
pub const UNSEEN_STRETCH_MINUTES: i64 = 480;

/// A forward look from the current state of charge, made anew for every
/// decision.
#[derive(Clone, Copy, Debug, PartialEq, Eq, Structural)]
pub struct ChargePlan {
    /// State of charge to reach, in thousandths of a percent.
    pub target_soc_mpct: u32,
    /// State of charge that carries the house through the next expensive
    /// stretch with a fifth of the capacity to spare.
    pub min_reserve_soc_mpct: u32,
    /// Energy missing up to the target, in milliwatt-hours, rounded down;
    /// negative above the target.
    pub energy_needed_mwh: i64,
    /// Slots of the window priced at or below the cheap threshold.
    pub cheap_slots_available: usize,
    /// Slots of the window priced at or below the cheapest threshold.
    pub cheapest_slots_available: usize,
    /// Slots of charging at full power that reach the target.
    pub slots_needed_full_power: usize,
    /// Minutes from the start of the first expensive stretch to the next
    /// cheap slot.
    pub minutes_until_cheap: i64,
}

/// Minutes from the first slot priced above `cheap_threshold` to the first
/// slot after it priced at or below; eight hours when the window shows no
/// such pair.
pub open spec fn minutes_until_cheap(window: Seq<PricePoint>, cheap_threshold: i64) -> int {
    let rise = first_match(window, PriceTest::Above(cheap_threshold), 0);
    let fall = first_match(window, PriceTest::AtMost(cheap_threshold), rise);
    if fall < window.len() {
        window[fall].starts_at.minutes_since(window[rise].starts_at)
    } else {
        UNSEEN_STRETCH_MINUTES as int
    }
}

/// Slots of charging at full power that raise the state of charge by
/// `delta_mpct`: a slot is a quarter of an hour, and of the energy drawn
/// only the efficient part is stored.
///
/// In kWh the energy is `delta / 100 * capacity` and one slot stores
/// `power / 1000 * 0.25 * efficiency`; in the units of the configuration the
/// quotient is `40 * delta * capacity / (power * efficiency)`.
pub open spec fn slots_to_fill(delta_mpct: int, battery: BatteryConfig) -> int {
    steps_to_cover(
        40 * delta_mpct * battery.capacity_wh,
        battery.max_charge_power_w * battery.round_trip_efficiency_ppm,
    )
}

/// Energy between two states of charge in milliwatt-hours, rounded down.
pub open spec fn energy_between_mwh(from_mpct: int, to_mpct: int, capacity_wh: int) -> int {
    (to_mpct - from_mpct) * capacity_wh / 100
}

/// The state of charge that covers `minutes` of the house's base
/// consumption and leaves a fifth of the capacity, no higher than the
/// battery's maximum and no lower than empty. A battery without capacity
/// has its maximum as reserve.
pub open spec fn reserve_soc(minutes: int, policy: OptimizerConfig, battery: BatteryConfig) -> int {
    let raw = 20_000 + 5_000 * minutes * policy.base_consumption_w / (3 * battery.capacity_wh);
    if battery.capacity_wh == 0 || raw > battery.max_soc_mpct {
        battery.max_soc_mpct as int
    } else if raw < 0 {
        0
    } else {
        raw
    }
}

/// The charge plan for a state of charge, a window and its tiers.
pub open spec fn charge_plan(
    soc_mpct: u32,
    battery: BatteryConfig,
    policy: OptimizerConfig,
    tiers: PriceTiers,
    window: Seq<PricePoint>,
) -> ChargePlan {
    let minutes = minutes_until_cheap(window, tiers.cheap_threshold);
    ChargePlan {
        target_soc_mpct: battery.max_soc_mpct,
        min_reserve_soc_mpct: reserve_soc(minutes, policy, battery) as u32,
        energy_needed_mwh: energy_between_mwh(
            soc_mpct as int,
            battery.max_soc_mpct as int,
            battery.capacity_wh as int,
        ) as i64,
        cheap_slots_available: count_at_most(window, tiers.cheap_threshold as int) as usize,
        cheapest_slots_available: count_at_most(window, tiers.cheapest_threshold as int) as usize,
        slots_needed_full_power: slots_to_fill(
            battery.max_soc_mpct - soc_mpct,
            battery,
        ) as usize,
        minutes_until_cheap: minutes as i64,
    }
}

/// In a window in time order the expensive stretch has no negative length.
pub proof fn lemma_minutes_until_cheap_nonnegative(window: Seq<PricePoint>, cheap_threshold: i64)
    requires
        chronological(window),
    ensures
        minutes_until_cheap(window, cheap_threshold) >= 0,
{
    let rise = first_match(window, PriceTest::Above(cheap_threshold), 0);
    lemma_first_match(window, PriceTest::Above(cheap_threshold), 0);
    lemma_first_match(window, PriceTest::AtMost(cheap_threshold), rise);
    let fall = first_match(window, PriceTest::AtMost(cheap_threshold), rise);
    if fall < window.len() {
        let key = by_start();
        assert(rise < fall);
        assert(key(window[rise]) <= key(window[fall]));
    }
}

/// Executable `minutes_until_cheap`.
pub fn minutes_until_next_cheap_period(window: &Vec<PricePoint>, tiers: &PriceTiers) -> (minutes:
    i64)
    ensures
        minutes == minutes_until_cheap(window@, tiers.cheap_threshold),
        chronological(window@) ==> minutes >= 0,
{
    proof {
        if chronological(window@) {
            lemma_minutes_until_cheap_nonnegative(window@, tiers.cheap_threshold);
        }
    }
    let rise: usize = find_first(window, PriceTest::Above(tiers.cheap_threshold), 0);
    let fall: usize = find_first(window, PriceTest::AtMost(tiers.cheap_threshold), rise);
    if fall < window.len() {
        proof {
            lemma_first_match(window@, PriceTest::Above(tiers.cheap_threshold), 0);
            lemma_first_match(window@, PriceTest::AtMost(tiers.cheap_threshold), rise as int);
        }
        window[fall].starts_at.whole_minutes_since(&window[rise].starts_at)
    } else {
        UNSEEN_STRETCH_MINUTES
    }
}

/// Slots of charging at full power that lead from one state of charge to
/// another.
pub fn slots_between(from_mpct: u32, to_mpct: u32, battery: &BatteryConfig) -> (slots: usize)
    ensures
        slots == slots_to_fill(to_mpct - from_mpct, *battery),
{
    let capacity: i128 = battery.capacity_wh as i128;
    let delta_mpct: i64 = to_mpct as i64 - from_mpct as i64;
    let delta: i128 = delta_mpct as i128;
    assert(-0x1_0000_0000 * 0x1_0000_0000 <= delta * capacity <= 0x1_0000_0000 * 0x1_0000_0000)
        by (nonlinear_arith)
        requires
            -0x1_0000_0000 < delta < 0x1_0000_0000,
            0 <= capacity < 0x1_0000_0000,
    ;
    assert(40 * delta_mpct as int * battery.capacity_wh as int == 40 * (delta * capacity))
        by (nonlinear_arith)
        requires
            delta == delta_mpct as int,
            capacity == battery.capacity_wh as int,
    ;
    let amount: i128 = 40 * (delta * capacity);
    let power: u128 = battery.max_charge_power_w as u128;
    let efficiency: u128 = battery.round_trip_efficiency_ppm as u128;
    assert(power * efficiency <= 0xffff_ffff * 0xffff_ffff) by (nonlinear_arith)
        requires
            power <= 0xffff_ffff,
            efficiency <= 0xffff_ffff,
    ;
    steps_to_cover_exec(amount, power * efficiency)
}

/// Executable `reserve_soc`.
pub fn reserve_soc_exec(minutes: i64, policy: &OptimizerConfig, battery: &BatteryConfig) -> (mpct:
    u32)
    ensures
        mpct == reserve_soc(minutes as int, *policy, *battery),
{
    if battery.capacity_wh == 0 {
        return battery.max_soc_mpct;
    }
    let m: i128 = minutes as i128;
    let base: i128 = policy.base_consumption_w as i128;
    assert(-0x8000_0000_0000_0000 * 0xffff_ffff <= m * base <= 0x8000_0000_0000_0000
        * 0xffff_ffff) by (nonlinear_arith)
        requires
            -0x8000_0000_0000_0000 <= m <= 0x8000_0000_0000_0000,
            0 <= base <= 0xffff_ffff,
    ;
    assert(5_000 * minutes as int * policy.base_consumption_w as int == 5_000 * (m * base))
        by (nonlinear_arith)
        requires
            m == minutes as int,
            base == policy.base_consumption_w as int,
    ;
    let divisor: i128 = 3 * (battery.capacity_wh as i128);
    let raw: i128 = 20_000 + floor_div(5_000 * (m * base), divisor);
    if raw > battery.max_soc_mpct as i128 {
        battery.max_soc_mpct
    } else if raw < 0 {
        0
    } else {
        raw as u32
    }
}

/// Draws up the charge plan.
pub fn calculate_charge_plan(
    current_soc_mpct: u32,
    battery: &BatteryConfig,
    policy: &OptimizerConfig,
    tiers: &PriceTiers,
    window: &Vec<PricePoint>,
) -> (plan: ChargePlan)
    ensures
        plan == charge_plan(current_soc_mpct, *battery, *policy, *tiers, window@),
        plan.target_soc_mpct == battery.max_soc_mpct,
        plan.min_reserve_soc_mpct <= battery.max_soc_mpct,
        plan.cheapest_slots_available == count_at_most(window@, tiers.cheapest_threshold as int),
        plan.cheap_slots_available == count_at_most(window@, tiers.cheap_threshold as int),
        plan.slots_needed_full_power == slots_to_fill(
            battery.max_soc_mpct - current_soc_mpct,
            *battery,
        ),
        plan.minutes_until_cheap == minutes_until_cheap(window@, tiers.cheap_threshold),
        chronological(window@) ==> plan.minutes_until_cheap >= 0,
        plan.energy_needed_mwh == energy_between_mwh(
            current_soc_mpct as int,
            battery.max_soc_mpct as int,
            battery.capacity_wh as int,
        ),
{
    let cheap_slots_available: usize = count_slots_below_threshold(window, tiers.cheap_threshold);
    let cheapest_slots_available: usize = count_slots_below_threshold(window, tiers.cheapest_threshold);
    let minutes: i64 = minutes_until_next_cheap_period(window, tiers);
    let min_reserve_soc_mpct: u32 = reserve_soc_exec(minutes, policy, battery);
    let target_soc_mpct: u32 = battery.max_soc_mpct;
    let delta: i64 = target_soc_mpct as i64 - current_soc_mpct as i64;
    let capacity: i128 = battery.capacity_wh as i128;
    assert(-0x1_0000_0000 * 0x1_0000_0000 <= (delta as i128) * capacity <= 0x1_0000_0000
        * 0x1_0000_0000) by (nonlinear_arith)
        requires
            -0x1_0000_0000 < delta < 0x1_0000_0000,
            0 <= capacity < 0x1_0000_0000,
    ;
    let energy: i128 = floor_div((delta as i128) * capacity, 100);
    let slots_needed_full_power: usize = slots_between(current_soc_mpct, target_soc_mpct, battery);
    ChargePlan {
        target_soc_mpct,
        min_reserve_soc_mpct,
        energy_needed_mwh: energy as i64,
        cheap_slots_available,
        cheapest_slots_available,
        slots_needed_full_power,
        minutes_until_cheap: minutes,
    }
}

} // verus!
