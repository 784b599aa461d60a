//! The decision: three rules tried in a fixed order, the first that applies
//! wins.
//!
//! 1. Sell to the grid when the price is premium, the sale pays for the
//!    later refill, and the window holds enough cheap slots to refill.
//! 2. Charge when the price is cheap, or when the battery is nearly empty.
//! 3. Otherwise follow the house, leaning toward or away from the grid.
//!
//! `BatteryOptimizer::decision` states the outcome as a function of the
//! state of charge, the current price and the forecast window; the
//! executable functions are proved to compute it.

use vstd::prelude::*;
use vstd::arithmetic::div_mod::lemma_div_is_ordered;
use vstd::arithmetic::div_mod::lemma_div_multiples_vanish;
use vstd::arithmetic::div_mod::lemma_div_pos_is_pos;
use crate::config::BatteryConfig;
use crate::config::OptimizerConfig;
use crate::plan::calculate_charge_plan;
use crate::plan::charge_plan;
use crate::plan::slots_between;
use crate::plan::slots_to_fill;
use crate::plan::ChargePlan;
use crate::reasons::cheap_reason;
use crate::reasons::cheap_text;
use crate::reasons::cheapest_reason;
use crate::reasons::cheapest_text;
use crate::reasons::discharge_reason;
use crate::reasons::discharge_text;
use crate::reasons::emergency_reason;
use crate::reasons::emergency_text;
use crate::reasons::expensive_reason;
use crate::reasons::expensive_text;
use crate::reasons::low_reason;
use crate::reasons::low_text;
use crate::reasons::moderate_reason;
use crate::reasons::moderate_text;
use crate::reasons::no_data_reason;
use crate::reasons::no_data_text;
use crate::tibber::PriceCache;
use crate::tibber::PricePoint;
use crate::tiers::calculate_price_tiers;
use crate::tiers::price_tiers;
use crate::tiers::PriceTiers;
use crate::time::next_whole_second;
use crate::units::PERCENT;
use crate::window::count_at_most;
use crate::window::count_slots_below_threshold;

verus! {

/// Margin above the minimum state of charge that selling must leave, in
/// thousandths of a percent.
pub const DISCHARGE_MARGIN_MPCT: u32 = 15 * PERCENT;

/// Margin above the minimum state of charge under which the battery counts
/// as critically low.
pub const CRITICAL_MARGIN_MPCT: u32 = 5 * PERCENT;

/// Least power factor, in millionths.
pub const MIN_POWER_FACTOR_PPM: u32 = 400_000;

/// Power factor from which charging counts as full, in millionths.
pub const FULL_POWER_FACTOR_PPM: u32 = 900_000;

/// What the battery is told to do.
#[derive(Clone, Copy, Debug, PartialEq, Eq, Structural)]
pub enum BatteryMode {
    /// Charge from the grid at the highest rate.
    ChargeFull,
    /// Charge from the grid at a lower rate.
    ChargeReduced,
    /// Sell to the grid at the highest rate.
    DischargeToGrid,
    /// Follow the house, leaning toward the grid so that nothing is fed in.
    SelfConsumptionPreventFeedIn,
    /// Follow the house, leaning toward the battery so that nothing is drawn.
    SelfConsumptionPreventGridPull,
    /// Follow the house.
    SelfConsumption,
}

impl BatteryMode {
    /// The name under which the mode is published.
    pub open spec fn name(self) -> Seq<char> {
        match self {
            BatteryMode::ChargeFull => "charge_full"@,
            BatteryMode::ChargeReduced => "charge_reduced"@,
            BatteryMode::DischargeToGrid => "discharge_to_grid"@,
            BatteryMode::SelfConsumptionPreventFeedIn => "self_consumption_no_feedin"@,
            BatteryMode::SelfConsumptionPreventGridPull => "self_consumption_no_grid"@,
            BatteryMode::SelfConsumption => "self_consumption"@,
        }
    }

    /// The name under which the mode is published.
    pub fn as_str(&self) -> (name: &'static str)
        ensures
            name@ == self.name(),
    {
        match self {
            BatteryMode::ChargeFull => "charge_full",
            BatteryMode::ChargeReduced => "charge_reduced",
            BatteryMode::DischargeToGrid => "discharge_to_grid",
            BatteryMode::SelfConsumptionPreventFeedIn => "self_consumption_no_feedin",
            BatteryMode::SelfConsumptionPreventGridPull => "self_consumption_no_grid",
            BatteryMode::SelfConsumption => "self_consumption",
        }
    }

    /// The name as an owned string.
    pub fn to_string(&self) -> (name: String)
        ensures
            name@ == self.name(),
    {
        String::from_str(self.as_str())
    }

    /// No two modes share a name.
    pub proof fn lemma_names_differ(a: BatteryMode, b: BatteryMode)
        requires
            a != b,
        ensures
            a.name() != b.name(),
    {
        reveal_strlit("charge_full");
        reveal_strlit("charge_reduced");
        reveal_strlit("discharge_to_grid");
        reveal_strlit("self_consumption_no_feedin");
        reveal_strlit("self_consumption_no_grid");
        reveal_strlit("self_consumption");
        assert(a.name().len() != b.name().len());
    }
}

/// A decision as the engine hands it out.
#[derive(Debug, Clone)]
pub struct OptimizationResult {
    pub mode: BatteryMode,
    /// Grid power to aim for in watts: positive draws from the grid,
    /// negative feeds into it.
    pub grid_setpoint_w: i64,
    /// The sentence that explains the decision.
    pub reason: String,
}

/// A decision as contracts speak of it.
pub struct Decision {
    pub mode: BatteryMode,
    pub grid_setpoint_w: int,
    pub reason: Seq<char>,
}

impl View for OptimizationResult {
    type V = Decision;

    open spec fn view(&self) -> Decision {
        Decision {
            mode: self.mode,
            grid_setpoint_w: self.grid_setpoint_w as int,
            reason: self.reason@,
        }
    }
}

/// What a rule returned is what the rule gives: the same decision, or a
/// pass where the rule passes.
pub open spec fn agrees(found: Option<OptimizationResult>, rule: Option<Decision>) -> bool {
    match found {
        Some(result) => rule == Some(result@),
        None => rule is None,
    }
}

/// Where in the band from the cheapest to the cheap threshold a price lies,
/// in millionths of the band's width, rounded down: nothing at or below the
/// cheapest threshold, a million at or above the cheap one.
pub open spec fn price_position_ppm(price: i64, tiers: PriceTiers) -> int {
    let band = tiers.cheap_threshold - tiers.cheapest_threshold;
    let offset = price - tiers.cheapest_threshold;
    let into = if offset < 0 {
        0
    } else if offset > band {
        band
    } else {
        offset
    };
    into * 1_000_000 / band
}

/// The share of the full charging power to use at a cheap price, in
/// millionths.
///
/// Full power when no cheap slot is left, when the plan needs every cheap
/// slot there is, or when the band between the two thresholds has no width.
/// Otherwise the product of two factors, kept at or above four tenths: a
/// base that falls in a straight line from one at the cheapest threshold
/// to four tenths at the cheap one, and an urgency that is the share of the
/// cheap slots the plan needs, at least four tenths. The product is rounded
/// down to a millionth.
pub open spec fn charge_power_factor(plan: ChargePlan, price: i64, tiers: PriceTiers) -> int {
    let needed = plan.slots_needed_full_power as int;
    let available = plan.cheap_slots_available as int;
    if available == 0 || needed >= available || tiers.cheap_threshold
        <= tiers.cheapest_threshold {
        1_000_000
    } else {
        // base = tenths / 10_000_000
        let tenths = 10_000_000 - 6 * price_position_ppm(price, tiers);
        let product = if 5 * needed >= 2 * available {
            tenths * needed / (10 * available)
        } else {
            tenths * 2 / 50
        };
        if product < MIN_POWER_FACTOR_PPM {
            MIN_POWER_FACTOR_PPM as int
        } else {
            product
        }
    }
}

/// The position of a price in the band is a share of the band, and a higher
/// price never lies further down.
pub proof fn lemma_price_position(p1: i64, p2: i64, tiers: PriceTiers)
    requires
        tiers.cheapest_threshold < tiers.cheap_threshold,
        p1 <= p2,
    ensures
        0 <= price_position_ppm(p1, tiers) <= price_position_ppm(p2, tiers) <= 1_000_000,
{
    let band = tiers.cheap_threshold - tiers.cheapest_threshold;
    let o1 = p1 - tiers.cheapest_threshold;
    let o2 = p2 - tiers.cheapest_threshold;
    let i1 = if o1 < 0 {
        0
    } else if o1 > band {
        band
    } else {
        o1
    };
    let i2 = if o2 < 0 {
        0
    } else if o2 > band {
        band
    } else {
        o2
    };
    assert(0 <= i1 <= i2 <= band);
    lemma_div_pos_is_pos(i1 * 1_000_000, band);
    lemma_div_is_ordered(i1 * 1_000_000, i2 * 1_000_000, band);
    lemma_div_is_ordered(i2 * 1_000_000, band * 1_000_000, band);
    lemma_div_multiples_vanish(1_000_000, band);
    assert(band * 1_000_000 == band * 1_000_000int);
}

/// The power factor lies between four tenths and one.
pub proof fn lemma_power_factor_bounds(plan: ChargePlan, price: i64, tiers: PriceTiers)
    ensures
        MIN_POWER_FACTOR_PPM <= charge_power_factor(plan, price, tiers) <= 1_000_000,
{
    let needed = plan.slots_needed_full_power as int;
    let available = plan.cheap_slots_available as int;
    if !(available == 0 || needed >= available || tiers.cheap_threshold
        <= tiers.cheapest_threshold) {
        lemma_price_position(price, price, tiers);
        let tenths = 10_000_000 - 6 * price_position_ppm(price, tiers);
        assert(4_000_000 <= tenths <= 10_000_000);
        if 5 * needed >= 2 * available {
            assert(tenths * needed <= 1_000_000 * (10 * available)) by (nonlinear_arith)
                requires
                    0 <= tenths <= 10_000_000,
                    0 <= needed < available,
            ;
            lemma_div_is_ordered(tenths * needed, 1_000_000 * (10 * available), 10 * available);
            lemma_div_multiples_vanish(1_000_000, 10 * available);
            assert((10 * available) * 1_000_000 == 1_000_000 * (10 * available))
                by (nonlinear_arith);
        }
    }
}

/// With the plan and the tiers held fixed, a higher price never gets a
/// higher power factor.
pub proof fn lemma_power_factor_falls_with_price(
    plan: ChargePlan,
    p1: i64,
    p2: i64,
    tiers: PriceTiers,
)
    requires
        p1 <= p2,
    ensures
        charge_power_factor(plan, p1, tiers) >= charge_power_factor(plan, p2, tiers),
{
    let needed = plan.slots_needed_full_power as int;
    let available = plan.cheap_slots_available as int;
    if !(available == 0 || needed >= available || tiers.cheap_threshold
        <= tiers.cheapest_threshold) {
        lemma_price_position(p1, p2, tiers);
        let t1 = 10_000_000 - 6 * price_position_ppm(p1, tiers);
        let t2 = 10_000_000 - 6 * price_position_ppm(p2, tiers);
        assert(0 <= t2 <= t1);
        if 5 * needed >= 2 * available {
            assert(t2 * needed <= t1 * needed) by (nonlinear_arith)
                requires
                    0 <= t2 <= t1,
                    0 <= needed,
            ;
            lemma_div_is_ordered(t2 * needed, t1 * needed, 10 * available);
        }
    }
}

/// The engine: a battery and a policy.
#[derive(Clone, Copy, Debug)]
pub struct BatteryOptimizer {
    pub battery_config: BatteryConfig,
    pub optimizer_config: OptimizerConfig,
}

impl BatteryOptimizer {
    /// Selling at `price` pays: it brings in at least what refilling at the
    /// cheapest threshold costs after the round-trip loss, plus the spread
    /// the policy asks for. With `e` the efficiency as a fraction this is
    /// `price >= cheapest / e + spread`; a battery that gives nothing back
    /// never pays.
    pub open spec fn pays(self, price: i64, tiers: PriceTiers) -> bool {
        let efficiency = self.battery_config.round_trip_efficiency_ppm as int;
        efficiency > 0 && (price - self.optimizer_config.min_discharge_spread_micros)
            * efficiency >= tiers.cheapest_threshold * 1_000_000
    }

    /// Slots of charging at full power that bring the battery back from its
    /// minimum to `soc_mpct`.
    pub open spec fn refill_slots(self, soc_mpct: u32) -> int {
        slots_to_fill(soc_mpct - self.battery_config.min_soc_mpct, self.battery_config)
    }

    /// The four conditions for selling, all of which must hold: the state of
    /// charge lies more than the discharge margin above the minimum; the
    /// price has reached the premium threshold; selling pays; and the window
    /// holds at least half as many cheap slots, the half rounded down, as
    /// refilling what can be sold takes.
    pub open spec fn sells(
        self,
        soc_mpct: u32,
        price: i64,
        tiers: PriceTiers,
        window: Seq<PricePoint>,
    ) -> bool {
        &&& soc_mpct > self.battery_config.min_soc_mpct + DISCHARGE_MARGIN_MPCT
        &&& price >= tiers.premium_threshold
        &&& self.pays(price, tiers)
        &&& count_at_most(window, tiers.cheap_threshold as int) >= self.refill_slots(soc_mpct) / 2
    }

    /// The first rule: sell at the highest rate, or pass.
    pub open spec fn discharge_rule(
        self,
        soc_mpct: u32,
        price: i64,
        tiers: PriceTiers,
        window: Seq<PricePoint>,
    ) -> Option<Decision> {
        if self.sells(soc_mpct, price, tiers, window) {
            Some(
                Decision {
                    mode: BatteryMode::DischargeToGrid,
                    grid_setpoint_w: -(self.battery_config.max_discharge_power_w as int),
                    reason: discharge_reason(
                        price as int,
                        tiers.premium_threshold as int,
                        count_at_most(window, tiers.cheap_threshold as int),
                    ),
                },
            )
        } else {
            None
        }
    }

    /// The second rule: charge, or pass. Below the maximum state of charge
    /// the battery charges at full power at a cheapest price, at a scaled
    /// power at a cheap price, and at half power when it is critically low
    /// and the price is not expensive.
    pub open spec fn charging_rule(
        self,
        soc_mpct: u32,
        price: i64,
        tiers: PriceTiers,
        window: Seq<PricePoint>,
    ) -> Option<Decision> {
        let plan = charge_plan(soc_mpct, self.battery_config, self.optimizer_config, tiers, window);
        let full = self.battery_config.max_charge_power_w as int;
        if soc_mpct >= self.battery_config.max_soc_mpct {
            None
        } else if price <= tiers.cheapest_threshold {
            Some(
                Decision {
                    mode: BatteryMode::ChargeFull,
                    grid_setpoint_w: full,
                    reason: cheapest_reason(
                        price as int,
                        soc_mpct as int,
                        plan.target_soc_mpct as int,
                    ),
                },
            )
        } else if price <= tiers.cheap_threshold && soc_mpct < plan.target_soc_mpct {
            let factor = charge_power_factor(plan, price, tiers);
            Some(
                Decision {
                    mode: if factor >= FULL_POWER_FACTOR_PPM {
                        BatteryMode::ChargeFull
                    } else {
                        BatteryMode::ChargeReduced
                    },
                    grid_setpoint_w: full * factor / 1_000_000,
                    reason: cheap_reason(
                        price as int,
                        factor,
                        full * factor / 1_000_000,
                        soc_mpct as int,
                        plan.target_soc_mpct as int,
                        plan.cheap_slots_available as nat,
                    ),
                },
            )
        } else if soc_mpct < self.battery_config.min_soc_mpct + CRITICAL_MARGIN_MPCT && price
            < tiers.expensive_threshold {
            Some(
                Decision {
                    mode: BatteryMode::ChargeReduced,
                    grid_setpoint_w: full / 2,
                    reason: emergency_reason(soc_mpct as int, price as int),
                },
            )
        } else {
            None
        }
    }

    /// The third rule: follow the house. At an expensive price the setpoint
    /// leans toward the battery, otherwise toward the grid.
    pub open spec fn self_consumption_rule(self, price: i64, tiers: PriceTiers) -> Decision {
        let offset = self.optimizer_config.setpoint_offset_w as int;
        if price >= tiers.expensive_threshold {
            Decision {
                mode: BatteryMode::SelfConsumptionPreventGridPull,
                grid_setpoint_w: -offset,
                reason: expensive_reason(price as int, tiers.expensive_threshold as int, -offset),
            }
        } else if price <= tiers.cheap_threshold {
            Decision {
                mode: BatteryMode::SelfConsumptionPreventFeedIn,
                grid_setpoint_w: offset,
                reason: low_reason(price as int, offset),
            }
        } else {
            Decision {
                mode: BatteryMode::SelfConsumption,
                grid_setpoint_w: offset,
                reason: moderate_reason(price as int, offset),
            }
        }
    }

    /// What is decided without a forecast: follow the house.
    pub open spec fn no_data_decision(self) -> Decision {
        Decision {
            mode: BatteryMode::SelfConsumption,
            grid_setpoint_w: self.optimizer_config.setpoint_offset_w as int,
            reason: no_data_reason(),
        }
    }

    /// The decision for a state of charge, a current price and a forecast
    /// window: without a window the fallback, else the first rule that does
    /// not pass.
    pub open spec fn decision(self, soc_mpct: u32, price: i64, window: Seq<PricePoint>) -> Decision {
        let tiers = price_tiers(window, self.optimizer_config);
        if window.len() == 0 {
            self.no_data_decision()
        } else {
            match self.discharge_rule(soc_mpct, price, tiers, window) {
                Some(decision) => decision,
                None => match self.charging_rule(soc_mpct, price, tiers, window) {
                    Some(decision) => decision,
                    None => self.self_consumption_rule(price, tiers),
                },
            }
        }
    }

    /// Two results that `decide` may hand out for the same inputs are the
    /// same result: mode, setpoint and every character of the reason.
    pub proof fn lemma_equal_inputs_equal_decisions(
        self,
        soc_mpct: u32,
        price: i64,
        window: Seq<PricePoint>,
        first: OptimizationResult,
        second: OptimizationResult,
    )
        requires
            first@ == self.decision(soc_mpct, price, window),
            second@ == self.decision(soc_mpct, price, window),
        ensures
            first.mode == second.mode,
            first.grid_setpoint_w == second.grid_setpoint_w,
            first.reason@ == second.reason@,
    {
    }

    /// A battery whose state of charge is no more than fifteen percent above
    /// its minimum is never told to sell, whatever the prices.
    pub proof fn lemma_no_discharge_near_floor(
        self,
        soc_mpct: u32,
        price: i64,
        window: Seq<PricePoint>,
    )
        requires
            soc_mpct <= self.battery_config.min_soc_mpct + DISCHARGE_MARGIN_MPCT,
        ensures
            self.decision(soc_mpct, price, window).mode != BatteryMode::DischargeToGrid,
    {
    }

    /// Selling is decided exactly when its four conditions hold on a window
    /// that is not empty, and then at the full discharge power.
    pub proof fn lemma_discharge_exactly_when_it_sells(
        self,
        soc_mpct: u32,
        price: i64,
        window: Seq<PricePoint>,
    )
        ensures
            self.decision(soc_mpct, price, window).mode == BatteryMode::DischargeToGrid <==> (
            window.len() > 0 && self.sells(
                soc_mpct,
                price,
                price_tiers(window, self.optimizer_config),
                window,
            )),
            self.decision(soc_mpct, price, window).mode == BatteryMode::DischargeToGrid
                ==> self.decision(soc_mpct, price, window).grid_setpoint_w == -(
            self.battery_config.max_discharge_power_w as int),
    {
    }

    /// A battery at or above its maximum state of charge is never told to
    /// charge.
    pub proof fn lemma_full_battery_does_not_charge(
        self,
        soc_mpct: u32,
        price: i64,
        window: Seq<PricePoint>,
    )
        requires
            soc_mpct >= self.battery_config.max_soc_mpct,
        ensures
            self.decision(soc_mpct, price, window).mode != BatteryMode::ChargeFull,
            self.decision(soc_mpct, price, window).mode != BatteryMode::ChargeReduced,
    {
    }

    /// Charging never asks for more than the full charging power, selling
    /// never for less than the full discharging power, and following the
    /// house leans by the configured offset.
    pub proof fn lemma_setpoint_by_mode(self, soc_mpct: u32, price: i64, window: Seq<PricePoint>)
        ensures
            match self.decision(soc_mpct, price, window).mode {
                BatteryMode::ChargeFull | BatteryMode::ChargeReduced => 0 <= self.decision(
                    soc_mpct,
                    price,
                    window,
                ).grid_setpoint_w <= self.battery_config.max_charge_power_w,
                BatteryMode::DischargeToGrid => self.decision(
                    soc_mpct,
                    price,
                    window,
                ).grid_setpoint_w == -(self.battery_config.max_discharge_power_w as int),
                BatteryMode::SelfConsumptionPreventGridPull => self.decision(
                    soc_mpct,
                    price,
                    window,
                ).grid_setpoint_w == -(self.optimizer_config.setpoint_offset_w as int),
                BatteryMode::SelfConsumptionPreventFeedIn | BatteryMode::SelfConsumption
                    => self.decision(soc_mpct, price, window).grid_setpoint_w
                    == self.optimizer_config.setpoint_offset_w,
            },
    {
        let tiers = price_tiers(window, self.optimizer_config);
        let plan = charge_plan(soc_mpct, self.battery_config, self.optimizer_config, tiers, window);
        let factor = charge_power_factor(plan, price, tiers);
        let full = self.battery_config.max_charge_power_w as int;
        lemma_power_factor_bounds(plan, price, tiers);
        assert(0 <= full * factor <= full * 1_000_000) by (nonlinear_arith)
            requires
                0 <= full,
                0 <= factor <= 1_000_000,
        ;
        lemma_div_pos_is_pos(full * factor, 1_000_000);
        lemma_div_is_ordered(full * factor, full * 1_000_000, 1_000_000);
        lemma_div_multiples_vanish(full, 1_000_000);
        assert(1_000_000 * full == full * 1_000_000);
    }

    /// A price below what refilling costs after the round-trip loss, plus
    /// the spread, is never sold at.
    pub proof fn lemma_no_discharge_below_profit(
        self,
        soc_mpct: u32,
        price: i64,
        window: Seq<PricePoint>,
    )
        requires
            !self.pays(price, price_tiers(window, self.optimizer_config)),
        ensures
            self.decision(soc_mpct, price, window).mode != BatteryMode::DischargeToGrid,
    {
    }

    /// An engine for a battery under a policy.
    pub fn new(battery_config: BatteryConfig, optimizer_config: OptimizerConfig) -> (engine: Self)
        ensures
            engine.battery_config == battery_config,
            engine.optimizer_config == optimizer_config,
    {
        Self { battery_config, optimizer_config }
    }

    /// Executable `pays`.
    pub fn is_profitable(&self, price: i64, tiers: &PriceTiers) -> (pays: bool)
        ensures
            pays == self.pays(price, *tiers),
    {
        let efficiency: i128 = self.battery_config.round_trip_efficiency_ppm as i128;
        if efficiency == 0 {
            return false;
        }
        let margin: i128 = price as i128 - self.optimizer_config.min_discharge_spread_micros as i128;
        assert(-0x1_0000_0000_0000_0000 * 0x1_0000_0000 <= margin * efficiency
            <= 0x1_0000_0000_0000_0000 * 0x1_0000_0000) by (nonlinear_arith)
            requires
                -0x1_0000_0000_0000_0000 <= margin <= 0x1_0000_0000_0000_0000,
                0 <= efficiency <= 0x1_0000_0000,
        ;
        margin * efficiency >= (tiers.cheapest_threshold as i128) * 1_000_000
    }

    /// The first rule: whether to sell to the grid.
    pub fn check_grid_discharge(
        &self,
        soc_mpct: u32,
        price: i64,
        tiers: &PriceTiers,
        window: &Vec<PricePoint>,
    ) -> (found: Option<OptimizationResult>)
        ensures
            agrees(found, self.discharge_rule(soc_mpct, price, *tiers, window@)),
            found is Some <==> self.sells(soc_mpct, price, *tiers, window@),
    {
        if soc_mpct as u64 <= self.battery_config.min_soc_mpct as u64
            + DISCHARGE_MARGIN_MPCT as u64 {
            return None;
        }
        if price < tiers.premium_threshold {
            return None;
        }
        if !self.is_profitable(price, tiers) {
            return None;
        }
        let slots_needed: usize = slots_between(
            self.battery_config.min_soc_mpct,
            soc_mpct,
            &self.battery_config,
        );
        let cheap_slots: usize = count_slots_below_threshold(window, tiers.cheap_threshold);
        if cheap_slots < slots_needed / 2 {
            return None;
        }
        Some(
            OptimizationResult {
                mode: BatteryMode::DischargeToGrid,
                grid_setpoint_w: -(self.battery_config.max_discharge_power_w as i64),
                reason: discharge_text(price, tiers.premium_threshold, cheap_slots),
            },
        )
    }

    /// Executable `charge_power_factor`.
    pub fn calculate_charge_power_factor(
        &self,
        plan: &ChargePlan,
        price: i64,
        tiers: &PriceTiers,
    ) -> (factor: u32)
        ensures
            factor == charge_power_factor(*plan, price, *tiers),
            MIN_POWER_FACTOR_PPM <= factor <= 1_000_000,
    {
        proof {
            lemma_power_factor_bounds(*plan, price, *tiers);
        }
        let available: u128 = plan.cheap_slots_available as u128;
        let needed: u128 = plan.slots_needed_full_power as u128;
        if available == 0 || needed >= available {
            return 1_000_000;
        }
        let band: i128 = tiers.cheap_threshold as i128 - tiers.cheapest_threshold as i128;
        if band <= 0 {
            return 1_000_000;
        }
        let offset: i128 = price as i128 - tiers.cheapest_threshold as i128;
        let into: i128 = if offset < 0 {
            0
        } else if offset > band {
            band
        } else {
            offset
        };
        proof {
            lemma_price_position(price, price, *tiers);
        }
        let position: u128 = (into as u128 * 1_000_000) / (band as u128);
        let tenths: u128 = 10_000_000 - 6 * position;
        let product: u128 = if 5 * needed >= 2 * available {
            assert(tenths * needed <= 10_000_000 * 0xffff_ffff_ffff_ffff) by (nonlinear_arith)
                requires
                    tenths <= 10_000_000,
                    needed <= 0xffff_ffff_ffff_ffff,
            ;
            tenths * needed / (10 * available)
        } else {
            tenths * 2 / 50
        };
        if product < MIN_POWER_FACTOR_PPM as u128 {
            MIN_POWER_FACTOR_PPM
        } else {
            product as u32
        }
    }

    /// The second rule: whether to charge, and how hard.
    pub fn check_charging(
        &self,
        soc_mpct: u32,
        price: i64,
        tiers: &PriceTiers,
        window: &Vec<PricePoint>,
    ) -> (found: Option<OptimizationResult>)
        ensures
            agrees(found, self.charging_rule(soc_mpct, price, *tiers, window@)),
    {
        if soc_mpct >= self.battery_config.max_soc_mpct {
            return None;
        }
        let plan: ChargePlan = calculate_charge_plan(
            soc_mpct,
            &self.battery_config,
            &self.optimizer_config,
            tiers,
            window,
        );
        let full: u32 = self.battery_config.max_charge_power_w;
        if price <= tiers.cheapest_threshold {
            return Some(
                OptimizationResult {
                    mode: BatteryMode::ChargeFull,
                    grid_setpoint_w: full as i64,
                    reason: cheapest_text(price, soc_mpct, plan.target_soc_mpct),
                },
            );
        }
        if price <= tiers.cheap_threshold && soc_mpct < plan.target_soc_mpct {
            let factor: u32 = self.calculate_charge_power_factor(&plan, price, tiers);
            assert(full as u64 * factor as u64 <= 0xffff_ffff * 1_000_000) by (nonlinear_arith)
                requires
                    full as u64 <= 0xffff_ffff,
                    factor as u64 <= 1_000_000,
            ;
            let power: i64 = (full as u64 * factor as u64 / 1_000_000) as i64;
            return Some(
                OptimizationResult {
                    mode: if factor >= FULL_POWER_FACTOR_PPM {
                        BatteryMode::ChargeFull
                    } else {
                        BatteryMode::ChargeReduced
                    },
                    grid_setpoint_w: power,
                    reason: cheap_text(
                        price,
                        factor,
                        power,
                        soc_mpct,
                        plan.target_soc_mpct,
                        plan.cheap_slots_available,
                    ),
                },
            );
        }
        if (soc_mpct as u64) < self.battery_config.min_soc_mpct as u64 + CRITICAL_MARGIN_MPCT as u64
            && price < tiers.expensive_threshold {
            return Some(
                OptimizationResult {
                    mode: BatteryMode::ChargeReduced,
                    grid_setpoint_w: (full / 2) as i64,
                    reason: emergency_text(soc_mpct, price),
                },
            );
        }
        None
    }

    /// The third rule: how to follow the house.
    pub fn determine_self_consumption_mode(&self, price: i64, tiers: &PriceTiers) -> (result:
        OptimizationResult)
        ensures
            result@ == self.self_consumption_rule(price, *tiers),
    {
        let offset: i64 = self.optimizer_config.setpoint_offset_w as i64;
        if price >= tiers.expensive_threshold {
            OptimizationResult {
                mode: BatteryMode::SelfConsumptionPreventGridPull,
                grid_setpoint_w: -offset,
                reason: expensive_text(price, tiers.expensive_threshold, -offset),
            }
        } else if price <= tiers.cheap_threshold {
            OptimizationResult {
                mode: BatteryMode::SelfConsumptionPreventFeedIn,
                grid_setpoint_w: offset,
                reason: low_text(price, offset),
            }
        } else {
            OptimizationResult {
                mode: BatteryMode::SelfConsumption,
                grid_setpoint_w: offset,
                reason: moderate_text(price, offset),
            }
        }
    }

    /// Decides for a state of charge, a current price and a forecast
    /// window. The result is a function of the three and of the engine's
    /// configuration: equal inputs give equal decisions, text included.
    pub fn decide(&self, soc_mpct: u32, price: i64, window: &Vec<PricePoint>) -> (result:
        OptimizationResult)
        ensures
            result@ == self.decision(soc_mpct, price, window@),
            window@.len() == 0 ==> result@ == self.no_data_decision(),
    {
        if window.len() == 0 {
            return OptimizationResult {
                mode: BatteryMode::SelfConsumption,
                grid_setpoint_w: self.optimizer_config.setpoint_offset_w as i64,
                reason: no_data_text(),
            };
        }
        let tiers: PriceTiers = calculate_price_tiers(window, &self.optimizer_config);
        match self.check_grid_discharge(soc_mpct, price, &tiers, window) {
            Some(result) => {
                return result;
            },
            None => {},
        }
        match self.check_charging(soc_mpct, price, &tiers, window) {
            Some(result) => {
                return result;
            },
            None => {},
        }
        self.determine_self_consumption_mode(price, &tiers)
    }

    /// Decides at the second `now`, on the forecast window the snapshot has
    /// then.
    pub fn optimize_at(
        &self,
        current_soc_mpct: u32,
        current_price: &PricePoint,
        price_cache: &PriceCache,
        now: i64,
    ) -> (result: OptimizationResult)
        ensures
            result@ == self.decision(
                current_soc_mpct,
                current_price.total,
                price_cache.window(now as int),
            ),
    {
        let window: Vec<PricePoint> = price_cache.future_prices_at(now);
        self.decide(current_soc_mpct, current_price.total, &window)
    }

    /// Decides at the time of the call. The clock picks the instant; the
    /// result is the decision on the window of some instant, and on a
    /// snapshot without slots it is the fallback.
    pub fn optimize(
        &self,
        current_soc_mpct: u32,
        current_price: &PricePoint,
        price_cache: &PriceCache,
    ) -> (result: OptimizationResult)
        ensures
            exists|now: i64|
                result@ == self.decision(
                    current_soc_mpct,
                    current_price.total,
                    #[trigger] price_cache.window(now as int),
                ),
            price_cache.today@.len() == 0 && price_cache.tomorrow@.len() == 0 ==> result@
                == self.no_data_decision(),
    {
        let now: i64 = next_whole_second();
        proof {
            if price_cache.today@.len() == 0 && price_cache.tomorrow@.len() == 0 {
                price_cache.lemma_empty_snapshot(now as int);
            }
        }
        self.optimize_at(current_soc_mpct, current_price, price_cache, now)
    }
}

} // verus!
