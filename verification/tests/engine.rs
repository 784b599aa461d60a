use tibber_optimizer::config::BatteryConfig;
use tibber_optimizer::config::OptimizerConfig;
use tibber_optimizer::optimizer::BatteryMode;
use tibber_optimizer::optimizer::BatteryOptimizer;
use tibber_optimizer::plan::ChargePlan;
use tibber_optimizer::tibber::PriceCache;
use tibber_optimizer::tibber::PricePoint;
use tibber_optimizer::tiers::calculate_price_tiers;
use tibber_optimizer::tiers::PriceTiers;
use tibber_optimizer::time::Timestamp;

const START: i64 = 1_700_000_100;

fn slot(total: i64, index: i64) -> PricePoint {
    PricePoint {
        total,
        energy: total,
        tax: 0,
        starts_at: Timestamp { secs: START + 900 * index, offset_secs: 3_600 },
    }
}

fn window_of(totals: &[i64]) -> Vec<PricePoint> {
    let mut window = Vec::new();
    for (i, total) in totals.iter().enumerate() {
        window.push(slot(*total, i as i64));
    }
    window
}

fn battery() -> BatteryConfig {
    BatteryConfig {
        capacity_wh: 10_000,
        round_trip_efficiency_ppm: 900_000,
        min_soc_mpct: 10_000,
        max_soc_mpct: 100_000,
        max_charge_power_w: 15_000,
        max_discharge_power_w: 12_000,
    }
}

fn engine() -> BatteryOptimizer {
    BatteryOptimizer::new(battery(), OptimizerConfig::default())
}

/// Sixteen slots at 0.10 and four at 0.40: cheapest, cheap and expensive
/// thresholds at 0.10, premium at 0.40.
fn evening_peak() -> Vec<PricePoint> {
    let mut totals = vec![100_000i64; 16];
    totals.extend_from_slice(&[400_000; 4]);
    window_of(&totals)
}

fn plan(needed: usize, available: usize) -> ChargePlan {
    ChargePlan {
        target_soc_mpct: 100_000,
        min_reserve_soc_mpct: 60_000,
        energy_needed_mwh: 5_000_000,
        cheap_slots_available: available,
        cheapest_slots_available: 0,
        slots_needed_full_power: needed,
        minutes_until_cheap: 480,
    }
}

fn band() -> PriceTiers {
    PriceTiers {
        cheapest_threshold: 100_000,
        cheap_threshold: 200_000,
        expensive_threshold: 300_000,
        premium_threshold: 400_000,
    }
}

#[test]
fn empty_window_falls_back_to_self_consumption() {
    let engine = engine();
    for soc in [0u32, 10_000, 50_000, 100_000, u32::MAX] {
        for price in [i64::MIN, -1, 0, 50_000, 400_000, i64::MAX] {
            let result = engine.decide(soc, price, &Vec::new());
            assert_eq!(result.mode, BatteryMode::SelfConsumption);
            assert_eq!(result.grid_setpoint_w, 200);
            assert_eq!(result.reason, "no price data");
        }
    }
}

#[test]
fn empty_snapshot_falls_back_whatever_the_clock_says() {
    let engine = engine();
    let result = engine.optimize(95_000, &slot(400_000, 0), &PriceCache::default());
    assert_eq!(result.mode, BatteryMode::SelfConsumption);
    assert_eq!(result.grid_setpoint_w, 200);
}

#[test]
fn fallback_setpoint_follows_the_configured_offset() {
    let mut policy = OptimizerConfig::default();
    policy.setpoint_offset_w = -350;
    let engine = BatteryOptimizer::new(battery(), policy);
    let result = engine.decide(50_000, 100_000, &Vec::new());
    assert_eq!(result.mode, BatteryMode::SelfConsumption);
    assert_eq!(result.grid_setpoint_w, -350);
}

#[test]
fn four_slot_window_charges_at_the_lowest_price() {
    let window = window_of(&[50_000, 80_000, 300_000, 350_000]);
    let tiers = calculate_price_tiers(&window, &OptimizerConfig::default());
    assert_eq!(tiers.cheapest_threshold, 80_000);
    assert_eq!(tiers.cheap_threshold, 80_000);
    assert_eq!(tiers.expensive_threshold, 350_000);
    assert_eq!(tiers.premium_threshold, 350_000);
    let result = engine().decide(50_000, 50_000, &window);
    assert_eq!(result.mode, BatteryMode::ChargeFull);
    assert_eq!(result.grid_setpoint_w, 15_000);
    assert_eq!(
        result.reason,
        "Cheapest price tier 0.050000 EUR, charging at full power. SoC: 50.000% -> target 100.000%"
    );
}

#[test]
fn four_slot_window_never_discharges_at_the_lowest_price() {
    let window = window_of(&[50_000, 80_000, 300_000, 350_000]);
    for soc in [0u32, 20_000, 50_000, 99_999, 100_000] {
        let result = engine().decide(soc, 50_000, &window);
        assert_ne!(result.mode, BatteryMode::DischargeToGrid);
    }
}

#[test]
fn premium_price_with_cheap_slots_ahead_discharges() {
    let window = evening_peak();
    let tiers = calculate_price_tiers(&window, &OptimizerConfig::default());
    assert_eq!(tiers.premium_threshold, 400_000);
    let result = engine().decide(95_000, tiers.premium_threshold, &window);
    assert_eq!(result.mode, BatteryMode::DischargeToGrid);
    assert_eq!(result.grid_setpoint_w, -12_000);
    assert_eq!(
        result.reason,
        "Premium price 0.400000 EUR (threshold 0.400000), discharging to grid. 16 cheap slots available for recharge."
    );
}

#[test]
fn discharge_margin_is_exclusive() {
    let window = evening_peak();
    let at_margin = engine().decide(25_000, 400_000, &window);
    assert_eq!(at_margin.mode, BatteryMode::SelfConsumptionPreventGridPull);
    assert_eq!(at_margin.grid_setpoint_w, -200);
    let above_margin = engine().decide(25_001, 400_000, &window);
    assert_eq!(above_margin.mode, BatteryMode::DischargeToGrid);
}

#[test]
fn discharge_needs_a_premium_price() {
    let window = evening_peak();
    let result = engine().decide(95_000, 399_999, &window);
    assert_ne!(result.mode, BatteryMode::DischargeToGrid);
}

#[test]
fn profitability_floor_lies_between_sixteen_and_seventeen_cents() {
    let engine = engine();
    let tiers = PriceTiers {
        cheapest_threshold: 100_000,
        cheap_threshold: 100_000,
        expensive_threshold: 150_000,
        premium_threshold: 150_000,
    };
    let window = evening_peak();
    assert!(!engine.is_profitable(160_000, &tiers));
    assert!(engine.is_profitable(170_000, &tiers));
    assert!(engine.check_grid_discharge(95_000, 160_000, &tiers, &window).is_none());
    let sold = engine.check_grid_discharge(95_000, 170_000, &tiers, &window);
    assert_eq!(sold.map(|r| r.mode), Some(BatteryMode::DischargeToGrid));
}

#[test]
fn profitability_floor_is_exact() {
    let engine = engine();
    let tiers = band();
    // 0.10 / 0.9 + 0.05 = 0.161111...
    assert!(!engine.is_profitable(161_111, &tiers));
    assert!(engine.is_profitable(161_112, &tiers));
}

#[test]
fn a_battery_that_returns_nothing_never_pays() {
    let mut battery = battery();
    battery.round_trip_efficiency_ppm = 0;
    let engine = BatteryOptimizer::new(battery, OptimizerConfig::default());
    assert!(!engine.is_profitable(i64::MAX, &band()));
    let free = PriceTiers { cheapest_threshold: -5, ..band() };
    assert!(!engine.is_profitable(i64::MAX, &free));
}

#[test]
fn discharge_needs_half_the_refill_slots() {
    // 40 * 85_000 * 10_000 / (1_000 * 900_000) = 37.8, so 38 slots, half 19.
    let mut battery = battery();
    battery.max_charge_power_w = 1_000;
    let engine = BatteryOptimizer::new(battery, OptimizerConfig::default());
    let tiers = PriceTiers {
        cheapest_threshold: 100_000,
        cheap_threshold: 100_000,
        expensive_threshold: 400_000,
        premium_threshold: 400_000,
    };
    let mut totals = vec![100_000i64; 18];
    totals.extend_from_slice(&[400_000; 4]);
    assert!(engine.check_grid_discharge(95_000, 400_000, &tiers, &window_of(&totals)).is_none());
    totals.push(100_000);
    let sold = engine.check_grid_discharge(95_000, 400_000, &tiers, &window_of(&totals));
    assert_eq!(sold.map(|r| r.grid_setpoint_w), Some(-12_000));
}

#[test]
fn discharge_is_refused_when_the_battery_cannot_charge() {
    let mut battery = battery();
    battery.max_charge_power_w = 0;
    let engine = BatteryOptimizer::new(battery, OptimizerConfig::default());
    let result = engine.decide(95_000, 400_000, &evening_peak());
    assert_ne!(result.mode, BatteryMode::DischargeToGrid);
}

#[test]
fn full_battery_does_not_charge() {
    let window = evening_peak();
    let result = engine().decide(100_000, 100_000, &window);
    assert_eq!(result.mode, BatteryMode::SelfConsumptionPreventGridPull);
    let tiers = calculate_price_tiers(&window, &OptimizerConfig::default());
    assert!(engine().check_charging(100_000, 100_000, &tiers, &window).is_none());
}

#[test]
fn full_battery_at_a_low_price_prevents_feed_in() {
    let engine = engine();
    let result = engine.determine_self_consumption_mode(150_000, &band());
    assert_eq!(result.mode, BatteryMode::SelfConsumptionPreventFeedIn);
    assert_eq!(result.grid_setpoint_w, 200);
    assert_eq!(
        result.reason,
        "Low price 0.150000 EUR but not charging, setpoint 200 W to prevent feed-in"
    );
}

#[test]
fn moderate_price_follows_the_house() {
    let result = engine().determine_self_consumption_mode(250_000, &band());
    assert_eq!(result.mode, BatteryMode::SelfConsumption);
    assert_eq!(result.grid_setpoint_w, 200);
    assert_eq!(
        result.reason,
        "Moderate price 0.250000 EUR, setpoint 200 W (preserve battery for expensive periods)"
    );
}

#[test]
fn expensive_price_leans_on_the_battery() {
    let result = engine().determine_self_consumption_mode(300_000, &band());
    assert_eq!(result.mode, BatteryMode::SelfConsumptionPreventGridPull);
    assert_eq!(result.grid_setpoint_w, -200);
    assert_eq!(
        result.reason,
        "Expensive price 0.300000 EUR (>= 0.300000), setpoint -200 W to prevent grid pull"
    );
}

#[test]
fn expensive_wins_over_cheap_when_thresholds_cross() {
    let crossed = PriceTiers {
        cheapest_threshold: 100_000,
        cheap_threshold: 300_000,
        expensive_threshold: 200_000,
        premium_threshold: 400_000,
    };
    let result = engine().determine_self_consumption_mode(250_000, &crossed);
    assert_eq!(result.mode, BatteryMode::SelfConsumptionPreventGridPull);
}

#[test]
fn cheap_price_charges_at_a_scaled_power() {
    // Twenty slots from 0.10 to 0.29: cheapest threshold 0.12, cheap 0.15.
    let totals: Vec<i64> = (0..20).map(|i| 100_000 + 10_000 * i).collect();
    let window = window_of(&totals);
    let tiers = calculate_price_tiers(&window, &OptimizerConfig::default());
    assert_eq!(tiers.cheapest_threshold, 120_000);
    assert_eq!(tiers.cheap_threshold, 150_000);
    // From 50% two slots are needed and six are cheap: urgency 0.4.
    // Position 2/3 gives a base of 0.6000004, the product stays at the floor.
    let result = engine().decide(50_000, 140_000, &window);
    assert_eq!(result.mode, BatteryMode::ChargeReduced);
    assert_eq!(result.grid_setpoint_w, 6_000);
    assert_eq!(
        result.reason,
        "Cheap price tier 0.140000 EUR, charging at 40.0000% power (6000 W). SoC: 50.000% -> target 100.000%, 6 slots remaining"
    );
}

#[test]
fn cheap_price_charges_hard_when_slots_are_short() {
    let totals: Vec<i64> = (0..20).map(|i| 100_000 + 10_000 * i).collect();
    let window = window_of(&totals);
    let mut battery = battery();
    battery.max_charge_power_w = 1_000;
    let engine = BatteryOptimizer::new(battery, OptimizerConfig::default());
    // 40 * 50_000 * 10_000 / (1_000 * 900_000) = 22.2: 23 slots for six cheap ones.
    let result = engine.decide(50_000, 140_000, &window);
    assert_eq!(result.mode, BatteryMode::ChargeFull);
    assert_eq!(result.grid_setpoint_w, 1_000);
}

#[test]
fn critically_low_battery_charges_at_half_power() {
    let totals: Vec<i64> = (0..20).map(|i| 100_000 + 10_000 * i).collect();
    let window = window_of(&totals);
    let tiers = calculate_price_tiers(&window, &OptimizerConfig::default());
    assert_eq!(tiers.expensive_threshold, 250_000);
    let result = engine().decide(14_999, 200_000, &window);
    assert_eq!(result.mode, BatteryMode::ChargeReduced);
    assert_eq!(result.grid_setpoint_w, 7_500);
    assert_eq!(
        result.reason,
        "Critical SoC 14.999%, emergency charging at 50% power despite moderate price 0.200000 EUR"
    );
    let at_margin = engine().decide(15_000, 200_000, &window);
    assert_eq!(at_margin.mode, BatteryMode::SelfConsumption);
    let too_dear = engine().decide(14_999, 250_000, &window);
    assert_eq!(too_dear.mode, BatteryMode::SelfConsumptionPreventGridPull);
}

#[test]
fn power_factor_is_full_without_margin() {
    let engine = engine();
    assert_eq!(engine.calculate_charge_power_factor(&plan(3, 0), 150_000, &band()), 1_000_000);
    assert_eq!(engine.calculate_charge_power_factor(&plan(10, 10), 150_000, &band()), 1_000_000);
    assert_eq!(engine.calculate_charge_power_factor(&plan(11, 10), 150_000, &band()), 1_000_000);
}

#[test]
fn power_factor_is_full_on_a_band_without_width() {
    let flat = PriceTiers { cheap_threshold: 100_000, ..band() };
    assert_eq!(engine().calculate_charge_power_factor(&plan(8, 10), 100_000, &flat), 1_000_000);
    let inverted = PriceTiers { cheap_threshold: 90_000, ..band() };
    assert_eq!(engine().calculate_charge_power_factor(&plan(8, 10), 95_000, &inverted), 1_000_000);
}

#[test]
fn power_factor_follows_the_formula() {
    let engine = engine();
    // urgency 0.8: base 1.0, 0.7 and 0.4
    assert_eq!(engine.calculate_charge_power_factor(&plan(8, 10), 100_000, &band()), 800_000);
    assert_eq!(engine.calculate_charge_power_factor(&plan(8, 10), 150_000, &band()), 560_000);
    assert_eq!(engine.calculate_charge_power_factor(&plan(8, 10), 200_000, &band()), 400_000);
    // urgency held at 0.4
    assert_eq!(engine.calculate_charge_power_factor(&plan(2, 10), 100_000, &band()), 400_000);
    // urgency 0.95 at the cheapest threshold counts as full power
    assert_eq!(engine.calculate_charge_power_factor(&plan(95, 100), 100_000, &band()), 950_000);
    // position rounds down to a millionth: 1/3 of the band
    assert_eq!(engine.calculate_charge_power_factor(&plan(9, 10), 133_333, &band()), 720_001);
}

#[test]
fn power_factor_clamps_the_price_to_the_band() {
    let engine = engine();
    assert_eq!(engine.calculate_charge_power_factor(&plan(8, 10), 50_000, &band()), 800_000);
    assert_eq!(engine.calculate_charge_power_factor(&plan(8, 10), i64::MIN, &band()), 800_000);
    assert_eq!(engine.calculate_charge_power_factor(&plan(8, 10), i64::MAX, &band()), 400_000);
}

#[test]
fn power_factor_never_rises_with_the_price() {
    let engine = engine();
    for (needed, available) in [(1usize, 10usize), (4, 10), (5, 10), (9, 10), (99, 100)] {
        let mut last = u32::MAX;
        let mut price = 90_000;
        while price <= 210_000 {
            let factor = engine.calculate_charge_power_factor(
                &plan(needed, available),
                price,
                &band(),
            );
            assert!(factor <= last);
            assert!((400_000..=1_000_000).contains(&factor));
            last = factor;
            price += 1_000;
        }
    }
}

#[test]
fn equal_inputs_give_equal_decisions() {
    let window = evening_peak();
    for (soc, price) in [(95_000u32, 400_000i64), (50_000, 100_000), (12_000, 200_000)] {
        let first = engine().decide(soc, price, &window);
        let second = engine().decide(soc, price, &window);
        assert_eq!(first.mode, second.mode);
        assert_eq!(first.grid_setpoint_w, second.grid_setpoint_w);
        assert_eq!(first.reason.as_bytes(), second.reason.as_bytes());
    }
}

#[test]
fn decision_at_an_instant_reads_the_window_from_then_on() {
    let cache = PriceCache {
        current: None,
        today: evening_peak(),
        tomorrow: Vec::new(),
        last_fetch: None,
    };
    let engine = engine();
    let early = engine.optimize_at(95_000, &slot(400_000, 0), &cache, START);
    assert_eq!(early.mode, BatteryMode::DischargeToGrid);
    // From the seventeenth slot on only the four premium slots are left:
    // every threshold is 0.40 and the price is cheapest.
    let late = engine.optimize_at(95_000, &slot(400_000, 16), &cache, START + 900 * 16);
    assert_eq!(late.mode, BatteryMode::ChargeFull);
    let after = engine.optimize_at(95_000, &slot(400_000, 19), &cache, START + 900 * 20);
    assert_eq!(after.mode, BatteryMode::SelfConsumption);
    assert_eq!(after.reason, "no price data");
}

#[test]
fn mode_names() {
    assert_eq!(BatteryMode::ChargeFull.as_str(), "charge_full");
    assert_eq!(BatteryMode::ChargeReduced.as_str(), "charge_reduced");
    assert_eq!(BatteryMode::DischargeToGrid.as_str(), "discharge_to_grid");
    assert_eq!(BatteryMode::SelfConsumptionPreventFeedIn.as_str(), "self_consumption_no_feedin");
    assert_eq!(BatteryMode::SelfConsumptionPreventGridPull.as_str(), "self_consumption_no_grid");
    assert_eq!(BatteryMode::SelfConsumption.as_str(), "self_consumption");
    assert_eq!(BatteryMode::DischargeToGrid.to_string(), "discharge_to_grid");
}
