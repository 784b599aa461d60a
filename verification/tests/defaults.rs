use tibber_optimizer::config::default_cheapest_percentile;
use tibber_optimizer::config::default_charge_percentile;
use tibber_optimizer::config::default_client_id;
use tibber_optimizer::config::default_discharge_percentile;
use tibber_optimizer::config::default_expensive_percentile;
use tibber_optimizer::config::default_base_consumption;
use tibber_optimizer::config::default_max_power;
use tibber_optimizer::config::default_max_soc;
use tibber_optimizer::config::default_min_soc;
use tibber_optimizer::config::default_min_spread;
use tibber_optimizer::config::default_mqtt_port;
use tibber_optimizer::config::default_refresh_interval;
use tibber_optimizer::config::default_setpoint_offset;
use tibber_optimizer::config::default_tibber_url;
use tibber_optimizer::config::BatteryConfig;
use tibber_optimizer::config::OptimizerConfig;

#[test]
fn feed_defaults() {
    assert_eq!(default_tibber_url(), "https://api.tibber.com/v1-beta/gql");
    assert_eq!(default_refresh_interval(), 900);
}

#[test]
fn broker_defaults() {
    assert_eq!(default_mqtt_port(), 1883);
    assert_eq!(default_client_id(), "tibber-optimizer");
}

#[test]
fn battery_defaults() {
    assert_eq!(default_min_soc(), 10_000);
    assert_eq!(default_max_soc(), 100_000);
    assert_eq!(default_max_power(), 15_000);
}

#[test]
fn policy_defaults() {
    assert_eq!(default_min_spread(), 50_000);
    assert_eq!(default_cheapest_percentile(), 10_000);
    assert_eq!(default_charge_percentile(), 25_000);
    assert_eq!(default_expensive_percentile(), 75_000);
    assert_eq!(default_discharge_percentile(), 90_000);
    assert_eq!(default_base_consumption(), 500);
    assert_eq!(default_setpoint_offset(), 200);
}

#[test]
fn default_policy_is_sensible() {
    let policy = OptimizerConfig::default();
    assert!(policy.check());
    assert_eq!(policy.min_discharge_spread_micros, 50_000);
    assert_eq!(policy.expensive_percentile_mpct, 75_000);
    assert_eq!(policy.setpoint_offset_w, 200);
}

#[test]
fn percentiles_out_of_order_are_not_sensible() {
    let mut policy = OptimizerConfig::default();
    policy.charge_percentile_mpct = 5_000;
    assert!(!policy.check());
    let mut policy = OptimizerConfig::default();
    policy.discharge_percentile_mpct = 100_001;
    assert!(!policy.check());
}

#[test]
fn battery_check_follows_each_condition() {
    let good = BatteryConfig {
        capacity_wh: 10_000,
        round_trip_efficiency_ppm: 900_000,
        min_soc_mpct: 10_000,
        max_soc_mpct: 100_000,
        max_charge_power_w: 15_000,
        max_discharge_power_w: 15_000,
    };
    assert!(good.check());
    assert!(!BatteryConfig { capacity_wh: 0, ..good }.check());
    assert!(!BatteryConfig { max_charge_power_w: 0, ..good }.check());
    assert!(!BatteryConfig { round_trip_efficiency_ppm: 0, ..good }.check());
    assert!(!BatteryConfig { round_trip_efficiency_ppm: 1_000_001, ..good }.check());
    assert!(!BatteryConfig { min_soc_mpct: 100_001, ..good }.check());
    assert!(!BatteryConfig { max_soc_mpct: 100_001, ..good }.check());
    assert!(BatteryConfig { round_trip_efficiency_ppm: 1_000_000, ..good }.check());
}

#[test]
fn configuration_is_looked_for_in_three_places() {
    let sources = tibber_optimizer::config::config_sources();
    let listed: Vec<(&str, tibber_optimizer::config::ConfigFormat)> =
        sources.iter().map(|s| (s.path, s.format)).collect();
    assert_eq!(
        listed,
        vec![
            ("/data/options.json", tibber_optimizer::config::ConfigFormat::Json),
            ("config.yaml", tibber_optimizer::config::ConfigFormat::Yaml),
            ("/config/tibber-optimizer.yaml", tibber_optimizer::config::ConfigFormat::Yaml),
        ]
    );
}
