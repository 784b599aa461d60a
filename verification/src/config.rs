//! What the operator configures: the price feed, the message broker, the
//! battery and the dispatch policy, with the value each setting takes when
//! it is left out.

use vstd::prelude::*;
use crate::units::FULL_SCALE;
use crate::units::MICROS;

verus! {

/// The whole configuration.
#[derive(Debug, Clone)]
pub struct Config {
    pub tibber: TibberConfig,
    pub mqtt: MqttConfig,
    pub battery: BatteryConfig,
    pub optimizer: OptimizerConfig,
}

/// Access to the price feed.
#[derive(Debug, Clone)]
pub struct TibberConfig {
    pub api_token: String,
    pub api_url: String,
    /// Seconds after which fetched prices count as stale.
    pub refresh_interval_secs: u64,
}

/// Access to the message broker and the topics used on it.
#[derive(Debug, Clone)]
pub struct MqttConfig {
    pub host: String,
    pub port: u16,
    pub username: Option<String>,
    pub password: Option<String>,
    pub client_id: String,
    /// Topic on which the battery reports its state of charge.
    pub soc_topic: String,
    /// Topic on which the system reports the grid setpoint in force.
    pub grid_setpoint_read_topic: String,
    /// Topic on which a new grid setpoint is commanded.
    pub grid_setpoint_write_topic: String,
    /// Topic on which the current price is published.
    pub price_topic: String,
}

/// The battery.
#[derive(Clone, Copy, Debug, PartialEq, Eq, Structural)]
pub struct BatteryConfig {
    /// Usable capacity in watt-hours.
    pub capacity_wh: u32,
    /// Energy recovered after one charge and discharge, in millionths;
    /// meaningful in `(0, 1_000_000]`.
    pub round_trip_efficiency_ppm: u32,
    /// State of charge that is never undercut, in thousandths of a percent.
    pub min_soc_mpct: u32,
    /// State of charge that charging aims for, in thousandths of a percent.
    pub max_soc_mpct: u32,
    /// Largest charging power in watts.
    pub max_charge_power_w: u32,
    /// Largest discharging power in watts.
    pub max_discharge_power_w: u32,
}

/// The dispatch policy.
#[derive(Clone, Copy, Debug, PartialEq, Eq, Structural)]
pub struct OptimizerConfig {
    /// Least gain per kWh, in millionths of a currency unit, for which
    /// selling stored energy is worthwhile.
    pub min_discharge_spread_micros: i64,
    /// Percentile of the window below which a price is among the cheapest,
    /// in thousandths of a percent.
    pub cheapest_percentile_mpct: u32,
    /// Percentile below which a price is cheap.
    pub charge_percentile_mpct: u32,
    /// Percentile from which a price is expensive.
    pub expensive_percentile_mpct: u32,
    /// Percentile from which a price is premium.
    pub discharge_percentile_mpct: u32,
    /// Estimated consumption of the house in watts.
    pub base_consumption_w: u32,
    /// Bias of the grid setpoint in the self-consumption modes, in watts;
    /// positive draws from the grid.
    pub setpoint_offset_w: i32,
}

/// How a configuration file is written.
#[derive(Clone, Copy, Debug, PartialEq, Eq, Structural)]
pub enum ConfigFormat {
    Json,
    Yaml,
}

/// A place where the configuration may lie.
#[derive(Clone, Copy, Debug)]
pub struct ConfigSource {
    pub path: &'static str,
    pub format: ConfigFormat,
}

/// The places where the configuration is looked for, in this order; the
/// first file that exists is the configuration. The options file of a home
/// automation add-on comes first, then a file in the working directory,
/// then one in the configuration directory.
pub fn config_sources() -> (sources: Vec<ConfigSource>)
    ensures
        sources@.len() == 3,
        sources@[0].path@ == "/data/options.json"@,
        sources@[0].format == ConfigFormat::Json,
        sources@[1].path@ == "config.yaml"@,
        sources@[1].format == ConfigFormat::Yaml,
        sources@[2].path@ == "/config/tibber-optimizer.yaml"@,
        sources@[2].format == ConfigFormat::Yaml,
{
    let mut sources: Vec<ConfigSource> = Vec::new();
    sources.push(ConfigSource { path: "/data/options.json", format: ConfigFormat::Json });
    sources.push(ConfigSource { path: "config.yaml", format: ConfigFormat::Yaml });
    sources.push(ConfigSource { path: "/config/tibber-optimizer.yaml", format: ConfigFormat::Yaml });
    sources
}

/// Address of the price feed when none is configured.
pub fn default_tibber_url() -> (url: String)
    ensures
        url@ == "https://api.tibber.com/v1-beta/gql"@,
{
    String::from_str("https://api.tibber.com/v1-beta/gql")
}

/// Prices are fetched again after a quarter of an hour.
pub fn default_refresh_interval() -> (secs: u64)
    ensures
        secs == 900,
{
    900
}

/// The broker's standard port.
pub fn default_mqtt_port() -> (port: u16)
    ensures
        port == 1883,
{
    1883
}

/// Name under which the optimizer connects to the broker.
pub fn default_client_id() -> (id: String)
    ensures
        id@ == "tibber-optimizer"@,
{
    String::from_str("tibber-optimizer")
}

/// Ten percent are kept in the battery.
pub fn default_min_soc() -> (mpct: u32)
    ensures
        mpct == 10_000,
{
    10_000
}

/// Charging aims for a full battery.
pub fn default_max_soc() -> (mpct: u32)
    ensures
        mpct == 100_000,
{
    100_000
}

/// Fifteen kilowatts, for charging and for discharging.
pub fn default_max_power() -> (watts: u32)
    ensures
        watts == 15_000,
{
    15_000
}

/// Five hundredths of a currency unit per kWh.
pub fn default_min_spread() -> (micros: i64)
    ensures
        micros == 50_000,
{
    50_000
}

/// The lowest tenth of the window is cheapest.
pub fn default_cheapest_percentile() -> (mpct: u32)
    ensures
        mpct == 10_000,
{
    10_000
}

/// The lowest quarter of the window is cheap.
pub fn default_charge_percentile() -> (mpct: u32)
    ensures
        mpct == 25_000,
{
    25_000
}

/// The highest quarter of the window is expensive.
pub fn default_expensive_percentile() -> (mpct: u32)
    ensures
        mpct == 75_000,
{
    75_000
}

/// The highest tenth of the window is premium.
pub fn default_discharge_percentile() -> (mpct: u32)
    ensures
        mpct == 90_000,
{
    90_000
}

/// The house is assumed to draw half a kilowatt.
pub fn default_base_consumption() -> (watts: u32)
    ensures
        watts == 500,
{
    500
}

/// Two hundred watts of bias toward the grid.
pub fn default_setpoint_offset() -> (watts: i32)
    ensures
        watts == 200,
{
    200
}

impl BatteryConfig {
    /// The battery is one the engine's formulas have a reading for: it
    /// holds energy, can be charged, loses some but not all energy on a
    /// round trip, and its limits are percentages in their order.
    pub open spec fn is_sensible(self) -> bool {
        &&& self.capacity_wh > 0
        &&& self.max_charge_power_w > 0
        &&& 0 < self.round_trip_efficiency_ppm <= MICROS
        &&& self.min_soc_mpct <= self.max_soc_mpct <= FULL_SCALE
    }

    /// Executable `is_sensible`.
    pub fn check(&self) -> (ok: bool)
        ensures
            ok == self.is_sensible(),
    {
        self.capacity_wh > 0 && self.max_charge_power_w > 0 && self.round_trip_efficiency_ppm > 0
            && self.round_trip_efficiency_ppm <= MICROS && self.min_soc_mpct
            <= self.max_soc_mpct && self.max_soc_mpct <= FULL_SCALE
    }
}

impl OptimizerConfig {
    /// The four percentiles are percentages that rise from cheapest to
    /// premium.
    pub open spec fn is_sensible(self) -> bool {
        self.cheapest_percentile_mpct <= self.charge_percentile_mpct
            <= self.expensive_percentile_mpct <= self.discharge_percentile_mpct <= FULL_SCALE
    }

    /// Executable `is_sensible`.
    pub fn check(&self) -> (ok: bool)
        ensures
            ok == self.is_sensible(),
    {
        self.cheapest_percentile_mpct <= self.charge_percentile_mpct
            && self.charge_percentile_mpct <= self.expensive_percentile_mpct
            && self.expensive_percentile_mpct <= self.discharge_percentile_mpct
            && self.discharge_percentile_mpct <= FULL_SCALE
    }
}

impl Default for OptimizerConfig {
    fn default() -> (config: OptimizerConfig)
        ensures
            config == (OptimizerConfig {
                min_discharge_spread_micros: 50_000,
                cheapest_percentile_mpct: 10_000,
                charge_percentile_mpct: 25_000,
                expensive_percentile_mpct: 75_000,
                discharge_percentile_mpct: 90_000,
                base_consumption_w: 500,
                setpoint_offset_w: 200,
            }),
            config.is_sensible(),
    {
        OptimizerConfig {
            min_discharge_spread_micros: default_min_spread(),
            cheapest_percentile_mpct: default_cheapest_percentile(),
            charge_percentile_mpct: default_charge_percentile(),
            expensive_percentile_mpct: default_expensive_percentile(),
            discharge_percentile_mpct: default_discharge_percentile(),
            base_consumption_w: default_base_consumption(),
            setpoint_offset_w: default_setpoint_offset(),
        }
    }
}

} // verus!
