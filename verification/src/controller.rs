//! One tick of the control loop as a function: from the price snapshot,
//! the battery's telemetry and the time to what is to be done. The loop
//! around it fetches, publishes and waits; it decides nothing.

use vstd::prelude::*;
use crate::forecast::Forecast;
use crate::forecast::ForecastInfo;
use crate::mqtt::should_publish;
use crate::mqtt::worth_publishing;
use crate::mqtt::BatteryState;
use crate::optimizer::BatteryOptimizer;
use crate::optimizer::Decision;
use crate::optimizer::OptimizationResult;
use crate::tibber::stats_of;
use crate::tibber::PriceCache;
use crate::tibber::PricePoint;
use crate::tibber::PriceStats;
use crate::time::round_up_to_second;
use crate::time::second_at_or_after;
use crate::time::utc_now;

verus! {

/// The setpoint commanded while the battery has not reported its state of
/// charge, in watts.
pub const SAFE_SETPOINT_W: i64 = 200;

/// What a tick asks of the loop.
#[derive(Debug, Clone)]
pub enum CycleOutcome {
    /// No price is known for the current slot: nothing is done.
    Skipped,
    /// The battery has not reported yet: the safe setpoint is commanded
    /// and nothing else is done.
    Waiting { grid_setpoint_w: i64 },
    /// A decision was made. The setpoint is commanded if `publish_setpoint`
    /// says so; the price and the status summary are published either way.
    Dispatched {
        result: OptimizationResult,
        publish_setpoint: bool,
        current_price: PricePoint,
        price_stats: Option<PriceStats>,
        forecast: ForecastInfo,
    },
}

/// A tick's outcome as contracts speak of it.
pub enum Cycle {
    Skipped,
    Waiting { grid_setpoint_w: int },
    Dispatched {
        decision: Decision,
        publish_setpoint: bool,
        current_price: PricePoint,
        price_stats: Option<PriceStats>,
        forecast: Forecast,
    },
}

impl View for CycleOutcome {
    type V = Cycle;

    open spec fn view(&self) -> Cycle {
        match *self {
            CycleOutcome::Skipped => Cycle::Skipped,
            CycleOutcome::Waiting { grid_setpoint_w } => Cycle::Waiting {
                grid_setpoint_w: grid_setpoint_w as int,
            },
            CycleOutcome::Dispatched {
                result,
                publish_setpoint,
                current_price,
                price_stats,
                forecast,
            } => Cycle::Dispatched {
                decision: result@,
                publish_setpoint,
                current_price,
                price_stats,
                forecast: forecast@,
            },
        }
    }
}

/// The engine together with what the loop remembers between ticks.
#[derive(Clone, Copy, Debug)]
pub struct Controller {
    pub optimizer: BatteryOptimizer,
    /// The setpoint that was last published with success.
    pub last_setpoint_w: Option<i64>,
}

impl Controller {
    /// The outcome of a tick at `secs` seconds and `nanos` nanoseconds.
    ///
    /// The current slot is the one running at that time. The forecast
    /// window holds the slots that start then or later, so it opens at the
    /// next whole second unless the time is one.
    pub open spec fn cycle(
        self,
        price_cache: PriceCache,
        battery: BatteryState,
        secs: int,
        nanos: int,
    ) -> Cycle {
        let opens = second_at_or_after(secs, nanos);
        match price_cache.price_at(secs) {
            None => Cycle::Skipped,
            Some(current_price) => if !battery.has_soc() {
                Cycle::Waiting { grid_setpoint_w: SAFE_SETPOINT_W as int }
            } else {
                let decision = self.optimizer.decision(
                    battery.soc_mpct,
                    current_price.total,
                    price_cache.window(opens),
                );
                Cycle::Dispatched {
                    decision,
                    publish_setpoint: worth_publishing(
                        self.last_setpoint_w,
                        decision.grid_setpoint_w,
                    ),
                    current_price,
                    price_stats: stats_of(price_cache.window(opens)),
                    forecast: self.optimizer.forecast(price_cache, opens),
                }
            },
        }
    }

    /// A controller that has published nothing yet.
    pub fn new(optimizer: BatteryOptimizer) -> (controller: Controller)
        ensures
            controller.optimizer == optimizer,
            controller.last_setpoint_w is None,
    {
        Controller { optimizer, last_setpoint_w: None }
    }

    /// The outcome of a tick at a given time.
    pub fn cycle_at(
        &self,
        price_cache: &PriceCache,
        battery: &BatteryState,
        secs: i64,
        nanos: u32,
    ) -> (outcome: CycleOutcome)
        ensures
            outcome@ == self.cycle(*price_cache, *battery, secs as int, nanos as int),
    {
        let current_price: PricePoint = match price_cache.current_price_at(secs) {
            Some(price) => price,
            None => {
                return CycleOutcome::Skipped;
            },
        };
        if !battery.has_reported_soc() {
            return CycleOutcome::Waiting { grid_setpoint_w: SAFE_SETPOINT_W };
        }
        let opens: i64 = round_up_to_second(secs, nanos);
        let result: OptimizationResult = self.optimizer.optimize_at(
            battery.soc_mpct,
            &current_price,
            price_cache,
            opens,
        );
        let publish_setpoint: bool = should_publish(self.last_setpoint_w, result.grid_setpoint_w);
        let price_stats: Option<PriceStats> = price_cache.price_stats_at(opens);
        let forecast: ForecastInfo = self.optimizer.forecast_at(price_cache, opens);
        CycleOutcome::Dispatched { result, publish_setpoint, current_price, price_stats, forecast }
    }

    /// The outcome of a tick now: that of some time, which the clock picks.
    pub fn run_cycle(&self, price_cache: &PriceCache, battery: &BatteryState) -> (outcome:
        CycleOutcome)
        ensures
            exists|secs: i64, nanos: u32|
                outcome@ == #[trigger] self.cycle(
                    *price_cache,
                    *battery,
                    secs as int,
                    nanos as int,
                ),
            !battery.has_soc() ==> !(outcome is Dispatched),
    {
        let (secs, nanos) = utc_now();
        self.cycle_at(price_cache, battery, secs, nanos)
    }

    /// Remembers that a setpoint went out.
    pub fn note_published(&mut self, setpoint_w: i64)
        ensures
            final(self).last_setpoint_w == Some(setpoint_w),
            final(self).optimizer == old(self).optimizer,
    {
        self.last_setpoint_w = Some(setpoint_w);
    }
}

} // verus!
