//! What travels over the message broker: the battery's telemetry coming in,
//! the status summary going out, and the rules on when and where to publish.

use vstd::prelude::*;
use crate::forecast::text_view;
use crate::forecast::ForecastInfo;
use crate::optimizer::OptimizationResult;
use crate::tibber::PricePoint;
use crate::tibber::PriceStats;

verus! {

/// A commanded setpoint is published again only when it differs from the
/// last published one by more than this many watts.
pub const PUBLISH_BAND_W: i64 = 10;

/// The latest telemetry of the battery.
#[derive(Clone, Copy, Debug, PartialEq, Eq, Structural)]
pub struct BatteryState {
    /// State of charge in thousandths of a percent; zero until the first
    /// reading.
    pub soc_mpct: u32,
    /// The grid setpoint the system reports to be in force, in watts.
    pub current_setpoint_w: Option<i64>,
    /// Second of the last state-of-charge reading.
    pub last_soc_update: Option<i64>,
    /// Second of the last setpoint reading.
    pub last_setpoint_update: Option<i64>,
}

impl Default for BatteryState {
    fn default() -> (state: BatteryState)
        ensures
            state == (BatteryState {
                soc_mpct: 0,
                current_setpoint_w: None,
                last_soc_update: None,
                last_setpoint_update: None,
            }),
            !state.has_soc(),
    {
        BatteryState {
            soc_mpct: 0,
            current_setpoint_w: None,
            last_soc_update: None,
            last_setpoint_update: None,
        }
    }
}

impl BatteryState {
    /// A state of charge has been reported.
    pub open spec fn has_soc(self) -> bool {
        self.last_soc_update is Some
    }

    /// Executable `has_soc`.
    pub fn has_reported_soc(&self) -> (reported: bool)
        ensures
            reported == self.has_soc(),
    {
        self.last_soc_update.is_some()
    }

    /// Takes in a state-of-charge reading made at the second `at`.
    pub fn record_soc(&mut self, soc_mpct: u32, at: i64)
        ensures
            *final(self) == (BatteryState {
                soc_mpct,
                last_soc_update: Some(at),
                ..*old(self)
            }),
            final(self).has_soc(),
    {
        self.soc_mpct = soc_mpct;
        self.last_soc_update = Some(at);
    }

    /// Takes in a reading of the setpoint in force made at the second `at`.
    pub fn record_setpoint(&mut self, setpoint_w: i64, at: i64)
        ensures
            *final(self) == (BatteryState {
                current_setpoint_w: Some(setpoint_w),
                last_setpoint_update: Some(at),
                ..*old(self)
            }),
    {
        self.current_setpoint_w = Some(setpoint_w);
        self.last_setpoint_update = Some(at);
    }
}

/// A setpoint is worth publishing: none was published yet, or it is more
/// than the band away from the last one.
pub open spec fn worth_publishing(last_published_w: Option<i64>, setpoint_w: int) -> bool {
    match last_published_w {
        None => true,
        Some(last) => last - setpoint_w > PUBLISH_BAND_W || setpoint_w - last > PUBLISH_BAND_W,
    }
}

/// Executable `worth_publishing`.
pub fn should_publish(last_published_w: Option<i64>, setpoint_w: i64) -> (publish: bool)
    ensures
        publish == worth_publishing(last_published_w, setpoint_w as int),
{
    match last_published_w {
        None => true,
        Some(last) => {
            let gap: i128 = last as i128 - setpoint_w as i128;
            gap > PUBLISH_BAND_W as i128 || -gap > PUBLISH_BAND_W as i128
        },
    }
}

/// The status summary published after every decision.
#[derive(Debug, Clone)]
pub struct OptimizerStatus {
    /// Total price of the current slot.
    pub current_price: i64,
    /// Published name of the decided mode.
    pub current_mode: String,
    /// The decided setpoint in watts.
    pub grid_setpoint_w: i64,
    /// The setpoint the system reports to be in force.
    pub actual_setpoint_w: Option<i64>,
    /// State of charge in thousandths of a percent.
    pub battery_soc: u32,
    pub price_stats: Option<PriceStats>,
    pub next_cheap_slot: Option<String>,
    pub next_expensive_slot: Option<String>,
    pub cheap_slots_remaining: usize,
    pub cheapest_slots_remaining: usize,
}

impl OptimizerStatus {
    /// Puts the summary together from a decision and what it was made on.
    pub fn summarize(
        result: &OptimizationResult,
        current_price: &PricePoint,
        battery: &BatteryState,
        price_stats: Option<PriceStats>,
        forecast: ForecastInfo,
    ) -> (status: OptimizerStatus)
        ensures
            status.current_price == current_price.total,
            status.current_mode@ == result.mode.name(),
            status.grid_setpoint_w == result.grid_setpoint_w,
            status.actual_setpoint_w == battery.current_setpoint_w,
            status.battery_soc == battery.soc_mpct,
            status.price_stats == price_stats,
            text_view(status.next_cheap_slot) == forecast@.next_cheap_slot,
            text_view(status.next_expensive_slot) == forecast@.next_expensive_slot,
            status.cheap_slots_remaining == forecast.cheap_slots_remaining,
            status.cheapest_slots_remaining == forecast.cheapest_slots_remaining,
    {
        OptimizerStatus {
            current_price: current_price.total,
            current_mode: result.mode.to_string(),
            grid_setpoint_w: result.grid_setpoint_w,
            actual_setpoint_w: battery.current_setpoint_w,
            battery_soc: battery.soc_mpct,
            price_stats,
            next_cheap_slot: forecast.next_cheap_slot,
            next_expensive_slot: forecast.next_expensive_slot,
            cheap_slots_remaining: forecast.cheap_slots_remaining,
            cheapest_slots_remaining: forecast.cheapest_slots_remaining,
        }
    }
}

/// `s` without any trailing repetitions of `suffix`.
pub open spec fn trim_end(s: Seq<char>, suffix: Seq<char>) -> Seq<char>
    decreases s.len(),
{
    if suffix.len() > 0 && s.len() >= suffix.len() && s.subrange(
        s.len() - suffix.len(),
        s.len() as int,
    ) == suffix {
        trim_end(s.subrange(0, s.len() - suffix.len()), suffix)
    } else {
        s
    }
}

/// The topic of the status summary: beside the price topic, whose last
/// segment `current` it replaces by `status`.
pub open spec fn status_topic_of(price_topic: Seq<char>) -> Seq<char> {
    trim_end(price_topic, "/current"@) + "/status"@
}

/// Whether the first `end` characters of `text` end in `suffix`.
fn ends_with_at(text: &str, end: usize, suffix: &str, suffix_len: usize) -> (ends: bool)
    requires
        end <= text@.len(),
        suffix_len == suffix@.len(),
        suffix_len <= end,
    ensures
        ends == (text@.subrange(end - suffix_len, end as int) == suffix@),
{
    let start: usize = end - suffix_len;
    let mut i: usize = 0;
    while i < suffix_len
        invariant
            i <= suffix_len == suffix@.len(),
            start + suffix_len == end <= text@.len(),
            forall|k: int| 0 <= k < i ==> text@[start + k] == suffix@[k],
        decreases suffix_len - i,
    {
        if text.get_char(start + i) != suffix.get_char(i) {
            assert(text@.subrange(start as int, end as int)[i as int] != suffix@[i as int]);
            return false;
        }
        i = i + 1;
    }
    assert(text@.subrange(start as int, end as int) =~= suffix@);
    true
}

/// The topic on which the status summary is published.
pub fn status_topic(price_topic: &str) -> (topic: String)
    ensures
        topic@ == status_topic_of(price_topic@),
{
    let suffix: &str = "/current";
    let suffix_len: usize = suffix.unicode_len();
    let len: usize = price_topic.unicode_len();
    proof {
        reveal_strlit("/current");
        assert(price_topic@.subrange(0, len as int) =~= price_topic@);
    }
    let mut end: usize = len;
    while end >= suffix_len && ends_with_at(price_topic, end, suffix, suffix_len)
        invariant
            end <= len == price_topic@.len(),
            suffix_len == suffix@.len() == 8,
            suffix@ == "/current"@,
            trim_end(price_topic@, suffix@) == trim_end(price_topic@.subrange(0, end as int), suffix@),
        decreases end,
    {
        proof {
            let head = price_topic@.subrange(0, end as int);
            assert(head.subrange(head.len() - suffix@.len(), head.len() as int)
                =~= price_topic@.subrange(end - suffix_len, end as int));
            assert(head.subrange(0, head.len() - suffix@.len()) =~= price_topic@.subrange(
                0,
                end - suffix_len,
            ));
        }
        end = end - suffix_len;
    }
    proof {
        let head = price_topic@.subrange(0, end as int);
        if end >= suffix_len {
            assert(head.subrange(head.len() - suffix@.len(), head.len() as int)
                =~= price_topic@.subrange(end - suffix_len, end as int));
        }
        assert(trim_end(head, suffix@) == head);
    }
    let mut topic: String = String::from_str(price_topic.substring_char(0, end));
    topic.append("/status");
    topic
}

} // verus!
