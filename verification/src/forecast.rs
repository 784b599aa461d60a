//! The outlook published with every decision: when the next cheapest and
//! the next premium slot start, and how many cheap slots the window holds.

use vstd::prelude::*;
use crate::optimizer::BatteryOptimizer;
use crate::tibber::PriceCache;
use crate::tibber::PricePoint;
use crate::tiers::calculate_price_tiers;
use crate::tiers::price_tiers;
use crate::tiers::PriceTiers;
use crate::time::next_whole_second;
use crate::time::rfc3339_text;
use crate::time::Timestamp;
use crate::window::count_at_most;
use crate::window::count_slots_below_threshold;
use crate::window::find_first;
use crate::window::first_match;
use crate::window::lemma_first_match;
use crate::window::PriceTest;

verus! {

/// The outlook in numbers.
#[derive(Clone, Copy, Debug, PartialEq, Eq, Structural)]
pub struct ForecastSlots {
    /// Start of the first slot priced at or below the cheapest threshold.
    pub next_cheap: Option<Timestamp>,
    /// Start of the first slot priced at or above the premium threshold.
    pub next_expensive: Option<Timestamp>,
    /// Slots priced at or below the cheap threshold.
    pub cheap_slots_remaining: usize,
    /// Slots priced at or below the cheapest threshold.
    pub cheapest_slots_remaining: usize,
}

/// The outlook as it is published, with the two instants as RFC 3339 text.
#[derive(Debug, Clone)]
pub struct ForecastInfo {
    pub next_cheap_slot: Option<String>,
    pub next_expensive_slot: Option<String>,
    pub cheap_slots_remaining: usize,
    pub cheapest_slots_remaining: usize,
}

/// The published outlook as contracts speak of it.
pub struct Forecast {
    pub next_cheap_slot: Option<Seq<char>>,
    pub next_expensive_slot: Option<Seq<char>>,
    pub cheap_slots_remaining: nat,
    pub cheapest_slots_remaining: nat,
}

/// The characters of an optional string.
pub open spec fn text_view(text: Option<String>) -> Option<Seq<char>> {
    match text {
        Some(s) => Some(s@),
        None => None,
    }
}

impl View for ForecastInfo {
    type V = Forecast;

    open spec fn view(&self) -> Forecast {
        Forecast {
            next_cheap_slot: text_view(self.next_cheap_slot),
            next_expensive_slot: text_view(self.next_expensive_slot),
            cheap_slots_remaining: self.cheap_slots_remaining as nat,
            cheapest_slots_remaining: self.cheapest_slots_remaining as nat,
        }
    }
}

/// The start of the slot at `idx`, if the window has one there.
pub open spec fn start_of(window: Seq<PricePoint>, idx: int) -> Option<Timestamp> {
    if 0 <= idx < window.len() {
        Some(window[idx].starts_at)
    } else {
        None
    }
}

/// The outlook of a window under given tiers.
pub open spec fn forecast_slots(window: Seq<PricePoint>, tiers: PriceTiers) -> ForecastSlots {
    ForecastSlots {
        next_cheap: start_of(
            window,
            first_match(window, PriceTest::AtMost(tiers.cheapest_threshold), 0),
        ),
        next_expensive: start_of(
            window,
            first_match(window, PriceTest::AtLeast(tiers.premium_threshold), 0),
        ),
        cheap_slots_remaining: count_at_most(window, tiers.cheap_threshold as int) as usize,
        cheapest_slots_remaining: count_at_most(window, tiers.cheapest_threshold as int) as usize,
    }
}

/// The text of an optional instant; none where there is no instant or the
/// calendar has no text for it.
pub open spec fn instant_text(at: Option<Timestamp>) -> Option<Seq<char>> {
    match at {
        Some(t) => rfc3339_text(t.secs as int, t.offset_secs as int),
        None => None,
    }
}

impl ForecastSlots {
    /// The outlook with its instants as text.
    pub open spec fn published(self) -> Forecast {
        Forecast {
            next_cheap_slot: instant_text(self.next_cheap),
            next_expensive_slot: instant_text(self.next_expensive),
            cheap_slots_remaining: self.cheap_slots_remaining as nat,
            cheapest_slots_remaining: self.cheapest_slots_remaining as nat,
        }
    }

    /// Writes the two instants out.
    pub fn publish(&self) -> (info: ForecastInfo)
        ensures
            info@ == self.published(),
    {
        let next_cheap_slot: Option<String> = match self.next_cheap {
            Some(t) => t.to_rfc3339(),
            None => None,
        };
        let next_expensive_slot: Option<String> = match self.next_expensive {
            Some(t) => t.to_rfc3339(),
            None => None,
        };
        ForecastInfo {
            next_cheap_slot,
            next_expensive_slot,
            cheap_slots_remaining: self.cheap_slots_remaining,
            cheapest_slots_remaining: self.cheapest_slots_remaining,
        }
    }
}

/// Looks through a window for the next cheapest and the next premium slot
/// and counts the cheap ones.
pub fn find_forecast_slots(window: &Vec<PricePoint>, tiers: &PriceTiers) -> (slots: ForecastSlots)
    ensures
        slots == forecast_slots(window@, *tiers),
        slots.next_cheap is Some <==> slots.cheapest_slots_remaining > 0,
        slots.cheapest_slots_remaining == count_at_most(window@, tiers.cheapest_threshold as int),
        slots.cheap_slots_remaining == count_at_most(window@, tiers.cheap_threshold as int),
{
    let cheap_idx: usize = find_first(window, PriceTest::AtMost(tiers.cheapest_threshold), 0);
    let expensive_idx: usize = find_first(window, PriceTest::AtLeast(tiers.premium_threshold), 0);
    let next_cheap: Option<Timestamp> = if cheap_idx < window.len() {
        Some(window[cheap_idx].starts_at)
    } else {
        None
    };
    let next_expensive: Option<Timestamp> = if expensive_idx < window.len() {
        Some(window[expensive_idx].starts_at)
    } else {
        None
    };
    proof {
        lemma_first_at_most_counts(window@, tiers.cheapest_threshold);
    }
    ForecastSlots {
        next_cheap,
        next_expensive,
        cheap_slots_remaining: count_slots_below_threshold(window, tiers.cheap_threshold),
        cheapest_slots_remaining: count_slots_below_threshold(window, tiers.cheapest_threshold),
    }
}

/// A window has a first slot at or below a threshold exactly if it has any.
pub proof fn lemma_first_at_most_counts(window: Seq<PricePoint>, threshold: i64)
    ensures
        first_match(window, PriceTest::AtMost(threshold), 0) < window.len() <==> count_at_most(
            window,
            threshold as int,
        ) > 0,
{
    let test = PriceTest::AtMost(threshold);
    let pred = crate::window::priced_at_most(threshold as int);
    let first = first_match(window, test, 0);
    lemma_first_match(window, test, 0);
    let kept = window.filter(pred);
    if first < window.len() {
        assert(pred(window[first]));
        window.lemma_filter_contains(pred, first);
        assert(kept.contains(window[first]));
    } else if kept.len() > 0 {
        window.lemma_filter_pred(pred, 0);
        window.lemma_filter_contains_rev(pred, kept[0]);
        assert(kept.contains(kept[0]));
        let k = choose|k: int| 0 <= k < window.len() && window[k] == kept[0];
        assert(!test.admits(window[k].total));
    }
}

impl BatteryOptimizer {
    /// The outlook at the second `now`, on the forecast window the snapshot
    /// has then and the tiers of that window.
    pub open spec fn forecast(self, price_cache: PriceCache, now: int) -> Forecast {
        let window = price_cache.window(now);
        forecast_slots(window, price_tiers(window, self.optimizer_config)).published()
    }

    /// The outlook at the second `now`.
    pub fn forecast_at(&self, price_cache: &PriceCache, now: i64) -> (info: ForecastInfo)
        ensures
            info@ == self.forecast(*price_cache, now as int),
    {
        let window: Vec<PricePoint> = price_cache.future_prices_at(now);
        let tiers: PriceTiers = calculate_price_tiers(&window, &self.optimizer_config);
        find_forecast_slots(&window, &tiers).publish()
    }

    /// The outlook at the time of the call: that of some instant, which the
    /// clock picks.
    pub fn get_forecast_info(&self, price_cache: &PriceCache) -> (info: ForecastInfo)
        ensures
            exists|now: i64| info@ == #[trigger] self.forecast(*price_cache, now as int),
    {
        let now: i64 = next_whole_second();
        self.forecast_at(price_cache, now)
    }
}

} // verus!
