//! Price points and the snapshot of known prices the engine reads.
//!
//! A snapshot holds the slots of today and tomorrow as they were received.
//! Its consumers read the *forecast window*: the slots of both days in time
//! order, from the present on.

use vstd::prelude::*;
use vstd::arithmetic::div_mod::lemma_div_is_ordered;
use vstd::arithmetic::div_mod::lemma_div_multiples_vanish;
use crate::order::has_key;
use crate::order::ordered_by;
use crate::time::current_second;
use crate::time::next_whole_second;
use crate::time::Timestamp;
use crate::units::floor_div;
use crate::units::SLOT_SECONDS;
use crate::window::ahead;
use crate::window::ascending_totals;
use crate::window::by_start;
use crate::window::by_value;
use crate::window::chronological;
use crate::window::in_time_order;
use crate::window::lemma_ahead_keeps_time_order;
use crate::window::merged_in_time_order;
use crate::window::slots_ahead;
use crate::window::sorted_totals;
use crate::window::totals;

verus! {

/// The price of one fifteen-minute slot, in millionths of a currency unit
/// per kWh.
#[derive(Clone, Copy, Debug, PartialEq, Eq, Structural)]
pub struct PricePoint {
    pub total: i64,
    pub energy: i64,
    pub tax: i64,
    pub starts_at: Timestamp,
}

/// The prices known at one moment.
#[derive(Debug, Clone)]
pub struct PriceCache {
    /// The slot the feed reported as current.
    pub current: Option<PricePoint>,
    pub today: Vec<PricePoint>,
    pub tomorrow: Vec<PricePoint>,
    /// When the snapshot was fetched.
    pub last_fetch: Option<Timestamp>,
}

/// Figures over the total prices of a forecast window.
#[derive(Clone, Copy, Debug, PartialEq, Eq, Structural)]
pub struct PriceStats {
    pub min: i64,
    pub max: i64,
    /// The mean, rounded down.
    pub avg: i64,
    pub p25: i64,
    pub p75: i64,
    pub p90: i64,
}

/// The prices of one subscription as the feed reports them.
#[derive(Debug, Clone)]
pub struct PriceInfo {
    pub current: Option<PricePoint>,
    pub today: Vec<PricePoint>,
    pub tomorrow: Vec<PricePoint>,
}

/// A home of the account, with the prices of its subscription if it has
/// one.
#[derive(Debug, Clone)]
pub struct Home {
    pub price_info: Option<PriceInfo>,
}

/// Why a report of the feed holds no prices.
#[derive(Clone, Copy, Debug, PartialEq, Eq, Structural)]
pub enum FeedError {
    /// The account has no home.
    NoHomes,
    /// The first home has no running subscription.
    NoSubscription,
}

impl FeedError {
    /// The error in words.
    pub open spec fn text(self) -> Seq<char> {
        match self {
            FeedError::NoHomes => "No homes found in Tibber account"@,
            FeedError::NoSubscription => "No active subscription found"@,
        }
    }

    /// The error in words.
    pub fn message(&self) -> (text: String)
        ensures
            text@ == self.text(),
    {
        match self {
            FeedError::NoHomes => String::from_str("No homes found in Tibber account"),
            FeedError::NoSubscription => String::from_str("No active subscription found"),
        }
    }
}

/// The sum of a sequence of prices.
pub open spec fn sum(s: Seq<i64>) -> int
    decreases s.len(),
{
    if s.len() == 0 {
        0
    } else {
        sum(s.drop_last()) + s.last()
    }
}

/// The figures of a window; none for an empty one.
pub open spec fn stats_of(window: Seq<PricePoint>) -> Option<PriceStats> {
    let sorted = ascending_totals(window);
    let len = window.len() as int;
    if len == 0 {
        None
    } else {
        Some(
            PriceStats {
                min: sorted[0],
                max: sorted[len - 1],
                avg: (sum(totals(window)) / len) as i64,
                p25: sorted[len / 4],
                p75: sorted[3 * len / 4],
                p90: sorted[9 * len / 10],
            },
        )
    }
}

/// The slot starting at `p` is running at the second `now`.
pub open spec fn covers(p: PricePoint, now: int) -> bool {
    p.starts_at.secs <= now < p.starts_at.secs + SLOT_SECONDS
}

/// The index of the first slot at or after `from` that is running at `now`,
/// or the length of `s`.
pub open spec fn first_covering(s: Seq<PricePoint>, now: int, from: int) -> int
    decreases s.len() - from,
{
    if from < 0 || from >= s.len() {
        s.len() as int
    } else if covers(s[from], now) {
        from
    } else {
        first_covering(s, now, from + 1)
    }
}

/// Executable `covers`.
pub fn slot_covers(p: &PricePoint, now: i64) -> (running: bool)
    ensures
        running == covers(*p, now as int),
{
    p.starts_at.secs <= now && (now as i128) < p.starts_at.secs as i128 + SLOT_SECONDS as i128
}

impl Default for PriceCache {
    fn default() -> (cache: PriceCache)
        ensures
            cache.current is None,
            cache.today@.len() == 0,
            cache.tomorrow@.len() == 0,
            cache.last_fetch is None,
    {
        PriceCache { current: None, today: Vec::new(), tomorrow: Vec::new(), last_fetch: None }
    }
}

impl PriceCache {
    /// The slots as received: today's, then tomorrow's.
    pub open spec fn known(&self) -> Seq<PricePoint> {
        self.today@ + self.tomorrow@
    }

    /// All known slots in time order.
    pub open spec fn timeline(&self) -> Seq<PricePoint> {
        in_time_order(self.known())
    }

    /// The forecast window at the second `now`: the slots of the timeline
    /// that start then or later.
    pub open spec fn window(&self, now: int) -> Seq<PricePoint> {
        ahead(self.timeline(), now)
    }

    /// The slot running at `now`: the first such among the slots as
    /// received, else the one the feed reported.
    pub open spec fn price_at(&self, now: int) -> Option<PricePoint> {
        let i = first_covering(self.known(), now, 0);
        if i < self.known().len() {
            Some(self.known()[i])
        } else {
            self.current
        }
    }

    /// Whether prices fetched at `last_fetch` are stale at `now`: always
    /// when nothing was fetched or the clock has gone backwards, else after
    /// `interval_secs`.
    pub open spec fn stale_at(&self, now: int, interval_secs: int) -> bool {
        match self.last_fetch {
            None => true,
            Some(fetched) => now < fetched.secs || now - fetched.secs >= interval_secs,
        }
    }

    /// A snapshot without slots has an empty window at every instant.
    pub proof fn lemma_empty_snapshot(&self, now: int)
        requires
            self.today@.len() == 0,
            self.tomorrow@.len() == 0,
        ensures
            self.window(now).len() == 0,
    {
        assert(self.known() =~= Seq::<PricePoint>::empty());
        assert(self.timeline() =~= Seq::<PricePoint>::empty());
        self.timeline().lemma_filter_len(crate::window::not_before(now));
    }

    /// All known slots, sorted by the second they start; a stable sort, so
    /// of two slots starting together today's comes first.
    pub fn all_prices(&self) -> (prices: Vec<PricePoint>)
        ensures
            prices@ == self.timeline(),
            chronological(prices@),
            prices@.len() == self.today@.len() + self.tomorrow@.len(),
            prices@.to_multiset() == self.known().to_multiset(),
            forall|t: int| #[trigger]
                prices@.filter(has_key(by_start(), t)) == self.known().filter(
                    has_key(by_start(), t),
                ),
    {
        merged_in_time_order(&self.today, &self.tomorrow)
    }

    /// The forecast window at the second `now`.
    pub fn future_prices_at(&self, now: i64) -> (prices: Vec<PricePoint>)
        ensures
            prices@ == self.window(now as int),
            chronological(prices@),
    {
        let all: Vec<PricePoint> = self.all_prices();
        proof {
            lemma_ahead_keeps_time_order(all@, now as int);
        }
        slots_ahead(&all, now)
    }

    /// The forecast window at the time of the call. The clock decides which
    /// instant that is; the result is the window of some instant.
    pub fn future_prices(&self) -> (prices: Vec<PricePoint>)
        ensures
            exists|now: i64| prices@ == #[trigger] self.window(now as int),
            chronological(prices@),
            self.today@.len() == 0 && self.tomorrow@.len() == 0 ==> prices@.len() == 0,
    {
        let now: i64 = next_whole_second();
        proof {
            if self.today@.len() == 0 && self.tomorrow@.len() == 0 {
                self.lemma_empty_snapshot(now as int);
            }
        }
        self.future_prices_at(now)
    }

    /// The figures of the forecast window at the second `now`.
    pub fn price_stats_at(&self, now: i64) -> (stats: Option<PriceStats>)
        ensures
            stats == stats_of(self.window(now as int)),
    {
        let window: Vec<PricePoint> = self.future_prices_at(now);
        window_stats(&window)
    }

    /// The figures of the forecast window at the time of the call.
    pub fn price_stats(&self) -> (stats: Option<PriceStats>)
        ensures
            exists|now: i64| stats == stats_of(#[trigger] self.window(now as int)),
            self.today@.len() == 0 && self.tomorrow@.len() == 0 ==> stats is None,
    {
        let now: i64 = next_whole_second();
        proof {
            if self.today@.len() == 0 && self.tomorrow@.len() == 0 {
                self.lemma_empty_snapshot(now as int);
            }
        }
        self.price_stats_at(now)
    }

    /// The slot running at the second `now`.
    pub fn current_price_at(&self, now: i64) -> (price: Option<PricePoint>)
        ensures
            price == self.price_at(now as int),
    {
        let ghost known = self.known();
        let mut i: usize = 0;
        while i < self.today.len()
            invariant
                i <= self.today@.len(),
                known == self.known(),
                first_covering(known, now as int, 0) == first_covering(known, now as int, i as int),
            decreases self.today.len() - i,
        {
            assert(known[i as int] == self.today@[i as int]);
            if slot_covers(&self.today[i], now) {
                return Some(self.today[i]);
            }
            i = i + 1;
        }
        let mut j: usize = 0;
        while j < self.tomorrow.len()
            invariant
                j <= self.tomorrow@.len(),
                known == self.known(),
                first_covering(known, now as int, 0) == first_covering(
                    known,
                    now as int,
                    self.today@.len() + j,
                ),
            decreases self.tomorrow.len() - j,
        {
            assert(known[self.today@.len() + j] == self.tomorrow@[j as int]);
            if slot_covers(&self.tomorrow[j], now) {
                return Some(self.tomorrow[j]);
            }
            j = j + 1;
        }
        self.current
    }

    /// The slot running at the time of the call.
    pub fn current_price(&self) -> (price: Option<PricePoint>)
        ensures
            exists|now: i64| price == #[trigger] self.price_at(now as int),
    {
        let now: i64 = current_second();
        self.current_price_at(now)
    }

    /// Whether the snapshot is stale at the second `now`.
    pub fn needs_refresh_at(&self, now: i64, interval_secs: u64) -> (stale: bool)
        ensures
            stale == self.stale_at(now as int, interval_secs as int),
    {
        match self.last_fetch {
            None => true,
            Some(fetched) => now < fetched.secs || now as i128 - fetched.secs as i128
                >= interval_secs as i128,
        }
    }

    /// Whether the snapshot is stale at the time of the call.
    pub fn needs_refresh(&self, interval_secs: u64) -> (stale: bool)
        ensures
            self.last_fetch is None ==> stale,
            exists|now: i64| stale == #[trigger] self.stale_at(now as int, interval_secs as int),
    {
        let now: i64 = current_second();
        self.needs_refresh_at(now, interval_secs)
    }

    /// Replaces the snapshot by what a fetch at `fetched_at` brought.
    pub fn store(
        &mut self,
        current: Option<PricePoint>,
        today: Vec<PricePoint>,
        tomorrow: Vec<PricePoint>,
        fetched_at: Timestamp,
    )
        ensures
            final(self).current == current,
            final(self).today == today,
            final(self).tomorrow == tomorrow,
            final(self).last_fetch == Some(fetched_at),
    {
        self.current = current;
        self.today = today;
        self.tomorrow = tomorrow;
        self.last_fetch = Some(fetched_at);
    }

    /// Takes in what the feed reported at `fetched_at`: the prices of the
    /// first home. A report without a home, or whose first home has no
    /// subscription, is an error and leaves the snapshot as it was.
    pub fn take_in(&mut self, homes: Vec<Home>, fetched_at: Timestamp) -> (outcome: Result<
        (),
        FeedError,
    >)
        ensures
            homes@.len() == 0 ==> outcome == Err::<(), FeedError>(FeedError::NoHomes),
            homes@.len() > 0 && homes@[0].price_info is None ==> outcome == Err::<(), FeedError>(
                FeedError::NoSubscription,
            ),
            outcome is Err ==> *final(self) == *old(self),
            homes@.len() > 0 && homes@[0].price_info is Some ==> {
                &&& outcome is Ok
                &&& final(self).current == homes@[0].price_info->0.current
                &&& final(self).today == homes@[0].price_info->0.today
                &&& final(self).tomorrow == homes@[0].price_info->0.tomorrow
                &&& final(self).last_fetch == Some(fetched_at)
            },
    {
        let mut homes: Vec<Home> = homes;
        if homes.len() == 0 {
            return Err(FeedError::NoHomes);
        }
        let first: Home = homes.remove(0);
        match first.price_info {
            None => Err(FeedError::NoSubscription),
            Some(info) => {
                self.store(info.current, info.today, info.tomorrow, fetched_at);
                Ok(())
            },
        }
    }
}

/// The figures of a window.
pub fn window_stats(window: &Vec<PricePoint>) -> (stats: Option<PriceStats>)
    ensures
        stats == stats_of(window@),
        stats matches Some(s) ==> s.min <= s.p25 <= s.p75 <= s.p90 <= s.max && s.min <= s.avg
            <= s.max,
{
    let len: usize = window.len();
    if len == 0 {
        return None;
    }
    let sorted: Vec<i64> = sorted_totals(window);
    let mut total: i128 = 0;
    let mut i: usize = 0;
    while i < len
        invariant
            i <= len == window@.len(),
            total == sum(totals(window@.take(i as int))),
            i * i64::MIN <= total <= i * i64::MAX,
        decreases len - i,
    {
        proof {
            assert(totals(window@.take(i + 1)).drop_last() =~= totals(window@.take(i as int)));
        }
        total = total + window[i].total as i128;
        i = i + 1;
    }
    proof {
        assert(window@.take(len as int) =~= window@);
        lemma_mean_between(window@);
        let key = by_value();
        let s = ascending_totals(window@);
        assert(ordered_by(s, key));
        let l = len as int;
        assert(0 <= l / 4 <= 3 * l / 4 <= 9 * l / 10 <= l - 1);
        assert(key(s[0]) <= key(s[l / 4]) || l / 4 == 0);
        assert(key(s[l / 4]) <= key(s[3 * l / 4]) || l / 4 == 3 * l / 4);
        assert(key(s[3 * l / 4]) <= key(s[9 * l / 10]) || 3 * l / 4 == 9 * l / 10);
        assert(key(s[9 * l / 10]) <= key(s[l - 1]) || 9 * l / 10 == l - 1);
    }
    let avg: i128 = floor_div(total, len as i128);
    Some(
        PriceStats {
            min: sorted[0],
            max: sorted[len - 1],
            avg: avg as i64,
            p25: sorted[len / 4],
            p75: sorted[3 * (len / 4) + (3 * (len % 4)) / 4],
            p90: sorted[9 * (len / 10) + (9 * (len % 10)) / 10],
        },
    )
}

/// The mean of a non-empty window lies between its lowest and its highest
/// price.
pub proof fn lemma_mean_between(window: Seq<PricePoint>)
    requires
        window.len() > 0,
    ensures
        ascending_totals(window)[0] <= sum(totals(window)) / (window.len() as int)
            <= ascending_totals(window)[window.len() - 1],
{
    let prices = totals(window);
    let sorted = ascending_totals(window);
    let len = window.len() as int;
    let key = by_value();
    crate::order::lemma_sort_by_key(prices, key);
    let low = sorted[0];
    let high = sorted[len - 1];
    assert forall|k: int| 0 <= k < len implies low <= #[trigger] prices[k] <= high by {
        crate::order::lemma_sort_by_key_contains(prices, key, prices[k]);
        assert(prices.contains(prices[k]));
        let m = choose|m: int| 0 <= m < sorted.len() && sorted[m] == prices[k];
        assert(key(sorted[0]) <= key(sorted[m]) || m == 0);
        assert(key(sorted[m]) <= key(sorted[len - 1]) || m == len - 1);
    }
    lemma_sum_between(prices, low as int, high as int);
    lemma_div_is_ordered(len * low, sum(prices), len);
    lemma_div_is_ordered(sum(prices), len * high, len);
    lemma_div_multiples_vanish(low as int, len);
    lemma_div_multiples_vanish(high as int, len);
    assert(len * low == len * (low as int));
}

/// A sum of values between two bounds lies between the bounds times their
/// number.
pub proof fn lemma_sum_between(s: Seq<i64>, low: int, high: int)
    requires
        forall|k: int| 0 <= k < s.len() ==> low <= #[trigger] s[k] <= high,
    ensures
        s.len() * low <= sum(s) <= s.len() * high,
    decreases s.len(),
{
    if s.len() > 0 {
        let front = s.drop_last();
        assert forall|k: int| 0 <= k < front.len() implies low <= #[trigger] front[k] <= high by {
            assert(front[k] == s[k]);
        }
        lemma_sum_between(front, low, high);
        assert(s.len() * low == front.len() * low + low) by (nonlinear_arith)
            requires
                s.len() == front.len() + 1,
        ;
        assert(s.len() * high == front.len() * high + high) by (nonlinear_arith)
            requires
                s.len() == front.len() + 1,
        ;
    }
}

} // verus!
