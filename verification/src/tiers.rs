//! Price tiers: four thresholds cut out of the forecast window by
//! percentile.
//!
//! A threshold is always a price that occurs in the window: the prices are
//! put in ascending order and the percentile picks an index.

use vstd::prelude::*;
use vstd::arithmetic::div_mod::lemma_div_is_ordered;
use vstd::arithmetic::div_mod::lemma_div_pos_is_pos;
use crate::config::OptimizerConfig;
use crate::order::lemma_sort_by_key;
use crate::order::lemma_sort_by_key_contains;
use crate::order::ordered_by;
use crate::tibber::PricePoint;
use crate::window::ascending_totals;
use crate::window::by_value;
use crate::window::sorted_totals;
use crate::window::totals;

verus! {

/// The thresholds that sort a price into a tier, in millionths of a
/// currency unit per kWh.
#[derive(Clone, Copy, Debug, PartialEq, Eq, Structural)]
pub struct PriceTiers {
    /// At or below: charge at full power.
    pub cheapest_threshold: i64,
    /// At or below: charge.
    pub cheap_threshold: i64,
    /// At or above: keep off the grid.
    pub expensive_threshold: i64,
    /// At or above: sell to the grid.
    pub premium_threshold: i64,
}

/// Index into `len` ascending prices for a percentile given in thousandths
/// of a percent: `floor(len * percentile / 100)`, kept below `len`.
pub open spec fn tier_index(len: int, percentile_mpct: int) -> int {
    let raw = len * percentile_mpct / 100_000;
    if len <= 0 {
        0
    } else if raw > len - 1 {
        len - 1
    } else {
        raw
    }
}

/// Index of the cheapest tier: as `tier_index`, but never the lowest price
/// alone when there is a second one.
pub open spec fn cheapest_tier_index(len: int, percentile_mpct: int) -> int {
    let raw = len * percentile_mpct / 100_000;
    let lifted = if raw < 1 {
        1
    } else {
        raw
    };
    if len <= 0 {
        0
    } else if lifted > len - 1 {
        len - 1
    } else {
        lifted
    }
}

/// The tiers of a forecast window under a policy; all zero for an empty
/// window.
pub open spec fn price_tiers(window: Seq<PricePoint>, policy: OptimizerConfig) -> PriceTiers {
    let sorted = ascending_totals(window);
    let len = window.len() as int;
    if len == 0 {
        PriceTiers {
            cheapest_threshold: 0,
            cheap_threshold: 0,
            expensive_threshold: 0,
            premium_threshold: 0,
        }
    } else {
        PriceTiers {
            cheapest_threshold: sorted[cheapest_tier_index(
                len,
                policy.cheapest_percentile_mpct as int,
            )],
            cheap_threshold: sorted[tier_index(len, policy.charge_percentile_mpct as int)],
            expensive_threshold: sorted[tier_index(len, policy.expensive_percentile_mpct as int)],
            premium_threshold: sorted[tier_index(len, policy.discharge_percentile_mpct as int)],
        }
    }
}

/// Both indices lie inside a non-empty window, and a larger percentile never
/// gives a smaller index.
pub proof fn lemma_tier_index(len: int, p: int, q: int)
    requires
        len > 0,
        0 <= p <= q,
    ensures
        0 <= tier_index(len, p) <= tier_index(len, q) < len,
        0 <= cheapest_tier_index(len, p) < len,
        tier_index(len, p) <= cheapest_tier_index(len, p),
        tier_index(len, q) >= 1 ==> cheapest_tier_index(len, p) <= tier_index(len, q),
{
    assert(0 <= len * p <= len * q) by (nonlinear_arith)
        requires
            len > 0,
            0 <= p <= q,
    ;
    lemma_div_pos_is_pos(len * p, 100_000);
    lemma_div_is_ordered(len * p, len * q, 100_000);
}

/// Executable `tier_index`.
pub fn tier_index_of(len: usize, percentile_mpct: u32) -> (idx: usize)
    ensures
        idx == tier_index(len as int, percentile_mpct as int),
{
    if len == 0 {
        return 0;
    }
    assert(len as u128 * percentile_mpct as u128 <= 0xffff_ffff_ffff_ffff * 0xffff_ffff)
        by (nonlinear_arith)
        requires
            len as u128 <= 0xffff_ffff_ffff_ffff,
            percentile_mpct as u128 <= 0xffff_ffff,
    ;
    let raw: u128 = (len as u128) * (percentile_mpct as u128) / 100_000;
    if raw > (len - 1) as u128 {
        len - 1
    } else {
        raw as usize
    }
}

/// Executable `cheapest_tier_index`.
pub fn cheapest_tier_index_of(len: usize, percentile_mpct: u32) -> (idx: usize)
    ensures
        idx == cheapest_tier_index(len as int, percentile_mpct as int),
{
    if len == 0 {
        return 0;
    }
    assert(len as u128 * percentile_mpct as u128 <= 0xffff_ffff_ffff_ffff * 0xffff_ffff)
        by (nonlinear_arith)
        requires
            len as u128 <= 0xffff_ffff_ffff_ffff,
            percentile_mpct as u128 <= 0xffff_ffff,
    ;
    let raw: u128 = (len as u128) * (percentile_mpct as u128) / 100_000;
    let lifted: u128 = if raw < 1 {
        1
    } else {
        raw
    };
    if lifted > (len - 1) as u128 {
        len - 1
    } else {
        lifted as usize
    }
}

/// Cuts the four thresholds out of a forecast window.
pub fn calculate_price_tiers(window: &Vec<PricePoint>, policy: &OptimizerConfig) -> (tiers:
    PriceTiers)
    ensures
        tiers == price_tiers(window@, *policy),
        window@.len() > 0 ==> {
            &&& totals(window@).contains(tiers.cheapest_threshold)
            &&& totals(window@).contains(tiers.cheap_threshold)
            &&& totals(window@).contains(tiers.expensive_threshold)
            &&& totals(window@).contains(tiers.premium_threshold)
        },
{
    let len: usize = window.len();
    if len == 0 {
        return PriceTiers {
            cheapest_threshold: 0,
            cheap_threshold: 0,
            expensive_threshold: 0,
            premium_threshold: 0,
        };
    }
    let sorted: Vec<i64> = sorted_totals(window);
    let cheapest_idx: usize = cheapest_tier_index_of(len, policy.cheapest_percentile_mpct);
    let cheap_idx: usize = tier_index_of(len, policy.charge_percentile_mpct);
    let expensive_idx: usize = tier_index_of(len, policy.expensive_percentile_mpct);
    let premium_idx: usize = tier_index_of(len, policy.discharge_percentile_mpct);
    proof {
        lemma_tier_index(len as int, policy.cheapest_percentile_mpct as int, policy.cheapest_percentile_mpct as int);
        lemma_tier_index(len as int, policy.charge_percentile_mpct as int, policy.charge_percentile_mpct as int);
        lemma_tier_index(len as int, policy.expensive_percentile_mpct as int, policy.expensive_percentile_mpct as int);
        lemma_tier_index(len as int, policy.discharge_percentile_mpct as int, policy.discharge_percentile_mpct as int);
        lemma_threshold_occurs(window@, cheapest_idx as int);
        lemma_threshold_occurs(window@, cheap_idx as int);
        lemma_threshold_occurs(window@, expensive_idx as int);
        lemma_threshold_occurs(window@, premium_idx as int);
    }
    PriceTiers {
        cheapest_threshold: sorted[cheapest_idx],
        cheap_threshold: sorted[cheap_idx],
        expensive_threshold: sorted[expensive_idx],
        premium_threshold: sorted[premium_idx],
    }
}

/// Every entry of the ascending prices is the price of some slot.
pub proof fn lemma_threshold_occurs(window: Seq<PricePoint>, idx: int)
    requires
        0 <= idx < window.len(),
    ensures
        totals(window).contains(ascending_totals(window)[idx]),
{
    lemma_sort_by_key(totals(window), by_value());
    let sorted = ascending_totals(window);
    assert(sorted.contains(sorted[idx]));
    lemma_sort_by_key_contains(totals(window), by_value(), sorted[idx]);
}

/// With the percentiles at ten, twenty-five, seventy-five and ninety, the
/// thresholds rise from cheapest to premium on every window that is not
/// empty, but for windows of two or three slots whose two lowest prices
/// differ: there the cheapest threshold is the second lowest price and the
/// cheap threshold the lowest.
pub proof fn lemma_tiers_rise_at_usual_percentiles(
    window: Seq<PricePoint>,
    policy: OptimizerConfig,
)
    requires
        window.len() > 0,
        policy.cheapest_percentile_mpct == 10_000,
        policy.charge_percentile_mpct == 25_000,
        policy.expensive_percentile_mpct == 75_000,
        policy.discharge_percentile_mpct == 90_000,
        window.len() == 1 || window.len() >= 4 || ascending_totals(window)[0] == ascending_totals(
            window,
        )[1],
    ensures
        price_tiers(window, policy).cheapest_threshold <= price_tiers(
            window,
            policy,
        ).cheap_threshold <= price_tiers(window, policy).expensive_threshold <= price_tiers(
            window,
            policy,
        ).premium_threshold,
{
    lemma_tiers_rise(window, policy);
}

/// The four thresholds rise from cheapest to premium whenever the four
/// percentiles do, on every window but one kind: a window of several slots
/// so short that the cheap percentile still points at its lowest price,
/// while the cheapest tier has been lifted to the second lowest and that
/// one is higher.
pub proof fn lemma_tiers_rise(window: Seq<PricePoint>, policy: OptimizerConfig)
    requires
        window.len() > 0,
        policy.cheapest_percentile_mpct <= policy.charge_percentile_mpct
            <= policy.expensive_percentile_mpct <= policy.discharge_percentile_mpct,
        window.len() == 1 || tier_index(
            window.len() as int,
            policy.charge_percentile_mpct as int,
        ) >= 1 || ascending_totals(window)[0] == ascending_totals(window)[1],
    ensures
        price_tiers(window, policy).cheapest_threshold <= price_tiers(
            window,
            policy,
        ).cheap_threshold <= price_tiers(window, policy).expensive_threshold <= price_tiers(
            window,
            policy,
        ).premium_threshold,
{
    let len = window.len() as int;
    let sorted = ascending_totals(window);
    let key = by_value();
    lemma_sort_by_key(totals(window), key);
    assert(ordered_by(sorted, key));
    let c = cheapest_tier_index(len, policy.cheapest_percentile_mpct as int);
    let ch = tier_index(len, policy.charge_percentile_mpct as int);
    let e = tier_index(len, policy.expensive_percentile_mpct as int);
    let p = tier_index(len, policy.discharge_percentile_mpct as int);
    lemma_tier_index(len, policy.cheapest_percentile_mpct as int, policy.charge_percentile_mpct as int);
    lemma_tier_index(len, policy.charge_percentile_mpct as int, policy.expensive_percentile_mpct as int);
    lemma_tier_index(len, policy.expensive_percentile_mpct as int, policy.discharge_percentile_mpct as int);
    assert(sorted[ch] <= sorted[e]) by {
        if ch < e {
            assert(key(sorted[ch]) <= key(sorted[e]));
        }
    }
    assert(sorted[e] <= sorted[p]) by {
        if e < p {
            assert(key(sorted[e]) <= key(sorted[p]));
        }
    }
    assert(sorted[c] <= sorted[ch]) by {
        if c < ch {
            assert(key(sorted[c]) <= key(sorted[ch]));
        } else if c > ch {
            assert(len >= 2 && ch == 0 && c == 1);
        }
    }
}

} // verus!
