//! The sentence that explains a decision, with the numbers that led to it.
//!
//! Prices are written in currency units with six decimals, states of charge
//! in percent with three, the power factor in percent with four, power in
//! whole watts.

use vstd::prelude::*;
use crate::text::append_decimal;
use crate::text::append_fixed;
use crate::text::append_signed;
use crate::text::decimal;
use crate::text::fixed_point;
use crate::text::signed_decimal;

verus! {

/// Why nothing could be decided: the window is empty.
pub open spec fn no_data_reason() -> Seq<char> {
    "no price data"@
}

/// Why the battery sells to the grid.
pub open spec fn discharge_reason(price: int, premium_threshold: int, cheap_slots: nat) -> Seq<
    char,
> {
    "Premium price "@ + fixed_point(price, 6) + " EUR (threshold "@ + fixed_point(
        premium_threshold,
        6,
    ) + "), discharging to grid. "@ + decimal(cheap_slots)
        + " cheap slots available for recharge."@
}

/// Why the battery charges at full power.
pub open spec fn cheapest_reason(price: int, soc_mpct: int, target_mpct: int) -> Seq<char> {
    "Cheapest price tier "@ + fixed_point(price, 6) + " EUR, charging at full power. SoC: "@
        + fixed_point(soc_mpct, 3) + "% -> target "@ + fixed_point(target_mpct, 3) + "%"@
}

/// Why the battery charges at a scaled power.
pub open spec fn cheap_reason(
    price: int,
    factor_ppm: int,
    power_w: int,
    soc_mpct: int,
    target_mpct: int,
    cheap_slots: nat,
) -> Seq<char> {
    "Cheap price tier "@ + fixed_point(price, 6) + " EUR, charging at "@ + fixed_point(
        factor_ppm,
        4,
    ) + "% power ("@ + signed_decimal(power_w) + " W). SoC: "@ + fixed_point(soc_mpct, 3)
        + "% -> target "@ + fixed_point(target_mpct, 3) + "%, "@ + decimal(cheap_slots)
        + " slots remaining"@
}

/// Why the battery charges although the price is not cheap.
pub open spec fn emergency_reason(soc_mpct: int, price: int) -> Seq<char> {
    "Critical SoC "@ + fixed_point(soc_mpct, 3)
        + "%, emergency charging at 50% power despite moderate price "@ + fixed_point(price, 6)
        + " EUR"@
}

/// Why the house is kept off the grid.
pub open spec fn expensive_reason(price: int, expensive_threshold: int, setpoint_w: int) -> Seq<
    char,
> {
    "Expensive price "@ + fixed_point(price, 6) + " EUR (>= "@ + fixed_point(
        expensive_threshold,
        6,
    ) + "), setpoint "@ + signed_decimal(setpoint_w) + " W to prevent grid pull"@
}

/// Why the battery rests at a low price.
pub open spec fn low_reason(price: int, setpoint_w: int) -> Seq<char> {
    "Low price "@ + fixed_point(price, 6) + " EUR but not charging, setpoint "@
        + signed_decimal(setpoint_w) + " W to prevent feed-in"@
}

/// Why the battery follows the house at a moderate price.
pub open spec fn moderate_reason(price: int, setpoint_w: int) -> Seq<char> {
    "Moderate price "@ + fixed_point(price, 6) + " EUR, setpoint "@ + signed_decimal(setpoint_w)
        + " W (preserve battery for expensive periods)"@
}

/// The text of `no_data_reason`.
pub fn no_data_text() -> (text: String)
    ensures
        text@ == no_data_reason(),
{
    String::from_str("no price data")
}

/// The text of `discharge_reason`.
pub fn discharge_text(price: i64, premium_threshold: i64, cheap_slots: usize) -> (text: String)
    ensures
        text@ == discharge_reason(price as int, premium_threshold as int, cheap_slots as nat),
{
    let mut text: String = String::from_str("Premium price ");
    append_fixed(&mut text, price as i128, 6);
    text.append(" EUR (threshold ");
    append_fixed(&mut text, premium_threshold as i128, 6);
    text.append("), discharging to grid. ");
    append_decimal(&mut text, cheap_slots as u128);
    text.append(" cheap slots available for recharge.");
    text
}

/// The text of `cheapest_reason`.
pub fn cheapest_text(price: i64, soc_mpct: u32, target_mpct: u32) -> (text: String)
    ensures
        text@ == cheapest_reason(price as int, soc_mpct as int, target_mpct as int),
{
    let mut text: String = String::from_str("Cheapest price tier ");
    append_fixed(&mut text, price as i128, 6);
    text.append(" EUR, charging at full power. SoC: ");
    append_fixed(&mut text, soc_mpct as i128, 3);
    text.append("% -> target ");
    append_fixed(&mut text, target_mpct as i128, 3);
    text.append("%");
    text
}

/// The text of `cheap_reason`.
pub fn cheap_text(
    price: i64,
    factor_ppm: u32,
    power_w: i64,
    soc_mpct: u32,
    target_mpct: u32,
    cheap_slots: usize,
) -> (text: String)
    ensures
        text@ == cheap_reason(
            price as int,
            factor_ppm as int,
            power_w as int,
            soc_mpct as int,
            target_mpct as int,
            cheap_slots as nat,
        ),
{
    let mut text: String = String::from_str("Cheap price tier ");
    append_fixed(&mut text, price as i128, 6);
    text.append(" EUR, charging at ");
    append_fixed(&mut text, factor_ppm as i128, 4);
    text.append("% power (");
    append_signed(&mut text, power_w as i128);
    text.append(" W). SoC: ");
    append_fixed(&mut text, soc_mpct as i128, 3);
    text.append("% -> target ");
    append_fixed(&mut text, target_mpct as i128, 3);
    text.append("%, ");
    append_decimal(&mut text, cheap_slots as u128);
    text.append(" slots remaining");
    text
}

/// The text of `emergency_reason`.
pub fn emergency_text(soc_mpct: u32, price: i64) -> (text: String)
    ensures
        text@ == emergency_reason(soc_mpct as int, price as int),
{
    let mut text: String = String::from_str("Critical SoC ");
    append_fixed(&mut text, soc_mpct as i128, 3);
    text.append("%, emergency charging at 50% power despite moderate price ");
    append_fixed(&mut text, price as i128, 6);
    text.append(" EUR");
    text
}

/// The text of `expensive_reason`.
pub fn expensive_text(price: i64, expensive_threshold: i64, setpoint_w: i64) -> (text: String)
    ensures
        text@ == expensive_reason(price as int, expensive_threshold as int, setpoint_w as int),
{
    let mut text: String = String::from_str("Expensive price ");
    append_fixed(&mut text, price as i128, 6);
    text.append(" EUR (>= ");
    append_fixed(&mut text, expensive_threshold as i128, 6);
    text.append("), setpoint ");
    append_signed(&mut text, setpoint_w as i128);
    text.append(" W to prevent grid pull");
    text
}

/// The text of `low_reason`.
pub fn low_text(price: i64, setpoint_w: i64) -> (text: String)
    ensures
        text@ == low_reason(price as int, setpoint_w as int),
{
    let mut text: String = String::from_str("Low price ");
    append_fixed(&mut text, price as i128, 6);
    text.append(" EUR but not charging, setpoint ");
    append_signed(&mut text, setpoint_w as i128);
    text.append(" W to prevent feed-in");
    text
}

/// The text of `moderate_reason`.
pub fn moderate_text(price: i64, setpoint_w: i64) -> (text: String)
    ensures
        text@ == moderate_reason(price as int, setpoint_w as int),
{
    let mut text: String = String::from_str("Moderate price ");
    append_fixed(&mut text, price as i128, 6);
    text.append(" EUR, setpoint ");
    append_signed(&mut text, setpoint_w as i128);
    text.append(" W (preserve battery for expensive periods)");
    text
}

} // verus!
