//! The scale of amounts and prices, and the sizing of the position scenarios.
use crate::model;
use vstd::prelude::*;

verus! {

/// The price scale of the position scenarios: one USD of price is `10^9`.
pub const PRICE_UNIT: u128 = 1_000_000_000;
/// The entry price of every position scenario: 100,000 in `PRICE_UNIT`s.
pub const ENTRY_PRICE: u128 = 100_000_000_000_000;
/// One day in seconds.
pub const DAY: u64 = 86_400;
/// The collateral of every position scenario, in units of value.
pub const COLLATERAL_UNITS: u128 = 1_000;

/// One unit of value in the model's fixed-point scale: `10^20`.
pub open spec fn spec_unit() -> int {
    100_000_000_000_000_000_000
}

/// One unit of value in the model's fixed-point scale, read from the model.
pub fn unit() -> (r: u128)
    ensures
        r == spec_unit(),
{
    model::fixed_one()
}

/// The amounts of a position scenario.
#[derive(Debug, Clone, Copy)]
pub struct PositionSizing {
    /// Tokens deposited on each side to give the pool its liquidity.
    pub liquidity_amount: u128,
    /// Value put up as collateral.
    pub collateral_value: u128,
    /// Tokens put up as collateral.
    pub collateral_amount: u128,
    /// The position's size in USD.
    pub size_delta_usd: u128,
}

/// Whether a pool of `pool_units` units of value and a position of `leverage`
/// times the collateral fit the model's `u128` amounts.
pub open spec fn sizing_fits(pool_units: int, leverage: int) -> bool {
    &&& pool_units * spec_unit() <= u128::MAX
    &&& COLLATERAL_UNITS * spec_unit() * leverage <= u128::MAX
}

/// Sizes a scenario at `price`: a pool worth `pool_units` units on each side,
/// 1,000 units of collateral, and a size of `leverage` times the collateral.
/// Token amounts are rounded down.
pub fn position_sizing(price: u128, pool_units: u128, leverage: u128) -> (s: PositionSizing)
    requires
        price > 0,
        sizing_fits(pool_units as int, leverage as int),
    ensures
        s.liquidity_amount == (pool_units * spec_unit()) / (price as int),
        s.collateral_value == COLLATERAL_UNITS * spec_unit(),
        s.collateral_amount == s.collateral_value / price,
        s.size_delta_usd == s.collateral_value * leverage,
{
    let unit = unit();
    let collateral_value = COLLATERAL_UNITS * unit;
    PositionSizing {
        liquidity_amount: (pool_units * unit) / price,
        collateral_value,
        collateral_amount: collateral_value / price,
        size_delta_usd: collateral_value * leverage,
    }
}

/// Collateral is rounded down to whole tokens, so the tokens put up are never
/// worth more than the collateral value, and less than one token short of it.
pub proof fn lemma_collateral_rounds_down(value: u128, price: u128)
    requires
        price > 0,
    ensures
        (value / price) * price <= value,
        value < (value / price + 1) * price,
{
    assert((value / price) * price + value % price == value) by (nonlinear_arith)
        requires price > 0;
    assert(value % price < price) by (nonlinear_arith)
        requires price > 0;
    assert((value / price + 1) * price == (value / price) * price + price) by (nonlinear_arith);
}

/// At the entry price every scenario puts up 10^9 collateral tokens, and its
/// USD size is the collateral value times the leverage.
pub proof fn lemma_entry_sizing(leverage: int)
    ensures
        (COLLATERAL_UNITS * spec_unit()) / (ENTRY_PRICE as int) == 1_000_000_000,
        (COLLATERAL_UNITS * spec_unit()) * leverage == 100_000_000_000_000_000_000_000 * leverage,
{
}

} // verus!
