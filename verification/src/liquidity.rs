//! The liquidity path of the deployed market: deposits, withdrawals, and what a
//! deposit -> withdraw round trip gives back.
use crate::error::{lift, HarnessError};
use crate::market::open_market;
use crate::model::{
    self, borrowing_clock_started, clock_advanced, market_config, market_others_as_fixture, mid_price_fits, prices_valid,
    same_setup, supply_of, Market, CLOCK_LIMIT_SECS,
};
use crate::params::{configured, spec_liquidity_params};
use crate::params;
use vstd::prelude::*;

verus! {

/// The token price of the liquidity scenarios.
pub const PRICE: u128 = 20_000_000_000_000;
/// The tokens an honest LP seeds each side of the pool with.
pub const SEED_AMOUNT: u128 = 20_000_000_000_000;

/// A fresh market with the deployed liquidity parameters.
pub fn deployed() -> (m: Market)
    ensures
        market_config(m) == configured(spec_liquidity_params()),
        market_others_as_fixture(m),
        supply_of(m) == 0,
        clock_advanced(m) == 0,
        !borrowing_clock_started(m),
{
    open_market(&params::liquidity_params())
}

/// The supply of market tokens.
pub fn total_supply(market: &Market) -> (r: u128)
    ensures
        r == supply_of(*market),
{
    model::total_supply(market)
}

/// Deposits `long_amount` long and `short_amount` short tokens, every token at
/// `price`; gives the market tokens minted.
pub fn deposit(market: &mut Market, long_amount: u128, short_amount: u128, price: u128) -> (r: Result<u128, HarnessError>)
    requires
        mid_price_fits(price),
        clock_advanced(*old(market)) <= CLOCK_LIMIT_SECS,
    ensures
        same_setup(*old(market), *final(market)),
        long_amount == 0 && short_amount == 0 ==> r is Err,
        r matches Ok(minted) ==> supply_of(*final(market)) == supply_of(*old(market)) + minted,
        r is Err ==> supply_of(*final(market)) == supply_of(*old(market)),
        r matches Err(e) ==> e matches HarnessError::Model(_),
{
    lift(model::deposit(market, long_amount, short_amount, price))
}

/// Withdraws `amount` market tokens, every token at `price`; gives the long and
/// short tokens paid out. Refused for a zero amount and for a price the model
/// does not accept.
pub fn withdraw(market: &mut Market, amount: u128, price: u128) -> (r: Result<(u128, u128), HarnessError>)
    requires
        clock_advanced(*old(market)) <= CLOCK_LIMIT_SECS,
    ensures
        same_setup(*old(market), *final(market)),
        amount == 0 ==> r is Err,
        !prices_valid(price) ==> r is Err,
        r is Ok ==> amount <= supply_of(*old(market)) && supply_of(*final(market)) == supply_of(*old(market)) - amount,
        r is Err ==> supply_of(*final(market)) == supply_of(*old(market)),
        r matches Err(e) ==> e matches HarnessError::Model(_),
{
    lift(model::withdraw(market, amount, price))
}

/// The deposit ceiling in tokens at `PRICE` is 8.75e13: the seed of 2e13 tokens
/// on each side is worth 4e26 per side, under the 1.75e27 ceiling, and the
/// largest round-trip deposit (1e12 tokens) stays inside it.
pub proof fn lemma_seed_under_ceiling()
    ensures
        params::DEPLOYED_MAX_POOL_VALUE / PRICE == 87_500_000_000_000,
        SEED_AMOUNT * PRICE == 400_000_000_000_000_000_000_000_000,
        SEED_AMOUNT * PRICE <= params::DEPLOYED_MAX_POOL_VALUE,
        (SEED_AMOUNT + 1_000_000_000_000) * PRICE <= params::DEPLOYED_MAX_POOL_VALUE,
{
}

/// What a deposit of one token side, withdrawn again in full, gave back.
#[derive(Debug, Clone, Copy)]
pub struct LiquidityRoundTrip {
    /// Market tokens minted by the deposit, and burnt by the withdrawal.
    pub minted: u128,
    /// Long tokens paid out by the withdrawal.
    pub long_out: u128,
    /// Short tokens paid out by the withdrawal.
    pub short_out: u128,
    /// Value deposited.
    pub in_value: u128,
    /// Value withdrawn: both outputs, each token at the same price.
    pub out_value: u128,
}

/// Weighs a round trip: `amount` tokens went in, `long_out + short_out` came
/// out, every token at `price`. Compares value, never token counts.
pub fn measure_round_trip(amount: u128, minted: u128, long_out: u128, short_out: u128, price: u128) -> (r: Result<LiquidityRoundTrip, HarnessError>)
    requires
        amount * price <= u128::MAX,
    ensures
        (long_out + short_out <= u128::MAX && (long_out + short_out) * price <= u128::MAX) <==> r is Ok,
        r matches Ok(t) ==> t == (LiquidityRoundTrip {
            minted,
            long_out,
            short_out,
            in_value: (amount * price) as u128,
            out_value: ((long_out + short_out) * price) as u128,
        }),
        r matches Err(e) ==> e matches HarnessError::ArithmeticOverflow,
{
    let out_amount = match long_out.checked_add(short_out) {
        Some(v) => v,
        None => return Err(HarnessError::ArithmeticOverflow),
    };
    let out_value = match out_amount.checked_mul(price) {
        Some(v) => v,
        None => return Err(HarnessError::ArithmeticOverflow),
    };
    Ok(LiquidityRoundTrip { minted, long_out, short_out, in_value: amount * price, out_value })
}

/// Deposits `amount` long tokens and withdraws exactly the market tokens that
/// deposit minted, every token at `price`. The supply of market tokens ends
/// where it began.
pub fn round_trip(market: &mut Market, amount: u128, price: u128) -> (r: Result<LiquidityRoundTrip, HarnessError>)
    requires
        amount * price <= u128::MAX,
        mid_price_fits(price),
        clock_advanced(*old(market)) <= CLOCK_LIMIT_SECS,
    ensures
        amount == 0 ==> r is Err,
        !prices_valid(price) ==> r is Err,
        same_setup(*old(market), *final(market)),
        r matches Ok(t) ==> {
            &&& supply_of(*final(market)) == supply_of(*old(market))
            &&& t.in_value == amount * price
            &&& t.out_value == (t.long_out + t.short_out) * price
        },
{
    let before = total_supply(market);
    deposit(market, amount, 0, price)?;
    let minted = total_supply(market) - before;
    let (long_out, short_out) = withdraw(market, minted, price)?;
    measure_round_trip(amount, minted, long_out, short_out, price)
}

/// A deposit attempt of the liveness scenario.
#[derive(Debug)]
pub enum DepositAttempt {
    /// The deposit went through, minted `minted` market tokens, and those were
    /// withdrawn again.
    Accepted { minted: u128 },
    /// The model refused the deposit.
    Rejected(HarnessError),
}

/// Attempts to deposit `amount` long tokens at `price`; an accepted deposit is
/// unwound by withdrawing what it minted. Fails only where that withdrawal is
/// refused. Whatever the model decides, the supply of market tokens ends where
/// it began.
pub fn attempt_deposit(market: &mut Market, amount: u128, price: u128) -> (r: Result<DepositAttempt, HarnessError>)
    requires
        mid_price_fits(price),
        clock_advanced(*old(market)) <= CLOCK_LIMIT_SECS,
    ensures
        same_setup(*old(market), *final(market)),
        amount == 0 ==> r matches Ok(DepositAttempt::Rejected(_)),
        r matches Ok(DepositAttempt::Rejected(e)) ==> e matches HarnessError::Model(_),
        r is Ok ==> supply_of(*final(market)) == supply_of(*old(market)),
        r is Err ==> supply_of(*old(market)) < supply_of(*final(market)),
{
    let before = total_supply(market);
    match deposit(market, amount, 0, price) {
        Ok(_) => {
            let minted = total_supply(market) - before;
            if minted > 0 {
                withdraw(market, minted, price)?;
            }
            Ok(DepositAttempt::Accepted { minted })
        },
        Err(e) => Ok(DepositAttempt::Rejected(e)),
    }
}

/// The share of the supply that the liveness probe withdraws: a thousandth.
pub open spec fn probe_amount(supply: u128) -> u128 {
    supply / 1_000
}

/// The liveness probe: an existing LP withdraws a thousandth of the supply of
/// market tokens at `price`, and any long tokens it got back are deposited again
/// (whether that deposit goes through is not the probe's concern).
/// Gives `None` where the probe is too small to withdraw, the amounts withdrawn
/// where the withdrawal went through, and the model's refusal where it did not.
pub fn probe_withdrawal(market: &mut Market, price: u128) -> (r: Result<Option<(u128, u128, u128)>, HarnessError>)
    requires
        mid_price_fits(price),
        clock_advanced(*old(market)) <= CLOCK_LIMIT_SECS,
    ensures
        same_setup(*old(market), *final(market)),
        r matches Ok(None) <==> probe_amount(supply_of(*old(market))) == 0,
        r matches Ok(Some((probe, _, _))) ==> probe == probe_amount(supply_of(*old(market))) && probe > 0,
        r is Err ==> probe_amount(supply_of(*old(market))) > 0 && supply_of(*final(market)) == supply_of(*old(market)),
        r matches Ok(Some((probe, long_back, _))) ==> {
            &&& long_back == 0 ==> supply_of(*final(market)) == supply_of(*old(market)) - probe
            &&& long_back > 0 ==> supply_of(*final(market)) >= supply_of(*old(market)) - probe
        },
{
    let probe = total_supply(market) / 1_000;
    if probe == 0 {
        return Ok(None);
    }
    let (long_back, short_back) = withdraw(market, probe, price)?;
    if long_back > 0 {
        let _ = deposit(market, long_back, 0, price);
    }
    Ok(Some((probe, long_back, short_back)))
}

} // verus!
