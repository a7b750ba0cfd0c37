//! Time-dependent fees: what holding a position for a while costs.
use crate::error::{lift, HarnessError};
use crate::model::{
    self, borrowing_clock_started, clock_advanced, market_config, market_others_as_fixture, side_of, size_in_usd_of,
    Market, CLOCK_LIMIT_SECS,
};
use crate::outcome::{CloseFlags, CloseReport, PositionSide};
use crate::params::{configured, spec_perp_params};
use crate::position::{
    close_position, deployed, open_position, paid_out, position_for_side, ran_on, total_output, ScenarioSetup,
};
use gmsol_model::test::TestPosition;
use crate::sizing::{self, position_sizing, sizing_fits, ENTRY_PRICE};
use vstd::prelude::*;

verus! {

/// The leverage of the time-fee scenarios.
pub const HOLD_LEVERAGE: u128 = 5;

/// The size in USD of the time-fee scenarios' position: 5 x 10^23.
pub open spec fn hold_size() -> u128 {
    500_000_000_000_000_000_000_000
}

/// Opens a 5x long against a pool of `pool_units` units per side, holds it for
/// `hold_secs`, and closes it at the same price, with no keeper updating the
/// borrowing state. Gives (collateral, out, rate, setup).
pub fn hold_and_close(hold_secs: u64, pool_units: u128) -> (r: Result<(u128, u128, u128, Ghost<ScenarioSetup>), HarnessError>)
    requires
        sizing_fits(pool_units as int, HOLD_LEVERAGE as int),
        hold_secs <= CLOCK_LIMIT_SECS,
    ensures
        r matches Ok((collateral, out, _rate, setup)) ==> {
            &&& collateral == 1_000_000_000
            &&& out == paid_out(setup@.report)
            &&& ran_on(setup@, spec_perp_params(), true, hold_size(), hold_secs as nat)
            &&& !borrowing_clock_started(setup@.market_at_open)
            &&& !borrowing_clock_started(setup@.market)
        },
{
    hold_and_close_inner(hold_secs, pool_units, false)
}

/// As `hold_and_close`; where `keeper_update` is set, the borrowing state is
/// refreshed before the opening order and again before the closing order, as a
/// keeper does before every order. The rate is the long side's borrowing factor
/// per second right after the position opened. The last element records the
/// market and position the scenario ran on: the borrowing clock was started
/// before the opening order exactly where `keeper_update` is set.
pub fn hold_and_close_inner(hold_secs: u64, pool_units: u128, keeper_update: bool) -> (r: Result<(u128, u128, u128, Ghost<ScenarioSetup>), HarnessError>)
    requires
        sizing_fits(pool_units as int, HOLD_LEVERAGE as int),
        hold_secs <= CLOCK_LIMIT_SECS,
    ensures
        r matches Ok((collateral, out, _rate, setup)) ==> {
            &&& collateral == 1_000_000_000
            &&& out == paid_out(setup@.report)
            &&& ran_on(setup@, spec_perp_params(), true, hold_size(), hold_secs as nat)
            &&& borrowing_clock_started(setup@.market_at_open) == keeper_update
            &&& borrowing_clock_started(setup@.market) == keeper_update
        },
{
    proof {
        sizing::lemma_entry_sizing(HOLD_LEVERAGE as int);
    }
    let price = ENTRY_PRICE;
    let mut market = deployed();
    let sizing = position_sizing(ENTRY_PRICE, pool_units, HOLD_LEVERAGE);
    lift(model::deposit(&mut market, sizing.liquidity_amount, sizing.liquidity_amount, price))?;

    if keeper_update {
        lift(model::update_borrowing(&mut market, price))?;
    }

    let mut position = position_for_side(true);
    let ghost market_at_open = market;
    open_position(&mut market, &mut position, price, sizing.collateral_amount, sizing.size_delta_usd)?;
    let ghost opened = position;

    let rate = lift(model::borrowing_factor_per_second(&market, true, price))?;

    if hold_secs > 0 {
        model::move_clock_forward(&mut market, hold_secs);
    }

    if keeper_update {
        lift(model::update_borrowing(&mut market, price))?;
    }

    let report = close_position(&mut market, &mut position, price, sizing.size_delta_usd, CloseFlags::ordinary())?;
    let out = match total_output(&report) {
        Some(out) => out,
        None => return Err(HarnessError::ArithmeticOverflow),
    };
    let ghost setup = ScenarioSetup { market_at_open, opened, market, position, report };
    Ok((sizing.collateral_amount, out, rate, Ghost(setup)))
}

/// What churning gave back: the collateral each round put up, and what each
/// round paid out; with the market it ran on and each round's position, as the
/// model left them.
pub struct Churn {
    pub collateral_amount: u128,
    pub outs: Vec<u128>,
    pub market: Ghost<Market>,
    pub positions: Ghost<Seq<TestPosition<u128, 20>>>,
    pub reports: Ghost<Seq<CloseReport>>,
}

/// Churning instead of holding: on one deployed market with `pool_units` units
/// per side, `rounds` times in a row opens a 5x long, lets `hold_secs` pass, and
/// closes it at the same price.
pub fn churn(rounds: u64, hold_secs: u64, pool_units: u128) -> (r: Result<Churn, HarnessError>)
    requires
        sizing_fits(pool_units as int, HOLD_LEVERAGE as int),
        rounds * hold_secs <= CLOCK_LIMIT_SECS,
    ensures
        r matches Ok(c) ==> {
            &&& c.collateral_amount == 1_000_000_000
            &&& c.outs@.len() == rounds
            &&& market_config(c.market@) == configured(spec_perp_params())
            &&& market_others_as_fixture(c.market@)
            &&& clock_advanced(c.market@) == rounds * hold_secs
            &&& !borrowing_clock_started(c.market@)
            &&& c.positions@.len() == rounds
            &&& c.reports@.len() == rounds
            &&& forall|i: int| 0 <= i < rounds ==> {
                &&& side_of(#[trigger] c.positions@[i]) == (PositionSide { is_long: true, long_token_collateral: true })
                &&& size_in_usd_of(c.positions@[i]) == 0
            }
            &&& forall|i: int| 0 <= i < rounds ==> c.outs@[i] == paid_out(#[trigger] c.reports@[i])
        },
{
    proof {
        sizing::lemma_entry_sizing(HOLD_LEVERAGE as int);
    }
    let price = ENTRY_PRICE;
    let mut market = deployed();
    let sizing = position_sizing(ENTRY_PRICE, pool_units, HOLD_LEVERAGE);
    lift(model::deposit(&mut market, sizing.liquidity_amount, sizing.liquidity_amount, price))?;

    let mut outs: Vec<u128> = Vec::new();
    let ghost mut positions: Seq<TestPosition<u128, 20>> = Seq::empty();
    let ghost mut reports: Seq<CloseReport> = Seq::empty();
    let mut k: u64 = 0;
    while k < rounds
        invariant
            k <= rounds,
            outs@.len() == k,
            sizing.collateral_amount == 1_000_000_000,
            rounds * hold_secs <= CLOCK_LIMIT_SECS,
            clock_advanced(market) == k * hold_secs,
            market_config(market) == configured(spec_perp_params()),
            market_others_as_fixture(market),
            !borrowing_clock_started(market),
            positions.len() == k,
            reports.len() == k,
            forall|i: int| 0 <= i < k ==> outs@[i] == paid_out(#[trigger] reports[i]),
            forall|i: int| 0 <= i < k ==> {
                &&& side_of(#[trigger] positions[i]) == (PositionSide { is_long: true, long_token_collateral: true })
                &&& size_in_usd_of(positions[i]) == 0
            },
        decreases rounds - k,
    {
        assert((k + 1) * hold_secs <= rounds * hold_secs) by (nonlinear_arith)
            requires k + 1 <= rounds;
        assert((k + 1) * hold_secs == k * hold_secs + hold_secs) by (nonlinear_arith);
        let mut position = position_for_side(true);
        open_position(&mut market, &mut position, price, sizing.collateral_amount, sizing.size_delta_usd)?;
        model::move_clock_forward(&mut market, hold_secs);
        let report = close_position(&mut market, &mut position, price, sizing.size_delta_usd, CloseFlags::ordinary())?;
        let out = match total_output(&report) {
            Some(out) => out,
            None => return Err(HarnessError::ArithmeticOverflow),
        };
        outs.push(out);
        proof {
            positions = positions.push(position);
            reports = reports.push(report);
        }
        k = k + 1;
    }
    let ghost final_market = market;
    Ok(Churn { collateral_amount: sizing.collateral_amount, outs, market: Ghost(final_market), positions: Ghost(positions), reports: Ghost(reports) })
}

} // verus!
