//! Positions on the deployed market: open one, move the price (or not), close it.
use crate::error::{lift, HarnessError};
use crate::liquidation::deployed_with;
use crate::market::open_market;
use crate::model::{
    self, borrowing_clock_started, clock_advanced, market_config, market_others_as_fixture, prices_valid,
    same_setup, side_of, size_in_usd_of, supply_of, Market, CLOCK_LIMIT_SECS,
};
use crate::outcome::{CloseFlags, CloseReport, PositionSide};
use crate::params::{self, configured, spec_perp_params, MarketParams, PnlFactors};
use crate::sizing::{self, position_sizing, sizing_fits, ENTRY_PRICE};
use gmsol_model::test::TestPosition;
use vstd::prelude::*;

verus! {

/// The pool size, in units of value per side, of the position scenarios.
pub const DEEP_POOL_UNITS: u128 = 1_000_000;

/// A fresh market with the deployed parameters for positions: deployed swap
/// impact, and deployed fees for swaps and orders alike.
pub fn deployed() -> (m: Market)
    ensures
        market_config(m) == configured(spec_perp_params()),
        market_others_as_fixture(m),
        supply_of(m) == 0,
        clock_advanced(m) == 0,
        !borrowing_clock_started(m),
{
    open_market(&params::perp_params(None))
}

/// An empty position on the given side, with that side's own token as its
/// collateral: `long(true)` for a long, `short(false)` for a short. The flag of
/// the model's constructors names the collateral token, not the side.
pub fn position_for_side(is_long: bool) -> (p: TestPosition<u128, 20>)
    ensures
        side_of(p) == (PositionSide { is_long, long_token_collateral: is_long }),
        size_in_usd_of(p) == 0,
{
    if is_long {
        model::long_position(true)
    } else {
        model::short_position(false)
    }
}

/// Opens (or grows) `position` with `collateral` tokens and a size of
/// `size_delta_usd`, every token at `price`. Refused for a price the model does
/// not accept; a refusal of the model comes back as that refusal.
pub fn open_position(market: &mut Market, position: &mut TestPosition<u128, 20>, price: u128, collateral: u128, size_delta_usd: u128) -> (r: Result<(), HarnessError>)
    requires
        clock_advanced(*old(market)) <= CLOCK_LIMIT_SECS,
    ensures
        !prices_valid(price) ==> r is Err,
        r is Ok ==> size_in_usd_of(*final(position)) == size_in_usd_of(*old(position)) + size_delta_usd,
        r matches Err(e) ==> e matches HarnessError::Model(_),
        side_of(*final(position)) == side_of(*old(position)),
        supply_of(*final(market)) == supply_of(*old(market)),
        same_setup(*old(market), *final(market)),
{
    lift(model::increase_position(position, market, price, collateral, size_delta_usd))
}

/// Closes `size_delta_usd` of `position` with `flags`, every token at `price`;
/// gives what the close paid. Refused for a price the model does not accept,
/// and for a size over the position's unless capping is allowed. A close
/// shrinks the position by that size or empties it, and reports an insolvent
/// step only where `flags` allowed an insolvent close.
pub fn close_position(market: &mut Market, position: &mut TestPosition<u128, 20>, price: u128, size_delta_usd: u128, flags: CloseFlags) -> (r: Result<CloseReport, HarnessError>)
    requires
        clock_advanced(*old(market)) <= CLOCK_LIMIT_SECS,
    ensures
        !prices_valid(price) ==> r is Err,
        size_delta_usd > size_in_usd_of(*old(position)) && !flags.cap_size_delta_usd_allowed ==> r is Err,
        r is Ok ==> size_in_usd_of(*final(position)) == 0 || (size_delta_usd <= size_in_usd_of(*old(position))
            && size_in_usd_of(*final(position)) == size_in_usd_of(*old(position)) - size_delta_usd),
        r matches Ok(rep) ==> (rep.insolvent_close_step is Some ==> flags.insolvent_close_allowed),
        r matches Err(e) ==> e matches HarnessError::Model(_),
        side_of(*final(position)) == side_of(*old(position)),
        supply_of(*final(market)) == supply_of(*old(market)),
        same_setup(*old(market), *final(market)),
{
    lift(model::decrease_position(position, market, price, size_delta_usd, flags))
}

/// Everything a close paid to the trader, in tokens: both outputs together.
pub fn total_output(report: &CloseReport) -> (r: Option<u128>)
    ensures
        r == (if report.output_amount + report.secondary_output_amount <= u128::MAX {
            Some((report.output_amount + report.secondary_output_amount) as u128)
        } else {
            None
        }),
{
    report.output_amount.checked_add(report.secondary_output_amount)
}

/// The market and position of a position scenario, as the model left them:
/// right before the position was opened, right after, and at the end; and the
/// report of the close that ended it.
pub struct ScenarioSetup {
    pub market_at_open: Market,
    pub opened: TestPosition<u128, 20>,
    pub market: Market,
    pub position: TestPosition<u128, 20>,
    pub report: CloseReport,
}

/// Everything a close paid to the trader, in tokens.
pub open spec fn paid_out(report: CloseReport) -> int {
    report.output_amount + report.secondary_output_amount
}

/// A scenario ran on a market with the configuration of `params` and a
/// position on the given side, with that side's token as collateral, opened to
/// `size` and closed in full; the market's clock moved `clock` seconds.
pub open spec fn ran_on(setup: ScenarioSetup, params: MarketParams, is_long: bool, size: u128, clock: nat) -> bool {
    &&& market_config(setup.market) == configured(params)
    &&& market_others_as_fixture(setup.market)
    &&& market_config(setup.market_at_open) == configured(params)
    &&& clock_advanced(setup.market) == clock
    &&& side_of(setup.opened) == (PositionSide { is_long, long_token_collateral: is_long })
    &&& size_in_usd_of(setup.opened) == size
    &&& side_of(setup.position) == side_of(setup.opened)
    &&& size_in_usd_of(setup.position) == 0
}

/// What a position scenario put in and got back.
#[derive(Clone, Copy)]
pub struct PositionOutcome {
    /// Tokens put up as collateral.
    pub collateral_amount: u128,
    /// The position's size in USD.
    pub size_delta_usd: u128,
    /// Everything the close paid to the trader, in tokens.
    pub out: u128,
    /// What the close reported.
    pub report: CloseReport,
    /// What the scenario handed the model.
    pub setup: Ghost<ScenarioSetup>,
}

/// The outcome of a close of a position that put up `collateral_amount` tokens
/// for a size of `size_delta_usd`; fails where the two outputs do not add up
/// within `u128`.
pub fn settle(collateral_amount: u128, size_delta_usd: u128, report: CloseReport, setup: Ghost<ScenarioSetup>) -> (r: Result<PositionOutcome, HarnessError>)
    ensures
        r is Ok <==> report.output_amount + report.secondary_output_amount <= u128::MAX,
        r matches Ok(o) ==> o == (PositionOutcome {
            collateral_amount,
            size_delta_usd,
            out: (report.output_amount + report.secondary_output_amount) as u128,
            report,
            setup,
        }),
        r matches Err(e) ==> e matches HarnessError::ArithmeticOverflow,
{
    match total_output(&report) {
        Some(out) => Ok(PositionOutcome { collateral_amount, size_delta_usd, out, report, setup }),
        None => Err(HarnessError::ArithmeticOverflow),
    }
}

/// The parameters of a position market with `max_pnl` in place of the model's
/// default max PnL factors where it is given.
pub open spec fn perp_with(max_pnl: Option<PnlFactors>) -> MarketParams {
    MarketParams { max_pnl_factors: max_pnl, ..spec_perp_params() }
}

/// On `deployed_with(max_pnl)` with `pool_units` units of liquidity on each
/// side, all at the entry price: opens a position on the given side, with that
/// side's token as collateral, with 1,000 units of collateral at `leverage`,
/// moves every price to `exit_price`, and closes the whole size with `flags`.
pub fn open_and_close(
    is_long: bool,
    leverage: u128,
    exit_price: u128,
    flags: CloseFlags,
    max_pnl: Option<PnlFactors>,
    pool_units: u128,
) -> (r: Result<PositionOutcome, HarnessError>)
    requires
        sizing_fits(pool_units as int, leverage as int),
    ensures
        !prices_valid(exit_price) ==> r is Err,
        r matches Ok(o) ==> (o.report.insolvent_close_step is Some ==> flags.insolvent_close_allowed),
        r matches Ok(o) ==> {
            &&& o.collateral_amount == 1_000_000_000
            &&& o.size_delta_usd == 100_000_000_000_000_000_000_000 * leverage
            &&& o.out == o.report.output_amount + o.report.secondary_output_amount
            &&& ran_on(o.setup@, perp_with(max_pnl), is_long, o.size_delta_usd, 0)
            &&& !borrowing_clock_started(o.setup@.market)
            &&& o.setup@.report == o.report
        },
{
    proof {
        sizing::lemma_entry_sizing(leverage as int);
    }
    let mut market = deployed_with(max_pnl);
    let sizing = position_sizing(ENTRY_PRICE, pool_units, leverage);
    lift(model::deposit(&mut market, sizing.liquidity_amount, sizing.liquidity_amount, ENTRY_PRICE))?;

    let mut position = position_for_side(is_long);
    let ghost market_at_open = market;
    open_position(&mut market, &mut position, ENTRY_PRICE, sizing.collateral_amount, sizing.size_delta_usd)?;
    let ghost opened = position;

    let report = close_position(&mut market, &mut position, exit_price, sizing.size_delta_usd, flags)?;
    let ghost setup = ScenarioSetup { market_at_open, opened, market, position, report };
    settle(sizing.collateral_amount, sizing.size_delta_usd, report, Ghost(setup))
}

/// Opens a position and closes it at the same price it was opened at, on a deep
/// deployed market. Gives (collateral in, tokens out, size in USD, setup); the
/// last element records the market and position the scenario ran on.
pub fn round_trip_at_same_price(is_long: bool, leverage: u128) -> (r: Result<(u128, u128, u128, Ghost<ScenarioSetup>), HarnessError>)
    requires
        sizing_fits(DEEP_POOL_UNITS as int, leverage as int),
    ensures
        r matches Ok((collateral_in, out, size, setup)) ==> {
            &&& collateral_in == 1_000_000_000
            &&& size == 100_000_000_000_000_000_000_000 * leverage
            &&& ran_on(setup@, spec_perp_params(), is_long, size, 0)
            &&& out == paid_out(setup@.report)
        },
{
    proof {
        assert(perp_with(None) == spec_perp_params());
    }
    let o = open_and_close(is_long, leverage, ENTRY_PRICE, CloseFlags::ordinary(), None, DEEP_POOL_UNITS)?;
    Ok((o.collateral_amount, o.out, o.size_delta_usd, o.setup))
}

/// Opens a 2x position on a deep deployed market and closes it in full after
/// every price moved to `exit_price`.
pub fn close_after_move(is_long: bool, exit_price: u128) -> (r: Result<PositionOutcome, HarnessError>)
    ensures
        !prices_valid(exit_price) ==> r is Err,
        r matches Ok(o) ==> o.report.insolvent_close_step is None,
        r matches Ok(o) ==> {
            &&& o.collateral_amount == 1_000_000_000
            &&& o.size_delta_usd == 200_000_000_000_000_000_000_000
            &&& ran_on(o.setup@, spec_perp_params(), is_long, o.size_delta_usd, 0)
            &&& o.out == paid_out(o.report)
            &&& o.setup@.report == o.report
        },
{
    proof {
        assert(perp_with(None) == spec_perp_params());
    }
    open_and_close(is_long, 2, exit_price, CloseFlags::ordinary(), None, DEEP_POOL_UNITS)
}

} // verus!
