//! Liquidation, insolvent close, and the cap on trader PnL.
use crate::error::HarnessError;
use crate::market::open_market;
use crate::model::{borrowing_clock_started, clock_advanced, market_config, market_others_as_fixture, prices_valid, supply_of, Market};
use crate::outcome::{CloseFlags, InsolventStep};
use crate::params::{self, configured, spec_perp_params, PnlFactors};
use crate::position::{open_and_close, paid_out, perp_with, ran_on, ScenarioSetup};
use crate::sizing::sizing_fits;
use vstd::prelude::*;

verus! {

/// A fresh deployed market for positions, with `max_pnl` in place of the
/// model's default max PnL factors where it is given.
pub fn deployed_with(max_pnl: Option<PnlFactors>) -> (m: Market)
    ensures
        market_config(m) == configured(perp_with(max_pnl)),
        market_others_as_fixture(m),
        supply_of(m) == 0,
        clock_advanced(m) == 0,
        !borrowing_clock_started(m),
{
    open_market(&params::perp_params(max_pnl))
}

/// Without a max PnL override, the liquidation market is the position market:
/// both carry the deployed swap impact, and the deployed fees for swaps and
/// orders alike, on the fixture's other parameters.
pub proof fn lemma_deployed_markets_agree()
    ensures
        configured(perp_with(None)) == configured(spec_perp_params()),
        configured(perp_with(None)).swap_fee == configured(perp_with(None)).order_fee,
{
    assert(perp_with(None) == spec_perp_params());
}

/// The flags of a liquidation order: insolvent close allowed, liquidation,
/// size capping allowed.
pub fn liquidation_flags() -> (f: CloseFlags)
    ensures
        f.insolvent_close_allowed,
        f.liquidation_order,
        f.cap_size_delta_usd_allowed,
{
    CloseFlags {
        insolvent_close_allowed: true,
        liquidation_order: true,
        cap_size_delta_usd_allowed: true,
    }
}

/// Opens a long at `leverage`, moves every price to `exit_price`, and closes
/// with `flags`. Gives (collateral, out, pnl, uncapped pnl, insolvent step,
/// setup); the last element records the market and position the scenario ran
/// on: `deployed_with(max_pnl)` and a long with long-token collateral.
pub fn open_move_close(
    leverage: u128,
    exit_price: u128,
    flags: CloseFlags,
    max_pnl: Option<PnlFactors>,
    pool_units: u128,
) -> (r: Result<(u128, u128, i128, i128, Option<InsolventStep>, Ghost<ScenarioSetup>), HarnessError>)
    requires
        sizing_fits(pool_units as int, leverage as int),
    ensures
        !prices_valid(exit_price) ==> r is Err,
        r matches Ok((collateral, out, pnl, uncapped, step, setup)) ==> {
            &&& collateral == 1_000_000_000
            &&& out == paid_out(setup@.report)
            &&& pnl == setup@.report.pnl
            &&& uncapped == setup@.report.uncapped_pnl
            &&& step == setup@.report.insolvent_close_step
            &&& (step is Some ==> flags.insolvent_close_allowed)
            &&& ran_on(setup@, perp_with(max_pnl), true, (100_000_000_000_000_000_000_000 * leverage) as u128, 0)
            &&& !borrowing_clock_started(setup@.market)
        },
{
    let o = open_and_close(true, leverage, exit_price, flags, max_pnl, pool_units)?;
    Ok((o.collateral_amount, o.out, o.report.pnl, o.report.uncapped_pnl, o.report.insolvent_close_step, o.setup))
}

} // verus!
