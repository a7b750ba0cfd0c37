//! Opening a market of the model with a set of parameters.
use crate::model::{self, borrowing_clock_started, clock_advanced, market_config, market_others_as_fixture, supply_of, Market};
use crate::params::{configured, MarketParams};
use vstd::prelude::*;

verus! {

/// Opens a market of the model: its fixture configuration with the swap impact
/// and swap fees of `params`, and each optional parameter that `params` sets.
pub fn open_market(params: &MarketParams) -> (m: Market)
    ensures
        market_config(m) == configured(*params),
        market_others_as_fixture(m),
        supply_of(m) == 0,
        clock_advanced(m) == 0,
        !borrowing_clock_started(m),
{
    let mut cfg = model::default_config();
    model::set_swap_impact_params(&mut cfg, params.swap_impact);
    model::set_swap_fee_params(&mut cfg, params.swap_fee);
    match params.order_fee {
        Some(f) => model::set_order_fee_params(&mut cfg, f),
        None => {},
    }
    match params.max_pool_value_for_deposit {
        Some(v) => model::set_max_pool_value_for_deposit(&mut cfg, v),
        None => {},
    }
    match params.max_pnl_factors {
        Some(f) => model::set_max_pnl_factors(&mut cfg, f),
        None => {},
    }
    model::new_market(cfg)
}

} // verus!
