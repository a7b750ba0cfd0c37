use vstd::prelude::*;

verus! {

/// Price impact parameters as fixed-point factors (20 decimals).
#[derive(Debug, Clone, Copy)]
pub struct ImpactFactors {
    pub exponent: u128,
    pub positive_factor: u128,
    pub negative_factor: u128,
}

/// Fee parameters as fixed-point factors (20 decimals).
#[derive(Debug, Clone, Copy)]
pub struct FeeFactors {
    pub fee_receiver_factor: u128,
    pub positive_impact_fee_factor: u128,
    pub negative_impact_fee_factor: u128,
}

/// Max PnL factors as fixed-point factors (20 decimals).
#[derive(Debug, Clone, Copy)]
pub struct PnlFactors {
    pub deposit: u128,
    pub withdrawal: u128,
    pub trader: u128,
    pub adl: u128,
}

/// The parameters a market is opened with. A field that is `None` keeps the
/// model's own default for that parameter.
#[derive(Debug, Clone, Copy)]
pub struct MarketParams {
    pub swap_impact: ImpactFactors,
    pub swap_fee: FeeFactors,
    pub order_fee: Option<FeeFactors>,
    pub max_pool_value_for_deposit: Option<u128>,
    pub max_pnl_factors: Option<PnlFactors>,
}

/// 2.0 in the model's fixed-point scale.
pub const DEPLOYED_IMPACT_EXPONENT: u128 = 200_000_000_000_000_000_000;
pub const DEPLOYED_POSITIVE_IMPACT_FACTOR: u128 = 175_000_000_000;
pub const DEPLOYED_NEGATIVE_IMPACT_FACTOR: u128 = 350_000_000_000;
/// 0.70 in the model's fixed-point scale.
pub const DEPLOYED_FEE_RECEIVER_FACTOR: u128 = 70_000_000_000_000_000_000;
pub const DEPLOYED_POSITIVE_IMPACT_FEE_FACTOR: u128 = 50_000_000_000_000_000;
pub const DEPLOYED_NEGATIVE_IMPACT_FEE_FACTOR: u128 = 70_000_000_000_000_000;
/// 1.75e27: the ceiling on the pool value that deposits may reach.
pub const DEPLOYED_MAX_POOL_VALUE: u128 = 1_750_000_000_000_000_000_000_000_000;

/// The deployed swap impact factors.
pub open spec fn spec_deployed_impact() -> ImpactFactors {
    ImpactFactors {
        exponent: DEPLOYED_IMPACT_EXPONENT,
        positive_factor: DEPLOYED_POSITIVE_IMPACT_FACTOR,
        negative_factor: DEPLOYED_NEGATIVE_IMPACT_FACTOR,
    }
}

/// The deployed fee factors, shared by swaps and orders.
pub open spec fn spec_deployed_fee() -> FeeFactors {
    FeeFactors {
        fee_receiver_factor: DEPLOYED_FEE_RECEIVER_FACTOR,
        positive_impact_fee_factor: DEPLOYED_POSITIVE_IMPACT_FEE_FACTOR,
        negative_impact_fee_factor: DEPLOYED_NEGATIVE_IMPACT_FEE_FACTOR,
    }
}

/// The deployed parameters of the liquidity path: swap impact, swap fees and
/// the deposit ceiling.
pub open spec fn spec_liquidity_params() -> MarketParams {
    MarketParams {
        swap_impact: spec_deployed_impact(),
        swap_fee: spec_deployed_fee(),
        order_fee: None,
        max_pool_value_for_deposit: Some(DEPLOYED_MAX_POOL_VALUE),
        max_pnl_factors: None,
    }
}

/// The deployed parameters of the position path: swap impact, swap fees and
/// order fees.
pub open spec fn spec_perp_params() -> MarketParams {
    MarketParams {
        swap_impact: spec_deployed_impact(),
        swap_fee: spec_deployed_fee(),
        order_fee: Some(spec_deployed_fee()),
        max_pool_value_for_deposit: None,
        max_pnl_factors: None,
    }
}

pub fn deployed_impact() -> (f: ImpactFactors)
    ensures
        f == spec_deployed_impact(),
{
    ImpactFactors {
        exponent: DEPLOYED_IMPACT_EXPONENT,
        positive_factor: DEPLOYED_POSITIVE_IMPACT_FACTOR,
        negative_factor: DEPLOYED_NEGATIVE_IMPACT_FACTOR,
    }
}

pub fn deployed_fee() -> (f: FeeFactors)
    ensures
        f == spec_deployed_fee(),
{
    FeeFactors {
        fee_receiver_factor: DEPLOYED_FEE_RECEIVER_FACTOR,
        positive_impact_fee_factor: DEPLOYED_POSITIVE_IMPACT_FEE_FACTOR,
        negative_impact_fee_factor: DEPLOYED_NEGATIVE_IMPACT_FEE_FACTOR,
    }
}

/// Parameters for deposits and withdrawals on the deployed market.
pub fn liquidity_params() -> (p: MarketParams)
    ensures
        p == spec_liquidity_params(),
{
    MarketParams {
        swap_impact: deployed_impact(),
        swap_fee: deployed_fee(),
        order_fee: None,
        max_pool_value_for_deposit: Some(DEPLOYED_MAX_POOL_VALUE),
        max_pnl_factors: None,
    }
}

/// Parameters for positions on the deployed market, with the model's default
/// max PnL factors unless `max_pnl` overrides them.
pub fn perp_params(max_pnl: Option<PnlFactors>) -> (p: MarketParams)
    ensures
        p == (MarketParams { max_pnl_factors: max_pnl, ..spec_perp_params() }),
{
    MarketParams {
        swap_impact: deployed_impact(),
        swap_fee: deployed_fee(),
        order_fee: Some(deployed_fee()),
        max_pool_value_for_deposit: None,
        max_pnl_factors: max_pnl,
    }
}

/// The deployed market sections agree: deposits and positions see the same
/// swap impact and swap fees, and orders pay the same fee factors as swaps.
pub proof fn lemma_deployed_sections_agree()
    ensures
        spec_liquidity_params().swap_impact == spec_perp_params().swap_impact,
        spec_liquidity_params().swap_fee == spec_perp_params().swap_fee,
        spec_perp_params().order_fee == Some(spec_perp_params().swap_fee),
        spec_deployed_fee().fee_receiver_factor * 10 == 7 * 100_000_000_000_000_000_000,
        spec_deployed_impact().exponent == 2 * 100_000_000_000_000_000_000,
{
}

} // verus!

verus! {

/// The parameters of a market configuration that the scenarios set, as plain
/// values.
#[derive(Debug, Clone, Copy)]
pub struct MarketConfigView {
    pub swap_impact: ImpactFactors,
    pub swap_fee: FeeFactors,
    pub order_fee: FeeFactors,
    pub max_pool_value_for_deposit: u128,
    pub max_pnl_factors: PnlFactors,
}

/// The model's fixture configuration (`TestMarketConfig::<u128, 20>::default()`)
/// in those parameters: a fee split of 0.37, swap impact factors of 4e11 and
/// 8e11, and a deposit ceiling of 1e35.
pub open spec fn fixture_config() -> MarketConfigView {
    MarketConfigView {
        swap_impact: ImpactFactors {
            exponent: 200_000_000_000_000_000_000,
            positive_factor: 400_000_000_000,
            negative_factor: 800_000_000_000,
        },
        swap_fee: FeeFactors {
            fee_receiver_factor: 37_000_000_000_000_000_000,
            positive_impact_fee_factor: 50_000_000_000_000_000,
            negative_impact_fee_factor: 70_000_000_000_000_000,
        },
        order_fee: FeeFactors {
            fee_receiver_factor: 37_000_000_000_000_000_000,
            positive_impact_fee_factor: 50_000_000_000_000_000,
            negative_impact_fee_factor: 70_000_000_000_000_000,
        },
        max_pool_value_for_deposit: 100_000_000_000_000_000_000_000_000_000_000_000,
        max_pnl_factors: PnlFactors {
            deposit: 60_000_000_000_000_000_000,
            withdrawal: 30_000_000_000_000_000_000,
            trader: 50_000_000_000_000_000_000,
            adl: 50_000_000_000_000_000_000,
        },
    }
}

/// The configuration a market opened with `params` carries: the fixture, with
/// the swap impact and swap fees of `params` and each optional parameter that
/// `params` sets.
pub open spec fn configured(params: MarketParams) -> MarketConfigView {
    let base = fixture_config();
    MarketConfigView {
        swap_impact: params.swap_impact,
        swap_fee: params.swap_fee,
        order_fee: match params.order_fee {
            Some(f) => f,
            None => base.order_fee,
        },
        max_pool_value_for_deposit: match params.max_pool_value_for_deposit {
            Some(v) => v,
            None => base.max_pool_value_for_deposit,
        },
        max_pnl_factors: match params.max_pnl_factors {
            Some(f) => f,
            None => base.max_pnl_factors,
        },
    }
}

/// Fixture constants are not deployed constants: the deployed fee split is
/// 0.70 where the fixture's is 0.37, the fixture's swap impact factors are
/// larger, and the fixture's deposit ceiling is 1e35 where the deployed one is
/// 1.75e27. Orders on the deployed position market pay the swap fees.
pub proof fn lemma_deployed_is_not_the_fixture(max_pnl: Option<PnlFactors>)
    ensures
        configured(spec_liquidity_params()).swap_fee.fee_receiver_factor == DEPLOYED_FEE_RECEIVER_FACTOR,
        fixture_config().swap_fee.fee_receiver_factor != DEPLOYED_FEE_RECEIVER_FACTOR,
        fixture_config().swap_impact.positive_factor > DEPLOYED_POSITIVE_IMPACT_FACTOR,
        fixture_config().swap_impact.negative_factor > DEPLOYED_NEGATIVE_IMPACT_FACTOR,
        configured(spec_liquidity_params()).max_pool_value_for_deposit == DEPLOYED_MAX_POOL_VALUE,
        fixture_config().max_pool_value_for_deposit > DEPLOYED_MAX_POOL_VALUE,
        configured(MarketParams { max_pnl_factors: max_pnl, ..spec_perp_params() }).order_fee == spec_deployed_fee(),
        configured(MarketParams { max_pnl_factors: max_pnl, ..spec_perp_params() }).swap_fee == spec_deployed_fee(),
        configured(MarketParams { max_pnl_factors: max_pnl, ..spec_perp_params() }).swap_impact
            == configured(spec_liquidity_params()).swap_impact,
{
}

} // verus!
