//! The calls into the market model, each behind a trusted item whose contract
//! states what the model's source shows of it.
use crate::error::ModelErrorKind;
use crate::outcome::{CloseFlags, CloseReport, InsolventStep, PositionSide};
use crate::params::{FeeFactors, ImpactFactors, MarketConfigView, PnlFactors};
use gmsol_model::action::decrease_position::DecreasePositionFlags;
use gmsol_model::fixed::Fixed;
use gmsol_model::params::{FeeParams, PriceImpactParams};
use gmsol_model::position::InsolventCloseStep;
use gmsol_model::price::Prices;
use gmsol_model::test::{MaxPnlFactors, TestMarket, TestMarketConfig, TestPosition};
use gmsol_model::{
    BorrowingFeeMarketExt, BorrowingFeeMarketMutExt, LiquidityMarket, LiquidityMarketMutExt,
    MarketAction, PositionMutExt,
};
use std::time::Duration;
use vstd::prelude::*;

verus! {

/// A market of the model with `u128` amounts and 20 decimals, held opaque and
/// reached only through the items of this file.
#[verifier::external_body]
pub struct Market {
    inner: TestMarket<u128, 20>,
}

#[verifier::external_type_specification]
#[verifier::external_body]
#[verifier::reject_recursive_types(T)]
pub struct ExTestMarketConfig<T, const DECIMALS: u8>(TestMarketConfig<T, DECIMALS>);

#[verifier::external_type_specification]
#[verifier::external_body]
#[verifier::reject_recursive_types(T)]
pub struct ExTestPosition<T, const DECIMALS: u8>(TestPosition<T, DECIMALS>);

#[verifier::external_type_specification]
#[verifier::external_body]
pub struct ExInsolventCloseStep(InsolventCloseStep);

#[verifier::external_type_specification]
#[verifier::external_body]
pub struct ExModelError(gmsol_model::Error);

/// The supply of market tokens of a market: the value that the model's
/// `LiquidityMarket::total_supply` reads, which only its `mint` and `burn` change.
pub uninterp spec fn supply_of(market: Market) -> u128;

/// The total time, in seconds, that a market's clock has been moved forward.
pub uninterp spec fn clock_advanced(market: Market) -> nat;

/// The configuration a market was made with; the model only reads it.
pub uninterp spec fn market_config(market: Market) -> MarketConfigView;

/// The parameters of a configuration that the scenarios set.
pub uninterp spec fn config_view(cfg: TestMarketConfig<u128, 20>) -> MarketConfigView;

/// Whether every parameter of a configuration outside `config_view` is the
/// fixture's: the position, position impact, distribution, borrowing, kink,
/// funding, reserve, open interest, ADL and liquidation parameters, and the
/// discount factor of both fee parameters (`None` in the fixture).
pub uninterp spec fn others_as_fixture(cfg: TestMarketConfig<u128, 20>) -> bool;

/// Whether every parameter of a market's configuration outside
/// `market_config` is the fixture's.
pub uninterp spec fn market_others_as_fixture(market: Market) -> bool;

/// Whether a market's borrowing clock has been started: the model starts it
/// at the first borrowing update, and nothing else reads or resets it.
pub uninterp spec fn borrowing_clock_started(market: Market) -> bool;

/// The side and collateral token of a position.
pub uninterp spec fn side_of(position: TestPosition<u128, 20>) -> PositionSide;

/// The size in USD of a position.
pub uninterp spec fn size_in_usd_of(position: TestPosition<u128, 20>) -> u128;

/// The kind of a model error, as `error_kind` tells it.
pub uninterp spec fn error_kind_of(e: gmsol_model::Error) -> ModelErrorKind;

/// The furthest, in seconds, that a market's clock may be moved in all. The
/// model adds the time moved to `Instant::now()` on every read of its clock and
/// panics where the sum cannot be represented; this bound keeps the sum
/// representable on any machine whose monotonic clock reads below
/// `i64::MAX - 2^40` seconds, which the items below take for granted.
pub const CLOCK_LIMIT_SECS: u64 = 1_099_511_627_776;

/// Whether the model accepts a price for every token: `Prices::is_valid` on
/// `Prices::new_for_test(p, p, p)` asks each price to be non-zero and its mid
/// price `(p + p) / 2` to be computable without overflow.
pub open spec fn prices_valid(price: u128) -> bool {
    price > 0 && price + price <= u128::MAX
}

/// An action of the model keeps a market's configuration and clocks.
pub open spec fn same_setup(before: Market, after: Market) -> bool {
    &&& market_config(after) == market_config(before)
    &&& market_others_as_fixture(after) == market_others_as_fixture(before)
    &&& clock_advanced(after) == clock_advanced(before)
    &&& borrowing_clock_started(after) == borrowing_clock_started(before)
}

/// Whether the mid price `(p + p) / 2` of a price can be computed: a deposit
/// takes the mid price with `Price::mid`, which panics where it cannot.
pub open spec fn mid_price_fits(price: u128) -> bool {
    price + price <= u128::MAX
}

/// `Fixed::<u128, 20>::ONE.into_inner()`: the model defines `ONE` as `10^DECIMALS`.
#[verifier::external_body]
pub(crate) fn fixed_one() -> (r: u128)
    ensures
        r == 100_000_000_000_000_000_000,
{
    Fixed::<u128, 20>::ONE.into_inner()
}

/// `TestMarketConfig::<u128, 20>::default()`: the model's fixture configuration.
#[verifier::external_body]
pub(crate) fn default_config() -> (cfg: TestMarketConfig<u128, 20>)
    ensures
        config_view(cfg) == crate::params::fixture_config(),
        others_as_fixture(cfg),
{
    TestMarketConfig::default()
}

/// Sets the `swap_impact_params` field of a configuration to
/// `PriceImpactParams::builder()...build()` of the three factors.
#[verifier::external_body]
pub(crate) fn set_swap_impact_params(cfg: &mut TestMarketConfig<u128, 20>, f: ImpactFactors)
    ensures
        config_view(*final(cfg)) == (MarketConfigView { swap_impact: f, ..config_view(*old(cfg)) }),
        others_as_fixture(*final(cfg)) == others_as_fixture(*old(cfg)),
{
    cfg.swap_impact_params = PriceImpactParams::builder()
        .exponent(f.exponent)
        .positive_factor(f.positive_factor)
        .negative_factor(f.negative_factor)
        .build();
}

/// Sets the `swap_fee_params` field of a configuration to
/// `FeeParams::builder()...build()` of the three factors.
#[verifier::external_body]
pub(crate) fn set_swap_fee_params(cfg: &mut TestMarketConfig<u128, 20>, f: FeeFactors)
    ensures
        config_view(*final(cfg)) == (MarketConfigView { swap_fee: f, ..config_view(*old(cfg)) }),
        others_as_fixture(*final(cfg)) == others_as_fixture(*old(cfg)),
{
    cfg.swap_fee_params = FeeParams::builder()
        .fee_receiver_factor(f.fee_receiver_factor)
        .positive_impact_fee_factor(f.positive_impact_fee_factor)
        .negative_impact_fee_factor(f.negative_impact_fee_factor)
        .build();
}

/// Sets the `order_fee_params` field of a configuration to
/// `FeeParams::builder()...build()` of the three factors.
#[verifier::external_body]
pub(crate) fn set_order_fee_params(cfg: &mut TestMarketConfig<u128, 20>, f: FeeFactors)
    ensures
        config_view(*final(cfg)) == (MarketConfigView { order_fee: f, ..config_view(*old(cfg)) }),
        others_as_fixture(*final(cfg)) == others_as_fixture(*old(cfg)),
{
    cfg.order_fee_params = FeeParams::builder()
        .fee_receiver_factor(f.fee_receiver_factor)
        .positive_impact_fee_factor(f.positive_impact_fee_factor)
        .negative_impact_fee_factor(f.negative_impact_fee_factor)
        .build();
}

/// Sets the `max_pool_value_for_deposit` field of a configuration.
#[verifier::external_body]
pub(crate) fn set_max_pool_value_for_deposit(cfg: &mut TestMarketConfig<u128, 20>, v: u128)
    ensures
        config_view(*final(cfg)) == (MarketConfigView { max_pool_value_for_deposit: v, ..config_view(*old(cfg)) }),
        others_as_fixture(*final(cfg)) == others_as_fixture(*old(cfg)),
{
    cfg.max_pool_value_for_deposit = v;
}

/// Sets the `max_pnl_factors` field of a configuration to a `MaxPnlFactors`
/// with the same four factors.
#[verifier::external_body]
pub(crate) fn set_max_pnl_factors(cfg: &mut TestMarketConfig<u128, 20>, f: PnlFactors)
    ensures
        config_view(*final(cfg)) == (MarketConfigView { max_pnl_factors: f, ..config_view(*old(cfg)) }),
        others_as_fixture(*final(cfg)) == others_as_fixture(*old(cfg)),
{
    cfg.max_pnl_factors = MaxPnlFactors {
        deposit: f.deposit,
        withdrawal: f.withdrawal,
        trader: f.trader,
        adl: f.adl,
    };
}

/// `TestMarket::<u128, 20>::with_config`: a fresh market that keeps `cfg` as its
/// configuration, with no market tokens and its clock not moved.
#[verifier::external_body]
pub(crate) fn new_market(cfg: TestMarketConfig<u128, 20>) -> (m: Market)
    ensures
        market_config(m) == config_view(cfg),
        market_others_as_fixture(m) == others_as_fixture(cfg),
        supply_of(m) == 0,
        clock_advanced(m) == 0,
        !borrowing_clock_started(m),
{
    Market { inner: TestMarket::<u128, 20>::with_config(cfg) }
}

/// `LiquidityMarket::total_supply`.
#[verifier::external_body]
pub(crate) fn total_supply(market: &Market) -> (r: u128)
    ensures
        r == supply_of(*market),
{
    market.inner.total_supply()
}

/// `LiquidityMarketMutExt::deposit` followed by `MarketAction::execute`, every
/// token priced at `price` (`Prices::new_for_test`); gives the report's `minted`.
/// The deposit takes the mid price without checking the prices, so that mid
/// price must fit `u128`; a zero price does not stop it. An empty deposit is refused before anything runs; the
/// model mints the reported amount as the last step of a deposit, so a success
/// raises the supply by exactly that amount and a failure leaves it as it was.
#[verifier::external_body]
pub(crate) fn deposit(market: &mut Market, long_amount: u128, short_amount: u128, price: u128) -> (r: Result<u128, gmsol_model::Error>)
    requires
        mid_price_fits(price),
        clock_advanced(*old(market)) <= CLOCK_LIMIT_SECS,
    ensures
        long_amount == 0 && short_amount == 0 ==> r is Err,
        r matches Ok(minted) ==> supply_of(*final(market)) == supply_of(*old(market)) + minted,
        r is Err ==> supply_of(*final(market)) == supply_of(*old(market)),
        same_setup(*old(market), *final(market)),
{
    let prices = Prices::new_for_test(price, price, price);
    market.inner.deposit(long_amount, short_amount, prices)?.execute().map(|rep| *rep.minted())
}

/// `LiquidityMarketMutExt::withdraw` followed by `MarketAction::execute`, every
/// token priced at `price`; gives the report's long and short token outputs. A
/// withdrawal of zero, or at prices the model does not accept, is refused before
/// anything runs; the model burns the withdrawn market tokens as the last step,
/// so a success lowers the supply by exactly that amount and a failure leaves it
/// as it was.
#[verifier::external_body]
pub(crate) fn withdraw(market: &mut Market, amount: u128, price: u128) -> (r: Result<(u128, u128), gmsol_model::Error>)
    requires
        clock_advanced(*old(market)) <= CLOCK_LIMIT_SECS,
    ensures
        amount == 0 ==> r is Err,
        !prices_valid(price) ==> r is Err,
        r is Ok ==> amount <= supply_of(*old(market)) && supply_of(*final(market)) == supply_of(*old(market)) - amount,
        r is Err ==> supply_of(*final(market)) == supply_of(*old(market)),
        same_setup(*old(market), *final(market)),
{
    let prices = Prices::new_for_test(price, price, price);
    let rep = market.inner.withdraw(amount, prices)?.execute()?;
    Ok((*rep.long_token_output(), *rep.short_token_output()))
}

/// `TestPosition::long`: an empty long position whose collateral is the long
/// token exactly where the flag is set.
#[verifier::external_body]
pub(crate) fn long_position(long_token_as_collateral: bool) -> (p: TestPosition<u128, 20>)
    ensures
        side_of(p) == (PositionSide { is_long: true, long_token_collateral: long_token_as_collateral }),
        size_in_usd_of(p) == 0,
{
    TestPosition::long(long_token_as_collateral)
}

/// `TestPosition::short`: an empty short position whose collateral is the long
/// token exactly where the flag is set.
#[verifier::external_body]
pub(crate) fn short_position(long_token_as_collateral: bool) -> (p: TestPosition<u128, 20>)
    ensures
        side_of(p) == (PositionSide { is_long: false, long_token_collateral: long_token_as_collateral }),
        size_in_usd_of(p) == 0,
{
    TestPosition::short(long_token_as_collateral)
}

/// `TestPosition::ops(..).increase(prices, collateral, size, None)` followed by
/// `MarketAction::execute`, every token priced at `price`. Prices the model does
/// not accept are refused before anything runs. A success grows the position's
/// size by `size_delta_usd`; the side never changes. Opening a position neither
/// mints nor burns market tokens.
#[verifier::external_body]
pub(crate) fn increase_position(position: &mut TestPosition<u128, 20>, market: &mut Market, price: u128, collateral: u128, size_delta_usd: u128) -> (r: Result<(), gmsol_model::Error>)
    requires
        clock_advanced(*old(market)) <= CLOCK_LIMIT_SECS,
    ensures
        !prices_valid(price) ==> r is Err,
        r is Ok ==> size_in_usd_of(*final(position)) == size_in_usd_of(*old(position)) + size_delta_usd,
        side_of(*final(position)) == side_of(*old(position)),
        supply_of(*final(market)) == supply_of(*old(market)),
        same_setup(*old(market), *final(market)),
{
    let prices = Prices::new_for_test(price, price, price);
    position.ops(&mut market.inner).increase(prices, collateral, size_delta_usd, None)?.execute().map(|_| ())
}

/// `TestPosition::ops(..).decrease(prices, size, None, 0, flags)` followed by
/// `MarketAction::execute`, every token priced at `price` and the flags copied
/// field by field; gives the report's outputs, PnL and insolvent step. Prices the
/// model does not accept are refused before anything runs, and so is a size over
/// the position's unless capping is allowed. A success shrinks the position by
/// the (capped) size, or empties it; an insolvent close step is reported only
/// where insolvent closes were allowed. The side never changes, and closing
/// neither mints nor burns market tokens.
#[verifier::external_body]
pub(crate) fn decrease_position(position: &mut TestPosition<u128, 20>, market: &mut Market, price: u128, size_delta_usd: u128, flags: CloseFlags) -> (r: Result<CloseReport, gmsol_model::Error>)
    requires
        clock_advanced(*old(market)) <= CLOCK_LIMIT_SECS,
    ensures
        !prices_valid(price) ==> r is Err,
        size_delta_usd > size_in_usd_of(*old(position)) && !flags.cap_size_delta_usd_allowed ==> r is Err,
        r is Ok ==> size_in_usd_of(*final(position)) == 0 || (size_delta_usd <= size_in_usd_of(*old(position))
            && size_in_usd_of(*final(position)) == size_in_usd_of(*old(position)) - size_delta_usd),
        r matches Ok(rep) ==> (rep.insolvent_close_step is Some ==> flags.insolvent_close_allowed),
        side_of(*final(position)) == side_of(*old(position)),
        supply_of(*final(market)) == supply_of(*old(market)),
        same_setup(*old(market), *final(market)),
{
    let prices = Prices::new_for_test(price, price, price);
    let f = DecreasePositionFlags {
        is_insolvent_close_allowed: flags.insolvent_close_allowed,
        is_liquidation_order: flags.liquidation_order,
        is_cap_size_delta_usd_allowed: flags.cap_size_delta_usd_allowed,
    };
    let rep = position.ops(&mut market.inner).decrease(prices, size_delta_usd, None, 0, f)?.execute()?;
    Ok(CloseReport {
        output_amount: *rep.output_amount(),
        secondary_output_amount: *rep.secondary_output_amount(),
        pnl: *rep.pnl().pnl(),
        uncapped_pnl: *rep.pnl().uncapped_pnl(),
        insolvent_close_step: insolvent_step_of(rep.insolvent_close_step()),
    })
}

/// The model's `InsolventCloseStep`, each variant mapped to the variant of the
/// same name (`Other` for a variant that a later model may add); `None` stays
/// `None`.
#[verifier::external_body]
pub(crate) fn insolvent_step_of(step: Option<InsolventCloseStep>) -> (r: Option<InsolventStep>)
    ensures
        step is Some <==> r is Some,
{
    step.map(|step| match step {
        InsolventCloseStep::Pnl => InsolventStep::Pnl,
        InsolventCloseStep::Fees => InsolventStep::Fees,
        InsolventCloseStep::Funding => InsolventStep::Funding,
        InsolventCloseStep::Impact => InsolventStep::Impact,
        InsolventCloseStep::Diff => InsolventStep::Diff,
        _ => InsolventStep::Other,
    })
}

/// `TestMarket::move_clock_forward(Duration::from_secs(secs))`. Moving the clock
/// neither mints nor burns market tokens, nor touches the configuration.
#[verifier::external_body]
pub(crate) fn move_clock_forward(market: &mut Market, secs: u64)
    requires
        clock_advanced(*old(market)) + secs <= CLOCK_LIMIT_SECS,
    ensures
        clock_advanced(*final(market)) == clock_advanced(*old(market)) + secs,
        market_config(*final(market)) == market_config(*old(market)),
        market_others_as_fixture(*final(market)) == market_others_as_fixture(*old(market)),
        borrowing_clock_started(*final(market)) == borrowing_clock_started(*old(market)),
        supply_of(*final(market)) == supply_of(*old(market)),
{
    market.inner.move_clock_forward(Duration::from_secs(secs))
}

/// `BorrowingFeeMarketMutExt::update_borrowing` followed by `MarketAction::execute`,
/// every token priced at `price`. Prices the model does not accept are refused
/// before anything runs; otherwise the execution starts by reading and
/// resetting the borrowing clock, which starts it. The update neither mints nor
/// burns market tokens.
#[verifier::external_body]
pub(crate) fn update_borrowing(market: &mut Market, price: u128) -> (r: Result<(), gmsol_model::Error>)
    requires
        clock_advanced(*old(market)) <= CLOCK_LIMIT_SECS,
    ensures
        !prices_valid(price) ==> r is Err,
        borrowing_clock_started(*final(market)) == (borrowing_clock_started(*old(market)) || prices_valid(price)),
        supply_of(*final(market)) == supply_of(*old(market)),
        market_config(*final(market)) == market_config(*old(market)),
        market_others_as_fixture(*final(market)) == market_others_as_fixture(*old(market)),
        clock_advanced(*final(market)) == clock_advanced(*old(market)),
{
    let prices = Prices::new_for_test(price, price, price);
    market.inner.update_borrowing(&prices)?.execute().map(|_| ())
}

/// `BorrowingFeeMarketExt::borrowing_factor_per_second`, every token priced at
/// `price`. Nothing is stated of the rate.
#[verifier::external_body]
pub(crate) fn borrowing_factor_per_second(market: &Market, is_long: bool, price: u128) -> Result<u128, gmsol_model::Error>
    requires
        prices_valid(price),
        clock_advanced(*market) <= CLOCK_LIMIT_SECS,
{
    let prices = Prices::new_for_test(price, price, price);
    market.inner.borrowing_factor_per_second(is_long, &prices)
}

/// Tells the variants of the model's `Error` apart that the scenarios care
/// about; every other variant is `Other`.
#[verifier::external_body]
pub(crate) fn error_kind(e: &gmsol_model::Error) -> (r: ModelErrorKind)
    ensures
        r == error_kind_of(*e),
{
    match e {
        gmsol_model::Error::NotLiquidatable => ModelErrorKind::NotLiquidatable,
        gmsol_model::Error::MaxPoolValueExceeded(_) => ModelErrorKind::MaxPoolValueExceeded,
        gmsol_model::Error::EmptyDeposit => ModelErrorKind::EmptyDeposit,
        gmsol_model::Error::EmptyWithdrawal => ModelErrorKind::EmptyWithdrawal,
        _ => ModelErrorKind::Other,
    }
}

} // verus!
