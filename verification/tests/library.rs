use gmsol_harness::error::{HarnessError, ModelErrorKind};
use gmsol_harness::liquidation::{deployed_with, liquidation_flags};
use gmsol_harness::liquidity::{self, DepositAttempt, PRICE, SEED_AMOUNT};
use gmsol_harness::measure::{delta_bps, is_nonincreasing, signed_difference, total_cost};
use gmsol_harness::outcome::{CloseFlags, CloseReport};
use gmsol_harness::params::{liquidity_params, perp_params, PnlFactors};
use gmsol_harness::position::{close_after_move, total_output};
use gmsol_harness::sizing::{position_sizing, unit, ENTRY_PRICE, PRICE_UNIT};

fn report(output_amount: u128, secondary_output_amount: u128) -> CloseReport {
    CloseReport {
        output_amount,
        secondary_output_amount,
        pnl: 0,
        uncapped_pnl: 0,
        insolvent_close_step: None,
    }
}

#[test]
fn unit_is_ten_to_the_twentieth() {
    assert_eq!(unit(), 100_000_000_000_000_000_000);
}

#[test]
fn deployed_params_are_the_deployed_constants() {
    let l = liquidity_params();
    assert_eq!(l.swap_impact.exponent, 200_000_000_000_000_000_000);
    assert_eq!(l.swap_impact.positive_factor, 175_000_000_000);
    assert_eq!(l.swap_impact.negative_factor, 350_000_000_000);
    assert_eq!(l.swap_fee.fee_receiver_factor, 70_000_000_000_000_000_000);
    assert_eq!(l.swap_fee.positive_impact_fee_factor, 50_000_000_000_000_000);
    assert_eq!(l.swap_fee.negative_impact_fee_factor, 70_000_000_000_000_000);
    assert_eq!(l.max_pool_value_for_deposit, Some(1_750_000_000_000_000_000_000_000_000));
    assert!(l.order_fee.is_none());
    assert!(l.max_pnl_factors.is_none());

    let p = perp_params(None);
    let order = p.order_fee.unwrap();
    assert_eq!(order.fee_receiver_factor, p.swap_fee.fee_receiver_factor);
    assert_eq!(order.positive_impact_fee_factor, p.swap_fee.positive_impact_fee_factor);
    assert_eq!(order.negative_impact_fee_factor, p.swap_fee.negative_impact_fee_factor);
    assert_eq!(p.swap_impact.positive_factor, l.swap_impact.positive_factor);
    assert!(p.max_pool_value_for_deposit.is_none());

    let capped = perp_params(Some(PnlFactors { deposit: 1, withdrawal: 2, trader: 3, adl: 4 }));
    assert_eq!(capped.max_pnl_factors.unwrap().trader, 3);
}

#[test]
fn close_flags() {
    let f = liquidation_flags();
    assert!(f.insolvent_close_allowed && f.liquidation_order && f.cap_size_delta_usd_allowed);
    let o = CloseFlags::ordinary();
    assert!(!o.insolvent_close_allowed && !o.liquidation_order && !o.cap_size_delta_usd_allowed);
}

#[test]
fn sizing_at_the_entry_price() {
    assert_eq!(ENTRY_PRICE, 100_000 * PRICE_UNIT);
    let s = position_sizing(ENTRY_PRICE, 100_000, 5);
    assert_eq!(s.liquidity_amount, 100_000_000_000);
    assert_eq!(s.collateral_value, 100_000_000_000_000_000_000_000);
    assert_eq!(s.collateral_amount, 1_000_000_000);
    assert_eq!(s.size_delta_usd, 500_000_000_000_000_000_000_000);
    // collateral rounds down to whole tokens
    let r = position_sizing(3, 1, 1);
    assert_eq!(r.collateral_amount, 100_000_000_000_000_000_000_000 / 3);
    assert!(r.collateral_amount * 3 <= r.collateral_value);
}

#[test]
fn signed_differences() {
    assert_eq!(signed_difference(5, 7), Some(-2));
    assert_eq!(signed_difference(7, 5), Some(2));
    assert_eq!(signed_difference(u128::MAX, 0), None);
    assert_eq!(signed_difference(0, i128::MAX as u128 + 1), None);
}

#[test]
fn basis_points_round_toward_zero() {
    assert_eq!(delta_bps(-5, 10_000), Some(-5));
    assert_eq!(delta_bps(-5, 3), Some(-16_666));
    assert_eq!(delta_bps(5, 3), Some(16_666));
    assert_eq!(delta_bps(i128::MAX, 0), Some(0));
    assert_eq!(delta_bps(i128::MAX, 1), None);
    assert_eq!(delta_bps(1, u128::MAX), None);
    // a loss never reads as a gain
    assert!(delta_bps(-1, 1_000_000).unwrap() <= 0);
}

#[test]
fn nonincreasing_sequences() {
    assert!(is_nonincreasing(&vec![]));
    assert!(is_nonincreasing(&vec![5, 5, 3, 0]));
    assert!(!is_nonincreasing(&vec![5, 3, 4]));
}

#[test]
fn total_cost_of_rounds() {
    assert_eq!(total_cost(10, &vec![7, 12, 10]), Some(1));
    assert_eq!(total_cost(10, &vec![]), Some(0));
    assert_eq!(total_cost(u128::MAX, &vec![1]), None);
    assert_eq!(total_cost(i128::MAX as u128, &vec![0, 0]), None);
}

#[test]
fn outputs_add_up() {
    assert_eq!(total_output(&report(3, 4)), Some(7));
    assert_eq!(total_output(&report(u128::MAX, 1)), None);
}

#[test]
fn round_trip_values_are_measured_in_value() {
    let t = liquidity::measure_round_trip(4, 9, 1, 2, 10).unwrap();
    assert_eq!((t.in_value, t.out_value, t.minted), (40, 30, 9));
    assert!(matches!(
        liquidity::measure_round_trip(0, 0, u128::MAX, 1, 0),
        Err(HarnessError::ArithmeticOverflow)
    ));
}

#[test]
fn empty_deposits_and_withdrawals_are_refused() {
    let mut market = liquidity::deployed();
    assert_eq!(liquidity::total_supply(&market), 0);
    let e = liquidity::deposit(&mut market, 0, 0, PRICE).unwrap_err();
    assert_eq!(e.model_kind(), Some(ModelErrorKind::EmptyDeposit));
    let e = liquidity::withdraw(&mut market, 0, PRICE).unwrap_err();
    assert_eq!(e.model_kind(), Some(ModelErrorKind::EmptyWithdrawal));
    assert!(matches!(
        liquidity::attempt_deposit(&mut market, 0, PRICE),
        Ok(DepositAttempt::Rejected(_))
    ));
    assert_eq!(liquidity::total_supply(&market), 0);
}

#[test]
fn deposits_mint_and_round_trips_restore_the_supply() -> Result<(), HarnessError> {
    let mut market = liquidity::deployed();
    let minted = liquidity::deposit(&mut market, SEED_AMOUNT, SEED_AMOUNT, PRICE)?;
    assert!(minted > 0);
    assert_eq!(liquidity::total_supply(&market), minted);
    let t = liquidity::round_trip(&mut market, 1_000_000, PRICE)?;
    assert!(t.minted > 0);
    assert_eq!(t.in_value, 1_000_000 * PRICE);
    assert_eq!(liquidity::total_supply(&market), minted);
    assert!(matches!(
        liquidity::attempt_deposit(&mut market, 1_000, PRICE)?,
        DepositAttempt::Accepted { .. }
    ));
    assert_eq!(liquidity::total_supply(&market), minted);
    let probe = liquidity::probe_withdrawal(&mut market, PRICE)?.unwrap();
    assert_eq!(probe.0, minted / 1_000);
    Ok(())
}

#[test]
fn deposits_over_the_ceiling_are_refused() -> Result<(), HarnessError> {
    let mut market = liquidity::deployed();
    liquidity::deposit(&mut market, SEED_AMOUNT, SEED_AMOUNT, PRICE)?;
    match liquidity::attempt_deposit(&mut market, 100_000_000_000_000, PRICE)? {
        DepositAttempt::Rejected(e) => {
            assert_eq!(e.model_kind(), Some(ModelErrorKind::MaxPoolValueExceeded))
        }
        DepositAttempt::Accepted { .. } => panic!("a deposit over the ceiling was accepted"),
    }
    Ok(())
}

#[test]
fn a_new_market_for_positions_has_no_market_tokens() {
    let market = deployed_with(None);
    assert_eq!(liquidity::total_supply(&market), 0);
}

#[test]
fn the_side_is_the_direction_not_the_collateral_flag() -> Result<(), HarnessError> {
    // A long gains when the price rises; a short gains when it falls.
    let long = close_after_move(true, 120_000 * PRICE_UNIT)?;
    assert!(long.report.pnl > 0);
    let short = close_after_move(false, 80_000 * PRICE_UNIT)?;
    assert!(short.report.pnl > 0);
    Ok(())
}

#[test]
fn prices_the_model_does_not_accept_are_refused() -> Result<(), HarnessError> {
    assert!(close_after_move(true, 0).is_err());
    assert!(close_after_move(false, u128::MAX).is_err());
    let mut market = liquidity::deployed();
    let minted = liquidity::deposit(&mut market, SEED_AMOUNT, SEED_AMOUNT, PRICE)?;
    assert!(liquidity::withdraw(&mut market, 1, 0).is_err());
    assert!(liquidity::withdraw(&mut market, 1, u128::MAX).is_err());
    assert_eq!(liquidity::total_supply(&market), minted);
    Ok(())
}

#[test]
fn only_an_allowed_insolvent_close_reports_a_step() -> Result<(), HarnessError> {
    let o = close_after_move(true, 80_000 * PRICE_UNIT)?;
    assert!(o.report.insolvent_close_step.is_none());
    Ok(())
}
