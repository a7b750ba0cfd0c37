use gmsol_harness::error::HarnessError;
use gmsol_harness::position::{close_after_move, round_trip_at_same_price};
use gmsol_harness::sizing::PRICE_UNIT;

#[test]
fn position_round_trip_at_same_price_never_profits() -> Result<(), HarnessError> {
    for is_long in [true, false] {
        for leverage in [1u128, 2, 5, 10] {
            let (collateral_in, out, size, _) = round_trip_at_same_price(is_long, leverage)?;
            let delta = out as i128 - collateral_in as i128;
            let bps = if collateral_in > 0 {
                delta * 10_000 / collateral_in as i128
            } else {
                0
            };
            println!(
                "{:>5} {:>2}x  collateral_in={collateral_in:>14}  out={out:>14}  delta={delta:>14} ({bps} bps)  size_usd={size}",
                if is_long { "long" } else { "short" },
                leverage
            );
            assert!(
                out <= collateral_in,
                "{} {leverage}x: closing at the SAME price returned MORE than the collateral (in={collateral_in}, out={out})",
                if is_long { "long" } else { "short" }
            );
        }
    }
    Ok(())
}

/// A position that moves AGAINST the trader must never return more than its collateral.
#[test]
fn losing_position_never_returns_more_than_collateral() -> Result<(), HarnessError> {
    for (label, is_long, exit) in [
        ("long, price -20%", true, 80_000 * PRICE_UNIT),
        ("short, price +20%", false, 120_000 * PRICE_UNIT),
    ] {
        let o = close_after_move(is_long, exit)?;
        let collateral_amount = o.collateral_amount;
        let out = o.out;
        println!(
            "{label:>20}: collateral_in={collateral_amount:>14} out={out:>14} pnl={:?}",
            o.report.pnl
        );
        assert!(
            out <= collateral_amount,
            "{label}: a LOSING position returned more than its collateral (in={collateral_amount}, out={out})"
        );
    }
    Ok(())
}
