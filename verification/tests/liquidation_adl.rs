use gmsol_harness::error::{HarnessError, ModelErrorKind};
use gmsol_harness::liquidation::{liquidation_flags, open_move_close};
use gmsol_harness::outcome::CloseFlags;
use gmsol_harness::params::PnlFactors;
use gmsol_harness::sizing::{unit, PRICE_UNIT};

#[test]
fn liquidation_never_pays_more_than_collateral() -> Result<(), HarnessError> {
    // 10x long, price -15% => loss ~1.5x collateral => deeply underwater.
    let exit = 85_000 * PRICE_UNIT;
    let (collateral, out, pnl, _unc, step, _) =
        open_move_close(10, exit, liquidation_flags(), None, 10_000_000)?;
    println!("liquidation 10x @ -15%: collateral={collateral} out={out} pnl={pnl} insolvent_step={step:?}");
    assert!(
        out <= collateral,
        "liquidation paid MORE than the collateral (collateral={collateral}, out={out})"
    );
    Ok(())
}

#[test]
fn insolvent_close_pays_the_trader_nothing() -> Result<(), HarnessError> {
    // 20x long, price -20% => loss ~4x collateral => far past insolvency.
    let exit = 80_000 * PRICE_UNIT;
    let (collateral, out, pnl, _unc, step, _) =
        open_move_close(20, exit, liquidation_flags(), None, 10_000_000)?;
    println!("insolvent 20x @ -20%: collateral={collateral} out={out} pnl={pnl} insolvent_step={step:?}");
    assert_eq!(
        out, 0,
        "an INSOLVENT close paid the trader {out} (collateral={collateral})"
    );
    Ok(())
}

#[test]
fn a_healthy_position_cannot_be_liquidated() -> Result<(), HarnessError> {
    // 5x long, price -5% => down 25% of collateral but still solvent.
    let exit = 95_000 * PRICE_UNIT;
    let err = open_move_close(5, exit, liquidation_flags(), None, 10_000_000).err();
    println!("liquidating a healthy 5x @ -5% position -> {err:?}");
    assert!(
        matches!(
            err.as_ref().and_then(|e| e.model_kind()),
            Some(ModelErrorKind::NotLiquidatable)
        ),
        "a SOLVENT position was liquidatable (got {err:?})"
    );
    Ok(())
}

#[test]
fn profit_is_actually_capped() -> Result<(), HarnessError> {
    let unit = unit();
    // Cap trader PnL hard, then make a very profitable move.
    let capped = PnlFactors {
        deposit: 60 * unit / 100,
        withdrawal: 60 * unit / 100,
        trader: unit / 100, // 1%
        adl: 70 * unit / 100,
    };
    let exit = 200_000 * PRICE_UNIT; // +100%
    let (collateral, out, pnl, uncapped, _step, _) =
        open_move_close(5, exit, CloseFlags::ordinary(), Some(capped), 100_000)?;
    println!("capped 5x @ +100%: collateral={collateral} out={out} pnl={pnl} uncapped={uncapped}");
    assert!(
        pnl < uncapped,
        "PnL was NOT capped (pnl={pnl}, uncapped={uncapped})"
    );
    Ok(())
}
