use gmsol_harness::error::HarnessError;
use gmsol_harness::measure::{is_nonincreasing, total_cost};
use gmsol_harness::sizing::DAY;
use gmsol_harness::time_fees::{churn, hold_and_close, hold_and_close_inner};

#[test]
fn accrual_is_monotonic_in_time() -> Result<(), HarnessError> {
    let mut prev: Option<(u64, u128)> = None;
    let mut outs = Vec::new();
    for days in [0u64, 1, 7, 30, 365] {
        let (collateral, out, rate, _) = hold_and_close(days * DAY, 100_000)?;
        let cost = collateral as i128 - out as i128;
        println!("hold {days:>4}d: out={out} cost={cost} rate_per_sec={rate}");
        if let Some((prev_days, prev_out)) = prev {
            assert!(
                out <= prev_out,
                "holding {days}d returned MORE than holding {prev_days}d ({out} > {prev_out})"
            );
        }
        prev = Some((days, out));
        outs.push(out);
    }
    assert!(is_nonincreasing(&outs));
    Ok(())
}

// Holding without the keeper's borrowing update accrues no borrowing fee on
// the model: its clocks start at the first read, so the single read at close
// time sees no time pass. No test here expects accrual without the update; the
// last test below expects it with the update.

#[test]
fn churning_is_not_cheaper_than_holding() -> Result<(), HarnessError> {
    let (collateral, out_hold, _, _) = hold_and_close(360 * DAY, 100_000)?;
    let cost_hold = collateral as i128 - out_hold as i128;

    let c = churn(12, 30 * DAY, 100_000)?;
    assert_eq!(c.outs.len(), 12);
    let cost_churn = total_cost(c.collateral_amount, &c.outs).unwrap();

    println!("continuous 360d cost={cost_hold}   12x30d churn cost={cost_churn}");
    assert!(
        cost_churn >= cost_hold,
        "churning 12x30d cost LESS than holding 360d ({cost_churn} < {cost_hold})"
    );
    Ok(())
}

#[test]
fn borrowing_accrues_when_the_keeper_update_runs() -> Result<(), HarnessError> {
    for pool in [1_000_000u128, 100_000, 20_000] {
        let (_, out_instant, rate, _) = hold_and_close_inner(0, pool, true)?;
        let (_, out_year, _, _) = hold_and_close_inner(365 * DAY, pool, true)?;
        let extra = out_instant as i128 - out_year as i128;
        println!(
            "WITH keeper update  pool={pool:>9}u: rate_per_sec={rate:>22} extra_cost_of_1y_hold={extra}"
        );
        assert!(
            extra > 0,
            "even WITH the keeper's borrowing update, a one-year hold cost nothing extra at pool={pool}"
        );
    }
    Ok(())
}
