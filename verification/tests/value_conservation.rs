use gmsol_harness::error::HarnessError;
use gmsol_harness::liquidity::{self, DepositAttempt, PRICE, SEED_AMOUNT};
use gmsol_harness::measure::{delta_bps, signed_difference};

#[test]
fn round_trip_conserves_value_on_deployed_params() -> Result<(), HarnessError> {
    let mut market = liquidity::deployed();
    // seed: 2e13 tokens each side -> 4e26 value each, under the 1.75e27 ceiling
    liquidity::deposit(&mut market, SEED_AMOUNT, SEED_AMOUNT, PRICE)?;
    assert_eq!(SEED_AMOUNT, 20_000_000_000_000);
    assert_eq!(PRICE, 20_000_000_000_000);

    for amount in [1u128, 1_000_000, 1_000_000_000, 1_000_000_000_000] {
        let t = liquidity::round_trip(&mut market, amount, PRICE)?;
        let delta = signed_difference(t.out_value, t.in_value).unwrap();
        let bps = delta_bps(delta, t.in_value).unwrap();
        println!(
            "deposit={amount:>16} minted={:>22} delta_value={delta:>24} ({bps} bps)",
            t.minted
        );
        assert!(
            t.out_value <= t.in_value,
            "value extracted: in={} out={} minted={}",
            t.in_value,
            t.out_value,
            t.minted
        );
    }
    Ok(())
}

/// Liveness: after every deposit attempt (accepted or rejected), an existing LP must still be able
/// to withdraw.
#[test]
fn no_deposit_wedges_existing_lp_withdrawals() -> Result<(), HarnessError> {
    let mut market = liquidity::deployed();
    liquidity::deposit(&mut market, 20_000_000_000_000, 20_000_000_000_000, PRICE)?;
    let lp_tokens = liquidity::total_supply(&market);
    println!("honest LP holds {lp_tokens} market tokens");

    let mut accepted = 0usize;
    let mut rejected = 0usize;
    let mut first_error: Option<String> = None;

    for exp in 0..24u32 {
        let amount = 10u128.saturating_pow(exp);
        match liquidity::attempt_deposit(&mut market, amount, PRICE)? {
            DepositAttempt::Accepted { .. } => accepted += 1,
            DepositAttempt::Rejected(e) => {
                rejected += 1;
                if first_error.is_none() {
                    let msg = format!("{e:?}");
                    println!("first rejected deposit: 10^{exp} tokens -> {msg}");
                    first_error = Some(msg);
                }
            }
        }

        let res = liquidity::probe_withdrawal(&mut market, PRICE);
        assert!(
            res.is_ok(),
            "after a deposit attempt of 10^{exp} tokens the honest LP can NO LONGER withdraw: {:?}",
            res.err()
        );
    }

    println!("deposit attempts: {accepted} accepted, {rejected} rejected; withdrawals stayed live throughout");
    Ok(())
}
