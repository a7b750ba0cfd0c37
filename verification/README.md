# gmsol_harness

Scenarios that put the gmsol market model (`gmsol-model`, `TestMarket<u128, 20>`)
through its paces on the deployed market parameters, and weigh what comes back:

- `liquidity`: deposit -> withdraw round trips measured in value, and the
  liveness probe an existing LP runs after every deposit attempt;
- `position`: open a position, move the price (or not), close it;
- `time_fees`: hold a position for a while, with and without the keeper's
  borrowing update, and churn instead of holding;
- `liquidation`: liquidation orders, insolvent closes and capped PnL.

`params`, `sizing` and `measure` hold the deployed constants, the sizing of
every scenario and the arithmetic that compares input with output; all of it is
verified with Verus. `model` holds the trusted items through which the library
calls the model; their contracts say what the model's source shows (for example,
that a deposit mints exactly the reported amount of market tokens).

The scenarios' expectations of the model itself (a round trip never gains, a
losing position never pays more than its collateral, ...) are the tests under
`tests/`. One expectation is deliberately absent: that a year's hold costs
more than closing at once when no keeper refreshes the borrowing state. The
model starts each of its clocks at the first read, so without the keeper's
update before the opening order no borrowing fee accrues however long the
position is held; `tests/time_fees.rs` expects accrual with that update.
