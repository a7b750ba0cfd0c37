use vstd::prelude::*;

verus! {

/// The flags with which a position is closed.
#[derive(Debug, Clone, Copy, PartialEq, Eq, Structural)]
pub struct CloseFlags {
    /// The close may leave a shortfall that the pool absorbs.
    pub insolvent_close_allowed: bool,
    /// The close is a liquidation order.
    pub liquidation_order: bool,
    /// The size to close may be capped at the position's size.
    pub cap_size_delta_usd_allowed: bool,
}

impl CloseFlags {
    /// The flags of an ordinary close: every flag off.
    pub fn ordinary() -> (f: CloseFlags)
        ensures
            !f.insolvent_close_allowed,
            !f.liquidation_order,
            !f.cap_size_delta_usd_allowed,
    {
        CloseFlags {
            insolvent_close_allowed: false,
            liquidation_order: false,
            cap_size_delta_usd_allowed: false,
        }
    }
}

/// The step of an insolvent close at which the collateral ran out.
#[derive(Debug, Clone, Copy, PartialEq, Eq, Structural)]
pub enum InsolventStep {
    Pnl,
    Fees,
    Funding,
    Impact,
    Diff,
    /// A step that this library does not know by name.
    Other,
}

/// What closing a position paid out, as plain values.
#[derive(Debug, Clone, Copy)]
pub struct CloseReport {
    /// Amount of the output token paid to the trader.
    pub output_amount: u128,
    /// Amount of the secondary output token paid to the trader.
    pub secondary_output_amount: u128,
    /// Realised PnL after capping.
    pub pnl: i128,
    /// PnL before capping.
    pub uncapped_pnl: i128,
    /// Where an insolvent close ran out of collateral, if it did.
    pub insolvent_close_step: Option<InsolventStep>,
}

} // verus!

verus! {

/// Which side a position is on, and which token is its collateral.
#[derive(Debug, Clone, Copy, PartialEq, Eq, Structural)]
pub struct PositionSide {
    pub is_long: bool,
    pub long_token_collateral: bool,
}

} // verus!
