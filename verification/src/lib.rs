//! Scenario harness for the gmsol market model on its deployed parameters:
//! value conservation on the liquidity and position paths, time-dependent
//! fees, liquidation and the cap on trader PnL. The sizing and weighing of each
//! scenario is verified; the calls into the model stand behind the trusted
//! items of `model`.

pub mod error;
pub mod liquidation;
pub mod liquidity;
pub mod market;
pub mod measure;
pub mod model;
pub mod outcome;
pub mod params;
pub mod position;
pub mod sizing;
pub mod time_fees;
