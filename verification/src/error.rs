use crate::model;
use vstd::prelude::*;

verus! {

/// The kinds of model error that the scenarios tell apart.
#[derive(Debug, Clone, Copy, PartialEq, Eq, Structural)]
pub enum ModelErrorKind {
    /// A liquidation was requested for a position that is not liquidatable.
    NotLiquidatable,
    /// A deposit would push the pool value over its deposit ceiling.
    MaxPoolValueExceeded,
    /// A deposit of zero tokens on both sides.
    EmptyDeposit,
    /// A withdrawal of zero market tokens.
    EmptyWithdrawal,
    /// Any other failure of the model.
    Other,
}

/// Why a scenario stopped.
#[derive(Debug)]
pub enum HarnessError {
    /// The market model refused an action with this error.
    Model(gmsol_model::Error),
    /// An amount reported by the model does not fit the arithmetic the scenario does with it.
    ArithmeticOverflow,
}

impl HarnessError {
    /// The error of a refusal by the market model.
    pub fn from_model(e: gmsol_model::Error) -> (r: HarnessError)
        ensures
            r == HarnessError::Model(e),
    {
        HarnessError::Model(e)
    }

    /// The kind of a refusal by the model, or `None` for an arithmetic failure.
    pub fn model_kind(&self) -> (r: Option<ModelErrorKind>)
        ensures
            r == (match self {
                HarnessError::Model(e) => Some(model::error_kind_of(*e)),
                HarnessError::ArithmeticOverflow => None,
            }),
    {
        match self {
            HarnessError::Model(e) => Some(model::error_kind(e)),
            HarnessError::ArithmeticOverflow => None,
        }
    }
}

/// Carries a value of the model through, and hands a refusal of the model on
/// as that refusal.
pub fn lift<T>(r: Result<T, gmsol_model::Error>) -> (out: Result<T, HarnessError>)
    ensures
        r is Ok <==> out is Ok,
        r matches Ok(v) ==> out == Ok::<T, HarnessError>(v),
        r matches Err(e) ==> out == Err::<T, HarnessError>(HarnessError::Model(e)),
{
    match r {
        Ok(v) => Ok(v),
        Err(e) => Err(HarnessError::from_model(e)),
    }
}

} // verus!
