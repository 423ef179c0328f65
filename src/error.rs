use vstd::prelude::*;

verus! {

/// Why the funds attached to a call were not accepted.
#[derive(Clone, Debug, PartialEq, Eq)]
pub enum PaymentRejection {
    /// One coin came, but not of this denomination.
    MissingDenom { denom: String },
    /// A coin of this denomination came where another was asked for.
    ExtraDenom { denom: String },
    /// More than one coin came.
    MultipleDenoms,
    /// No coin came, or one with amount zero.
    NoFunds,
    /// Funds came with a call that takes none.
    NonPayable,
}

/// The ways a call can fail; each leaves the tally as it was.
#[derive(Clone, Debug, PartialEq, Eq)]
pub enum ContractError {
    /// The attached funds do not fit the operation.
    PaymentRejected { reason: PaymentRejection },
    /// The message names no operation of this component.
    UnrecognizedOperation { tag: String },
    /// The issuance authority refused to burn `denom` on this component's authority.
    IssuanceAuthorityDenied { denom: String },
    /// The tally of a denomination would pass the largest amount it can hold.
    ArithmeticOverflow,
    /// A message or a result could not be (de)serialized.
    SerializationError { message: String },
}

} // verus!
