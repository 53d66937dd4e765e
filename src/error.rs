use vstd::prelude::*;

verus! {

/// Why an operation of the registry was refused. Every error aborts the whole
/// call: nothing it would have written is stored.
#[derive(Debug, PartialEq, Eq)]
pub enum ContractError {
    /// The attached funds do not cover the configured price.
    InsufficientFundsSend {},
    /// A proof names an issuer that has published no challenge.
    NonPublishDifficulty { difficuty_issuer: String },
    /// The pairing check rejected the proof.
    InvalidProof {},
    /// A stored or submitted value is not a point of its curve group.
    MalformedCurvePoint {},
    /// The environment refused an identity string.
    InvalidAddress { address: String },
    /// A query asked for a record that was never stored.
    NotFound {},
}

} // verus!
