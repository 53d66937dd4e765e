use vstd::prelude::*;
use crate::error::ContractError;
use crate::state::{ProofStr, VkeyStr};

verus! {

/// A proof in the form that the pairing verifier takes.
#[derive(Debug, Clone, Copy, PartialEq, Eq, Structural)]
pub struct Proof {
    pub a: u128,
}

/// A verifying key in the form that the pairing verifier takes.
#[derive(Debug, Clone, Copy, PartialEq, Eq, Structural)]
pub struct VerifyingKey {
    pub alpha_g1: u128,
    pub beta_g1: u128,
    pub gamma_g1: u128,
}

/// What the pairing verifier concluded of a proof against a verifying key.
#[derive(Debug, Clone, Copy, PartialEq, Eq, Structural)]
pub enum VerificationOutcome {
    /// The pairing equation holds.
    Valid,
    /// The points are well formed and the pairing equation fails.
    Invalid,
    /// A scalar is not a point of its curve group.
    Malformed,
}

/// Converts a stored proof into the verifier's input.
pub fn parse_proof(pof: ProofStr) -> (r: Result<Proof, ContractError>)
    ensures
        r == Ok::<Proof, ContractError>(Proof { a: pof.pi_a }),
{
    let pi_a = pof.pi_a;
    Ok(Proof { a: pi_a })
}

/// Converts a stored verifying key into the verifier's input.
pub fn parse_vkey(vk: VkeyStr) -> (r: Result<VerifyingKey, ContractError>)
    ensures
        r == Ok::<VerifyingKey, ContractError>(
            VerifyingKey { alpha_g1: vk.alpha_1, beta_g1: vk.beta_1, gamma_g1: vk.gamma_1 },
        ),
{
    let vk_alpha_1 = vk.alpha_1;
    let vk_beta_1 = vk.beta_1;
    let vk_gamma_1 = vk.gamma_1;
    Ok(VerifyingKey { alpha_g1: vk_alpha_1, beta_g1: vk_beta_1, gamma_g1: vk_gamma_1 })
}

} // verus!
