use vstd::prelude::*;
use crate::coin::Coin;
use crate::parser::VerificationOutcome;
use crate::state::Config;

verus! {

/// The prices the registry is created with.
#[derive(Debug)]
pub struct InstantiateMsg {
    pub set_zkeys_price: Option<Coin>,
    pub publish_proof_price: Option<Coin>,
}

/// Who makes a call and what funds come with it.
#[derive(Debug)]
pub struct MessageInfo {
    pub sender: String,
    pub funds: Vec<Coin>,
}

/// The operations that change the registry.
#[derive(Debug)]
pub enum ExecuteMsg {
    /// Publish the caller's challenge.
    Zkeys { public_signal: String, vk_alpha1: u128, vk_beta_1: u128, vk_gamma_1: u128 },
    /// Submit a proof against an issuer's challenge.
    Proof { difficuty_issuer: String, proof_a: u128 },
}

/// What the environment and the pairing verifier found of a submitted proof:
/// whether the issuer identity is well formed, and the verifier's outcome
/// on the issuer's stored challenge.
#[derive(Debug, Clone, Copy, PartialEq, Eq, Structural)]
pub struct ProofCheck {
    pub issuer_is_valid: bool,
    pub outcome: VerificationOutcome,
}

/// The read-only queries.
#[derive(Debug)]
pub enum QueryMsg {
    Config {},
    IssuerZkeys { address: String },
    ProofResult { issuer_address: String, prover_address: String },
}

#[derive(Debug, PartialEq, Eq)]
pub struct ConfigResponse {
    pub zkeys_price: Option<Coin>,
    pub proof_price: Option<Coin>,
}

impl From<Config> for ConfigResponse {
    fn from(config: Config) -> ConfigResponse {
        ConfigResponse { zkeys_price: config.zkeys_price, proof_price: config.proof_price }
    }
}

impl vstd::std_specs::convert::FromSpecImpl<Config> for ConfigResponse {
    open spec fn obeys_from_spec() -> bool {
        true
    }

    open spec fn from_spec(config: Config) -> ConfigResponse {
        ConfigResponse { zkeys_price: config.zkeys_price, proof_price: config.proof_price }
    }
}

#[derive(Debug, Clone, Copy, PartialEq, Eq, Structural)]
pub struct ProofResponse {
    pub proof_a: u128,
    pub is_valid: bool,
}

#[derive(Debug, PartialEq, Eq)]
pub struct ZkeysResponse {
    pub public_signal: String,
    pub vk_alpha1: u128,
    pub vk_beta_1: u128,
    pub vk_gamma_1: u128,
}

/// The answer to a [`QueryMsg`], one variant for each query.
#[derive(Debug)]
pub enum QueryResponse {
    Config(ConfigResponse),
    IssuerZkeys(ZkeysResponse),
    ProofResult(ProofResponse),
}

} // verus!
