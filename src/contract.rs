use vstd::prelude::*;
use crate::coin::{assert_sent_sufficient_coin, duplicate_price, funds_cover, Coin};
use crate::error::ContractError;
use crate::msg::{
    ConfigResponse, ExecuteMsg, InstantiateMsg, MessageInfo, ProofCheck, ProofResponse, QueryMsg,
    QueryResponse, ZkeysResponse,
};
use crate::parser::{parse_proof, parse_vkey, Proof, VerificationOutcome, VerifyingKey};
use crate::state::{lookup, Config, ProofInfo, ProofStr, Registry, VkeyStr, ZkeysStr};

verus! {

/// What publishing challenge `z` leads to: the challenge to store, or the error.
pub open spec fn set_zkeys_result(config: Config, funds: Seq<Coin>, z: ZkeysStr) -> Result<
    ZkeysStr,
    ContractError,
> {
    if funds_cover(funds, config.zkeys_price) {
        Ok(z)
    } else {
        Err(ContractError::InsufficientFundsSend {  })
    }
}

/// What submitting proof `proof_a` against `issuer` leads to: the verdict to
/// record, or the error. The issuer identity is checked first, then the fee,
/// then that the issuer has a challenge, then the verifier's outcome.
pub open spec fn publish_proof_result(
    config: Config,
    funds: Seq<Coin>,
    issuer: String,
    check: ProofCheck,
    published: bool,
    proof_a: u128,
) -> Result<ProofInfo, ContractError> {
    if !check.issuer_is_valid {
        Err(ContractError::InvalidAddress { address: issuer })
    } else if !funds_cover(funds, config.proof_price) {
        Err(ContractError::InsufficientFundsSend {  })
    } else if !published {
        Err(ContractError::NonPublishDifficulty { difficuty_issuer: issuer })
    } else {
        match check.outcome {
            VerificationOutcome::Valid => Ok(ProofInfo { proof: ProofStr { pi_a: proof_a }, is_valid: true }),
            VerificationOutcome::Invalid => Err(ContractError::InvalidProof {  }),
            VerificationOutcome::Malformed => Err(ContractError::MalformedCurvePoint {  }),
        }
    }
}

/// `post` is the registry after publishing challenge `z` on `pre`, with result `r`.
pub open spec fn set_zkeys_done(
    pre: Registry,
    post: Registry,
    info: MessageInfo,
    z: ZkeysStr,
    r: Result<(), ContractError>,
) -> bool {
    &&& post.wf()
    &&& post.config_view() == pre.config_view()
    &&& post.latest_verdicts() == pre.latest_verdicts()
    &&& post.verdicts() == pre.verdicts()
    &&& match set_zkeys_result(pre.config_view(), info.funds@, z) {
        Ok(z) => r is Ok && post.challenges() == pre.challenges().insert(info.sender@, z),
        Err(e) => r == Err::<(), ContractError>(e) && post.challenges() == pre.challenges(),
    }
}

/// `post` is the registry after submitting proof `proof_a` against `issuer`
/// on `pre`, with result `r`.
pub open spec fn publish_proof_done(
    pre: Registry,
    post: Registry,
    info: MessageInfo,
    issuer: String,
    check: ProofCheck,
    proof_a: u128,
    r: Result<(), ContractError>,
) -> bool {
    &&& post.wf()
    &&& post.config_view() == pre.config_view()
    &&& post.challenges() == pre.challenges()
    &&& match publish_proof_result(
        pre.config_view(),
        info.funds@,
        issuer,
        check,
        pre.challenges().contains_key(issuer@),
        proof_a,
    ) {
        Ok(p) => {
            &&& r is Ok
            &&& post.latest_verdicts() == pre.latest_verdicts().insert(info.sender@, p)
            &&& post.verdicts() == pre.verdicts().insert((issuer@, info.sender@), p)
        },
        Err(e) => {
            &&& r == Err::<(), ContractError>(e)
            &&& post.latest_verdicts() == pre.latest_verdicts()
            &&& post.verdicts() == pre.verdicts()
        },
    }
}

/// Creates the registry with the prices of `msg` and nothing stored.
pub fn instantiate(msg: InstantiateMsg) -> (r: Registry)
    ensures
        r.wf(),
        r.config_view() == (Config {
            zkeys_price: msg.set_zkeys_price,
            proof_price: msg.publish_proof_price,
        }),
        r.challenges() == Map::<Seq<char>, ZkeysStr>::empty(),
        r.latest_verdicts() == Map::<Seq<char>, ProofInfo>::empty(),
        r.verdicts() == Map::<(Seq<char>, Seq<char>), ProofInfo>::empty(),
{
    let config = Config { zkeys_price: msg.set_zkeys_price, proof_price: msg.publish_proof_price };
    Registry::new(config)
}

/// Checks the publishing fee and builds the challenge to store.
pub fn decide_set_zkeys(
    config: &Config,
    info: &MessageInfo,
    public_signal: String,
    vk_alpha1: u128,
    vk_beta_1: u128,
    vk_gamma_1: u128,
) -> (r: Result<ZkeysStr, ContractError>)
    ensures
        r == set_zkeys_result(
            *config,
            info.funds@,
            ZkeysStr {
                vkeys: VkeyStr { alpha_1: vk_alpha1, beta_1: vk_beta_1, gamma_1: vk_gamma_1 },
                public_signal,
            },
        ),
{
    match assert_sent_sufficient_coin(&info.funds, &config.zkeys_price) {
        Ok(()) => {},
        Err(e) => {
            return Err(e);
        },
    }
    let vkeys = VkeyStr { alpha_1: vk_alpha1, beta_1: vk_beta_1, gamma_1: vk_gamma_1 };
    Ok(ZkeysStr { vkeys, public_signal })
}

/// Decides a proof submission: the verdict to record, or the error.
/// `published` tells whether the issuer has a challenge stored.
pub fn decide_publish_proof(
    config: &Config,
    info: &MessageInfo,
    difficuty_issuer: String,
    check: ProofCheck,
    published: bool,
    proof_a: u128,
) -> (r: Result<ProofInfo, ContractError>)
    ensures
        r == publish_proof_result(*config, info.funds@, difficuty_issuer, check, published, proof_a),
{
    if !check.issuer_is_valid {
        return Err(ContractError::InvalidAddress { address: difficuty_issuer });
    }
    match assert_sent_sufficient_coin(&info.funds, &config.proof_price) {
        Ok(()) => {},
        Err(e) => {
            return Err(e);
        },
    }
    if !published {
        return Err(ContractError::NonPublishDifficulty { difficuty_issuer });
    }
    match check.outcome {
        VerificationOutcome::Valid => Ok(ProofInfo { proof: ProofStr { pi_a: proof_a }, is_valid: true }),
        VerificationOutcome::Invalid => Err(ContractError::InvalidProof {  }),
        VerificationOutcome::Malformed => Err(ContractError::MalformedCurvePoint {  }),
    }
}

/// Publishes the caller's challenge, replacing any earlier one, once the
/// publishing fee is met.
pub fn execute_set_zkeys(
    deps: &mut Registry,
    info: &MessageInfo,
    public_signal: String,
    vk_alpha1: u128,
    vk_beta_1: u128,
    vk_gamma_1: u128,
) -> (r: Result<(), ContractError>)
    requires
        old(deps).wf(),
    ensures
        set_zkeys_done(
            *old(deps),
            *final(deps),
            *info,
            ZkeysStr {
                vkeys: VkeyStr { alpha_1: vk_alpha1, beta_1: vk_beta_1, gamma_1: vk_gamma_1 },
                public_signal,
            },
            r,
        ),
{
    let z = decide_set_zkeys(deps.config(), info, public_signal, vk_alpha1, vk_beta_1, vk_gamma_1);
    match z {
        Ok(z) => {
            deps.save_challenge(info.sender.clone(), z);
            Ok(())
        },
        Err(e) => Err(e),
    }
}

/// Submits proof `proof_a` against the challenge of `difficuty_issuer`. On
/// acceptance the verdict is recorded as the caller's latest and as the
/// caller's verdict against that issuer; on any error nothing changes.
pub fn execute_publish_proof(
    deps: &mut Registry,
    info: &MessageInfo,
    difficuty_issuer: String,
    check: ProofCheck,
    proof_a: u128,
) -> (r: Result<(), ContractError>)
    requires
        old(deps).wf(),
    ensures
        publish_proof_done(*old(deps), *final(deps), *info, difficuty_issuer, check, proof_a, r),
{
    let issuer = difficuty_issuer.clone();
    let published = deps.challenge(&issuer).is_some();
    let decided = decide_publish_proof(deps.config(), info, difficuty_issuer, check, published, proof_a);
    match decided {
        Ok(p) => {
            deps.save_verdict(&issuer, &info.sender, p);
            Ok(())
        },
        Err(e) => Err(e),
    }
}

/// What the pairing verifier is to check for proof `proof_a` against the
/// challenge of `issuer`: its verifying key and the proof; `None` when the
/// issuer has published no challenge.
pub fn verifier_inputs(deps: &Registry, issuer: &String, proof_a: u128) -> (r: Option<
    (VerifyingKey, Proof),
>)
    requires
        deps.wf(),
    ensures
        match lookup(deps.challenges(), issuer@) {
            Some(z) => r == Some(
                (
                    VerifyingKey {
                        alpha_g1: z.vkeys.alpha_1,
                        beta_g1: z.vkeys.beta_1,
                        gamma_g1: z.vkeys.gamma_1,
                    },
                    Proof { a: proof_a },
                ),
            ),
            None => r is None,
        },
{
    match deps.challenge(issuer) {
        Some(zkeys) => {
            let vkey = parse_vkey(zkeys.vkeys);
            let pof = parse_proof(ProofStr { pi_a: proof_a });
            match (vkey, pof) {
                (Ok(vkey), Ok(pof)) => Some((vkey, pof)),
                _ => None,
            }
        },
        None => None,
    }
}

/// Runs one operation. `check` is consulted only for a proof submission.
pub fn execute(deps: &mut Registry, info: &MessageInfo, msg: ExecuteMsg, check: ProofCheck) -> (r:
    Result<(), ContractError>)
    requires
        old(deps).wf(),
    ensures
        match msg {
            ExecuteMsg::Zkeys { public_signal, vk_alpha1, vk_beta_1, vk_gamma_1 } => set_zkeys_done(
                *old(deps),
                *final(deps),
                *info,
                ZkeysStr {
                    vkeys: VkeyStr { alpha_1: vk_alpha1, beta_1: vk_beta_1, gamma_1: vk_gamma_1 },
                    public_signal,
                },
                r,
            ),
            ExecuteMsg::Proof { difficuty_issuer, proof_a } => publish_proof_done(
                *old(deps),
                *final(deps),
                *info,
                difficuty_issuer,
                check,
                proof_a,
                r,
            ),
        },
{
    match msg {
        ExecuteMsg::Zkeys { public_signal, vk_alpha1, vk_beta_1, vk_gamma_1 } => execute_set_zkeys(
            deps,
            info,
            public_signal,
            vk_alpha1,
            vk_beta_1,
            vk_gamma_1,
        ),
        ExecuteMsg::Proof { difficuty_issuer, proof_a } => execute_publish_proof(
            deps,
            info,
            difficuty_issuer,
            check,
            proof_a,
        ),
    }
}

/// The configured prices.
pub fn query_config(deps: &Registry) -> (r: ConfigResponse)
    ensures
        r.zkeys_price == deps.config_view().zkeys_price,
        r.proof_price == deps.config_view().proof_price,
{
    let config = deps.config();
    ConfigResponse {
        zkeys_price: duplicate_price(&config.zkeys_price),
        proof_price: duplicate_price(&config.proof_price),
    }
}

/// The challenge that `address` published; `NotFound` if there is none.
pub fn query_issuer_zkeys(deps: &Registry, address: String) -> (r: Result<ZkeysResponse, ContractError>)
    requires
        deps.wf(),
    ensures
        match lookup(deps.challenges(), address@) {
            Some(z) => r == Ok::<ZkeysResponse, ContractError>(
                ZkeysResponse {
                    public_signal: z.public_signal,
                    vk_alpha1: z.vkeys.alpha_1,
                    vk_beta_1: z.vkeys.beta_1,
                    vk_gamma_1: z.vkeys.gamma_1,
                },
            ),
            None => r == Err::<ZkeysResponse, ContractError>(ContractError::NotFound {  }),
        },
{
    match deps.challenge(&address) {
        Some(zkeys) => Ok(
            ZkeysResponse {
                public_signal: zkeys.public_signal.clone(),
                vk_alpha1: zkeys.vkeys.alpha_1,
                vk_beta_1: zkeys.vkeys.beta_1,
                vk_gamma_1: zkeys.vkeys.gamma_1,
            },
        ),
        None => Err(ContractError::NotFound {  }),
    }
}

/// The verdict of `prover_address` against `issuer_address`; `NotFound` if
/// none was recorded.
pub fn query_proof_result(deps: &Registry, issuer_address: String, prover_address: String) -> (r:
    Result<ProofResponse, ContractError>)
    requires
        deps.wf(),
    ensures
        match lookup(deps.verdicts(), (issuer_address@, prover_address@)) {
            Some(p) => r == Ok::<ProofResponse, ContractError>(
                ProofResponse { proof_a: p.proof.pi_a, is_valid: p.is_valid },
            ),
            None => r == Err::<ProofResponse, ContractError>(ContractError::NotFound {  }),
        },
{
    match deps.verdict(&issuer_address, &prover_address) {
        Some(proof_info) => Ok(ProofResponse { proof_a: proof_info.proof.pi_a, is_valid: proof_info.is_valid }),
        None => Err(ContractError::NotFound {  }),
    }
}

/// Answers a read-only query.
pub fn query(deps: &Registry, msg: QueryMsg) -> (r: Result<QueryResponse, ContractError>)
    requires
        deps.wf(),
    ensures
        match msg {
            QueryMsg::Config {  } => r matches Ok(QueryResponse::Config(c)) && c.zkeys_price
                == deps.config_view().zkeys_price && c.proof_price == deps.config_view().proof_price,
            QueryMsg::IssuerZkeys { address } => match lookup(deps.challenges(), address@) {
                Some(z) => r matches Ok(QueryResponse::IssuerZkeys(v)) && v == (ZkeysResponse {
                    public_signal: z.public_signal,
                    vk_alpha1: z.vkeys.alpha_1,
                    vk_beta_1: z.vkeys.beta_1,
                    vk_gamma_1: z.vkeys.gamma_1,
                }),
                None => r == Err::<QueryResponse, ContractError>(ContractError::NotFound {  }),
            },
            QueryMsg::ProofResult { issuer_address, prover_address } => match lookup(
                deps.verdicts(),
                (issuer_address@, prover_address@),
            ) {
                Some(p) => r matches Ok(QueryResponse::ProofResult(v)) && v == (ProofResponse {
                    proof_a: p.proof.pi_a,
                    is_valid: p.is_valid,
                }),
                None => r == Err::<QueryResponse, ContractError>(ContractError::NotFound {  }),
            },
        },
{
    match msg {
        QueryMsg::Config {  } => Ok(QueryResponse::Config(query_config(deps))),
        QueryMsg::IssuerZkeys { address } => match query_issuer_zkeys(deps, address) {
            Ok(v) => Ok(QueryResponse::IssuerZkeys(v)),
            Err(e) => Err(e),
        },
        QueryMsg::ProofResult { issuer_address, prover_address } => match query_proof_result(
            deps,
            issuer_address,
            prover_address,
        ) {
            Ok(v) => Ok(QueryResponse::ProofResult(v)),
            Err(e) => Err(e),
        },
    }
}

} // verus!
