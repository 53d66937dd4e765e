use zk_registry::coin::{assert_sent_sufficient_coin, Coin};
use zk_registry::contract::{
    decide_publish_proof, decide_set_zkeys, execute_publish_proof, execute_set_zkeys, instantiate,
    query, query_issuer_zkeys, query_proof_result, verifier_inputs,
};
use zk_registry::error::ContractError;
use zk_registry::msg::{
    ConfigResponse, InstantiateMsg, MessageInfo, ProofCheck, ProofResponse, QueryMsg,
    QueryResponse, ZkeysResponse,
};
use zk_registry::parser::{parse_proof, parse_vkey, Proof, VerificationOutcome, VerifyingKey};
use zk_registry::state::{Config, ProofInfo, ProofStr, Registry, VkeyStr};

fn caller(sender: &str, funds: Vec<Coin>) -> MessageInfo {
    MessageInfo { sender: sender.to_string(), funds }
}

fn check(outcome: VerificationOutcome) -> ProofCheck {
    ProofCheck { issuer_is_valid: true, outcome }
}

fn free_registry() -> Registry {
    instantiate(InstantiateMsg { set_zkeys_price: None, publish_proof_price: None })
}

fn publish(deps: &mut Registry, who: &str, funds: Vec<Coin>, signal: &str, a: u128, b: u128, g: u128) -> Result<(), ContractError> {
    execute_set_zkeys(deps, &caller(who, funds), signal.to_string(), a, b, g)
}

fn submit(deps: &mut Registry, who: &str, funds: Vec<Coin>, issuer: &str, proof: u128, outcome: VerificationOutcome) -> Result<(), ContractError> {
    execute_publish_proof(deps, &caller(who, funds), issuer.to_string(), check(outcome), proof)
}

#[test]
fn scenario_publish_then_query_challenge() {
    let mut deps = free_registry();
    assert_eq!(publish(&mut deps, "alice", vec![], "33", 7, 11, 2), Ok(()));
    assert_eq!(
        query_issuer_zkeys(&deps, "alice".to_string()),
        Ok(ZkeysResponse { public_signal: "33".to_string(), vk_alpha1: 7, vk_beta_1: 11, vk_gamma_1: 2 })
    );
}

#[test]
fn scenario_accepted_proof_is_queryable() {
    let mut deps = free_registry();
    publish(&mut deps, "alice", vec![], "33", 7, 11, 2).unwrap();
    assert_eq!(submit(&mut deps, "bob", vec![], "alice", 231, VerificationOutcome::Valid), Ok(()));
    assert_eq!(
        query_proof_result(&deps, "alice".to_string(), "bob".to_string()),
        Ok(ProofResponse { proof_a: 231, is_valid: true })
    );
}

#[test]
fn scenario_rejected_proof_leaves_no_verdict() {
    let mut deps = free_registry();
    publish(&mut deps, "alice", vec![], "33", 7, 11, 2).unwrap();
    assert_eq!(
        submit(&mut deps, "bob", vec![], "alice", 231, VerificationOutcome::Invalid),
        Err(ContractError::InvalidProof {})
    );
    assert_eq!(
        query_proof_result(&deps, "alice".to_string(), "bob".to_string()),
        Err(ContractError::NotFound {})
    );
    assert_eq!(deps.latest_verdict(&"bob".to_string()), None);
}

#[test]
fn scenario_publish_price_two_tokens() {
    let mut deps = instantiate(InstantiateMsg {
        set_zkeys_price: Some(Coin::new(2, "token")),
        publish_proof_price: None,
    });
    assert_eq!(
        publish(&mut deps, "alice", vec![Coin::new(1, "token")], "33", 7, 11, 2),
        Err(ContractError::InsufficientFundsSend {})
    );
    assert_eq!(query_issuer_zkeys(&deps, "alice".to_string()), Err(ContractError::NotFound {}));
    assert_eq!(publish(&mut deps, "alice", vec![Coin::new(2, "token")], "33", 7, 11, 2), Ok(()));
    assert!(query_issuer_zkeys(&deps, "alice".to_string()).is_ok());
}

#[test]
fn scenario_unknown_issuer_refused() {
    let mut deps = free_registry();
    publish(&mut deps, "alice", vec![], "33", 7, 11, 2).unwrap();
    for (funds, proof) in [(vec![], 231u128), (vec![Coin::new(5, "token")], 0u128)] {
        assert_eq!(
            submit(&mut deps, "bob", funds, "carol", proof, VerificationOutcome::Valid),
            Err(ContractError::NonPublishDifficulty { difficuty_issuer: "carol".to_string() })
        );
    }
    assert_eq!(
        query_proof_result(&deps, "carol".to_string(), "bob".to_string()),
        Err(ContractError::NotFound {})
    );
    assert_eq!(deps.latest_verdict(&"bob".to_string()), None);
}

#[test]
fn underfunded_proof_changes_nothing() {
    let mut deps = instantiate(InstantiateMsg {
        set_zkeys_price: None,
        publish_proof_price: Some(Coin::new(4, "token")),
    });
    publish(&mut deps, "alice", vec![], "33", 7, 11, 2).unwrap();
    assert_eq!(
        submit(&mut deps, "bob", vec![Coin::new(3, "token"), Coin::new(9, "other")], "alice", 231, VerificationOutcome::Valid),
        Err(ContractError::InsufficientFundsSend {})
    );
    assert_eq!(
        query_proof_result(&deps, "alice".to_string(), "bob".to_string()),
        Err(ContractError::NotFound {})
    );
    assert_eq!(deps.latest_verdict(&"bob".to_string()), None);
}

#[test]
fn second_challenge_replaces_first() {
    let mut deps = free_registry();
    publish(&mut deps, "alice", vec![], "33", 7, 11, 2).unwrap();
    publish(&mut deps, "alice", vec![], "44", 1, 2, 3).unwrap();
    assert_eq!(
        query_issuer_zkeys(&deps, "alice".to_string()),
        Ok(ZkeysResponse { public_signal: "44".to_string(), vk_alpha1: 1, vk_beta_1: 2, vk_gamma_1: 3 })
    );
}

#[test]
fn accepted_proof_sets_both_verdicts() {
    let mut deps = free_registry();
    publish(&mut deps, "alice", vec![], "33", 7, 11, 2).unwrap();
    publish(&mut deps, "dave", vec![], "1", 1, 1, 1).unwrap();
    submit(&mut deps, "bob", vec![], "alice", 231, VerificationOutcome::Valid).unwrap();
    submit(&mut deps, "bob", vec![], "dave", 5, VerificationOutcome::Valid).unwrap();
    let expected = ProofInfo { proof: ProofStr { pi_a: 5 }, is_valid: true };
    assert_eq!(deps.latest_verdict(&"bob".to_string()), Some(expected));
    assert_eq!(deps.verdict(&"dave".to_string(), &"bob".to_string()), Some(expected));
    assert_eq!(
        deps.verdict(&"alice".to_string(), &"bob".to_string()),
        Some(ProofInfo { proof: ProofStr { pi_a: 231 }, is_valid: true })
    );
}

#[test]
fn rejection_keeps_earlier_accepted_verdict() {
    let mut deps = free_registry();
    publish(&mut deps, "alice", vec![], "33", 7, 11, 2).unwrap();
    submit(&mut deps, "bob", vec![], "alice", 231, VerificationOutcome::Valid).unwrap();
    assert_eq!(
        submit(&mut deps, "bob", vec![], "alice", 232, VerificationOutcome::Malformed),
        Err(ContractError::MalformedCurvePoint {})
    );
    assert_eq!(
        query_proof_result(&deps, "alice".to_string(), "bob".to_string()),
        Ok(ProofResponse { proof_a: 231, is_valid: true })
    );
}

#[test]
fn invalid_issuer_identity_refused() {
    let mut deps = free_registry();
    publish(&mut deps, "alice", vec![], "33", 7, 11, 2).unwrap();
    let bad = ProofCheck { issuer_is_valid: false, outcome: VerificationOutcome::Valid };
    assert_eq!(
        execute_publish_proof(&mut deps, &caller("bob", vec![]), "alice".to_string(), bad, 231),
        Err(ContractError::InvalidAddress { address: "alice".to_string() })
    );
}

#[test]
fn fee_gate_edge_cases() {
    let token = |n: u128| Some(Coin::new(n, "token"));
    assert_eq!(assert_sent_sufficient_coin(&vec![], &None), Ok(()));
    assert_eq!(assert_sent_sufficient_coin(&vec![], &token(0)), Ok(()));
    assert_eq!(assert_sent_sufficient_coin(&vec![], &token(1)), Err(ContractError::InsufficientFundsSend {}));
    assert_eq!(
        assert_sent_sufficient_coin(&vec![Coin::new(10, "other")], &token(1)),
        Err(ContractError::InsufficientFundsSend {})
    );
    assert_eq!(assert_sent_sufficient_coin(&vec![Coin::new(1, "other"), Coin::new(2, "token")], &token(2)), Ok(()));
    assert_eq!(
        assert_sent_sufficient_coin(&vec![Coin::new(u128::MAX, "token")], &token(u128::MAX)),
        Ok(())
    );
}

#[test]
fn decisions_follow_the_order_of_checks() {
    let config = Config { zkeys_price: Some(Coin::new(1, "token")), proof_price: Some(Coin::new(1, "token")) };
    let poor = caller("bob", vec![]);
    let bad = ProofCheck { issuer_is_valid: false, outcome: VerificationOutcome::Invalid };
    assert_eq!(
        decide_publish_proof(&config, &poor, "x".to_string(), bad, false, 1),
        Err(ContractError::InvalidAddress { address: "x".to_string() })
    );
    assert_eq!(
        decide_publish_proof(&config, &poor, "x".to_string(), check(VerificationOutcome::Valid), false, 1),
        Err(ContractError::InsufficientFundsSend {})
    );
    assert!(decide_set_zkeys(&config, &poor, "s".to_string(), 1, 2, 3).is_err());
    let rich = caller("bob", vec![Coin::new(1, "token")]);
    let z = decide_set_zkeys(&config, &rich, "s".to_string(), 1, 2, 3).unwrap();
    assert_eq!(z.vkeys, VkeyStr { alpha_1: 1, beta_1: 2, gamma_1: 3 });
    assert_eq!(z.public_signal, "s");
    assert_eq!(
        decide_publish_proof(&config, &rich, "x".to_string(), check(VerificationOutcome::Valid), true, 9),
        Ok(ProofInfo { proof: ProofStr { pi_a: 9 }, is_valid: true })
    );
}

#[test]
fn parsers_carry_the_scalars() {
    assert_eq!(parse_proof(ProofStr { pi_a: 231 }), Ok(Proof { a: 231 }));
    assert_eq!(
        parse_vkey(VkeyStr { alpha_1: 7, beta_1: 11, gamma_1: 2 }),
        Ok(VerifyingKey { alpha_g1: 7, beta_g1: 11, gamma_g1: 2 })
    );
}

#[test]
fn query_dispatch() {
    let mut deps = free_registry();
    publish(&mut deps, "alice", vec![], "33", 7, 11, 2).unwrap();
    match query(&deps, QueryMsg::Config {}) {
        Ok(QueryResponse::Config(c)) => assert_eq!(c, ConfigResponse { zkeys_price: None, proof_price: None }),
        other => panic!("unexpected {:?}", other),
    }
    match query(&deps, QueryMsg::IssuerZkeys { address: "alice".to_string() }) {
        Ok(QueryResponse::IssuerZkeys(z)) => assert_eq!(z.vk_beta_1, 11),
        other => panic!("unexpected {:?}", other),
    }
    assert!(matches!(
        query(&deps, QueryMsg::ProofResult { issuer_address: "alice".to_string(), prover_address: "bob".to_string() }),
        Err(ContractError::NotFound {})
    ));
    let cfg = Config { zkeys_price: Some(Coin::new(3, "token")), proof_price: None };
    let resp: ConfigResponse = cfg.into();
    assert_eq!(resp, ConfigResponse { zkeys_price: Some(Coin::new(3, "token")), proof_price: None });
}

#[test]
fn verifier_inputs_come_from_the_stored_challenge() {
    let mut deps = free_registry();
    assert_eq!(verifier_inputs(&deps, &"alice".to_string(), 231), None);
    publish(&mut deps, "alice", vec![], "33", 7, 11, 2).unwrap();
    assert_eq!(
        verifier_inputs(&deps, &"alice".to_string(), 231),
        Some((VerifyingKey { alpha_g1: 7, beta_g1: 11, gamma_g1: 2 }, Proof { a: 231 }))
    );
}

#[test]
fn invalid_identity_checked_before_fee() {
    let mut deps = instantiate(InstantiateMsg {
        set_zkeys_price: None,
        publish_proof_price: Some(Coin::new(1, "token")),
    });
    publish(&mut deps, "alice", vec![], "33", 7, 11, 2).unwrap();
    let bad = ProofCheck { issuer_is_valid: false, outcome: VerificationOutcome::Valid };
    assert_eq!(
        execute_publish_proof(&mut deps, &caller("bob", vec![]), "alice".to_string(), bad, 231),
        Err(ContractError::InvalidAddress { address: "alice".to_string() })
    );
    assert_eq!(deps.latest_verdict(&"bob".to_string()), None);
    assert_eq!(
        submit(&mut deps, "bob", vec![], "alice", 231, VerificationOutcome::Valid),
        Err(ContractError::InsufficientFundsSend {})
    );
}

#[test]
fn same_submission_same_outcome_on_different_registries() {
    let mut first = free_registry();
    let mut second = free_registry();
    publish(&mut first, "alice", vec![], "33", 7, 11, 2).unwrap();
    publish(&mut second, "dave", vec![], "1", 1, 1, 1).unwrap();
    publish(&mut second, "alice", vec![], "9", 9, 9, 9).unwrap();
    submit(&mut second, "bob", vec![], "dave", 5, VerificationOutcome::Valid).unwrap();
    for outcome in [VerificationOutcome::Valid, VerificationOutcome::Invalid, VerificationOutcome::Malformed] {
        let r1 = submit(&mut first, "bob", vec![], "alice", 231, outcome);
        let r2 = submit(&mut second, "bob", vec![], "alice", 231, outcome);
        assert_eq!(r1, r2);
    }
    assert_eq!(
        first.verdict(&"alice".to_string(), &"bob".to_string()),
        second.verdict(&"alice".to_string(), &"bob".to_string())
    );
}
