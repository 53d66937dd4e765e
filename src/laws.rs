use vstd::prelude::*;
use crate::coin::funds_cover;
use crate::contract::{publish_proof_done, set_zkeys_done};
use crate::error::ContractError;
use crate::msg::{MessageInfo, ProofCheck};
use crate::state::{lookup, ProofInfo, ProofStr, Registry, ZkeysStr};

verus! {

/// Every recorded verdict names an issuer that has a challenge.
pub open spec fn verdicts_backed(r: Registry) -> bool {
    forall|k: (Seq<char>, Seq<char>)| #[trigger]
        r.verdicts().contains_key(k) ==> r.challenges().contains_key(k.0)
}

/// A registry with nothing stored has no verdict without a challenge.
pub proof fn lemma_empty_registry_backed(r: Registry)
    requires
        r.verdicts() == Map::<(Seq<char>, Seq<char>), ProofInfo>::empty(),
    ensures
        verdicts_backed(r),
{
}

/// Publishing a challenge keeps every verdict backed by a challenge.
pub proof fn lemma_set_zkeys_keeps_backed(
    pre: Registry,
    post: Registry,
    info: MessageInfo,
    z: ZkeysStr,
    r: Result<(), ContractError>,
)
    requires
        set_zkeys_done(pre, post, info, z, r),
        verdicts_backed(pre),
    ensures
        verdicts_backed(post),
{
    assert forall|k: (Seq<char>, Seq<char>)| #[trigger]
        post.verdicts().contains_key(k) implies post.challenges().contains_key(k.0) by {
        assert(pre.challenges().contains_key(k.0));
    }
}

/// Submitting a proof keeps every verdict backed by a challenge.
pub proof fn lemma_publish_proof_keeps_backed(
    pre: Registry,
    post: Registry,
    info: MessageInfo,
    issuer: String,
    check: ProofCheck,
    proof_a: u128,
    r: Result<(), ContractError>,
)
    requires
        publish_proof_done(pre, post, info, issuer, check, proof_a, r),
        verdicts_backed(pre),
    ensures
        verdicts_backed(post),
{
}

/// A proof against an issuer without a challenge is refused, with
/// `NonPublishDifficulty` once the fee is met and the identity is well formed,
/// and no verdict is recorded; in a registry whose verdicts are all backed by
/// a challenge, no verdict against that issuer exists afterwards.
pub proof fn lemma_unpublished_issuer_refused(
    pre: Registry,
    post: Registry,
    info: MessageInfo,
    issuer: String,
    check: ProofCheck,
    proof_a: u128,
    r: Result<(), ContractError>,
)
    requires
        publish_proof_done(pre, post, info, issuer, check, proof_a, r),
        !pre.challenges().contains_key(issuer@),
    ensures
        r is Err,
        funds_cover(info.funds@, pre.config_view().proof_price) && check.issuer_is_valid ==> r
            == Err::<(), ContractError>(
            ContractError::NonPublishDifficulty { difficuty_issuer: issuer },
        ),
        post.latest_verdicts() == pre.latest_verdicts(),
        post.verdicts() == pre.verdicts(),
        verdicts_backed(pre) ==> forall|p: Seq<char>|
            !(#[trigger] post.verdicts().contains_key((issuer@, p))),
{
    if verdicts_backed(pre) {
        assert forall|p: Seq<char>| !(#[trigger] post.verdicts().contains_key((issuer@, p))) by {
            if post.verdicts().contains_key((issuer@, p)) {
                assert(pre.challenges().contains_key((issuer@, p).0));
            }
        }
    }
}

/// Publishing with funds below the publishing price fails with
/// `InsufficientFundsSend` and changes nothing.
pub proof fn lemma_set_zkeys_underfunded(
    pre: Registry,
    post: Registry,
    info: MessageInfo,
    z: ZkeysStr,
    r: Result<(), ContractError>,
)
    requires
        set_zkeys_done(pre, post, info, z, r),
        !funds_cover(info.funds@, pre.config_view().zkeys_price),
    ensures
        r == Err::<(), ContractError>(ContractError::InsufficientFundsSend {  }),
        post.config_view() == pre.config_view(),
        post.challenges() == pre.challenges(),
        post.latest_verdicts() == pre.latest_verdicts(),
        post.verdicts() == pre.verdicts(),
{
}

/// Submitting a proof with funds below the proof price fails and changes
/// nothing; for a well-formed issuer identity the error is
/// `InsufficientFundsSend`.
pub proof fn lemma_publish_proof_underfunded(
    pre: Registry,
    post: Registry,
    info: MessageInfo,
    issuer: String,
    check: ProofCheck,
    proof_a: u128,
    r: Result<(), ContractError>,
)
    requires
        publish_proof_done(pre, post, info, issuer, check, proof_a, r),
        !funds_cover(info.funds@, pre.config_view().proof_price),
    ensures
        r is Err,
        check.issuer_is_valid ==> r == Err::<(), ContractError>(
            ContractError::InsufficientFundsSend {  },
        ),
        post.config_view() == pre.config_view(),
        post.challenges() == pre.challenges(),
        post.latest_verdicts() == pre.latest_verdicts(),
        post.verdicts() == pre.verdicts(),
{
}

/// Two submissions of the same proof by the same caller against the same
/// issuer, with the same verifier outcome, on registries with the same
/// configuration that agree on whether the issuer has a challenge, end alike:
/// the same result, and on acceptance the same verdict recorded, whatever
/// other verdicts and other issuers' challenges either registry holds.
pub proof fn lemma_same_submission_same_outcome(
    pre1: Registry,
    post1: Registry,
    pre2: Registry,
    post2: Registry,
    info: MessageInfo,
    issuer: String,
    check: ProofCheck,
    proof_a: u128,
    r1: Result<(), ContractError>,
    r2: Result<(), ContractError>,
)
    requires
        publish_proof_done(pre1, post1, info, issuer, check, proof_a, r1),
        publish_proof_done(pre2, post2, info, issuer, check, proof_a, r2),
        pre1.config_view() == pre2.config_view(),
        pre1.challenges().contains_key(issuer@) == pre2.challenges().contains_key(issuer@),
    ensures
        r1 == r2,
        r1 is Ok ==> lookup(post1.latest_verdicts(), info.sender@) == lookup(
            post2.latest_verdicts(),
            info.sender@,
        ),
        r1 is Ok ==> lookup(post1.verdicts(), (issuer@, info.sender@)) == lookup(
            post2.verdicts(),
            (issuer@, info.sender@),
        ),
{
    if r1 is Ok && r2 is Ok {
        assert(r1->Ok_0 == r2->Ok_0);
    }
}

/// A second challenge published by the same issuer replaces the first: the
/// issuer's challenge is then the second one, as if the first had never been
/// published.
pub proof fn lemma_second_challenge_replaces_first(
    r0: Registry,
    r1: Registry,
    r2: Registry,
    info1: MessageInfo,
    info2: MessageInfo,
    z1: ZkeysStr,
    z2: ZkeysStr,
    res1: Result<(), ContractError>,
    res2: Result<(), ContractError>,
)
    requires
        set_zkeys_done(r0, r1, info1, z1, res1),
        set_zkeys_done(r1, r2, info2, z2, res2),
        info1.sender@ == info2.sender@,
        res2 is Ok,
    ensures
        lookup(r2.challenges(), info2.sender@) == Some(z2),
        r2.challenges() == r0.challenges().insert(info2.sender@, z2),
{
    if res1 is Ok {
        assert(r2.challenges() =~= r0.challenges().insert(info2.sender@, z2));
    }
}

/// An accepted proof is recorded, with its value and as valid, both as the
/// prover's latest verdict and as the prover's verdict against the issuer.
pub proof fn lemma_accepted_proof_recorded(
    pre: Registry,
    post: Registry,
    info: MessageInfo,
    issuer: String,
    check: ProofCheck,
    proof_a: u128,
    r: Result<(), ContractError>,
)
    requires
        publish_proof_done(pre, post, info, issuer, check, proof_a, r),
        r is Ok,
    ensures
        lookup(post.latest_verdicts(), info.sender@) == Some(
            ProofInfo { proof: ProofStr { pi_a: proof_a }, is_valid: true },
        ),
        lookup(post.verdicts(), (issuer@, info.sender@)) == Some(
            ProofInfo { proof: ProofStr { pi_a: proof_a }, is_valid: true },
        ),
{
}

} // verus!
