use vstd::prelude::*;
use crate::coin::Coin;
use crate::table::{IdPair, Table, TableKey};

verus! {

/// The prices set when the registry is created: one for publishing a
/// challenge, one for submitting a proof.
#[derive(Debug, PartialEq, Eq)]
pub struct Config {
    pub zkeys_price: Option<Coin>,
    pub proof_price: Option<Coin>,
}

/// A submitted proof: one scalar, the "a" element.
#[derive(Debug, Clone, Copy, PartialEq, Eq, Structural)]
pub struct ProofStr {
    pub pi_a: u128,
}

/// The verifying key of a challenge, as three scalars.
#[derive(Debug, Clone, Copy, PartialEq, Eq, Structural)]
pub struct VkeyStr {
    pub alpha_1: u128,
    pub beta_1: u128,
    pub gamma_1: u128,
}

/// A published challenge: a verifying key and a public signal.
#[derive(Debug)]
pub struct ZkeysStr {
    pub vkeys: VkeyStr,
    pub public_signal: String,
}

/// A verdict on a proof: the proof itself and its validity flag.
#[derive(Debug, Clone, Copy, PartialEq, Eq, Structural)]
pub struct ProofInfo {
    pub proof: ProofStr,
    pub is_valid: bool,
}

/// The value held under `k` in `m`, if any.
pub open spec fn lookup<K, V>(m: Map<K, V>, k: K) -> Option<V> {
    if m.contains_key(k) {
        Some(m[k])
    } else {
        None
    }
}

proof fn lemma_one_id_key(a: Seq<char>, b: Seq<char>)
    ensures
        (seq![a] == seq![b]) == (a == b),
{
    if seq![a] == seq![b] {
        assert(seq![a][0] == a);
        assert(seq![b][0] == b);
    }
}

proof fn lemma_two_id_key(a: Seq<char>, b: Seq<char>, c: Seq<char>, d: Seq<char>)
    ensures
        (seq![a, b] == seq![c, d]) == (a == c && b == d),
{
    if seq![a, b] == seq![c, d] {
        assert(seq![a, b][0] == a && seq![a, b][1] == b);
        assert(seq![c, d][0] == c && seq![c, d][1] == d);
    }
    if a == c && b == d {
        assert(seq![a, b] =~= seq![c, d]);
    }
}

/// The stored state: the configuration, the challenge of each issuer, the
/// latest verdict of each prover, and the verdict of each (issuer, prover) pair.
pub struct Registry {
    config: Config,
    zkeys: Table<String, ZkeysStr>,
    prover_info: Table<String, ProofInfo>,
    prover_list: Table<IdPair, ProofInfo>,
}

impl Registry {
    pub closed spec fn wf(&self) -> bool {
        self.zkeys.wf() && self.prover_info.wf() && self.prover_list.wf()
    }

    pub closed spec fn config_view(&self) -> Config {
        self.config
    }

    /// The challenge of each issuer.
    pub closed spec fn challenges(&self) -> Map<Seq<char>, ZkeysStr> {
        Map::new(
            |i: Seq<char>| self.zkeys@.contains_key(seq![i]),
            |i: Seq<char>| self.zkeys@[seq![i]],
        )
    }

    /// The latest verdict of each prover, whatever the issuer.
    pub closed spec fn latest_verdicts(&self) -> Map<Seq<char>, ProofInfo> {
        Map::new(
            |p: Seq<char>| self.prover_info@.contains_key(seq![p]),
            |p: Seq<char>| self.prover_info@[seq![p]],
        )
    }

    /// The verdict of each (issuer, prover) pair.
    pub closed spec fn verdicts(&self) -> Map<(Seq<char>, Seq<char>), ProofInfo> {
        Map::new(
            |k: (Seq<char>, Seq<char>)| self.prover_list@.contains_key(seq![k.0, k.1]),
            |k: (Seq<char>, Seq<char>)| self.prover_list@[seq![k.0, k.1]],
        )
    }

    /// A registry with the given configuration and nothing else stored.
    pub fn new(config: Config) -> (r: Registry)
        ensures
            r.wf(),
            r.config_view() == config,
            r.challenges() == Map::<Seq<char>, ZkeysStr>::empty(),
            r.latest_verdicts() == Map::<Seq<char>, ProofInfo>::empty(),
            r.verdicts() == Map::<(Seq<char>, Seq<char>), ProofInfo>::empty(),
    {
        let r = Registry {
            config,
            zkeys: Table::new(),
            prover_info: Table::new(),
            prover_list: Table::new(),
        };
        assert(r.challenges() =~= Map::<Seq<char>, ZkeysStr>::empty());
        assert(r.latest_verdicts() =~= Map::<Seq<char>, ProofInfo>::empty());
        assert(r.verdicts() =~= Map::<(Seq<char>, Seq<char>), ProofInfo>::empty());
        r
    }

    pub fn config(&self) -> (r: &Config)
        ensures
            *r == self.config_view(),
    {
        &self.config
    }

    /// The challenge that `issuer` published, if any.
    pub fn challenge(&self, issuer: &String) -> (r: Option<&ZkeysStr>)
        requires
            self.wf(),
        ensures
            match r {
                Some(z) => lookup(self.challenges(), issuer@) == Some(*z),
                None => lookup(self.challenges(), issuer@) is None,
            },
    {
        self.zkeys.get(issuer)
    }

    /// The latest verdict recorded for `prover`, if any.
    pub fn latest_verdict(&self, prover: &String) -> (r: Option<ProofInfo>)
        requires
            self.wf(),
        ensures
            r == lookup(self.latest_verdicts(), prover@),
    {
        match self.prover_info.get(prover) {
            Some(p) => Some(*p),
            None => None,
        }
    }

    /// The verdict recorded for `prover` against `issuer`, if any.
    pub fn verdict(&self, issuer: &String, prover: &String) -> (r: Option<ProofInfo>)
        requires
            self.wf(),
        ensures
            r == lookup(self.verdicts(), (issuer@, prover@)),
    {
        let k = IdPair { issuer: issuer.clone(), prover: prover.clone() };
        match self.prover_list.get(&k) {
            Some(p) => Some(*p),
            None => None,
        }
    }

    /// Stores `z` as the challenge of `issuer`, replacing any earlier one.
    pub fn save_challenge(&mut self, issuer: String, z: ZkeysStr)
        requires
            old(self).wf(),
        ensures
            final(self).wf(),
            final(self).config_view() == old(self).config_view(),
            final(self).challenges() == old(self).challenges().insert(issuer@, z),
            final(self).latest_verdicts() == old(self).latest_verdicts(),
            final(self).verdicts() == old(self).verdicts(),
    {
        let ghost old_r = *self;
        let ghost i = issuer@;
        let ghost zz = z;
        assert(issuer.key() == seq![i]);
        self.zkeys.insert(issuer, z);
        assert forall|j: Seq<char>| true implies (seq![j] == seq![i]) == (j == i) by {
            lemma_one_id_key(j, i);
        }
        assert(self.challenges() =~= old_r.challenges().insert(i, zz));
        assert(self.latest_verdicts() =~= old_r.latest_verdicts());
        assert(self.verdicts() =~= old_r.verdicts());
    }

    /// Records `p` as the latest verdict of `prover` and as its verdict
    /// against `issuer`.
    pub fn save_verdict(&mut self, issuer: &String, prover: &String, p: ProofInfo)
        requires
            old(self).wf(),
        ensures
            final(self).wf(),
            final(self).config_view() == old(self).config_view(),
            final(self).challenges() == old(self).challenges(),
            final(self).latest_verdicts() == old(self).latest_verdicts().insert(prover@, p),
            final(self).verdicts() == old(self).verdicts().insert((issuer@, prover@), p),
    {
        let ghost old_r = *self;
        let ghost iv = issuer@;
        let ghost pv = prover@;
        let pk = prover.clone();
        assert(pk.key() == seq![pv]);
        self.prover_info.insert(pk, p);
        let k = IdPair { issuer: issuer.clone(), prover: prover.clone() };
        assert(k.key() == seq![iv, pv]);
        self.prover_list.insert(k, p);
        assert forall|j: Seq<char>| true implies (seq![j] == seq![pv]) == (j == pv) by {
            lemma_one_id_key(j, pv);
        }
        assert forall|a: Seq<char>, b: Seq<char>| true implies (seq![a, b] == seq![iv, pv]) == (a
            == iv && b == pv) by {
            lemma_two_id_key(a, b, iv, pv);
        }
        assert(self.challenges() =~= old_r.challenges());
        assert(self.latest_verdicts() =~= old_r.latest_verdicts().insert(pv, p));
        assert(self.verdicts() =~= old_r.verdicts().insert((iv, pv), p));
    }
}

} // verus!
