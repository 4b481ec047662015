//! Signature witnesses and the weight they carry.
//!
//! A witness is keyed by a binding of the signer's public key and the digest, so that the
//! executor finds a signer's signature by one keyed lookup. A signer counts towards the
//! threshold when some witness names it, carries its binding key for the digest, and was found
//! valid; each signer counts at most once, whatever the number of witnesses.
use crate::hash::{merge_words, rpo_merge};
use crate::registry::{weight_sum, Signer, SignerRegistry, MAX_TOTAL_WEIGHT};
use crate::word::words_equal;
use vstd::prelude::*;

verus! {

/// A signature handed to the executor for one signer.
#[derive(Clone, Debug, PartialEq, Eq)]
pub struct Witness {
    /// The public key of the signer the signature is for.
    pub signer: [u64; 4],
    /// `Hash(public_key || digest)`, the key under which the executor looks the signature up.
    pub binding_key: [u64; 4],
    /// The signature over the digest, serialized.
    pub signature: Vec<u8>,
}

/// A witness as a mathematical value.
pub struct WitnessModel {
    pub signer: [u64; 4],
    pub binding_key: Seq<u64>,
    pub signature: Seq<u8>,
}

impl View for Witness {
    type V = WitnessModel;

    open spec fn view(&self) -> WitnessModel {
        WitnessModel {
            signer: self.signer,
            binding_key: self.binding_key@,
            signature: self.signature@,
        }
    }
}

pub open spec fn witness_models(ws: Seq<Witness>) -> Seq<WitnessModel> {
    ws.map_values(|w: Witness| w@)
}

/// The binding key of a signer for a digest.
pub open spec fn binding_of(public_key: [u64; 4], digest: Seq<u64>) -> Seq<u64> {
    rpo_merge(public_key@, digest)
}

/// The witnesses built for the signers, in registry order, from the signatures collected by
/// signer position: one for each signer whose signature was collected.
pub open spec fn built_witnesses(
    signers: Seq<Signer>,
    digest: Seq<u64>,
    collected: Seq<Option<Vec<u8>>>,
) -> Seq<WitnessModel>
    decreases signers.len(),
{
    if signers.len() == 0 {
        Seq::empty()
    } else {
        let prev = built_witnesses(signers.drop_last(), digest, collected);
        let i = signers.len() - 1;
        if i < collected.len() && collected[i] is Some {
            prev.push(
                WitnessModel {
                    signer: signers[i].public_key,
                    binding_key: binding_of(signers[i].public_key, digest),
                    signature: collected[i]->0@,
                },
            )
        } else {
            prev
        }
    }
}

/// Whether some witness for `public_key`, bound to `digest`, was found valid. `verdicts[j]` is
/// the outcome of verifying witness `j`; a witness without a verdict counts as invalid.
pub open spec fn signer_approved(
    public_key: [u64; 4],
    digest: Seq<u64>,
    ws: Seq<WitnessModel>,
    verdicts: Seq<bool>,
) -> bool {
    exists|j: int|
        #![trigger ws[j]]
        0 <= j < ws.len() && j < verdicts.len() && verdicts[j] && ws[j].signer == public_key
            && ws[j].binding_key == binding_of(public_key, digest)
}

/// The combined weight of the signers approved by the witnesses.
pub open spec fn approved_weight(
    signers: Seq<Signer>,
    digest: Seq<u64>,
    ws: Seq<WitnessModel>,
    verdicts: Seq<bool>,
) -> int
    decreases signers.len(),
{
    if signers.len() == 0 {
        0
    } else {
        approved_weight(signers.drop_last(), digest, ws, verdicts) + if signer_approved(
            signers.last().public_key,
            digest,
            ws,
            verdicts,
        ) {
            signers.last().weight as int
        } else {
            0
        }
    }
}

/// The combined weight of the signers from whom a signature was collected.
pub open spec fn collected_weight(signers: Seq<Signer>, collected: Seq<Option<Vec<u8>>>) -> int
    decreases signers.len(),
{
    if signers.len() == 0 {
        0
    } else {
        let i = signers.len() - 1;
        collected_weight(signers.drop_last(), collected) + if i < collected.len()
            && collected[i] is Some {
            signers[i].weight as int
        } else {
            0
        }
    }
}

/// Approved weight lies between zero and the total weight.
pub proof fn lemma_approved_weight_bounds(
    signers: Seq<Signer>,
    digest: Seq<u64>,
    ws: Seq<WitnessModel>,
    verdicts: Seq<bool>,
)
    ensures
        0 <= approved_weight(signers, digest, ws, verdicts) <= weight_sum(signers),
    decreases signers.len(),
{
    if signers.len() > 0 {
        lemma_approved_weight_bounds(signers.drop_last(), digest, ws, verdicts);
    }
}

/// The binding key of `public_key` for `digest`.
pub fn binding_key(public_key: &[u64; 4], digest: &[u64; 4]) -> (r: [u64; 4])
    ensures
        r@ == binding_of(*public_key, digest@),
{
    merge_words(public_key, digest)
}

/// Builds the witnesses for the current signers of `registry`: `collected[i]` is the signature
/// collected from the signer at position `i`, if any. Signatures at positions beyond the
/// registry are ignored.
pub fn build_witnesses(
    registry: &SignerRegistry,
    digest: &[u64; 4],
    collected: &Vec<Option<Vec<u8>>>,
) -> (r: Vec<Witness>)
    ensures
        witness_models(r@) == built_witnesses(registry@.signers, digest@, collected@),
{
    let signers = registry.signers();
    let n = signers.len();
    let mut r: Vec<Witness> = Vec::new();
    for i in 0..n
        invariant
            n == signers@.len(),
            witness_models(r@) == built_witnesses(
                signers@.subrange(0, i as int),
                digest@,
                collected@,
            ),
    {
        proof {
            assert(signers@.subrange(0, i + 1).drop_last() =~= signers@.subrange(0, i as int));
        }
        if i < collected.len() {
            match &collected[i] {
                Some(sig) => {
                    let public_key = signers[i].public_key;
                    let w = Witness {
                        signer: public_key,
                        binding_key: binding_key(&public_key, digest),
                        signature: sig.clone(),
                    };
                    assert(w.signature@ =~= sig@);
                    let ghost before = r@;
                    r.push(w);
                    assert(witness_models(r@) =~= witness_models(before).push(w@));
                },
                None => {},
            }
        }
    }
    proof {
        assert(signers@.subrange(0, n as int) =~= signers@);
    }
    r
}

/// The combined weight of the signers of `registry` approved by `witnesses`, where
/// `verdicts[j]` tells whether the signature of witness `j` verifies against its signer's public
/// key and `digest`.
pub fn approved_weight_of(
    registry: &SignerRegistry,
    digest: &[u64; 4],
    witnesses: &Vec<Witness>,
    verdicts: &Vec<bool>,
) -> (r: u64)
    requires
        registry@.wf(),
    ensures
        r == approved_weight(registry@.signers, digest@, witness_models(witnesses@), verdicts@),
{
    let signers = registry.signers();
    let n = signers.len();
    let m = witnesses.len();
    let ghost ws = witness_models(witnesses@);
    let mut total: u64 = 0;
    for i in 0..n
        invariant
            n == signers@.len(),
            m == witnesses@.len(),
            ws == witness_models(witnesses@),
            weight_sum(signers@) <= MAX_TOTAL_WEIGHT,
            total == approved_weight(signers@.subrange(0, i as int), digest@, ws, verdicts@),
    {
        let public_key = signers[i].public_key;
        let key = binding_key(&public_key, digest);
        let mut found = false;
        for j in 0..m
            invariant
                m == witnesses@.len(),
                ws == witness_models(witnesses@),
                key@ == binding_of(public_key, digest@),
                found == exists|b: int|
                    #![trigger ws[b]]
                    0 <= b < j && b < verdicts@.len() && verdicts@[b] && ws[b].signer
                        == public_key && ws[b].binding_key == binding_of(public_key, digest@),
        {
            let ghost before = found;
            if j < verdicts.len() && verdicts[j] {
                let w = &witnesses[j];
                if words_equal(&w.signer, &public_key) && words_equal(&w.binding_key, &key) {
                    found = true;
                }
            }
            proof {
                let jj = j as int;
                assert(ws[jj] == witnesses@[jj]@);
                if ws[jj].binding_key == key@ {
                    crate::word::lemma_view_determines_word(witnesses@[jj].binding_key, key);
                }
                if found && !before {
                    assert(0 <= jj < j + 1 && jj < verdicts@.len() && verdicts@[jj] && ws[jj].signer
                        == public_key && ws[jj].binding_key == binding_of(public_key, digest@));
                }
            }
        }
        proof {
            let p = signers@.subrange(0, i + 1);
            assert(p.drop_last() =~= signers@.subrange(0, i as int));
            lemma_approved_weight_bounds(p, digest@, ws, verdicts@);
            crate::registry::lemma_weight_sum_prefix(signers@, i + 1);
        }
        if found {
            total = total + signers[i].weight;
        }
    }
    proof {
        assert(signers@.subrange(0, n as int) =~= signers@);
    }
    total
}

} // verus!
