//! Laws of the protocol, over the models that the functions' contracts use.
use crate::account::{
    account_after, action_error, authorization_outcome, propose_result, AccountModel,
    AuthorizationOutcome, ProposeError, RejectReason,
};
use crate::action::{action_digest, payload_is_felts, ActionModel};
use crate::registry::{
    has_key, keys_unique, lemma_apply_keeps_invariant, weight_of, weight_sum, Mutation,
    MutationError, Signer,
};
use crate::witness::{
    approved_weight, binding_of, built_witnesses, collected_weight, lemma_approved_weight_bounds,
    signer_approved, WitnessModel,
};
use vstd::prelude::*;

verus! {

/// Two witness sets that approve the same signers give the same approved weight.
pub proof fn lemma_approved_weight_congruent(
    signers: Seq<Signer>,
    digest: Seq<u64>,
    ws1: Seq<WitnessModel>,
    vs1: Seq<bool>,
    ws2: Seq<WitnessModel>,
    vs2: Seq<bool>,
)
    requires
        forall|k: int|
            0 <= k < signers.len() ==> signer_approved(signers[k].public_key, digest, ws1, vs1)
                == signer_approved(signers[k].public_key, digest, ws2, vs2),
    ensures
        approved_weight(signers, digest, ws1, vs1) == approved_weight(signers, digest, ws2, vs2),
    decreases signers.len(),
{
    if signers.len() > 0 {
        let p = signers.drop_last();
        assert forall|k: int| 0 <= k < p.len() implies signer_approved(p[k].public_key, digest, ws1, vs1)
            == signer_approved(p[k].public_key, digest, ws2, vs2) by {
            assert(p[k] == signers[k]);
        }
        lemma_approved_weight_congruent(p, digest, ws1, vs1, ws2, vs2);
        assert(signers.last() == signers[signers.len() - 1]);
    }
}

/// Approval of each signer decides the approved weight: it is the weight of the signers whose
/// signature was collected, when exactly those are approved.
proof fn lemma_approved_is_collected(
    signers: Seq<Signer>,
    digest: Seq<u64>,
    ws: Seq<WitnessModel>,
    vs: Seq<bool>,
    collected: Seq<Option<Vec<u8>>>,
)
    requires
        forall|k: int|
            0 <= k < signers.len() ==> signer_approved(signers[k].public_key, digest, ws, vs) == (k
                < collected.len() && collected[k] is Some),
    ensures
        approved_weight(signers, digest, ws, vs) == collected_weight(signers, collected),
    decreases signers.len(),
{
    if signers.len() > 0 {
        let p = signers.drop_last();
        assert forall|k: int| 0 <= k < p.len() implies signer_approved(p[k].public_key, digest, ws, vs)
            == (k < collected.len() && collected[k] is Some) by {
            assert(p[k] == signers[k]);
        }
        lemma_approved_is_collected(p, digest, ws, vs, collected);
    }
}

/// Each built witness stands for a signer whose signature was collected, under that signer's
/// key and binding; and each collected signature has its witness.
proof fn lemma_built_witnesses(signers: Seq<Signer>, digest: Seq<u64>, collected: Seq<Option<Vec<u8>>>)
    ensures
        forall|j: int|
            0 <= j < built_witnesses(signers, digest, collected).len() ==> exists|i: int|
                0 <= i < signers.len() && i < collected.len() && collected[i] is Some
                    && #[trigger] built_witnesses(signers, digest, collected)[j].signer
                    == signers[i].public_key,
        forall|i: int|
            0 <= i < signers.len() && i < collected.len() && collected[i] is Some ==> exists|j: int|
                0 <= j < built_witnesses(signers, digest, collected).len()
                    && #[trigger] built_witnesses(signers, digest, collected)[j].signer
                    == signers[i].public_key && built_witnesses(signers, digest, collected)[j].binding_key
                    == binding_of(signers[i].public_key, digest),
    decreases signers.len(),
{
    if signers.len() > 0 {
        let p = signers.drop_last();
        let prev = built_witnesses(p, digest, collected);
        let cur = built_witnesses(signers, digest, collected);
        let n = signers.len() - 1;
        lemma_built_witnesses(p, digest, collected);
        assert forall|j: int| 0 <= j < cur.len() implies exists|i: int|
            0 <= i < signers.len() && i < collected.len() && collected[i] is Some
                && #[trigger] cur[j].signer == signers[i].public_key by {
            if j < prev.len() {
                assert(cur[j] == prev[j]);
                let i = choose|i: int|
                    0 <= i < p.len() && i < collected.len() && collected[i] is Some
                        && #[trigger] prev[j].signer == p[i].public_key;
                assert(p[i] == signers[i]);
            } else {
                assert(cur[j].signer == signers[n].public_key);
            }
        }
        assert forall|i: int|
            0 <= i < signers.len() && i < collected.len() && collected[i] is Some implies exists|j: int|
                0 <= j < cur.len() && #[trigger] cur[j].signer == signers[i].public_key
                    && cur[j].binding_key == binding_of(signers[i].public_key, digest) by {
            if i < n {
                assert(p[i] == signers[i]);
                let j = choose|j: int|
                    0 <= j < prev.len() && #[trigger] prev[j].signer == p[i].public_key
                        && prev[j].binding_key == binding_of(p[i].public_key, digest);
                assert(cur[j] == prev[j]);
            } else {
                assert(cur[prev.len() as int].signer == signers[i].public_key);
            }
        }
    }
}

/// Whether some witness found valid names `signer` under `binding_key`.
pub open spec fn has_valid_witness(
    ws: Seq<WitnessModel>,
    verdicts: Seq<bool>,
    signer: [u64; 4],
    binding_key: Seq<u64>,
) -> bool {
    exists|i: int|
        #![trigger ws[i]]
        0 <= i < ws.len() && i < verdicts.len() && verdicts[i] && ws[i].signer == signer
            && ws[i].binding_key == binding_key
}

/// Each valid witness of the first set for a registered signer has a valid counterpart, with the
/// same signer and binding key, in the second set.
pub open spec fn valid_registered_witnesses_covered(
    signers: Seq<Signer>,
    ws1: Seq<WitnessModel>,
    vs1: Seq<bool>,
    ws2: Seq<WitnessModel>,
    vs2: Seq<bool>,
) -> bool {
    forall|j: int|
        #![trigger ws1[j]]
        0 <= j < ws1.len() && j < vs1.len() && vs1[j] && has_key(signers, ws1[j].signer)
            ==> has_valid_witness(ws2, vs2, ws1[j].signer, ws1[j].binding_key)
}

/// The approved weight depends only on which signers and binding keys appear among the
/// witnesses found valid for registered signers. Invalid or forged witnesses, witnesses repeated
/// any number of times, witnesses of unregistered keys, and the order of the witnesses change
/// nothing, wherever they stand in the list.
pub proof fn law_weight_depends_only_on_valid_registered_witnesses(
    signers: Seq<Signer>,
    digest: Seq<u64>,
    ws1: Seq<WitnessModel>,
    vs1: Seq<bool>,
    ws2: Seq<WitnessModel>,
    vs2: Seq<bool>,
)
    requires
        valid_registered_witnesses_covered(signers, ws1, vs1, ws2, vs2),
        valid_registered_witnesses_covered(signers, ws2, vs2, ws1, vs1),
    ensures
        approved_weight(signers, digest, ws1, vs1) == approved_weight(signers, digest, ws2, vs2),
{
    assert forall|k: int| 0 <= k < signers.len() implies signer_approved(
        signers[k].public_key,
        digest,
        ws1,
        vs1,
    ) == signer_approved(signers[k].public_key, digest, ws2, vs2) by {
        let key = signers[k].public_key;
        assert(has_key(signers, key));
        if signer_approved(key, digest, ws1, vs1) {
            let j = choose|j: int|
                #![trigger ws1[j]]
                0 <= j < ws1.len() && j < vs1.len() && vs1[j] && ws1[j].signer == key
                    && ws1[j].binding_key == binding_of(key, digest);
            assert(has_valid_witness(ws2, vs2, ws1[j].signer, ws1[j].binding_key));
            let i = choose|i: int|
                #![trigger ws2[i]]
                0 <= i < ws2.len() && i < vs2.len() && vs2[i] && ws2[i].signer == ws1[j].signer
                    && ws2[i].binding_key == ws1[j].binding_key;
            assert(ws2[i].signer == key);
        }
        if signer_approved(key, digest, ws2, vs2) {
            let j = choose|j: int|
                #![trigger ws2[j]]
                0 <= j < ws2.len() && j < vs2.len() && vs2[j] && ws2[j].signer == key
                    && ws2[j].binding_key == binding_of(key, digest);
            assert(has_valid_witness(ws1, vs1, ws2[j].signer, ws2[j].binding_key));
            let i = choose|i: int|
                #![trigger ws1[i]]
                0 <= i < ws1.len() && i < vs1.len() && vs1[i] && ws1[i].signer == ws2[j].signer
                    && ws1[i].binding_key == ws2[j].binding_key;
            assert(ws1[i].signer == key);
        }
    }
    lemma_approved_weight_congruent(signers, digest, ws1, vs1, ws2, vs2);
}

/// Every committed mutation keeps the cached total weight equal to the sum of the signers'
/// weights, together with the rest of the registry's invariant; any other outcome leaves the
/// registry as it was.
pub proof fn law_total_weight_is_sum_after_authorization(
    acct: AccountModel,
    digest: [u64; 4],
    a: ActionModel,
    ws: Seq<WitnessModel>,
    verdicts: Seq<bool>,
)
    requires
        acct.registry.wf(),
    ensures
        ({
            let after = account_after(
                acct,
                digest,
                a,
                authorization_outcome(acct, digest, a, ws, verdicts),
            );
            after.registry.wf() && after.registry.total_weight == weight_sum(after.registry.signers)
        }),
{
    if let ActionModel::Registry(m) = a {
        if acct.registry.mutation_error(m) is None {
            lemma_apply_keeps_invariant(acct.registry, m);
        }
    }
}

/// A proposal followed at once by its authorization, with valid signatures from signers whose
/// combined weight reaches the threshold, is executed.
pub proof fn law_proposal_signed_by_threshold_is_executed(
    acct: AccountModel,
    a: ActionModel,
    digest: [u64; 4],
    collected: Seq<Option<Vec<u8>>>,
    verdicts: Seq<bool>,
)
    requires
        acct.registry.wf(),
        propose_result(acct, a) == Ok::<Seq<u64>, ProposeError>(digest@),
        verdicts.len() >= built_witnesses(acct.registry.signers, digest@, collected).len(),
        forall|j: int|
            0 <= j < built_witnesses(acct.registry.signers, digest@, collected).len()
                ==> #[trigger] verdicts[j],
        collected_weight(acct.registry.signers, collected) >= acct.registry.threshold,
    ensures
        authorization_outcome(
            acct,
            digest,
            a,
            built_witnesses(acct.registry.signers, digest@, collected),
            verdicts,
        ) == (AuthorizationOutcome::Executed { digest }),
{
    let s = acct.registry.signers;
    let ws = built_witnesses(s, digest@, collected);
    lemma_built_witnesses(s, digest@, collected);
    assert forall|k: int| 0 <= k < s.len() implies signer_approved(s[k].public_key, digest@, ws, verdicts)
        == (k < collected.len() && collected[k] is Some) by {
        if signer_approved(s[k].public_key, digest@, ws, verdicts) {
            let j = choose|j: int|
                #![trigger ws[j]]
                0 <= j < ws.len() && j < verdicts.len() && verdicts[j] && ws[j].signer
                    == s[k].public_key && ws[j].binding_key == binding_of(s[k].public_key, digest@);
            let i = choose|i: int|
                0 <= i < s.len() && i < collected.len() && collected[i] is Some
                    && #[trigger] ws[j].signer == s[i].public_key;
            assert(keys_unique(s));
            assert(i == k);
        }
        if k < collected.len() && collected[k] is Some {
            let j = choose|j: int|
                0 <= j < ws.len() && #[trigger] ws[j].signer == s[k].public_key
                    && ws[j].binding_key == binding_of(s[k].public_key, digest@);
            assert(0 <= j < ws.len() && j < verdicts.len() && verdicts[j] && ws[j].signer
                == s[k].public_key && ws[j].binding_key == binding_of(s[k].public_key, digest@));
        }
    }
    lemma_approved_is_collected(s, digest@, ws, verdicts, collected);
}

/// Witnesses that were not found valid add no weight, however many of them are added.
pub proof fn law_invalid_witnesses_add_no_weight(
    signers: Seq<Signer>,
    digest: Seq<u64>,
    ws: Seq<WitnessModel>,
    verdicts: Seq<bool>,
    extra: Seq<WitnessModel>,
    extra_verdicts: Seq<bool>,
)
    requires
        verdicts.len() == ws.len(),
        forall|j: int| 0 <= j < extra_verdicts.len() ==> !extra_verdicts[j],
    ensures
        approved_weight(signers, digest, ws + extra, verdicts + extra_verdicts) == approved_weight(
            signers,
            digest,
            ws,
            verdicts,
        ),
{
    let ws2 = ws + extra;
    let vs2 = verdicts + extra_verdicts;
    assert forall|k: int| 0 <= k < signers.len() implies signer_approved(
        signers[k].public_key,
        digest,
        ws2,
        vs2,
    ) == signer_approved(signers[k].public_key, digest, ws, verdicts) by {
        let key = signers[k].public_key;
        if signer_approved(key, digest, ws2, vs2) {
            let j = choose|j: int|
                #![trigger ws2[j]]
                0 <= j < ws2.len() && j < vs2.len() && vs2[j] && ws2[j].signer == key
                    && ws2[j].binding_key == binding_of(key, digest);
            if j >= ws.len() {
                assert(vs2[j] == extra_verdicts[j - ws.len()]);
            }
            assert(ws2[j] == ws[j]);
        }
        if signer_approved(key, digest, ws, verdicts) {
            let j = choose|j: int|
                #![trigger ws[j]]
                0 <= j < ws.len() && j < verdicts.len() && verdicts[j] && ws[j].signer == key
                    && ws[j].binding_key == binding_of(key, digest);
            assert(ws2[j] == ws[j] && vs2[j] == verdicts[j]);
        }
    }
    lemma_approved_weight_congruent(signers, digest, ws2, vs2, ws, verdicts);
}

/// A fresh proposal of a well-formed action whose valid signatures weigh less than the threshold
/// yields `InsufficientWeight`, whatever number of invalid signatures comes with them, and
/// leaves the account unchanged.
pub proof fn law_insufficient_weight_despite_invalid_signatures(
    acct: AccountModel,
    digest: [u64; 4],
    a: ActionModel,
    ws: Seq<WitnessModel>,
    verdicts: Seq<bool>,
    extra: Seq<WitnessModel>,
    extra_verdicts: Seq<bool>,
)
    requires
        acct.registry.wf(),
        digest@ == action_digest(acct.commitment, a),
        payload_is_felts(a),
        action_error(acct.registry, a) is None,
        verdicts.len() == ws.len(),
        approved_weight(acct.registry.signers, digest@, ws, verdicts) < acct.registry.threshold,
        forall|j: int| 0 <= j < extra_verdicts.len() ==> !extra_verdicts[j],
    ensures
        ({
            let outcome = authorization_outcome(
                acct,
                digest,
                a,
                ws + extra,
                verdicts + extra_verdicts,
            );
            &&& outcome == (AuthorizationOutcome::InsufficientWeight {
                collected: approved_weight(acct.registry.signers, digest@, ws, verdicts) as u64,
                threshold: acct.registry.threshold as u64,
            })
            &&& account_after(acct, digest, a, outcome) == acct
        }),
{
    law_invalid_witnesses_add_no_weight(
        acct.registry.signers,
        digest@,
        ws,
        verdicts,
        extra,
        extra_verdicts,
    );
}

/// A fresh proposal of a well-formed action yields `InsufficientWeight` with any witness set
/// whose valid witnesses of registered signers are those of a set that weighs less than the
/// threshold, whatever invalid, repeated or unregistered witnesses surround them and wherever
/// they stand; the account is left unchanged.
pub proof fn law_insufficient_weight_whatever_else_is_submitted(
    acct: AccountModel,
    digest: [u64; 4],
    a: ActionModel,
    ws: Seq<WitnessModel>,
    verdicts: Seq<bool>,
    submitted: Seq<WitnessModel>,
    submitted_verdicts: Seq<bool>,
)
    requires
        acct.registry.wf(),
        digest@ == action_digest(acct.commitment, a),
        payload_is_felts(a),
        action_error(acct.registry, a) is None,
        approved_weight(acct.registry.signers, digest@, ws, verdicts) < acct.registry.threshold,
        valid_registered_witnesses_covered(acct.registry.signers, ws, verdicts, submitted, submitted_verdicts),
        valid_registered_witnesses_covered(acct.registry.signers, submitted, submitted_verdicts, ws, verdicts),
    ensures
        ({
            let outcome = authorization_outcome(acct, digest, a, submitted, submitted_verdicts);
            &&& outcome == (AuthorizationOutcome::InsufficientWeight {
                collected: approved_weight(acct.registry.signers, digest@, ws, verdicts) as u64,
                threshold: acct.registry.threshold as u64,
            })
            &&& account_after(acct, digest, a, outcome) == acct
        }),
{
    law_weight_depends_only_on_valid_registered_witnesses(
        acct.registry.signers,
        digest@,
        ws,
        verdicts,
        submitted,
        submitted_verdicts,
    );
}

/// Submitting once more a witness that was already submitted, with the same verdict, adds no
/// weight: each signer counts once, and never for more than the registry's total weight.
pub proof fn law_resubmitted_witness_adds_no_weight(
    signers: Seq<Signer>,
    digest: Seq<u64>,
    ws: Seq<WitnessModel>,
    verdicts: Seq<bool>,
    j: int,
)
    requires
        verdicts.len() == ws.len(),
        0 <= j < ws.len(),
    ensures
        approved_weight(signers, digest, ws.push(ws[j]), verdicts.push(verdicts[j]))
            == approved_weight(signers, digest, ws, verdicts),
        approved_weight(signers, digest, ws, verdicts) <= weight_sum(signers),
{
    let ws2 = ws.push(ws[j]);
    let vs2 = verdicts.push(verdicts[j]);
    assert forall|k: int| 0 <= k < signers.len() implies signer_approved(
        signers[k].public_key,
        digest,
        ws2,
        vs2,
    ) == signer_approved(signers[k].public_key, digest, ws, verdicts) by {
        let key = signers[k].public_key;
        if signer_approved(key, digest, ws2, vs2) {
            let b = choose|b: int|
                #![trigger ws2[b]]
                0 <= b < ws2.len() && b < vs2.len() && vs2[b] && ws2[b].signer == key
                    && ws2[b].binding_key == binding_of(key, digest);
            if b == ws.len() {
                assert(ws2[b] == ws[j] && vs2[b] == verdicts[j]);
            } else {
                assert(ws2[b] == ws[b] && vs2[b] == verdicts[b]);
            }
        }
        if signer_approved(key, digest, ws, verdicts) {
            let b = choose|b: int|
                #![trigger ws[b]]
                0 <= b < ws.len() && b < verdicts.len() && verdicts[b] && ws[b].signer == key
                    && ws[b].binding_key == binding_of(key, digest);
            assert(ws2[b] == ws[b] && vs2[b] == verdicts[b]);
        }
    }
    lemma_approved_weight_congruent(signers, digest, ws2, vs2, ws, verdicts);
    lemma_approved_weight_bounds(signers, digest, ws, verdicts);
}

/// A forged signature resubmitted for a registered signer adds nothing: a witness that was not
/// found valid never counts.
pub proof fn law_forged_resubmission_adds_no_weight(
    signers: Seq<Signer>,
    digest: Seq<u64>,
    ws: Seq<WitnessModel>,
    verdicts: Seq<bool>,
    forged: WitnessModel,
)
    requires
        verdicts.len() == ws.len(),
    ensures
        approved_weight(signers, digest, ws.push(forged), verdicts.push(false)) == approved_weight(
            signers,
            digest,
            ws,
            verdicts,
        ),
{
    law_invalid_witnesses_add_no_weight(signers, digest, ws, verdicts, seq![forged], seq![false]);
    assert(ws.push(forged) =~= ws + seq![forged]);
    assert(verdicts.push(false) =~= verdicts + seq![false]);
}

/// A witness for a public key that is not registered adds no weight, even when it is valid.
pub proof fn law_unregistered_key_adds_no_weight(
    signers: Seq<Signer>,
    digest: Seq<u64>,
    ws: Seq<WitnessModel>,
    verdicts: Seq<bool>,
    w: WitnessModel,
    verdict: bool,
)
    requires
        verdicts.len() == ws.len(),
        !has_key(signers, w.signer),
    ensures
        approved_weight(signers, digest, ws.push(w), verdicts.push(verdict)) == approved_weight(
            signers,
            digest,
            ws,
            verdicts,
        ),
{
    let ws2 = ws.push(w);
    let vs2 = verdicts.push(verdict);
    assert forall|k: int| 0 <= k < signers.len() implies signer_approved(
        signers[k].public_key,
        digest,
        ws2,
        vs2,
    ) == signer_approved(signers[k].public_key, digest, ws, verdicts) by {
        let key = signers[k].public_key;
        if signer_approved(key, digest, ws2, vs2) {
            let b = choose|b: int|
                #![trigger ws2[b]]
                0 <= b < ws2.len() && b < vs2.len() && vs2[b] && ws2[b].signer == key
                    && ws2[b].binding_key == binding_of(key, digest);
            assert(b != ws.len());
            assert(ws2[b] == ws[b] && vs2[b] == verdicts[b]);
        }
        if signer_approved(key, digest, ws, verdicts) {
            let b = choose|b: int|
                #![trigger ws[b]]
                0 <= b < ws.len() && b < verdicts.len() && verdicts[b] && ws[b].signer == key
                    && ws[b].binding_key == binding_of(key, digest);
            assert(ws2[b] == ws[b] && vs2[b] == verdicts[b]);
        }
    }
    lemma_approved_weight_congruent(signers, digest, ws2, vs2, ws, verdicts);
}

/// Removing a signer whose weight would leave the total below the threshold is rejected as a
/// malformed mutation: at proposal, and at authorization whatever the witnesses and verdicts,
/// including valid signatures from every remaining signer. The account is never changed by it.
pub proof fn law_unreachable_threshold_removal_rejected(
    acct: AccountModel,
    public_key: [u64; 4],
    digest: [u64; 4],
    ws: Seq<WitnessModel>,
    verdicts: Seq<bool>,
)
    requires
        acct.registry.wf(),
        has_key(acct.registry.signers, public_key),
        acct.registry.total_weight - weight_of(acct.registry.signers, public_key)
            < acct.registry.threshold,
    ensures
        ({
            let a = ActionModel::Registry(Mutation::RemoveSigner { public_key });
            let outcome = authorization_outcome(acct, digest, a, ws, verdicts);
            &&& propose_result(acct, a) == Err::<Seq<u64>, ProposeError>(
                ProposeError::MalformedMutation(MutationError::ThresholdUnreachable),
            )
            &&& digest@ == action_digest(acct.commitment, a) ==> outcome
                == AuthorizationOutcome::Rejected(
                RejectReason::MalformedMutation(MutationError::ThresholdUnreachable),
            )
            &&& outcome is Rejected
            &&& account_after(acct, digest, a, outcome) == acct
        }),
{
}

/// Changing the threshold to its current value is rejected as a no-op, at proposal and at
/// authorization, independently of the signatures supplied.
pub proof fn law_unchanged_threshold_rejected(
    acct: AccountModel,
    digest: [u64; 4],
    ws: Seq<WitnessModel>,
    verdicts: Seq<bool>,
)
    requires
        acct.registry.wf(),
    ensures
        ({
            let a = ActionModel::Registry(
                Mutation::ChangeThreshold { threshold: acct.registry.threshold as u64 },
            );
            let outcome = authorization_outcome(acct, digest, a, ws, verdicts);
            &&& propose_result(acct, a) == Err::<Seq<u64>, ProposeError>(
                ProposeError::MalformedMutation(MutationError::UnchangedThreshold),
            )
            &&& digest@ == action_digest(acct.commitment, a) ==> outcome
                == AuthorizationOutcome::Rejected(
                RejectReason::MalformedMutation(MutationError::UnchangedThreshold),
            )
            &&& outcome is Rejected
            &&& account_after(acct, digest, a, outcome) == acct
        }),
{
}

} // verus!
