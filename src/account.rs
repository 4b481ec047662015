//! The multisig account: proposals and their authorization.
//!
//! An action goes through `Drafted -> Proposed -> {Authorized, Rejected}`. `propose` turns a
//! drafted action into a proposal that carries the digest to sign; `authorize` settles it.
//! Only an authorized action changes the account, and it changes it whole.
use crate::action::{
    action_digest, action_is_felts, build_digest, encode_action, needs_authorization,
    payload_is_felts, Action, ActionModel,
};
use crate::registry::{Mutation, MutationError, RegistryModel, SignerRegistry, MAX_TOTAL_WEIGHT};
use crate::word::{are_felts, FIELD_MODULUS};
use crate::witness::{approved_weight, approved_weight_of, witness_models, Witness, WitnessModel};
use crate::word::{lemma_view_determines_word, words_equal};
use vstd::prelude::*;

verus! {

/// An action together with the digest the signers must sign for it.
#[derive(Clone, Debug, PartialEq, Eq)]
pub struct Proposal {
    pub digest: [u64; 4],
    pub action: Action,
}

/// Why no proposal was made.
#[derive(Clone, Copy, Debug, PartialEq, Eq)]
pub enum ProposeError {
    /// The action changes nothing, so no signature round is needed.
    NoAuthorizationRequired,
    /// A transaction payload element is not a canonical field element.
    InvalidPayload,
    /// The registry mutation is malformed; it would be rejected whatever the signatures.
    MalformedMutation(MutationError),
}

/// Why an action was rejected without being weighed.
#[derive(Clone, Copy, Debug, PartialEq, Eq)]
pub enum RejectReason {
    /// The registry mutation breaks an invariant of the registry.
    MalformedMutation(MutationError),
    /// A transaction payload element is not a canonical field element.
    InvalidPayload,
    /// The digest no longer matches the action against the current account state.
    StaleProposal,
}

/// How an authorization attempt ended.
#[derive(Clone, Copy, Debug, PartialEq, Eq)]
pub enum AuthorizationOutcome {
    /// The action was committed; `digest` is the new commitment of the account state.
    Executed { digest: [u64; 4] },
    /// The valid signatures weigh less than the threshold.
    InsufficientWeight { collected: u64, threshold: u64 },
    /// The action was rejected before its signatures were weighed.
    Rejected(RejectReason),
}

/// An account as mathematical values: its registry and the commitment to its current state.
pub struct AccountModel {
    pub registry: RegistryModel,
    pub commitment: [u64; 4],
}

/// Why the action is malformed against the registry, if it is.
pub open spec fn action_error(r: RegistryModel, a: ActionModel) -> Option<MutationError> {
    match a {
        ActionModel::Registry(m) => r.mutation_error(m),
        ActionModel::Transaction(_) => None,
    }
}

/// The registry after the action is committed.
pub open spec fn registry_after(r: RegistryModel, a: ActionModel) -> RegistryModel {
    match a {
        ActionModel::Registry(m) => r.apply(m),
        ActionModel::Transaction(_) => r,
    }
}

/// What proposing `a` gives: the digest to sign, or why there is nothing to sign.
pub open spec fn propose_result(acct: AccountModel, a: ActionModel) -> Result<Seq<u64>, ProposeError> {
    if !needs_authorization(a) {
        Err(ProposeError::NoAuthorizationRequired)
    } else if !payload_is_felts(a) {
        Err(ProposeError::InvalidPayload)
    } else if action_error(acct.registry, a) is Some {
        Err(ProposeError::MalformedMutation(action_error(acct.registry, a)->0))
    } else {
        Ok(action_digest(acct.commitment, a))
    }
}

/// The outcome of authorizing the proposal `(digest, a)` with witnesses `ws`, where
/// `verdicts[j]` is the outcome of verifying witness `j`. Staleness is checked first, then the
/// action's validity, then the weight.
pub open spec fn authorization_outcome(
    acct: AccountModel,
    digest: [u64; 4],
    a: ActionModel,
    ws: Seq<WitnessModel>,
    verdicts: Seq<bool>,
) -> AuthorizationOutcome {
    let weight = approved_weight(acct.registry.signers, digest@, ws, verdicts);
    if digest@ != action_digest(acct.commitment, a) {
        AuthorizationOutcome::Rejected(RejectReason::StaleProposal)
    } else if !payload_is_felts(a) {
        AuthorizationOutcome::Rejected(RejectReason::InvalidPayload)
    } else if action_error(acct.registry, a) is Some {
        AuthorizationOutcome::Rejected(
            RejectReason::MalformedMutation(action_error(acct.registry, a)->0),
        )
    } else if weight < acct.registry.threshold {
        AuthorizationOutcome::InsufficientWeight {
            collected: weight as u64,
            threshold: acct.registry.threshold as u64,
        }
    } else {
        AuthorizationOutcome::Executed { digest }
    }
}

/// The account after an attempt with the given outcome: changed only when it was executed.
pub open spec fn account_after(
    acct: AccountModel,
    digest: [u64; 4],
    a: ActionModel,
    outcome: AuthorizationOutcome,
) -> AccountModel {
    if outcome is Executed {
        AccountModel { registry: registry_after(acct.registry, a), commitment: digest }
    } else {
        acct
    }
}

/// An action that passes the registry's checks is made of canonical field elements: its digest
/// commits to it as the engine sees it.
pub proof fn lemma_accepted_action_is_felts(r: RegistryModel, a: ActionModel)
    requires
        r.wf(),
        payload_is_felts(a),
        action_error(r, a) is None,
    ensures
        action_is_felts(a),
{
    let e = encode_action(a);
    match a {
        ActionModel::Registry(Mutation::RemoveSigner { public_key }) => {
            let j = choose|j: int| 0 <= j < r.signers.len() && r.signers[j].public_key == public_key;
            assert(are_felts(r.signers[j].public_key@));
            assert forall|i: int| 0 <= i < e.len() implies #[trigger] e[i] < FIELD_MODULUS by {
                if i > 0 {
                    assert(e[i] == public_key@[i - 1]);
                }
            }
        },
        ActionModel::Registry(Mutation::AddSigner { public_key, weight }) => {
            assert forall|i: int| 0 <= i < e.len() implies #[trigger] e[i] < FIELD_MODULUS by {
                if 0 < i < 5 {
                    assert(e[i] == public_key@[i - 1]);
                }
            }
        },
        ActionModel::Registry(Mutation::ChangeThreshold { threshold }) => {
            assert(threshold <= MAX_TOTAL_WEIGHT);
            assert forall|i: int| 0 <= i < e.len() implies #[trigger] e[i] < FIELD_MODULUS by {}
        },
        ActionModel::Transaction(p) => {
            assert forall|i: int| 0 <= i < e.len() implies #[trigger] e[i] < FIELD_MODULUS by {
                if i > 0 {
                    assert(e[i] == p[i - 1]);
                }
            }
        },
    }
}

/// An account controlled by a weighted signer registry.
pub struct MultisigAccount {
    registry: SignerRegistry,
    commitment: [u64; 4],
}

impl View for MultisigAccount {
    type V = AccountModel;

    closed spec fn view(&self) -> AccountModel {
        AccountModel { registry: self.registry@, commitment: self.commitment }
    }
}

impl MultisigAccount {
    /// An account with the given registry, whose initial state is committed to by `commitment`.
    pub fn new(registry: SignerRegistry, commitment: [u64; 4]) -> (r: MultisigAccount)
        requires
            registry@.wf(),
        ensures
            r@ == (AccountModel { registry: registry@, commitment }),
    {
        MultisigAccount { registry, commitment }
    }

    pub fn registry(&self) -> (r: &SignerRegistry)
        ensures
            r@ == self@.registry,
    {
        &self.registry
    }

    /// The commitment to the current account state.
    pub fn commitment(&self) -> (r: [u64; 4])
        ensures
            r == self@.commitment,
    {
        self.commitment
    }

    /// Evaluates `action` against the current state without changing it. An action that needs
    /// signatures yields the digest to sign; a malformed registry mutation fails here already.
    pub fn propose(&self, action: Action) -> (r: Result<Proposal, ProposeError>)
        requires
            self@.registry.wf(),
        ensures
            match r {
                Ok(p) => p.action@ == action@ && propose_result(self@, action@) == Ok::<
                    Seq<u64>,
                    ProposeError,
                >(p.digest@) && action_is_felts(action@),
                Err(e) => propose_result(self@, action@) == Err::<Seq<u64>, ProposeError>(e),
            },
    {
        if !action.needs_authorization() {
            return Err(ProposeError::NoAuthorizationRequired);
        }
        if !action.payload_is_felts() {
            return Err(ProposeError::InvalidPayload);
        }
        if let Action::Registry(m) = &action {
            if let Some(e) = self.registry.check_mutation(m) {
                return Err(ProposeError::MalformedMutation(e));
            }
        }
        proof {
            lemma_accepted_action_is_felts(self@.registry, action@);
        }
        let digest = build_digest(&self.commitment, &action);
        Ok(Proposal { digest, action })
    }

    /// Settles a proposal. `verdicts[j]` is the outcome of verifying the signature of
    /// `witnesses[j]` against its signer's public key and the proposal's digest; a witness
    /// without a verdict counts as invalid. The digest is recomputed against the current state,
    /// the mutation is re-checked against the current registry, and the approved weight is
    /// counted over the current signers, each at most once.
    pub fn authorize(
        &mut self,
        proposal: &Proposal,
        witnesses: &Vec<Witness>,
        verdicts: &Vec<bool>,
    ) -> (r: AuthorizationOutcome)
        requires
            old(self)@.registry.wf(),
        ensures
            r == authorization_outcome(
                old(self)@,
                proposal.digest,
                proposal.action@,
                witness_models(witnesses@),
                verdicts@,
            ),
            final(self)@ == account_after(old(self)@, proposal.digest, proposal.action@, r),
            final(self)@.registry.wf(),
    {
        let current = build_digest(&self.commitment, &proposal.action);
        if !words_equal(&current, &proposal.digest) {
            proof {
                if proposal.digest@ == current@ {
                    lemma_view_determines_word(proposal.digest, current);
                }
            }
            return AuthorizationOutcome::Rejected(RejectReason::StaleProposal);
        }
        if !proposal.action.payload_is_felts() {
            return AuthorizationOutcome::Rejected(RejectReason::InvalidPayload);
        }
        if let Action::Registry(m) = &proposal.action {
            if let Some(e) = self.registry.check_mutation(m) {
                return AuthorizationOutcome::Rejected(RejectReason::MalformedMutation(e));
            }
        }
        let weight = approved_weight_of(&self.registry, &proposal.digest, witnesses, verdicts);
        let threshold = self.registry.threshold();
        if weight < threshold {
            return AuthorizationOutcome::InsufficientWeight { collected: weight, threshold };
        }
        if let Action::Registry(m) = &proposal.action {
            self.registry.apply_mutation(m);
        }
        self.commitment = proposal.digest;
        AuthorizationOutcome::Executed { digest: proposal.digest }
    }
}

} // verus!
