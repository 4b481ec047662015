//! Actions and their digests: the canonical commitment that signers sign.
use crate::hash::{hash_elements, rpo_hash};
use crate::registry::Mutation;
use crate::word::{are_all_felts, are_felts, lemma_view_determines_word, FIELD_MODULUS};
use vstd::prelude::*;

verus! {

/// Tags that open the encoding of each kind of action.
pub const TAG_ADD_SIGNER: u64 = 1;

pub const TAG_REMOVE_SIGNER: u64 = 2;

pub const TAG_CHANGE_THRESHOLD: u64 = 3;

pub const TAG_TRANSACTION: u64 = 4;

/// A candidate action against a multisig account.
#[derive(Clone, Debug, PartialEq, Eq)]
pub enum Action {
    /// A change of the signer registry.
    Registry(Mutation),
    /// Any other transaction, given by the field elements that commit to its effects. An empty
    /// payload changes nothing.
    Transaction(Vec<u64>),
}

/// An action as a mathematical value.
pub enum ActionModel {
    Registry(Mutation),
    Transaction(Seq<u64>),
}

impl View for Action {
    type V = ActionModel;

    open spec fn view(&self) -> ActionModel {
        match self {
            Action::Registry(m) => ActionModel::Registry(*m),
            Action::Transaction(p) => ActionModel::Transaction(p@),
        }
    }
}

/// The field elements that stand for an action: a tag, then its content.
pub open spec fn encode_action(a: ActionModel) -> Seq<u64> {
    match a {
        ActionModel::Registry(Mutation::AddSigner { public_key, weight }) => seq![TAG_ADD_SIGNER]
            + public_key@ + seq![weight],
        ActionModel::Registry(Mutation::RemoveSigner { public_key }) => seq![TAG_REMOVE_SIGNER]
            + public_key@,
        ActionModel::Registry(Mutation::ChangeThreshold { threshold }) => seq![
            TAG_CHANGE_THRESHOLD,
            threshold,
        ],
        ActionModel::Transaction(p) => seq![TAG_TRANSACTION] + p,
    }
}

/// What is hashed for an action against an account state: the state's commitment, then the
/// action's encoding.
pub open spec fn digest_input(commitment: [u64; 4], a: ActionModel) -> Seq<u64> {
    commitment@ + encode_action(a)
}

/// The digest of `a` against the account state committed to by `commitment`.
pub open spec fn action_digest(commitment: [u64; 4], a: ActionModel) -> Seq<u64> {
    rpo_hash(digest_input(commitment, a))
}

/// Whether a transaction's payload is made of canonical field elements (registry mutations are
/// checked against the registry instead).
pub open spec fn payload_is_felts(a: ActionModel) -> bool {
    match a {
        ActionModel::Registry(_) => true,
        ActionModel::Transaction(p) => are_felts(p),
    }
}

/// Whether the action's whole encoding is made of canonical field elements, so that the hasher
/// sees it unreduced.
pub open spec fn action_is_felts(a: ActionModel) -> bool {
    are_felts(encode_action(a))
}

/// Whether the action changes anything, and so needs the signers' approval.
pub open spec fn needs_authorization(a: ActionModel) -> bool {
    match a {
        ActionModel::Registry(_) => true,
        ActionModel::Transaction(p) => p.len() > 0,
    }
}

impl Action {
    /// The encoding of the action.
    pub fn encode(&self) -> (r: Vec<u64>)
        ensures
            r@ == encode_action(self@),
    {
        let mut r: Vec<u64> = Vec::new();
        match self {
            Action::Registry(Mutation::AddSigner { public_key, weight }) => {
                r.push(TAG_ADD_SIGNER);
                r.push(public_key[0]);
                r.push(public_key[1]);
                r.push(public_key[2]);
                r.push(public_key[3]);
                r.push(*weight);
                assert(r@ =~= encode_action(self@));
            },
            Action::Registry(Mutation::RemoveSigner { public_key }) => {
                r.push(TAG_REMOVE_SIGNER);
                r.push(public_key[0]);
                r.push(public_key[1]);
                r.push(public_key[2]);
                r.push(public_key[3]);
                assert(r@ =~= encode_action(self@));
            },
            Action::Registry(Mutation::ChangeThreshold { threshold }) => {
                r.push(TAG_CHANGE_THRESHOLD);
                r.push(*threshold);
                assert(r@ =~= encode_action(self@));
            },
            Action::Transaction(p) => {
                r.push(TAG_TRANSACTION);
                let n = p.len();
                for i in 0..n
                    invariant
                        n == p@.len(),
                        r@ == seq![TAG_TRANSACTION] + p@.subrange(0, i as int),
                {
                    r.push(p[i]);
                    assert(r@ =~= seq![TAG_TRANSACTION] + p@.subrange(0, i + 1));
                }
                assert(r@ =~= encode_action(self@));
            },
        }
        r
    }

    /// Whether a transaction's payload is made of canonical field elements.
    pub fn payload_is_felts(&self) -> (r: bool)
        ensures
            r == payload_is_felts(self@),
    {
        match self {
            Action::Registry(_) => true,
            Action::Transaction(p) => are_all_felts(p),
        }
    }

    /// Whether the action needs the signers' approval.
    pub fn needs_authorization(&self) -> (r: bool)
        ensures
            r == needs_authorization(self@),
    {
        match self {
            Action::Registry(_) => true,
            Action::Transaction(p) => p.len() > 0,
        }
    }
}

/// The digest of `action` against the account state committed to by `commitment`.
pub fn build_digest(commitment: &[u64; 4], action: &Action) -> (r: [u64; 4])
    ensures
        r@ == action_digest(*commitment, action@),
{
    let mut input: Vec<u64> = Vec::new();
    input.push(commitment[0]);
    input.push(commitment[1]);
    input.push(commitment[2]);
    input.push(commitment[3]);
    let body = action.encode();
    let n = body.len();
    for i in 0..n
        invariant
            n == body@.len(),
            input@ == commitment@ + body@.subrange(0, i as int),
    {
        input.push(body[i]);
        assert(input@ =~= commitment@ + body@.subrange(0, i + 1));
    }
    assert(input@ =~= digest_input(*commitment, action@));
    hash_elements(&input)
}

/// Distinct actions, or distinct account states, give distinct sequences of `u64` hash inputs.
/// Together with `lemma_digest_input_felts` the sequences of field elements handed to the hasher
/// differ too, when both sides are made of canonical field elements.
pub proof fn lemma_digest_input_injective(c1: [u64; 4], a1: ActionModel, c2: [u64; 4], a2: ActionModel)
    requires
        digest_input(c1, a1) == digest_input(c2, a2),
    ensures
        c1 == c2,
        a1 == a2,
{
    let s1 = digest_input(c1, a1);
    let s2 = digest_input(c2, a2);
    assert(c1@ =~= s1.subrange(0, 4));
    assert(c2@ =~= s2.subrange(0, 4));
    lemma_view_determines_word(c1, c2);
    let e1 = encode_action(a1);
    let e2 = encode_action(a2);
    assert(e1 =~= s1.subrange(4, s1.len() as int));
    assert(e2 =~= s2.subrange(4, s2.len() as int));
    assert(e1[0] == e2[0]);
    match a1 {
        ActionModel::Registry(Mutation::AddSigner { public_key: k1, weight: w1 }) => {
            if let ActionModel::Registry(Mutation::AddSigner { public_key: k2, weight: w2 }) = a2 {
                assert(k1@ =~= e1.subrange(1, 5));
                assert(k2@ =~= e2.subrange(1, 5));
                lemma_view_determines_word(k1, k2);
                assert(e1[5] == w1 && e2[5] == w2);
            }
        },
        ActionModel::Registry(Mutation::RemoveSigner { public_key: k1 }) => {
            if let ActionModel::Registry(Mutation::RemoveSigner { public_key: k2 }) = a2 {
                assert(k1@ =~= e1.subrange(1, 5));
                assert(k2@ =~= e2.subrange(1, 5));
                lemma_view_determines_word(k1, k2);
            }
        },
        ActionModel::Registry(Mutation::ChangeThreshold { threshold: t1 }) => {
            if let ActionModel::Registry(Mutation::ChangeThreshold { threshold: t2 }) = a2 {
                assert(e1[1] == t1 && e2[1] == t2);
            }
        },
        ActionModel::Transaction(p1) => {
            if let ActionModel::Transaction(p2) = a2 {
                assert(p1 =~= e1.subrange(1, e1.len() as int));
                assert(p2 =~= e2.subrange(1, e2.len() as int));
            }
        },
    }
}

/// For a commitment and an action made of canonical field elements, every hash input is a
/// canonical field element, so the hasher's reduction leaves the input as it is.
pub proof fn lemma_digest_input_felts(commitment: [u64; 4], a: ActionModel)
    requires
        are_felts(commitment@),
        action_is_felts(a),
    ensures
        are_felts(digest_input(commitment, a)),
{
    let s = digest_input(commitment, a);
    let e = encode_action(a);
    assert forall|i: int| 0 <= i < s.len() implies #[trigger] s[i] < FIELD_MODULUS by {
        if i < 4 {
            assert(s[i] == commitment@[i]);
        } else {
            assert(s[i] == e[i - 4]);
        }
    }
}

} // verus!
