use weighted_multisig::account::{
    AuthorizationOutcome, MultisigAccount, ProposeError, RejectReason,
};
use weighted_multisig::action::Action;
use weighted_multisig::registry::{Mutation, MutationError, Signer, SignerRegistry};
use weighted_multisig::witness::{binding_key, build_witnesses, Witness};

const A: [u64; 4] = [11, 12, 13, 14];
const B: [u64; 4] = [21, 22, 23, 24];
const C: [u64; 4] = [31, 32, 33, 34];
const D: [u64; 4] = [41, 42, 43, 44];
const GENESIS: [u64; 4] = [1, 0, 0, 7];

/// Registry {A:2, B:1, C:1} with threshold 3.
fn account() -> MultisigAccount {
    let signers = vec![
        Signer { public_key: A, weight: 2 },
        Signer { public_key: B, weight: 1 },
        Signer { public_key: C, weight: 1 },
    ];
    MultisigAccount::new(SignerRegistry::new(signers, 3).unwrap(), GENESIS)
}

/// Signatures collected from the signers at the given positions.
fn collected_from(positions: &[usize], n: usize) -> Vec<Option<Vec<u8>>> {
    (0..n).map(|i| if positions.contains(&i) { Some(vec![i as u8, 0xAB]) } else { None }).collect()
}

/// Builds witnesses for the signers at `positions`, all found valid, and authorizes.
fn authorize_with(
    acct: &mut MultisigAccount,
    action: Action,
    positions: &[usize],
) -> AuthorizationOutcome {
    let proposal = acct.propose(action).unwrap();
    let n = acct.registry().signers().len();
    let ws = build_witnesses(acct.registry(), &proposal.digest, &collected_from(positions, n));
    let verdicts = vec![true; ws.len()];
    acct.authorize(&proposal, &ws, &verdicts)
}

fn transfer() -> Action {
    Action::Transaction(vec![5, 6, 7])
}

#[test]
fn enough_weight_is_authorized() {
    let mut acct = account();
    let proposal = acct.propose(transfer()).unwrap();
    let ws = build_witnesses(acct.registry(), &proposal.digest, &collected_from(&[0, 1], 3));
    assert_eq!(ws.len(), 2);
    let outcome = acct.authorize(&proposal, &ws, &vec![true, true]);
    assert_eq!(outcome, AuthorizationOutcome::Executed { digest: proposal.digest });
    assert_eq!(acct.commitment(), proposal.digest);
}

#[test]
fn too_little_weight_is_insufficient() {
    let mut acct = account();
    let outcome = authorize_with(&mut acct, transfer(), &[1, 2]);
    assert_eq!(outcome, AuthorizationOutcome::InsufficientWeight { collected: 2, threshold: 3 });
    assert_eq!(acct.commitment(), GENESIS);
}

#[test]
fn removing_heaviest_signer_is_rejected_even_with_all_signatures() {
    let mut acct = account();
    let action = Action::Registry(Mutation::RemoveSigner { public_key: A });
    assert_eq!(
        acct.propose(action.clone()).err(),
        Some(ProposeError::MalformedMutation(MutationError::ThresholdUnreachable))
    );
    // A proposal put together by hand, signed by every signer, is still rejected.
    let digest = weighted_multisig::action::build_digest(&acct.commitment(), &action);
    let proposal = weighted_multisig::account::Proposal { digest, action };
    let ws = build_witnesses(acct.registry(), &digest, &collected_from(&[0, 1, 2], 3));
    let outcome = acct.authorize(&proposal, &ws, &vec![true; 3]);
    assert_eq!(
        outcome,
        AuthorizationOutcome::Rejected(RejectReason::MalformedMutation(
            MutationError::ThresholdUnreachable
        ))
    );
    assert_eq!(acct.registry().total_weight(), 4);
    assert_eq!(acct.registry().signers().len(), 3);
}

#[test]
fn invalid_signatures_add_no_weight() {
    let mut acct = account();
    let proposal = acct.propose(transfer()).unwrap();
    let mut ws = build_witnesses(acct.registry(), &proposal.digest, &collected_from(&[1, 2], 3));
    let mut verdicts = vec![true, true];
    // Forged signatures for A, repeated.
    for _ in 0..5 {
        ws.push(Witness {
            signer: A,
            binding_key: binding_key(&A, &proposal.digest),
            signature: vec![0xFF; 8],
        });
        verdicts.push(false);
    }
    let outcome = acct.authorize(&proposal, &ws, &verdicts);
    assert_eq!(outcome, AuthorizationOutcome::InsufficientWeight { collected: 2, threshold: 3 });
}

#[test]
fn missing_verdicts_count_as_invalid() {
    let mut acct = account();
    let proposal = acct.propose(transfer()).unwrap();
    let ws = build_witnesses(acct.registry(), &proposal.digest, &collected_from(&[0, 1], 3));
    let outcome = acct.authorize(&proposal, &ws, &vec![true]);
    assert_eq!(outcome, AuthorizationOutcome::InsufficientWeight { collected: 2, threshold: 3 });
}

#[test]
fn resubmitted_signature_counts_once() {
    let mut acct = account();
    let proposal = acct.propose(transfer()).unwrap();
    let mut ws = build_witnesses(acct.registry(), &proposal.digest, &collected_from(&[0], 3));
    let first = ws[0].clone();
    ws.push(first.clone());
    ws.push(first);
    let outcome = acct.authorize(&proposal, &ws, &vec![true, true, true]);
    assert_eq!(outcome, AuthorizationOutcome::InsufficientWeight { collected: 2, threshold: 3 });
}

#[test]
fn unregistered_key_adds_no_weight() {
    let mut acct = account();
    let proposal = acct.propose(transfer()).unwrap();
    let mut ws = build_witnesses(acct.registry(), &proposal.digest, &collected_from(&[0], 3));
    ws.push(Witness {
        signer: D,
        binding_key: binding_key(&D, &proposal.digest),
        signature: vec![1, 2, 3],
    });
    let outcome = acct.authorize(&proposal, &ws, &vec![true, true]);
    assert_eq!(outcome, AuthorizationOutcome::InsufficientWeight { collected: 2, threshold: 3 });
}

#[test]
fn witness_bound_to_another_digest_adds_no_weight() {
    let mut acct = account();
    let proposal = acct.propose(transfer()).unwrap();
    let mut ws = build_witnesses(acct.registry(), &proposal.digest, &collected_from(&[0], 3));
    ws.push(Witness { signer: B, binding_key: binding_key(&B, &GENESIS), signature: vec![9] });
    let outcome = acct.authorize(&proposal, &ws, &vec![true, true]);
    assert_eq!(outcome, AuthorizationOutcome::InsufficientWeight { collected: 2, threshold: 3 });
}

#[test]
fn empty_transaction_needs_no_authorization() {
    let acct = account();
    assert_eq!(
        acct.propose(Action::Transaction(vec![])).err(),
        Some(ProposeError::NoAuthorizationRequired)
    );
}

#[test]
fn executed_action_makes_other_proposals_stale() {
    let mut acct = account();
    let first = acct.propose(transfer()).unwrap();
    let second = acct.propose(Action::Transaction(vec![8])).unwrap();
    let n = 3;
    let ws1 = build_witnesses(acct.registry(), &first.digest, &collected_from(&[0, 1], n));
    let ws2 = build_witnesses(acct.registry(), &second.digest, &collected_from(&[0, 1], n));
    assert_eq!(
        acct.authorize(&first, &ws1, &vec![true, true]),
        AuthorizationOutcome::Executed { digest: first.digest }
    );
    assert_eq!(
        acct.authorize(&second, &ws2, &vec![true, true]),
        AuthorizationOutcome::Rejected(RejectReason::StaleProposal)
    );
    // Replaying the executed proposal is stale too.
    assert_eq!(
        acct.authorize(&first, &ws1, &vec![true, true]),
        AuthorizationOutcome::Rejected(RejectReason::StaleProposal)
    );
}

#[test]
fn tampered_action_is_stale() {
    let mut acct = account();
    let mut proposal = acct.propose(transfer()).unwrap();
    proposal.action = Action::Transaction(vec![5, 6, 8]);
    let ws = build_witnesses(acct.registry(), &proposal.digest, &collected_from(&[0, 1, 2], 3));
    assert_eq!(
        acct.authorize(&proposal, &ws, &vec![true; 3]),
        AuthorizationOutcome::Rejected(RejectReason::StaleProposal)
    );
}

#[test]
fn deploy_multisig() {
    let acct = account();
    assert_eq!(acct.registry().threshold(), 3);
    assert_eq!(acct.registry().total_weight(), 4);
    assert_eq!(acct.commitment(), GENESIS);
}

#[test]
fn add_signer_success() {
    let mut acct = account();
    let action = Action::Registry(Mutation::AddSigner { public_key: D, weight: 1 });
    let outcome = authorize_with(&mut acct, action, &[0, 1]);
    assert!(matches!(outcome, AuthorizationOutcome::Executed { .. }));
    let reg = acct.registry();
    assert_eq!(reg.signer_weight(&D), Some(1));
    assert_eq!(reg.signer_weight(&A), Some(2));
    assert_eq!(reg.total_weight(), 5);
    assert_eq!(reg.signers().len(), 4);
}

#[test]
#[should_panic]
fn add_signer_with_same_public_key() {
    let acct = account();
    acct.propose(Action::Registry(Mutation::AddSigner { public_key: A, weight: 1 })).unwrap();
}

#[test]
fn add_signer_with_zero_weight_is_malformed() {
    let acct = account();
    assert_eq!(
        acct.propose(Action::Registry(Mutation::AddSigner { public_key: D, weight: 0 })).err(),
        Some(ProposeError::MalformedMutation(MutationError::InvalidWeight))
    );
}

#[test]
fn change_threshold_success() {
    let mut acct = account();
    let action = Action::Registry(Mutation::ChangeThreshold { threshold: 2 });
    let outcome = authorize_with(&mut acct, action, &[0, 2]);
    assert!(matches!(outcome, AuthorizationOutcome::Executed { .. }));
    assert_eq!(acct.registry().threshold(), 2);
    // The lower threshold now admits {B, C}.
    let outcome = authorize_with(&mut acct, transfer(), &[1, 2]);
    assert!(matches!(outcome, AuthorizationOutcome::Executed { .. }));
}

#[test]
#[should_panic]
fn change_threshold_with_same_threshold() {
    let acct = account();
    acct.propose(Action::Registry(Mutation::ChangeThreshold { threshold: 3 })).unwrap();
}

#[test]
#[should_panic]
fn change_threshold_with_invalid_threshold() {
    let acct = account();
    acct.propose(Action::Registry(Mutation::ChangeThreshold { threshold: 100 })).unwrap();
}

#[test]
fn same_threshold_is_rejected_whatever_the_signatures() {
    let mut acct = account();
    let action = Action::Registry(Mutation::ChangeThreshold { threshold: 3 });
    let digest = weighted_multisig::action::build_digest(&acct.commitment(), &action);
    let proposal = weighted_multisig::account::Proposal { digest, action };
    for positions in [&[][..], &[0, 1][..], &[0, 1, 2][..]] {
        let ws = build_witnesses(acct.registry(), &digest, &collected_from(positions, 3));
        let verdicts = vec![true; ws.len()];
        assert_eq!(
            acct.authorize(&proposal, &ws, &verdicts),
            AuthorizationOutcome::Rejected(RejectReason::MalformedMutation(
                MutationError::UnchangedThreshold
            ))
        );
    }
    assert_eq!(acct.registry().threshold(), 3);
}

#[test]
fn remove_signer_success() {
    let mut acct = account();
    let action = Action::Registry(Mutation::RemoveSigner { public_key: C });
    let outcome = authorize_with(&mut acct, action, &[0, 1]);
    assert!(matches!(outcome, AuthorizationOutcome::Executed { .. }));
    let reg = acct.registry();
    assert_eq!(reg.signer_weight(&C), None);
    assert_eq!(reg.total_weight(), 3);
    assert_eq!(reg.signers().to_vec(), vec![
        Signer { public_key: A, weight: 2 },
        Signer { public_key: B, weight: 1 },
    ]);
}

#[test]
#[should_panic]
fn remove_signer_with_non_signer() {
    let acct = account();
    acct.propose(Action::Registry(Mutation::RemoveSigner { public_key: D })).unwrap();
}

#[test]
#[should_panic]
fn remove_signer_causing_threshold_unreachable() {
    let acct = account();
    acct.propose(Action::Registry(Mutation::RemoveSigner { public_key: A })).unwrap();
}

#[test]
fn removed_signer_no_longer_counts() {
    let mut acct = account();
    let action = Action::Registry(Mutation::RemoveSigner { public_key: C });
    authorize_with(&mut acct, action, &[0, 1]);
    let add = Action::Registry(Mutation::AddSigner { public_key: D, weight: 1 });
    authorize_with(&mut acct, add, &[0, 1]);
    // Positions now are A, B, D; a stale witness from C carries nothing.
    let proposal = acct.propose(transfer()).unwrap();
    let mut ws = build_witnesses(acct.registry(), &proposal.digest, &collected_from(&[0], 3));
    ws.push(Witness { signer: C, binding_key: binding_key(&C, &proposal.digest), signature: vec![3] });
    assert_eq!(
        acct.authorize(&proposal, &ws, &vec![true, true]),
        AuthorizationOutcome::InsufficientWeight { collected: 2, threshold: 3 }
    );
}

#[test]
fn transaction_payload_must_be_field_elements() {
    let mut acct = account();
    let action = Action::Transaction(vec![1, u64::MAX]);
    assert_eq!(acct.propose(action.clone()).err(), Some(ProposeError::InvalidPayload));
    let digest = weighted_multisig::action::build_digest(&acct.commitment(), &action);
    let proposal = weighted_multisig::account::Proposal { digest, action };
    let ws = build_witnesses(acct.registry(), &digest, &collected_from(&[0, 1, 2], 3));
    assert_eq!(
        acct.authorize(&proposal, &ws, &vec![true; 3]),
        AuthorizationOutcome::Rejected(RejectReason::InvalidPayload)
    );
}

#[test]
fn forged_witnesses_placed_first_do_not_block_valid_ones() {
    let mut acct = account();
    let proposal = acct.propose(transfer()).unwrap();
    let built = build_witnesses(acct.registry(), &proposal.digest, &collected_from(&[0, 1], 3));
    let forged = Witness {
        signer: A,
        binding_key: binding_key(&A, &proposal.digest),
        signature: vec![0xEE],
    };
    let ws = vec![forged.clone(), built[1].clone(), forged, built[0].clone()];
    let outcome = acct.authorize(&proposal, &ws, &vec![false, true, false, true]);
    assert_eq!(outcome, AuthorizationOutcome::Executed { digest: proposal.digest });
}
