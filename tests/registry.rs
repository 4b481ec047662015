use weighted_multisig::registry::{Mutation, MutationError, Signer, SignerRegistry, MAX_TOTAL_WEIGHT};
use weighted_multisig::word::FIELD_MODULUS;

const A: [u64; 4] = [11, 12, 13, 14];
const B: [u64; 4] = [21, 22, 23, 24];
const C: [u64; 4] = [31, 32, 33, 34];
const D: [u64; 4] = [41, 42, 43, 44];

fn signer(public_key: [u64; 4], weight: u64) -> Signer {
    Signer { public_key, weight }
}

fn abc() -> SignerRegistry {
    SignerRegistry::new(vec![signer(A, 2), signer(B, 1), signer(C, 1)], 3).unwrap()
}

#[test]
fn new_registry_caches_total_weight() {
    let reg = abc();
    assert_eq!(reg.total_weight(), 4);
    assert_eq!(reg.threshold(), 3);
    assert_eq!(reg.signers().len(), 3);
    assert_eq!(reg.signers()[0], signer(A, 2));
}

#[test]
fn new_registry_rejects_duplicate_keys() {
    let r = SignerRegistry::new(vec![signer(A, 2), signer(B, 1), signer(A, 1)], 2);
    assert_eq!(r.err(), Some(MutationError::DuplicateSigner));
}

#[test]
fn new_registry_rejects_zero_weight() {
    let r = SignerRegistry::new(vec![signer(A, 2), signer(B, 0)], 1);
    assert_eq!(r.err(), Some(MutationError::InvalidWeight));
}

#[test]
fn new_registry_rejects_total_out_of_range() {
    let r = SignerRegistry::new(vec![signer(A, MAX_TOTAL_WEIGHT), signer(B, 1)], 1);
    assert_eq!(r.err(), Some(MutationError::InvalidWeight));
    let r = SignerRegistry::new(vec![signer(A, u64::MAX), signer(B, u64::MAX)], 1);
    assert_eq!(r.err(), Some(MutationError::InvalidWeight));
}

#[test]
fn new_registry_accepts_largest_total() {
    let reg = SignerRegistry::new(vec![signer(A, MAX_TOTAL_WEIGHT - 1), signer(B, 1)], 5).unwrap();
    assert_eq!(reg.total_weight(), MAX_TOTAL_WEIGHT);
}

#[test]
fn new_registry_rejects_unreachable_or_zero_threshold() {
    let r = SignerRegistry::new(vec![signer(A, 2), signer(B, 1)], 4);
    assert_eq!(r.err(), Some(MutationError::InvalidThreshold));
    let r = SignerRegistry::new(vec![signer(A, 2), signer(B, 1)], 0);
    assert_eq!(r.err(), Some(MutationError::InvalidThreshold));
}

#[test]
fn new_registry_rejects_empty_signer_set() {
    let r = SignerRegistry::new(vec![], 1);
    assert_eq!(r.err(), Some(MutationError::InvalidThreshold));
}

#[test]
fn duplicate_key_is_reported_before_weight_and_threshold() {
    let r = SignerRegistry::new(vec![signer(A, 0), signer(A, 0)], 0);
    assert_eq!(r.err(), Some(MutationError::DuplicateSigner));
}

#[test]
fn signer_weight_looks_up_registered_keys() {
    let reg = abc();
    assert_eq!(reg.signer_weight(&A), Some(2));
    assert_eq!(reg.signer_weight(&C), Some(1));
    assert_eq!(reg.signer_weight(&D), None);
}

#[test]
fn check_add_signer() {
    let reg = abc();
    assert_eq!(reg.check_mutation(&Mutation::AddSigner { public_key: D, weight: 1 }), None);
    assert_eq!(
        reg.check_mutation(&Mutation::AddSigner { public_key: B, weight: 1 }),
        Some(MutationError::DuplicateSigner)
    );
    assert_eq!(
        reg.check_mutation(&Mutation::AddSigner { public_key: D, weight: 0 }),
        Some(MutationError::InvalidWeight)
    );
    assert_eq!(
        reg.check_mutation(&Mutation::AddSigner { public_key: D, weight: MAX_TOTAL_WEIGHT - 3 }),
        Some(MutationError::InvalidWeight)
    );
    assert_eq!(
        reg.check_mutation(&Mutation::AddSigner { public_key: D, weight: MAX_TOTAL_WEIGHT - 4 }),
        None
    );
}

#[test]
fn check_remove_signer() {
    let reg = abc();
    assert_eq!(reg.check_mutation(&Mutation::RemoveSigner { public_key: C }), None);
    assert_eq!(
        reg.check_mutation(&Mutation::RemoveSigner { public_key: D }),
        Some(MutationError::UnknownSigner)
    );
    assert_eq!(
        reg.check_mutation(&Mutation::RemoveSigner { public_key: A }),
        Some(MutationError::ThresholdUnreachable)
    );
}

#[test]
fn check_change_threshold() {
    let reg = abc();
    assert_eq!(reg.check_mutation(&Mutation::ChangeThreshold { threshold: 4 }), None);
    assert_eq!(reg.check_mutation(&Mutation::ChangeThreshold { threshold: 1 }), None);
    assert_eq!(
        reg.check_mutation(&Mutation::ChangeThreshold { threshold: 3 }),
        Some(MutationError::UnchangedThreshold)
    );
    assert_eq!(
        reg.check_mutation(&Mutation::ChangeThreshold { threshold: 0 }),
        Some(MutationError::InvalidThreshold)
    );
    assert_eq!(
        reg.check_mutation(&Mutation::ChangeThreshold { threshold: 5 }),
        Some(MutationError::InvalidThreshold)
    );
}

#[test]
fn keys_must_be_field_elements() {
    let r = SignerRegistry::new(vec![signer([FIELD_MODULUS, 0, 0, 0], 2), signer(B, 1)], 1);
    assert_eq!(r.err(), Some(MutationError::InvalidKey));
    // The key reduces to [0, 0, 0, 0]: admitting it would register one engine word twice.
    let reg = SignerRegistry::new(vec![signer([0, 0, 0, 0], 2), signer(B, 1)], 1).unwrap();
    assert_eq!(
        reg.check_mutation(&Mutation::AddSigner { public_key: [FIELD_MODULUS, 0, 0, 0], weight: 1 }),
        Some(MutationError::InvalidKey)
    );
}
