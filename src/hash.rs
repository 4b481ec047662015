//! The RPO-256 hash function of the Miden VM, as the library relies on it.
//!
//! Elements are handed to the hasher as field elements built with `Felt::new`; digests come back
//! as the canonical values of their four elements.
use miden_objects::{Felt, Hasher, Word};
use vstd::prelude::*;

verus! {

/// The digest that `Rpo256::merge` computes for two words.
pub uninterp spec fn rpo_merge(left: Seq<u64>, right: Seq<u64>) -> Seq<u64>;

/// The digest that `Rpo256::hash_elements` computes for a sequence of field elements.
pub uninterp spec fn rpo_hash(elements: Seq<u64>) -> Seq<u64>;

/// Relies on `miden_objects::Hasher::merge` (`Rpo256::merge` of miden-crypto): a 2-to-1 hash of
/// two words, which depends on their elements alone.
#[verifier::external_body]
pub(crate) fn merge_words(left: &[u64; 4], right: &[u64; 4]) -> (r: [u64; 4])
    ensures
        r@ == rpo_merge(left@, right@),
{
    let left = Word::from(left.map(Felt::new));
    let right = Word::from(right.map(Felt::new));
    Hasher::merge(&[left, right]).into()
}

/// Relies on `miden_objects::Hasher::hash_elements` (`Rpo256::hash_elements` of miden-crypto):
/// a sequential hash of field elements, which depends on the elements alone.
#[verifier::external_body]
pub(crate) fn hash_elements(elements: &Vec<u64>) -> (r: [u64; 4])
    ensures
        r@ == rpo_hash(elements@),
{
    let felts: Vec<Felt> = elements.iter().map(|e| Felt::new(*e)).collect();
    Hasher::hash_elements(&felts).into()
}

} // verus!
