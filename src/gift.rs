//! The commitment that locks a gift note to a secret.
use crate::hash::{hash_elements, rpo_hash};
use vstd::prelude::*;

verus! {

/// The digest a gift note stores for `secret`: the hash of an empty word followed by the
/// secret's four elements. Whoever shows the secret can consume the note.
pub fn gift_secret_digest(secret: &[u64; 4]) -> (r: [u64; 4])
    ensures
        r@ == rpo_hash(seq![0u64, 0u64, 0u64, 0u64] + secret@),
{
    let mut elements: Vec<u64> = Vec::new();
    elements.push(0);
    elements.push(0);
    elements.push(0);
    elements.push(0);
    elements.push(secret[0]);
    elements.push(secret[1]);
    elements.push(secret[2]);
    elements.push(secret[3]);
    assert(elements@ =~= seq![0u64, 0u64, 0u64, 0u64] + secret@);
    hash_elements(&elements)
}

} // verus!
