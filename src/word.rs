//! Words: four field elements, held as `u64` values.
use vstd::prelude::*;

verus! {

/// The modulus of the Miden VM's field, 2^64 - 2^32 + 1.
pub const FIELD_MODULUS: u64 = 0xFFFF_FFFF_0000_0001;

/// Every value is the canonical form of a field element. The hasher reduces each value modulo
/// the field, so only such values are hashed as themselves.
pub open spec fn are_felts(s: Seq<u64>) -> bool {
    forall|i: int| 0 <= i < s.len() ==> #[trigger] s[i] < FIELD_MODULUS
}

/// Whether every element of the word is a canonical field element.
pub fn is_felt_word(w: &[u64; 4]) -> (r: bool)
    ensures
        r == are_felts(w@),
{
    let r = w[0] < FIELD_MODULUS && w[1] < FIELD_MODULUS && w[2] < FIELD_MODULUS && w[3]
        < FIELD_MODULUS;
    proof {
        if !r {
            if w[0] >= FIELD_MODULUS {
                assert(w@[0] >= FIELD_MODULUS);
            } else if w[1] >= FIELD_MODULUS {
                assert(w@[1] >= FIELD_MODULUS);
            } else if w[2] >= FIELD_MODULUS {
                assert(w@[2] >= FIELD_MODULUS);
            } else {
                assert(w@[3] >= FIELD_MODULUS);
            }
        }
    }
    r
}

/// Whether every value is a canonical field element.
pub fn are_all_felts(values: &Vec<u64>) -> (r: bool)
    ensures
        r == are_felts(values@),
{
    let n = values.len();
    for i in 0..n
        invariant
            n == values@.len(),
            forall|j: int| 0 <= j < i ==> #[trigger] values@[j] < FIELD_MODULUS,
    {
        if values[i] >= FIELD_MODULUS {
            assert(values@[i as int] >= FIELD_MODULUS);
            return false;
        }
    }
    true
}

/// A word holding `element` in its first position and zero elsewhere.
pub fn prepare_felt_vec(element: u64) -> (r: [u64; 4])
    ensures
        r@ == seq![element, 0u64, 0u64, 0u64],
{
    let r = [element, 0, 0, 0];
    assert(r@ =~= seq![element, 0u64, 0u64, 0u64]);
    r
}

/// Element-wise comparison of two words.
pub fn words_equal(a: &[u64; 4], b: &[u64; 4]) -> (r: bool)
    ensures
        r == (*a == *b),
{
    let r = a[0] == b[0] && a[1] == b[1] && a[2] == b[2] && a[3] == b[3];
    if r {
        assert(a@ =~= b@);
        proof {
            lemma_view_determines_word(*a, *b);
        }
    }
    r
}

/// Two words with the same elements are the same word.
pub proof fn lemma_view_determines_word(a: [u64; 4], b: [u64; 4])
    requires
        a@ == b@,
    ensures
        a == b,
{
    assert(a =~= b);
}

} // verus!
