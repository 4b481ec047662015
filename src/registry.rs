//! The signer registry: who may sign for an account, with what weight, and how much weight an
//! action needs.
use crate::word::{are_felts, is_felt_word, words_equal};
use vstd::prelude::*;

verus! {

/// Upper bound on the total weight of a registry. Any sum of signer weights then stays within
/// the engine's 32-bit arithmetic.
pub const MAX_TOTAL_WEIGHT: u64 = 0xFFFF_FFFF;

/// A registered signer: a public key (a commitment to a Falcon key, as a word) and its weight.
#[derive(Clone, Copy, Debug, PartialEq, Eq)]
pub struct Signer {
    pub public_key: [u64; 4],
    pub weight: u64,
}

/// An administrative change of the registry, itself authorized like any other action.
#[derive(Clone, Copy, Debug, PartialEq, Eq)]
pub enum Mutation {
    AddSigner { public_key: [u64; 4], weight: u64 },
    RemoveSigner { public_key: [u64; 4] },
    ChangeThreshold { threshold: u64 },
}

/// Why a registry or a mutation of it is malformed.
#[derive(Clone, Copy, Debug, PartialEq, Eq)]
pub enum MutationError {
    /// An element of the public key is not a canonical field element.
    InvalidKey,
    /// The public key is already registered.
    DuplicateSigner,
    /// A weight is zero, or the total weight would leave the accumulation range.
    InvalidWeight,
    /// The public key to remove is not registered.
    UnknownSigner,
    /// After the removal the remaining weight would be below the threshold.
    ThresholdUnreachable,
    /// The new threshold equals the current one.
    UnchangedThreshold,
    /// The threshold is zero or above the total weight.
    InvalidThreshold,
}

/// What a registry holds, as mathematical values.
pub struct RegistryModel {
    pub signers: Seq<Signer>,
    pub threshold: nat,
    pub total_weight: nat,
}

pub open spec fn has_key(s: Seq<Signer>, k: [u64; 4]) -> bool {
    exists|i: int| 0 <= i < s.len() && s[i].public_key == k
}

/// Every public key is a word of canonical field elements.
pub open spec fn keys_are_felts(s: Seq<Signer>) -> bool {
    forall|i: int| 0 <= i < s.len() ==> are_felts(#[trigger] s[i].public_key@)
}

pub open spec fn keys_unique(s: Seq<Signer>) -> bool {
    forall|i: int, j: int|
        0 <= i < s.len() && 0 <= j < s.len() && i != j ==> s[i].public_key != s[j].public_key
}

pub open spec fn weights_positive(s: Seq<Signer>) -> bool {
    forall|i: int| 0 <= i < s.len() ==> s[i].weight > 0
}

/// The sum of all weights.
pub open spec fn weight_sum(s: Seq<Signer>) -> int
    decreases s.len(),
{
    if s.len() == 0 {
        0
    } else {
        weight_sum(s.drop_last()) + s.last().weight
    }
}

/// The weight registered under `k` (zero when `k` is not registered).
pub open spec fn weight_of(s: Seq<Signer>, k: [u64; 4]) -> int
    decreases s.len(),
{
    if s.len() == 0 {
        0
    } else {
        weight_of(s.drop_last(), k) + if s.last().public_key == k {
            s.last().weight as int
        } else {
            0
        }
    }
}

/// The signers other than `k`, in their order.
pub open spec fn without_key(s: Seq<Signer>, k: [u64; 4]) -> Seq<Signer>
    decreases s.len(),
{
    if s.len() == 0 {
        s
    } else if s.last().public_key == k {
        without_key(s.drop_last(), k)
    } else {
        without_key(s.drop_last(), k).push(s.last())
    }
}

/// Why a signer list with a threshold does not form a registry, if it does not.
pub open spec fn registry_error(s: Seq<Signer>, threshold: nat) -> Option<MutationError> {
    if !keys_are_felts(s) {
        Some(MutationError::InvalidKey)
    } else if !keys_unique(s) {
        Some(MutationError::DuplicateSigner)
    } else if !weights_positive(s) || weight_sum(s) > MAX_TOTAL_WEIGHT {
        Some(MutationError::InvalidWeight)
    } else if threshold == 0 || threshold > weight_sum(s) {
        Some(MutationError::InvalidThreshold)
    } else {
        None
    }
}

impl RegistryModel {
    /// The registry's invariant: unique keys made of field elements, positive weights, a cached
    /// total equal to the sum of the weights and within range, and a reachable positive
    /// threshold.
    pub open spec fn wf(self) -> bool {
        &&& keys_are_felts(self.signers)
        &&& keys_unique(self.signers)
        &&& weights_positive(self.signers)
        &&& self.total_weight == weight_sum(self.signers)
        &&& self.total_weight <= MAX_TOTAL_WEIGHT
        &&& 0 < self.threshold <= self.total_weight
    }

    /// Why `m` is rejected before any signature is counted, if it is.
    pub open spec fn mutation_error(self, m: Mutation) -> Option<MutationError> {
        match m {
            Mutation::AddSigner { public_key, weight } => {
                if !are_felts(public_key@) {
                    Some(MutationError::InvalidKey)
                } else if has_key(self.signers, public_key) {
                    Some(MutationError::DuplicateSigner)
                } else if weight == 0 || self.total_weight + weight > MAX_TOTAL_WEIGHT {
                    Some(MutationError::InvalidWeight)
                } else {
                    None
                }
            },
            Mutation::RemoveSigner { public_key } => {
                if !has_key(self.signers, public_key) {
                    Some(MutationError::UnknownSigner)
                } else if self.total_weight - weight_of(self.signers, public_key) < self.threshold {
                    Some(MutationError::ThresholdUnreachable)
                } else {
                    None
                }
            },
            Mutation::ChangeThreshold { threshold } => {
                if threshold == self.threshold {
                    Some(MutationError::UnchangedThreshold)
                } else if threshold == 0 || threshold > self.total_weight {
                    Some(MutationError::InvalidThreshold)
                } else {
                    None
                }
            },
        }
    }

    /// The registry after `m` has been committed.
    pub open spec fn apply(self, m: Mutation) -> RegistryModel {
        match m {
            Mutation::AddSigner { public_key, weight } => RegistryModel {
                signers: self.signers.push(Signer { public_key, weight }),
                threshold: self.threshold,
                total_weight: self.total_weight + weight as nat,
            },
            Mutation::RemoveSigner { public_key } => RegistryModel {
                signers: without_key(self.signers, public_key),
                threshold: self.threshold,
                total_weight: (self.total_weight - weight_of(self.signers, public_key)) as nat,
            },
            Mutation::ChangeThreshold { threshold } => RegistryModel {
                signers: self.signers,
                threshold: threshold as nat,
                total_weight: self.total_weight,
            },
        }
    }
}

pub proof fn lemma_weight_sum_push(s: Seq<Signer>, x: Signer)
    ensures
        weight_sum(s.push(x)) == weight_sum(s) + x.weight,
        weight_of(s.push(x), x.public_key) == weight_of(s, x.public_key) + x.weight,
{
    assert(s.push(x).drop_last() =~= s);
}

pub proof fn lemma_weight_sum_nonneg(s: Seq<Signer>)
    ensures
        weight_sum(s) >= 0,
    decreases s.len(),
{
    if s.len() > 0 {
        lemma_weight_sum_nonneg(s.drop_last());
    }
}

/// A prefix never weighs more than the whole list.
pub proof fn lemma_weight_sum_prefix(s: Seq<Signer>, i: int)
    requires
        0 <= i <= s.len(),
    ensures
        0 <= weight_sum(s.subrange(0, i)) <= weight_sum(s),
    decreases s.len() - i,
{
    lemma_weight_sum_nonneg(s.subrange(0, i));
    if i < s.len() {
        lemma_weight_sum_prefix(s, i + 1);
        assert(s.subrange(0, i + 1).drop_last() =~= s.subrange(0, i));
    } else {
        assert(s.subrange(0, i) =~= s);
    }
}

/// With unique keys, the weight of a registered key is the weight of its one entry, and that of
/// an unregistered key is zero.
pub proof fn lemma_weight_of(s: Seq<Signer>, k: [u64; 4])
    requires
        keys_unique(s),
    ensures
        has_key(s, k) ==> forall|i: int|
            0 <= i < s.len() && s[i].public_key == k ==> weight_of(s, k) == s[i].weight,
        !has_key(s, k) ==> weight_of(s, k) == 0,
        0 <= weight_of(s, k) <= weight_sum(s),
    decreases s.len(),
{
    if s.len() > 0 {
        let p = s.drop_last();
        assert(keys_unique(p));
        lemma_weight_of(p, k);
        if s.last().public_key == k {
            assert(!has_key(p, k)) by {
                if has_key(p, k) {
                    let j = choose|j: int| 0 <= j < p.len() && p[j].public_key == k;
                    assert(s[j].public_key == s[s.len() - 1].public_key);
                }
            }
        } else {
            assert(has_key(s, k) ==> has_key(p, k)) by {
                if has_key(s, k) {
                    let j = choose|j: int| 0 <= j < s.len() && s[j].public_key == k;
                    assert(p[j].public_key == k);
                }
            }
        }
        assert forall|i: int| 0 <= i < s.len() && s[i].public_key == k implies weight_of(s, k)
            == s[i].weight by {
            if i < s.len() - 1 {
                assert(p[i] == s[i]);
            }
        }
    }
}

/// Removing a key takes exactly its weight out of the sum, and leaves the other entries as
/// they were.
pub proof fn lemma_without_key(s: Seq<Signer>, k: [u64; 4])
    ensures
        weight_sum(without_key(s, k)) == weight_sum(s) - weight_of(s, k),
        !has_key(without_key(s, k), k),
        forall|k2: [u64; 4]| has_key(without_key(s, k), k2) ==> has_key(s, k2),
        forall|k2: [u64; 4]| has_key(s, k2) && k2 != k ==> has_key(without_key(s, k), k2),
        keys_unique(s) ==> keys_unique(without_key(s, k)),
        weights_positive(s) ==> weights_positive(without_key(s, k)),
    decreases s.len(),
{
    if s.len() > 0 {
        let p = s.drop_last();
        let x = s.last();
        let r = without_key(p, k);
        lemma_without_key(p, k);
        assert forall|k2: [u64; 4]| has_key(p, k2) implies has_key(s, k2) by {
            let j = choose|j: int| 0 <= j < p.len() && p[j].public_key == k2;
            assert(s[j] == p[j]);
        }
        assert forall|k2: [u64; 4]| has_key(s, k2) && k2 != x.public_key implies has_key(p, k2) by {
            let j = choose|j: int| 0 <= j < s.len() && s[j].public_key == k2;
            assert(p[j] == s[j]);
        }
        if x.public_key != k {
            let q = r.push(x);
            assert(q.drop_last() =~= r);
            assert forall|k2: [u64; 4]| has_key(r, k2) implies has_key(q, k2) by {
                let j = choose|j: int| 0 <= j < r.len() && r[j].public_key == k2;
                assert(q[j] == r[j]);
            }
            assert(has_key(q, x.public_key)) by {
                assert(q[q.len() - 1] == x);
            }
            assert forall|k2: [u64; 4]| has_key(q, k2) implies k2 == x.public_key || has_key(r, k2) by {
                let j = choose|j: int| 0 <= j < q.len() && q[j].public_key == k2;
                if j < r.len() {
                    assert(q[j] == r[j]);
                }
            }
            if keys_unique(s) {
                assert(keys_unique(p));
                assert(!has_key(p, x.public_key)) by {
                    if has_key(p, x.public_key) {
                        let j = choose|j: int| 0 <= j < p.len() && p[j].public_key == x.public_key;
                        assert(s[j] == p[j]);
                    }
                }
                assert forall|i: int, j: int|
                    0 <= i < q.len() && 0 <= j < q.len() && i != j implies q[i].public_key
                    != q[j].public_key by {
                    if i < r.len() && j < r.len() {
                        assert(q[i] == r[i] && q[j] == r[j]);
                    } else if i < r.len() {
                        assert(q[i] == r[i]);
                        assert(has_key(r, r[i].public_key));
                    } else if j < r.len() {
                        assert(q[j] == r[j]);
                        assert(has_key(r, r[j].public_key));
                    }
                }
            }
            if weights_positive(s) {
                assert(weights_positive(p));
                assert forall|i: int| 0 <= i < q.len() implies q[i].weight > 0 by {
                    if i < r.len() {
                        assert(q[i] == r[i]);
                    }
                }
            }
        } else {
            if keys_unique(s) {
                assert(keys_unique(p));
            }
            if weights_positive(s) {
                assert(weights_positive(p));
            }
        }
    }
}

/// A committed mutation keeps the registry's invariant; in particular the cached total weight
/// is again the sum of the weights.
pub proof fn lemma_apply_keeps_invariant(m: RegistryModel, mu: Mutation)
    requires
        m.wf(),
        m.mutation_error(mu) is None,
    ensures
        m.apply(mu).wf(),
        m.apply(mu).total_weight == weight_sum(m.apply(mu).signers),
{
    match mu {
        Mutation::AddSigner { public_key, weight } => {
            let x = Signer { public_key, weight };
            let q = m.signers.push(x);
            lemma_weight_sum_push(m.signers, x);
            assert forall|i: int| 0 <= i < q.len() implies are_felts(#[trigger] q[i].public_key@) by {
                if i < m.signers.len() {
                    assert(q[i] == m.signers[i]);
                }
            }
            assert forall|i: int, j: int|
                0 <= i < q.len() && 0 <= j < q.len() && i != j implies q[i].public_key
                != q[j].public_key by {
                if i < m.signers.len() && j < m.signers.len() {
                    assert(q[i] == m.signers[i] && q[j] == m.signers[j]);
                } else if i < m.signers.len() {
                    assert(q[i] == m.signers[i]);
                } else {
                    assert(q[j] == m.signers[j]);
                }
            }
        },
        Mutation::RemoveSigner { public_key } => {
            lemma_without_key(m.signers, public_key);
            lemma_weight_of(m.signers, public_key);
            let r = without_key(m.signers, public_key);
            assert forall|i: int| 0 <= i < r.len() implies are_felts(#[trigger] r[i].public_key@) by {
                assert(has_key(r, r[i].public_key));
                assert(has_key(m.signers, r[i].public_key));
                let j = choose|j: int|
                    0 <= j < m.signers.len() && m.signers[j].public_key == r[i].public_key;
                assert(are_felts(m.signers[j].public_key@));
            }
        },
        Mutation::ChangeThreshold { threshold } => {},
    }
}

/// The signer registry of an account.
pub struct SignerRegistry {
    signers: Vec<Signer>,
    threshold: u64,
    total_weight: u64,
}

impl View for SignerRegistry {
    type V = RegistryModel;

    closed spec fn view(&self) -> RegistryModel {
        RegistryModel {
            signers: self.signers@,
            threshold: self.threshold as nat,
            total_weight: self.total_weight as nat,
        }
    }
}

impl SignerRegistry {
    /// Builds a registry from its initial signers and threshold, checking every invariant.
    pub fn new(signers: Vec<Signer>, threshold: u64) -> (r: Result<SignerRegistry, MutationError>)
        ensures
            match r {
                Ok(reg) => registry_error(signers@, threshold as nat) is None && reg@ == (
                RegistryModel {
                    signers: signers@,
                    threshold: threshold as nat,
                    total_weight: weight_sum(signers@) as nat,
                }) && reg@.wf(),
                Err(e) => registry_error(signers@, threshold as nat) == Some(e),
            },
    {
        let n = signers.len();
        for i in 0..n
            invariant
                n == signers@.len(),
                forall|a: int| 0 <= a < i ==> are_felts(#[trigger] signers@[a].public_key@),
        {
            if !is_felt_word(&signers[i].public_key) {
                return Err(MutationError::InvalidKey);
            }
        }
        for i in 0..n
            invariant
                n == signers@.len(),
                keys_are_felts(signers@),
                forall|a: int, b: int|
                    0 <= a < i && 0 <= b < i && a != b ==> signers@[a].public_key
                        != signers@[b].public_key,
        {
            for j in 0..i
                invariant
                    n == signers@.len(),
                    keys_are_felts(signers@),
                    0 <= i < n,
                    forall|b: int| 0 <= b < j ==> signers@[b].public_key != signers@[i as int].public_key,
            {
                if words_equal(&signers[j].public_key, &signers[i].public_key) {
                    return Err(MutationError::DuplicateSigner);
                }
            }
        }
        let mut total: u64 = 0;
        for i in 0..n
            invariant
                n == signers@.len(),
                keys_are_felts(signers@),
                keys_unique(signers@),
                total == weight_sum(signers@.subrange(0, i as int)),
                total <= MAX_TOTAL_WEIGHT,
                forall|a: int| 0 <= a < i ==> signers@[a].weight > 0,
        {
            proof {
                assert(signers@.subrange(0, i + 1).drop_last() =~= signers@.subrange(0, i as int));
                lemma_weight_sum_prefix(signers@, i + 1);
            }
            let w = signers[i].weight;
            if w == 0 {
                return Err(MutationError::InvalidWeight);
            }
            if w > MAX_TOTAL_WEIGHT - total {
                return Err(MutationError::InvalidWeight);
            }
            total = total + w;
        }
        proof {
            assert(signers@.subrange(0, n as int) =~= signers@);
        }
        if threshold == 0 || threshold > total {
            return Err(MutationError::InvalidThreshold);
        }
        Ok(SignerRegistry { signers, threshold, total_weight: total })
    }

    /// The signers, in registry order.
    pub fn signers(&self) -> (r: &Vec<Signer>)
        ensures
            r@ == self@.signers,
    {
        &self.signers
    }

    pub fn threshold(&self) -> (r: u64)
        ensures
            r == self@.threshold,
    {
        self.threshold
    }

    pub fn total_weight(&self) -> (r: u64)
        ensures
            r == self@.total_weight,
    {
        self.total_weight
    }

    /// The position of `public_key` in the registry, if it is registered.
    fn find(&self, public_key: &[u64; 4]) -> (r: Option<usize>)
        ensures
            match r {
                Some(i) => i < self@.signers.len() && self@.signers[i as int].public_key
                    == *public_key,
                None => !has_key(self@.signers, *public_key),
            },
    {
        let n = self.signers.len();
        for i in 0..n
            invariant
                n == self.signers@.len(),
                forall|b: int| 0 <= b < i ==> self.signers@[b].public_key != *public_key,
        {
            if words_equal(&self.signers[i].public_key, public_key) {
                return Some(i);
            }
        }
        None
    }

    /// The weight registered under `public_key`, or `None` when the key is not registered.
    pub fn signer_weight(&self, public_key: &[u64; 4]) -> (r: Option<u64>)
        requires
            self@.wf(),
        ensures
            r == if has_key(self@.signers, *public_key) {
                Some(weight_of(self@.signers, *public_key) as u64)
            } else {
                None::<u64>
            },
    {
        proof {
            lemma_weight_of(self@.signers, *public_key);
        }
        match self.find(public_key) {
            Some(i) => Some(self.signers[i].weight),
            None => None,
        }
    }

    /// Checks `m` against the registry's invariants, before any signature is counted.
    pub fn check_mutation(&self, m: &Mutation) -> (r: Option<MutationError>)
        requires
            self@.wf(),
        ensures
            r == self@.mutation_error(*m),
    {
        match m {
            Mutation::AddSigner { public_key, weight } => {
                if !is_felt_word(public_key) {
                    Some(MutationError::InvalidKey)
                } else if self.find(public_key).is_some() {
                    Some(MutationError::DuplicateSigner)
                } else if *weight == 0 || *weight > MAX_TOTAL_WEIGHT - self.total_weight {
                    Some(MutationError::InvalidWeight)
                } else {
                    None
                }
            },
            Mutation::RemoveSigner { public_key } => {
                proof {
                    lemma_weight_of(self@.signers, *public_key);
                }
                match self.find(public_key) {
                    None => Some(MutationError::UnknownSigner),
                    Some(i) => {
                        if self.total_weight - self.signers[i].weight < self.threshold {
                            Some(MutationError::ThresholdUnreachable)
                        } else {
                            None
                        }
                    },
                }
            },
            Mutation::ChangeThreshold { threshold } => {
                if *threshold == self.threshold {
                    Some(MutationError::UnchangedThreshold)
                } else if *threshold == 0 || *threshold > self.total_weight {
                    Some(MutationError::InvalidThreshold)
                } else {
                    None
                }
            },
        }
    }

    /// Commits a mutation that `check_mutation` accepted.
    pub(crate) fn apply_mutation(&mut self, m: &Mutation)
        requires
            old(self)@.wf(),
            old(self)@.mutation_error(*m) is None,
        ensures
            final(self)@ == old(self)@.apply(*m),
            final(self)@.wf(),
    {
        proof {
            lemma_apply_keeps_invariant(self@, *m);
        }
        match m {
            Mutation::AddSigner { public_key, weight } => {
                self.signers.push(Signer { public_key: *public_key, weight: *weight });
                self.total_weight = self.total_weight + *weight;
            },
            Mutation::RemoveSigner { public_key } => {
                let removed = self.signer_weight(public_key);
                let mut kept: Vec<Signer> = Vec::new();
                let n = self.signers.len();
                for i in 0..n
                    invariant
                        n == self.signers@.len(),
                        kept@ == without_key(self.signers@.subrange(0, i as int), *public_key),
                {
                    proof {
                        assert(self.signers@.subrange(0, i + 1).drop_last() =~= self.signers@.subrange(
                            0,
                            i as int,
                        ));
                    }
                    let x = self.signers[i];
                    if !words_equal(&x.public_key, public_key) {
                        kept.push(x);
                    }
                }
                proof {
                    assert(self.signers@.subrange(0, n as int) =~= self.signers@);
                    lemma_weight_of(self@.signers, *public_key);
                }
                match removed {
                    Some(w) => {
                        self.total_weight = self.total_weight - w;
                    },
                    None => {},
                }
                self.signers = kept;
            },
            Mutation::ChangeThreshold { threshold } => {
                self.threshold = *threshold;
            },
        }
    }
}

} // verus!
