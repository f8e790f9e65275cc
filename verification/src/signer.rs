//! Construction of the multi-signature signer for governance updates:
//! the caller's local key-pairs, each tagged with its on-chain index, are
//! validated against the chain's authorization parameters (authorized key
//! indices and required threshold) before any network submission is
//! attempted, and the resulting signer signs once per held index, in
//! ascending index order.
use vstd::prelude::*;
use vstd::multiset::Multiset;
use crate::errors::Error;

verus! {

broadcast use vstd::seq_lib::group_to_multiset_ensures;

/// A local key-pair for signing updates, carrying the on-chain key index
/// it claims, as read from the key file. The key material itself is
/// opaque to this crate: only the signature capability reads it.
#[derive(Debug)]
pub struct UpdateKeyPair {
    /// The on-chain index of this key in the relevant update category.
    pub index: u16,
    /// Opaque key material handed to the signature capability.
    pub key: Vec<u8>,
}

/// One entry of the on-chain mapping from key index to public key for an
/// update category.
#[derive(Debug)]
pub struct UpdatePublicKey {
    pub index: u16,
    pub key: Vec<u8>,
}

/// Chain authorization parameters for one update category: the mapping
/// from key index to public key, and the number of distinct authorized
/// signatures the category requires.
#[derive(Debug)]
pub struct Authorization {
    pub keys: Vec<UpdatePublicKey>,
    pub threshold: u16,
}

/// The opaque signing primitive: produces a signature over a message from
/// key material. Implementations live outside this crate; nothing about
/// the signature bytes is assumed here.
pub trait SignCapability {
    fn sign(&self, key: &Vec<u8>, message: &Vec<u8>) -> Vec<u8>;
}

/// A signature tagged with the on-chain index of the key that produced it.
#[derive(Debug)]
pub struct IndexedSignature {
    pub index: u16,
    pub signature: Vec<u8>,
}

/// Whether no two supplied key-pairs claim the same index.
pub open spec fn distinct_indices(s: Seq<UpdateKeyPair>) -> bool {
    forall|a: int, b: int| 0 <= a < b < s.len() ==> s[a].index != s[b].index
}

/// Whether the key-pairs are strictly ascending by index.
pub open spec fn sorted_by_index(s: Seq<UpdateKeyPair>) -> bool {
    forall|a: int, b: int| 0 <= a < b < s.len() ==> s[a].index < s[b].index
}

/// Whether `ix` is an index the chain authorizes for the category.
pub open spec fn authorized_index(auth: Authorization, ix: u16) -> bool {
    exists|i: int| 0 <= i < auth.keys@.len() && auth.keys@[i].index == ix
}

/// Whether a supplied key set is acceptable for the category: distinct
/// indices, every index authorized on-chain, and at least as many keys as
/// the category's threshold.
pub open spec fn signer_acceptable(auth: Authorization, kps: Seq<UpdateKeyPair>) -> bool {
    &&& distinct_indices(kps)
    &&& forall|i: int| 0 <= i < kps.len() ==> authorized_index(auth, #[trigger] kps[i].index)
    &&& kps.len() >= auth.threshold
}

/// The signer for one update category: exactly the caller-supplied
/// key-pairs, held in strictly ascending index order. Built once per
/// transaction-construction attempt and stateless afterward.
#[derive(Debug)]
pub struct UpdateSigner {
    keys: Vec<UpdateKeyPair>,
}

impl UpdateSigner {
    #[verifier::type_invariant]
    spec fn type_inv(self) -> bool {
        sorted_by_index(self.keys@)
    }

    /// The key-pairs the signer holds, in ascending index order.
    pub closed spec fn keys_seq(&self) -> Seq<UpdateKeyPair> {
        self.keys@
    }

    /// The key-pairs the signer holds, in ascending index order.
    pub fn keys(&self) -> (r: &Vec<UpdateKeyPair>)
        ensures
            r@ == self.keys_seq(),
            sorted_by_index(r@),
    {
        proof {
            use_type_invariant(self);
        }
        &self.keys
    }

    /// Signs a message once per held key, attaching each signature tagged
    /// by its on-chain index, in ascending index order. What the
    /// signature bytes are is the capability's business alone.
    pub fn sign_message<C: SignCapability>(&self, capability: &C, message: &Vec<u8>) -> (r: Vec<
        IndexedSignature,
    >)
        ensures
            r@.len() == self.keys_seq().len(),
            forall|i: int| 0 <= i < r@.len() ==> #[trigger] r@[i].index == self.keys_seq()[i].index,
            forall|a: int, b: int| 0 <= a < b < r@.len() ==> r@[a].index < r@[b].index,
    {
        proof {
            use_type_invariant(self);
        }
        let mut out: Vec<IndexedSignature> = Vec::new();
        let mut i: usize = 0;
        while i < self.keys.len()
            invariant
                i <= self.keys@.len(),
                out@.len() == i,
                forall|k: int| 0 <= k < i ==> #[trigger] out@[k].index == self.keys@[k].index,
            decreases self.keys@.len() - i,
        {
            let signature = capability.sign(&self.keys[i].key, message);
            out.push(IndexedSignature { index: self.keys[i].index, signature });
            i = i + 1;
        }
        out
    }
}

/// Whether any two supplied key-pairs claim the same index.
fn has_duplicate_index(kps: &Vec<UpdateKeyPair>) -> (r: bool)
    ensures
        r == !distinct_indices(kps@),
{
    let n = kps.len();
    let mut i: usize = 0;
    let mut dup = false;
    while i < n
        invariant
            n == kps@.len(),
            i <= n,
            dup == exists|a: int, b: int|
                0 <= a < b < kps@.len() && a < i && #[trigger] kps@[a].index == #[trigger] kps@[b].index,
        decreases n - i,
    {
        let mut j: usize = i + 1;
        while j < n
            invariant
                n == kps@.len(),
                i < n,
                i < j <= n,
                dup == ((exists|a: int, b: int|
                    0 <= a < b < kps@.len() && a < i && #[trigger] kps@[a].index
                        == #[trigger] kps@[b].index) || (exists|b: int|
                    i < b < j && kps@[i as int].index == #[trigger] kps@[b].index)),
            decreases n - j,
        {
            if kps[i].index == kps[j].index {
                dup = true;
                proof {
                    assert(kps@[i as int].index == kps@[j as int].index);
                }
            }
            j = j + 1;
        }
        i = i + 1;
    }
    dup
}

/// Whether the chain authorizes `ix` for the category.
fn index_authorized(auth: &Authorization, ix: u16) -> (r: bool)
    ensures
        r == authorized_index(*auth, ix),
{
    let mut i: usize = 0;
    while i < auth.keys.len()
        invariant
            i <= auth.keys@.len(),
            forall|k: int| 0 <= k < i ==> #[trigger] auth.keys@[k].index != ix,
        decreases auth.keys@.len() - i,
    {
        if auth.keys[i].index == ix {
            return true;
        }
        i = i + 1;
    }
    false
}

/// Whether every supplied key-pair claims an index the chain authorizes.
fn all_indices_authorized(auth: &Authorization, kps: &Vec<UpdateKeyPair>) -> (r: bool)
    ensures
        r == forall|i: int|
            0 <= i < kps@.len() ==> authorized_index(*auth, #[trigger] kps@[i].index),
{
    let mut i: usize = 0;
    while i < kps.len()
        invariant
            i <= kps@.len(),
            forall|k: int| 0 <= k < i ==> authorized_index(*auth, #[trigger] kps@[k].index),
        decreases kps@.len() - i,
    {
        if !index_authorized(auth, kps[i].index) {
            return false;
        }
        i = i + 1;
    }
    true
}

/// Pairwise-distinct indices make the key-pairs themselves pairwise
/// distinct.
proof fn lemma_distinct_indices_no_duplicates(s: Seq<UpdateKeyPair>)
    requires
        distinct_indices(s),
    ensures
        s.no_duplicates(),
{
    assert forall|a: int, b: int| 0 <= a < s.len() && 0 <= b < s.len() && a != b implies s[a]
        != s[b] by {
        if a < b {
            assert(s[a].index != s[b].index);
        } else {
            assert(s[b].index != s[a].index);
        }
    }
}

/// Sorts key-pairs with pairwise-distinct indices into strictly ascending
/// index order, keeping exactly the supplied key-pairs.
fn sort_keys(kps: Vec<UpdateKeyPair>) -> (r: Vec<UpdateKeyPair>)
    requires
        distinct_indices(kps@),
    ensures
        r@.to_multiset() == kps@.to_multiset(),
        r@.len() == kps@.len(),
        sorted_by_index(r@),
{
    let ghost orig = kps@;
    proof {
        lemma_distinct_indices_no_duplicates(orig);
        orig.lemma_multiset_has_no_duplicates();
    }
    let mut rem = kps;
    let mut out: Vec<UpdateKeyPair> = Vec::new();
    while rem.len() > 0
        invariant
            out@.to_multiset().add(rem@.to_multiset()) =~= orig.to_multiset(),
            out@.len() + rem@.len() == orig.len(),
            sorted_by_index(out@),
            distinct_indices(orig),
            forall|x: UpdateKeyPair|
                orig.to_multiset().contains(x) ==> orig.to_multiset().count(x) == 1,
        decreases rem@.len(),
    {
        let ghost rem_before = rem@;
        let k = rem.remove(0);
        assert(rem@.to_multiset() =~= rem_before.to_multiset().remove(k));
        proof {
            assert(rem_before.to_multiset().count(k) > 0);
            assert(orig.to_multiset().count(k) > 0);
            assert(orig.contains(k));
        }
        let mut j: usize = 0;
        while j < out.len() && out[j].index < k.index
            invariant
                j <= out@.len(),
                forall|m: int| 0 <= m < j ==> #[trigger] out@[m].index < k.index,
            decreases out@.len() - j,
        {
            j = j + 1;
        }
        proof {
            assert forall|m: int| 0 <= m < out@.len() implies #[trigger] out@[m].index
                != k.index by {
                let x = out@[m];
                assert(out@.contains(x));
                assert(out@.to_multiset().count(x) > 0);
                assert(orig.to_multiset().count(x) >= out@.to_multiset().count(x));
                assert(orig.contains(x));
                if x == k {
                    assert(orig.to_multiset().count(k) >= out@.to_multiset().count(k)
                        + rem_before.to_multiset().count(k));
                    assert(orig.to_multiset().count(k) >= 2);
                    assert(false);
                } else {
                    let a = choose|a: int| 0 <= a < orig.len() && orig[a] == x;
                    let c = choose|c: int| 0 <= c < orig.len() && orig[c] == k;
                    assert(a != c);
                    if a < c {
                        assert(orig[a].index != orig[c].index);
                    } else {
                        assert(orig[c].index != orig[a].index);
                    }
                }
            }
        }
        let ghost out_before = out@;
        out.insert(j, k);
        proof {
            assert(out@ == out_before.insert(j as int, k));
            assert(out@.to_multiset() =~= out_before.to_multiset().insert(k));
            assert(out@.to_multiset().add(rem@.to_multiset()) =~= orig.to_multiset());
            assert forall|a: int, b: int| 0 <= a < b < out@.len() implies out@[a].index
                < out@[b].index by {
                if b < j {
                    assert(out@[a] == out_before[a] && out@[b] == out_before[b]);
                } else if a > j {
                    assert(out@[a] == out_before[a - 1] && out@[b] == out_before[b - 1]);
                } else if a == j {
                    assert(out@[a] == k && out@[b] == out_before[b - 1]);
                    assert(b - 1 >= j);
                    if j < out_before.len() {
                        assert(out_before[j as int].index >= k.index);
                        assert(out_before[j as int].index != k.index);
                    }
                    if b - 1 == j {
                        assert(out@[b].index > k.index);
                    } else {
                        assert(out_before[b - 1].index > out_before[j as int].index);
                    }
                } else if b == j {
                    assert(out@[a] == out_before[a] && out@[b] == k);
                    assert(out_before[a].index < k.index);
                } else {
                    assert(a < j && b > j);
                    assert(out@[a] == out_before[a] && out@[b] == out_before[b - 1]);
                    assert(out_before[a].index < k.index);
                    if b - 1 == j {
                        assert(out_before[j as int].index > k.index || out_before[j as int].index
                            == k.index);
                        assert(out@[b].index > k.index);
                    } else {
                        assert(out_before[b - 1].index > out_before[j as int].index);
                        assert(out_before[j as int].index >= k.index);
                    }
                }
            }
        }
    }
    proof {
        assert(rem@.to_multiset() =~= Multiset::<UpdateKeyPair>::empty());
        assert(out@.to_multiset() =~= orig.to_multiset());
    }
    out
}

/// Whether some supplied key-pair claims index `ix`.
pub open spec fn holds_index(s: Seq<UpdateKeyPair>, ix: u16) -> bool {
    exists|j: int| 0 <= j < s.len() && s[j].index == ix
}

/// Whether some signature is tagged with index `ix`.
pub open spec fn signs_index(s: Seq<IndexedSignature>, ix: u16) -> bool {
    exists|i: int| 0 <= i < s.len() && s[i].index == ix
}

/// Law: a signer built from an acceptable key set signs exactly once per
/// supplied authorized index, in strictly ascending index order. The
/// first two premises are what construct_update_signer ensures of its
/// result, the last two what sign_message ensures of its output; together
/// they pin the signature block's shape to the supplied key set.
pub proof fn lemma_one_signature_per_index(
    kps: Seq<UpdateKeyPair>,
    keys: Seq<UpdateKeyPair>,
    sigs: Seq<IndexedSignature>,
)
    requires
        keys.to_multiset() == kps.to_multiset(),
        sorted_by_index(keys),
        sigs.len() == keys.len(),
        forall|i: int| 0 <= i < sigs.len() ==> #[trigger] sigs[i].index == keys[i].index,
    ensures
        sigs.len() == kps.len(),
        forall|a: int, b: int| 0 <= a < b < sigs.len() ==> sigs[a].index < sigs[b].index,
        forall|ix: u16| #[trigger] signs_index(sigs, ix) <==> #[trigger] holds_index(kps, ix),
{
    keys.to_multiset_ensures();
    kps.to_multiset_ensures();
    assert(keys.to_multiset().len() == kps.to_multiset().len());
    assert(sigs.len() == kps.len());
    assert forall|ix: u16| #[trigger] signs_index(sigs, ix) <==> #[trigger] holds_index(
        kps,
        ix,
    ) by {
        if signs_index(sigs, ix) {
            let i = choose|i: int| 0 <= i < sigs.len() && sigs[i].index == ix;
            assert(keys[i].index == ix);
            assert(keys.contains(keys[i]));
            assert(kps.to_multiset().count(keys[i]) > 0);
            assert(kps.contains(keys[i]));
            let j = choose|j: int| 0 <= j < kps.len() && kps[j] == keys[i];
            assert(kps[j].index == ix);
        }
        if holds_index(kps, ix) {
            let j = choose|j: int| 0 <= j < kps.len() && kps[j].index == ix;
            assert(kps.contains(kps[j]));
            assert(keys.to_multiset().count(kps[j]) > 0);
            assert(keys.contains(kps[j]));
            let i = choose|i: int| 0 <= i < keys.len() && keys[i] == kps[j];
            assert(sigs[i].index == ix);
        }
    }
}

/// Builds the signer for an update category, or fails fast — before any
/// network submission is attempted — with the invalid-keys error exactly
/// when the supplied key set repeats an index, claims an index the chain
/// does not authorize, or holds fewer keys than the category's threshold.
/// On success the signer holds exactly the supplied key-pairs, in
/// strictly ascending index order.
pub fn construct_update_signer(auth: &Authorization, kps: Vec<UpdateKeyPair>) -> (r: Result<
    UpdateSigner,
    Error,
>)
    ensures
        match r {
            Ok(s) => signer_acceptable(*auth, kps@) && s.keys_seq().to_multiset()
                == kps@.to_multiset() && s.keys_seq().len() == kps@.len() && sorted_by_index(
                s.keys_seq(),
            ),
            Err(e) => !signer_acceptable(*auth, kps@) && e == Error::InvalidKeys,
        },
{
    if has_duplicate_index(&kps) {
        return Err(Error::InvalidKeys);
    }
    if !all_indices_authorized(auth, &kps) {
        return Err(Error::InvalidKeys);
    }
    if kps.len() < auth.threshold as usize {
        return Err(Error::InvalidKeys);
    }
    let keys = sort_keys(kps);
    Ok(UpdateSigner { keys })
}

} // verus!
