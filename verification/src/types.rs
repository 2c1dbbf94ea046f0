//! Plain-value representations of the cryptographic objects the duty logic
//! carries around. The logic never looks inside key, signature or root bytes;
//! it only moves them, compares keys, and copies roots, so each is a byte
//! vector with a `Seq<u8>` view.

use vstd::prelude::*;

verus! {

/// A validator's BLS public key, as bytes.
#[derive(Debug)]
pub struct PublicKey {
    pub bytes: Vec<u8>,
}

impl View for PublicKey {
    type V = Seq<u8>;

    open spec fn view(&self) -> Seq<u8> {
        self.bytes@
    }
}

/// A BLS signature, as bytes. Produced by the external signer; opaque here.
#[derive(Debug)]
pub struct Signature {
    pub bytes: Vec<u8>,
}

impl View for Signature {
    type V = Seq<u8>;

    open spec fn view(&self) -> Seq<u8> {
        self.bytes@
    }
}

/// A hash-tree root, as bytes.
#[derive(Debug)]
pub struct Root {
    pub bytes: Vec<u8>,
}

impl View for Root {
    type V = Seq<u8>;

    open spec fn view(&self) -> Seq<u8> {
        self.bytes@
    }
}

/// Everything that can go wrong inside the duty logic itself. Network and
/// signing failures of the outside world are reported to this crate as absent
/// responses or failed sign outcomes; these variants are the errors the logic
/// decides on its own.
#[derive(Clone, Copy, Debug, PartialEq, Eq, Structural)]
pub enum ValidatorError {
    /// A duty executor was invoked for a validator index the registry has not
    /// resolved: no signer is available, and no network call may be made.
    UnknownValidator { validator_index: u64 },
    /// A present signer's sign operation failed; the whole batch is discarded.
    SigningFailed { validator_index: u64 },
    /// A validator index beyond the end of the supplied validator list.
    ValidatorIndexOutOfBounds { validator_index: u64 },
    /// The system clock reports a time before genesis; startup must abort.
    BeforeGenesis,
}

/// Filtering a sequence extended by one element keeps the filtered prefix and
/// appends the element exactly when it satisfies the predicate.
pub proof fn lemma_filter_push<A>(s: Seq<A>, pred: spec_fn(A) -> bool, x: A)
    ensures
        s.push(x).filter(pred) == if pred(x) {
            s.filter(pred).push(x)
        } else {
            s.filter(pred)
        },
{
    reveal(Seq::filter);
    assert(s.push(x).drop_last() =~= s);
    assert(s.push(x).last() == x);
}

/// Byte-for-byte equality of two byte vectors.
pub fn bytes_eq(a: &Vec<u8>, b: &Vec<u8>) -> (r: bool)
    ensures
        r == (a@ == b@),
{
    if a.len() != b.len() {
        assert(a@ != b@);
        return false;
    }
    let n = a.len();
    let mut i: usize = 0;
    while i < n
        invariant
            n == a@.len() == b@.len(),
            0 <= i <= n,
            forall|k: int| 0 <= k < i ==> a@[k] == b@[k],
        decreases n - i,
    {
        if a[i] != b[i] {
            return false;
        }
        i += 1;
    }
    proof {
        assert(a@ =~= b@);
    }
    true
}

/// A copy of a byte vector with the same contents.
pub fn clone_bytes(a: &Vec<u8>) -> (r: Vec<u8>)
    ensures
        r@ == a@,
{
    let mut r: Vec<u8> = Vec::new();
    let n = a.len();
    let mut i: usize = 0;
    while i < n
        invariant
            n == a@.len(),
            0 <= i <= n,
            r@ == a@.subrange(0, i as int),
        decreases n - i,
    {
        r.push(a[i]);
        proof {
            assert(r@ =~= a@.subrange(0, i + 1 as int));
        }
        i += 1;
    }
    proof {
        assert(a@.subrange(0, n as int) =~= a@);
    }
    r
}

impl PublicKey {
    /// Byte-for-byte equality of two public keys.
    pub fn key_eq(&self, other: &PublicKey) -> (r: bool)
        ensures
            r == (self@ == other@),
    {
        bytes_eq(&self.bytes, &other.bytes)
    }

    /// A copy of this key with the same bytes.
    pub fn duplicate(&self) -> (r: PublicKey)
        ensures
            r@ == self@,
    {
        PublicKey { bytes: clone_bytes(&self.bytes) }
    }
}

impl Root {
    /// A copy of this root with the same bytes.
    pub fn duplicate(&self) -> (r: Root)
        ensures
            r@ == self@,
    {
        Root { bytes: clone_bytes(&self.bytes) }
    }
}

} // verus!
