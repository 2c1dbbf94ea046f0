//! The validator registry: resolves configured public keys to chain-assigned
//! validator indices. Keys are resolved lazily (only still-unresolved keys are
//! ever queried) and monotonically (an entry is inserted at most once and never
//! evicted). Each entry ties a public key, its chain index and the position of
//! the owning identity in the configured list, so the forward (key to index)
//! and reverse (index to identity) mappings always exist together and stay
//! bijective.
//!
//! The query itself happens outside this crate: [`Registry::unresolved_keys`]
//! says what to ask, and [`Registry::apply_resolutions`] folds the response
//! back in. [`apply_spec`] is the mathematical model of that fold, and the
//! laws at the end of the module are proved over it.

use vstd::prelude::*;

use crate::types::{lemma_filter_push, PublicKey};

verus! {

/// Model of one registry entry.
#[verifier::ext_equal]
pub ghost struct EntryModel {
    pub public_key: Seq<u8>,
    pub index: u64,
    pub identity_pos: int,
}

/// Model of one key-to-index mapping returned by the chain.
#[verifier::ext_equal]
pub ghost struct MappingModel {
    pub public_key: Seq<u8>,
    pub index: u64,
}

/// Model of the whole registry.
#[verifier::ext_equal]
pub ghost struct RegistryModel {
    pub identities: Seq<Seq<u8>>,
    pub entries: Seq<EntryModel>,
}

impl RegistryModel {
    /// The configured identities are pairwise distinct keys.
    pub open spec fn identities_distinct(self) -> bool {
        forall|i: int, j: int|
            #![trigger self.identities[i], self.identities[j]]
            0 <= i < self.identities.len() && 0 <= j < self.identities.len() && i != j
                ==> self.identities[i] != self.identities[j]
    }

    /// A key is resolved when some entry carries it.
    pub open spec fn is_resolved(self, pk: Seq<u8>) -> bool {
        exists|i: int| 0 <= i < self.entries.len() && (#[trigger] self.entries[i]).public_key == pk
    }

    /// A validator index is taken when some entry carries it.
    pub open spec fn index_used(self, index: u64) -> bool {
        exists|i: int| 0 <= i < self.entries.len() && (#[trigger] self.entries[i]).index == index
    }

    /// A validator index is resolved to the identity at this position.
    pub open spec fn resolves_to(self, validator_index: u64, identity_pos: int) -> bool {
        exists|i: int|
            0 <= i < self.entries.len() && (#[trigger] self.entries[i]).index == validator_index
                && self.entries[i].identity_pos == identity_pos
    }

    /// A key is a configured identity.
    pub open spec fn is_identity(self, pk: Seq<u8>) -> bool {
        exists|i: int| 0 <= i < self.identities.len() && #[trigger] self.identities[i] == pk
    }

    /// Position of a configured identity; well defined when the identities are
    /// distinct and the key is among them.
    pub open spec fn identity_pos_of(self, pk: Seq<u8>) -> int {
        choose|i: int| 0 <= i < self.identities.len() && #[trigger] self.identities[i] == pk
    }

    /// A returned mapping is admitted when its key is a configured identity
    /// not yet resolved and its index is not yet taken.
    pub open spec fn admits(self, m: MappingModel) -> bool {
        &&& self.is_identity(m.public_key)
        &&& !self.is_resolved(m.public_key)
        &&& !self.index_used(m.index)
    }

    /// The registry with one admitted mapping inserted.
    pub open spec fn insert_mapping(self, m: MappingModel) -> RegistryModel {
        RegistryModel {
            identities: self.identities,
            entries: self.entries.push(
                EntryModel {
                    public_key: m.public_key,
                    index: m.index,
                    identity_pos: self.identity_pos_of(m.public_key),
                },
            ),
        }
    }

    /// One step of a refresh: insert the mapping if admitted, else no change.
    pub open spec fn step(self, m: MappingModel) -> RegistryModel {
        if self.admits(m) {
            self.insert_mapping(m)
        } else {
            self
        }
    }

    /// Well-formedness: distinct identities; every entry points at the
    /// identity carrying its key; keys and indices are never duplicated, so
    /// the mapping is bijective.
    pub open spec fn wf(self) -> bool {
        &&& self.identities_distinct()
        &&& forall|i: int|
            0 <= i < self.entries.len() ==> {
                &&& 0 <= (#[trigger] self.entries[i]).identity_pos < self.identities.len()
                &&& self.identities[self.entries[i].identity_pos] == self.entries[i].public_key
            }
        &&& forall|i: int, j: int|
            0 <= i < self.entries.len() && 0 <= j < self.entries.len() && i != j
                ==> (#[trigger] self.entries[i]).public_key != (#[trigger] self.entries[j]).public_key
        &&& forall|i: int, j: int|
            0 <= i < self.entries.len() && 0 <= j < self.entries.len() && i != j
                ==> (#[trigger] self.entries[i]).index != (#[trigger] self.entries[j]).index
    }

    /// The second registry keeps every entry of the first, at the same place,
    /// under the same identities.
    pub open spec fn extends_to(self, other: RegistryModel) -> bool {
        &&& other.identities == self.identities
        &&& self.entries.len() <= other.entries.len()
        &&& forall|i: int| 0 <= i < self.entries.len() ==> #[trigger] self.entries[i] == other.entries[i]
    }

    /// The still-unresolved configured identities, in configuration order.
    pub open spec fn unresolved_spec(self) -> Seq<Seq<u8>> {
        self.identities.filter(|pk: Seq<u8>| !self.is_resolved(pk))
    }
}

/// A whole refresh response folded in, mapping by mapping, left to right.
pub open spec fn apply_spec(r: RegistryModel, ms: Seq<MappingModel>) -> RegistryModel
    decreases ms.len(),
{
    if ms.len() == 0 {
        r
    } else {
        apply_spec(r, ms.drop_last()).step(ms.last())
    }
}

/// In a registry with distinct identities, an identity's position is unique.
proof fn lemma_identity_pos_unique(r: RegistryModel, pk: Seq<u8>, p: int)
    requires
        r.identities_distinct(),
        0 <= p < r.identities.len(),
        r.identities[p] == pk,
    ensures
        r.identity_pos_of(pk) == p,
{
    let q = r.identity_pos_of(pk);
    assert(0 <= q < r.identities.len() && r.identities[q] == pk);
}

/// One step never removes or reorders anything.
proof fn lemma_step_extends(r: RegistryModel, m: MappingModel)
    ensures
        r.extends_to(r.step(m)),
{
    if r.admits(m) {
        assert(forall|i: int|
            0 <= i < r.entries.len() ==> #[trigger] r.entries[i] == r.step(m).entries[i]);
    }
}

/// One step preserves well-formedness.
proof fn lemma_step_preserves_wf(r: RegistryModel, m: MappingModel)
    requires
        r.wf(),
    ensures
        r.step(m).wf(),
{
    if r.admits(m) {
        let q = r.identity_pos_of(m.public_key);
        assert(0 <= q < r.identities.len() && r.identities[q] == m.public_key);
        let post = r.insert_mapping(m);
        assert forall|i: int, j: int|
            0 <= i < post.entries.len() && 0 <= j < post.entries.len() && i != j implies (
        #[trigger] post.entries[i]).public_key != (#[trigger] post.entries[j]).public_key by {
            if i < r.entries.len() && j < r.entries.len() {
            } else if i < r.entries.len() {
                assert(!r.is_resolved(m.public_key));
                assert(post.entries[j].public_key == m.public_key);
            } else {
                assert(!r.is_resolved(m.public_key));
                assert(post.entries[i].public_key == m.public_key);
            }
        }
        assert forall|i: int, j: int|
            0 <= i < post.entries.len() && 0 <= j < post.entries.len() && i != j implies (
        #[trigger] post.entries[i]).index != (#[trigger] post.entries[j]).index by {
            if i < r.entries.len() && j < r.entries.len() {
            } else if i < r.entries.len() {
                assert(!r.index_used(m.index));
            } else {
                assert(!r.index_used(m.index));
            }
        }
    }
}

/// What the first registry could not admit, an extension cannot admit either:
/// resolved keys stay resolved, taken indices stay taken, and the configured
/// identities do not change.
proof fn lemma_not_admitted_monotone(r1: RegistryModel, r2: RegistryModel, m: MappingModel)
    requires
        r1.extends_to(r2),
        !r1.admits(m),
    ensures
        !r2.admits(m),
{
    if r1.is_resolved(m.public_key) {
        let i = choose|i: int|
            0 <= i < r1.entries.len() && (#[trigger] r1.entries[i]).public_key == m.public_key;
        assert(r2.entries[i].public_key == m.public_key);
    } else if r1.index_used(m.index) {
        let i = choose|i: int|
            0 <= i < r1.entries.len() && (#[trigger] r1.entries[i]).index == m.index;
        assert(r2.entries[i].index == m.index);
    }
}

/// A whole refresh never removes or reorders anything.
proof fn lemma_apply_extends(r: RegistryModel, ms: Seq<MappingModel>)
    ensures
        r.extends_to(apply_spec(r, ms)),
    decreases ms.len(),
{
    if ms.len() > 0 {
        lemma_apply_extends(r, ms.drop_last());
        lemma_step_extends(apply_spec(r, ms.drop_last()), ms.last());
    }
}

/// A whole refresh preserves well-formedness.
proof fn lemma_apply_preserves_wf(r: RegistryModel, ms: Seq<MappingModel>)
    requires
        r.wf(),
    ensures
        apply_spec(r, ms).wf(),
    decreases ms.len(),
{
    if ms.len() > 0 {
        lemma_apply_preserves_wf(r, ms.drop_last());
        lemma_step_preserves_wf(apply_spec(r, ms.drop_last()), ms.last());
    }
}

/// After a refresh, no mapping of the response is admitted any more: what was
/// inserted is now resolved, and what was skipped is skipped for good.
proof fn lemma_apply_exhausts(r: RegistryModel, ms: Seq<MappingModel>)
    ensures
        forall|k: int| 0 <= k < ms.len() ==> !apply_spec(r, ms).admits(#[trigger] ms[k]),
    decreases ms.len(),
{
    if ms.len() > 0 {
        let prev = apply_spec(r, ms.drop_last());
        let post = apply_spec(r, ms);
        lemma_apply_exhausts(r, ms.drop_last());
        lemma_step_extends(prev, ms.last());
        assert forall|k: int| 0 <= k < ms.len() implies !post.admits(#[trigger] ms[k]) by {
            if k < ms.len() - 1 {
                assert(ms.drop_last()[k] == ms[k]);
                lemma_not_admitted_monotone(prev, post, ms[k]);
            } else {
                if prev.admits(ms.last()) {
                    let n = prev.entries.len() as int;
                    assert(post.entries[n].public_key == ms.last().public_key);
                    assert(post.is_resolved(ms.last().public_key));
                } else {
                    lemma_not_admitted_monotone(prev, post, ms.last());
                }
            }
        }
    }
}

/// A response of which no mapping is admitted changes nothing.
proof fn lemma_apply_all_skipped(r: RegistryModel, ms: Seq<MappingModel>)
    requires
        forall|k: int| 0 <= k < ms.len() ==> !r.admits(#[trigger] ms[k]),
    ensures
        apply_spec(r, ms) == r,
    decreases ms.len(),
{
    if ms.len() > 0 {
        lemma_apply_all_skipped(r, ms.drop_last());
    }
}

/// Law: a refresh is idempotent. Once a response has been folded in, folding
/// in any further response drawn from the same mappings — the whole response
/// again, a subset, or a reordering, which is all an unchanged chain can
/// return — leaves the registry exactly as it was.
pub proof fn lemma_refresh_idempotent(
    r: RegistryModel,
    ms: Seq<MappingModel>,
    ms2: Seq<MappingModel>,
)
    requires
        forall|k: int| 0 <= k < ms2.len() ==> exists|j: int| 0 <= j < ms.len() && #[trigger] ms2[k] == ms[j],
    ensures
        apply_spec(apply_spec(r, ms), ms2) == apply_spec(r, ms),
{
    let r1 = apply_spec(r, ms);
    lemma_apply_exhausts(r, ms);
    assert forall|k: int| 0 <= k < ms2.len() implies !r1.admits(#[trigger] ms2[k]) by {
        let j = choose|j: int| 0 <= j < ms.len() && ms2[k] == ms[j];
        assert(!r1.admits(ms[j]));
    }
    lemma_apply_all_skipped(r1, ms2);
}

/// Law: the number of resolved validators never decreases across refreshes,
/// and existing entries are never changed or evicted.
pub proof fn lemma_resolved_count_monotonic(r: RegistryModel, ms: Seq<MappingModel>)
    ensures
        apply_spec(r, ms).entries.len() >= r.entries.len(),
        r.extends_to(apply_spec(r, ms)),
{
    lemma_apply_extends(r, ms);
}

/// One entry of the registry: a resolved public key, its chain-assigned
/// validator index, and the position of the owning identity in the configured
/// list.
pub struct RegistryEntry {
    pub public_key: PublicKey,
    pub index: u64,
    pub identity_pos: usize,
}

impl View for RegistryEntry {
    type V = EntryModel;

    open spec fn view(&self) -> EntryModel {
        EntryModel {
            public_key: self.public_key@,
            index: self.index,
            identity_pos: self.identity_pos as int,
        }
    }
}

/// One key-to-index mapping as the chain reports it.
pub struct ValidatorInfo {
    pub public_key: PublicKey,
    pub index: u64,
}

impl View for ValidatorInfo {
    type V = MappingModel;

    open spec fn view(&self) -> MappingModel {
        MappingModel { public_key: self.public_key@, index: self.index }
    }
}

/// The view of a whole response.
pub open spec fn infos_view(ms: Seq<ValidatorInfo>) -> Seq<MappingModel> {
    ms.map_values(|m: ValidatorInfo| m@)
}

/// The validator registry.
pub struct Registry {
    pub identities: Vec<PublicKey>,
    pub entries: Vec<RegistryEntry>,
}

impl View for Registry {
    type V = RegistryModel;

    open spec fn view(&self) -> RegistryModel {
        RegistryModel {
            identities: self.identities@.map_values(|k: PublicKey| k@),
            entries: self.entries@.map_values(|e: RegistryEntry| e@),
        }
    }
}

impl Registry {
    /// An empty registry over the configured identities.
    pub fn new(identities: Vec<PublicKey>) -> (r: Registry)
        requires
            forall|i: int, j: int|
                #![trigger identities@[i], identities@[j]]
                0 <= i < identities@.len() && 0 <= j < identities@.len() && i != j
                    ==> identities@[i]@ != identities@[j]@,
        ensures
            r@.wf(),
            r@.identities == identities@.map_values(|k: PublicKey| k@),
            r@.entries.len() == 0,
    {
        let r = Registry { identities, entries: Vec::new() };
        proof {
            assert(r@.entries.len() == 0);
        }
        r
    }

    /// How many configured validators are resolved so far.
    pub fn resolved_count(&self) -> (n: usize)
        ensures
            n == self@.entries.len(),
    {
        self.entries.len()
    }

    /// Whether a key is already resolved.
    pub fn key_resolved(&self, pk: &PublicKey) -> (r: bool)
        ensures
            r == self@.is_resolved(pk@),
    {
        let n = self.entries.len();
        let mut i: usize = 0;
        while i < n
            invariant
                n == self.entries@.len(),
                0 <= i <= n,
                forall|k: int| 0 <= k < i ==> (#[trigger] self@.entries[k]).public_key != pk@,
            decreases n - i,
        {
            if self.entries[i].public_key.key_eq(pk) {
                assert(self@.entries[i as int].public_key == pk@);
                return true;
            }
            i += 1;
        }
        false
    }

    /// Whether a validator index is already taken.
    pub fn index_resolved(&self, index: u64) -> (r: bool)
        ensures
            r == self@.index_used(index),
    {
        let n = self.entries.len();
        let mut i: usize = 0;
        while i < n
            invariant
                n == self.entries@.len(),
                0 <= i <= n,
                forall|k: int| 0 <= k < i ==> (#[trigger] self@.entries[k]).index != index,
            decreases n - i,
        {
            if self.entries[i].index == index {
                assert(self@.entries[i as int].index == index);
                return true;
            }
            i += 1;
        }
        false
    }

    /// Position of a key among the configured identities.
    pub fn find_identity(&self, pk: &PublicKey) -> (r: Option<usize>)
        ensures
            r matches Some(p) ==> 0 <= p < self@.identities.len() && self@.identities[p as int]
                == pk@,
            r is None ==> !self@.is_identity(pk@),
    {
        let n = self.identities.len();
        let mut i: usize = 0;
        while i < n
            invariant
                n == self.identities@.len(),
                0 <= i <= n,
                forall|k: int| 0 <= k < i ==> #[trigger] self@.identities[k] != pk@,
            decreases n - i,
        {
            if self.identities[i].key_eq(pk) {
                assert(self@.identities[i as int] == pk@);
                return Some(i);
            }
            i += 1;
        }
        None
    }

    /// The identity position of the signer resolved for a validator index, or
    /// nothing when the index is unknown to the registry.
    pub fn signer_position(&self, validator_index: u64) -> (r: Option<usize>)
        ensures
            r is Some <==> self@.index_used(validator_index),
            r matches Some(p) ==> self@.resolves_to(validator_index, p as int),
    {
        let n = self.entries.len();
        let mut i: usize = 0;
        while i < n
            invariant
                n == self.entries@.len(),
                0 <= i <= n,
                forall|k: int| 0 <= k < i ==> (#[trigger] self@.entries[k]).index != validator_index,
            decreases n - i,
        {
            if self.entries[i].index == validator_index {
                assert((#[trigger] self@.entries[i as int]).index == validator_index);
                return Some(self.entries[i].identity_pos);
            }
            i += 1;
        }
        None
    }

    /// The indices of all resolved validators, in resolution order.
    pub fn resolved_indices(&self) -> (r: Vec<u64>)
        ensures
            r@ == self@.entries.map_values(|e: EntryModel| e.index),
    {
        let n = self.entries.len();
        let mut r: Vec<u64> = Vec::new();
        let mut i: usize = 0;
        while i < n
            invariant
                n == self.entries@.len(),
                0 <= i <= n,
                r@ == self@.entries.subrange(0, i as int).map_values(|e: EntryModel| e.index),
            decreases n - i,
        {
            r.push(self.entries[i].index);
            proof {
                assert(self@.entries.subrange(0, i + 1 as int) =~= self@.entries.subrange(
                    0,
                    i as int,
                ).push(self@.entries[i as int]));
                assert(r@ =~= self@.entries.subrange(0, i + 1 as int).map_values(
                    |e: EntryModel| e.index,
                ));
            }
            i += 1;
        }
        proof {
            assert(self@.entries.subrange(0, n as int) =~= self@.entries);
        }
        r
    }

    /// The configured identities still to be queried, in configuration order:
    /// exactly the unresolved ones, so a resolved key is never queried again.
    pub fn unresolved_keys(&self) -> (r: Vec<PublicKey>)
        ensures
            r@.map_values(|k: PublicKey| k@) == self@.unresolved_spec(),
            forall|k: int| 0 <= k < r@.len() ==> !self@.is_resolved(#[trigger] r@[k]@),
            forall|k: int| 0 <= k < r@.len() ==> self@.is_identity(#[trigger] r@[k]@),
    {
        let ghost pred = |pk: Seq<u8>| !self@.is_resolved(pk);
        let n = self.identities.len();
        let mut r: Vec<PublicKey> = Vec::new();
        let mut i: usize = 0;
        while i < n
            invariant
                n == self.identities@.len(),
                0 <= i <= n,
                pred == (|pk: Seq<u8>| !self@.is_resolved(pk)),
                r@.map_values(|k: PublicKey| k@) == self@.identities.take(i as int).filter(pred),
                forall|k: int| 0 <= k < r@.len() ==> !self@.is_resolved(#[trigger] r@[k]@),
                forall|k: int| 0 <= k < r@.len() ==> self@.is_identity(#[trigger] r@[k]@),
            decreases n - i,
        {
            proof {
                lemma_filter_push(self@.identities.take(i as int), pred, self@.identities[i as int]);
                assert(self@.identities.take(i + 1 as int) =~= self@.identities.take(i as int).push(
                    self@.identities[i as int],
                ));
            }
            if !self.key_resolved(&self.identities[i]) {
                r.push(self.identities[i].duplicate());
                proof {
                    assert(r@.map_values(|k: PublicKey| k@) =~= self@.identities.take(
                        i + 1 as int,
                    ).filter(pred));
                }
            }
            i += 1;
        }
        proof {
            assert(self@.identities.take(n as int) =~= self@.identities);
        }
        r
    }

    /// Folds a refresh response into the registry, mapping by mapping: a
    /// mapping is inserted exactly when its key is a configured identity not
    /// yet resolved and its index is not yet taken; everything else is kept
    /// unchanged. The resolved count never decreases.
    pub fn apply_resolutions(&mut self, mappings: &Vec<ValidatorInfo>)
        requires
            old(self)@.wf(),
        ensures
            final(self)@ == apply_spec(old(self)@, infos_view(mappings@)),
            final(self)@.wf(),
            old(self)@.extends_to(final(self)@),
            final(self)@.entries.len() >= old(self)@.entries.len(),
    {
        let ghost ms = infos_view(mappings@);
        let n = mappings.len();
        let mut i: usize = 0;
        while i < n
            invariant
                n == mappings@.len(),
                0 <= i <= n,
                ms == infos_view(mappings@),
                self@ == apply_spec(old(self)@, ms.take(i as int)),
                self@.wf(),
                old(self)@.wf(),
            decreases n - i,
        {
            let ghost prev = self@;
            proof {
                assert(ms.take(i + 1 as int).drop_last() =~= ms.take(i as int));
                assert(ms.take(i + 1 as int).last() == ms[i as int]);
            }
            let m = &mappings[i];
            let id_pos = self.find_identity(&m.public_key);
            match id_pos {
                Some(p) => {
                    if !self.key_resolved(&m.public_key) && !self.index_resolved(m.index) {
                        proof {
                            assert(prev.admits(ms[i as int]));
                            lemma_identity_pos_unique(prev, m.public_key@, p as int);
                            lemma_step_preserves_wf(prev, ms[i as int]);
                        }
                        let entry = RegistryEntry {
                            public_key: m.public_key.duplicate(),
                            index: m.index,
                            identity_pos: p,
                        };
                        self.entries.push(entry);
                        proof {
                            assert(self@.entries =~= prev.entries.push(
                                EntryModel {
                                    public_key: m.public_key@,
                                    index: m.index,
                                    identity_pos: prev.identity_pos_of(m.public_key@),
                                },
                            ));
                            assert(self@ =~= prev.step(ms[i as int]));
                        }
                    } else {
                        proof {
                            assert(!prev.admits(ms[i as int]));
                            assert(self@ == prev.step(ms[i as int]));
                        }
                    }
                },
                None => {
                    proof {
                        assert(!prev.admits(ms[i as int]));
                        assert(self@ == prev.step(ms[i as int]));
                    }
                },
            }
            i += 1;
        }
        proof {
            assert(ms.take(n as int) =~= ms);
            lemma_apply_extends(old(self)@, ms);
        }
    }
}

} // verus!
