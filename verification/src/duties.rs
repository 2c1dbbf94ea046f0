//! The per-epoch duty cache and the duty-fetch decision. Each duty kind is an
//! ordered sequence scoped to one epoch; a refresh replaces a set wholesale,
//! and a failed fetch (an absent response) leaves the previous, stale-but-valid
//! set in place. The three kinds are cached and refreshed independently.

use vstd::prelude::*;

use crate::registry::{EntryModel, Registry};
use crate::types::{lemma_filter_push, PublicKey};

verus! {

/// An assignment to propose a block at a slot.
pub struct ProposerDuty {
    pub public_key: PublicKey,
    pub validator_index: u64,
    pub slot: u64,
}

/// An assignment to attest at a slot for a committee.
pub struct AttesterDuty {
    pub public_key: PublicKey,
    pub validator_index: u64,
    pub committee_index: u64,
    pub slot: u64,
}

/// Membership of the sync committee for an epoch.
pub struct SyncCommitteeDuty {
    pub public_key: PublicKey,
    pub validator_index: u64,
    pub validator_sync_committee_indices: Vec<u64>,
}

/// The three duty caches, owned by the epoch-transition loop; executors only
/// read them.
pub struct DutyStore {
    pub proposer_duties: Vec<ProposerDuty>,
    pub attester_duties: Vec<AttesterDuty>,
    pub sync_committee_duties: Vec<SyncCommitteeDuty>,
}

/// The three queries one duty refresh issues, and for which epochs: proposer
/// and sync-committee duties for the epoch itself, attester duties one epoch
/// ahead. No plan is made when no validator is resolved.
pub struct DutyFetchPlan {
    pub proposer_epoch: u64,
    pub attester_epoch: u64,
    pub sync_committee_epoch: u64,
    pub validator_indices: Vec<u64>,
}

/// Whether a slice of indices holds a given one.
pub fn contains_index(indices: &Vec<u64>, index: u64) -> (r: bool)
    ensures
        r == indices@.contains(index),
{
    let n = indices.len();
    let mut i: usize = 0;
    while i < n
        invariant
            n == indices@.len(),
            0 <= i <= n,
            forall|k: int| 0 <= k < i ==> indices@[k] != index,
        decreases n - i,
    {
        if indices[i] == index {
            assert(indices@[i as int] == index);
            return true;
        }
        i += 1;
    }
    false
}

/// Decides a duty refresh for an epoch: with no resolved validator there is
/// nothing to ask and no query is issued; otherwise the proposer and
/// sync-committee queries use the epoch unchanged and the attester query uses
/// the next epoch, all scoped to the resolved validator indices.
pub fn plan_duty_fetch(registry: &Registry, epoch: u64) -> (r: Option<DutyFetchPlan>)
    requires
        epoch < u64::MAX,
    ensures
        r is Some <==> registry@.entries.len() > 0,
        r matches Some(p) ==> {
            &&& p.proposer_epoch == epoch
            &&& p.attester_epoch == epoch + 1
            &&& p.sync_committee_epoch == epoch
            &&& p.validator_indices@ == registry@.entries.map_values(|e: EntryModel| e.index)
        },
{
    let validator_indices = registry.resolved_indices();
    if validator_indices.len() == 0 {
        None
    } else {
        Some(
            DutyFetchPlan {
                proposer_epoch: epoch,
                attester_epoch: epoch + 1,
                sync_committee_epoch: epoch,
                validator_indices,
            },
        )
    }
}

impl DutyStore {
    /// An empty duty store.
    pub fn new() -> (r: DutyStore)
        ensures
            r.proposer_duties@.len() == 0,
            r.attester_duties@.len() == 0,
            r.sync_committee_duties@.len() == 0,
    {
        DutyStore {
            proposer_duties: Vec::new(),
            attester_duties: Vec::new(),
            sync_committee_duties: Vec::new(),
        }
    }

    /// Folds a proposer-duty response in: a successful response replaces the
    /// cache wholesale with the duties of owned validators, in response order
    /// (the chain may also report duties of validators outside the owned set);
    /// a failed fetch keeps the previous cache. The other two caches are
    /// untouched.
    pub fn apply_proposer_duties(
        &mut self,
        response: Option<Vec<ProposerDuty>>,
        owned_indices: &Vec<u64>,
    )
        ensures
            response matches Some(ds) ==> final(self).proposer_duties@ == ds@.filter(
                |d: ProposerDuty| owned_indices@.contains(d.validator_index),
            ),
            response is None ==> final(self).proposer_duties@ == old(self).proposer_duties@,
            final(self).attester_duties@ == old(self).attester_duties@,
            final(self).sync_committee_duties@ == old(self).sync_committee_duties@,
    {
        match response {
            Some(ds) => {
                let ghost all = ds@;
                let ghost pred = |d: ProposerDuty| owned_indices@.contains(d.validator_index);
                let mut ds = ds;
                let mut kept: Vec<ProposerDuty> = Vec::new();
                let n = ds.len();
                let mut i: usize = 0;
                while i < n
                    invariant
                        n == all.len(),
                        0 <= i <= n,
                        ds@ == all.subrange(i as int, n as int),
                        pred == (|d: ProposerDuty| owned_indices@.contains(d.validator_index)),
                        kept@ == all.take(i as int).filter(pred),
                    decreases n - i,
                {
                    proof {
                        lemma_filter_push(all.take(i as int), pred, all[i as int]);
                        assert(all.take(i + 1 as int) =~= all.take(i as int).push(all[i as int]));
                    }
                    let d = ds.remove(0);
                    assert(d == all[i as int]);
                    if contains_index(owned_indices, d.validator_index) {
                        kept.push(d);
                    }
                    proof {
                        assert(ds@ =~= all.subrange(i + 1 as int, n as int));
                    }
                    i += 1;
                }
                proof {
                    assert(all.take(n as int) =~= all);
                }
                self.proposer_duties = kept;
            },
            None => {},
        }
    }

    /// Folds an attester-duty response in: a successful response replaces the
    /// cache wholesale (the query was already scoped to owned validators); a
    /// failed fetch keeps the previous cache. The other two caches are
    /// untouched.
    pub fn apply_attester_duties(&mut self, response: Option<Vec<AttesterDuty>>)
        ensures
            response matches Some(ds) ==> final(self).attester_duties@ == ds@,
            response is None ==> final(self).attester_duties@ == old(self).attester_duties@,
            final(self).proposer_duties@ == old(self).proposer_duties@,
            final(self).sync_committee_duties@ == old(self).sync_committee_duties@,
    {
        match response {
            Some(ds) => {
                self.attester_duties = ds;
            },
            None => {},
        }
    }

    /// Folds a sync-committee-duty response in: a successful response replaces
    /// the cache wholesale (the query was already scoped to owned validators);
    /// a failed fetch keeps the previous cache. The other two caches are
    /// untouched.
    pub fn apply_sync_committee_duties(&mut self, response: Option<Vec<SyncCommitteeDuty>>)
        ensures
            response matches Some(ds) ==> final(self).sync_committee_duties@ == ds@,
            response is None ==> final(self).sync_committee_duties@ == old(
                self,
            ).sync_committee_duties@,
            final(self).proposer_duties@ == old(self).proposer_duties@,
            final(self).attester_duties@ == old(self).attester_duties@,
    {
        match response {
            Some(ds) => {
                self.sync_committee_duties = ds;
            },
            None => {},
        }
    }
}

} // verus!
