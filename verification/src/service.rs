//! The validator service: the registry and the duty caches under one owner.
//! A driver loop runs the clock, and on each epoch transition first refreshes
//! the registry, then the duty caches; it performs the network calls that the
//! query methods here decide on, and feeds the responses (or their absence,
//! on failure) back into the apply methods. Duty executors only read this
//! state, through the plan functions of [`crate::executors`].

use vstd::prelude::*;

use crate::duties::{
    plan_duty_fetch, AttesterDuty, DutyFetchPlan, DutyStore, ProposerDuty, SyncCommitteeDuty,
};
use crate::registry::{apply_spec, infos_view, EntryModel, Registry, ValidatorInfo};
use crate::types::PublicKey;

verus! {

/// The service state: configured identities with their resolution registry,
/// the three per-epoch duty caches, and the fee recipient handed to block
/// production.
pub struct ValidatorService {
    pub registry: Registry,
    pub duty_store: DutyStore,
    pub suggested_fee_recipient: Vec<u8>,
}

impl ValidatorService {
    /// A fresh service: nothing resolved, all duty caches empty.
    pub fn new(identities: Vec<PublicKey>, suggested_fee_recipient: Vec<u8>) -> (r:
        ValidatorService)
        requires
            forall|i: int, j: int|
                #![trigger identities@[i], identities@[j]]
                0 <= i < identities@.len() && 0 <= j < identities@.len() && i != j
                    ==> identities@[i]@ != identities@[j]@,
        ensures
            r.registry@.wf(),
            r.registry@.identities == identities@.map_values(|k: PublicKey| k@),
            r.registry@.entries.len() == 0,
            r.duty_store.proposer_duties@.len() == 0,
            r.duty_store.attester_duties@.len() == 0,
            r.duty_store.sync_committee_duties@.len() == 0,
            r.suggested_fee_recipient@ == suggested_fee_recipient@,
    {
        ValidatorService {
            registry: Registry::new(identities),
            duty_store: DutyStore::new(),
            suggested_fee_recipient,
        }
    }

    /// Decides the registry refresh: the keys to query, exactly the configured
    /// identities still unresolved, in configuration order. With every identity
    /// resolved there is nothing to ask and no query is issued; a resolved key
    /// is never queried again.
    pub fn validator_index_query(&self) -> (r: Option<Vec<PublicKey>>)
        ensures
            r is None <==> self.registry@.unresolved_spec().len() == 0,
            r matches Some(keys) ==> {
                &&& keys@.len() > 0
                &&& keys@.map_values(|k: PublicKey| k@) == self.registry@.unresolved_spec()
                &&& forall|k: int|
                    0 <= k < keys@.len() ==> !self.registry@.is_resolved(#[trigger] keys@[k]@)
            },
    {
        let keys = self.registry.unresolved_keys();
        if keys.len() == 0 {
            None
        } else {
            Some(keys)
        }
    }

    /// Folds the registry-refresh response in. A failed query (no response)
    /// leaves the registry unchanged — the next epoch's refresh simply tries
    /// again; a response is folded in mapping by mapping. Either way the duty
    /// caches are untouched and the resolved count never decreases.
    pub fn apply_validator_indices(&mut self, response: Option<Vec<ValidatorInfo>>)
        requires
            old(self).registry@.wf(),
        ensures
            final(self).registry@.wf(),
            response matches Some(infos) ==> final(self).registry@ == apply_spec(
                old(self).registry@,
                infos_view(infos@),
            ),
            response is None ==> final(self).registry@ == old(self).registry@,
            old(self).registry@.extends_to(final(self).registry@),
            final(self).registry@.entries.len() >= old(self).registry@.entries.len(),
            final(self).duty_store.proposer_duties@ == old(self).duty_store.proposer_duties@,
            final(self).duty_store.attester_duties@ == old(self).duty_store.attester_duties@,
            final(self).duty_store.sync_committee_duties@ == old(
                self,
            ).duty_store.sync_committee_duties@,
    {
        match response {
            Some(infos) => {
                self.registry.apply_resolutions(&infos);
            },
            None => {},
        }
    }

    /// Decides a duty refresh for an epoch; see [`plan_duty_fetch`]. With zero
    /// resolved validators no plan is made, so no query is issued and all
    /// three duty caches stay as they are.
    pub fn duty_fetch_plan(&self, epoch: u64) -> (r: Option<DutyFetchPlan>)
        requires
            epoch < u64::MAX,
        ensures
            r is Some <==> self.registry@.entries.len() > 0,
            r matches Some(p) ==> {
                &&& p.proposer_epoch == epoch
                &&& p.attester_epoch == epoch + 1
                &&& p.sync_committee_epoch == epoch
                &&& p.validator_indices@ == self.registry@.entries.map_values(
                    |e: EntryModel| e.index,
                )
            },
    {
        plan_duty_fetch(&self.registry, epoch)
    }

    /// Folds a proposer-duty response in; the registry and the other two duty
    /// caches are untouched. See [`DutyStore::apply_proposer_duties`].
    pub fn apply_proposer_duties(
        &mut self,
        response: Option<Vec<ProposerDuty>>,
        owned_indices: &Vec<u64>,
    )
        ensures
            response matches Some(ds) ==> final(self).duty_store.proposer_duties@ == ds@.filter(
                |d: ProposerDuty| owned_indices@.contains(d.validator_index),
            ),
            response is None ==> final(self).duty_store.proposer_duties@ == old(
                self,
            ).duty_store.proposer_duties@,
            final(self).duty_store.attester_duties@ == old(self).duty_store.attester_duties@,
            final(self).duty_store.sync_committee_duties@ == old(
                self,
            ).duty_store.sync_committee_duties@,
            final(self).registry == old(self).registry,
    {
        self.duty_store.apply_proposer_duties(response, owned_indices);
    }

    /// Folds an attester-duty response in; the registry and the other two duty
    /// caches are untouched. See [`DutyStore::apply_attester_duties`].
    pub fn apply_attester_duties(&mut self, response: Option<Vec<AttesterDuty>>)
        ensures
            response matches Some(ds) ==> final(self).duty_store.attester_duties@ == ds@,
            response is None ==> final(self).duty_store.attester_duties@ == old(
                self,
            ).duty_store.attester_duties@,
            final(self).duty_store.proposer_duties@ == old(self).duty_store.proposer_duties@,
            final(self).duty_store.sync_committee_duties@ == old(
                self,
            ).duty_store.sync_committee_duties@,
            final(self).registry == old(self).registry,
    {
        self.duty_store.apply_attester_duties(response);
    }

    /// Folds a sync-committee-duty response in; the registry and the other two
    /// duty caches are untouched. See [`DutyStore::apply_sync_committee_duties`].
    pub fn apply_sync_committee_duties(&mut self, response: Option<Vec<SyncCommitteeDuty>>)
        ensures
            response matches Some(ds) ==> final(self).duty_store.sync_committee_duties@ == ds@,
            response is None ==> final(self).duty_store.sync_committee_duties@ == old(
                self,
            ).duty_store.sync_committee_duties@,
            final(self).duty_store.proposer_duties@ == old(self).duty_store.proposer_duties@,
            final(self).duty_store.attester_duties@ == old(self).duty_store.attester_duties@,
            final(self).registry == old(self).registry,
    {
        self.duty_store.apply_sync_committee_duties(response);
    }

    /// How many configured validators are resolved so far.
    pub fn active_validator_count(&self) -> (n: usize)
        ensures
            n == self.registry@.entries.len(),
    {
        self.registry.resolved_count()
    }
}

} // verus!
