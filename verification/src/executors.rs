//! Decision logic of the four duty-execution pipelines: block proposal,
//! attestation, aggregate-and-proof, and sync-committee signing. Each pipeline
//! is fetch, then sign, then publish; the fetching, signing and publishing
//! happen outside this crate, and the functions here make every decision in
//! between: which signer acts (failing before any network call when the
//! validator index is unresolved), which publish path a block response takes,
//! which validators a sync-committee batch covers, and whether a batch may be
//! published at all.

use vstd::prelude::*;

use crate::registry::Registry;
use crate::types::{lemma_filter_push, Root, Signature, ValidatorError};
use crate::duties::contains_index;

verus! {

/// A resolved signer: the validator index it acts for, and the position of the
/// owning identity (and so of the key material) in the configured list.
#[derive(Debug)]
pub struct SignerRef {
    pub validator_index: u64,
    pub identity_pos: usize,
}

/// Checkpoint of a finality vote.
pub struct Checkpoint {
    pub epoch: u64,
    pub root: Root,
}

/// The data an attestation commits to.
pub struct AttestationData {
    pub slot: u64,
    pub index: u64,
    pub beacon_block_root: Root,
    pub source: Checkpoint,
    pub target: Checkpoint,
}

/// One validator's attestation record, as submitted.
pub struct SingleAttestation {
    pub attester_index: u64,
    pub committee_index: u64,
    pub signature: Signature,
    pub data: AttestationData,
}

/// An aggregated attestation, as the chain returns it.
pub struct Attestation {
    pub aggregation_bits: Vec<u8>,
    pub data: AttestationData,
    pub signature: Signature,
}

/// An aggregate bundled with the aggregator's proof of selection.
pub struct AggregateAndProof {
    pub aggregator_index: u64,
    pub aggregate: Attestation,
    pub selection_proof: Signature,
}

/// A signed aggregate-and-proof, ready to publish.
pub struct SignedAggregateAndProof {
    pub message: AggregateAndProof,
    pub signature: Signature,
}

/// One validator's sync-committee signature over a block root.
#[derive(Debug)]
pub struct SyncCommitteeRequestItem {
    pub slot: u64,
    pub beacon_block_root: Root,
    pub validator_index: u64,
    pub signature: Signature,
}

/// An unsigned block with its payload.
pub struct BeaconBlock {
    pub slot: u64,
    pub body: Vec<u8>,
}

/// An unsigned block whose payload is replaced by a commitment.
pub struct BlindedBeaconBlock {
    pub slot: u64,
    pub body: Vec<u8>,
}

/// The two mutually exclusive shapes of a block-production response.
pub enum ProduceBlockData {
    Full(BeaconBlock),
    Blinded(BlindedBeaconBlock),
}

/// A signed full block.
pub struct SignedBeaconBlock {
    pub message: BeaconBlock,
    pub signature: Signature,
}

/// A signed blinded block.
pub struct SignedBlindedBeaconBlock {
    pub message: BlindedBeaconBlock,
    pub signature: Signature,
}

/// Broadcast-validation level a publish call asks the chain for.
#[derive(Clone, Copy, Debug, PartialEq, Eq, Structural)]
pub enum BroadcastValidation {
    Gossip,
    Consensus,
    ConsensusAndEquivocation,
}

/// The one publish call a block proposal ends in.
pub enum BlockPublishAction {
    PublishBlock { validation: BroadcastValidation, block: SignedBeaconBlock },
    PublishBlindedBlock { validation: BroadcastValidation, blinded_block: SignedBlindedBeaconBlock },
}

/// Outcome of one external sign operation.
pub enum SignOutcome {
    Signed(Signature),
    Failed,
}

/// Resolves the signer for a validator index. An executor invoked with an
/// unresolved index fails here, with the unknown-validator error, before any
/// network call can be planned.
pub fn resolve_signer(registry: &Registry, validator_index: u64) -> (r: Result<
    SignerRef,
    ValidatorError,
>)
    ensures
        r is Ok <==> registry@.index_used(validator_index),
        r matches Ok(s) ==> s.validator_index == validator_index && registry@.resolves_to(
            validator_index,
            s.identity_pos as int,
        ),
        r matches Err(e) ==> e == (ValidatorError::UnknownValidator { validator_index }),
{
    match registry.signer_position(validator_index) {
        Some(identity_pos) => Ok(SignerRef { validator_index, identity_pos }),
        None => Err(ValidatorError::UnknownValidator { validator_index }),
    }
}

/// Plan of a block proposal up to its first outside step: sign a RANDAO reveal
/// over the slot with the resolved signer, then request a block.
#[derive(Debug)]
pub struct ProposalPlan {
    pub signer: SignerRef,
    pub slot: u64,
}

/// Decides a block proposal for a slot and validator index: with an unresolved
/// index it fails before anything else; otherwise the resolved signer produces
/// the RANDAO reveal for exactly the requested slot.
pub fn plan_block_proposal(registry: &Registry, slot: u64, validator_index: u64) -> (r: Result<
    ProposalPlan,
    ValidatorError,
>)
    ensures
        r is Ok <==> registry@.index_used(validator_index),
        r matches Ok(p) ==> p.signer.validator_index == validator_index && p.slot == slot
            && registry@.resolves_to(validator_index, p.signer.identity_pos as int),
        r matches Err(e) ==> e == (ValidatorError::UnknownValidator { validator_index }),
{
    let signer = resolve_signer(registry, validator_index)?;
    Ok(ProposalPlan { signer, slot })
}

/// Routes a signed block to its one publish call: a full response goes to the
/// full-publish endpoint and a blinded response to the blinded-publish
/// endpoint, both at gossip validation — never both, never neither.
pub fn route_block_response(response: ProduceBlockData, signature: Signature) -> (r:
    BlockPublishAction)
    ensures
        r is PublishBlock <==> response is Full,
        r is PublishBlindedBlock <==> response is Blinded,
        response matches ProduceBlockData::Full(b) ==> r matches BlockPublishAction::PublishBlock {
            validation,
            block,
        } && validation == BroadcastValidation::Gossip && block.message == b && block.signature
            == signature,
        response matches ProduceBlockData::Blinded(b) ==> r
            matches BlockPublishAction::PublishBlindedBlock { validation, blinded_block } && validation
            == BroadcastValidation::Gossip && blinded_block.message == b && blinded_block.signature == signature,
{
    match response {
        ProduceBlockData::Full(message) => BlockPublishAction::PublishBlock {
            validation: BroadcastValidation::Gossip,
            block: SignedBeaconBlock { message, signature },
        },
        ProduceBlockData::Blinded(message) => BlockPublishAction::PublishBlindedBlock {
            validation: BroadcastValidation::Gossip,
            blinded_block: SignedBlindedBeaconBlock { message, signature },
        },
    }
}

/// Plan of an attestation: fetch the data for the slot and committee, sign it
/// with the resolved signer, submit one record.
#[derive(Debug)]
pub struct AttestationPlan {
    pub signer: SignerRef,
    pub slot: u64,
    pub committee_index: u64,
}

/// Decides an attestation for a slot, validator index and committee index:
/// with an unresolved index it fails before anything else.
pub fn plan_attestation(
    registry: &Registry,
    slot: u64,
    validator_index: u64,
    committee_index: u64,
) -> (r: Result<AttestationPlan, ValidatorError>)
    ensures
        r is Ok <==> registry@.index_used(validator_index),
        r matches Ok(p) ==> p.signer.validator_index == validator_index && p.slot == slot
            && p.committee_index == committee_index && registry@.resolves_to(
            validator_index,
            p.signer.identity_pos as int,
        ),
        r matches Err(e) ==> e == (ValidatorError::UnknownValidator { validator_index }),
{
    let signer = resolve_signer(registry, validator_index)?;
    Ok(AttestationPlan { signer, slot, committee_index })
}

/// The one attestation record submitted: the given data, signed, attributed to
/// the attesting validator and its committee.
pub fn build_single_attestation(
    attester_index: u64,
    committee_index: u64,
    data: AttestationData,
    signature: Signature,
) -> (r: SingleAttestation)
    ensures
        r.attester_index == attester_index,
        r.committee_index == committee_index,
        r.data == data,
        r.signature == signature,
{
    SingleAttestation { attester_index, committee_index, signature, data }
}

/// Plan of an aggregate-and-proof: compute the selection proof over the slot,
/// fetch the aggregate matching the data's content hash, assemble and sign.
#[derive(Debug)]
pub struct AggregatePlan {
    pub signer: SignerRef,
    pub slot: u64,
    pub committee_index: u64,
}

/// Decides an aggregate-and-proof for an aggregator index: with an unresolved
/// index it fails before anything else.
pub fn plan_aggregate(
    registry: &Registry,
    slot: u64,
    committee_index: u64,
    aggregator_index: u64,
) -> (r: Result<AggregatePlan, ValidatorError>)
    ensures
        r is Ok <==> registry@.index_used(aggregator_index),
        r matches Ok(p) ==> p.signer.validator_index == aggregator_index && p.slot == slot
            && p.committee_index == committee_index && registry@.resolves_to(
            aggregator_index,
            p.signer.identity_pos as int,
        ),
        r matches Err(e) ==> e == (ValidatorError::UnknownValidator {
            validator_index: aggregator_index,
        }),
{
    let signer = resolve_signer(registry, aggregator_index)?;
    Ok(AggregatePlan { signer, slot, committee_index })
}

/// The aggregate bundled with the aggregator's index and selection proof.
pub fn build_aggregate_and_proof(
    aggregator_index: u64,
    aggregate: Attestation,
    selection_proof: Signature,
) -> (r: AggregateAndProof)
    ensures
        r.aggregator_index == aggregator_index,
        r.aggregate == aggregate,
        r.selection_proof == selection_proof,
{
    AggregateAndProof { aggregator_index, aggregate, selection_proof }
}

/// The signed aggregate-and-proof, ready to publish.
pub fn build_signed_aggregate_and_proof(message: AggregateAndProof, signature: Signature) -> (r:
    SignedAggregateAndProof)
    ensures
        r.message == message,
        r.signature == signature,
{
    SignedAggregateAndProof { message, signature }
}

/// Selects, from the requested validator indices in their given order, those
/// with a resolved signer: indices without one are silently skipped, and the
/// relative order of the remaining entries is preserved.
pub fn select_sync_signers(registry: &Registry, validator_indices: &Vec<u64>) -> (r: Vec<SignerRef>)
    ensures
        r@.map_values(|s: SignerRef| s.validator_index) == validator_indices@.filter(
            |vi: u64| registry@.index_used(vi),
        ),
        forall|k: int|
            0 <= k < r@.len() ==> registry@.resolves_to(
                (#[trigger] r@[k]).validator_index,
                r@[k].identity_pos as int,
            ),
{
    let ghost pred = |vi: u64| registry@.index_used(vi);
    let n = validator_indices.len();
    let mut r: Vec<SignerRef> = Vec::new();
    let mut i: usize = 0;
    while i < n
        invariant
            n == validator_indices@.len(),
            0 <= i <= n,
            pred == (|vi: u64| registry@.index_used(vi)),
            r@.map_values(|s: SignerRef| s.validator_index) == validator_indices@.take(
                i as int,
            ).filter(pred),
            forall|k: int|
                0 <= k < r@.len() ==> registry@.resolves_to(
                    (#[trigger] r@[k]).validator_index,
                    r@[k].identity_pos as int,
                ),
        decreases n - i,
    {
        proof {
            lemma_filter_push(
                validator_indices@.take(i as int),
                pred,
                validator_indices@[i as int],
            );
            assert(validator_indices@.take(i + 1 as int) =~= validator_indices@.take(
                i as int,
            ).push(validator_indices@[i as int]));
        }
        let vi = validator_indices[i];
        let ghost prev = r@;
        match registry.signer_position(vi) {
            Some(identity_pos) => {
                r.push(SignerRef { validator_index: vi, identity_pos });
                proof {
                    assert(r@.map_values(|s: SignerRef| s.validator_index) =~= validator_indices@.take(
                        i + 1 as int,
                    ).filter(pred));
                    assert forall|k: int| 0 <= k < r@.len() implies registry@.resolves_to(
                        (#[trigger] r@[k]).validator_index,
                        r@[k].identity_pos as int,
                    ) by {
                        if k < prev.len() {
                            assert(r@[k] == prev[k]);
                        } else {
                            assert(r@[k] == (SignerRef { validator_index: vi, identity_pos }));
                        }
                    }
                }
            },
            None => {},
        }
        i += 1;
    }
    proof {
        assert(validator_indices@.take(n as int) =~= validator_indices@);
    }
    r
}

/// Assembles a sync-committee batch from the selected signers and their sign
/// outcomes, in order: if every present signer signed, the batch holds one
/// item per signer, each binding the slot, the block root, the validator index
/// and its signature; if any sign operation failed, the entire batch is
/// discarded and the failure surfaced, so nothing is published.
pub fn assemble_sync_batch(
    slot: u64,
    beacon_block_root: &Root,
    signers: &Vec<SignerRef>,
    outcomes: Vec<SignOutcome>,
) -> (r: Result<Vec<SyncCommitteeRequestItem>, ValidatorError>)
    requires
        outcomes@.len() == signers@.len(),
    ensures
        r is Ok <==> (forall|k: int| 0 <= k < outcomes@.len() ==> #[trigger] outcomes@[k] is Signed),
        r matches Ok(items) ==> {
            &&& items@.len() == signers@.len()
            &&& forall|k: int|
                0 <= k < items@.len() ==> {
                    &&& (#[trigger] items@[k]).slot == slot
                    &&& items@[k].beacon_block_root@ == beacon_block_root@
                    &&& items@[k].validator_index == signers@[k].validator_index
                    &&& outcomes@[k] matches SignOutcome::Signed(s) && items@[k].signature == s
                }
        },
        r matches Err(e) ==> exists|k: int|
            0 <= k < outcomes@.len() && #[trigger] outcomes@[k] is Failed && e
                == (ValidatorError::SigningFailed {
                validator_index: signers@[k].validator_index,
            }),
{
    let n = signers.len();
    let mut i: usize = 0;
    while i < n
        invariant
            n == signers@.len(),
            n == outcomes@.len(),
            0 <= i <= n,
            forall|k: int| 0 <= k < i ==> (#[trigger] outcomes@[k]) is Signed,
        decreases n - i,
    {
        match &outcomes[i] {
            SignOutcome::Signed(_) => {},
            SignOutcome::Failed => {
                assert((#[trigger] outcomes@[i as int]) is Failed);
                return Err(
                    ValidatorError::SigningFailed {
                        validator_index: signers[i].validator_index,
                    },
                );
            },
        }
        i += 1;
    }
    let ghost all = outcomes@;
    let mut rest = outcomes;
    let mut items: Vec<SyncCommitteeRequestItem> = Vec::new();
    let mut i: usize = 0;
    while i < n
        invariant
            n == signers@.len(),
            n == all.len(),
            0 <= i <= n,
            rest@ == all.subrange(i as int, n as int),
            items@.len() == i,
            forall|k: int| 0 <= k < n ==> (#[trigger] all[k]) is Signed,
            forall|k: int|
                0 <= k < i ==> {
                    &&& (#[trigger] items@[k]).slot == slot
                    &&& items@[k].beacon_block_root@ == beacon_block_root@
                    &&& items@[k].validator_index == signers@[k].validator_index
                    &&& all[k] matches SignOutcome::Signed(s) && items@[k].signature == s
                },
        decreases n - i,
    {
        let outcome = rest.remove(0);
        assert(outcome == all[i as int]);
        proof {
            assert(rest@ =~= all.subrange(i + 1 as int, n as int));
        }
        match outcome {
            SignOutcome::Signed(signature) => {
                items.push(
                    SyncCommitteeRequestItem {
                        slot,
                        beacon_block_root: beacon_block_root.duplicate(),
                        validator_index: signers[i].validator_index,
                        signature,
                    },
                );
            },
            SignOutcome::Failed => {
                proof {
                    assert((#[trigger] all[i as int]) is Signed);
                }
                vstd::pervasive::unreached::<()>();
            },
        }
        i += 1;
    }
    Ok(items)
}

} // verus!
