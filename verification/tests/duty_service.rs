use validator_duty::clock::Clock;
use validator_duty::duties::{plan_duty_fetch, AttesterDuty, DutyStore, ProposerDuty, SyncCommitteeDuty};
use validator_duty::executors::{
    assemble_sync_batch, build_aggregate_and_proof, build_signed_aggregate_and_proof,
    build_single_attestation, plan_aggregate, plan_attestation, plan_block_proposal,
    route_block_response, select_sync_signers, Attestation, AttestationData, BeaconBlock,
    BlindedBeaconBlock, BlockPublishAction, BroadcastValidation, Checkpoint, ProduceBlockData,
    SignOutcome,
};
use validator_duty::registry::{Registry, ValidatorInfo};
use validator_duty::service::ValidatorService;
use validator_duty::state::{check_if_validator_active, is_proposer, ValidatorStatus};
use validator_duty::types::{PublicKey, Root, Signature, ValidatorError};

fn pk(tag: u8) -> PublicKey {
    PublicKey { bytes: vec![tag; 48] }
}

fn sig(tag: u8) -> Signature {
    Signature { bytes: vec![tag; 96] }
}

fn root(tag: u8) -> Root {
    Root { bytes: vec![tag; 32] }
}

fn data(slot: u64) -> AttestationData {
    AttestationData {
        slot,
        index: 0,
        beacon_block_root: root(1),
        source: Checkpoint { epoch: 0, root: root(2) },
        target: Checkpoint { epoch: 1, root: root(3) },
    }
}

fn resolved_registry(tags_and_indices: &[(u8, u64)]) -> Registry {
    let mut reg = Registry::new(tags_and_indices.iter().map(|&(t, _)| pk(t)).collect());
    let infos = tags_and_indices
        .iter()
        .map(|&(t, i)| ValidatorInfo { public_key: pk(t), index: i })
        .collect();
    reg.apply_resolutions(&infos);
    reg
}

#[test]
fn clock_from_time_derives_slot_and_epoch() {
    let genesis = 1_000_000;
    let clock = Clock::from_time(genesis, 12, 32, genesis + 63).unwrap();
    assert_eq!(clock.slot, 5);
    assert_eq!(clock.epoch, 0);
    let clock = Clock::from_time(genesis, 12, 32, genesis + 12 * 32 * 3 + 7).unwrap();
    assert_eq!(clock.slot, 96);
    assert_eq!(clock.epoch, 3);
}

#[test]
fn clock_before_genesis_is_fatal() {
    let r = Clock::from_time(1_000, 12, 32, 999);
    assert_eq!(r.unwrap_err(), ValidatorError::BeforeGenesis);
}

#[test]
fn clock_at_genesis_is_slot_zero() {
    let clock = Clock::from_time(1_000, 12, 32, 1_000).unwrap();
    assert_eq!(clock.slot, 0);
    assert_eq!(clock.epoch, 0);
}

#[test]
fn first_tick_fires_on_the_next_boundary() {
    // Sixty-three seconds past genesis with twelve-second slots: slot 5, and
    // the next boundary (at 72 seconds) is 9 seconds away.
    let genesis = 5_000;
    let clock = Clock::from_time(genesis, 12, 32, genesis + 63).unwrap();
    assert_eq!(clock.slot, 5);
    assert_eq!(clock.first_tick_delay(genesis + 63), 9);
}

#[test]
fn first_tick_delay_on_a_boundary_is_one_full_slot() {
    let genesis = 5_000;
    let clock = Clock::from_time(genesis, 12, 32, genesis + 24).unwrap();
    assert_eq!(clock.first_tick_delay(genesis + 24), 12);
}

#[test]
fn ticks_advance_one_slot_each_and_track_the_epoch() {
    let mut clock = Clock::from_time(0, 12, 4, 0).unwrap();
    let mut changes = 0;
    for expected_slot in 1..=9u64 {
        let changed = clock.tick();
        if changed {
            changes += 1;
        }
        assert_eq!(clock.slot, expected_slot);
        assert_eq!(clock.epoch, expected_slot / 4);
    }
    // Boundaries crossed at slots 4 and 8.
    assert_eq!(changes, 2);
}

#[test]
fn catch_up_coalesces_missed_boundaries() {
    let mut clock = Clock::from_time(0, 12, 4, 0).unwrap();
    let changed = clock.catch_up(12 * 11);
    assert!(changed);
    assert_eq!(clock.slot, 11);
    assert_eq!(clock.epoch, 2);
    // Never backwards.
    let changed = clock.catch_up(0);
    assert!(!changed);
    assert_eq!(clock.slot, 11);
}

#[test]
fn registry_resolves_only_requested_identities() {
    let mut reg = Registry::new(vec![pk(1), pk(2)]);
    let infos = vec![
        ValidatorInfo { public_key: pk(1), index: 10 },
        ValidatorInfo { public_key: pk(9), index: 99 },
    ];
    reg.apply_resolutions(&infos);
    assert_eq!(reg.resolved_count(), 1);
    assert_eq!(reg.signer_position(10), Some(0));
    assert_eq!(reg.signer_position(99), None);
}

#[test]
fn registry_refresh_is_idempotent() {
    let mut reg = Registry::new(vec![pk(1), pk(2), pk(3)]);
    let infos = vec![
        ValidatorInfo { public_key: pk(1), index: 10 },
        ValidatorInfo { public_key: pk(3), index: 30 },
    ];
    reg.apply_resolutions(&infos);
    let first: Vec<(Vec<u8>, u64, usize)> = reg
        .entries
        .iter()
        .map(|e| (e.public_key.bytes.clone(), e.index, e.identity_pos))
        .collect();
    // The same on-chain answer again: an identical mapping.
    reg.apply_resolutions(&infos);
    let second: Vec<(Vec<u8>, u64, usize)> = reg
        .entries
        .iter()
        .map(|e| (e.public_key.bytes.clone(), e.index, e.identity_pos))
        .collect();
    assert_eq!(first, second);
    assert_eq!(reg.resolved_count(), 2);
}

#[test]
fn resolved_keys_are_not_queried_again() {
    let mut reg = Registry::new(vec![pk(1), pk(2), pk(3)]);
    let all = reg.unresolved_keys();
    assert_eq!(all.len(), 3);
    reg.apply_resolutions(&vec![ValidatorInfo { public_key: pk(2), index: 20 }]);
    let remaining = reg.unresolved_keys();
    assert_eq!(remaining.len(), 2);
    assert_eq!(remaining[0].bytes, pk(1).bytes);
    assert_eq!(remaining[1].bytes, pk(3).bytes);
}

#[test]
fn resolved_count_never_decreases() {
    let mut reg = Registry::new(vec![pk(1), pk(2)]);
    assert_eq!(reg.resolved_count(), 0);
    reg.apply_resolutions(&vec![ValidatorInfo { public_key: pk(1), index: 10 }]);
    assert_eq!(reg.resolved_count(), 1);
    // A refresh that answers nothing keeps every entry.
    reg.apply_resolutions(&Vec::new());
    assert_eq!(reg.resolved_count(), 1);
    reg.apply_resolutions(&vec![ValidatorInfo { public_key: pk(2), index: 20 }]);
    assert_eq!(reg.resolved_count(), 2);
}

#[test]
fn registry_keeps_the_mapping_bijective() {
    let mut reg = Registry::new(vec![pk(1), pk(2)]);
    // A second mapping reusing an already-taken index is not admitted.
    let infos = vec![
        ValidatorInfo { public_key: pk(1), index: 10 },
        ValidatorInfo { public_key: pk(2), index: 10 },
    ];
    reg.apply_resolutions(&infos);
    assert_eq!(reg.resolved_count(), 1);
    assert_eq!(reg.signer_position(10), Some(0));
}

#[test]
fn duty_fetch_with_no_resolved_validators_plans_nothing() {
    let reg = Registry::new(vec![pk(1)]);
    assert!(plan_duty_fetch(&reg, 7).is_none());
}

#[test]
fn duty_fetch_asks_attester_duties_one_epoch_ahead() {
    let reg = resolved_registry(&[(1, 10), (2, 20)]);
    let plan = plan_duty_fetch(&reg, 7).unwrap();
    assert_eq!(plan.proposer_epoch, 7);
    assert_eq!(plan.attester_epoch, 8);
    assert_eq!(plan.sync_committee_epoch, 7);
    assert_eq!(plan.validator_indices, vec![10, 20]);
}

#[test]
fn proposer_duties_are_filtered_to_owned_validators() {
    let mut store = DutyStore::new();
    let response = vec![
        ProposerDuty { public_key: pk(1), validator_index: 10, slot: 100 },
        ProposerDuty { public_key: pk(9), validator_index: 99, slot: 101 },
        ProposerDuty { public_key: pk(2), validator_index: 20, slot: 102 },
    ];
    store.apply_proposer_duties(Some(response), &vec![10, 20]);
    assert_eq!(store.proposer_duties.len(), 2);
    assert_eq!(store.proposer_duties[0].validator_index, 10);
    assert_eq!(store.proposer_duties[1].validator_index, 20);
}

#[test]
fn failed_fetches_keep_the_previous_duties() {
    let mut store = DutyStore::new();
    store.apply_proposer_duties(
        Some(vec![ProposerDuty { public_key: pk(1), validator_index: 10, slot: 100 }]),
        &vec![10],
    );
    store.apply_attester_duties(Some(vec![AttesterDuty {
        public_key: pk(1),
        validator_index: 10,
        committee_index: 3,
        slot: 101,
    }]));
    store.apply_sync_committee_duties(Some(vec![SyncCommitteeDuty {
        public_key: pk(1),
        validator_index: 10,
        validator_sync_committee_indices: vec![4],
    }]));
    // All three fetches fail: every cache keeps its stale-but-valid set.
    store.apply_proposer_duties(None, &vec![10]);
    store.apply_attester_duties(None);
    store.apply_sync_committee_duties(None);
    assert_eq!(store.proposer_duties.len(), 1);
    assert_eq!(store.attester_duties.len(), 1);
    assert_eq!(store.sync_committee_duties.len(), 1);
    assert_eq!(store.attester_duties[0].committee_index, 3);
}

#[test]
fn attester_duties_are_replaced_wholesale() {
    let mut store = DutyStore::new();
    store.apply_attester_duties(Some(vec![
        AttesterDuty { public_key: pk(1), validator_index: 10, committee_index: 3, slot: 101 },
        AttesterDuty { public_key: pk(2), validator_index: 20, committee_index: 4, slot: 102 },
    ]));
    store.apply_attester_duties(Some(vec![AttesterDuty {
        public_key: pk(2),
        validator_index: 20,
        committee_index: 5,
        slot: 134,
    }]));
    assert_eq!(store.attester_duties.len(), 1);
    assert_eq!(store.attester_duties[0].slot, 134);
}

#[test]
fn full_block_goes_only_to_the_full_publish_path() {
    let response = ProduceBlockData::Full(BeaconBlock { slot: 42, body: vec![1, 2, 3] });
    match route_block_response(response, sig(7)) {
        BlockPublishAction::PublishBlock { validation, block } => {
            assert_eq!(validation, BroadcastValidation::Gossip);
            assert_eq!(block.message.slot, 42);
            assert_eq!(block.message.body, vec![1, 2, 3]);
            assert_eq!(block.signature.bytes, sig(7).bytes);
        }
        BlockPublishAction::PublishBlindedBlock { .. } => panic!("full block routed to the blinded path"),
    }
}

#[test]
fn blinded_block_goes_only_to_the_blinded_publish_path() {
    let response = ProduceBlockData::Blinded(BlindedBeaconBlock { slot: 43, body: vec![4] });
    match route_block_response(response, sig(8)) {
        BlockPublishAction::PublishBlindedBlock { validation, blinded_block } => {
            assert_eq!(validation, BroadcastValidation::Gossip);
            assert_eq!(blinded_block.message.slot, 43);
            assert_eq!(blinded_block.signature.bytes, sig(8).bytes);
        }
        BlockPublishAction::PublishBlock { .. } => panic!("blinded block routed to the full path"),
    }
}

#[test]
fn executors_fail_before_any_network_call_for_unknown_validators() {
    let reg = resolved_registry(&[(1, 10)]);
    assert_eq!(
        plan_block_proposal(&reg, 100, 77).unwrap_err(),
        ValidatorError::UnknownValidator { validator_index: 77 }
    );
    assert_eq!(
        plan_attestation(&reg, 100, 77, 3).unwrap_err(),
        ValidatorError::UnknownValidator { validator_index: 77 }
    );
    assert_eq!(
        plan_aggregate(&reg, 100, 3, 77).unwrap_err(),
        ValidatorError::UnknownValidator { validator_index: 77 }
    );
}

#[test]
fn executors_resolve_known_validators() {
    let reg = resolved_registry(&[(1, 10), (2, 20)]);
    let plan = plan_block_proposal(&reg, 100, 20).unwrap();
    assert_eq!(plan.slot, 100);
    assert_eq!(plan.signer.validator_index, 20);
    assert_eq!(plan.signer.identity_pos, 1);
    let plan = plan_attestation(&reg, 100, 10, 3).unwrap();
    assert_eq!(plan.committee_index, 3);
    assert_eq!(plan.signer.identity_pos, 0);
}

#[test]
fn attestation_record_carries_the_signed_data() {
    let record = build_single_attestation(10, 3, data(100), sig(5));
    assert_eq!(record.attester_index, 10);
    assert_eq!(record.committee_index, 3);
    assert_eq!(record.data.slot, 100);
    assert_eq!(record.signature.bytes, sig(5).bytes);
}

#[test]
fn aggregate_and_proof_is_assembled_and_signed_as_given() {
    let aggregate = Attestation { aggregation_bits: vec![0b101], data: data(100), signature: sig(1) };
    let message = build_aggregate_and_proof(10, aggregate, sig(2));
    assert_eq!(message.aggregator_index, 10);
    assert_eq!(message.selection_proof.bytes, sig(2).bytes);
    let signed = build_signed_aggregate_and_proof(message, sig(3));
    assert_eq!(signed.message.aggregator_index, 10);
    assert_eq!(signed.signature.bytes, sig(3).bytes);
}

#[test]
fn sync_batch_skips_validators_without_a_signer_preserving_order() {
    // A resolved, B unresolved, C resolved: the batch covers [A, C] in order.
    let reg = resolved_registry(&[(1, 10), (3, 30)]);
    let signers = select_sync_signers(&reg, &vec![10, 20, 30]);
    let indices: Vec<u64> = signers.iter().map(|s| s.validator_index).collect();
    assert_eq!(indices, vec![10, 30]);

    let outcomes = vec![SignOutcome::Signed(sig(1)), SignOutcome::Signed(sig(3))];
    let items = assemble_sync_batch(100, &root(9), &signers, outcomes).unwrap();
    assert_eq!(items.len(), 2);
    assert_eq!(items[0].validator_index, 10);
    assert_eq!(items[1].validator_index, 30);
    assert_eq!(items[0].slot, 100);
    assert_eq!(items[0].beacon_block_root.bytes, root(9).bytes);
    assert_eq!(items[0].signature.bytes, sig(1).bytes);
    assert_eq!(items[1].signature.bytes, sig(3).bytes);
}

#[test]
fn sync_batch_with_any_signing_failure_publishes_nothing() {
    let reg = resolved_registry(&[(1, 10), (3, 30)]);
    let signers = select_sync_signers(&reg, &vec![10, 30]);
    let outcomes = vec![SignOutcome::Signed(sig(1)), SignOutcome::Failed];
    let err = assemble_sync_batch(100, &root(9), &signers, outcomes).unwrap_err();
    assert_eq!(err, ValidatorError::SigningFailed { validator_index: 30 });
}

#[test]
fn sync_batch_over_no_signers_is_empty() {
    let reg = Registry::new(vec![pk(1)]);
    let signers = select_sync_signers(&reg, &vec![10, 20]);
    assert!(signers.is_empty());
    let items = assemble_sync_batch(100, &root(9), &signers, Vec::new()).unwrap();
    assert!(items.is_empty());
}

#[test]
fn validator_activity_follows_the_activation_and_exit_window() {
    let validators = vec![
        ValidatorStatus { activation_epoch: 5, exit_epoch: 10 },
        ValidatorStatus { activation_epoch: 0, exit_epoch: u64::MAX },
    ];
    assert_eq!(check_if_validator_active(&validators, 4, 0), Ok(false));
    assert_eq!(check_if_validator_active(&validators, 5, 0), Ok(true));
    assert_eq!(check_if_validator_active(&validators, 9, 0), Ok(true));
    assert_eq!(check_if_validator_active(&validators, 10, 0), Ok(false));
    assert_eq!(check_if_validator_active(&validators, 0, 1), Ok(true));
    assert_eq!(
        check_if_validator_active(&validators, 0, 2),
        Err(ValidatorError::ValidatorIndexOutOfBounds { validator_index: 2 })
    );
}

#[test]
fn proposer_check_compares_indices() {
    assert!(is_proposer(7, 7));
    assert!(!is_proposer(7, 8));
}

#[test]
fn service_queries_only_while_identities_are_unresolved() {
    let mut service = ValidatorService::new(vec![pk(1), pk(2)], vec![0xaa; 20]);
    let keys = service.validator_index_query().unwrap();
    assert_eq!(keys.len(), 2);
    service.apply_validator_indices(Some(vec![
        ValidatorInfo { public_key: pk(1), index: 10 },
        ValidatorInfo { public_key: pk(2), index: 20 },
    ]));
    assert_eq!(service.active_validator_count(), 2);
    // Fully resolved: no further query is issued.
    assert!(service.validator_index_query().is_none());
}

#[test]
fn service_keeps_registry_on_failed_refresh() {
    let mut service = ValidatorService::new(vec![pk(1)], vec![0xaa; 20]);
    service.apply_validator_indices(Some(vec![ValidatorInfo { public_key: pk(1), index: 10 }]));
    service.apply_validator_indices(None);
    assert_eq!(service.active_validator_count(), 1);
    assert_eq!(service.registry.signer_position(10), Some(0));
}

#[test]
fn service_duty_fetch_needs_resolved_validators() {
    let mut service = ValidatorService::new(vec![pk(1)], vec![0xaa; 20]);
    assert!(service.duty_fetch_plan(7).is_none());
    service.apply_validator_indices(Some(vec![ValidatorInfo { public_key: pk(1), index: 10 }]));
    let plan = service.duty_fetch_plan(7).unwrap();
    assert_eq!(plan.validator_indices, vec![10]);
    assert_eq!(plan.attester_epoch, 8);
}

#[test]
fn clock_arithmetic_holds_at_the_largest_times() {
    let clock = Clock::from_time(0, 1, 1, u64::MAX).unwrap();
    assert_eq!(clock.slot, u64::MAX);
    assert_eq!(clock.epoch, u64::MAX);
    assert_eq!(clock.first_tick_delay(u64::MAX), 1);
    let clock = Clock::from_time(0, 12, 32, u64::MAX).unwrap();
    assert_eq!(clock.slot, u64::MAX / 12);
    assert_eq!(clock.epoch, u64::MAX / 12 / 32);
}

#[test]
fn key_equality_is_byte_for_byte() {
    assert!(pk(1).key_eq(&pk(1)));
    assert!(!pk(1).key_eq(&pk(2)));
    let short = PublicKey { bytes: vec![1; 4] };
    assert!(!pk(1).key_eq(&short));
    let copy = pk(7).duplicate();
    assert!(copy.key_eq(&pk(7)));
}
