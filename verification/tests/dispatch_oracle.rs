//! Dispatch totality, entrypoint naming, root extraction, the two oracles,
//! and end-to-end scenarios over the whole decision pipeline.

use consensus_stf::dispatch::{guest_decide, route, Action, FatalError};
use consensus_stf::envelope::encode_frame;
use consensus_stf::input::{EpochProcessingType, OperationInput};
use consensus_stf::oracle::{
    extract_root, state_root_matches_recompute, state_root_matches_specs, StateRoot,
};

/// The environment-specific output framing prefix of the reference
/// execution environment.
const OUTPUT_PREFIX_LEN: usize = 8;

fn all_epoch_phases() -> Vec<EpochProcessingType> {
    vec![
        EpochProcessingType::JustificationAndFinalization,
        EpochProcessingType::InactivityUpdates,
        EpochProcessingType::RewardsAndPenalties,
        EpochProcessingType::RegistryUpdates,
        EpochProcessingType::Slashings,
        EpochProcessingType::Eth1DataReset,
        EpochProcessingType::PendingDeposits,
        EpochProcessingType::PendingConsolidations,
        EpochProcessingType::EffectiveBalanceUpdates,
        EpochProcessingType::SlashingsReset,
        EpochProcessingType::RandaoMixesReset,
        EpochProcessingType::HistoricalSummariesUpdate,
        EpochProcessingType::ParticipationFlagUpdates,
        EpochProcessingType::SyncCommitteeUpdates,
    ]
}

#[test]
fn route_is_total_except_block_body() {
    let p = vec![1u8, 2];
    assert!(route(OperationInput::Attestation(p.clone())).is_ok());
    assert!(route(OperationInput::AttesterSlashing(p.clone())).is_ok());
    assert!(route(OperationInput::BeaconBlock(p.clone())).is_ok());
    assert!(route(OperationInput::SignedBLSToExecutionChange(p.clone())).is_ok());
    assert!(route(OperationInput::Deposit(p.clone())).is_ok());
    assert!(route(OperationInput::ProposerSlashing(p.clone())).is_ok());
    assert!(route(OperationInput::SyncAggregate(p.clone())).is_ok());
    assert!(route(OperationInput::SignedVoluntaryExit(p.clone())).is_ok());
    assert!(route(OperationInput::ExecutionPayload(p.clone())).is_ok());
    for phase in all_epoch_phases() {
        assert!(route(OperationInput::EpochProcessing(phase)).is_ok());
    }
    assert!(route(OperationInput::ProcessSlot).is_ok());
    // The one deliberately unimplemented kind aborts, every time.
    for _ in 0..3 {
        assert_eq!(
            route(OperationInput::BeaconBlockBody(p.clone())),
            Err(FatalError::UnimplementedOperation)
        );
    }
}

#[test]
fn route_picks_the_named_entrypoint() {
    let p = vec![7u8];
    let cases = vec![
        (OperationInput::Attestation(p.clone()), "process_attestation"),
        (OperationInput::AttesterSlashing(p.clone()), "process_attester_slashing"),
        (OperationInput::BeaconBlock(p.clone()), "process_block_header"),
        (OperationInput::SignedBLSToExecutionChange(p.clone()), "process_bls_to_execution_change"),
        (OperationInput::Deposit(p.clone()), "process_deposit"),
        (OperationInput::ProposerSlashing(p.clone()), "process_proposer_slashing"),
        (OperationInput::SyncAggregate(p.clone()), "process_sync_aggregate"),
        (OperationInput::SignedVoluntaryExit(p.clone()), "process_voluntary_exit"),
        (OperationInput::ExecutionPayload(p.clone()), "process_withdrawals"),
        (OperationInput::ProcessSlot, "process_slot"),
    ];
    for (input, entrypoint) in cases {
        assert_eq!(route(input).unwrap().entrypoint_name(), entrypoint);
    }
    assert_eq!(
        route(OperationInput::EpochProcessing(EpochProcessingType::RewardsAndPenalties))
            .unwrap()
            .entrypoint_name(),
        "process_rewards_and_penalties"
    );
    assert_eq!(
        route(OperationInput::EpochProcessing(EpochProcessingType::Eth1DataReset))
            .unwrap()
            .entrypoint_name(),
        "process_eth1_data_reset"
    );
}

#[test]
fn route_keeps_the_payload_for_the_entrypoint() {
    let payload = vec![3u8, 1, 4, 1, 5];
    match route(OperationInput::BeaconBlock(payload.clone())).unwrap() {
        Action::ProcessBlockHeader(b) => assert_eq!(b, payload),
        other => panic!("routed to {:?}", other.entrypoint_name()),
    }
}

#[test]
fn extract_root_takes_trailing_32_bytes() {
    let mut output = vec![0u8; OUTPUT_PREFIX_LEN];
    let root_bytes: Vec<u8> = (0u8..32).collect();
    output.extend_from_slice(&root_bytes);
    let root = extract_root(&output, OUTPUT_PREFIX_LEN).unwrap();
    assert_eq!(root.as_bytes(), &root_bytes[..]);
}

#[test]
fn extract_root_rejects_wrong_sizes() {
    assert!(extract_root(&[0u8; 39], OUTPUT_PREFIX_LEN).is_none());
    assert!(extract_root(&[0u8; 41], OUTPUT_PREFIX_LEN).is_none());
    assert!(extract_root(&[], OUTPUT_PREFIX_LEN).is_none());
    // The prefix size is environment-specific, not universal.
    assert!(extract_root(&[0u8; 36], 4).is_some());
}

#[test]
fn state_root_takes_exactly_32_bytes() {
    assert!(StateRoot::from_bytes(&[5u8; 32]).is_some());
    assert!(StateRoot::from_bytes(&[5u8; 31]).is_none());
    assert!(StateRoot::from_bytes(&[5u8; 33]).is_none());
}

#[test]
fn specs_oracle_without_post_state_expects_pre_root() {
    let pre = StateRoot::from_bytes(&[0x11u8; 32]).unwrap();
    let same = StateRoot::from_bytes(&[0x11u8; 32]).unwrap();
    let other = StateRoot::from_bytes(&[0x22u8; 32]).unwrap();
    assert!(state_root_matches_specs(&same, &pre, &None));
    assert!(!state_root_matches_specs(&other, &pre, &None));
}

#[test]
fn specs_oracle_with_post_state_expects_post_root() {
    let pre = StateRoot::from_bytes(&[0x11u8; 32]).unwrap();
    let post = StateRoot::from_bytes(&[0x22u8; 32]).unwrap();
    let emitted_post = StateRoot::from_bytes(&[0x22u8; 32]).unwrap();
    let emitted_pre = StateRoot::from_bytes(&[0x11u8; 32]).unwrap();
    // Exactly the post-state's root passes; the unmutated root fails.
    assert!(state_root_matches_specs(&emitted_post, &pre, &Some(post)));
    let post = StateRoot::from_bytes(&[0x22u8; 32]).unwrap();
    assert!(!state_root_matches_specs(&emitted_pre, &pre, &Some(post)));
}

#[test]
fn recompute_oracle_is_bit_exact() {
    let a = StateRoot::from_bytes(&[0x33u8; 32]).unwrap();
    let b = StateRoot::from_bytes(&[0x33u8; 32]).unwrap();
    let mut bytes = [0x33u8; 32];
    bytes[31] = 0x34;
    let c = StateRoot::from_bytes(&bytes).unwrap();
    assert!(state_root_matches_recompute(&a, &b));
    assert!(!state_root_matches_recompute(&a, &c));
}

/// A rejected Deposit leaves the state untouched: the emitted root must be
/// the pre-state's own, and both oracles accept exactly that.
#[test]
fn scenario_rejected_deposit_keeps_pre_root() {
    let pre_state_bytes = vec![0xA0u8, 0xA1, 0xA2, 0xA3];
    let deposit_payload = vec![1u8, 2, 3, 4, 5, 6, 7, 8];
    let frame = encode_frame(&pre_state_bytes, &OperationInput::Deposit(deposit_payload.clone()));

    // The guest reaches the deposit entrypoint with the framed payload.
    let (state_bytes, action) = guest_decide(&frame).unwrap();
    assert_eq!(state_bytes, pre_state_bytes);
    assert_eq!(action, Action::ProcessDeposit(deposit_payload));

    // The entrypoint reports a validation error; the dispatcher discards it
    // and commits the root of the unchanged state.
    let r0 = StateRoot::from_bytes(&[0x77u8; 32]).unwrap();
    let emitted = StateRoot::from_bytes(&[0x77u8; 32]).unwrap();
    assert!(state_root_matches_specs(&emitted, &r0, &None));
    // Any other emitted root is a hard failure.
    let wrong = StateRoot::from_bytes(&[0x78u8; 32]).unwrap();
    assert!(!state_root_matches_specs(&wrong, &r0, &None));
}

/// An accepted operation with a post-state fixture: the emitted root must
/// equal the post-state's root and agree with the host's recomputation.
#[test]
fn scenario_accepted_operation_matches_post_root() {
    let pre_state_bytes = vec![0xB0u8, 0xB1];
    let input = OperationInput::SignedVoluntaryExit(vec![9u8, 9, 9]);
    let frame = encode_frame(&pre_state_bytes, &input);
    let (state_bytes, action) = guest_decide(&frame).unwrap();
    assert_eq!(state_bytes, pre_state_bytes);
    assert_eq!(action.entrypoint_name(), "process_voluntary_exit");

    let pre_root = StateRoot::from_bytes(&[0x01u8; 32]).unwrap();
    let post_root = StateRoot::from_bytes(&[0x02u8; 32]).unwrap();
    let emitted = StateRoot::from_bytes(&[0x02u8; 32]).unwrap();
    let recomputed = StateRoot::from_bytes(&[0x02u8; 32]).unwrap();
    assert!(state_root_matches_specs(&emitted, &pre_root, &Some(post_root)));
    assert!(state_root_matches_recompute(&emitted, &recomputed));
}

/// Corrupted envelope or frame bytes abort the invocation fatally; no root,
/// not even the pre-state's, can come out of such a case.
#[test]
fn scenario_corrupted_input_aborts() {
    let pre_state_bytes = vec![0xC0u8, 0xC1, 0xC2];
    let input = OperationInput::Attestation(vec![6u8, 6, 6, 6]);
    let frame = encode_frame(&pre_state_bytes, &input);

    // Cut at the payload field boundary.
    assert_eq!(guest_decide(&frame[..frame.len() - 1]), Err(FatalError::MalformedEnvelope));
    // Corrupt the envelope tag.
    let mut bad_tag = frame.clone();
    bad_tag[8 + pre_state_bytes.len()] = 200;
    assert_eq!(guest_decide(&bad_tag), Err(FatalError::MalformedEnvelope));
    // Corrupt the frame length prefix.
    let mut bad_len = frame.clone();
    bad_len[0] = 0xFF;
    assert_eq!(guest_decide(&bad_len), Err(FatalError::MalformedFrame));
    // Truncate the frame inside the length prefix.
    assert_eq!(guest_decide(&frame[..5]), Err(FatalError::MalformedFrame));
}

/// The guest decides on the framed bytes exactly what the host decides on
/// the original input: the two oracles see one and the same dispatch.
#[test]
fn guest_and_host_agree_on_every_kind() {
    let pre_state_bytes = vec![0xD0u8; 16];
    let payload = vec![2u8, 7, 1, 8];
    let mut inputs = vec![
        OperationInput::Attestation(payload.clone()),
        OperationInput::AttesterSlashing(payload.clone()),
        OperationInput::BeaconBlock(payload.clone()),
        OperationInput::SignedBLSToExecutionChange(payload.clone()),
        OperationInput::Deposit(payload.clone()),
        OperationInput::ProposerSlashing(payload.clone()),
        OperationInput::SyncAggregate(payload.clone()),
        OperationInput::SignedVoluntaryExit(payload.clone()),
        OperationInput::ExecutionPayload(payload.clone()),
        OperationInput::ProcessSlot,
    ];
    for phase in all_epoch_phases() {
        inputs.push(OperationInput::EpochProcessing(phase));
    }
    for input in inputs {
        let frame = encode_frame(&pre_state_bytes, &input);
        let (state_bytes, guest_action) = guest_decide(&frame).unwrap();
        let host_action = route(input).unwrap();
        assert_eq!(state_bytes, pre_state_bytes);
        assert_eq!(guest_action, host_action);
    }
    // And the unimplemented kind aborts on both sides.
    let frame = encode_frame(&pre_state_bytes, &OperationInput::BeaconBlockBody(payload.clone()));
    assert_eq!(guest_decide(&frame), Err(FatalError::UnimplementedOperation));
    assert_eq!(
        route(OperationInput::BeaconBlockBody(payload)),
        Err(FatalError::UnimplementedOperation)
    );
}
