//! The wire protocol: envelope and frame encoding, decoding, round trips,
//! and rejection of corrupted bytes.

use consensus_stf::envelope::{decode_frame, decode_input, encode_frame, encode_input, DecodeError};
use consensus_stf::input::{EpochProcessingType, OperationInput};

#[test]
fn encode_payload_envelope_exact_bytes() {
    let enc = encode_input(&OperationInput::Deposit(vec![1, 2, 3]));
    assert_eq!(enc, vec![4u8, 3, 0, 0, 0, 0, 0, 0, 0, 1, 2, 3]);
}

#[test]
fn encode_epoch_envelope_exact_bytes() {
    let enc = encode_input(&OperationInput::EpochProcessing(EpochProcessingType::RegistryUpdates));
    assert_eq!(enc, vec![10u8, 3]);
}

#[test]
fn encode_process_slot_envelope_exact_bytes() {
    let enc = encode_input(&OperationInput::ProcessSlot);
    assert_eq!(enc, vec![11u8]);
}

#[test]
fn encode_empty_payload_envelope() {
    let enc = encode_input(&OperationInput::Attestation(Vec::new()));
    assert_eq!(enc, vec![0u8, 0, 0, 0, 0, 0, 0, 0, 0]);
    let back = decode_input(&enc).unwrap();
    assert_eq!(back, OperationInput::Attestation(Vec::new()));
}

#[test]
fn envelope_round_trip_every_variant() {
    let payload = vec![0xDEu8, 0xAD, 0xBE, 0xEF];
    let inputs = vec![
        OperationInput::Attestation(payload.clone()),
        OperationInput::AttesterSlashing(payload.clone()),
        OperationInput::BeaconBlock(payload.clone()),
        OperationInput::SignedBLSToExecutionChange(payload.clone()),
        OperationInput::Deposit(payload.clone()),
        OperationInput::BeaconBlockBody(payload.clone()),
        OperationInput::ProposerSlashing(payload.clone()),
        OperationInput::SyncAggregate(payload.clone()),
        OperationInput::SignedVoluntaryExit(payload.clone()),
        OperationInput::ExecutionPayload(payload.clone()),
        OperationInput::EpochProcessing(EpochProcessingType::JustificationAndFinalization),
        OperationInput::EpochProcessing(EpochProcessingType::SyncCommitteeUpdates),
        OperationInput::ProcessSlot,
    ];
    for input in inputs {
        let enc = encode_input(&input);
        let back = decode_input(&enc).unwrap();
        assert_eq!(back, input);
    }
}

#[test]
fn envelope_rejects_empty() {
    assert_eq!(decode_input(&[]), Err(DecodeError::MalformedEnvelope));
}

#[test]
fn envelope_rejects_unknown_tag() {
    assert_eq!(decode_input(&[12u8]), Err(DecodeError::MalformedEnvelope));
    assert_eq!(decode_input(&[255u8, 0, 0]), Err(DecodeError::MalformedEnvelope));
}

#[test]
fn envelope_rejects_unknown_epoch_phase() {
    assert_eq!(decode_input(&[10u8, 14]), Err(DecodeError::MalformedEnvelope));
}

#[test]
fn envelope_rejects_wrong_payload_length() {
    // Length field says 3 but four payload bytes follow.
    let bytes = vec![4u8, 3, 0, 0, 0, 0, 0, 0, 0, 1, 2, 3, 4];
    assert_eq!(decode_input(&bytes), Err(DecodeError::MalformedEnvelope));
    // Length field says 3 but only two payload bytes follow.
    let bytes = vec![4u8, 3, 0, 0, 0, 0, 0, 0, 0, 1, 2];
    assert_eq!(decode_input(&bytes), Err(DecodeError::MalformedEnvelope));
}

#[test]
fn envelope_rejects_trailing_bytes_after_slot() {
    assert_eq!(decode_input(&[11u8, 0]), Err(DecodeError::MalformedEnvelope));
}

#[test]
fn frame_exact_bytes() {
    let state = vec![0xAAu8, 0xBB];
    let frame = encode_frame(&state, &OperationInput::ProcessSlot);
    assert_eq!(frame, vec![2u8, 0, 0, 0, 0, 0, 0, 0, 0xAA, 0xBB, 11]);
}

#[test]
fn frame_round_trip() {
    let state = vec![9u8, 8, 7, 6, 5];
    let input = OperationInput::SyncAggregate(vec![1, 1, 2, 3, 5, 8]);
    let frame = encode_frame(&state, &input);
    let (state_back, input_back) = decode_frame(&frame).unwrap();
    assert_eq!(state_back, state);
    assert_eq!(input_back, input);
}

#[test]
fn frame_round_trip_empty_state() {
    let state: Vec<u8> = Vec::new();
    let input = OperationInput::EpochProcessing(EpochProcessingType::SlashingsReset);
    let frame = encode_frame(&state, &input);
    let (state_back, input_back) = decode_frame(&frame).unwrap();
    assert_eq!(state_back, state);
    assert_eq!(input_back, input);
}

#[test]
fn frame_rejects_truncated_length_prefix() {
    let state = vec![1u8, 2, 3];
    let frame = encode_frame(&state, &OperationInput::ProcessSlot);
    assert_eq!(decode_frame(&frame[..7]), Err(DecodeError::MalformedFrame));
}

#[test]
fn frame_rejects_truncated_state() {
    // Length prefix announces 5 state bytes; only 3 follow and no envelope.
    let bytes = vec![5u8, 0, 0, 0, 0, 0, 0, 0, 1, 2, 3];
    assert_eq!(decode_frame(&bytes), Err(DecodeError::MalformedFrame));
}

#[test]
fn frame_rejects_corrupted_envelope() {
    let state = vec![1u8, 2, 3];
    let mut frame = encode_frame(&state, &OperationInput::ProcessSlot);
    // The envelope tag stands right after the state; overwrite it with a tag
    // outside the protocol.
    let tag_at = 8 + state.len();
    frame[tag_at] = 12;
    assert_eq!(decode_frame(&frame), Err(DecodeError::MalformedEnvelope));
}

#[test]
fn frame_rejects_payload_cut_at_field_boundary() {
    let state = vec![1u8, 2, 3];
    let input = OperationInput::Deposit(vec![4, 5, 6, 7]);
    let frame = encode_frame(&state, &input);
    // Drop the final payload byte: the envelope length field no longer
    // matches, so the whole invocation input is rejected.
    assert_eq!(decode_frame(&frame[..frame.len() - 1]), Err(DecodeError::MalformedEnvelope));
}
