//! The host–guest wire protocol: a byte envelope for one `OperationInput`
//! and the two-part frame `[length N][N bytes pre-state][envelope]` handed to
//! the guest. Encoding and decoding are exact inverses, proved below, so the
//! guest decides on precisely the input the host framed.

use vstd::bytes::{
    lemma_auto_spec_u64_to_from_le_bytes, spec_u64_from_le_bytes, spec_u64_to_le_bytes,
    u64_from_le_bytes, u64_to_le_bytes,
};
use vstd::prelude::*;
use vstd::slice::slice_to_vec;

use crate::input::{is_payload_bearing, payload_of, EpochProcessingType, InputModel, OperationInput};

verus! {

/// Why a wire frame or envelope was rejected. Every such rejection is fatal
/// for the invocation: no root is committed.
#[derive(Debug, Clone, Copy, PartialEq, Eq, Structural)]
pub enum DecodeError {
    /// The frame is shorter than its length prefix announces, or too short
    /// to hold the prefix itself.
    MalformedFrame,
    /// The operation-input envelope is not an exact encoding of any input.
    MalformedEnvelope,
}

/// The envelope tag of each input variant. Payload-bearing variants use tags
/// 0 through 9 in declaration order; epoch processing and slot advancement
/// follow.
pub open spec fn spec_tag(m: InputModel) -> u8 {
    match m {
        InputModel::Attestation(_) => 0u8,
        InputModel::AttesterSlashing(_) => 1u8,
        InputModel::BeaconBlock(_) => 2u8,
        InputModel::SignedBLSToExecutionChange(_) => 3u8,
        InputModel::Deposit(_) => 4u8,
        InputModel::BeaconBlockBody(_) => 5u8,
        InputModel::ProposerSlashing(_) => 6u8,
        InputModel::SyncAggregate(_) => 7u8,
        InputModel::SignedVoluntaryExit(_) => 8u8,
        InputModel::ExecutionPayload(_) => 9u8,
        InputModel::EpochProcessing(_) => 10u8,
        InputModel::ProcessSlot => 11u8,
    }
}

/// The envelope sub-tag of each epoch-processing phase, in declaration order.
pub open spec fn spec_epoch_tag(t: EpochProcessingType) -> u8 {
    match t {
        EpochProcessingType::JustificationAndFinalization => 0u8,
        EpochProcessingType::InactivityUpdates => 1u8,
        EpochProcessingType::RewardsAndPenalties => 2u8,
        EpochProcessingType::RegistryUpdates => 3u8,
        EpochProcessingType::Slashings => 4u8,
        EpochProcessingType::Eth1DataReset => 5u8,
        EpochProcessingType::PendingDeposits => 6u8,
        EpochProcessingType::PendingConsolidations => 7u8,
        EpochProcessingType::EffectiveBalanceUpdates => 8u8,
        EpochProcessingType::SlashingsReset => 9u8,
        EpochProcessingType::RandaoMixesReset => 10u8,
        EpochProcessingType::HistoricalSummariesUpdate => 11u8,
        EpochProcessingType::ParticipationFlagUpdates => 12u8,
        EpochProcessingType::SyncCommitteeUpdates => 13u8,
    }
}

/// The epoch-processing phase named by an envelope sub-tag.
pub open spec fn spec_epoch_of_tag(b: u8) -> EpochProcessingType
    recommends
        b <= 13,
{
    if b == 0 {
        EpochProcessingType::JustificationAndFinalization
    } else if b == 1 {
        EpochProcessingType::InactivityUpdates
    } else if b == 2 {
        EpochProcessingType::RewardsAndPenalties
    } else if b == 3 {
        EpochProcessingType::RegistryUpdates
    } else if b == 4 {
        EpochProcessingType::Slashings
    } else if b == 5 {
        EpochProcessingType::Eth1DataReset
    } else if b == 6 {
        EpochProcessingType::PendingDeposits
    } else if b == 7 {
        EpochProcessingType::PendingConsolidations
    } else if b == 8 {
        EpochProcessingType::EffectiveBalanceUpdates
    } else if b == 9 {
        EpochProcessingType::SlashingsReset
    } else if b == 10 {
        EpochProcessingType::RandaoMixesReset
    } else if b == 11 {
        EpochProcessingType::HistoricalSummariesUpdate
    } else if b == 12 {
        EpochProcessingType::ParticipationFlagUpdates
    } else {
        EpochProcessingType::SyncCommitteeUpdates
    }
}

/// The payload-bearing input variant named by an envelope tag.
pub open spec fn spec_payload_model(tag: u8, p: Seq<u8>) -> InputModel
    recommends
        tag <= 9,
{
    if tag == 0 {
        InputModel::Attestation(p)
    } else if tag == 1 {
        InputModel::AttesterSlashing(p)
    } else if tag == 2 {
        InputModel::BeaconBlock(p)
    } else if tag == 3 {
        InputModel::SignedBLSToExecutionChange(p)
    } else if tag == 4 {
        InputModel::Deposit(p)
    } else if tag == 5 {
        InputModel::BeaconBlockBody(p)
    } else if tag == 6 {
        InputModel::ProposerSlashing(p)
    } else if tag == 7 {
        InputModel::SyncAggregate(p)
    } else if tag == 8 {
        InputModel::SignedVoluntaryExit(p)
    } else {
        InputModel::ExecutionPayload(p)
    }
}

/// The envelope encoding of one input: its tag, then, for payload-bearing
/// variants, the payload length as eight little-endian bytes followed by the
/// payload itself; for epoch processing, the phase sub-tag; nothing more for
/// slot advancement.
pub open spec fn spec_encode_input(m: InputModel) -> Seq<u8> {
    if is_payload_bearing(m) {
        seq![spec_tag(m)] + spec_u64_to_le_bytes(payload_of(m).len() as u64) + payload_of(m)
    } else {
        match m {
            InputModel::EpochProcessing(t) => seq![10u8, spec_epoch_tag(t)],
            _ => seq![11u8],
        }
    }
}

/// The input an envelope decodes to, or the error that rejects it. Exactly
/// the byte strings produced by `spec_encode_input` decode; every other
/// string, including one with trailing bytes, is malformed.
pub open spec fn spec_decode_input(b: Seq<u8>) -> Result<InputModel, DecodeError> {
    if b.len() == 0 {
        Err(DecodeError::MalformedEnvelope)
    } else if b[0] <= 9 {
        if b.len() < 9 {
            Err(DecodeError::MalformedEnvelope)
        } else {
            let n = spec_u64_from_le_bytes(b.subrange(1, 9));
            if b.len() - 9 == n {
                Ok(spec_payload_model(b[0], b.skip(9)))
            } else {
                Err(DecodeError::MalformedEnvelope)
            }
        }
    } else if b[0] == 10 {
        if b.len() == 2 && b[1] <= 13 {
            Ok(InputModel::EpochProcessing(spec_epoch_of_tag(b[1])))
        } else {
            Err(DecodeError::MalformedEnvelope)
        }
    } else if b[0] == 11 {
        if b.len() == 1 {
            Ok(InputModel::ProcessSlot)
        } else {
            Err(DecodeError::MalformedEnvelope)
        }
    } else {
        Err(DecodeError::MalformedEnvelope)
    }
}

/// The two-part frame handed to the guest: the pre-state length as eight
/// little-endian bytes, the pre-state bytes, then the input envelope.
pub open spec fn spec_encode_frame(state: Seq<u8>, m: InputModel) -> Seq<u8> {
    spec_u64_to_le_bytes(state.len() as u64) + state + spec_encode_input(m)
}

/// The pre-state bytes and input a frame decodes to, or the error that
/// rejects it.
pub open spec fn spec_decode_frame(b: Seq<u8>) -> Result<(Seq<u8>, InputModel), DecodeError> {
    if b.len() < 8 {
        Err(DecodeError::MalformedFrame)
    } else {
        let n = spec_u64_from_le_bytes(b.subrange(0, 8)) as int;
        if b.len() < 8 + n {
            Err(DecodeError::MalformedFrame)
        } else {
            match spec_decode_input(b.skip(8 + n)) {
                Ok(m) => Ok((b.subrange(8, 8 + n), m)),
                Err(e) => Err(e),
            }
        }
    }
}

/// Append every byte of `data` to `out`.
fn push_all(out: &mut Vec<u8>, data: &Vec<u8>)
    ensures
        final(out)@ == old(out)@ + data@,
{
    let ghost prefix: Seq<u8> = out@;
    let mut k: usize = 0;
    while k < data.len()
        invariant
            0 <= k <= data@.len(),
            out@ == prefix + data@.take(k as int),
        decreases data@.len() - k,
    {
        out.push(data[k]);
        proof {
            assert(data@.take(k + 1) == data@.take(k as int).push(data@[k as int]));
        }
        k += 1;
    }
    proof {
        assert(data@.take(data@.len() as int) == data@);
    }
}

/// The envelope of one payload-bearing variant: tag, length, payload.
fn encode_payload_envelope(tag: u8, payload: &Vec<u8>) -> (r: Vec<u8>)
    ensures
        r@ == seq![tag] + spec_u64_to_le_bytes(payload@.len() as u64) + payload@,
{
    let mut out: Vec<u8> = Vec::new();
    out.push(tag);
    let mut len_bytes: Vec<u8> = u64_to_le_bytes(payload.len() as u64);
    out.append(&mut len_bytes);
    push_all(&mut out, payload);
    proof {
        assert(out@ =~= seq![tag] + spec_u64_to_le_bytes(payload@.len() as u64) + payload@);
    }
    out
}

/// The envelope sub-tag of an epoch-processing phase.
fn epoch_tag(t: &EpochProcessingType) -> (r: u8)
    ensures
        r == spec_epoch_tag(*t),
{
    match t {
        EpochProcessingType::JustificationAndFinalization => 0u8,
        EpochProcessingType::InactivityUpdates => 1u8,
        EpochProcessingType::RewardsAndPenalties => 2u8,
        EpochProcessingType::RegistryUpdates => 3u8,
        EpochProcessingType::Slashings => 4u8,
        EpochProcessingType::Eth1DataReset => 5u8,
        EpochProcessingType::PendingDeposits => 6u8,
        EpochProcessingType::PendingConsolidations => 7u8,
        EpochProcessingType::EffectiveBalanceUpdates => 8u8,
        EpochProcessingType::SlashingsReset => 9u8,
        EpochProcessingType::RandaoMixesReset => 10u8,
        EpochProcessingType::HistoricalSummariesUpdate => 11u8,
        EpochProcessingType::ParticipationFlagUpdates => 12u8,
        EpochProcessingType::SyncCommitteeUpdates => 13u8,
    }
}

/// The epoch-processing phase named by an envelope sub-tag, if any is.
fn epoch_type_from_tag(b: u8) -> (r: Option<EpochProcessingType>)
    ensures
        r is Some <==> b <= 13,
        r matches Some(t) ==> t == spec_epoch_of_tag(b),
{
    match b {
        0u8 => Some(EpochProcessingType::JustificationAndFinalization),
        1u8 => Some(EpochProcessingType::InactivityUpdates),
        2u8 => Some(EpochProcessingType::RewardsAndPenalties),
        3u8 => Some(EpochProcessingType::RegistryUpdates),
        4u8 => Some(EpochProcessingType::Slashings),
        5u8 => Some(EpochProcessingType::Eth1DataReset),
        6u8 => Some(EpochProcessingType::PendingDeposits),
        7u8 => Some(EpochProcessingType::PendingConsolidations),
        8u8 => Some(EpochProcessingType::EffectiveBalanceUpdates),
        9u8 => Some(EpochProcessingType::SlashingsReset),
        10u8 => Some(EpochProcessingType::RandaoMixesReset),
        11u8 => Some(EpochProcessingType::HistoricalSummariesUpdate),
        12u8 => Some(EpochProcessingType::ParticipationFlagUpdates),
        13u8 => Some(EpochProcessingType::SyncCommitteeUpdates),
        _ => None,
    }
}

/// Encode one input into its wire envelope.
pub fn encode_input(input: &OperationInput) -> (r: Vec<u8>)
    ensures
        r@ == spec_encode_input(input@),
{
    match input {
        OperationInput::Attestation(p) => encode_payload_envelope(0u8, p),
        OperationInput::AttesterSlashing(p) => encode_payload_envelope(1u8, p),
        OperationInput::BeaconBlock(p) => encode_payload_envelope(2u8, p),
        OperationInput::SignedBLSToExecutionChange(p) => encode_payload_envelope(3u8, p),
        OperationInput::Deposit(p) => encode_payload_envelope(4u8, p),
        OperationInput::BeaconBlockBody(p) => encode_payload_envelope(5u8, p),
        OperationInput::ProposerSlashing(p) => encode_payload_envelope(6u8, p),
        OperationInput::SyncAggregate(p) => encode_payload_envelope(7u8, p),
        OperationInput::SignedVoluntaryExit(p) => encode_payload_envelope(8u8, p),
        OperationInput::ExecutionPayload(p) => encode_payload_envelope(9u8, p),
        OperationInput::EpochProcessing(t) => {
            let mut out: Vec<u8> = Vec::new();
            out.push(10u8);
            out.push(epoch_tag(t));
            proof {
                assert(out@ =~= spec_encode_input(input@));
            }
            out
        },
        OperationInput::ProcessSlot => {
            let mut out: Vec<u8> = Vec::new();
            out.push(11u8);
            proof {
                assert(out@ =~= spec_encode_input(input@));
            }
            out
        },
    }
}

/// Decode a wire envelope back into the input it encodes; reject every byte
/// string that is not an exact encoding.
pub fn decode_input(bytes: &[u8]) -> (r: Result<OperationInput, DecodeError>)
    ensures
        r matches Ok(i) ==> spec_decode_input(bytes@) == Ok::<InputModel, DecodeError>(i@),
        r matches Err(e) ==> spec_decode_input(bytes@) == Err::<InputModel, DecodeError>(e),
{
    if bytes.len() == 0 {
        return Err(DecodeError::MalformedEnvelope);
    }
    let tag: u8 = bytes[0];
    if tag <= 9 {
        if bytes.len() < 9 {
            return Err(DecodeError::MalformedEnvelope);
        }
        let n: u64 = u64_from_le_bytes(&bytes[1..9]);
        if n != (bytes.len() - 9) as u64 {
            return Err(DecodeError::MalformedEnvelope);
        }
        let payload: Vec<u8> = slice_to_vec(&bytes[9..bytes.len()]);
        let input: OperationInput = if tag == 0 {
            OperationInput::Attestation(payload)
        } else if tag == 1 {
            OperationInput::AttesterSlashing(payload)
        } else if tag == 2 {
            OperationInput::BeaconBlock(payload)
        } else if tag == 3 {
            OperationInput::SignedBLSToExecutionChange(payload)
        } else if tag == 4 {
            OperationInput::Deposit(payload)
        } else if tag == 5 {
            OperationInput::BeaconBlockBody(payload)
        } else if tag == 6 {
            OperationInput::ProposerSlashing(payload)
        } else if tag == 7 {
            OperationInput::SyncAggregate(payload)
        } else if tag == 8 {
            OperationInput::SignedVoluntaryExit(payload)
        } else {
            OperationInput::ExecutionPayload(payload)
        };
        Ok(input)
    } else if tag == 10 {
        if bytes.len() != 2 {
            return Err(DecodeError::MalformedEnvelope);
        }
        match epoch_type_from_tag(bytes[1]) {
            Some(t) => Ok(OperationInput::EpochProcessing(t)),
            None => Err(DecodeError::MalformedEnvelope),
        }
    } else if tag == 11 {
        if bytes.len() == 1 {
            Ok(OperationInput::ProcessSlot)
        } else {
            Err(DecodeError::MalformedEnvelope)
        }
    } else {
        Err(DecodeError::MalformedEnvelope)
    }
}

/// Assemble the two-part framed guest input from the canonical pre-state
/// bytes and the operation input.
pub fn encode_frame(pre_state: &Vec<u8>, input: &OperationInput) -> (r: Vec<u8>)
    ensures
        r@ == spec_encode_frame(pre_state@, input@),
{
    let mut out: Vec<u8> = u64_to_le_bytes(pre_state.len() as u64);
    push_all(&mut out, pre_state);
    let mut env: Vec<u8> = encode_input(input);
    out.append(&mut env);
    proof {
        assert(out@ =~= spec_encode_frame(pre_state@, input@));
    }
    out
}

/// Split a framed guest input back into the pre-state bytes and the input;
/// reject a frame whose length prefix or envelope is malformed.
pub fn decode_frame(bytes: &[u8]) -> (r: Result<(Vec<u8>, OperationInput), DecodeError>)
    ensures
        r matches Ok(p) ==> spec_decode_frame(bytes@) == Ok::<_, DecodeError>((p.0@, p.1@)),
        r matches Err(e) ==> spec_decode_frame(bytes@) == Err::<(Seq<u8>, InputModel), _>(e),
{
    if bytes.len() < 8 {
        return Err(DecodeError::MalformedFrame);
    }
    let n: u64 = u64_from_le_bytes(&bytes[0..8]);
    if n > (bytes.len() - 8) as u64 {
        return Err(DecodeError::MalformedFrame);
    }
    let state_end: usize = 8 + n as usize;
    let state: Vec<u8> = slice_to_vec(&bytes[8..state_end]);
    let envelope: &[u8] = &bytes[state_end..bytes.len()];
    match decode_input(envelope) {
        Ok(i) => {
            proof {
                assert(bytes@.skip(8 + n as int) =~= envelope@);
                assert(bytes@.subrange(8, 8 + n as int) =~= state@);
            }
            Ok((state, i))
        },
        Err(e) => {
            proof {
                assert(bytes@.skip(8 + n as int) =~= envelope@);
            }
            Err(e)
        },
    }
}

/// Decoding an envelope recovers exactly the input that was encoded.
pub proof fn lemma_input_round_trip(m: InputModel)
    requires
        is_payload_bearing(m) ==> payload_of(m).len() <= u64::MAX,
    ensures
        spec_decode_input(spec_encode_input(m)) == Ok::<InputModel, DecodeError>(m),
{
    lemma_auto_spec_u64_to_from_le_bytes();
    let e = spec_encode_input(m);
    if is_payload_bearing(m) {
        let p = payload_of(m);
        let lb = spec_u64_to_le_bytes(p.len() as u64);
        assert(lb.len() == 8);
        assert(e.len() == 9 + p.len());
        assert(e[0] == spec_tag(m));
        assert(spec_tag(m) <= 9);
        assert(e.subrange(1, 9) =~= lb);
        assert(spec_u64_from_le_bytes(lb) == p.len() as u64);
        assert(e.len() - 9 == p.len());
        assert(e.skip(9) =~= p);
        assert(spec_payload_model(spec_tag(m), p) == m);
    } else {
        match m {
            InputModel::EpochProcessing(t) => {
                assert(e.len() == 2);
                assert(e[0] == 10);
                assert(e[1] == spec_epoch_tag(t));
                assert(spec_epoch_tag(t) <= 13);
                assert(spec_epoch_of_tag(spec_epoch_tag(t)) == t);
            },
            _ => {
                assert(e.len() == 1);
                assert(e[0] == 11);
            },
        }
    }
}

/// Every accepted envelope is the encoding of the input it decodes to:
/// together with the round trip, the byte strings that decode are exactly
/// the encodings, each of exactly one input.
pub proof fn lemma_input_decode_complete(b: Seq<u8>)
    requires
        spec_decode_input(b) is Ok,
    ensures
        spec_encode_input(spec_decode_input(b)->Ok_0) == b,
{
    lemma_auto_spec_u64_to_from_le_bytes();
    let m = spec_decode_input(b)->Ok_0;
    if b[0] <= 9 {
        let lb = b.subrange(1, 9);
        let p = b.skip(9);
        let n = spec_u64_from_le_bytes(lb);
        assert(p.len() == n);
        assert(spec_u64_to_le_bytes(spec_u64_from_le_bytes(lb)) == lb);
        assert(spec_tag(m) == b[0]);
        assert(payload_of(m) == p);
        assert(is_payload_bearing(m));
        assert(spec_u64_to_le_bytes(p.len() as u64) == lb);
        assert(spec_encode_input(m) =~= b);
    } else if b[0] == 10 {
        assert(spec_epoch_tag(spec_epoch_of_tag(b[1])) == b[1]);
        assert(spec_encode_input(m) =~= b);
    } else {
        assert(spec_encode_input(m) =~= b);
    }
}

/// Every accepted frame is the framing of the pre-state bytes and input it
/// decodes to: a frame determines them uniquely, and nothing else decodes.
pub proof fn lemma_frame_decode_complete(b: Seq<u8>)
    requires
        spec_decode_frame(b) is Ok,
    ensures
        spec_encode_frame(spec_decode_frame(b)->Ok_0.0, spec_decode_frame(b)->Ok_0.1) == b,
{
    lemma_auto_spec_u64_to_from_le_bytes();
    let lb = b.subrange(0, 8);
    let n = spec_u64_from_le_bytes(lb) as int;
    let state = b.subrange(8, 8 + n);
    let env = b.skip(8 + n);
    lemma_input_decode_complete(env);
    let m = spec_decode_frame(b)->Ok_0.1;
    assert(spec_decode_input(env) == Ok::<InputModel, DecodeError>(m));
    assert(spec_encode_input(m) == env);
    assert(state.len() == n);
    assert(spec_u64_to_le_bytes(state.len() as u64) == lb);
    assert(spec_encode_frame(state, m) =~= b);
}

/// Decoding a frame recovers exactly the pre-state bytes and the input that
/// were framed.
pub proof fn lemma_frame_round_trip(state: Seq<u8>, m: InputModel)
    requires
        state.len() <= u64::MAX,
        is_payload_bearing(m) ==> payload_of(m).len() <= u64::MAX,
    ensures
        spec_decode_frame(spec_encode_frame(state, m)) == Ok::<_, DecodeError>((state, m)),
{
    lemma_auto_spec_u64_to_from_le_bytes();
    lemma_input_round_trip(m);
    let b = spec_encode_frame(state, m);
    let lb = spec_u64_to_le_bytes(state.len() as u64);
    let env = spec_encode_input(m);
    assert(lb.len() == 8);
    assert(env.len() >= 1);
    assert(b.len() == 8 + state.len() + env.len());
    assert(b.subrange(0, 8) =~= lb);
    assert(spec_u64_from_le_bytes(lb) == state.len() as u64);
    assert(b.skip(8 + state.len() as int) =~= env);
    assert(b.subrange(8, 8 + state.len() as int) =~= state);
}

} // verus!
