//! The guest dispatcher's decision logic: route one decoded operation input
//! to the single named external mutation entrypoint for its kind, or abort.
//! Exactly one input is routed per invocation; every error an entrypoint
//! itself reports is discarded by the caller, which always proceeds to
//! canonicalize and commit the resulting state.

use vstd::prelude::*;

use crate::envelope::{spec_decode_frame, spec_encode_frame, DecodeError};
use crate::envelope;
use crate::input::{is_payload_bearing, payload_of, EpochProcessingType, InputModel, OperationInput};

verus! {

/// An abort of the whole invocation: no mutation entrypoint is reached, no
/// root is committed.
#[derive(Debug, Clone, Copy, PartialEq, Eq, Structural)]
pub enum FatalError {
    /// The framed guest input was rejected.
    MalformedFrame,
    /// The operation-input envelope was rejected.
    MalformedEnvelope,
    /// The canonical-serialized pre-state did not decode; raised by the
    /// external codec, past the decisions made here.
    UndecodableState,
    /// The nested canonical-serialized payload did not decode; raised by the
    /// external codec, past the decisions made here.
    UndecodablePayload,
    /// The input selected the one deliberately unimplemented operation kind,
    /// full block-body processing.
    UnimplementedOperation,
}

/// The one call the dispatcher commits to for an input: which external
/// mutation entrypoint to invoke on the consensus state, with the serialized
/// payload it must first decode, if its kind carries one.
#[derive(Debug, Clone, PartialEq, Eq)]
pub enum Action {
    /// Decode an attestation and invoke the attestation entrypoint.
    ProcessAttestation(Vec<u8>),
    /// Decode an attester slashing and invoke its entrypoint.
    ProcessAttesterSlashing(Vec<u8>),
    /// Decode a beacon block and invoke the block-header entrypoint.
    ProcessBlockHeader(Vec<u8>),
    /// Decode a signed BLS-to-execution change and invoke its entrypoint.
    ProcessBlsToExecutionChange(Vec<u8>),
    /// Decode a deposit and invoke the deposit entrypoint.
    ProcessDeposit(Vec<u8>),
    /// Decode a proposer slashing and invoke its entrypoint.
    ProcessProposerSlashing(Vec<u8>),
    /// Decode a sync aggregate and invoke its entrypoint.
    ProcessSyncAggregate(Vec<u8>),
    /// Decode a signed voluntary exit and invoke its entrypoint.
    ProcessVoluntaryExit(Vec<u8>),
    /// Decode an execution payload and invoke the withdrawals entrypoint.
    ProcessWithdrawals(Vec<u8>),
    /// Invoke the entrypoint of one epoch-processing phase; no payload.
    ProcessEpochPhase(EpochProcessingType),
    /// Invoke the slot-advance entrypoint; no payload.
    ProcessSlot,
}

/// Mathematical model of an `Action`, with the payload abstracted to its
/// byte sequence.
pub enum ActionModel {
    ProcessAttestation(Seq<u8>),
    ProcessAttesterSlashing(Seq<u8>),
    ProcessBlockHeader(Seq<u8>),
    ProcessBlsToExecutionChange(Seq<u8>),
    ProcessDeposit(Seq<u8>),
    ProcessProposerSlashing(Seq<u8>),
    ProcessSyncAggregate(Seq<u8>),
    ProcessVoluntaryExit(Seq<u8>),
    ProcessWithdrawals(Seq<u8>),
    ProcessEpochPhase(EpochProcessingType),
    ProcessSlot,
}

impl View for Action {
    type V = ActionModel;

    open spec fn view(&self) -> ActionModel {
        match self {
            Action::ProcessAttestation(b) => ActionModel::ProcessAttestation(b@),
            Action::ProcessAttesterSlashing(b) => ActionModel::ProcessAttesterSlashing(b@),
            Action::ProcessBlockHeader(b) => ActionModel::ProcessBlockHeader(b@),
            Action::ProcessBlsToExecutionChange(b) => ActionModel::ProcessBlsToExecutionChange(b@),
            Action::ProcessDeposit(b) => ActionModel::ProcessDeposit(b@),
            Action::ProcessProposerSlashing(b) => ActionModel::ProcessProposerSlashing(b@),
            Action::ProcessSyncAggregate(b) => ActionModel::ProcessSyncAggregate(b@),
            Action::ProcessVoluntaryExit(b) => ActionModel::ProcessVoluntaryExit(b@),
            Action::ProcessWithdrawals(b) => ActionModel::ProcessWithdrawals(b@),
            Action::ProcessEpochPhase(t) => ActionModel::ProcessEpochPhase(*t),
            Action::ProcessSlot => ActionModel::ProcessSlot,
        }
    }
}

/// The entrypoint an input routes to, or nothing for the one kind whose
/// processing is deliberately unimplemented and must abort.
pub open spec fn spec_route(m: InputModel) -> Option<ActionModel> {
    match m {
        InputModel::Attestation(b) => Some(ActionModel::ProcessAttestation(b)),
        InputModel::AttesterSlashing(b) => Some(ActionModel::ProcessAttesterSlashing(b)),
        InputModel::BeaconBlock(b) => Some(ActionModel::ProcessBlockHeader(b)),
        InputModel::SignedBLSToExecutionChange(b) => Some(
            ActionModel::ProcessBlsToExecutionChange(b),
        ),
        InputModel::Deposit(b) => Some(ActionModel::ProcessDeposit(b)),
        InputModel::BeaconBlockBody(_) => None,
        InputModel::ProposerSlashing(b) => Some(ActionModel::ProcessProposerSlashing(b)),
        InputModel::SyncAggregate(b) => Some(ActionModel::ProcessSyncAggregate(b)),
        InputModel::SignedVoluntaryExit(b) => Some(ActionModel::ProcessVoluntaryExit(b)),
        InputModel::ExecutionPayload(b) => Some(ActionModel::ProcessWithdrawals(b)),
        InputModel::EpochProcessing(t) => Some(ActionModel::ProcessEpochPhase(t)),
        InputModel::ProcessSlot => Some(ActionModel::ProcessSlot),
    }
}

/// Route one operation input to its entrypoint. Defined for every kind but
/// full block-body processing, which aborts the invocation, deterministically,
/// every time it is selected.
pub fn route(input: OperationInput) -> (r: Result<Action, FatalError>)
    ensures
        r is Err <==> input@ is BeaconBlockBody,
        r matches Err(e) ==> e == FatalError::UnimplementedOperation,
        r matches Ok(a) ==> spec_route(input@) == Some(a@),
{
    match input {
        OperationInput::Attestation(b) => Ok(Action::ProcessAttestation(b)),
        OperationInput::AttesterSlashing(b) => Ok(Action::ProcessAttesterSlashing(b)),
        OperationInput::BeaconBlock(b) => Ok(Action::ProcessBlockHeader(b)),
        OperationInput::SignedBLSToExecutionChange(b) => Ok(
            Action::ProcessBlsToExecutionChange(b),
        ),
        OperationInput::Deposit(b) => Ok(Action::ProcessDeposit(b)),
        OperationInput::BeaconBlockBody(_) => Err(FatalError::UnimplementedOperation),
        OperationInput::ProposerSlashing(b) => Ok(Action::ProcessProposerSlashing(b)),
        OperationInput::SyncAggregate(b) => Ok(Action::ProcessSyncAggregate(b)),
        OperationInput::SignedVoluntaryExit(b) => Ok(Action::ProcessVoluntaryExit(b)),
        OperationInput::ExecutionPayload(b) => Ok(Action::ProcessWithdrawals(b)),
        OperationInput::EpochProcessing(t) => Ok(Action::ProcessEpochPhase(t)),
        OperationInput::ProcessSlot => Ok(Action::ProcessSlot),
    }
}

/// The fatal error a rejected wire input turns into.
pub open spec fn spec_fatal_of_decode(e: DecodeError) -> FatalError {
    match e {
        DecodeError::MalformedFrame => FatalError::MalformedFrame,
        DecodeError::MalformedEnvelope => FatalError::MalformedEnvelope,
    }
}

/// Everything the guest decides for one framed input: the pre-state bytes to
/// decode and the one entrypoint call to make, or the fatal abort.
pub open spec fn spec_guest_decide(b: Seq<u8>) -> Result<(Seq<u8>, ActionModel), FatalError> {
    match spec_decode_frame(b) {
        Err(e) => Err(spec_fatal_of_decode(e)),
        Ok((state, m)) => match spec_route(m) {
            Some(a) => Ok((state, a)),
            None => Err(FatalError::UnimplementedOperation),
        },
    }
}

/// Decode one framed guest input and route it: the whole decision path of an
/// invocation, from raw frame bytes to the single entrypoint call, with every
/// failure an immediate fatal abort.
pub fn guest_decide(frame: &[u8]) -> (r: Result<(Vec<u8>, Action), FatalError>)
    ensures
        r matches Ok(p) ==> spec_guest_decide(frame@) == Ok::<_, FatalError>((p.0@, p.1@)),
        r matches Err(e) ==> spec_guest_decide(frame@) == Err::<(Seq<u8>, ActionModel), _>(e),
{
    match envelope::decode_frame(frame) {
        Err(e) => match e {
            DecodeError::MalformedFrame => Err(FatalError::MalformedFrame),
            DecodeError::MalformedEnvelope => Err(FatalError::MalformedEnvelope),
        },
        Ok((state, input)) => match route(input) {
            Ok(a) => Ok((state, a)),
            Err(e) => Err(e),
        },
    }
}

/// The name of the external phase-processing entrypoint each
/// epoch-processing phase routes to.
pub open spec fn spec_epoch_entrypoint_name(t: EpochProcessingType) -> Seq<char> {
    match t {
        EpochProcessingType::JustificationAndFinalization => {
            "process_justification_and_finalization"@
        },
        EpochProcessingType::InactivityUpdates => "process_inactivity_updates"@,
        EpochProcessingType::RewardsAndPenalties => "process_rewards_and_penalties"@,
        EpochProcessingType::RegistryUpdates => "process_registry_updates"@,
        EpochProcessingType::Slashings => "process_slashings"@,
        EpochProcessingType::Eth1DataReset => "process_eth1_data_reset"@,
        EpochProcessingType::PendingDeposits => "process_pending_deposits"@,
        EpochProcessingType::PendingConsolidations => "process_pending_consolidations"@,
        EpochProcessingType::EffectiveBalanceUpdates => "process_effective_balance_updates"@,
        EpochProcessingType::SlashingsReset => "process_slashings_reset"@,
        EpochProcessingType::RandaoMixesReset => "process_randao_mixes_reset"@,
        EpochProcessingType::HistoricalSummariesUpdate => "process_historical_summaries_update"@,
        EpochProcessingType::ParticipationFlagUpdates => "process_participation_flag_updates"@,
        EpochProcessingType::SyncCommitteeUpdates => "process_sync_committee_updates"@,
    }
}

/// The name of the external mutation entrypoint an action invokes.
pub open spec fn spec_entrypoint_name(a: ActionModel) -> Seq<char> {
    match a {
        ActionModel::ProcessAttestation(_) => "process_attestation"@,
        ActionModel::ProcessAttesterSlashing(_) => "process_attester_slashing"@,
        ActionModel::ProcessBlockHeader(_) => "process_block_header"@,
        ActionModel::ProcessBlsToExecutionChange(_) => "process_bls_to_execution_change"@,
        ActionModel::ProcessDeposit(_) => "process_deposit"@,
        ActionModel::ProcessProposerSlashing(_) => "process_proposer_slashing"@,
        ActionModel::ProcessSyncAggregate(_) => "process_sync_aggregate"@,
        ActionModel::ProcessVoluntaryExit(_) => "process_voluntary_exit"@,
        ActionModel::ProcessWithdrawals(_) => "process_withdrawals"@,
        ActionModel::ProcessEpochPhase(t) => spec_epoch_entrypoint_name(t),
        ActionModel::ProcessSlot => "process_slot"@,
    }
}

impl Action {
    /// The name of the external mutation entrypoint this action invokes on
    /// the consensus state.
    pub fn entrypoint_name(&self) -> (r: String)
        ensures
            r@ == spec_entrypoint_name(self@),
    {
        match self {
            Action::ProcessAttestation(_) => "process_attestation".to_owned(),
            Action::ProcessAttesterSlashing(_) => "process_attester_slashing".to_owned(),
            Action::ProcessBlockHeader(_) => "process_block_header".to_owned(),
            Action::ProcessBlsToExecutionChange(_) => "process_bls_to_execution_change".to_owned(),
            Action::ProcessDeposit(_) => "process_deposit".to_owned(),
            Action::ProcessProposerSlashing(_) => "process_proposer_slashing".to_owned(),
            Action::ProcessSyncAggregate(_) => "process_sync_aggregate".to_owned(),
            Action::ProcessVoluntaryExit(_) => "process_voluntary_exit".to_owned(),
            Action::ProcessWithdrawals(_) => "process_withdrawals".to_owned(),
            Action::ProcessEpochPhase(t) => {
                match t {
                    EpochProcessingType::JustificationAndFinalization => {
                        "process_justification_and_finalization".to_owned()
                    },
                    EpochProcessingType::InactivityUpdates => {
                        "process_inactivity_updates".to_owned()
                    },
                    EpochProcessingType::RewardsAndPenalties => {
                        "process_rewards_and_penalties".to_owned()
                    },
                    EpochProcessingType::RegistryUpdates => "process_registry_updates".to_owned(),
                    EpochProcessingType::Slashings => "process_slashings".to_owned(),
                    EpochProcessingType::Eth1DataReset => "process_eth1_data_reset".to_owned(),
                    EpochProcessingType::PendingDeposits => "process_pending_deposits".to_owned(),
                    EpochProcessingType::PendingConsolidations => {
                        "process_pending_consolidations".to_owned()
                    },
                    EpochProcessingType::EffectiveBalanceUpdates => {
                        "process_effective_balance_updates".to_owned()
                    },
                    EpochProcessingType::SlashingsReset => "process_slashings_reset".to_owned(),
                    EpochProcessingType::RandaoMixesReset => {
                        "process_randao_mixes_reset".to_owned()
                    },
                    EpochProcessingType::HistoricalSummariesUpdate => {
                        "process_historical_summaries_update".to_owned()
                    },
                    EpochProcessingType::ParticipationFlagUpdates => {
                        "process_participation_flag_updates".to_owned()
                    },
                    EpochProcessingType::SyncCommitteeUpdates => {
                        "process_sync_committee_updates".to_owned()
                    },
                }
            },
            Action::ProcessSlot => "process_slot".to_owned(),
        }
    }
}

/// Dispatch is total on every operation kind but one: an input routes to an
/// entrypoint exactly when it is not full block-body processing.
pub proof fn lemma_dispatch_totality(m: InputModel)
    ensures
        spec_route(m) is Some <==> !(m is BeaconBlockBody),
{
}

/// The guest, handed the framed pre-state and input, commits to exactly the
/// entrypoint call that the host derives from the same input directly: the
/// in-environment and out-of-environment decisions agree on every input.
pub proof fn lemma_cross_environment_agreement(state: Seq<u8>, m: InputModel)
    requires
        state.len() <= u64::MAX,
        is_payload_bearing(m) ==> payload_of(m).len() <= u64::MAX,
    ensures
        spec_guest_decide(spec_encode_frame(state, m)) == (match spec_route(m) {
            Some(a) => Ok::<(Seq<u8>, ActionModel), FatalError>((state, a)),
            None => Err::<(Seq<u8>, ActionModel), FatalError>(FatalError::UnimplementedOperation),
        }),
{
    envelope::lemma_frame_round_trip(state, m);
}

} // verus!
