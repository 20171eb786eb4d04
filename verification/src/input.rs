//! The operation input protocol: the closed tagged union of consensus
//! operation kinds shared between the host harness and the guest dispatcher.

use vstd::prelude::*;

verus! {

/// One phase of per-epoch batch processing. A closed second-level sum type,
/// nested under `OperationInput::EpochProcessing` to mirror the two-tier
/// fixture directory convention (operation category, then phase).
#[derive(Debug, Clone, Copy, PartialEq, Eq, Structural)]
pub enum EpochProcessingType {
    JustificationAndFinalization,
    InactivityUpdates,
    RewardsAndPenalties,
    RegistryUpdates,
    Slashings,
    Eth1DataReset,
    PendingDeposits,
    PendingConsolidations,
    EffectiveBalanceUpdates,
    SlashingsReset,
    RandaoMixesReset,
    HistoricalSummariesUpdate,
    ParticipationFlagUpdates,
    SyncCommitteeUpdates,
}

/// One consensus operation handed to the guest dispatcher: a closed tagged
/// union with one variant per operation kind. Payload-bearing variants carry
/// the protocol-canonical serialization of their object, decoded only inside
/// the dispatcher once that variant is selected. `EpochProcessing` and
/// `ProcessSlot` carry no payload.
#[derive(Debug, Clone, PartialEq, Eq)]
pub enum OperationInput {
    Attestation(Vec<u8>),
    AttesterSlashing(Vec<u8>),
    BeaconBlock(Vec<u8>),
    SignedBLSToExecutionChange(Vec<u8>),
    Deposit(Vec<u8>),
    BeaconBlockBody(Vec<u8>),
    ProposerSlashing(Vec<u8>),
    SyncAggregate(Vec<u8>),
    SignedVoluntaryExit(Vec<u8>),
    ExecutionPayload(Vec<u8>),
    EpochProcessing(EpochProcessingType),
    ProcessSlot,
}

/// Mathematical model of an `OperationInput`: the same tagged union with each
/// payload abstracted to its byte sequence.
pub enum InputModel {
    Attestation(Seq<u8>),
    AttesterSlashing(Seq<u8>),
    BeaconBlock(Seq<u8>),
    SignedBLSToExecutionChange(Seq<u8>),
    Deposit(Seq<u8>),
    BeaconBlockBody(Seq<u8>),
    ProposerSlashing(Seq<u8>),
    SyncAggregate(Seq<u8>),
    SignedVoluntaryExit(Seq<u8>),
    ExecutionPayload(Seq<u8>),
    EpochProcessing(EpochProcessingType),
    ProcessSlot,
}

impl View for OperationInput {
    type V = InputModel;

    open spec fn view(&self) -> InputModel {
        match self {
            OperationInput::Attestation(b) => InputModel::Attestation(b@),
            OperationInput::AttesterSlashing(b) => InputModel::AttesterSlashing(b@),
            OperationInput::BeaconBlock(b) => InputModel::BeaconBlock(b@),
            OperationInput::SignedBLSToExecutionChange(b) => InputModel::SignedBLSToExecutionChange(
                b@,
            ),
            OperationInput::Deposit(b) => InputModel::Deposit(b@),
            OperationInput::BeaconBlockBody(b) => InputModel::BeaconBlockBody(b@),
            OperationInput::ProposerSlashing(b) => InputModel::ProposerSlashing(b@),
            OperationInput::SyncAggregate(b) => InputModel::SyncAggregate(b@),
            OperationInput::SignedVoluntaryExit(b) => InputModel::SignedVoluntaryExit(b@),
            OperationInput::ExecutionPayload(b) => InputModel::ExecutionPayload(b@),
            OperationInput::EpochProcessing(t) => InputModel::EpochProcessing(*t),
            OperationInput::ProcessSlot => InputModel::ProcessSlot,
        }
    }
}

/// Whether this operation kind nests a serialized payload inside the envelope.
pub open spec fn is_payload_bearing(m: InputModel) -> bool {
    !(m is EpochProcessing) && !(m is ProcessSlot)
}

/// The nested payload bytes of a payload-bearing input.
pub open spec fn payload_of(m: InputModel) -> Seq<u8>
    recommends
        is_payload_bearing(m),
{
    match m {
        InputModel::Attestation(b) => b,
        InputModel::AttesterSlashing(b) => b,
        InputModel::BeaconBlock(b) => b,
        InputModel::SignedBLSToExecutionChange(b) => b,
        InputModel::Deposit(b) => b,
        InputModel::BeaconBlockBody(b) => b,
        InputModel::ProposerSlashing(b) => b,
        InputModel::SyncAggregate(b) => b,
        InputModel::SignedVoluntaryExit(b) => b,
        InputModel::ExecutionPayload(b) => b,
        InputModel::EpochProcessing(_) => Seq::empty(),
        InputModel::ProcessSlot => Seq::empty(),
    }
}

} // verus!
