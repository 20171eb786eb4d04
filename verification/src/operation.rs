//! Host-side naming of consensus operations: the closed set of operation
//! names selectable on the command line, their fixture-file stems, and their
//! classification into payload, epoch-processing, and slot-processing kinds.

use vstd::prelude::*;

use crate::input::EpochProcessingType;

verus! {

/// Command-line selection of one operation to drive. The surrounding binary
/// parses the argument surface and hands over this plain value.
#[derive(Debug, Clone)]
pub struct OperationArgs {
    pub operation_name: OperationName,
}

/// Every operation the harness can drive: the ten payload-bearing operation
/// kinds, the fourteen epoch-processing phases, and slot advancement.
#[derive(Debug, Clone, Copy, PartialEq, Eq, Structural)]
pub enum OperationName {
    Attestation,
    AttesterSlashing,
    BlockHeader,
    BLSToExecutionChange,
    Deposit,
    ExecutionPayload,
    ProposerSlashing,
    SyncAggregate,
    VoluntaryExit,
    Withdrawals,
    JustificationAndFinalization,
    InactivityUpdates,
    RewardsAndPenalties,
    RegistryUpdates,
    Slashings,
    Eth1DataReset,
    PendingDeposits,
    PendingConsolidations,
    EffectiveBalanceUpdates,
    SlashingsReset,
    RandaoMixesReset,
    HistoricalSummariesUpdate,
    ParticipationFlagUpdates,
    SyncCommitteeUpdates,
    ProcessSlot,
}

/// The snake-case name of an operation as it appears on the command line and
/// in fixture directory paths.
pub open spec fn spec_display_name(op: OperationName) -> Seq<char> {
    match op {
        OperationName::Attestation => "attestation"@,
        OperationName::AttesterSlashing => "attester_slashing"@,
        OperationName::BlockHeader => "block_header"@,
        OperationName::BLSToExecutionChange => "bls_to_execution_change"@,
        OperationName::Deposit => "deposit"@,
        OperationName::ExecutionPayload => "execution_payload"@,
        OperationName::ProposerSlashing => "proposer_slashing"@,
        OperationName::SyncAggregate => "sync_aggregate"@,
        OperationName::VoluntaryExit => "voluntary_exit"@,
        OperationName::Withdrawals => "withdrawals"@,
        OperationName::JustificationAndFinalization => "justification_and_finalization"@,
        OperationName::InactivityUpdates => "inactivity_updates"@,
        OperationName::RewardsAndPenalties => "rewards_and_penalties"@,
        OperationName::RegistryUpdates => "registry_updates"@,
        OperationName::Slashings => "slashings"@,
        OperationName::Eth1DataReset => "eth1_data_reset"@,
        OperationName::PendingDeposits => "pending_deposits"@,
        OperationName::PendingConsolidations => "pending_consolidations"@,
        OperationName::EffectiveBalanceUpdates => "effective_balance_updates"@,
        OperationName::SlashingsReset => "slashings_reset"@,
        OperationName::RandaoMixesReset => "randao_mixes_reset"@,
        OperationName::HistoricalSummariesUpdate => "historical_summaries_update"@,
        OperationName::ParticipationFlagUpdates => "participation_flag_updates"@,
        OperationName::SyncCommitteeUpdates => "sync_committee_updates"@,
        OperationName::ProcessSlot => "process_slot"@,
    }
}

/// The stem of the one extra fixture file a payload-bearing operation reads;
/// empty for epoch-processing and slot-processing operations, which read no
/// payload file.
pub open spec fn spec_input_name(op: OperationName) -> Seq<char> {
    match op {
        OperationName::Attestation => "attestation"@,
        OperationName::AttesterSlashing => "attester_slashing"@,
        OperationName::BlockHeader => "block"@,
        OperationName::BLSToExecutionChange => "address_change"@,
        OperationName::Deposit => "deposit"@,
        OperationName::ExecutionPayload => "body"@,
        OperationName::ProposerSlashing => "proposer_slashing"@,
        OperationName::SyncAggregate => "sync_aggregate"@,
        OperationName::VoluntaryExit => "voluntary_exit"@,
        OperationName::Withdrawals => "execution_payload"@,
        _ => ""@,
    }
}

/// Whether this operation is one of the fourteen epoch-processing phases.
pub open spec fn spec_is_epoch_processing(op: OperationName) -> bool {
    spec_epoch_processing_type(op) is Some
}

/// The epoch-processing phase driven by this operation, if it is one.
pub open spec fn spec_epoch_processing_type(op: OperationName) -> Option<EpochProcessingType> {
    match op {
        OperationName::JustificationAndFinalization => Some(
            EpochProcessingType::JustificationAndFinalization,
        ),
        OperationName::InactivityUpdates => Some(EpochProcessingType::InactivityUpdates),
        OperationName::RewardsAndPenalties => Some(EpochProcessingType::RewardsAndPenalties),
        OperationName::RegistryUpdates => Some(EpochProcessingType::RegistryUpdates),
        OperationName::Slashings => Some(EpochProcessingType::Slashings),
        OperationName::Eth1DataReset => Some(EpochProcessingType::Eth1DataReset),
        OperationName::PendingDeposits => Some(EpochProcessingType::PendingDeposits),
        OperationName::PendingConsolidations => Some(EpochProcessingType::PendingConsolidations),
        OperationName::EffectiveBalanceUpdates => Some(
            EpochProcessingType::EffectiveBalanceUpdates,
        ),
        OperationName::SlashingsReset => Some(EpochProcessingType::SlashingsReset),
        OperationName::RandaoMixesReset => Some(EpochProcessingType::RandaoMixesReset),
        OperationName::HistoricalSummariesUpdate => Some(
            EpochProcessingType::HistoricalSummariesUpdate,
        ),
        OperationName::ParticipationFlagUpdates => Some(
            EpochProcessingType::ParticipationFlagUpdates,
        ),
        OperationName::SyncCommitteeUpdates => Some(EpochProcessingType::SyncCommitteeUpdates),
        _ => None,
    }
}

impl OperationName {
    /// The snake-case display name used on the command line and in paths.
    pub fn display_name(&self) -> (r: String)
        ensures
            r@ == spec_display_name(*self),
    {
        match self {
            OperationName::Attestation => "attestation".to_owned(),
            OperationName::AttesterSlashing => "attester_slashing".to_owned(),
            OperationName::BlockHeader => "block_header".to_owned(),
            OperationName::BLSToExecutionChange => "bls_to_execution_change".to_owned(),
            OperationName::Deposit => "deposit".to_owned(),
            OperationName::ExecutionPayload => "execution_payload".to_owned(),
            OperationName::ProposerSlashing => "proposer_slashing".to_owned(),
            OperationName::SyncAggregate => "sync_aggregate".to_owned(),
            OperationName::VoluntaryExit => "voluntary_exit".to_owned(),
            OperationName::Withdrawals => "withdrawals".to_owned(),
            OperationName::JustificationAndFinalization => {
                "justification_and_finalization".to_owned()
            },
            OperationName::InactivityUpdates => "inactivity_updates".to_owned(),
            OperationName::RewardsAndPenalties => "rewards_and_penalties".to_owned(),
            OperationName::RegistryUpdates => "registry_updates".to_owned(),
            OperationName::Slashings => "slashings".to_owned(),
            OperationName::Eth1DataReset => "eth1_data_reset".to_owned(),
            OperationName::PendingDeposits => "pending_deposits".to_owned(),
            OperationName::PendingConsolidations => "pending_consolidations".to_owned(),
            OperationName::EffectiveBalanceUpdates => "effective_balance_updates".to_owned(),
            OperationName::SlashingsReset => "slashings_reset".to_owned(),
            OperationName::RandaoMixesReset => "randao_mixes_reset".to_owned(),
            OperationName::HistoricalSummariesUpdate => "historical_summaries_update".to_owned(),
            OperationName::ParticipationFlagUpdates => "participation_flag_updates".to_owned(),
            OperationName::SyncCommitteeUpdates => "sync_committee_updates".to_owned(),
            OperationName::ProcessSlot => "process_slot".to_owned(),
        }
    }

    /// The stem of the payload fixture file this operation reads; empty for
    /// operations that read none.
    pub fn to_input_name(&self) -> (r: String)
        ensures
            r@ == spec_input_name(*self),
    {
        match self {
            OperationName::Attestation => "attestation".to_owned(),
            OperationName::AttesterSlashing => "attester_slashing".to_owned(),
            OperationName::BlockHeader => "block".to_owned(),
            OperationName::BLSToExecutionChange => "address_change".to_owned(),
            OperationName::Deposit => "deposit".to_owned(),
            OperationName::ExecutionPayload => "body".to_owned(),
            OperationName::ProposerSlashing => "proposer_slashing".to_owned(),
            OperationName::SyncAggregate => "sync_aggregate".to_owned(),
            OperationName::VoluntaryExit => "voluntary_exit".to_owned(),
            OperationName::Withdrawals => "execution_payload".to_owned(),
            _ => "".to_owned(),
        }
    }

    /// Whether this operation is one of the epoch-processing phases.
    pub fn is_epoch_processing(&self) -> (r: bool)
        ensures
            r == spec_is_epoch_processing(*self),
    {
        matches!(
            self,
            OperationName::JustificationAndFinalization
            | OperationName::InactivityUpdates
            | OperationName::RewardsAndPenalties
            | OperationName::RegistryUpdates
            | OperationName::Slashings
            | OperationName::Eth1DataReset
            | OperationName::PendingDeposits
            | OperationName::PendingConsolidations
            | OperationName::EffectiveBalanceUpdates
            | OperationName::SlashingsReset
            | OperationName::RandaoMixesReset
            | OperationName::HistoricalSummariesUpdate
            | OperationName::ParticipationFlagUpdates
            | OperationName::SyncCommitteeUpdates
        )
    }

    /// Whether this operation is slot advancement.
    pub fn is_process_slot(&self) -> (r: bool)
        ensures
            r == (*self is ProcessSlot),
    {
        matches!(self, OperationName::ProcessSlot)
    }

    /// The epoch-processing phase this operation drives, if it is one.
    pub fn to_epoch_processing_type(&self) -> (r: Option<EpochProcessingType>)
        ensures
            r == spec_epoch_processing_type(*self),
    {
        match self {
            OperationName::JustificationAndFinalization => Some(
                EpochProcessingType::JustificationAndFinalization,
            ),
            OperationName::InactivityUpdates => Some(EpochProcessingType::InactivityUpdates),
            OperationName::RewardsAndPenalties => Some(EpochProcessingType::RewardsAndPenalties),
            OperationName::RegistryUpdates => Some(EpochProcessingType::RegistryUpdates),
            OperationName::Slashings => Some(EpochProcessingType::Slashings),
            OperationName::Eth1DataReset => Some(EpochProcessingType::Eth1DataReset),
            OperationName::PendingDeposits => Some(EpochProcessingType::PendingDeposits),
            OperationName::PendingConsolidations => Some(
                EpochProcessingType::PendingConsolidations,
            ),
            OperationName::EffectiveBalanceUpdates => Some(
                EpochProcessingType::EffectiveBalanceUpdates,
            ),
            OperationName::SlashingsReset => Some(EpochProcessingType::SlashingsReset),
            OperationName::RandaoMixesReset => Some(EpochProcessingType::RandaoMixesReset),
            OperationName::HistoricalSummariesUpdate => Some(
                EpochProcessingType::HistoricalSummariesUpdate,
            ),
            OperationName::ParticipationFlagUpdates => Some(
                EpochProcessingType::ParticipationFlagUpdates,
            ),
            OperationName::SyncCommitteeUpdates => Some(EpochProcessingType::SyncCommitteeUpdates),
            _ => None,
        }
    }
}

} // verus!
