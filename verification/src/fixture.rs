//! Host-side fixture resolution: the directory-layout convention that maps a
//! fork and an operation to its test-case directory, the per-operation payload
//! file name, case exclusion, and assembly of the operation input from the
//! bytes the fixture files hold.

use vstd::prelude::*;
use vstd::string::StringExecFns;

use crate::input::{EpochProcessingType, InputModel, OperationInput};
use crate::operation::{
    spec_display_name, spec_epoch_processing_type, spec_input_name, spec_is_epoch_processing,
    OperationName,
};

verus! {

/// The views of a sequence of strings.
pub open spec fn views_of(v: Seq<String>) -> Seq<Seq<char>> {
    v.map_values(|s: String| s@)
}

/// One resolved test case: where its fixture files live and whether an
/// expected post-state fixture is present, which decides the oracle's
/// expectation for the case.
#[derive(Debug, Clone)]
pub struct TestCase {
    pub fork: String,
    pub operation: OperationName,
    pub case_name: String,
    pub dir: Vec<String>,
    pub has_post_state: bool,
}

/// The path, as a sequence of components, of the directory that holds the
/// test cases for one fork and operation: epoch-processing phases live under
/// `epoch_processing/<op>`, slot advancement under `sanity/slots`, and every
/// other operation under `operations/<op>`, each ending in `pyspec_tests`.
pub open spec fn spec_base_dir_segments(fork: Seq<char>, op: OperationName) -> Seq<Seq<char>> {
    if spec_is_epoch_processing(op) {
        seq![fork, "epoch_processing"@, spec_display_name(op), "pyspec_tests"@]
    } else if op is ProcessSlot {
        seq![fork, "sanity"@, "slots"@, "pyspec_tests"@]
    } else {
        seq![fork, "operations"@, spec_display_name(op), "pyspec_tests"@]
    }
}

/// Resolve the fixture base directory for one fork and operation, as path
/// components relative to the fixture root.
pub fn base_dir_segments(fork: &str, op: &OperationName) -> (r: Vec<String>)
    ensures
        views_of(r@) == spec_base_dir_segments(fork@, *op),
{
    let mut r: Vec<String> = Vec::new();
    r.push(fork.to_owned());
    if op.is_epoch_processing() {
        r.push("epoch_processing".to_owned());
        r.push(op.display_name());
    } else if op.is_process_slot() {
        r.push("sanity".to_owned());
        r.push("slots".to_owned());
    } else {
        r.push("operations".to_owned());
        r.push(op.display_name());
    }
    r.push("pyspec_tests".to_owned());
    proof {
        assert(views_of(r@) =~= spec_base_dir_segments(fork@, *op));
    }
    r
}

/// Whether this operation nests one extra serialized payload, read from its
/// own fixture file; epoch-processing and slot-processing operations need
/// none.
pub open spec fn spec_requires_payload(op: OperationName) -> bool {
    !spec_is_epoch_processing(op) && !(op is ProcessSlot)
}

/// The name of the compressed payload fixture file this operation reads, or
/// `None` for the operations that read none.
pub fn payload_file_name(op: &OperationName) -> (r: Option<String>)
    ensures
        r is Some <==> spec_requires_payload(*op),
        r matches Some(name) ==> name@ == spec_input_name(*op) + ".ssz_snappy"@,
{
    if op.is_epoch_processing() || op.is_process_slot() {
        None
    } else {
        Some(op.to_input_name().concat(".ssz_snappy"))
    }
}

/// Whether a case name stands in the exclusion list.
pub fn case_is_excluded(excluded: &Vec<String>, case_name: &String) -> (r: bool)
    ensures
        r == exists|i: int| 0 <= i < excluded@.len() && excluded@[i]@ == case_name@,
{
    let mut k: usize = 0;
    while k < excluded.len()
        invariant
            0 <= k <= excluded@.len(),
            forall|i: int| 0 <= i < k ==> excluded@[i]@ != case_name@,
        decreases excluded@.len() - k,
    {
        let entry: &String = &excluded[k];
        if entry.eq(case_name) {
            proof {
                assert(excluded@[k as int]@ == case_name@);
            }
            return true;
        }
        k += 1;
    }
    false
}

/// What went wrong while assembling an operation input from fixture bytes.
#[derive(Debug, Clone, Copy, PartialEq, Eq, Structural)]
pub enum InputError {
    /// A payload-bearing operation was given no payload bytes.
    MissingPayload,
    /// An operation that reads no payload file was given payload bytes.
    UnexpectedPayload,
}

/// The input variant a payload-bearing operation wraps its payload in.
pub open spec fn spec_payload_variant(op: OperationName, p: Seq<u8>) -> InputModel
    recommends
        spec_requires_payload(op),
{
    match op {
        OperationName::Attestation => InputModel::Attestation(p),
        OperationName::AttesterSlashing => InputModel::AttesterSlashing(p),
        OperationName::BlockHeader => InputModel::BeaconBlock(p),
        OperationName::BLSToExecutionChange => InputModel::SignedBLSToExecutionChange(p),
        OperationName::Deposit => InputModel::Deposit(p),
        OperationName::ExecutionPayload => InputModel::BeaconBlockBody(p),
        OperationName::ProposerSlashing => InputModel::ProposerSlashing(p),
        OperationName::SyncAggregate => InputModel::SyncAggregate(p),
        OperationName::VoluntaryExit => InputModel::SignedVoluntaryExit(p),
        OperationName::Withdrawals => InputModel::ExecutionPayload(p),
        _ => InputModel::ProcessSlot,
    }
}

/// The input assembled for one operation from optional payload bytes: the
/// payload wrapped in the operation's variant, the epoch-processing phase, or
/// slot advancement; an error when payload presence does not match the kind.
pub open spec fn spec_assemble_input(op: OperationName, payload: Option<Seq<u8>>) -> Result<
    InputModel,
    InputError,
> {
    if spec_requires_payload(op) {
        match payload {
            Some(p) => Ok(spec_payload_variant(op, p)),
            None => Err(InputError::MissingPayload),
        }
    } else if payload is Some {
        Err(InputError::UnexpectedPayload)
    } else if spec_is_epoch_processing(op) {
        Ok(InputModel::EpochProcessing(spec_epoch_processing_type(op)->0))
    } else {
        Ok(InputModel::ProcessSlot)
    }
}

/// Assembly succeeds exactly when payload presence agrees with the
/// operation's kind: payload-bearing operations take their payload, the
/// others take none.
pub proof fn lemma_assembly_totality(op: OperationName, payload: Option<Seq<u8>>)
    ensures
        spec_assemble_input(op, payload) is Ok <==> (spec_requires_payload(op) <==> payload
            is Some),
{
}

/// The view of optional payload bytes.
pub open spec fn spec_opt_bytes(p: Option<Vec<u8>>) -> Option<Seq<u8>> {
    match p {
        Some(b) => Some(b@),
        None => None,
    }
}

/// Build the operation input for one test case from the payload bytes read
/// for it, if any. Succeeds exactly when the operation's kind and the
/// presence of payload bytes agree.
pub fn assemble_input(op: &OperationName, payload: Option<Vec<u8>>) -> (r: Result<
    OperationInput,
    InputError,
>)
    ensures
        r matches Ok(i) ==> spec_assemble_input(*op, spec_opt_bytes(payload)) == Ok::<
            InputModel,
            InputError,
        >(i@),
        r matches Err(e) ==> spec_assemble_input(*op, spec_opt_bytes(payload)) == Err::<
            InputModel,
            InputError,
        >(e),
{
    if op.is_epoch_processing() {
        if payload.is_some() {
            return Err(InputError::UnexpectedPayload);
        }
        let t: EpochProcessingType = op.to_epoch_processing_type().unwrap();
        Ok(OperationInput::EpochProcessing(t))
    } else if op.is_process_slot() {
        if payload.is_some() {
            return Err(InputError::UnexpectedPayload);
        }
        Ok(OperationInput::ProcessSlot)
    } else {
        match payload {
            None => Err(InputError::MissingPayload),
            Some(p) => {
                match op {
                    OperationName::Attestation => Ok(OperationInput::Attestation(p)),
                    OperationName::AttesterSlashing => Ok(OperationInput::AttesterSlashing(p)),
                    OperationName::BlockHeader => Ok(OperationInput::BeaconBlock(p)),
                    OperationName::BLSToExecutionChange => Ok(
                        OperationInput::SignedBLSToExecutionChange(p),
                    ),
                    OperationName::Deposit => Ok(OperationInput::Deposit(p)),
                    OperationName::ExecutionPayload => Ok(OperationInput::BeaconBlockBody(p)),
                    OperationName::ProposerSlashing => Ok(OperationInput::ProposerSlashing(p)),
                    OperationName::SyncAggregate => Ok(OperationInput::SyncAggregate(p)),
                    OperationName::VoluntaryExit => Ok(OperationInput::SignedVoluntaryExit(p)),
                    OperationName::Withdrawals => Ok(OperationInput::ExecutionPayload(p)),
                    _ => Err(InputError::MissingPayload),
                }
            },
        }
    }
}

} // verus!
