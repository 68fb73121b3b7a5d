//! The host's selection surface: which fork's conformance suite to run,
//! which operation to exercise, and where that suite's test cases live.
//!
//! Argument parsing itself is thin I/O and stays outside the library; these
//! types carry the parsed choices, and the handlers turn a choice into the
//! operation to send and the directory its fixtures come from.

use crate::input::{
    BlockOperationType, BlockOperationWrapper, EpochOperationType, EpochOperationWrapper,
    OperationInput, OperationView,
};
use vstd::prelude::*;
use vstd::string::StringExecFns;

verus! {

/// The fork whose conformance suite is exercised.
#[derive(Clone, Copy, PartialEq, Eq, Structural, Debug)]
pub enum Fork {
    Electra,
    Fulu,
}

impl Default for Fork {
    /// The fork exercised when none is chosen.
    fn default() -> (r: Fork)
        ensures
            r == Fork::Electra,
    {
        Fork::Electra
    }
}

impl Fork {
    /// The fork's directory name inside the conformance suite.
    pub open spec fn spec_name(&self) -> Seq<char> {
        match self {
            Fork::Electra => "electra"@,
            Fork::Fulu => "fulu"@,
        }
    }

    pub fn name(&self) -> (r: String)
        ensures
            r@ == self.spec_name(),
    {
        match self {
            Fork::Electra => String::from_str("electra"),
            Fork::Fulu => String::from_str("fulu"),
        }
    }
}

/// The fork selection as handed over by the command line.
#[derive(Clone, Copy, PartialEq, Eq, Structural, Debug)]
pub struct ForkArgs {
    pub fork: Fork,
}

/// A block-family choice on the command line.
#[derive(Clone, Copy, PartialEq, Eq, Structural, Debug)]
pub enum BlockOperation {
    Attestation,
    AttesterSlashing,
    BlockHeader,
    BLSToExecutionChange,
    Deposit,
    ExecutionPayload,
    ProposerSlashing,
    SyncAggregate,
    VoluntaryExit,
    Withdrawals,
}

/// An epoch-family choice on the command line.
#[derive(Clone, Copy, PartialEq, Eq, Structural, Debug)]
pub enum EpochOperation {
    JustificationAndFinalization,
    InactivityUpdates,
    RewardsAndPenalties,
    RegistryUpdates,
    Slashings,
    Eth1DataReset,
    PendingDeposits,
    PendingConsolidations,
    EffectiveBalanceUpdates,
    SlashingsReset,
    RandaoMixesReset,
    HistoricalSummariesUpdate,
    ParticipationFlagUpdates,
}

/// The chosen operation, by family.
#[derive(Clone, Copy, PartialEq, Eq, Structural, Debug)]
pub enum Operation {
    Block { operation: BlockOperation },
    Epoch { operation: EpochOperation },
}

/// The operation selection as handed over by the command line.
#[derive(Clone, Copy, PartialEq, Eq, Structural, Debug)]
pub struct OperationArgs {
    pub operation: Operation,
}

/// The operation-model kind a command-line choice names.
pub open spec fn spec_block_kind(op: BlockOperation) -> BlockOperationType {
    match op {
        BlockOperation::Attestation => BlockOperationType::Attestation,
        BlockOperation::AttesterSlashing => BlockOperationType::AttesterSlashing,
        BlockOperation::BlockHeader => BlockOperationType::BlockHeader,
        BlockOperation::BLSToExecutionChange => BlockOperationType::BLSToExecutionChange,
        BlockOperation::Deposit => BlockOperationType::Deposit,
        BlockOperation::ExecutionPayload => BlockOperationType::ExecutionPayload,
        BlockOperation::ProposerSlashing => BlockOperationType::ProposerSlashing,
        BlockOperation::SyncAggregate => BlockOperationType::SyncAggregate,
        BlockOperation::VoluntaryExit => BlockOperationType::VoluntaryExit,
        BlockOperation::Withdrawals => BlockOperationType::Withdrawals,
    }
}

/// The operation-model kind an epoch choice names.
pub open spec fn spec_epoch_kind(op: EpochOperation) -> EpochOperationType {
    match op {
        EpochOperation::JustificationAndFinalization => EpochOperationType::JustificationAndFinalization,
        EpochOperation::InactivityUpdates => EpochOperationType::InactivityUpdates,
        EpochOperation::RewardsAndPenalties => EpochOperationType::RewardsAndPenalties,
        EpochOperation::RegistryUpdates => EpochOperationType::RegistryUpdates,
        EpochOperation::Slashings => EpochOperationType::Slashings,
        EpochOperation::Eth1DataReset => EpochOperationType::Eth1DataReset,
        EpochOperation::PendingDeposits => EpochOperationType::PendingDeposits,
        EpochOperation::PendingConsolidations => EpochOperationType::PendingConsolidations,
        EpochOperation::EffectiveBalanceUpdates => EpochOperationType::EffectiveBalanceUpdates,
        EpochOperation::SlashingsReset => EpochOperationType::SlashingsReset,
        EpochOperation::RandaoMixesReset => EpochOperationType::RandaoMixesReset,
        EpochOperation::HistoricalSummariesUpdate => EpochOperationType::HistoricalSummariesUpdate,
        EpochOperation::ParticipationFlagUpdates => EpochOperationType::ParticipationFlagUpdates,
    }
}

impl From<BlockOperation> for BlockOperationType {
    fn from(operation: BlockOperation) -> (r: BlockOperationType) {
        match operation {
            BlockOperation::Attestation => BlockOperationType::Attestation,
            BlockOperation::AttesterSlashing => BlockOperationType::AttesterSlashing,
            BlockOperation::BlockHeader => BlockOperationType::BlockHeader,
            BlockOperation::BLSToExecutionChange => BlockOperationType::BLSToExecutionChange,
            BlockOperation::Deposit => BlockOperationType::Deposit,
            BlockOperation::ExecutionPayload => BlockOperationType::ExecutionPayload,
            BlockOperation::ProposerSlashing => BlockOperationType::ProposerSlashing,
            BlockOperation::SyncAggregate => BlockOperationType::SyncAggregate,
            BlockOperation::VoluntaryExit => BlockOperationType::VoluntaryExit,
            BlockOperation::Withdrawals => BlockOperationType::Withdrawals,
        }
    }
}

impl vstd::std_specs::convert::FromSpecImpl<BlockOperation> for BlockOperationType {
    open spec fn obeys_from_spec() -> bool {
        true
    }

    open spec fn from_spec(operation: BlockOperation) -> BlockOperationType {
        spec_block_kind(operation)
    }
}

impl From<EpochOperation> for EpochOperationType {
    fn from(operation: EpochOperation) -> (r: EpochOperationType) {
        match operation {
            EpochOperation::JustificationAndFinalization => EpochOperationType::JustificationAndFinalization,
            EpochOperation::InactivityUpdates => EpochOperationType::InactivityUpdates,
            EpochOperation::RewardsAndPenalties => EpochOperationType::RewardsAndPenalties,
            EpochOperation::RegistryUpdates => EpochOperationType::RegistryUpdates,
            EpochOperation::Slashings => EpochOperationType::Slashings,
            EpochOperation::Eth1DataReset => EpochOperationType::Eth1DataReset,
            EpochOperation::PendingDeposits => EpochOperationType::PendingDeposits,
            EpochOperation::PendingConsolidations => EpochOperationType::PendingConsolidations,
            EpochOperation::EffectiveBalanceUpdates => EpochOperationType::EffectiveBalanceUpdates,
            EpochOperation::SlashingsReset => EpochOperationType::SlashingsReset,
            EpochOperation::RandaoMixesReset => EpochOperationType::RandaoMixesReset,
            EpochOperation::HistoricalSummariesUpdate => EpochOperationType::HistoricalSummariesUpdate,
            EpochOperation::ParticipationFlagUpdates => EpochOperationType::ParticipationFlagUpdates,
        }
    }
}

impl vstd::std_specs::convert::FromSpecImpl<EpochOperation> for EpochOperationType {
    open spec fn obeys_from_spec() -> bool {
        true
    }

    open spec fn from_spec(operation: EpochOperation) -> EpochOperationType {
        spec_epoch_kind(operation)
    }
}

impl BlockOperation {
    /// The stem of the payload fixture file this operation reads, before the
    /// codec extension.
    pub open spec fn spec_input_filename(&self) -> Seq<char> {
        match self {
            BlockOperation::Attestation => "attestation"@,
            BlockOperation::AttesterSlashing => "attester_slashing"@,
            BlockOperation::BlockHeader => "block"@,
            BlockOperation::BLSToExecutionChange => "address_change"@,
            BlockOperation::Deposit => "deposit"@,
            BlockOperation::ExecutionPayload => "body"@,
            BlockOperation::ProposerSlashing => "proposer_slashing"@,
            BlockOperation::SyncAggregate => "sync_aggregate"@,
            BlockOperation::VoluntaryExit => "voluntary_exit"@,
            BlockOperation::Withdrawals => "execution_payload"@,
        }
    }

    pub fn get_input_filename(&self) -> (r: String)
        ensures
            r@ == self.spec_input_filename(),
    {
        match self {
            BlockOperation::Attestation => String::from_str("attestation"),
            BlockOperation::AttesterSlashing => String::from_str("attester_slashing"),
            BlockOperation::BlockHeader => String::from_str("block"),
            BlockOperation::BLSToExecutionChange => String::from_str("address_change"),
            BlockOperation::Deposit => String::from_str("deposit"),
            BlockOperation::ExecutionPayload => String::from_str("body"),
            BlockOperation::ProposerSlashing => String::from_str("proposer_slashing"),
            BlockOperation::SyncAggregate => String::from_str("sync_aggregate"),
            BlockOperation::VoluntaryExit => String::from_str("voluntary_exit"),
            BlockOperation::Withdrawals => String::from_str("execution_payload"),
        }
    }
}

/// One family of operations as the host drives it: how a choice becomes the
/// operation to send, what the family's suite directory is called, and what
/// the choice itself is called there.
pub trait OperationHandler: Sized {
    /// The operation that `prepare_input` builds from payload bytes.
    spec fn spec_prepared(&self, payload: Seq<u8>) -> OperationView;

    /// The suite directory of the family.
    spec fn spec_category(&self) -> Seq<char>;

    /// The directory name of this choice inside the family's suite.
    spec fn spec_name(&self) -> Seq<char>;

    /// Builds the operation a test case sends: for the block family the
    /// payload fixture's bytes travel inside it, for the epoch family there
    /// is no payload and the bytes are ignored.
    fn prepare_input(&self, payload_ssz_bytes: Vec<u8>) -> (r: OperationInput)
        ensures
            r@ == self.spec_prepared(payload_ssz_bytes@),
    ;

    fn get_operation_category(&self) -> (r: String)
        ensures
            r@ == self.spec_category(),
    ;

    fn operation_name(&self) -> (r: String)
        ensures
            r@ == self.spec_name(),
    ;
}

impl OperationHandler for BlockOperation {
    open spec fn spec_prepared(&self, payload: Seq<u8>) -> OperationView {
        OperationView::Block { operation_type: spec_block_kind(*self), ssz_bytes: payload }
    }

    open spec fn spec_category(&self) -> Seq<char> {
        "operations"@
    }

    open spec fn spec_name(&self) -> Seq<char> {
        match self {
            BlockOperation::Attestation => "attestation"@,
            BlockOperation::AttesterSlashing => "attester_slashing"@,
            BlockOperation::BlockHeader => "block_header"@,
            BlockOperation::BLSToExecutionChange => "bls_to_execution_change"@,
            BlockOperation::Deposit => "deposit"@,
            BlockOperation::ExecutionPayload => "execution_payload"@,
            BlockOperation::ProposerSlashing => "proposer_slashing"@,
            BlockOperation::SyncAggregate => "sync_aggregate"@,
            BlockOperation::VoluntaryExit => "voluntary_exit"@,
            BlockOperation::Withdrawals => "withdrawals"@,
        }
    }

    fn prepare_input(&self, payload_ssz_bytes: Vec<u8>) -> (r: OperationInput) {
        OperationInput::Block(
            BlockOperationWrapper {
                operation_type: BlockOperationType::from(*self),
                ssz_bytes: payload_ssz_bytes,
            },
        )
    }

    fn get_operation_category(&self) -> (r: String) {
        String::from_str("operations")
    }

    fn operation_name(&self) -> (r: String) {
        match self {
            BlockOperation::Attestation => String::from_str("attestation"),
            BlockOperation::AttesterSlashing => String::from_str("attester_slashing"),
            BlockOperation::BlockHeader => String::from_str("block_header"),
            BlockOperation::BLSToExecutionChange => String::from_str("bls_to_execution_change"),
            BlockOperation::Deposit => String::from_str("deposit"),
            BlockOperation::ExecutionPayload => String::from_str("execution_payload"),
            BlockOperation::ProposerSlashing => String::from_str("proposer_slashing"),
            BlockOperation::SyncAggregate => String::from_str("sync_aggregate"),
            BlockOperation::VoluntaryExit => String::from_str("voluntary_exit"),
            BlockOperation::Withdrawals => String::from_str("withdrawals"),
        }
    }
}

impl OperationHandler for EpochOperation {
    open spec fn spec_prepared(&self, payload: Seq<u8>) -> OperationView {
        OperationView::Epoch { operation_type: spec_epoch_kind(*self) }
    }

    open spec fn spec_category(&self) -> Seq<char> {
        "epoch_processing"@
    }

    open spec fn spec_name(&self) -> Seq<char> {
        match self {
            EpochOperation::JustificationAndFinalization => "justification_and_finalization"@,
            EpochOperation::InactivityUpdates => "inactivity_updates"@,
            EpochOperation::RewardsAndPenalties => "rewards_and_penalties"@,
            EpochOperation::RegistryUpdates => "registry_updates"@,
            EpochOperation::Slashings => "slashings"@,
            EpochOperation::Eth1DataReset => "eth1_data_reset"@,
            EpochOperation::PendingDeposits => "pending_deposits"@,
            EpochOperation::PendingConsolidations => "pending_consolidations"@,
            EpochOperation::EffectiveBalanceUpdates => "effective_balance_updates"@,
            EpochOperation::SlashingsReset => "slashings_reset"@,
            EpochOperation::RandaoMixesReset => "randao_mixes_reset"@,
            EpochOperation::HistoricalSummariesUpdate => "historical_summaries_update"@,
            EpochOperation::ParticipationFlagUpdates => "participation_flag_updates"@,
        }
    }

    fn prepare_input(&self, payload_ssz_bytes: Vec<u8>) -> (r: OperationInput) {
        OperationInput::Epoch(
            EpochOperationWrapper { operation_type: EpochOperationType::from(*self) },
        )
    }

    fn get_operation_category(&self) -> (r: String) {
        String::from_str("epoch_processing")
    }

    fn operation_name(&self) -> (r: String) {
        match self {
            EpochOperation::JustificationAndFinalization => String::from_str(
                "justification_and_finalization",
            ),
            EpochOperation::InactivityUpdates => String::from_str("inactivity_updates"),
            EpochOperation::RewardsAndPenalties => String::from_str("rewards_and_penalties"),
            EpochOperation::RegistryUpdates => String::from_str("registry_updates"),
            EpochOperation::Slashings => String::from_str("slashings"),
            EpochOperation::Eth1DataReset => String::from_str("eth1_data_reset"),
            EpochOperation::PendingDeposits => String::from_str("pending_deposits"),
            EpochOperation::PendingConsolidations => String::from_str("pending_consolidations"),
            EpochOperation::EffectiveBalanceUpdates => String::from_str(
                "effective_balance_updates",
            ),
            EpochOperation::SlashingsReset => String::from_str("slashings_reset"),
            EpochOperation::RandaoMixesReset => String::from_str("randao_mixes_reset"),
            EpochOperation::HistoricalSummariesUpdate => String::from_str(
                "historical_summaries_update",
            ),
            EpochOperation::ParticipationFlagUpdates => String::from_str(
                "participation_flag_updates",
            ),
        }
    }
}

/// The directory a choice's test cases live under, relative to the suite
/// root: the fork, the family's category, the operation's name, then the
/// suite's fixed leaf directory.
pub open spec fn spec_test_suite_dir<T: OperationHandler>(op: T, fork: Fork) -> Seq<char> {
    "mainnet/"@ + fork.spec_name() + "/"@ + op.spec_category() + "/"@ + op.spec_name()
        + "/pyspec_tests"@
}

pub fn test_suite_dir<T: OperationHandler>(op: &T, fork: &Fork) -> (r: String)
    ensures
        r@ == spec_test_suite_dir(*op, *fork),
{
    let mut r = String::from_str("mainnet/");
    r.append(fork.name().as_str());
    r.append("/");
    r.append(op.get_operation_category().as_str());
    r.append("/");
    r.append(op.operation_name().as_str());
    r.append("/pyspec_tests");
    r
}

} // verus!
