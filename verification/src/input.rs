//! The operation model: the closed, tagged set of state-transition
//! operations, the binary codec that carries one across the host/guest
//! boundary, and the dispatch rule that maps every operation to exactly one
//! external apply capability.
//!
//! Block-family operations carry the serialized payload the apply step will
//! decode; epoch-family operations act purely on internally tracked state and
//! carry none.

use vstd::prelude::*;
use vstd::slice::{slice_subrange, slice_to_vec};

verus! {

/// The block-family operations, applied per incoming block.
#[derive(Clone, Copy, PartialEq, Eq, Structural, Debug)]
pub enum BlockOperationType {
    Attestation,
    AttesterSlashing,
    BlockHeader,
    BLSToExecutionChange,
    Deposit,
    ExecutionPayload,
    ProposerSlashing,
    SyncAggregate,
    VoluntaryExit,
    Withdrawals,
}

/// The epoch-family operations, applied at an epoch boundary.
#[derive(Clone, Copy, PartialEq, Eq, Structural, Debug)]
pub enum EpochOperationType {
    JustificationAndFinalization,
    InactivityUpdates,
    RewardsAndPenalties,
    RegistryUpdates,
    Slashings,
    Eth1DataReset,
    PendingDeposits,
    PendingConsolidations,
    EffectiveBalanceUpdates,
    SlashingsReset,
    RandaoMixesReset,
    HistoricalSummariesUpdate,
    ParticipationFlagUpdates,
}

/// A block-family operation with the serialized payload its apply step will
/// decode.
#[derive(PartialEq, Eq, Debug)]
pub struct BlockOperationWrapper {
    pub operation_type: BlockOperationType,
    pub ssz_bytes: Vec<u8>,
}

/// An epoch-family operation; it takes no payload.
#[derive(PartialEq, Eq, Debug)]
pub struct EpochOperationWrapper {
    pub operation_type: EpochOperationType,
}

/// One state-transition operation as carried to the guest: a payload is
/// present exactly for the block family.
#[derive(PartialEq, Eq, Debug)]
pub enum OperationInput {
    Block(BlockOperationWrapper),
    Epoch(EpochOperationWrapper),
}

/// The mathematical shape of an operation: its kind, and for the block
/// family the payload bytes.
pub enum OperationView {
    Block { operation_type: BlockOperationType, ssz_bytes: Seq<u8> },
    Epoch { operation_type: EpochOperationType },
}

impl View for OperationInput {
    type V = OperationView;

    open spec fn view(&self) -> OperationView {
        match self {
            OperationInput::Block(w) => OperationView::Block {
                operation_type: w.operation_type,
                ssz_bytes: w.ssz_bytes@,
            },
            OperationInput::Epoch(w) => OperationView::Epoch { operation_type: w.operation_type },
        }
    }
}

/// The codec tag of a block-family kind.
pub open spec fn spec_block_code(k: BlockOperationType) -> u8 {
    match k {
        BlockOperationType::Attestation => 0,
        BlockOperationType::AttesterSlashing => 1,
        BlockOperationType::BlockHeader => 2,
        BlockOperationType::BLSToExecutionChange => 3,
        BlockOperationType::Deposit => 4,
        BlockOperationType::ExecutionPayload => 5,
        BlockOperationType::ProposerSlashing => 6,
        BlockOperationType::SyncAggregate => 7,
        BlockOperationType::VoluntaryExit => 8,
        BlockOperationType::Withdrawals => 9,
    }
}

/// The block-family kind a codec tag names, if any.
pub open spec fn spec_block_kind_of_code(c: u8) -> Option<BlockOperationType> {
    if c == 0 {
        Option::Some(BlockOperationType::Attestation)
    } else if c == 1 {
        Option::Some(BlockOperationType::AttesterSlashing)
    } else if c == 2 {
        Option::Some(BlockOperationType::BlockHeader)
    } else if c == 3 {
        Option::Some(BlockOperationType::BLSToExecutionChange)
    } else if c == 4 {
        Option::Some(BlockOperationType::Deposit)
    } else if c == 5 {
        Option::Some(BlockOperationType::ExecutionPayload)
    } else if c == 6 {
        Option::Some(BlockOperationType::ProposerSlashing)
    } else if c == 7 {
        Option::Some(BlockOperationType::SyncAggregate)
    } else if c == 8 {
        Option::Some(BlockOperationType::VoluntaryExit)
    } else if c == 9 {
        Option::Some(BlockOperationType::Withdrawals)
    } else {
        Option::None
    }
}

/// The codec tag of an epoch-family kind.
pub open spec fn spec_epoch_code(k: EpochOperationType) -> u8 {
    match k {
        EpochOperationType::JustificationAndFinalization => 0,
        EpochOperationType::InactivityUpdates => 1,
        EpochOperationType::RewardsAndPenalties => 2,
        EpochOperationType::RegistryUpdates => 3,
        EpochOperationType::Slashings => 4,
        EpochOperationType::Eth1DataReset => 5,
        EpochOperationType::PendingDeposits => 6,
        EpochOperationType::PendingConsolidations => 7,
        EpochOperationType::EffectiveBalanceUpdates => 8,
        EpochOperationType::SlashingsReset => 9,
        EpochOperationType::RandaoMixesReset => 10,
        EpochOperationType::HistoricalSummariesUpdate => 11,
        EpochOperationType::ParticipationFlagUpdates => 12,
    }
}

/// The epoch-family kind a codec tag names, if any.
pub open spec fn spec_epoch_kind_of_code(c: u8) -> Option<EpochOperationType> {
    if c == 0 {
        Option::Some(EpochOperationType::JustificationAndFinalization)
    } else if c == 1 {
        Option::Some(EpochOperationType::InactivityUpdates)
    } else if c == 2 {
        Option::Some(EpochOperationType::RewardsAndPenalties)
    } else if c == 3 {
        Option::Some(EpochOperationType::RegistryUpdates)
    } else if c == 4 {
        Option::Some(EpochOperationType::Slashings)
    } else if c == 5 {
        Option::Some(EpochOperationType::Eth1DataReset)
    } else if c == 6 {
        Option::Some(EpochOperationType::PendingDeposits)
    } else if c == 7 {
        Option::Some(EpochOperationType::PendingConsolidations)
    } else if c == 8 {
        Option::Some(EpochOperationType::EffectiveBalanceUpdates)
    } else if c == 9 {
        Option::Some(EpochOperationType::SlashingsReset)
    } else if c == 10 {
        Option::Some(EpochOperationType::RandaoMixesReset)
    } else if c == 11 {
        Option::Some(EpochOperationType::HistoricalSummariesUpdate)
    } else if c == 12 {
        Option::Some(EpochOperationType::ParticipationFlagUpdates)
    } else {
        Option::None
    }
}

fn block_code(k: BlockOperationType) -> (c: u8)
    ensures
        c == spec_block_code(k),
{
    match k {
        BlockOperationType::Attestation => 0,
        BlockOperationType::AttesterSlashing => 1,
        BlockOperationType::BlockHeader => 2,
        BlockOperationType::BLSToExecutionChange => 3,
        BlockOperationType::Deposit => 4,
        BlockOperationType::ExecutionPayload => 5,
        BlockOperationType::ProposerSlashing => 6,
        BlockOperationType::SyncAggregate => 7,
        BlockOperationType::VoluntaryExit => 8,
        BlockOperationType::Withdrawals => 9,
    }
}

fn block_kind_of_code(c: u8) -> (r: Option<BlockOperationType>)
    ensures
        r == spec_block_kind_of_code(c),
{
    if c == 0 {
        Option::Some(BlockOperationType::Attestation)
    } else if c == 1 {
        Option::Some(BlockOperationType::AttesterSlashing)
    } else if c == 2 {
        Option::Some(BlockOperationType::BlockHeader)
    } else if c == 3 {
        Option::Some(BlockOperationType::BLSToExecutionChange)
    } else if c == 4 {
        Option::Some(BlockOperationType::Deposit)
    } else if c == 5 {
        Option::Some(BlockOperationType::ExecutionPayload)
    } else if c == 6 {
        Option::Some(BlockOperationType::ProposerSlashing)
    } else if c == 7 {
        Option::Some(BlockOperationType::SyncAggregate)
    } else if c == 8 {
        Option::Some(BlockOperationType::VoluntaryExit)
    } else if c == 9 {
        Option::Some(BlockOperationType::Withdrawals)
    } else {
        Option::None
    }
}

fn epoch_code(k: EpochOperationType) -> (c: u8)
    ensures
        c == spec_epoch_code(k),
{
    match k {
        EpochOperationType::JustificationAndFinalization => 0,
        EpochOperationType::InactivityUpdates => 1,
        EpochOperationType::RewardsAndPenalties => 2,
        EpochOperationType::RegistryUpdates => 3,
        EpochOperationType::Slashings => 4,
        EpochOperationType::Eth1DataReset => 5,
        EpochOperationType::PendingDeposits => 6,
        EpochOperationType::PendingConsolidations => 7,
        EpochOperationType::EffectiveBalanceUpdates => 8,
        EpochOperationType::SlashingsReset => 9,
        EpochOperationType::RandaoMixesReset => 10,
        EpochOperationType::HistoricalSummariesUpdate => 11,
        EpochOperationType::ParticipationFlagUpdates => 12,
    }
}

fn epoch_kind_of_code(c: u8) -> (r: Option<EpochOperationType>)
    ensures
        r == spec_epoch_kind_of_code(c),
{
    if c == 0 {
        Option::Some(EpochOperationType::JustificationAndFinalization)
    } else if c == 1 {
        Option::Some(EpochOperationType::InactivityUpdates)
    } else if c == 2 {
        Option::Some(EpochOperationType::RewardsAndPenalties)
    } else if c == 3 {
        Option::Some(EpochOperationType::RegistryUpdates)
    } else if c == 4 {
        Option::Some(EpochOperationType::Slashings)
    } else if c == 5 {
        Option::Some(EpochOperationType::Eth1DataReset)
    } else if c == 6 {
        Option::Some(EpochOperationType::PendingDeposits)
    } else if c == 7 {
        Option::Some(EpochOperationType::PendingConsolidations)
    } else if c == 8 {
        Option::Some(EpochOperationType::EffectiveBalanceUpdates)
    } else if c == 9 {
        Option::Some(EpochOperationType::SlashingsReset)
    } else if c == 10 {
        Option::Some(EpochOperationType::RandaoMixesReset)
    } else if c == 11 {
        Option::Some(EpochOperationType::HistoricalSummariesUpdate)
    } else if c == 12 {
        Option::Some(EpochOperationType::ParticipationFlagUpdates)
    } else {
        Option::None
    }
}

/// The encoded operation: a family tag, a kind tag, then for the block
/// family the payload bytes.
pub open spec fn spec_encode_operation(v: OperationView) -> Seq<u8> {
    match v {
        OperationView::Block { operation_type, ssz_bytes } => seq![0u8, spec_block_code(
            operation_type,
        )] + ssz_bytes,
        OperationView::Epoch { operation_type } => seq![1u8, spec_epoch_code(operation_type)],
    }
}

/// What decoding operation bytes yields: the operation, or nothing when the
/// bytes are not a canonical encoding.
pub open spec fn spec_decode_operation(b: Seq<u8>) -> Option<OperationView> {
    if b.len() < 2 {
        Option::None
    } else if b[0] == 0 {
        match spec_block_kind_of_code(b[1]) {
            Option::Some(k) => Option::Some(
                OperationView::Block { operation_type: k, ssz_bytes: b.skip(2) },
            ),
            Option::None => Option::None,
        }
    } else if b[0] == 1 {
        if b.len() == 2 {
            match spec_epoch_kind_of_code(b[1]) {
                Option::Some(k) => Option::Some(OperationView::Epoch { operation_type: k }),
                Option::None => Option::None,
            }
        } else {
            Option::None
        }
    } else {
        Option::None
    }
}

/// Malformed operation bytes; fatal to the test case inside the guest.
#[derive(Clone, Copy, PartialEq, Eq, Structural, Debug)]
pub enum OperationDecodeError {
    /// Fewer than the two tag bytes.
    TooShort,
    /// The first tag names neither the block nor the epoch family.
    UnknownFamily,
    /// The second tag names no kind of the tagged family.
    UnknownKind,
    /// Bytes follow an epoch-family operation, which carries no payload.
    TrailingBytes,
}

impl OperationInput {
    /// Encodes the operation for the envelope.
    pub fn encode(&self) -> (r: Vec<u8>)
        ensures
            r@ == spec_encode_operation(self@),
    {
        match self {
            OperationInput::Block(w) => {
                let mut r: Vec<u8> = Vec::new();
                r.push(0u8);
                r.push(block_code(w.operation_type));
                r.extend_from_slice(w.ssz_bytes.as_slice());
                proof {
                    assert(r@ =~= seq![0u8, spec_block_code(w.operation_type)] + w.ssz_bytes@);
                }
                r
            },
            OperationInput::Epoch(w) => {
                let mut r: Vec<u8> = Vec::new();
                r.push(1u8);
                r.push(epoch_code(w.operation_type));
                proof {
                    assert(r@ =~= seq![1u8, spec_epoch_code(w.operation_type)]);
                }
                r
            },
        }
    }

    /// Reads an operation back. Succeeds exactly on canonical encodings and
    /// then returns the operation unchanged; each error names what was wrong
    /// with the bytes.
    pub fn decode(bytes: &[u8]) -> (r: Result<OperationInput, OperationDecodeError>)
        ensures
            match spec_decode_operation(bytes@) {
                Option::Some(v) => r is Ok && r->Ok_0@ == v,
                Option::None => r is Err,
            },
            r is Err ==> match r->Err_0 {
                OperationDecodeError::TooShort => bytes@.len() < 2,
                OperationDecodeError::UnknownFamily => bytes@.len() >= 2 && bytes@[0] != 0
                    && bytes@[0] != 1,
                OperationDecodeError::UnknownKind => bytes@.len() >= 2 && (bytes@[0] == 0
                    && spec_block_kind_of_code(bytes@[1]) is None || bytes@[0] == 1
                    && spec_epoch_kind_of_code(bytes@[1]) is None),
                OperationDecodeError::TrailingBytes => bytes@.len() > 2 && bytes@[0] == 1
                    && spec_epoch_kind_of_code(bytes@[1]) is Some,
            },
    {
        if bytes.len() < 2 {
            return Result::Err(OperationDecodeError::TooShort);
        }
        let family = bytes[0];
        let code = bytes[1];
        if family == 0 {
            match block_kind_of_code(code) {
                Option::Some(k) => {
                    let payload = slice_to_vec(slice_subrange(bytes, 2, bytes.len()));
                    proof {
                        assert(payload@ =~= bytes@.skip(2));
                    }
                    Result::Ok(
                        OperationInput::Block(
                            BlockOperationWrapper { operation_type: k, ssz_bytes: payload },
                        ),
                    )
                },
                Option::None => Result::Err(OperationDecodeError::UnknownKind),
            }
        } else if family == 1 {
            match epoch_kind_of_code(code) {
                Option::Some(k) => {
                    if bytes.len() == 2 {
                        Result::Ok(
                            OperationInput::Epoch(EpochOperationWrapper { operation_type: k }),
                        )
                    } else {
                        Result::Err(OperationDecodeError::TrailingBytes)
                    }
                },
                Option::None => Result::Err(OperationDecodeError::UnknownKind),
            }
        } else {
            Result::Err(OperationDecodeError::UnknownFamily)
        }
    }
}

/// The external apply capabilities, one per operation kind.
#[derive(Clone, Copy, PartialEq, Eq, Structural, Debug)]
pub enum ApplyFunction {
    ProcessAttestation,
    ProcessAttesterSlashing,
    ProcessBlockHeader,
    ProcessBlsToExecutionChange,
    ProcessDeposit,
    ProcessProposerSlashing,
    ProcessSyncAggregate,
    ProcessVoluntaryExit,
    ProcessWithdrawals,
    ProcessJustificationAndFinalization,
    ProcessInactivityUpdates,
    ProcessRewardsAndPenalties,
    ProcessRegistryUpdates,
    ProcessSlashings,
    ProcessEth1DataReset,
    ProcessPendingDeposits,
    ProcessPendingConsolidations,
    ProcessEffectiveBalanceUpdates,
    ProcessSlashingsReset,
    ProcessRandaoMixesReset,
    ProcessHistoricalSummariesUpdate,
    ProcessParticipationFlagUpdates,
}

/// Whether an apply capability belongs to the block family and so takes a
/// payload.
pub open spec fn is_block_apply(f: ApplyFunction) -> bool {
    match f {
        ApplyFunction::ProcessAttestation => true,
        ApplyFunction::ProcessAttesterSlashing => true,
        ApplyFunction::ProcessBlockHeader => true,
        ApplyFunction::ProcessBlsToExecutionChange => true,
        ApplyFunction::ProcessDeposit => true,
        ApplyFunction::ProcessProposerSlashing => true,
        ApplyFunction::ProcessSyncAggregate => true,
        ApplyFunction::ProcessVoluntaryExit => true,
        ApplyFunction::ProcessWithdrawals => true,
        _ => false,
    }
}

/// The instruction the apply stage hands to the external state-transition
/// capability: which function to invoke, and the payload to decode for it.
#[derive(PartialEq, Eq, Debug)]
pub struct ApplyDirective {
    pub function: ApplyFunction,
    pub payload: Option<Vec<u8>>,
}

impl ApplyDirective {
    /// A payload is handed over exactly for block-family capabilities.
    pub open spec fn wf(&self) -> bool {
        self.payload is Some <==> is_block_apply(self.function)
    }
}

/// An operation whose kind is not wired to an apply capability; invoking it
/// must fail loudly, never silently no-op.
#[derive(Clone, Copy, PartialEq, Eq, Structural, Debug)]
pub struct UnimplementedOperation;

/// The apply capability a block-family kind is wired to; the kinds not yet
/// wired map to nothing.
pub open spec fn spec_block_apply(k: BlockOperationType) -> Option<ApplyFunction> {
    match k {
        BlockOperationType::Attestation => Option::Some(ApplyFunction::ProcessAttestation),
        BlockOperationType::AttesterSlashing => Option::Some(
            ApplyFunction::ProcessAttesterSlashing,
        ),
        BlockOperationType::BlockHeader => Option::Some(ApplyFunction::ProcessBlockHeader),
        BlockOperationType::BLSToExecutionChange => Option::Some(
            ApplyFunction::ProcessBlsToExecutionChange,
        ),
        BlockOperationType::Deposit => Option::Some(ApplyFunction::ProcessDeposit),
        BlockOperationType::ExecutionPayload => Option::None,
        BlockOperationType::ProposerSlashing => Option::Some(
            ApplyFunction::ProcessProposerSlashing,
        ),
        BlockOperationType::SyncAggregate => Option::Some(ApplyFunction::ProcessSyncAggregate),
        BlockOperationType::VoluntaryExit => Option::Some(ApplyFunction::ProcessVoluntaryExit),
        BlockOperationType::Withdrawals => Option::Some(ApplyFunction::ProcessWithdrawals),
    }
}

/// The apply capability of an epoch-family kind; every one is wired.
pub open spec fn spec_epoch_apply(k: EpochOperationType) -> ApplyFunction {
    match k {
        EpochOperationType::JustificationAndFinalization => ApplyFunction::ProcessJustificationAndFinalization,
        EpochOperationType::InactivityUpdates => ApplyFunction::ProcessInactivityUpdates,
        EpochOperationType::RewardsAndPenalties => ApplyFunction::ProcessRewardsAndPenalties,
        EpochOperationType::RegistryUpdates => ApplyFunction::ProcessRegistryUpdates,
        EpochOperationType::Slashings => ApplyFunction::ProcessSlashings,
        EpochOperationType::Eth1DataReset => ApplyFunction::ProcessEth1DataReset,
        EpochOperationType::PendingDeposits => ApplyFunction::ProcessPendingDeposits,
        EpochOperationType::PendingConsolidations => ApplyFunction::ProcessPendingConsolidations,
        EpochOperationType::EffectiveBalanceUpdates => ApplyFunction::ProcessEffectiveBalanceUpdates,
        EpochOperationType::SlashingsReset => ApplyFunction::ProcessSlashingsReset,
        EpochOperationType::RandaoMixesReset => ApplyFunction::ProcessRandaoMixesReset,
        EpochOperationType::HistoricalSummariesUpdate => ApplyFunction::ProcessHistoricalSummariesUpdate,
        EpochOperationType::ParticipationFlagUpdates => ApplyFunction::ProcessParticipationFlagUpdates,
    }
}

impl BlockOperationWrapper {
    /// Dispatches a block-family operation: the one apply capability its
    /// kind is wired to, with the payload handed through unchanged. The
    /// kinds not yet wired fail loudly.
    pub fn process_operation(&self) -> (r: Result<ApplyDirective, UnimplementedOperation>)
        ensures
            r is Ok <==> spec_block_apply(self.operation_type) is Some,
            r is Ok ==> {
                &&& r->Ok_0.function == spec_block_apply(self.operation_type)->Some_0
                &&& r->Ok_0.payload is Some
                &&& r->Ok_0.payload->Some_0@ == self.ssz_bytes@
                &&& r->Ok_0.wf()
            },
    {
        let function = match self.operation_type {
            BlockOperationType::Attestation => ApplyFunction::ProcessAttestation,
            BlockOperationType::AttesterSlashing => ApplyFunction::ProcessAttesterSlashing,
            BlockOperationType::BlockHeader => ApplyFunction::ProcessBlockHeader,
            BlockOperationType::BLSToExecutionChange => ApplyFunction::ProcessBlsToExecutionChange,
            BlockOperationType::Deposit => ApplyFunction::ProcessDeposit,
            BlockOperationType::ExecutionPayload => {
                return Result::Err(UnimplementedOperation);
            },
            BlockOperationType::ProposerSlashing => ApplyFunction::ProcessProposerSlashing,
            BlockOperationType::SyncAggregate => ApplyFunction::ProcessSyncAggregate,
            BlockOperationType::VoluntaryExit => ApplyFunction::ProcessVoluntaryExit,
            BlockOperationType::Withdrawals => ApplyFunction::ProcessWithdrawals,
        };
        let mut payload: Vec<u8> = Vec::new();
        payload.extend_from_slice(self.ssz_bytes.as_slice());
        proof {
            assert(payload@ =~= self.ssz_bytes@);
        }
        Result::Ok(ApplyDirective { function, payload: Option::Some(payload) })
    }
}

impl EpochOperationWrapper {
    /// Dispatches an epoch-family operation: every kind is wired to exactly
    /// one apply capability, and none takes a payload.
    pub fn process_operation(&self) -> (r: ApplyDirective)
        ensures
            r.function == spec_epoch_apply(self.operation_type),
            r.payload is None,
            r.wf(),
    {
        let function = match self.operation_type {
            EpochOperationType::JustificationAndFinalization => ApplyFunction::ProcessJustificationAndFinalization,
            EpochOperationType::InactivityUpdates => ApplyFunction::ProcessInactivityUpdates,
            EpochOperationType::RewardsAndPenalties => ApplyFunction::ProcessRewardsAndPenalties,
            EpochOperationType::RegistryUpdates => ApplyFunction::ProcessRegistryUpdates,
            EpochOperationType::Slashings => ApplyFunction::ProcessSlashings,
            EpochOperationType::Eth1DataReset => ApplyFunction::ProcessEth1DataReset,
            EpochOperationType::PendingDeposits => ApplyFunction::ProcessPendingDeposits,
            EpochOperationType::PendingConsolidations => ApplyFunction::ProcessPendingConsolidations,
            EpochOperationType::EffectiveBalanceUpdates => ApplyFunction::ProcessEffectiveBalanceUpdates,
            EpochOperationType::SlashingsReset => ApplyFunction::ProcessSlashingsReset,
            EpochOperationType::RandaoMixesReset => ApplyFunction::ProcessRandaoMixesReset,
            EpochOperationType::HistoricalSummariesUpdate => ApplyFunction::ProcessHistoricalSummariesUpdate,
            EpochOperationType::ParticipationFlagUpdates => ApplyFunction::ProcessParticipationFlagUpdates,
        };
        ApplyDirective { function, payload: Option::None }
    }
}

/// The apply directive an operation dispatches to, if its kind is wired.
pub open spec fn spec_dispatch(v: OperationView) -> Option<(ApplyFunction, Option<Seq<u8>>)> {
    match v {
        OperationView::Block { operation_type, ssz_bytes } => match spec_block_apply(
            operation_type,
        ) {
            Option::Some(f) => Option::Some((f, Option::Some(ssz_bytes))),
            Option::None => Option::None,
        },
        OperationView::Epoch { operation_type } => Option::Some(
            (spec_epoch_apply(operation_type), Option::None),
        ),
    }
}

impl OperationInput {
    /// Dispatch over the whole operation model: a total function from every
    /// wired kind to its one apply capability, failing loudly on the rest.
    pub fn process(&self) -> (r: Result<ApplyDirective, UnimplementedOperation>)
        ensures
            r is Ok <==> spec_dispatch(self@) is Some,
            r is Ok ==> {
                &&& r->Ok_0.function == spec_dispatch(self@)->Some_0.0
                &&& (match spec_dispatch(self@)->Some_0.1 {
                    Option::Some(p) => r->Ok_0.payload is Some && r->Ok_0.payload->Some_0@ == p,
                    Option::None => r->Ok_0.payload is None,
                })
                &&& r->Ok_0.wf()
            },
    {
        match self {
            OperationInput::Block(w) => w.process_operation(),
            OperationInput::Epoch(w) => Result::Ok(w.process_operation()),
        }
    }
}

/// The operation codec is lossless: decoding what was encoded gives back the
/// operation exactly, for every kind, with and without payload bytes.
pub proof fn lemma_operation_round_trip(v: OperationView)
    ensures
        spec_decode_operation(spec_encode_operation(v)) == Option::Some(v),
{
    match v {
        OperationView::Block { operation_type: k, ssz_bytes: p } => {
            let e = spec_encode_operation(v);
            assert(e[0] == 0 && e[1] == spec_block_code(k));
            assert(spec_block_kind_of_code(spec_block_code(k)) == Option::Some(k));
            assert(e.skip(2) =~= p);
        },
        OperationView::Epoch { operation_type: k } => {
            let e = spec_encode_operation(v);
            assert(e.len() == 2);
            assert(e[0] == 1 && e[1] == spec_epoch_code(k));
            assert(spec_epoch_kind_of_code(spec_epoch_code(k)) == Option::Some(k));
        },
    }
}

} // verus!
