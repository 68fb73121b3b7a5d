use consenzisk::envelope::{EnvelopeError, ZiskInput};
use consenzisk::input::{
    BlockOperationType, BlockOperationWrapper, EpochOperationType, EpochOperationWrapper,
    OperationDecodeError, OperationInput,
};
use consenzisk::pipeline::{guest_decode, GuestError};

fn envelope_round_trip(state: Vec<u8>, op: Vec<u8>) {
    let input = ZiskInput { pre_state_ssz_bytes: state.clone(), operation_input: op.clone() };
    let encoded = input.encode();
    let decoded = ZiskInput::decode(&encoded).expect("well-formed envelope must decode");
    assert_eq!(decoded.pre_state_ssz_bytes, state);
    assert_eq!(decoded.operation_input, op);
}

#[test]
fn envelope_round_trips_plain_bytes() {
    envelope_round_trip(vec![1, 2, 3, 4, 5], vec![9, 8, 7]);
}

#[test]
fn envelope_round_trips_empty_state() {
    envelope_round_trip(vec![], vec![42]);
}

#[test]
fn envelope_round_trips_empty_operation() {
    envelope_round_trip(vec![6, 6, 6], vec![]);
}

#[test]
fn envelope_round_trips_both_empty() {
    envelope_round_trip(vec![], vec![]);
}

#[test]
fn envelope_layout_is_length_prefixed() {
    let input = ZiskInput { pre_state_ssz_bytes: vec![0xaa, 0xbb], operation_input: vec![0xcc] };
    let encoded = input.encode();
    assert_eq!(encoded, vec![2, 0, 0, 0, 0, 0, 0, 0, 0xaa, 0xbb, 0xcc]);
}

#[test]
fn envelope_rejects_short_input() {
    let r = ZiskInput::decode(&[1, 2, 3]);
    assert_eq!(r.unwrap_err(), EnvelopeError::MissingLength);
}

#[test]
fn envelope_rejects_truncated_state() {
    // claims 100 state bytes but carries 2
    let mut bytes = vec![100, 0, 0, 0, 0, 0, 0, 0];
    bytes.extend_from_slice(&[1, 2]);
    let r = ZiskInput::decode(&bytes);
    assert_eq!(r.unwrap_err(), EnvelopeError::StateTruncated);
}

fn all_block_kinds() -> Vec<BlockOperationType> {
    vec![
        BlockOperationType::Attestation,
        BlockOperationType::AttesterSlashing,
        BlockOperationType::BlockHeader,
        BlockOperationType::BLSToExecutionChange,
        BlockOperationType::Deposit,
        BlockOperationType::ExecutionPayload,
        BlockOperationType::ProposerSlashing,
        BlockOperationType::SyncAggregate,
        BlockOperationType::VoluntaryExit,
        BlockOperationType::Withdrawals,
    ]
}

fn all_epoch_kinds() -> Vec<EpochOperationType> {
    vec![
        EpochOperationType::JustificationAndFinalization,
        EpochOperationType::InactivityUpdates,
        EpochOperationType::RewardsAndPenalties,
        EpochOperationType::RegistryUpdates,
        EpochOperationType::Slashings,
        EpochOperationType::Eth1DataReset,
        EpochOperationType::PendingDeposits,
        EpochOperationType::PendingConsolidations,
        EpochOperationType::EffectiveBalanceUpdates,
        EpochOperationType::SlashingsReset,
        EpochOperationType::RandaoMixesReset,
        EpochOperationType::HistoricalSummariesUpdate,
        EpochOperationType::ParticipationFlagUpdates,
    ]
}

#[test]
fn operation_round_trips_every_block_kind_with_payload() {
    for kind in all_block_kinds() {
        let op = OperationInput::Block(BlockOperationWrapper {
            operation_type: kind,
            ssz_bytes: vec![1, 2, 3, 0xff],
        });
        let decoded = OperationInput::decode(&op.encode()).expect("canonical bytes must decode");
        assert_eq!(decoded, op);
    }
}

#[test]
fn operation_round_trips_every_block_kind_without_payload() {
    for kind in all_block_kinds() {
        let op = OperationInput::Block(BlockOperationWrapper {
            operation_type: kind,
            ssz_bytes: vec![],
        });
        let decoded = OperationInput::decode(&op.encode()).expect("canonical bytes must decode");
        assert_eq!(decoded, op);
    }
}

#[test]
fn operation_round_trips_every_epoch_kind() {
    for kind in all_epoch_kinds() {
        let op = OperationInput::Epoch(EpochOperationWrapper { operation_type: kind });
        let decoded = OperationInput::decode(&op.encode()).expect("canonical bytes must decode");
        assert_eq!(decoded, op);
    }
}

#[test]
fn operation_rejects_short_bytes() {
    assert_eq!(OperationInput::decode(&[]).unwrap_err(), OperationDecodeError::TooShort);
    assert_eq!(OperationInput::decode(&[0]).unwrap_err(), OperationDecodeError::TooShort);
}

#[test]
fn operation_rejects_unknown_family() {
    assert_eq!(OperationInput::decode(&[7, 0]).unwrap_err(), OperationDecodeError::UnknownFamily);
}

#[test]
fn operation_rejects_unknown_kind() {
    assert_eq!(OperationInput::decode(&[0, 10]).unwrap_err(), OperationDecodeError::UnknownKind);
    assert_eq!(OperationInput::decode(&[1, 13]).unwrap_err(), OperationDecodeError::UnknownKind);
}

#[test]
fn operation_rejects_payload_on_epoch_kind() {
    assert_eq!(
        OperationInput::decode(&[1, 0, 99]).unwrap_err(),
        OperationDecodeError::TrailingBytes
    );
}

#[test]
fn guest_decode_recovers_state_and_operation() {
    let op = OperationInput::Block(BlockOperationWrapper {
        operation_type: BlockOperationType::Deposit,
        ssz_bytes: vec![0xde, 0xad],
    });
    let envelope = ZiskInput {
        pre_state_ssz_bytes: vec![0x01, 0x02, 0x03],
        operation_input: op.encode(),
    };
    let (state, decoded_op) = guest_decode(&envelope.encode()).expect("pipeline must decode");
    assert_eq!(state.as_ssz_bytes(), &vec![0x01, 0x02, 0x03]);
    assert_eq!(decoded_op, op);
}

#[test]
fn guest_decode_is_fatal_on_truncated_envelope() {
    let op = OperationInput::Epoch(EpochOperationWrapper {
        operation_type: EpochOperationType::Slashings,
    });
    let envelope = ZiskInput { pre_state_ssz_bytes: vec![1, 2, 3, 4], operation_input: op.encode() };
    let mut bytes = envelope.encode();
    bytes.truncate(bytes.len() - 3);
    assert_eq!(guest_decode(&bytes).unwrap_err(), GuestError::MalformedEnvelope);
}

#[test]
fn guest_decode_is_fatal_on_corrupted_operation() {
    let envelope = ZiskInput {
        pre_state_ssz_bytes: vec![1, 2, 3, 4],
        operation_input: vec![9, 9, 9],
    };
    assert_eq!(guest_decode(&envelope.encode()).unwrap_err(), GuestError::MalformedOperation);
}

#[test]
fn guest_decode_is_fatal_on_empty_input() {
    assert_eq!(guest_decode(&[]).unwrap_err(), GuestError::MalformedEnvelope);
}
