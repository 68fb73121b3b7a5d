use consenzisk::cli::{
    test_suite_dir, BlockOperation, EpochOperation, Fork, OperationHandler,
};
use consenzisk::input::{
    ApplyFunction, BlockOperationType, BlockOperationWrapper, EpochOperationType,
    EpochOperationWrapper, OperationInput, UnimplementedOperation,
};
use consenzisk::pipeline::from_ssz_bytes;
use consenzisk::snappy::{decode_snappy, decompress_fixture, FixtureError};

#[test]
fn snappy_decompresses_a_known_fixture() {
    // raw-format compressed "hello": length preamble, then one literal
    let compressed = vec![5, 16, b'h', b'e', b'l', b'l', b'o'];
    let out = decompress_fixture(&compressed).expect("conforming bytes must decompress");
    assert_eq!(out, b"hello".to_vec());
}

#[test]
fn snappy_round_trips_through_the_real_compressor() {
    let payload: Vec<u8> = (0u8..=255).cycle().take(4096).collect();
    let compressed = snap::raw::Encoder::new()
        .compress_vec(&payload)
        .expect("compression of plain bytes succeeds");
    assert_ne!(compressed, payload);
    let out = decompress_fixture(&compressed).expect("compressor output must decompress");
    assert_eq!(out, payload);
}

#[test]
fn snappy_rejects_garbage() {
    let r = decompress_fixture(&[0xff, 0xff, 0xff, 0xff, 0xff]);
    assert_eq!(r.unwrap_err(), FixtureError::InvalidCompression);
    assert!(decode_snappy(&[0xff, 0xff, 0xff, 0xff, 0xff]).is_err());
}

#[test]
fn state_snapshot_carries_its_bytes_unchanged() {
    let snapshot = from_ssz_bytes(&[1, 2, 3, 4, 5]);
    assert_eq!(snapshot.as_ssz_bytes(), &vec![1, 2, 3, 4, 5]);
}

#[test]
fn fork_names_and_default() {
    assert_eq!(Fork::default(), Fork::Electra);
    assert_eq!(Fork::Electra.name(), "electra");
    assert_eq!(Fork::Fulu.name(), "fulu");
}

#[test]
fn input_filenames_follow_the_suite_layout() {
    assert_eq!(BlockOperation::Attestation.get_input_filename(), "attestation");
    assert_eq!(BlockOperation::BlockHeader.get_input_filename(), "block");
    assert_eq!(
        BlockOperation::BLSToExecutionChange.get_input_filename(),
        "address_change"
    );
    assert_eq!(BlockOperation::ExecutionPayload.get_input_filename(), "body");
    assert_eq!(
        BlockOperation::Withdrawals.get_input_filename(),
        "execution_payload"
    );
    assert_eq!(BlockOperation::Deposit.get_input_filename(), "deposit");
}

#[test]
fn suite_directories_are_built_per_family() {
    assert_eq!(
        test_suite_dir(&BlockOperation::Deposit, &Fork::Electra),
        "mainnet/electra/operations/deposit/pyspec_tests"
    );
    assert_eq!(
        test_suite_dir(&EpochOperation::EffectiveBalanceUpdates, &Fork::Fulu),
        "mainnet/fulu/epoch_processing/effective_balance_updates/pyspec_tests"
    );
}

#[test]
fn block_handler_wraps_the_payload() {
    let input = BlockOperation::Deposit.prepare_input(vec![0xab, 0xcd]);
    assert_eq!(
        input,
        OperationInput::Block(BlockOperationWrapper {
            operation_type: BlockOperationType::Deposit,
            ssz_bytes: vec![0xab, 0xcd],
        })
    );
}

#[test]
fn epoch_handler_takes_no_payload() {
    let input = EpochOperation::SlashingsReset.prepare_input(vec![]);
    assert_eq!(
        input,
        OperationInput::Epoch(EpochOperationWrapper {
            operation_type: EpochOperationType::SlashingsReset,
        })
    );
}

#[test]
fn handler_categories_split_the_families() {
    assert_eq!(BlockOperation::Attestation.get_operation_category(), "operations");
    assert_eq!(
        EpochOperation::Slashings.get_operation_category(),
        "epoch_processing"
    );
}

#[test]
fn cli_kinds_map_onto_the_operation_model() {
    assert_eq!(
        BlockOperationType::from(BlockOperation::SyncAggregate),
        BlockOperationType::SyncAggregate
    );
    assert_eq!(
        EpochOperationType::from(EpochOperation::RandaoMixesReset),
        EpochOperationType::RandaoMixesReset
    );
}

#[test]
fn dispatch_hands_each_block_kind_to_its_apply_function() {
    let w = BlockOperationWrapper {
        operation_type: BlockOperationType::Deposit,
        ssz_bytes: vec![1, 2],
    };
    let directive = w.process_operation().expect("deposit is wired");
    assert_eq!(directive.function, ApplyFunction::ProcessDeposit);
    assert_eq!(directive.payload, Some(vec![1, 2]));
}

#[test]
fn dispatch_fails_loudly_on_unwired_kinds() {
    let w = BlockOperationWrapper {
        operation_type: BlockOperationType::ExecutionPayload,
        ssz_bytes: vec![],
    };
    assert_eq!(w.process_operation().unwrap_err(), UnimplementedOperation);
}

#[test]
fn dispatch_gives_epoch_kinds_no_payload() {
    let w = EpochOperationWrapper {
        operation_type: EpochOperationType::EffectiveBalanceUpdates,
    };
    let directive = w.process_operation();
    assert_eq!(
        directive.function,
        ApplyFunction::ProcessEffectiveBalanceUpdates
    );
    assert_eq!(directive.payload, None);
}

#[test]
fn dispatch_covers_the_whole_model() {
    let block = OperationInput::Block(BlockOperationWrapper {
        operation_type: BlockOperationType::VoluntaryExit,
        ssz_bytes: vec![9],
    });
    assert_eq!(
        block.process().unwrap().function,
        ApplyFunction::ProcessVoluntaryExit
    );
    let epoch = OperationInput::Epoch(EpochOperationWrapper {
        operation_type: EpochOperationType::ParticipationFlagUpdates,
    });
    assert_eq!(
        epoch.process().unwrap().function,
        ApplyFunction::ProcessParticipationFlagUpdates
    );
}
