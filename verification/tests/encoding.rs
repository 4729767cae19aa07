use batch_commit::batch::{
    pre_boojum_serialize_commitments, serialize_commitments, L1BatchHeader, L1BatchMetadata,
    L1BatchWithMetadata, L2ToL1Log,
};
use batch_commit::chunking::{chunk_pubdata, ZK_SYNC_BYTES_PER_BLOB};
use batch_commit::encoder::{
    CommitBatchInfo, PubdataDa, TokenizeError, PUBDATA_SOURCE_BLOBS, PUBDATA_SOURCE_CALLDATA,
};
use batch_commit::tokens::{FieldValue, TupleToken};
use batch_commit::version::ProtocolVersionId;

fn sample_log() -> L2ToL1Log {
    L2ToL1Log {
        shard_id: 0,
        is_service: true,
        tx_number_in_block: 0x0102,
        sender: [0x11; 20],
        key: [0x22; 32],
        value: [0x33; 32],
    }
}

fn sample_batch(version: Option<u16>) -> L1BatchWithMetadata {
    L1BatchWithMetadata {
        header: L1BatchHeader {
            number: 7,
            timestamp: 1_700_000_000,
            l1_tx_count: 3,
            priority_ops_onchain_data_hash: [0xAA; 32],
            l2_to_l1_logs: vec![sample_log()],
            system_logs: vec![sample_log(), sample_log()],
            l2_to_l1_messages: vec![vec![0x61, 0x62], vec![0x63]],
            pubdata_input: None,
            protocol_version: version.map(ProtocolVersionId),
        },
        metadata: L1BatchMetadata {
            rollup_last_leaf_index: 42,
            merkle_root_hash: [0x01; 32],
            l2_l1_merkle_root: [0x02; 32],
            initial_writes_compressed: Some(vec![0xC1, 0xC2]),
            repeated_writes_compressed: Some(vec![0xD1]),
            bootloader_initial_content_commitment: Some([0x03; 32]),
            events_queue_commitment: Some([0x04; 32]),
            state_diffs_compressed: vec![0xEE, 0xFF],
        },
        raw_published_factory_deps: vec![vec![0x10, 0x20, 0x30]],
    }
}

fn log_wire_bytes(log: &L2ToL1Log) -> Vec<u8> {
    let mut expected = vec![log.shard_id, u8::from(log.is_service)];
    expected.extend_from_slice(&log.tx_number_in_block.to_be_bytes());
    expected.extend_from_slice(&log.sender);
    expected.extend_from_slice(&log.key);
    expected.extend_from_slice(&log.value);
    expected
}

#[test]
fn version_classifier_boundaries() {
    assert!(ProtocolVersionId(0).is_pre_boojum());
    assert!(ProtocolVersionId(17).is_pre_boojum());
    assert!(!ProtocolVersionId(18).is_pre_boojum());
    assert!(ProtocolVersionId(18).is_pre_1_4_2());
    assert!(ProtocolVersionId(20).is_pre_1_4_2());
    assert!(!ProtocolVersionId(21).is_pre_1_4_2());
    assert!(!ProtocolVersionId(25).is_pre_1_4_2());
    // Every pre-boojum version is also pre-1.4.2.
    for v in 0..18u16 {
        assert!(ProtocolVersionId(v).is_pre_1_4_2());
    }
}

#[test]
fn log_serialization_is_byte_exact() {
    let log = sample_log();
    let bytes = serialize_commitments(&vec![log]);
    assert_eq!(bytes.len(), 88);
    assert_eq!(bytes, log_wire_bytes(&log));
}

#[test]
fn legacy_log_serialization_prefixes_the_count() {
    let log = sample_log();
    let bytes = pre_boojum_serialize_commitments(&vec![log, log]);
    assert_eq!(bytes.len(), 4 + 2 * 88);
    assert_eq!(&bytes[0..4], &[0, 0, 0, 2]);
    assert_eq!(&bytes[4..92], log_wire_bytes(&log).as_slice());
    assert_eq!(&bytes[92..180], log_wire_bytes(&log).as_slice());
}

#[test]
fn constructed_pubdata_is_byte_exact() {
    let batch = sample_batch(Some(21));
    let pubdata = batch.construct_pubdata();
    let mut expected: Vec<u8> = Vec::new();
    expected.extend_from_slice(&[0, 0, 0, 1]);
    expected.extend_from_slice(&log_wire_bytes(&sample_log()));
    expected.extend_from_slice(&[0, 0, 0, 2]);
    expected.extend_from_slice(&[0, 0, 0, 2, 0x61, 0x62]);
    expected.extend_from_slice(&[0, 0, 0, 1, 0x63]);
    expected.extend_from_slice(&[0, 0, 0, 1]);
    expected.extend_from_slice(&[0, 0, 0, 3, 0x10, 0x20, 0x30]);
    expected.extend_from_slice(&[0xEE, 0xFF]);
    assert_eq!(pubdata, expected);
}

#[test]
fn precomputed_pubdata_is_used_verbatim() {
    let mut batch = sample_batch(Some(21));
    batch.header.pubdata_input = Some(vec![0x99, 0x98, 0x97]);
    assert_eq!(batch.pubdata(), vec![0x99, 0x98, 0x97]);
}

#[test]
fn pre_boojum_tuple_has_twelve_fields_and_ignores_da_mode() {
    let batch = sample_batch(Some(17));
    let no_artifacts: Vec<Vec<u8>> = Vec::new();
    let calldata = CommitBatchInfo::new(&batch, PubdataDa::Calldata).into_token(&no_artifacts);
    let blobs = CommitBatchInfo::new(&batch, PubdataDa::Blobs).into_token(&no_artifacts);
    assert_eq!(calldata.fields.len(), 12);
    assert_eq!(calldata, blobs);
}

#[test]
fn pre_boojum_arrays_keep_count_and_order() {
    // Two L2-to-L1 messages and one factory dependency.
    let batch = sample_batch(Some(0));
    let no_artifacts: Vec<Vec<u8>> = Vec::new();
    let tuple = CommitBatchInfo::new(&batch, PubdataDa::Calldata).into_token(&no_artifacts);
    match &tuple.fields[10] {
        FieldValue::BytesArray(messages) => {
            assert_eq!(messages.len(), 2);
            assert_eq!(messages[0], vec![0x61, 0x62]);
            assert_eq!(messages[1], vec![0x63]);
        }
        other => panic!("expected a byte-string array, got {other:?}"),
    }
    match &tuple.fields[11] {
        FieldValue::BytesArray(bytecodes) => {
            assert_eq!(bytecodes.len(), 1);
            assert_eq!(bytecodes[0], vec![0x10, 0x20, 0x30]);
        }
        other => panic!("expected a byte-string array, got {other:?}"),
    }
}

#[test]
fn pre_boojum_fields_are_exact() {
    let batch = sample_batch(Some(17));
    let no_artifacts: Vec<Vec<u8>> = Vec::new();
    let tuple = CommitBatchInfo::new(&batch, PubdataDa::Calldata).into_token(&no_artifacts);
    assert_eq!(tuple.fields[0], FieldValue::Uint(7));
    assert_eq!(tuple.fields[1], FieldValue::Uint(1_700_000_000));
    assert_eq!(tuple.fields[2], FieldValue::Uint(42));
    assert_eq!(tuple.fields[3], FieldValue::FixedBytes(vec![0x01; 32]));
    assert_eq!(tuple.fields[4], FieldValue::Uint(3));
    assert_eq!(tuple.fields[5], FieldValue::FixedBytes(vec![0x02; 32]));
    assert_eq!(tuple.fields[6], FieldValue::FixedBytes(vec![0xAA; 32]));
    assert_eq!(tuple.fields[7], FieldValue::Bytes(vec![0xC1, 0xC2]));
    assert_eq!(tuple.fields[8], FieldValue::Bytes(vec![0xD1]));
    assert_eq!(
        tuple.fields[9],
        FieldValue::Bytes(pre_boojum_serialize_commitments(&vec![sample_log()]))
    );
}

#[test]
fn boojum_pre_1_4_2_tuple_appends_raw_pubdata() {
    let mut batch = sample_batch(Some(18));
    batch.header.pubdata_input = Some(vec![0x55, 0x56, 0x57]);
    let no_artifacts: Vec<Vec<u8>> = Vec::new();
    let tuple = CommitBatchInfo::new(&batch, PubdataDa::Calldata).into_token(&no_artifacts);
    assert_eq!(tuple.fields.len(), 10);
    // The base fields of the unified layout.
    assert_eq!(tuple.fields[0], FieldValue::Uint(7));
    assert_eq!(tuple.fields[5], FieldValue::FixedBytes(vec![0xAA; 32]));
    assert_eq!(tuple.fields[6], FieldValue::FixedBytes(vec![0x03; 32]));
    assert_eq!(tuple.fields[7], FieldValue::FixedBytes(vec![0x04; 32]));
    assert_eq!(
        tuple.fields[8],
        FieldValue::Bytes(serialize_commitments(&vec![sample_log(), sample_log()]))
    );
    // The raw pubdata, with no leading mode byte.
    assert_eq!(tuple.fields[9], FieldValue::Bytes(vec![0x55, 0x56, 0x57]));
    // The DA mode is not consulted below the 1.4.2 boundary.
    let blobs = CommitBatchInfo::new(&batch, PubdataDa::Blobs).into_token(&no_artifacts);
    assert_eq!(tuple, blobs);
}

#[test]
fn no_commitment_payloads_below_1_4_2() {
    let batch = sample_batch(Some(20));
    let info = CommitBatchInfo::new(&batch, PubdataDa::Blobs);
    assert!(info.commitment_payloads().is_empty());
}

#[test]
fn calldata_payload_is_the_whole_pubdata() {
    let mut batch = sample_batch(Some(21));
    batch.header.pubdata_input = Some(vec![0x55, 0x56, 0x57]);
    let info = CommitBatchInfo::new(&batch, PubdataDa::Calldata);
    let payloads = info.commitment_payloads();
    assert_eq!(payloads, vec![vec![0x55, 0x56, 0x57]]);
}

#[test]
fn calldata_last_field_is_tag_pubdata_commitment() {
    let mut batch = sample_batch(Some(21));
    batch.header.pubdata_input = Some(vec![0x55, 0x56, 0x57]);
    let artifact = vec![0xB0, 0xB1, 0xB2, 0xB3];
    let artifacts = vec![artifact.clone()];
    let tuple = CommitBatchInfo::new(&batch, PubdataDa::Calldata).into_token(&artifacts);
    assert_eq!(tuple.fields.len(), 10);
    let mut expected = vec![PUBDATA_SOURCE_CALLDATA, 0x55, 0x56, 0x57];
    expected.extend_from_slice(&artifact);
    assert_eq!(tuple.fields[9], FieldValue::Bytes(expected));
}

#[test]
fn blobs_chunking_splits_at_canonical_blob_size() {
    // Pubdata of two and a half canonical blobs.
    let len = 2 * ZK_SYNC_BYTES_PER_BLOB + ZK_SYNC_BYTES_PER_BLOB / 2;
    let pubdata: Vec<u8> = (0..len).map(|i| (i % 251) as u8).collect();
    let chunks = chunk_pubdata(&pubdata);
    assert_eq!(chunks.len(), 3);
    assert_eq!(chunks[0].len(), ZK_SYNC_BYTES_PER_BLOB);
    assert_eq!(chunks[1].len(), ZK_SYNC_BYTES_PER_BLOB);
    assert_eq!(chunks[2].len(), ZK_SYNC_BYTES_PER_BLOB / 2);
    assert_eq!(chunks[0], pubdata[..ZK_SYNC_BYTES_PER_BLOB].to_vec());
    assert_eq!(
        chunks[1],
        pubdata[ZK_SYNC_BYTES_PER_BLOB..2 * ZK_SYNC_BYTES_PER_BLOB].to_vec()
    );
    assert_eq!(chunks[2], pubdata[2 * ZK_SYNC_BYTES_PER_BLOB..].to_vec());
}

#[test]
fn blobs_last_field_concatenates_artifacts_in_chunk_order() {
    let len = 2 * ZK_SYNC_BYTES_PER_BLOB + ZK_SYNC_BYTES_PER_BLOB / 2;
    let mut batch = sample_batch(Some(21));
    batch.header.pubdata_input = Some((0..len).map(|i| (i % 251) as u8).collect());
    let info = CommitBatchInfo::new(&batch, PubdataDa::Blobs);
    let payloads = info.commitment_payloads();
    assert_eq!(payloads.len(), 3);
    let artifacts = vec![vec![0xA0, 0xA1], vec![0xA2], vec![0xA3, 0xA4, 0xA5]];
    let tuple = CommitBatchInfo::new(&batch, PubdataDa::Blobs).into_token(&artifacts);
    assert_eq!(tuple.fields.len(), 10);
    assert_eq!(
        tuple.fields[9],
        FieldValue::Bytes(vec![
            PUBDATA_SOURCE_BLOBS,
            0xA0,
            0xA1,
            0xA2,
            0xA3,
            0xA4,
            0xA5
        ])
    );
}

#[test]
fn blobs_empty_pubdata_yields_no_chunks_and_a_bare_tag() {
    let mut batch = sample_batch(Some(21));
    batch.header.pubdata_input = Some(Vec::new());
    let info = CommitBatchInfo::new(&batch, PubdataDa::Blobs);
    assert!(info.commitment_payloads().is_empty());
    let no_artifacts: Vec<Vec<u8>> = Vec::new();
    let tuple = CommitBatchInfo::new(&batch, PubdataDa::Blobs).into_token(&no_artifacts);
    assert_eq!(tuple.fields[9], FieldValue::Bytes(vec![PUBDATA_SOURCE_BLOBS]));
}

#[test]
fn reconstructed_pubdata_feeds_the_da_field() {
    // No precomputed pubdata: the payload is rebuilt from the header.
    let batch = sample_batch(Some(19));
    let no_artifacts: Vec<Vec<u8>> = Vec::new();
    let tuple = CommitBatchInfo::new(&batch, PubdataDa::Calldata).into_token(&no_artifacts);
    assert_eq!(
        tuple.fields[9],
        FieldValue::Bytes(batch.construct_pubdata())
    );
}

#[test]
fn missing_version_falls_back_to_the_documented_default() {
    // The fallback version lies at or above the 1.4.2 boundary, so the DA
    // field carries the mode tag.
    let mut batch = sample_batch(None);
    batch.header.pubdata_input = Some(vec![0x42]);
    let artifacts = vec![vec![0xB7]];
    let tuple = CommitBatchInfo::new(&batch, PubdataDa::Calldata).into_token(&artifacts);
    assert_eq!(tuple.fields.len(), 10);
    assert_eq!(
        tuple.fields[9],
        FieldValue::Bytes(vec![PUBDATA_SOURCE_CALLDATA, 0x42, 0xB7])
    );
}

#[test]
fn decoding_always_fails_with_the_unsupported_direction_error() {
    let empty = TupleToken { fields: Vec::new() };
    assert!(matches!(
        CommitBatchInfo::from_token(empty),
        Err(TokenizeError::DecodingNotSupported)
    ));
    let nonempty = TupleToken {
        fields: vec![FieldValue::Uint(1), FieldValue::Bytes(vec![2, 3])],
    };
    assert!(matches!(
        CommitBatchInfo::from_token(nonempty),
        Err(TokenizeError::DecodingNotSupported)
    ));
}

#[test]
fn encoding_twice_is_byte_identical() {
    let mut batch = sample_batch(Some(21));
    batch.header.pubdata_input = Some(vec![0x10, 0x11, 0x12]);
    let artifacts = vec![vec![0xB0, 0xB1]];
    let first = CommitBatchInfo::new(&batch, PubdataDa::Calldata).into_token(&artifacts);
    let second = CommitBatchInfo::new(&batch, PubdataDa::Calldata).into_token(&artifacts);
    assert_eq!(first, second);
    // The same holds for a batch whose pubdata is reconstructed on demand.
    let reconstructed = sample_batch(Some(19));
    let no_artifacts: Vec<Vec<u8>> = Vec::new();
    let third = CommitBatchInfo::new(&reconstructed, PubdataDa::Blobs).into_token(&no_artifacts);
    let fourth = CommitBatchInfo::new(&reconstructed, PubdataDa::Blobs).into_token(&no_artifacts);
    assert_eq!(third, fourth);
}
