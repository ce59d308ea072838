use mintlayer_zk::zk::{
    decode_settlement_output, encode_settlement_output, DecodeError, ProofType,
    ZkBatchSettlementData, ZkVerificationKey, ZK_BATCH_SETTLEMENT_OUTPUT_INDEX,
};
use parity_scale_codec::Encode;

fn sample_settlement_data() -> ZkBatchSettlementData {
    ZkBatchSettlementData {
        l2_chain_id: 2705,
        batch_number: 42,
        prev_state_root: [1; 32],
        state_root: [2; 32],
        l2_to_l1_log_hash: [3; 32],
        heap_hash: [4; 32],
        protocol_version: 29,
        proof_type: ProofType::Fflonk,
        proof: vec![7; 1000],
    }
}

#[test]
fn zk_batch_settlement_data_roundtrip() {
    let data = sample_settlement_data();
    let encoded = data.encode();
    let decoded = ZkBatchSettlementData::decode_all(encoded.as_slice()).unwrap();
    assert_eq!(data, decoded);
}

#[test]
fn zk_batch_settlement_output_codec_index_is_12() {
    let data = sample_settlement_data();
    let encoded = encode_settlement_output(&data);
    // The variant tag must be exactly 12; a different value would be a
    // consensus-breaking change to the serialization format.
    assert_eq!(encoded[0], 12);
    let decoded = decode_settlement_output(encoded.as_slice()).unwrap();
    assert_eq!(data, decoded);
}

#[test]
fn invalid_proof_type_discriminant_is_rejected() {
    let data = sample_settlement_data();
    let encoded = data.encode();

    // Reconstruct the encoded prefix up to (and excluding) the proof_type discriminant
    let mut prefix = Vec::new();
    prefix.extend(data.l2_chain_id.encode());
    prefix.extend(data.batch_number.encode());
    prefix.extend(data.prev_state_root.encode());
    prefix.extend(data.state_root.encode());
    prefix.extend(data.l2_to_l1_log_hash.encode());
    prefix.extend(data.heap_hash.encode());
    prefix.extend(data.protocol_version.encode());
    let discriminant_pos = prefix.len();
    assert_eq!(&encoded[..discriminant_pos], &prefix[..]);
    assert_eq!(encoded[discriminant_pos], 0); // Fflonk discriminant

    let mut corrupted = prefix;
    corrupted.push(99); // no ProofType with discriminant 99
    corrupted.extend_from_slice(&encoded[discriminant_pos + 1..]);
    assert!(ZkBatchSettlementData::decode_all(corrupted.as_slice()).is_err());
}

#[test]
fn unknown_discriminant_names_the_byte() {
    let data = sample_settlement_data();
    let mut encoded = data.encode();
    encoded[148] = 99;
    assert_eq!(
        ZkBatchSettlementData::decode_all(encoded.as_slice()),
        Err(DecodeError::UnknownProofType(99))
    );
    encoded[148] = 2;
    assert_eq!(
        ZkBatchSettlementData::decode_all(encoded.as_slice()),
        Err(DecodeError::UnknownProofType(2))
    );
}

#[test]
fn settlement_encoding_matches_scale_fields() {
    let mut data = sample_settlement_data();
    data.proof_type = ProofType::Plonk;
    data.l2_chain_id = 0x0102_0304_0506_0708;
    data.protocol_version = 0xdead_beef;
    let mut expected = Vec::new();
    expected.extend(data.l2_chain_id.encode());
    expected.extend(data.batch_number.encode());
    expected.extend(data.prev_state_root.encode());
    expected.extend(data.state_root.encode());
    expected.extend(data.l2_to_l1_log_hash.encode());
    expected.extend(data.heap_hash.encode());
    expected.extend(data.protocol_version.encode());
    expected.push(1u8);
    expected.extend(data.proof.encode());
    let encoded = data.encode();
    assert_eq!(encoded, expected);
    assert_eq!(&encoded[0..8], &[8, 7, 6, 5, 4, 3, 2, 1]);
    assert_eq!(&encoded[144..148], &[0xef, 0xbe, 0xad, 0xde]);
    assert_eq!(encoded[148], 1);
    // 1000 = 0b11_1110_1000: two-byte compact form (1000 << 2) | 1 = 4001 = 0x0fa1
    assert_eq!(&encoded[149..151], &[0xa1, 0x0f]);
    assert_eq!(encoded.len(), 148 + 1 + 2 + 1000);
    assert_eq!(ZkBatchSettlementData::decode_all(encoded.as_slice()), Ok(data));
}

#[test]
fn settlement_with_empty_proof_roundtrips() {
    let mut data = sample_settlement_data();
    data.proof = Vec::new();
    let encoded = data.encode();
    assert_eq!(encoded.len(), 150);
    assert_eq!(encoded[149], 0);
    assert_eq!(ZkBatchSettlementData::decode_all(encoded.as_slice()), Ok(data));
}

#[test]
fn settlement_decode_reports_consumed_length() {
    let data = sample_settlement_data();
    let mut encoded = data.encode();
    let len = encoded.len();
    encoded.extend_from_slice(&[5, 6, 7]);
    let (decoded, n) = ZkBatchSettlementData::decode(encoded.as_slice()).unwrap();
    assert_eq!(decoded, data);
    assert_eq!(n, len);
    assert_eq!(
        ZkBatchSettlementData::decode_all(encoded.as_slice()),
        Err(DecodeError::TrailingBytes)
    );
}

#[test]
fn truncated_settlement_is_rejected() {
    let data = sample_settlement_data();
    let encoded = data.encode();
    assert_eq!(
        ZkBatchSettlementData::decode_all(&encoded[..100]),
        Err(DecodeError::UnexpectedEnd)
    );
    assert_eq!(
        ZkBatchSettlementData::decode_all(&encoded[..148]),
        Err(DecodeError::UnexpectedEnd)
    );
    assert_eq!(
        ZkBatchSettlementData::decode_all(&encoded[..149]),
        Err(DecodeError::BadLengthPrefix)
    );
    assert_eq!(
        ZkBatchSettlementData::decode_all(&encoded[..150]),
        Err(DecodeError::BadLengthPrefix)
    );
    assert_eq!(
        ZkBatchSettlementData::decode_all(&encoded[..encoded.len() - 1]),
        Err(DecodeError::UnexpectedEnd)
    );
}

#[test]
fn non_canonical_length_prefix_is_rejected() {
    let data = sample_settlement_data();
    let encoded = data.encode();
    // Proof length 5 written in the two-byte form instead of one byte.
    let mut bytes = encoded[..149].to_vec();
    bytes.extend_from_slice(&[(5 << 2) | 1, 0]);
    bytes.extend_from_slice(&[9; 5]);
    assert_eq!(
        ZkBatchSettlementData::decode_all(bytes.as_slice()),
        Err(DecodeError::BadLengthPrefix)
    );
    // The same length in its shortest form decodes.
    let mut bytes = encoded[..149].to_vec();
    bytes.push(5 << 2);
    bytes.extend_from_slice(&[9; 5]);
    let decoded = ZkBatchSettlementData::decode_all(bytes.as_slice()).unwrap();
    assert_eq!(decoded.proof, vec![9; 5]);
}

#[test]
fn settlement_output_of_other_variant_is_refused() {
    let data = sample_settlement_data();
    let mut encoded = encode_settlement_output(&data);
    assert_eq!(ZK_BATCH_SETTLEMENT_OUTPUT_INDEX, 12);
    encoded[0] = 11;
    assert_eq!(
        decode_settlement_output(encoded.as_slice()),
        Err(DecodeError::OtherOutputVariant(11))
    );
    assert_eq!(decode_settlement_output(&[]), Err(DecodeError::UnexpectedEnd));
}

#[test]
fn proof_type_codec() {
    assert_eq!(ProofType::Fflonk.codec_index(), 0);
    assert_eq!(ProofType::Plonk.codec_index(), 1);
    assert_eq!(ProofType::from_codec_index(0), Some(ProofType::Fflonk));
    assert_eq!(ProofType::from_codec_index(1), Some(ProofType::Plonk));
    assert_eq!(ProofType::from_codec_index(2), None);
    assert_eq!(ProofType::Plonk.encode(), vec![1]);
    assert_eq!(ProofType::decode_all(&[0]), Ok(ProofType::Fflonk));
    assert_eq!(ProofType::decode_all(&[1]), Ok(ProofType::Plonk));
    assert_eq!(ProofType::decode_all(&[7]), Err(DecodeError::UnknownProofType(7)));
    assert_eq!(ProofType::decode_all(&[]), Err(DecodeError::UnexpectedEnd));
    assert_eq!(ProofType::decode_all(&[1, 0]), Err(DecodeError::TrailingBytes));
    assert!(ProofType::Fflonk < ProofType::Plonk);
}

#[test]
fn verification_key_bytes() {
    let vk = ZkVerificationKey::new(vec![1, 2, 3]);
    assert_eq!(vk.as_bytes(), &[1, 2, 3]);
    assert_eq!(vk.clone().into_bytes(), vec![1, 2, 3]);
    assert_eq!(vk.encode(), vec![12, 1, 2, 3]);
    assert_eq!(vk.encode(), vec![1u8, 2, 3].encode());
    assert_eq!(ZkVerificationKey::decode_all(&[12, 1, 2, 3]), Ok(vk));
    assert_eq!(
        ZkVerificationKey::decode_all(&[12, 1, 2]),
        Err(DecodeError::UnexpectedEnd)
    );
    assert_eq!(
        ZkVerificationKey::decode_all(&[12, 1, 2, 3, 4]),
        Err(DecodeError::TrailingBytes)
    );
    assert_eq!(ZkVerificationKey::decode_all(&[]), Err(DecodeError::BadLengthPrefix));
}

#[test]
fn verification_key_compact_length_forms() {
    for len in [0usize, 63, 64, 16383, 16384, 70000] {
        let bytes = vec![0xab; len];
        let vk = ZkVerificationKey::new(bytes.clone());
        let encoded = vk.encode();
        assert_eq!(encoded, bytes.encode());
        let back = ZkVerificationKey::decode_all(encoded.as_slice()).unwrap();
        assert_eq!(back.into_bytes(), bytes);
    }
    // 64 in the one-byte form cannot be written; in the four-byte form it is refused.
    // (64 << 2) | 2 = 0x102, little-endian over four bytes
    let mut four = vec![2u8, 1, 0, 0];
    four.extend_from_slice(&[0; 64]);
    assert_eq!(
        ZkVerificationKey::decode_all(four.as_slice()),
        Err(DecodeError::BadLengthPrefix)
    );
    // A big-integer prefix with extra length bits is out of range for a length.
    assert_eq!(
        ZkVerificationKey::decode_all(&[0b0000_0111, 0, 0, 0, 0x40, 0]),
        Err(DecodeError::BadLengthPrefix)
    );
}
