//! Tests of the codec boundary and the endpoint compute functions.

use txid_zkp::codec::{decode_txid, txid_limbs};
use txid_zkp::commitment::decode_commitment;
use txid_zkp::service::{generate_bp4, generate_zkp, prove_plus_ep, verify_bp4, verify_plus_ep, verify_zkp};
use txid_zkp::ZkpError;

#[test]
fn generate_and_verify_round_trip() {
    let tx_hash = format!("0x{}", "11".repeat(32));
    let resp = generate_zkp(&tx_hash).unwrap();
    assert_eq!(resp.commitments.len(), 1);
    assert_eq!(resp.commitments[0].len(), 64);
    assert!(!resp.proof.is_empty());
    assert!(verify_zkp(&resp.commitments[0], &resp.proof).unwrap());
}

#[test]
fn short_tx_hash_rejected() {
    assert!(matches!(generate_zkp("0x1234"), Err(ZkpError::InputTooShort)));
    assert!(matches!(prove_plus_ep("0x1234"), Err(ZkpError::InputTooShort)));
    assert!(matches!(generate_bp4("0x1234"), Err(ZkpError::InputTooShort)));
}

#[test]
fn malformed_tx_hash_rejected() {
    let bad = format!("0x{}", "zz".repeat(32));
    assert!(matches!(generate_zkp(&bad), Err(ZkpError::InputNotHex)));
    assert!(matches!(prove_plus_ep(&bad), Err(ZkpError::InputNotHex)));
    let odd = format!("0x{}1", "11".repeat(32));
    assert!(matches!(generate_zkp(&odd), Err(ZkpError::InputNotHex)));
}

#[test]
fn tx_hash_prefix_is_optional_and_input_is_truncated() {
    let no_prefix = "ab".repeat(32);
    let with_prefix = format!("0x{}", no_prefix);
    assert_eq!(decode_txid(&no_prefix).unwrap(), decode_txid(&with_prefix).unwrap());

    // Trailing bytes beyond the first 32 are silently ignored.
    let longer = format!("{}ffff", no_prefix);
    assert_eq!(decode_txid(&longer).unwrap(), decode_txid(&no_prefix).unwrap());
    assert_eq!(decode_txid(&no_prefix).unwrap(), vec![0xabu8; 32]);
}

#[test]
fn uppercase_hex_accepted() {
    let upper = "AB".repeat(32);
    assert_eq!(decode_txid(&upper).unwrap(), vec![0xabu8; 32]);
}

#[test]
fn limbs_are_little_endian_byte_groups() {
    let bytes: Vec<u8> = (100u8..132).collect();
    let limbs = txid_limbs(&bytes);
    assert_eq!(limbs.len(), 4);
    for k in 0..4 {
        let expected = u64::from_le_bytes(bytes[8 * k..8 * (k + 1)].try_into().unwrap());
        assert_eq!(limbs[k], expected);
    }
}

#[test]
fn four_limb_generate_and_verify() {
    let tx_hash = "22".repeat(32);
    let resp = generate_bp4(&tx_hash).unwrap();
    assert_eq!(resp.commitments.len(), 4);
    for c in &resp.commitments {
        assert_eq!(c.len(), 64);
    }
    assert!(verify_bp4(&resp.commitments, &resp.proof).unwrap());
}

#[test]
fn plus_generate_and_verify() {
    let tx_hash = format!("0x{}", "33".repeat(32));
    let resp = prove_plus_ep(&tx_hash).unwrap();
    assert_eq!(resp.commitments.len(), 1);
    assert!(verify_plus_ep(&resp.commitments, &resp.proof).unwrap());
}

#[test]
fn bad_commitment_hex_rejected() {
    assert_eq!(verify_zkp("1234", "00"), Err(ZkpError::CommitmentDecoding));
    assert_eq!(
        verify_zkp(&"zz".repeat(32), "00"),
        Err(ZkpError::CommitmentDecoding)
    );
    let coms = vec!["1234".to_string()];
    assert_eq!(verify_bp4(&coms, "00"), Err(ZkpError::CommitmentDecoding));
    assert_eq!(verify_plus_ep(&coms, "00"), Err(ZkpError::CommitmentDecoding));
}

#[test]
fn bad_proof_hex_rejected() {
    let com = "aa".repeat(32);
    assert_eq!(verify_zkp(&com, "zz"), Err(ZkpError::ProofDecoding));
    // Well-formed hex whose bytes do not parse into a proof object is a
    // recoverable decoding error, not an abort.
    assert_eq!(verify_zkp(&com, "0000"), Err(ZkpError::ProofDecoding));
}

#[test]
fn decoding_is_pure() {
    let text = "cd".repeat(32);
    let c1 = decode_commitment(&text).unwrap();
    let c2 = decode_commitment(&text).unwrap();
    assert_eq!(c1.bytes_slice(), c2.bytes_slice());

    let tx = format!("0x{}", "ef".repeat(40));
    assert_eq!(decode_txid(&tx).unwrap(), decode_txid(&tx).unwrap());
}

#[test]
fn commitment_hex_must_be_exactly_32_bytes() {
    // 31 bytes.
    assert!(decode_commitment(&"aa".repeat(31)).is_err());
    // 33 bytes.
    assert!(decode_commitment(&"aa".repeat(33)).is_err());
    // 32 bytes.
    assert!(decode_commitment(&"aa".repeat(32)).is_ok());
}

#[test]
fn poseidon_demo_configs_have_expected_shape() {
    let hash_cfg = txid_zkp::poseidon::hash_demo_config();
    assert_eq!(hash_cfg.full_rounds, 8);
    assert_eq!(hash_cfg.partial_rounds, 57);
    assert_eq!(hash_cfg.alpha, 17);
    assert_eq!(hash_cfg.ark.len(), 65);
    assert_eq!(hash_cfg.mds, vec![vec![1u64; 3]; 3]);

    let pre_cfg = txid_zkp::poseidon::preimage_demo_config();
    assert_eq!(pre_cfg.alpha, 5);
    assert_eq!(
        pre_cfg.mds,
        vec![vec![1u64, 2, 3], vec![4, 5, 6], vec![7, 8, 9]]
    );
}
