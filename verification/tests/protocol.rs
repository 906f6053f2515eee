//! End-to-end tests of the proof protocol variants.

use curve25519_dalek_ng::scalar::Scalar;
use txid_zkp::commitment::Commitment;
use txid_zkp::protocol::{prove_txid_commitment, prove_txid_commitment_4limb, verify_txid_commitment};
use txid_zkp::ZkpError;

#[test]
fn test_valid_txid_proof() {
    let tx_id = Scalar::from(123456u64);
    let (commitment, proof_bytes, verified) = prove_txid_commitment(tx_id).unwrap();
    assert!(verified);
    assert!(verify_txid_commitment(commitment, proof_bytes).unwrap());
}

#[test]
fn test_invalid_txid_proof() {
    let tx_id = Scalar::from(123456u64);
    let (_, proof_bytes, _) = prove_txid_commitment(tx_id).unwrap();

    // Fake commitment to simulate mismatch
    let fake_commitment = bulletproofs::PedersenGens::default()
        .commit(Scalar::from(999999u64), Scalar::zero())
        .compress();
    let fake = Commitment::from_classic_point(&fake_commitment);

    let result = verify_txid_commitment(fake, proof_bytes).unwrap();
    assert!(!result);
}

#[test]
fn prove_then_verify_single_scalar() {
    let value = Scalar::from_bytes_mod_order([7u8; 32]);
    let (commitment, proof_bytes, verified) = prove_txid_commitment(value).unwrap();
    assert!(verified);
    assert!(verify_txid_commitment(commitment, proof_bytes).unwrap());
}

#[test]
fn prove_then_verify_four_limb() {
    let bytes: Vec<u8> = (0u8..32).collect();
    let (commitments, proof_bytes, verified) = prove_txid_commitment_4limb(&bytes).unwrap();
    assert_eq!(commitments.len(), 4);
    assert!(verified);
    let coms: Vec<Commitment> = commitments;
    let hexes: Vec<String> = coms.iter().map(|c| c.to_hex()).collect();
    let proof_hex = hex::encode(&proof_bytes);
    assert_eq!(txid_zkp::service::verify_bp4(&hexes, &proof_hex).unwrap(), true);
}

#[test]
fn prove_then_verify_plus() {
    let bytes = vec![9u8; 32];
    let (commitments, proof_bytes, verified) =
        txid_zkp::plus::prove_txid_commitment(&bytes).unwrap();
    assert_eq!(commitments.len(), 1);
    assert!(verified);
    assert!(txid_zkp::plus::verify_txid_commitment(&commitments, &proof_bytes).unwrap());
}

#[test]
fn bit_flip_in_proof_rejected() {
    let tx_id = Scalar::from(424242u64);
    let (commitment, mut proof_bytes, _) = prove_txid_commitment(tx_id).unwrap();
    // Flip one bit inside the first commitment point of the serialized proof.
    proof_bytes[10] ^= 0x01;
    let result = verify_txid_commitment(commitment, proof_bytes);
    assert!(!matches!(result, Ok(true)));
}

#[test]
fn proof_of_other_call_rejected() {
    let (commitment_a, _proof_a, _) = prove_txid_commitment(Scalar::from(1u64)).unwrap();
    let (_commitment_b, proof_b, _) = prove_txid_commitment(Scalar::from(2u64)).unwrap();
    let result = verify_txid_commitment(commitment_a, proof_b);
    assert!(!matches!(result, Ok(true)));
}

#[test]
fn cross_domain_proof_rejected() {
    // A proof produced under the classic single-scalar domain, submitted to
    // the plus-domain verify operation, must not be accepted.
    let (commitment, proof_bytes, _) = prove_txid_commitment(Scalar::from(5u64)).unwrap();
    let coms = vec![commitment];
    let result = txid_zkp::plus::verify_txid_commitment(&coms, &proof_bytes);
    assert!(!matches!(result, Ok(true)));

    // And the other way round: a 4-limb proof against the single-scalar path.
    let bytes = vec![3u8; 32];
    let (commitments, proof4, _) = prove_txid_commitment_4limb(&bytes).unwrap();
    let mut it = commitments.into_iter();
    let first = it.next().unwrap();
    let result = verify_txid_commitment(first, proof4);
    assert!(!matches!(result, Ok(true)));
}

#[test]
fn tautological_verification_binds_no_claimed_value() {
    // The verify operation takes only commitments and proof bytes: no claimed
    // transaction hash ever enters it.  A pair produced for one value is
    // accepted even when the caller believes the commitment was made to a
    // completely different value, so verification success must not be read
    // as equality to any particular claimed transaction hash.
    let (commitment_a, proof_a, _) = prove_txid_commitment(Scalar::from(111111u64)).unwrap();
    let (commitment_b, proof_b, _) = prove_txid_commitment(Scalar::from(222222u64)).unwrap();
    assert!(verify_txid_commitment(commitment_a, proof_a).unwrap());
    assert!(verify_txid_commitment(commitment_b, proof_b).unwrap());
}

#[test]
fn garbage_proof_bytes_are_a_recoverable_error() {
    let (commitment, _proof, _) = prove_txid_commitment(Scalar::from(8u64)).unwrap();
    let garbage = vec![0u8; 7];
    let result = verify_txid_commitment(commitment, garbage);
    assert_eq!(result, Err(ZkpError::ProofDecoding));
}

#[test]
fn demo_proofs_verify() {
    assert_eq!(txid_zkp::demos::prove_equal_42(), Ok(true));
    assert_eq!(txid_zkp::demos::prove_sum(), Ok(true));
}
