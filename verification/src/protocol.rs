//! Proof protocol: committing values with fresh blinding into a single
//! constraint system, proving, and the one shared verification operation
//! used by every variant and by the provers' self-checks.

use vstd::prelude::*;

use crate::backend::{
    bulletproof_gens, pedersen_gens_default, proof_from_bytes, proof_parses, proof_to_bytes,
    prover_commit, prover_constrain_tautology, prover_new, prover_prove, random_wide_bytes,
    scalar_from_bytes_mod_order, scalar_from_wide_bytes, transcript_with_label, verifier_commit,
    verifier_constrain_tautology, verifier_new, verifier_verify,
};
use crate::codec::{decode_txid, strip_0x, is_hex_seq, hex_decoded, txid_hex_wf, txid_limbs};
use crate::commitment::Commitment;
use crate::domain::TranscriptDomain;
use crate::errors::ZkpError;
use vstd::string::StringSliceAdditionalSpecFns;

verus! {

/// Commits each value with a fresh blinding factor, registers one constraint
/// per committed variable, and proves the whole constraint system under the
/// domain's label.  The constraint is the same tautology the verification
/// side registers: the backend accepts a proof only when the two sides'
/// constraint weights agree, and the verifier, holding no public target
/// value, can fold in nothing stronger.
pub fn run_prove(
    domain: TranscriptDomain,
    values: &Vec<curve25519_dalek_ng::scalar::Scalar>,
) -> (r: Result<(Vec<Commitment>, Vec<u8>), ZkpError>)
    ensures
        r is Ok,
        r matches Ok((coms, proof)) ==> {
            &&& coms@.len() == values@.len()
            &&& forall|i: int| 0 <= i < coms@.len() ==> (#[trigger] coms@[i]).wf()
            &&& proof@.len() >= 1
            &&& proof_parses(proof@)
        },
{
    let pc_gens = pedersen_gens_default();
    let bp_gens = bulletproof_gens(domain.bit_width(), domain.parties());
    let transcript = transcript_with_label(domain.label());
    let mut prover = prover_new(&pc_gens, transcript);
    let mut commitments: Vec<Commitment> = Vec::new();
    let mut i: usize = 0;
    while i < values.len()
        invariant
            i <= values@.len(),
            commitments@.len() == i,
            forall|j: int| 0 <= j < commitments@.len() ==> (#[trigger] commitments@[j]).wf(),
        decreases values@.len() - i,
    {
        let wide = random_wide_bytes();
        let blinding = scalar_from_wide_bytes(&wide);
        let (com, var) = prover_commit(&mut prover, &values[i], &blinding);
        prover_constrain_tautology(&mut prover, var);
        commitments.push(com);
        i += 1;
    }
    let proof = match prover_prove(prover, &bp_gens) {
        Some(p) => p,
        None => {
            return Err(ZkpError::ProofConstruction);
        },
    };
    let proof_bytes = proof_to_bytes(&proof);
    Ok((commitments, proof_bytes))
}

/// The one shared verification operation.  It re-commits each supplied
/// commitment into a fresh constraint system under the same domain and
/// generator parameters, registers the tautological constraint "variable
/// minus itself equals zero" per variable, and checks the proof.  It checks
/// only that the proof is a structurally valid proof of knowledge of an
/// opening for exactly these commitments under this domain; no externally
/// claimed value is bound.
pub fn run_verify(
    domain: TranscriptDomain,
    commitments: &Vec<Commitment>,
    proof_bytes: &Vec<u8>,
) -> (r: Result<bool, ZkpError>)
    requires
        forall|i: int| 0 <= i < commitments@.len() ==> (#[trigger] commitments@[i]).wf(),
    ensures
        r is Ok <==> proof_parses(proof_bytes@),
        r is Err ==> r == Err::<bool, ZkpError>(ZkpError::ProofDecoding),
{
    let pc_gens = pedersen_gens_default();
    let bp_gens = bulletproof_gens(domain.bit_width(), domain.parties());
    let transcript = transcript_with_label(domain.label());
    let mut verifier = verifier_new(transcript);
    let mut i: usize = 0;
    while i < commitments.len()
        invariant
            i <= commitments@.len(),
            forall|j: int| 0 <= j < commitments@.len() ==> (#[trigger] commitments@[j]).wf(),
        decreases commitments@.len() - i,
    {
        let var = verifier_commit(&mut verifier, &commitments[i]);
        verifier_constrain_tautology(&mut verifier, var);
        i += 1;
    }
    let proof = match proof_from_bytes(proof_bytes) {
        Some(p) => p,
        None => {
            return Err(ZkpError::ProofDecoding);
        },
    };
    Ok(verifier_verify(verifier, &proof, &pc_gens, &bp_gens))
}

/// Proves knowledge of an opening of a Pedersen commitment to the given
/// scalar under the classic single-scalar domain, then self-verifies the
/// freshly produced pair through the shared verification operation.
pub fn prove_txid_commitment(tx_id: curve25519_dalek_ng::scalar::Scalar) -> (r: Result<
    (Commitment, Vec<u8>, bool),
    ZkpError,
>)
    ensures
        r is Ok,
        r matches Ok(t) ==> t.0.wf() && t.1@.len() >= 1 && proof_parses(t.1@),
{
    let mut values: Vec<curve25519_dalek_ng::scalar::Scalar> = Vec::new();
    values.push(tx_id);
    let (mut commitments, proof_bytes) = match run_prove(
        TranscriptDomain::ClassicSingle,
        &values,
    ) {
        Ok(t) => t,
        Err(e) => {
            return Err(e);
        },
    };
    let verified = match run_verify(TranscriptDomain::ClassicSingle, &commitments, &proof_bytes) {
        Ok(b) => b,
        Err(_) => false,
    };
    let commitment = commitments.remove(0);
    Ok((commitment, proof_bytes, verified))
}

/// Convenience form: decodes a hex transaction identifier (optional `0x`
/// prefix, first 32 bytes significant), reduces it to a scalar, and proves it.
pub fn prove_txid_commitment_from_hex(txid_hex: &str) -> (r: Result<
    (Commitment, Vec<u8>, bool),
    ZkpError,
>)
    ensures
        r is Ok <==> txid_hex_wf(txid_hex.spec_bytes()),
        r matches Ok(t) ==> t.0.wf() && t.1@.len() >= 1 && proof_parses(t.1@),
        r == Err::<(Commitment, Vec<u8>, bool), ZkpError>(ZkpError::InputNotHex) <==> !is_hex_seq(
            strip_0x(txid_hex.spec_bytes()),
        ),
        r == Err::<(Commitment, Vec<u8>, bool), ZkpError>(ZkpError::InputTooShort) <==> (
        is_hex_seq(strip_0x(txid_hex.spec_bytes())) && hex_decoded(
            strip_0x(txid_hex.spec_bytes()),
        ).len() < 32),
        r is Err ==> (r == Err::<(Commitment, Vec<u8>, bool), ZkpError>(ZkpError::InputNotHex)
            || r == Err::<(Commitment, Vec<u8>, bool), ZkpError>(ZkpError::InputTooShort)),
{
    let bytes = match decode_txid(txid_hex) {
        Ok(b) => b,
        Err(e) => {
            return Err(e);
        },
    };
    let scalar = scalar_from_bytes_mod_order(&bytes);
    prove_txid_commitment(scalar)
}

/// Proves knowledge of a 256-bit transaction identifier: each of its four
/// little-endian 64-bit limbs is committed with fresh blinding under the
/// 4-limb domain, one proof covers all four, and the result is self-verified
/// through the shared verification operation.
pub fn prove_txid_commitment_4limb(txid_bytes: &[u8]) -> (r: Result<
    (Vec<Commitment>, Vec<u8>, bool),
    ZkpError,
>)
    requires
        txid_bytes@.len() == 32,
    ensures
        r is Ok,
        r matches Ok(t) ==> {
            &&& t.0@.len() == 4
            &&& forall|i: int| 0 <= i < t.0@.len() ==> (#[trigger] t.0@[i]).wf()
            &&& t.1@.len() >= 1
            &&& proof_parses(t.1@)
        },
{
    let limbs = txid_limbs(txid_bytes);
    let mut values: Vec<curve25519_dalek_ng::scalar::Scalar> = Vec::new();
    let mut i: usize = 0;
    while i < limbs.len()
        invariant
            i <= limbs@.len(),
            values@.len() == i,
        decreases limbs@.len() - i,
    {
        values.push(crate::backend::scalar_from_u64(limbs[i]));
        i += 1;
    }
    let (commitments, proof_bytes) = match run_prove(TranscriptDomain::ClassicFourLimb, &values) {
        Ok(t) => t,
        Err(e) => {
            return Err(e);
        },
    };
    let verified = match run_verify(TranscriptDomain::ClassicFourLimb, &commitments, &proof_bytes) {
        Ok(b) => b,
        Err(_) => false,
    };
    Ok((commitments, proof_bytes, verified))
}

/// Verifies a proof of knowledge of an opening for one commitment under the
/// classic single-scalar domain.  Cryptographic mismatch is not an error:
/// the result is `false` on any mismatch.
pub fn verify_txid_commitment(commitment: Commitment, proof_bytes: Vec<u8>) -> (r: Result<
    bool,
    ZkpError,
>)
    requires
        commitment.wf(),
    ensures
        r is Ok <==> proof_parses(proof_bytes@),
        r is Err ==> r == Err::<bool, ZkpError>(ZkpError::ProofDecoding),
{
    let mut commitments: Vec<Commitment> = Vec::new();
    commitments.push(commitment);
    run_verify(TranscriptDomain::ClassicSingle, &commitments, &proof_bytes)
}

} // verus!
