//! Request handling core: the compute part of each endpoint.  Transport,
//! JSON and status codes live outside the library; these functions take the
//! request's plain values and return the response's plain values, with every
//! rejection decided here at the codec boundary.

use vstd::prelude::*;

use crate::backend::proof_parses;
use crate::codec::{
    hex_decode_bytes, hex_decoded, hex_encoded, is_hex_seq, strip_0x, txid_hex_wf, decode_txid,
};
use crate::commitment::{commitment_hex_wf, decode_commitment, Commitment};
use crate::domain::TranscriptDomain;
use crate::errors::ZkpError;
use crate::protocol::{
    prove_txid_commitment, prove_txid_commitment_4limb, run_verify, verify_txid_commitment,
};
use vstd::string::StringSliceAdditionalSpecFns;
use vstd::utf8::encode_utf8;

verus! {

/// The wire response of the generate endpoints: each commitment and the
/// proof as lowercase hex text.
pub struct ProofResponse {
    pub commitments: Vec<String>,
    pub proof: String,
}

impl ProofResponse {
    /// Hex-encodes commitments and proof bytes for wire transfer.
    pub fn new(commitments: &Vec<Commitment>, proof_bytes: &Vec<u8>) -> (r: ProofResponse)
        ensures
            r.commitments@.len() == commitments@.len(),
            forall|i: int|
                0 <= i < commitments@.len() ==> encode_utf8(#[trigger] r.commitments@[i]@)
                    == hex_encoded(commitments@[i]@) && r.commitments@[i]@.len() == 2
                    * commitments@[i]@.len(),
            encode_utf8(r.proof@) == hex_encoded(proof_bytes@),
            r.proof@.len() == 2 * proof_bytes@.len(),
    {
        let mut texts: Vec<String> = Vec::new();
        let mut i: usize = 0;
        while i < commitments.len()
            invariant
                i <= commitments@.len(),
                texts@.len() == i,
                forall|j: int|
                    0 <= j < i ==> encode_utf8(#[trigger] texts@[j]@) == hex_encoded(
                        commitments@[j]@,
                    ) && texts@[j]@.len() == 2 * commitments@[j]@.len(),
            decreases commitments@.len() - i,
        {
            texts.push(commitments[i].to_hex());
            i += 1;
        }
        let proof = crate::codec::hex_encode_bytes(proof_bytes.as_slice());
        ProofResponse { commitments: texts, proof }
    }
}

/// Whether every commitment text decodes to exactly 32 bytes.
pub open spec fn commitment_texts_ok(texts: Seq<String>) -> bool {
    forall|i: int| 0 <= i < texts.len() ==> commitment_hex_wf(encode_utf8(#[trigger] texts[i]@))
}

/// Whether a proof hex text decodes and the bytes parse into a structurally
/// valid proof object.
pub open spec fn proof_text_ok(s: Seq<u8>) -> bool {
    is_hex_seq(s) && proof_parses(hex_decoded(s))
}

/// Decodes every commitment text; any text that does not yield exactly 32
/// bytes rejects the whole request.
pub fn decode_commitments(texts: &Vec<String>) -> (r: Result<Vec<Commitment>, ZkpError>)
    ensures
        r matches Ok(cs) ==> {
            &&& commitment_texts_ok(texts@)
            &&& cs@.len() == texts@.len()
            &&& forall|i: int| 0 <= i < cs@.len() ==> (#[trigger] cs@[i]).wf()
            &&& forall|i: int|
                0 <= i < cs@.len() ==> (#[trigger] cs@[i])@ == hex_decoded(
                    encode_utf8(texts@[i]@),
                )
        },
        r is Err <==> !commitment_texts_ok(texts@),
        r is Err ==> r == Err::<Vec<Commitment>, ZkpError>(ZkpError::CommitmentDecoding),
{
    let mut out: Vec<Commitment> = Vec::new();
    let mut i: usize = 0;
    while i < texts.len()
        invariant
            i <= texts@.len(),
            out@.len() == i,
            forall|j: int| 0 <= j < i ==> commitment_hex_wf(encode_utf8(#[trigger] texts@[j]@)),
            forall|j: int| 0 <= j < i ==> (#[trigger] out@[j]).wf(),
            forall|j: int|
                0 <= j < i ==> (#[trigger] out@[j])@ == hex_decoded(encode_utf8(texts@[j]@)),
        decreases texts@.len() - i,
    {
        let c = match decode_commitment(texts[i].as_str()) {
            Ok(c) => c,
            Err(_) => {
                return Err(ZkpError::CommitmentDecoding);
            },
        };
        out.push(c);
        i += 1;
    }
    Ok(out)
}

/// Decodes the proof hex text to bytes; hex that is not well-formed is a
/// proof decoding error.
fn decode_proof_hex(proof: &str) -> (r: Result<Vec<u8>, ZkpError>)
    ensures
        r matches Ok(b) ==> is_hex_seq(proof.spec_bytes()) && b@ == hex_decoded(
            proof.spec_bytes(),
        ),
        r is Err <==> !is_hex_seq(proof.spec_bytes()),
        r is Err ==> r == Err::<Vec<u8>, ZkpError>(ZkpError::ProofDecoding),
{
    match hex_decode_bytes(proof.as_bytes()) {
        Some(b) => Ok(b),
        None => Err(ZkpError::ProofDecoding),
    }
}

/// Generate endpoint, classic single-scalar mode: decodes the transaction
/// identifier, proves it, and hex-encodes one commitment with the proof.
/// The freshly produced pair is self-checked by the prover; its outcome is
/// not surfaced on this path.
pub fn generate_zkp(tx_hash: &str) -> (r: Result<ProofResponse, ZkpError>)
    ensures
        r == Err::<ProofResponse, ZkpError>(ZkpError::InputNotHex) <==> !is_hex_seq(
            strip_0x(tx_hash.spec_bytes()),
        ),
        r == Err::<ProofResponse, ZkpError>(ZkpError::InputTooShort) <==> (is_hex_seq(
            strip_0x(tx_hash.spec_bytes()),
        ) && hex_decoded(strip_0x(tx_hash.spec_bytes())).len() < 32),
        r is Ok <==> txid_hex_wf(tx_hash.spec_bytes()),
        r matches Ok(resp) ==> {
            &&& resp.commitments@.len() == 1
            &&& resp.commitments@[0]@.len() == 64
            &&& resp.proof@.len() >= 2
        },
        r is Err ==> (r == Err::<ProofResponse, ZkpError>(ZkpError::InputNotHex) || r == Err::<
            ProofResponse,
            ZkpError,
        >(ZkpError::InputTooShort)),
{
    let bytes = match decode_txid(tx_hash) {
        Ok(b) => b,
        Err(e) => {
            return Err(e);
        },
    };
    let scalar = crate::backend::scalar_from_bytes_mod_order(&bytes);
    let (commitment, proof_bytes, _self_checked) = match prove_txid_commitment(scalar) {
        Ok(t) => t,
        Err(e) => {
            return Err(e);
        },
    };
    let mut commitments: Vec<Commitment> = Vec::new();
    commitments.push(commitment);
    Ok(ProofResponse::new(&commitments, &proof_bytes))
}

/// Verify endpoint, classic single-scalar mode: decodes one commitment and
/// the proof, then runs the shared verification operation.
pub fn verify_zkp(commitment: &str, proof: &str) -> (r: Result<bool, ZkpError>)
    ensures
        r == Err::<bool, ZkpError>(ZkpError::CommitmentDecoding) <==> !commitment_hex_wf(
            commitment.spec_bytes(),
        ),
        commitment_hex_wf(commitment.spec_bytes()) ==> {
            &&& (r is Ok <==> proof_text_ok(proof.spec_bytes()))
            &&& (r is Err ==> r == Err::<bool, ZkpError>(ZkpError::ProofDecoding))
        },
{
    let com = match decode_commitment(commitment) {
        Ok(c) => c,
        Err(e) => {
            return Err(e);
        },
    };
    let proof_bytes = match decode_proof_hex(proof) {
        Ok(b) => b,
        Err(e) => {
            return Err(e);
        },
    };
    verify_txid_commitment(com, proof_bytes)
}

/// Generate endpoint, plus mode: decodes the transaction identifier and
/// proves its reduced scalar under the plus domain.
pub fn prove_plus_ep(tx_hash: &str) -> (r: Result<ProofResponse, ZkpError>)
    ensures
        r == Err::<ProofResponse, ZkpError>(ZkpError::InputNotHex) <==> !is_hex_seq(
            strip_0x(tx_hash.spec_bytes()),
        ),
        r == Err::<ProofResponse, ZkpError>(ZkpError::InputTooShort) <==> (is_hex_seq(
            strip_0x(tx_hash.spec_bytes()),
        ) && hex_decoded(strip_0x(tx_hash.spec_bytes())).len() < 32),
        r is Ok <==> txid_hex_wf(tx_hash.spec_bytes()),
        r matches Ok(resp) ==> {
            &&& resp.commitments@.len() == 1
            &&& resp.commitments@[0]@.len() == 64
            &&& resp.proof@.len() >= 2
        },
        r is Err ==> (r == Err::<ProofResponse, ZkpError>(ZkpError::InputNotHex) || r == Err::<
            ProofResponse,
            ZkpError,
        >(ZkpError::InputTooShort)),
{
    let bytes = match decode_txid(tx_hash) {
        Ok(b) => b,
        Err(e) => {
            return Err(e);
        },
    };
    let (commitments, proof_bytes, _self_checked) = match crate::plus::prove_txid_commitment(
        &bytes,
    ) {
        Ok(t) => t,
        Err(e) => {
            return Err(e);
        },
    };
    Ok(ProofResponse::new(&commitments, &proof_bytes))
}

/// Verify endpoint, plus mode: decodes the commitments and the proof, then
/// runs the shared verification operation under the plus domain.
pub fn verify_plus_ep(commitments: &Vec<String>, proof: &str) -> (r: Result<bool, ZkpError>)
    ensures
        r == Err::<bool, ZkpError>(ZkpError::CommitmentDecoding) <==> !commitment_texts_ok(
            commitments@,
        ),
        commitment_texts_ok(commitments@) ==> {
            &&& (r is Ok <==> proof_text_ok(proof.spec_bytes()))
            &&& (r is Err ==> r == Err::<bool, ZkpError>(ZkpError::ProofDecoding))
        },
{
    let coms = match decode_commitments(commitments) {
        Ok(c) => c,
        Err(e) => {
            return Err(e);
        },
    };
    let proof_bytes = match decode_proof_hex(proof) {
        Ok(b) => b,
        Err(e) => {
            return Err(e);
        },
    };
    crate::plus::verify_txid_commitment(&coms, &proof_bytes)
}

/// Generate endpoint, 4-limb mode: decodes the transaction identifier,
/// proves all four limbs, and fails as a backend inconsistency when the
/// internal self-check does not pass.
pub fn generate_bp4(tx_hash: &str) -> (r: Result<ProofResponse, ZkpError>)
    ensures
        r == Err::<ProofResponse, ZkpError>(ZkpError::InputNotHex) <==> !is_hex_seq(
            strip_0x(tx_hash.spec_bytes()),
        ),
        r == Err::<ProofResponse, ZkpError>(ZkpError::InputTooShort) <==> (is_hex_seq(
            strip_0x(tx_hash.spec_bytes()),
        ) && hex_decoded(strip_0x(tx_hash.spec_bytes())).len() < 32),
        txid_hex_wf(tx_hash.spec_bytes()) ==> (r is Ok || r == Err::<ProofResponse, ZkpError>(
            ZkpError::SelfCheckFailed,
        )),
        r matches Ok(resp) ==> {
            &&& txid_hex_wf(tx_hash.spec_bytes())
            &&& resp.commitments@.len() == 4
            &&& forall|i: int| 0 <= i < 4 ==> (#[trigger] resp.commitments@[i]@).len() == 64
            &&& resp.proof@.len() >= 2
        },
        r is Err ==> (r == Err::<ProofResponse, ZkpError>(ZkpError::InputNotHex) || r == Err::<
            ProofResponse,
            ZkpError,
        >(ZkpError::InputTooShort) || r == Err::<ProofResponse, ZkpError>(
            ZkpError::SelfCheckFailed,
        )),
{
    let bytes = match decode_txid(tx_hash) {
        Ok(b) => b,
        Err(e) => {
            return Err(e);
        },
    };
    let (commitments, proof_bytes, verified) = match prove_txid_commitment_4limb(
        bytes.as_slice(),
    ) {
        Ok(t) => t,
        Err(e) => {
            return Err(e);
        },
    };
    if !verified {
        return Err(ZkpError::SelfCheckFailed);
    }
    Ok(ProofResponse::new(&commitments, &proof_bytes))
}

/// Verify endpoint, 4-limb mode: decodes the commitments and the proof, then
/// runs the same shared verification operation the generate path's
/// self-check uses, so the two paths cannot drift.
pub fn verify_bp4(commitments: &Vec<String>, proof: &str) -> (r: Result<bool, ZkpError>)
    ensures
        r == Err::<bool, ZkpError>(ZkpError::CommitmentDecoding) <==> !commitment_texts_ok(
            commitments@,
        ),
        commitment_texts_ok(commitments@) ==> {
            &&& (r is Ok <==> proof_text_ok(proof.spec_bytes()))
            &&& (r is Err ==> r == Err::<bool, ZkpError>(ZkpError::ProofDecoding))
        },
{
    let coms = match decode_commitments(commitments) {
        Ok(c) => c,
        Err(e) => {
            return Err(e);
        },
    };
    let proof_bytes = match decode_proof_hex(proof) {
        Ok(b) => b,
        Err(e) => {
            return Err(e);
        },
    };
    run_verify(TranscriptDomain::ClassicFourLimb, &coms, &proof_bytes)
}

} // verus!
