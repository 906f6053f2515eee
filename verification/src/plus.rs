//! The "plus" variant: the same protocol shape as the classic single-scalar
//! mode, under its own transcript domain.  Commitments reach this module as
//! normalized raw bytes, whatever curve library produced them.

use vstd::prelude::*;

use crate::backend::{proof_parses, scalar_from_bytes_mod_order};
use crate::commitment::Commitment;
use crate::domain::TranscriptDomain;
use crate::errors::ZkpError;
use crate::protocol::{run_prove, run_verify};

verus! {

/// Proves knowledge of an opening for the reduced scalar of a 32-byte
/// transaction identifier under the plus domain, self-verifying the result
/// through the shared verification operation.
pub fn prove_txid_commitment(txid_bytes: &Vec<u8>) -> (r: Result<
    (Vec<Commitment>, Vec<u8>, bool),
    ZkpError,
>)
    requires
        txid_bytes@.len() == 32,
    ensures
        r is Ok,
        r matches Ok(t) ==> {
            &&& t.0@.len() == 1
            &&& forall|i: int| 0 <= i < t.0@.len() ==> (#[trigger] t.0@[i]).wf()
            &&& t.1@.len() >= 1
            &&& proof_parses(t.1@)
        },
{
    let scalar = scalar_from_bytes_mod_order(txid_bytes);
    let mut values: Vec<curve25519_dalek_ng::scalar::Scalar> = Vec::new();
    values.push(scalar);
    let (commitments, proof_bytes) = match run_prove(TranscriptDomain::Plus, &values) {
        Ok(t) => t,
        Err(e) => {
            return Err(e);
        },
    };
    let verified = match run_verify(TranscriptDomain::Plus, &commitments, &proof_bytes) {
        Ok(b) => b,
        Err(_) => false,
    };
    Ok((commitments, proof_bytes, verified))
}

/// Verifies a proof of knowledge of an opening for the supplied commitments
/// under the plus domain; `false` on any cryptographic mismatch.
pub fn verify_txid_commitment(commitments: &Vec<Commitment>, proof_bytes: &Vec<u8>) -> (r: Result<
    bool,
    ZkpError,
>)
    requires
        forall|i: int| 0 <= i < commitments@.len() ==> (#[trigger] commitments@[i]).wf(),
    ensures
        r is Ok <==> proof_parses(proof_bytes@),
        r is Err ==> r == Err::<bool, ZkpError>(ZkpError::ProofDecoding),
{
    run_verify(TranscriptDomain::Plus, commitments, proof_bytes)
}

} // verus!
