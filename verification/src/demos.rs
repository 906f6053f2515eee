//! Small end-to-end drivers of the proof backend: a proof that a committed
//! secret equals a known constant, and a proof that two committed addends
//! sum to a committed total.

use vstd::prelude::*;

use crate::backend::{
    bulletproof_gens, pedersen_gens_default, prover_commit, prover_constrain_sum,
    prover_constrain_value, prover_new, prover_prove, random_wide_bytes, scalar_from_u64,
    scalar_from_wide_bytes, transcript_with_label, verifier_commit, verifier_constrain_sum,
    verifier_constrain_value, verifier_new, verifier_verify,
};
use crate::errors::ZkpError;

verus! {

/// Commits the secret value 42 with fresh blinding, constrains the committed
/// variable to equal 42 on both the proving and the verifying side, and
/// reports whether the proof verifies.
pub fn prove_equal_42() -> (r: Result<bool, ZkpError>)
    ensures
        r is Ok,
{
    let secret_value: u64 = 42;
    let pc_gens = pedersen_gens_default();
    let bp_gens = bulletproof_gens(64, 1);

    let transcript = transcript_with_label("ZKPDemo");
    let mut prover = prover_new(&pc_gens, transcript);
    let wide = random_wide_bytes();
    let blinding = scalar_from_wide_bytes(&wide);
    let value = scalar_from_u64(secret_value);
    let (committed_value, var) = prover_commit(&mut prover, &value, &blinding);
    prover_constrain_value(&mut prover, var, &value);
    let proof = match prover_prove(prover, &bp_gens) {
        Some(p) => p,
        None => {
            return Err(ZkpError::ProofConstruction);
        },
    };

    let transcript = transcript_with_label("ZKPDemo");
    let mut verifier = verifier_new(transcript);
    let v_var = verifier_commit(&mut verifier, &committed_value);
    verifier_constrain_value(&mut verifier, v_var, &value);
    Ok(verifier_verify(verifier, &proof, &pc_gens, &bp_gens))
}

/// Commits x = 20, y = 22 and z = x + y, each with fresh blinding, constrains
/// x + y - z to zero on both sides, and reports whether the proof verifies.
pub fn prove_sum() -> (r: Result<bool, ZkpError>)
    ensures
        r is Ok,
{
    let x_val: u64 = 20;
    let y_val: u64 = 22;
    let z_val: u64 = x_val + y_val;
    let pc_gens = pedersen_gens_default();
    let bp_gens = bulletproof_gens(64, 1);

    let transcript = transcript_with_label("SumProof");
    let mut prover = prover_new(&pc_gens, transcript);

    let x_wide = random_wide_bytes();
    let x_blinding = scalar_from_wide_bytes(&x_wide);
    let x_scalar = scalar_from_u64(x_val);
    let (com_x, var_x) = prover_commit(&mut prover, &x_scalar, &x_blinding);

    let y_wide = random_wide_bytes();
    let y_blinding = scalar_from_wide_bytes(&y_wide);
    let y_scalar = scalar_from_u64(y_val);
    let (com_y, var_y) = prover_commit(&mut prover, &y_scalar, &y_blinding);

    let z_wide = random_wide_bytes();
    let z_blinding = scalar_from_wide_bytes(&z_wide);
    let z_scalar = scalar_from_u64(z_val);
    let (com_z, var_z) = prover_commit(&mut prover, &z_scalar, &z_blinding);

    prover_constrain_sum(&mut prover, var_x, var_y, var_z);
    let proof = match prover_prove(prover, &bp_gens) {
        Some(p) => p,
        None => {
            return Err(ZkpError::ProofConstruction);
        },
    };

    let transcript = transcript_with_label("SumProof");
    let mut verifier = verifier_new(transcript);
    let v_x = verifier_commit(&mut verifier, &com_x);
    let v_y = verifier_commit(&mut verifier, &com_y);
    let v_z = verifier_commit(&mut verifier, &com_z);
    verifier_constrain_sum(&mut verifier, v_x, v_y, v_z);
    Ok(verifier_verify(verifier, &proof, &pc_gens, &bp_gens))
}

} // verus!
