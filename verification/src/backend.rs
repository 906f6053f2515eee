//! Proof backend adapter: declarations of the outside proof-system types and
//! the trusted wrappers through which the protocol drives them.

use vstd::prelude::*;

use bulletproofs::r1cs::ConstraintSystem;

use crate::commitment::Commitment;

verus! {

#[verifier::external_type_specification]
#[verifier::external_body]
pub struct ExScalar(curve25519_dalek_ng::scalar::Scalar);

#[verifier::external_type_specification]
#[verifier::external_body]
pub struct ExClassicPoint(curve25519_dalek_ng::ristretto::CompressedRistretto);

#[verifier::external_type_specification]
#[verifier::external_body]
pub struct ExTranscript(merlin::Transcript);

#[verifier::external_type_specification]
#[verifier::external_body]
pub struct ExPedersenGens(bulletproofs::PedersenGens);

#[verifier::external_type_specification]
#[verifier::external_body]
pub struct ExBulletproofGens(bulletproofs::BulletproofGens);

#[verifier::external_type_specification]
#[verifier::external_body]
pub struct ExVariable(bulletproofs::r1cs::Variable);

#[verifier::external_type_specification]
#[verifier::external_body]
pub struct ExR1CSProof(bulletproofs::r1cs::R1CSProof);

/// A proving session: the outside prover over its transcript.  The prover's
/// type cannot be declared to the verifier (its generic parameter carries a
/// borrowing bound Verus refuses), so it is held opaque in a private field.
#[verifier::external_body]
pub struct ProverSession<'g> {
    inner: bulletproofs::r1cs::Prover<'g, merlin::Transcript>,
}

/// A verification session: the outside verifier over its transcript, held
/// opaque for the same reason as the proving session.
#[verifier::external_body]
pub struct VerifierSession {
    inner: bulletproofs::r1cs::Verifier<merlin::Transcript>,
}

/// Whether `bytes` parse into a structurally valid proof object; names the
/// outcome of R1CSProof::from_bytes, which depends on the bytes alone.
pub uninterp spec fn proof_parses(bytes: Seq<u8>) -> bool;

/// The per-party generator capacity a set of bulletproof generators was made
/// with: the first argument of BulletproofGens::new.
pub uninterp spec fn gens_capacity(gens: bulletproofs::BulletproofGens) -> usize;

/// The party capacity a set of bulletproof generators was made with: the
/// second argument of BulletproofGens::new.
pub uninterp spec fn gens_parties(gens: bulletproofs::BulletproofGens) -> usize;

/// Relies on rand::rngs::OsRng::fill_bytes, a cryptographically secure
/// source: nothing is promised of the bytes drawn.
#[verifier::external_body]
pub(crate) fn random_wide_bytes() -> [u8; 64] {
    let mut b = [0u8; 64];
    rand::RngCore::fill_bytes(&mut rand::rngs::OsRng, &mut b);
    b
}

/// Relies on Scalar::from_bytes_mod_order_wide: 64 bytes reduced to a scalar.
#[verifier::external_body]
pub(crate) fn scalar_from_wide_bytes(b: &[u8; 64]) -> curve25519_dalek_ng::scalar::Scalar {
    curve25519_dalek_ng::scalar::Scalar::from_bytes_mod_order_wide(b)
}

/// Relies on Scalar::from_bytes_mod_order: 32 little-endian bytes reduced
/// modulo the group order (lossy for out-of-range values).
#[verifier::external_body]
pub fn scalar_from_bytes_mod_order(b: &Vec<u8>) -> curve25519_dalek_ng::scalar::Scalar
    requires
        b@.len() == 32,
{
    let mut arr = [0u8; 32];
    arr.copy_from_slice(b.as_slice());
    curve25519_dalek_ng::scalar::Scalar::from_bytes_mod_order(arr)
}

/// Relies on Scalar::from for u64.
#[verifier::external_body]
pub fn scalar_from_u64(v: u64) -> curve25519_dalek_ng::scalar::Scalar {
    curve25519_dalek_ng::scalar::Scalar::from(v)
}

/// Relies on PedersenGens::default, the fixed commitment generators.
#[verifier::external_body]
pub(crate) fn pedersen_gens_default() -> bulletproofs::PedersenGens {
    bulletproofs::PedersenGens::default()
}

/// Relies on BulletproofGens::new: the result's two capacities are exactly
/// the given bit width and party count.
#[verifier::external_body]
pub(crate) fn bulletproof_gens(bit_width: usize, parties: usize) -> (r:
    bulletproofs::BulletproofGens)
    ensures
        gens_capacity(r) == bit_width,
        gens_parties(r) == parties,
{
    bulletproofs::BulletproofGens::new(bit_width, parties)
}

/// Relies on merlin::Transcript::new with the given domain label.
#[verifier::external_body]
pub(crate) fn transcript_with_label(label: &'static str) -> merlin::Transcript {
    merlin::Transcript::new(label.as_bytes())
}

/// Relies on Prover::new over the given generators and transcript.
#[verifier::external_body]
pub(crate) fn prover_new<'g>(
    gens: &'g bulletproofs::PedersenGens,
    transcript: merlin::Transcript,
) -> ProverSession<'g> {
    ProverSession { inner: bulletproofs::r1cs::Prover::new(gens, transcript) }
}

/// Relies on Prover::commit: it commits `(value, blinding)`, returning the
/// compressed commitment point (32 bytes) and its constraint variable.
#[verifier::external_body]
pub(crate) fn prover_commit<'g>(
    prover: &mut ProverSession<'g>,
    value: &curve25519_dalek_ng::scalar::Scalar,
    blinding: &curve25519_dalek_ng::scalar::Scalar,
) -> (r: (Commitment, bulletproofs::r1cs::Variable))
    ensures
        r.0.wf(),
{
    let (point, var) = prover.inner.commit(*value, *blinding);
    (Commitment::from_point_bytes(point.to_bytes().to_vec()), var)
}

/// Relies on ConstraintSystem::constrain for the prover, with the linear
/// combination "committed variable minus the known literal value".
#[verifier::external_body]
pub(crate) fn prover_constrain_value<'g>(
    prover: &mut ProverSession<'g>,
    var: bulletproofs::r1cs::Variable,
    value: &curve25519_dalek_ng::scalar::Scalar,
) {
    prover.inner.constrain(var - *value);
}

/// Relies on Prover::prove.  It indexes the first party's generator vector,
/// so at least one party is required of the generators; its only failure is
/// a generator capacity below the padded multiplier count, and a session of
/// this library holds only committed variables and linear constraints, so
/// that count is at most one.
#[verifier::external_body]
pub(crate) fn prover_prove<'g>(
    prover: ProverSession<'g>,
    bp_gens: &bulletproofs::BulletproofGens,
) -> (r: Option<bulletproofs::r1cs::R1CSProof>)
    requires
        gens_parties(*bp_gens) >= 1,
    ensures
        gens_capacity(*bp_gens) >= 1 ==> r is Some,
{
    prover.inner.prove(bp_gens).ok()
}

/// Relies on R1CSProof::to_bytes: the serialization starts with a version
/// byte, so it is non-empty, and R1CSProof::from_bytes parses it back.
#[verifier::external_body]
pub(crate) fn proof_to_bytes(proof: &bulletproofs::r1cs::R1CSProof) -> (r: Vec<u8>)
    ensures
        r@.len() >= 1,
        proof_parses(r@),
{
    proof.to_bytes()
}

/// Relies on R1CSProof::from_bytes, whose success depends on the bytes alone.
#[verifier::external_body]
pub(crate) fn proof_from_bytes(bytes: &Vec<u8>) -> (r: Option<bulletproofs::r1cs::R1CSProof>)
    ensures
        r is Some <==> proof_parses(bytes@),
{
    bulletproofs::r1cs::R1CSProof::from_bytes(bytes.as_slice()).ok()
}

/// Relies on Verifier::new over the given transcript.
#[verifier::external_body]
pub(crate) fn verifier_new(transcript: merlin::Transcript) -> VerifierSession {
    VerifierSession { inner: bulletproofs::r1cs::Verifier::new(transcript) }
}

/// Relies on Verifier::commit: it re-commits the supplied 32-byte commitment
/// point and returns its constraint variable.
#[verifier::external_body]
pub(crate) fn verifier_commit(
    verifier: &mut VerifierSession,
    commitment: &Commitment,
) -> bulletproofs::r1cs::Variable
    requires
        commitment.wf(),
{
    let point = curve25519_dalek_ng::ristretto::CompressedRistretto::from_slice(
        commitment.bytes_slice(),
    );
    verifier.inner.commit(point)
}

/// Relies on ConstraintSystem::constrain for the prover, with the
/// tautological linear combination "variable minus itself".
#[verifier::external_body]
pub(crate) fn prover_constrain_tautology<'g>(
    prover: &mut ProverSession<'g>,
    var: bulletproofs::r1cs::Variable,
) {
    prover.inner.constrain(var - var);
}

/// Relies on ConstraintSystem::constrain for the verifier, with the
/// tautological linear combination "variable minus itself".
#[verifier::external_body]
pub(crate) fn verifier_constrain_tautology(
    verifier: &mut VerifierSession,
    var: bulletproofs::r1cs::Variable,
) {
    verifier.inner.constrain(var - var);
}

/// Relies on ConstraintSystem::constrain for the verifier, with the linear
/// combination "committed variable minus the known literal value".
#[verifier::external_body]
pub(crate) fn verifier_constrain_value(
    verifier: &mut VerifierSession,
    var: bulletproofs::r1cs::Variable,
    value: &curve25519_dalek_ng::scalar::Scalar,
) {
    verifier.inner.constrain(var - *value);
}

/// Relies on ConstraintSystem::constrain for the prover, with the linear
/// combination "first addend plus second addend minus sum".
#[verifier::external_body]
pub(crate) fn prover_constrain_sum<'g>(
    prover: &mut ProverSession<'g>,
    x: bulletproofs::r1cs::Variable,
    y: bulletproofs::r1cs::Variable,
    z: bulletproofs::r1cs::Variable,
) {
    prover.inner.constrain(x + y - z);
}

/// Relies on ConstraintSystem::constrain for the verifier, with the linear
/// combination "first addend plus second addend minus sum".
#[verifier::external_body]
pub(crate) fn verifier_constrain_sum(
    verifier: &mut VerifierSession,
    x: bulletproofs::r1cs::Variable,
    y: bulletproofs::r1cs::Variable,
    z: bulletproofs::r1cs::Variable,
) {
    verifier.inner.constrain(x + y - z);
}

/// Relies on Verifier::verify: true exactly when the proof object satisfies
/// the verification equation for the committed points and generators.  It
/// indexes the first party's generator vector, so at least one party is
/// required; every other failure path returns an error, converted to false.
#[verifier::external_body]
pub(crate) fn verifier_verify(
    verifier: VerifierSession,
    proof: &bulletproofs::r1cs::R1CSProof,
    pc_gens: &bulletproofs::PedersenGens,
    bp_gens: &bulletproofs::BulletproofGens,
) -> bool
    requires
        gens_parties(*bp_gens) >= 1,
{
    verifier.inner.verify(proof, pc_gens, bp_gens).is_ok()
}

} // verus!
