use vstd::prelude::*;

verus! {

/// Errors of the proof service.
///
/// Input and encoding errors are rejected at the codec boundary before the
/// proof backend is invoked; cryptographic mismatch is never an error, the
/// verification operations return `false` instead.
#[derive(Clone, Copy, PartialEq, Eq, Structural, Debug)]
pub enum ZkpError {
    /// The transaction identifier text is not well-formed hex.
    InputNotHex,
    /// The transaction identifier decodes to fewer than 32 bytes.
    InputTooShort,
    /// A commitment field does not decode to exactly 32 bytes.
    CommitmentDecoding,
    /// The proof bytes are not well-formed hex or do not parse into a
    /// structurally valid proof object.
    ProofDecoding,
    /// The proof backend failed to construct a proof.
    ProofConstruction,
    /// The internal self-verification after proving failed.
    SelfCheckFailed,
}

} // verus!
