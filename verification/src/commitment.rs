//! The normalized commitment value: 32 raw bytes of a compressed group
//! element, whatever curve library produced it.

use vstd::prelude::*;

use crate::codec::{
    hex_decoded, hex_encoded, is_hex_seq, hex_encode_bytes, hex_decode_bytes, lemma_hex_round_trip,
};
use crate::errors::ZkpError;
use vstd::string::StringSliceAdditionalSpecFns;

verus! {

/// An opaque 32-byte compressed group element binding one (value, blinding)
/// pair.  Downstream code never branches on which curve library produced it.
pub struct Commitment {
    bytes: Vec<u8>,
}

impl Commitment {
    /// The raw bytes of the commitment.
    pub closed spec fn view(&self) -> Seq<u8> {
        self.bytes@
    }

    /// A commitment is exactly 32 raw bytes.
    pub open spec fn wf(&self) -> bool {
        self@.len() == 32
    }

    /// Wraps 32 raw bytes as a commitment.
    pub fn from_point_bytes(bytes: Vec<u8>) -> (r: Commitment)
        requires
            bytes@.len() == 32,
        ensures
            r@ == bytes@,
            r.wf(),
    {
        Commitment { bytes }
    }

    /// The raw bytes, for handing to the proof backend.
    pub fn bytes_slice(&self) -> (r: &[u8])
        ensures
            r@ == self@,
    {
        self.bytes.as_slice()
    }

    /// The commitment as lowercase hex text.
    pub fn to_hex(&self) -> (r: String)
        ensures
            r@.len() == 2 * self@.len(),
            vstd::utf8::encode_utf8(r@) == hex_encoded(self@),
    {
        hex_encode_bytes(self.bytes.as_slice())
    }

    /// Relies on curve25519_dalek_ng CompressedRistretto::to_bytes: the 32
    /// bytes of the classic curve library's compressed point.
    #[verifier::external_body]
    pub fn from_classic_point(point: &curve25519_dalek_ng::ristretto::CompressedRistretto) -> (r:
        Commitment)
        ensures
            r.wf(),
    {
        Commitment { bytes: point.to_bytes().to_vec() }
    }
}

impl Clone for Commitment {
    /// The clone carries the same bytes.
    fn clone(&self) -> (r: Commitment)
        ensures
            r@ == self@,
    {
        Commitment { bytes: self.bytes.clone() }
    }
}

/// Hex encoding is the exact inverse of commitment decoding: the hex text of
/// any 32 raw bytes is an acceptable commitment text and decodes back to the
/// same bytes.
pub proof fn lemma_commitment_hex_round_trip(b: Seq<u8>)
    requires
        b.len() == 32,
    ensures
        commitment_hex_wf(hex_encoded(b)),
        hex_decoded(hex_encoded(b)) == b,
{
    lemma_hex_round_trip(b);
}

/// Whether a commitment hex text is acceptable: well-formed hex that decodes
/// to exactly 32 bytes.
pub open spec fn commitment_hex_wf(s: Seq<u8>) -> bool {
    is_hex_seq(s) && hex_decoded(s).len() == 32
}

/// Decodes one commitment from hex text; the text must yield exactly 32
/// bytes.
pub fn decode_commitment(text: &str) -> (r: Result<Commitment, ZkpError>)
    ensures
        r matches Ok(c) ==> commitment_hex_wf(text.spec_bytes()) && c@ == hex_decoded(
            text.spec_bytes(),
        ) && c.wf(),
        r is Err <==> !commitment_hex_wf(text.spec_bytes()),
        r is Err ==> r == Err::<Commitment, ZkpError>(ZkpError::CommitmentDecoding),
{
    let decoded = match hex_decode_bytes(text.as_bytes()) {
        Some(b) => b,
        None => {
            return Err(ZkpError::CommitmentDecoding);
        },
    };
    if decoded.len() != 32 {
        return Err(ZkpError::CommitmentDecoding);
    }
    Ok(Commitment::from_point_bytes(decoded))
}

} // verus!
