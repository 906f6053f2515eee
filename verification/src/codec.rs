//! Commitment codec: hex text to raw bytes, and the two derived forms of a
//! 256-bit transaction identifier (reduced scalar input bytes, 64-bit limbs).

use vstd::prelude::*;
use vstd::bytes::{spec_u64_from_le_bytes, spec_u64_to_le_bytes, u64_from_le_bytes,
    lemma_auto_spec_u64_to_from_le_bytes};
use vstd::slice::{slice_subrange, slice_to_vec};
use vstd::string::StringSliceAdditionalSpecFns;

use crate::errors::ZkpError;

verus! {

/// Whether `b` is the ASCII code of a hex digit (`0-9`, `A-F`, `a-f`).
pub open spec fn is_hex_digit(b: u8) -> bool {
    (48 <= b && b <= 57) || (65 <= b && b <= 70) || (97 <= b && b <= 102)
}

/// The value of the hex digit with ASCII code `b`.
pub open spec fn hex_digit_value(b: u8) -> u8
    recommends
        is_hex_digit(b),
{
    if 48 <= b && b <= 57 {
        (b - 48) as u8
    } else if 65 <= b && b <= 70 {
        (b - 55) as u8
    } else {
        (b - 87) as u8
    }
}

/// The ASCII code of the lowercase hex digit for `v`.
pub open spec fn hex_digit_ascii(v: u8) -> u8
    recommends
        v < 16,
{
    if v < 10 {
        (48 + v) as u8
    } else {
        (87 + v) as u8
    }
}

/// Whether `s` is a well-formed hex text: even length, hex digits only.
pub open spec fn is_hex_seq(s: Seq<u8>) -> bool {
    s.len() % 2 == 0 && (forall|i: int| 0 <= i < s.len() ==> is_hex_digit(#[trigger] s[i]))
}

/// The bytes read from the hex text `s`, one byte per digit pair.
pub open spec fn hex_decoded(s: Seq<u8>) -> Seq<u8>
    recommends
        is_hex_seq(s),
{
    Seq::new(s.len() / 2, |i: int| (hex_digit_value(s[2 * i]) * 16 + hex_digit_value(s[2 * i + 1])) as u8)
}

/// The lowercase hex text for the bytes `b`, two digits per byte.
pub open spec fn hex_encoded(b: Seq<u8>) -> Seq<u8> {
    Seq::new(b.len() * 2, |i: int|
        if i % 2 == 0 {
            hex_digit_ascii(b[i / 2] / 16)
        } else {
            hex_digit_ascii(b[i / 2] % 16)
        })
}

/// Relies on hex::decode: it succeeds exactly on even-length inputs made of
/// hex digits, reading each output byte from two consecutive digits.
#[verifier::external_body]
pub(crate) fn hex_decode_bytes(data: &[u8]) -> (r: Option<Vec<u8>>)
    ensures
        r is Some <==> is_hex_seq(data@),
        r matches Some(b) ==> b@ == hex_decoded(data@),
{
    match hex::decode(data) {
        Ok(b) => Some(b),
        Err(_) => None,
    }
}

/// Relies on hex::encode: lowercase hex, two digits for each input byte.
#[verifier::external_body]
pub(crate) fn hex_encode_bytes(data: &[u8]) -> (r: String)
    ensures
        r@.len() == 2 * data@.len(),
        vstd::utf8::encode_utf8(r@) == hex_encoded(data@),
{
    hex::encode(data)
}

/// `s` with one optional leading `0x` removed.
pub open spec fn strip_0x(s: Seq<u8>) -> Seq<u8> {
    if s.len() >= 2 && s[0] == 48 && s[1] == 120 {
        s.subrange(2, s.len() as int)
    } else {
        s
    }
}

/// Whether a transaction identifier text is acceptable: after the optional
/// `0x` prefix it is well-formed hex and decodes to at least 32 bytes.
pub open spec fn txid_hex_wf(s: Seq<u8>) -> bool {
    is_hex_seq(strip_0x(s)) && hex_decoded(strip_0x(s)).len() >= 32
}

/// The 32 significant bytes of an acceptable transaction identifier text;
/// trailing decoded bytes beyond the first 32 are ignored.
pub open spec fn spec_txid_bytes(s: Seq<u8>) -> Seq<u8>
    recommends
        txid_hex_wf(s),
{
    hex_decoded(strip_0x(s)).take(32)
}

/// Decodes a transaction identifier from hex text with an optional `0x`
/// prefix, keeping only the first 32 decoded bytes.
pub fn decode_txid(tx_hash: &str) -> (r: Result<Vec<u8>, ZkpError>)
    ensures
        r matches Ok(b) ==> txid_hex_wf(tx_hash.spec_bytes()) && b@ == spec_txid_bytes(
            tx_hash.spec_bytes(),
        ) && b@.len() == 32,
        r == Err::<Vec<u8>, ZkpError>(ZkpError::InputNotHex) <==> !is_hex_seq(
            strip_0x(tx_hash.spec_bytes()),
        ),
        r == Err::<Vec<u8>, ZkpError>(ZkpError::InputTooShort) <==> (is_hex_seq(
            strip_0x(tx_hash.spec_bytes()),
        ) && hex_decoded(strip_0x(tx_hash.spec_bytes())).len() < 32),
        r is Err ==> (r == Err::<Vec<u8>, ZkpError>(ZkpError::InputNotHex) || r == Err::<
            Vec<u8>,
            ZkpError,
        >(ZkpError::InputTooShort)),
{
    let bytes: &[u8] = tx_hash.as_bytes();
    let stripped: &[u8] = if bytes.len() >= 2 && bytes[0] == 48 && bytes[1] == 120 {
        slice_subrange(bytes, 2, bytes.len())
    } else {
        bytes
    };
    assert(stripped@ == strip_0x(tx_hash.spec_bytes()));
    let decoded = match hex_decode_bytes(stripped) {
        Some(b) => b,
        None => {
            return Err(ZkpError::InputNotHex);
        },
    };
    if decoded.len() < 32 {
        return Err(ZkpError::InputTooShort);
    }
    let out = slice_to_vec(slice_subrange(decoded.as_slice(), 0, 32));
    assert(out@ =~= spec_txid_bytes(tx_hash.spec_bytes()));
    Ok(out)
}

/// The four 64-bit limbs of a 32-byte identifier, read little-endian from
/// consecutive 8-byte groups.
pub open spec fn spec_txid_limbs(b: Seq<u8>) -> Seq<u64>
    recommends
        b.len() == 32,
{
    seq![
        spec_u64_from_le_bytes(b.subrange(0, 8)),
        spec_u64_from_le_bytes(b.subrange(8, 16)),
        spec_u64_from_le_bytes(b.subrange(16, 24)),
        spec_u64_from_le_bytes(b.subrange(24, 32)),
    ]
}

/// Splits a 32-byte identifier into its four little-endian 64-bit limbs.
pub fn txid_limbs(b: &[u8]) -> (r: Vec<u64>)
    requires
        b@.len() == 32,
    ensures
        r@ == spec_txid_limbs(b@),
        r@.len() == 4,
{
    let mut out: Vec<u64> = Vec::new();
    out.push(u64_from_le_bytes(slice_subrange(b, 0, 8)));
    out.push(u64_from_le_bytes(slice_subrange(b, 8, 16)));
    out.push(u64_from_le_bytes(slice_subrange(b, 16, 24)));
    out.push(u64_from_le_bytes(slice_subrange(b, 24, 32)));
    assert(out@ =~= spec_txid_limbs(b@));
    out
}

/// Limb decomposition is lossless: re-serializing the four little-endian
/// limbs of a 32-byte identifier yields the identifier's bytes exactly.
pub proof fn lemma_limbs_lossless(b: Seq<u8>)
    requires
        b.len() == 32,
    ensures
        spec_u64_to_le_bytes(spec_txid_limbs(b)[0]) + spec_u64_to_le_bytes(spec_txid_limbs(b)[1])
            + spec_u64_to_le_bytes(spec_txid_limbs(b)[2]) + spec_u64_to_le_bytes(
            spec_txid_limbs(b)[3],
        ) == b,
{
    lemma_auto_spec_u64_to_from_le_bytes();
    assert(spec_u64_to_le_bytes(spec_txid_limbs(b)[0]) + spec_u64_to_le_bytes(
        spec_txid_limbs(b)[1],
    ) + spec_u64_to_le_bytes(spec_txid_limbs(b)[2]) + spec_u64_to_le_bytes(spec_txid_limbs(b)[3])
        =~= b);
}

/// Every lowercase hex digit is a hex digit and decodes back to its value.
proof fn lemma_hex_digit_round_trip(v: u8)
    requires
        v < 16,
    ensures
        is_hex_digit(hex_digit_ascii(v)),
        hex_digit_value(hex_digit_ascii(v)) == v,
{
}

/// Encoding bytes as hex and decoding the result is the identity.
pub proof fn lemma_hex_round_trip(b: Seq<u8>)
    ensures
        is_hex_seq(hex_encoded(b)),
        hex_decoded(hex_encoded(b)) == b,
{
    assert forall|i: int| 0 <= i < hex_encoded(b).len() implies is_hex_digit(
        #[trigger] hex_encoded(b)[i],
    ) by {
        let v = b[i / 2];
        assert(v / 16 < 16 && v % 16 < 16) by (nonlinear_arith);
        if i % 2 == 0 {
            lemma_hex_digit_round_trip(v / 16);
        } else {
            lemma_hex_digit_round_trip(v % 16);
        }
    }
    assert forall|i: int| 0 <= i < b.len() implies hex_decoded(hex_encoded(b))[i] == b[i] by {
        let v = b[i];
        assert(v / 16 < 16 && v % 16 < 16) by (nonlinear_arith);
        lemma_hex_digit_round_trip(v / 16);
        lemma_hex_digit_round_trip(v % 16);
        assert(hex_encoded(b)[2 * i] == hex_digit_ascii(v / 16));
        assert(hex_encoded(b)[2 * i + 1] == hex_digit_ascii(v % 16));
        assert(v / 16 * 16 + v % 16 == v) by (nonlinear_arith);
    }
    assert(hex_decoded(hex_encoded(b)) =~= b);
}

/// Decoding is a pure function of the hex text: any two successful decodings
/// of the same text yield byte-identical results.
pub proof fn lemma_decode_pure(s: Seq<u8>, b1: Seq<u8>, b2: Seq<u8>)
    requires
        b1 == hex_decoded(s),
        b2 == hex_decoded(s),
    ensures
        b1 == b2,
{
}

} // verus!
