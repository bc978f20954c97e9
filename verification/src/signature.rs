//! Checking a P-256 ECDSA signature against a key as the chip stores it:
//! the 64 bytes of the point's two coordinates.
//!
//! The `p256` crate's point, key and signature types are generic over
//! curve traits that Verus cannot be told about, so the library carries
//! their byte encodings instead; the calls below rebuild each value with
//! the crate's own functions whenever the crate needs it.
use vstd::prelude::*;
use vstd::string::StringExecFns;
use crate::error::{unit_result_view, ErrorModel, TrustMLibError};
use crate::protocol::KEY_LEN;
use p256::ecdsa::signature::Verifier;
use p256::elliptic_curve::sec1::{FromEncodedPoint, ToEncodedPoint};

verus! {

/// The prime of the field P-256 is defined over.
pub open spec fn p256_prime() -> int {
    0xffffffff00000001000000000000000000000000ffffffffffffffffffffffffint
}

/// The constant `b` of the P-256 equation y² = x³ − 3x + b.
pub open spec fn p256_b() -> int {
    0x5ac635d8aa3a93e7b3ebbd55769886bc651d06b0cc53b0f63bce3c3e27d2604bint
}

/// The order of the P-256 group.
pub open spec fn p256_order() -> int {
    0xffffffff00000000ffffffffffffffffbce6faada7179e84f3b9cac2fc632551int
}

/// The number written by `bytes`, most significant byte first.
pub open spec fn big_endian(bytes: Seq<u8>) -> nat
    decreases bytes.len(),
{
    if bytes.len() == 0 {
        0
    } else {
        big_endian(bytes.drop_last()) * 256 + bytes.last() as nat
    }
}

/// A SEC1 point encoding whose tag byte and length agree, for P-256:
/// the identity (1 byte), a compressed or compact point (33 bytes), or an
/// uncompressed point (65 bytes).
pub open spec fn sec1_well_formed(bytes: Seq<u8>) -> bool {
    &&& bytes.len() > 0
    &&& {
        ||| bytes[0] == 0 && bytes.len() == 1
        ||| (bytes[0] == 2 || bytes[0] == 3 || bytes[0] == 5) && bytes.len() == 33
        ||| bytes[0] == 4 && bytes.len() == 65
    }
}

/// The uncompressed SEC1 encoding (0x04, x, y) of a point of the curve:
/// both coordinates below the prime and y² = x³ − 3x + b modulo the prime.
pub open spec fn on_curve_uncompressed(bytes: Seq<u8>) -> bool {
    &&& bytes.len() == 65
    &&& bytes[0] == 4
    &&& {
        let x: int = big_endian(bytes.subrange(1, 33)) as int;
        let y: int = big_endian(bytes.subrange(33, 65)) as int;
        &&& x < p256_prime()
        &&& y < p256_prime()
        &&& (y * y) % p256_prime() == (x * x * x - 3 * x + p256_b()) % p256_prime()
    }
}

/// A fixed-size ECDSA signature: 64 bytes, r then s, both in 1 .. n−1.
pub open spec fn signature_well_formed(bytes: Seq<u8>) -> bool {
    &&& bytes.len() == 64
    &&& 0 < big_endian(bytes.subrange(0, 32)) < p256_order()
    &&& 0 < big_endian(bytes.subrange(32, 64)) < p256_order()
}

/// Whether ECDSA over P-256 with SHA-256 accepts `signature` on `message`
/// under the key whose uncompressed encoding is `key`.
pub uninterp spec fn ecdsa_p256_verifies(key: Seq<u8>, message: Seq<u8>, signature: Seq<u8>) -> bool;

/// Calls `p256::EncodedPoint::from_bytes`. The contract claims what its
/// source shows: it accepts exactly the encodings whose tag byte and length
/// agree and keeps their bytes, and its error is `sec1::Error::PointEncoding`,
/// whose text is "elliptic curve point encoding error".
#[verifier::external_body]
fn encoded_point_from_bytes(bytes: &[u8]) -> (res: Result<Vec<u8>, String>)
    ensures
        res is Ok <==> sec1_well_formed(bytes@),
        res matches Ok(point) ==> point@ == bytes@,
        res matches Err(message) ==> message@ == "elliptic curve point encoding error"@,
{
    match p256::EncodedPoint::from_bytes(bytes) {
        Ok(point) => Ok(point.as_bytes().to_vec()),
        Err(e) => Err(e.to_string()),
    }
}

/// Calls `p256::PublicKey::from_encoded_point` on an uncompressed encoding
/// (rebuilt as a `p256::EncodedPoint`) and hands the key back as its
/// uncompressed encoding. The contract claims what the source shows: a key
/// exists exactly when both coordinates are below the prime and satisfy the
/// curve equation, and re-encoding it gives the same bytes.
#[verifier::external_body]
fn public_key_from_encoded_point(encoded: &[u8]) -> (res: Option<Vec<u8>>)
    requires
        encoded@.len() == 65,
        encoded@[0] == 4,
    ensures
        res is Some <==> on_curve_uncompressed(encoded@),
        res matches Some(key) ==> key@ == encoded@,
{
    let point = p256::EncodedPoint::from_bytes(encoded).unwrap();
    match Option::<p256::PublicKey>::from(p256::PublicKey::from_encoded_point(&point)) {
        Some(key) => Some(key.to_encoded_point(false).as_bytes().to_vec()),
        None => None,
    }
}

/// Calls `p256::ecdsa::Signature::from_slice`. The contract claims what its
/// source shows: it accepts exactly 64 bytes whose halves r and s lie in
/// 1 .. n−1, keeps their bytes, and its error's text is "signature error".
#[verifier::external_body]
fn signature_from_slice(bytes: &[u8]) -> (res: Result<Vec<u8>, String>)
    ensures
        res is Ok <==> signature_well_formed(bytes@),
        res matches Ok(signature) ==> signature@ == bytes@,
        res matches Err(message) ==> message@ == "signature error"@,
{
    match p256::ecdsa::Signature::from_slice(bytes) {
        Ok(signature) => Ok(signature.to_bytes().to_vec()),
        Err(e) => Err(e.to_string()),
    }
}

/// Calls `Verifier::verify` of `p256::ecdsa::VerifyingKey` (SHA-256 of the
/// message, then ECDSA), the key and signature being rebuilt from their
/// bytes as the crate builds them. The contract claims that it succeeds
/// exactly when `ecdsa_p256_verifies` holds, and that its error's text is
/// "signature error" (the crate's verification errors carry no source).
#[verifier::external_body]
fn verifying_key_verify(key: &[u8], message: &[u8], signature: &[u8]) -> (res: Result<(), String>)
    requires
        on_curve_uncompressed(key@),
        signature_well_formed(signature@),
    ensures
        res is Ok <==> ecdsa_p256_verifies(key@, message@, signature@),
        res matches Err(text) ==> text@ == "signature error"@,
{
    let point = p256::EncodedPoint::from_bytes(key).unwrap();
    let public_key = Option::<p256::PublicKey>::from(p256::PublicKey::from_encoded_point(&point));
    let verifying_key = p256::ecdsa::VerifyingKey::from(public_key.unwrap());
    let signature = p256::ecdsa::Signature::from_slice(signature).unwrap();
    match verifying_key.verify(message, &signature) {
        Ok(()) => Ok(()),
        Err(e) => Err(e.to_string()),
    }
}

/// The SEC1 uncompressed encoding of a key as the chip stores it.
pub open spec fn uncompressed(key: Seq<u8>) -> Seq<u8> {
    seq![4u8] + key
}

/// Prefixes a stored key with the tag of an uncompressed point.
pub fn uncompressed_point(key: &[u8]) -> (point: Vec<u8>)
    ensures
        point@ == uncompressed(key@),
{
    let mut point: Vec<u8> = Vec::new();
    point.push(4u8);
    point.extend_from_slice(key);
    assert(point@ =~= uncompressed(key@));
    point
}

/// Whether `key` can be checked against: 64 bytes that are the coordinates
/// of a point of the curve.
pub fn key_is_on_curve(key: &[u8]) -> (ok: bool)
    ensures
        ok == (key@.len() == KEY_LEN && on_curve_uncompressed(uncompressed(key@))),
{
    if key.len() != KEY_LEN {
        return false;
    }
    let point = uncompressed_point(key);
    match encoded_point_from_bytes(point.as_slice()) {
        Err(_) => false,
        Ok(encoded) => public_key_from_encoded_point(encoded.as_slice()).is_some(),
    }
}

/// What checking a signature gives.
pub open spec fn verify_outcome(key: Seq<u8>, signature: Seq<u8>, payload: Seq<u8>) -> Result<(), ErrorModel> {
    if !signature_well_formed(signature) {
        Err(ErrorModel::Verify("failed to parse signature: "@ + "signature error"@))
    } else if ecdsa_p256_verifies(uncompressed(key), payload, signature) {
        Ok(())
    } else {
        Err(ErrorModel::Verify("signature verification failed: "@ + "signature error"@))
    }
}

/// Checks the raw 64-byte signature (r then s) of `payload` against the
/// stored key `key`.
pub fn p256_verify(key: &[u8], signature: &[u8], payload: &[u8]) -> (res: Result<(), TrustMLibError>)
    requires
        key@.len() == KEY_LEN,
        on_curve_uncompressed(uncompressed(key@)),
    ensures
        unit_result_view(res) == verify_outcome(key@, signature@, payload@),
        signature_well_formed(signature@) ==> (res is Ok <==> ecdsa_p256_verifies(
            seq![4u8] + key@,
            payload@,
            signature@,
        )),
{
    let point = uncompressed_point(key);
    // A tagged 65-byte encoding is always well formed, and the key is on the
    // curve: neither step can fail here.
    let encoded = encoded_point_from_bytes(point.as_slice()).unwrap();
    let public_key = public_key_from_encoded_point(encoded.as_slice()).unwrap();
    let parsed = match signature_from_slice(signature) {
        Ok(parsed) => parsed,
        Err(message) => {
            let mut text = String::from_str("failed to parse signature: ");
            text.append(message.as_str());
            return Err(TrustMLibError::VerifyError(text));
        },
    };
    match verifying_key_verify(public_key.as_slice(), payload, parsed.as_slice()) {
        Ok(()) => Ok(()),
        Err(message) => {
            let mut text = String::from_str("signature verification failed: ");
            text.append(message.as_str());
            Err(TrustMLibError::VerifyError(text))
        },
    }
}

/// A signature is checked against the whole payload, byte for byte, and
/// the stored key tagged as an uncompressed point: for a well-formed
/// signature the check succeeds exactly when ECDSA accepts it on that
/// payload, and a malformed signature is always refused.
pub proof fn law_verify_checks_the_whole_payload(key: Seq<u8>, signature: Seq<u8>, payload: Seq<u8>)
    ensures
        signature_well_formed(signature) ==> (verify_outcome(key, signature, payload) is Ok
            <==> ecdsa_p256_verifies(seq![4u8] + key, payload, signature)),
        !signature_well_formed(signature) ==> verify_outcome(key, signature, payload) is Err,
{
}

} // verus!
