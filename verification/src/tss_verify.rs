//! Checking a threshold signature produced by the TSS daemon: an ECDSA
//! signature over secp256k1 of a 32-byte prehashed message.
use vstd::prelude::*;

use k256::ecdsa::hazmat::VerifyPrimitive;
use k256::elliptic_curve::sec1::FromEncodedPoint;

use crate::tss::TssParty;

verus! {

/// Whether `k256::ecdsa::Signature::from_der` accepts `sig`.
pub uninterp spec fn der_accepts(sig: Seq<u8>) -> bool;

/// The order of the secp256k1 group.
pub open spec fn secp256k1_order() -> nat {
    0xFFFFFFFFFFFFFFFFFFFFFFFFFFFFFFFEBAAEDCE6AF48A03BBFD25E8CD0364141nat
}

/// The value of `bytes` read as a big-endian number.
pub open spec fn be_value(bytes: Seq<u8>) -> nat
    decreases bytes.len(),
{
    if bytes.len() == 0 {
        0
    } else {
        be_value(bytes.drop_last()) * 256 + bytes.last() as nat
    }
}

/// Whether `bytes` encode a scalar of the curve: 32 big-endian bytes of a
/// number below the group order.
pub open spec fn scalar_accepts(bytes: Seq<u8>) -> bool {
    bytes.len() == 32 && be_value(bytes) < secp256k1_order()
}

/// Whether `bytes` are a well-formed SEC1 point encoding of the curve: the
/// identity (tag 0, alone), a compressed or compact point (tag 2, 3 or 5 and
/// 32 more bytes), or an uncompressed point (tag 4 and 64 more bytes).
pub open spec fn sec1_accepts(bytes: Seq<u8>) -> bool {
    bytes.len() > 0 && ((bytes[0] == 0 && bytes.len() == 1) || ((bytes[0] == 2 || bytes[0] == 3 || bytes[0] == 5)
        && bytes.len() == 33) || (bytes[0] == 4 && bytes.len() == 65))
}

/// Whether `ProjectivePoint::from_encoded_point` finds a curve point for the
/// SEC1 encoding `bytes`.
pub uninterp spec fn curve_point(bytes: Seq<u8>) -> bool;

/// Whether `verify_prehashed` accepts the DER signature `sig` of the prehash
/// `z` for the public key encoded as `key`.
pub uninterp spec fn prehash_verifies(key: Seq<u8>, z: Seq<u8>, sig: Seq<u8>) -> bool;

/// `k256::ecdsa::Signature::from_der`: whether `sig` is a DER encoded
/// signature whose scalars are in range. Stated through the name
/// [`der_accepts`] only.
#[verifier::external_body]
fn parse_der(sig: &Vec<u8>) -> (r: bool)
    ensures
        r == der_accepts(sig@),
{
    k256::ecdsa::Signature::from_der(sig.as_slice()).is_ok()
}

/// `ScalarPrimitive::<Secp256k1>::from_slice`: whether `bytes` is a scalar
/// of the curve, that is 32 big-endian bytes of a number below the order.
#[verifier::external_body]
fn parse_scalar(bytes: &Vec<u8>) -> (r: bool)
    ensures
        r == scalar_accepts(bytes@),
{
    k256::elliptic_curve::ScalarPrimitive::<k256::Secp256k1>::from_slice(bytes.as_slice()).is_ok()
}

/// `k256::EncodedPoint::from_bytes`: whether `bytes` is a well-formed SEC1
/// point encoding, by its tag and length (see [`sec1_accepts`]).
#[verifier::external_body]
fn parse_sec1(bytes: &Vec<u8>) -> (r: bool)
    ensures
        r == sec1_accepts(bytes@),
{
    k256::EncodedPoint::from_bytes(bytes.as_slice()).is_ok()
}

/// `ProjectivePoint::from_encoded_point` on the SEC1 encoding `bytes`:
/// whether it is a point of the curve. Stated through [`curve_point`].
#[verifier::external_body]
fn decode_point(bytes: &Vec<u8>) -> (r: bool)
    requires
        sec1_accepts(bytes@),
    ensures
        r == curve_point(bytes@),
{
    let encoded = k256::EncodedPoint::from_bytes(bytes.as_slice()).unwrap();
    bool::from(k256::ProjectivePoint::from_encoded_point(&encoded).is_some())
}

/// `VerifyPrimitive::verify_prehashed` of the affine form of the public key
/// `key`: whether the DER signature `sig` signs the prehash `z`. Stated
/// through [`prehash_verifies`].
#[verifier::external_body]
fn check_prehashed(key: &Vec<u8>, z: &Vec<u8>, sig: &Vec<u8>) -> (r: bool)
    requires
        sec1_accepts(key@),
        curve_point(key@),
        z@.len() == 32,
        der_accepts(sig@),
    ensures
        r == prehash_verifies(key@, z@, sig@),
{
    let signature = k256::ecdsa::Signature::from_der(sig.as_slice()).unwrap();
    let encoded = k256::EncodedPoint::from_bytes(key.as_slice()).unwrap();
    let point = k256::ProjectivePoint::from_encoded_point(&encoded).unwrap();
    point.to_affine().verify_prehashed(k256::FieldBytes::from_slice(z.as_slice()), &signature).is_ok()
}

/// Why a signature could not be checked.
#[derive(Debug, PartialEq, Eq, Structural)]
pub enum VerifyError {
    /// The signature is not DER or its scalars are out of range.
    InvalidSignature,
    /// The message is not a 32-byte scalar of the curve.
    InvalidMessage,
    /// The public key is not a SEC1 point encoding.
    InvalidPublicKey,
}

/// The answer to a signature check: the first input that cannot be decoded,
/// in the order signature, message, public key; otherwise whether the
/// signature verifies.
pub open spec fn verify_outcome(pub_key: Seq<u8>, message: Seq<u8>, signature: Seq<u8>) -> Result<bool, VerifyError> {
    if !der_accepts(signature) {
        Err(VerifyError::InvalidSignature)
    } else if !scalar_accepts(message) {
        Err(VerifyError::InvalidMessage)
    } else if !sec1_accepts(pub_key) {
        Err(VerifyError::InvalidPublicKey)
    } else {
        Ok(prehash_verifies(pub_key, message, signature))
    }
}

/// Whether checking the signature reaches the decoding of the public key as
/// a curve point, which must then succeed.
pub open spec fn needs_curve_point(pub_key: Seq<u8>, message: Seq<u8>, signature: Seq<u8>) -> bool {
    der_accepts(signature) && scalar_accepts(message) && sec1_accepts(pub_key)
}

impl TssParty {
    /// Checks the signature `signature` (DER) of the prehashed `message`
    /// under the SEC1 encoded `pub_key`; a well-formed key must be a point
    /// of the curve.
    pub fn verify(&self, pub_key: &Vec<u8>, message: &Vec<u8>, signature: &Vec<u8>) -> (r: Result<bool, VerifyError>)
        requires
            needs_curve_point(pub_key@, message@, signature@) ==> curve_point(pub_key@),
        ensures
            r == verify_outcome(pub_key@, message@, signature@),
    {
        if !parse_der(signature) {
            return Err(VerifyError::InvalidSignature);
        }
        if !parse_scalar(message) {
            return Err(VerifyError::InvalidMessage);
        }
        if !parse_sec1(pub_key) {
            return Err(VerifyError::InvalidPublicKey);
        }
        Ok(check_prehashed(pub_key, message, signature))
    }

    /// [`TssParty::verify`] for any input: `None` when the public key is a
    /// well-formed encoding of no curve point and the check gets that far.
    pub fn checked_verify(&self, pub_key: &Vec<u8>, message: &Vec<u8>, signature: &Vec<u8>) -> (r: Option<Result<bool, VerifyError>>)
        ensures
            needs_curve_point(pub_key@, message@, signature@) && !curve_point(pub_key@) ==> r is None,
            !(needs_curve_point(pub_key@, message@, signature@) && !curve_point(pub_key@)) ==> r == Some(
                verify_outcome(pub_key@, message@, signature@),
            ),
    {
        if parse_der(signature) && parse_scalar(message) && parse_sec1(pub_key) && !decode_point(pub_key) {
            return None;
        }
        Some(self.verify(pub_key, message, signature))
    }
}

} // verus!
