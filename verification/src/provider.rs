//! The boundary to the crypto primitive provider (openssl) and to the base64
//! encoder. Everything here is trusted: Verus believes the contracts and does
//! not read the bodies.
//!
//! The provider's operations are deterministic in their inputs, so each
//! outcome that callers' contracts need is given an uninterpreted name: a
//! function of the arguments alone, about whose values nothing further is
//! claimed. (Failures of the out-of-memory class, which no input determines,
//! are left aside.)

use vstd::prelude::*;
use openssl::bn::BigNumContext;
use openssl::ec::{EcGroupRef, EcKey, EcPointRef, PointConversionForm};
use openssl::error::ErrorStack;
use openssl::hash::MessageDigest;
use openssl::nid::Nid;
use openssl::pkey::{PKey, Private, Public};
use openssl::sign::{Signer, Verifier};
use base64::Engine;
use crate::curve::EcCurve;
use crate::keys::EcDsaPublicKey;

verus! {

#[verifier::external_type_specification]
#[verifier::external_body]
pub struct ExEcGroup(openssl::ec::EcGroup);

#[verifier::external_type_specification]
#[verifier::external_body]
pub struct ExEcGroupRef(EcGroupRef);

#[verifier::external_type_specification]
#[verifier::external_body]
pub struct ExEcPointRef(EcPointRef);

#[verifier::external_type_specification]
#[verifier::external_body]
#[verifier::reject_recursive_types(T)]
pub struct ExEcKey<T>(EcKey<T>);

#[verifier::external_type_specification]
#[verifier::external_body]
pub struct ExPublic(Public);

#[verifier::external_type_specification]
#[verifier::external_body]
pub struct ExPrivate(Private);

#[verifier::external_type_specification]
#[verifier::external_body]
pub struct ExNid(Nid);

#[verifier::external_type_specification]
#[verifier::external_body]
pub struct ExErrorStack(ErrorStack);

/// The supported curve a group handle is named after, `None` when it carries
/// no curve name or one outside the set: a function of the group alone.
pub uninterp spec fn designation_of(group: EcGroupRef) -> Option<EcCurve>;

/// Whether the provider accepts (group, point) as public-key material: a
/// function of the two handles alone.
pub uninterp spec fn accepts_public_key(group: EcGroupRef, point: EcPointRef) -> bool;

/// The uncompressed encoding of a point on a group, `None` when the provider
/// cannot produce one: a function of the two handles alone.
pub uninterp spec fn point_bytes_of(group: EcGroupRef, point: EcPointRef) -> Option<Seq<u8>>;

/// `designation_of` for a private key's own group: a function of the key alone.
pub uninterp spec fn pair_designation_of(key: EcKey<Private>) -> Option<EcCurve>;

/// The uncompressed encoding of a private key's derived public point, `None`
/// when the provider cannot produce one: a function of the key alone.
pub uninterp spec fn pair_point_bytes_of(key: EcKey<Private>) -> Option<Seq<u8>>;

/// Whether the provider accepts a private key's own (group, public point) as
/// public-key material: a function of the key alone.
pub uninterp spec fn pair_public_acceptance(key: EcKey<Private>) -> bool;

/// The provider's three-way verification outcome for an ECDSA signature over
/// the SHA-1 digest of the data, under the public key that a curve and an
/// uncompressed point encoding determine: `Some(true)` a match, `Some(false)`
/// a clean mismatch, `None` inputs it cannot process. A named curve fixes the
/// group's parameters, so the outcome is a function of these values alone.
pub uninterp spec fn verify_outcome(
    curve: EcCurve,
    point: Seq<u8>,
    data: Seq<u8>,
    sig: Seq<u8>,
) -> Option<bool>;

/// Relies on openssl's `EcGroupRef::curve_name` (`EC_GROUP_get_curve_name`)
/// and its `Nid` constants `X9_62_PRIME256V1`, `SECP384R1` and `SECP521R1`,
/// the standard designations of the three supported curves: returns the
/// supported curve the group is named after, and `None` when the group
/// carries no curve name or names a curve outside the set. The body only
/// tells the provider's answers apart, one arm each.
#[verifier::external_body]
pub(crate) fn curve_of_group(group: &EcGroupRef) -> (r: Option<EcCurve>)
    ensures
        r == designation_of(*group),
{
    match group.curve_name() {
        Some(Nid::X9_62_PRIME256V1) => Some(EcCurve::Nistp256),
        Some(Nid::SECP384R1) => Some(EcCurve::Nistp384),
        Some(Nid::SECP521R1) => Some(EcCurve::Nistp521),
        _ => None,
    }
}

/// Relies on openssl's `EcKey::from_public_key` (`EC_KEY_set_public_key`):
/// builds a public key object owning the given group and point, and fails
/// exactly when the provider rejects the material.
#[verifier::external_body]
pub(crate) fn key_from_public_point(
    group: &EcGroupRef,
    point: &EcPointRef,
) -> (r: Result<EcKey<Public>, ErrorStack>)
    ensures
        (r is Ok) <==> accepts_public_key(*group, *point),
{
    EcKey::from_public_key(group, point)
}

/// Relies on openssl's `EcPointRef::to_bytes` (`EC_POINT_point2oct`) with the
/// uncompressed form: the tag byte `0x04` followed by the X and Y coordinates,
/// big-endian, each padded to the group's field width. `BigNumContext::new`
/// supplies the scratch space the conversion needs.
#[verifier::external_body]
pub(crate) fn uncompressed_point_bytes(
    group: &EcGroupRef,
    point: &EcPointRef,
) -> (r: Result<Vec<u8>, ErrorStack>)
    ensures
        (r is Ok) <==> point_bytes_of(*group, *point) is Some,
        r matches Ok(b) ==> Some(b@) == point_bytes_of(*group, *point),
{
    let mut ctx = BigNumContext::new()?;
    point.to_bytes(group, PointConversionForm::UNCOMPRESSED, &mut ctx)
}

/// Relies on openssl's `EcKeyRef::group` (`EC_KEY_get0_group`), a plain
/// getter; the designation mapping is `curve_of_group`'s.
#[verifier::external_body]
pub(crate) fn pair_curve(key: &EcKey<Private>) -> (r: Option<EcCurve>)
    ensures
        r == pair_designation_of(*key),
{
    curve_of_group(key.group())
}

/// Relies on openssl's `EcKeyRef::group` and `EcKeyRef::public_key`
/// (`EC_KEY_get0_*`), plain getters; the conversion is
/// `uncompressed_point_bytes`'s.
#[verifier::external_body]
pub(crate) fn pair_point_bytes(key: &EcKey<Private>) -> (r: Result<Vec<u8>, ErrorStack>)
    ensures
        (r is Ok) <==> pair_point_bytes_of(*key) is Some,
        r matches Ok(b) ==> Some(b@) == pair_point_bytes_of(*key),
{
    uncompressed_point_bytes(key.group(), key.public_key())
}

/// Relies on openssl's `EcKeyRef::group`, `EcKeyRef::public_key` and
/// `EcKey::from_public_key`: rebuilds a public key object from a private
/// key's own group and derived point, failing exactly when the provider
/// rejects its own material back.
#[verifier::external_body]
pub(crate) fn public_from_pair(key: &EcKey<Private>) -> (r: Result<EcKey<Public>, ErrorStack>)
    ensures
        (r is Ok) <==> pair_public_acceptance(*key),
{
    EcKey::from_public_key(key.group(), key.public_key())
}

/// Relies on openssl's `PKey::from_ec_key` and `Verifier` over SHA-1
/// (`EVP_DigestVerify`): `Ok(true)` when the signature matches the data under
/// the key, `Ok(false)` when the provider flags a clean signature mismatch,
/// `Err` when it cannot process the inputs at all (for example, a signature
/// that does not parse as DER). The key object was built over the curve and
/// point its containing value records, and the verification reads nothing
/// else of it, so the outcome is `verify_outcome` of those values. The calls
/// stand in one body because the `Verifier` borrows the `PKey` it checks
/// under.
#[verifier::external_body]
pub(crate) fn verify_sha1(
    key: &EcDsaPublicKey,
    data: &[u8],
    sig: &[u8],
) -> (r: Result<bool, ErrorStack>)
    ensures
        r matches Ok(b) ==> verify_outcome(key@.curve, key@.point, data@, sig@) == Some(b),
        (r is Err) <==> verify_outcome(key@.curve, key@.point, data@, sig@) is None,
{
    let pkey = PKey::from_ec_key(key.key.clone())?;
    let mut verifier = Verifier::new(MessageDigest::sha1(), &pkey)?;
    verifier.update(data)?;
    verifier.verify(sig)
}

/// Relies on openssl's `PKey::from_ec_key` and `Signer` over SHA-1
/// (`EVP_DigestSign`): returns the provider's native DER-encoded ECDSA
/// signature over the SHA-1 digest of the data. The signature depends on a
/// random nonce, so nothing is claimed of it. The calls stand in one body
/// because the `Signer` borrows the `PKey` it signs under.
#[verifier::external_body]
pub(crate) fn sign_sha1(key: &EcKey<Private>, data: &[u8]) -> Result<Vec<u8>, ErrorStack> {
    let pkey = PKey::from_ec_key(key.clone())?;
    let mut signer = Signer::new(MessageDigest::sha1(), &pkey)?;
    signer.update(data)?;
    signer.sign_to_vec()
}

/// Relies on openssl's `EcKey` clone (`EC_KEY_up_ref`): another handle to the
/// same key object.
#[verifier::external_body]
pub(crate) fn clone_key_object(key: &EcKey<Public>) -> EcKey<Public> {
    key.clone()
}

/// The base64 text of a byte string: a function of the bytes alone.
pub uninterp spec fn base64_of(bytes: Seq<u8>) -> Seq<char>;

/// Relies on base64's standard engine `encode`: the standard alphabet with
/// `=` padding and no line wrapping, a function of the input bytes alone.
#[verifier::external_body]
pub(crate) fn b64_encode(bytes: &Vec<u8>) -> (r: String)
    ensures
        r@ == base64_of(bytes@),
{
    base64::engine::general_purpose::STANDARD.encode(bytes)
}

} // verus!
