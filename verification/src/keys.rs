//! The public key and key pair values: curve identity plus the provider's
//! key object, with the uncompressed encoding of the public point kept as a
//! plain byte string so that the wire encoding can be reasoned about.

use vstd::prelude::*;
use vstd::slice::slice_to_vec;
use vstd::string::StringExecFns;
use openssl::ec::{EcGroupRef, EcKey, EcPointRef};
use openssl::pkey::{Private, Public};
use crate::Error;
use crate::codec::{bytes_eq, encode_blob, spec_blob};
use crate::curve::{EcCurve, name_chars, spec_size};
use crate::provider;

verus! {

/// What a key looks like to the contracts: its curve and the uncompressed
/// encoding of its public point.
pub struct KeyView {
    pub curve: EcCurve,
    pub point: Seq<u8>,
}

/// Two keys are equal when they lie on the same curve and their public
/// points coincide: on one group the uncompressed encoding determines the
/// point, so point equality is encoding equality. Curve identity stands in
/// for full group equality, an approximation inherited from the provider's
/// named-curve handles.
pub open spec fn spec_key_eq(a: KeyView, b: KeyView) -> bool {
    a.curve == b.curve && a.point == b.point
}

/// What `verify` returns, as a function of the key's curve and point, the
/// data and the signature: the provider's outcome, with inputs it cannot
/// process surfaced as `Crypto`.
pub open spec fn spec_verify_result(
    curve: EcCurve,
    point: Seq<u8>,
    data: Seq<u8>,
    sig: Seq<u8>,
) -> Result<bool, Error> {
    match provider::verify_outcome(curve, point, data, sig) {
        Some(b) => Ok(b),
        None => Err(Error::Crypto),
    }
}

/// An ECDSA public key: a supported curve and a public point on it, held as
/// the provider's key object. The uncompressed point encoding is captured
/// once at construction.
#[derive(Debug)]
pub struct EcDsaPublicKey {
    pub(crate) key: EcKey<Public>,
    curve: EcCurve,
    point: Vec<u8>,
}

impl View for EcDsaPublicKey {
    type V = KeyView;

    closed spec fn view(&self) -> KeyView {
        KeyView { curve: self.curve, point: self.point@ }
    }
}

impl EcDsaPublicKey {
    /// Builds a public key from a group and a point. Succeeds exactly when
    /// the group names a supported curve and the provider accepts and can
    /// encode the material, and then carries that curve and that encoding;
    /// every failure is `InvalidFormat`.
    pub fn new(group: &EcGroupRef, public_key: &EcPointRef) -> (r: Result<Self, Error>)
        ensures
            (r is Ok) <==> (provider::designation_of(*group) is Some
                && provider::accepts_public_key(*group, *public_key)
                && provider::point_bytes_of(*group, *public_key) is Some),
            r matches Ok(k) ==> Some(k@.curve) == provider::designation_of(*group)
                && Some(k@.point) == provider::point_bytes_of(*group, *public_key),
            r matches Err(e) ==> e == Error::InvalidFormat,
    {
        let curve = match crate::curve::curve_from_designation(provider::curve_of_group(group)) {
            Ok(c) => c,
            Err(e) => {
                return Err(e);
            },
        };
        let key = match provider::key_from_public_point(group, public_key) {
            Ok(k) => k,
            Err(_) => {
                return Err(Error::InvalidFormat);
            },
        };
        let point = match provider::uncompressed_point_bytes(group, public_key) {
            Ok(b) => b,
            Err(_) => {
                return Err(Error::InvalidFormat);
            },
        };
        Ok(EcDsaPublicKey { key, curve, point })
    }

    /// The curve's bit size: 256, 384 or 521.
    pub fn size(&self) -> (r: usize)
        ensures
            r == spec_size(self@.curve),
    {
        self.curve.size()
    }

    /// The SSH algorithm name of the key's curve.
    pub fn keytype(&self) -> (r: &'static str)
        ensures
            r@ == name_chars(self@.curve),
    {
        self.curve.name()
    }

    /// The canonical SSH public-key blob. Fails with `Encoding` only when the
    /// point encoding cannot be framed in a 4-byte length.
    pub fn blob(&self) -> (r: Result<Vec<u8>, Error>)
        ensures
            self@.point.len() <= 0xFFFF_FFFF ==> r is Ok,
            r matches Ok(b) ==> b@ == spec_blob(self@.curve, self@.point),
            r matches Err(e) ==> e == Error::Encoding && self@.point.len() > 0xFFFF_FFFF,
    {
        if self.point.len() > 0xFFFF_FFFF {
            return Err(Error::Encoding);
        }
        Ok(encode_blob(self.curve, self.point.as_slice()))
    }

    /// Verifies `sig` against the SHA-1 digest of `data` under this key.
    /// The result is a function of the key's curve and point, the data and
    /// the signature, so repeated calls on equal inputs agree. `Ok(false)` is
    /// a clean cryptographic mismatch; `Crypto` is returned exactly when the
    /// provider cannot process the inputs at all.
    pub fn verify(&self, data: &[u8], sig: &[u8]) -> (r: Result<bool, Error>)
        ensures
            r == spec_verify_result(self@.curve, self@.point, data@, sig@),
    {
        match provider::verify_sha1(self, data, sig) {
            Ok(b) => Ok(b),
            Err(_) => Err(Error::Crypto),
        }
    }

    /// The text form: the algorithm name, one space, and the base64 of the
    /// blob (standard alphabet, with padding, no line wrapping).
    pub fn to_text(&self) -> (r: Result<String, Error>)
        ensures
            self@.point.len() <= 0xFFFF_FFFF ==> r is Ok,
            r matches Ok(s) ==> s@ == name_chars(self@.curve) + " "@ + provider::base64_of(
                spec_blob(self@.curve, self@.point),
            ),
            r matches Err(e) ==> e == Error::Encoding,
    {
        let blob = match self.blob() {
            Ok(b) => b,
            Err(e) => {
                return Err(e);
            },
        };
        let body = provider::b64_encode(&blob);
        let mut text = self.curve.name().to_owned();
        text.append(" ");
        text.append(body.as_str());
        Ok(text)
    }
}

impl Clone for EcDsaPublicKey {
    /// A clone carries the same curve and point.
    fn clone(&self) -> (r: Self)
        ensures
            r@ == self@,
    {
        let r = EcDsaPublicKey {
            key: provider::clone_key_object(&self.key),
            curve: self.curve,
            point: slice_to_vec(self.point.as_slice()),
        };
        proof {
            assert(r@ =~= self@);
        }
        r
    }
}

impl PartialEq for EcDsaPublicKey {
    /// Equality per `spec_key_eq`: same curve, same public point.
    fn eq(&self, other: &Self) -> (r: bool) {
        self.curve == other.curve && bytes_eq(self.point.as_slice(), other.point.as_slice())
    }
}

impl vstd::std_specs::cmp::PartialEqSpecImpl for EcDsaPublicKey {
    open spec fn obeys_eq_spec() -> bool {
        true
    }

    open spec fn eq_spec(&self, other: &Self) -> bool {
        spec_key_eq(self@, other@)
    }
}

/// Law: keys with the same view are equal under `==`
/// (`spec_key_eq` is what `==` on `EcDsaPublicKey` means).
pub proof fn lemma_eq_same_view(a: EcDsaPublicKey, b: EcDsaPublicKey)
    requires
        a@ == b@,
    ensures
        spec_key_eq(a@, b@),
{
}

/// Law: keys on different curves are never equal under `==`, whatever their
/// point encodings hold.
pub proof fn lemma_eq_distinct_curves(a: EcDsaPublicKey, b: EcDsaPublicKey)
    requires
        a@.curve != b@.curve,
    ensures
        !spec_key_eq(a@, b@),
{
}

/// Law: two public keys built from one (group, point) input are equal under
/// `==`: the constructor's contract pins each accepted key's curve and point
/// to functions of that input.
pub proof fn lemma_new_deterministic(
    group: &EcGroupRef,
    point: &EcPointRef,
    k1: EcDsaPublicKey,
    k2: EcDsaPublicKey,
)
    requires
        Some(k1@.curve) == provider::designation_of(*group),
        Some(k1@.point) == provider::point_bytes_of(*group, *point),
        Some(k2@.curve) == provider::designation_of(*group),
        Some(k2@.point) == provider::point_bytes_of(*group, *point),
    ensures
        spec_key_eq(k1@, k2@),
{
}

/// An ECDSA key pair: a supported curve and the provider's private key
/// object. The uncompressed encoding of the derived public point is captured
/// once at construction; the private scalar never leaves the provider object.
pub struct EcDsaKeyPair {
    key: EcKey<Private>,
    curve: EcCurve,
    point: Vec<u8>,
}

impl View for EcDsaKeyPair {
    type V = KeyView;

    closed spec fn view(&self) -> KeyView {
        KeyView { curve: self.curve, point: self.point@ }
    }
}

impl EcDsaKeyPair {
    /// The provider key object the pair wraps, for contracts that speak of
    /// the provider's outcomes on it.
    pub closed spec fn key_handle(&self) -> EcKey<Private> {
        self.key
    }

    /// Wraps a private key object. Succeeds exactly when the key's group
    /// names a supported curve and the provider can encode its derived public
    /// point, and then carries that curve and that encoding; every failure is
    /// `InvalidFormat`.
    pub fn new(key: EcKey<Private>) -> (r: Result<Self, Error>)
        ensures
            (r is Ok) <==> (provider::pair_designation_of(key) is Some
                && provider::pair_point_bytes_of(key) is Some),
            r matches Ok(p) ==> Some(p@.curve) == provider::pair_designation_of(key)
                && Some(p@.point) == provider::pair_point_bytes_of(key)
                && p.key_handle() == key,
            r matches Err(e) ==> e == Error::InvalidFormat,
    {
        let curve = match crate::curve::curve_from_designation(provider::pair_curve(&key)) {
            Ok(c) => c,
            Err(e) => {
                return Err(e);
            },
        };
        let point = match provider::pair_point_bytes(&key) {
            Ok(b) => b,
            Err(_) => {
                return Err(Error::InvalidFormat);
            },
        };
        Ok(EcDsaKeyPair { key, curve, point })
    }

    /// Derives the pair's public counterpart: same curve, same public point.
    /// Succeeds exactly when the provider accepts the pair's own (group,
    /// point) back as public-key material; the failure is `InvalidFormat`.
    pub fn clone_public_key(&self) -> (r: Result<EcDsaPublicKey, Error>)
        ensures
            (r is Ok) <==> provider::pair_public_acceptance(self.key_handle()),
            r matches Ok(pk) ==> pk@ == self@,
            r matches Err(e) ==> e == Error::InvalidFormat,
    {
        let key = match provider::public_from_pair(&self.key) {
            Ok(k) => k,
            Err(_) => {
                return Err(Error::InvalidFormat);
            },
        };
        let pk = EcDsaPublicKey { key, curve: self.curve, point: slice_to_vec(
            self.point.as_slice(),
        ) };
        proof {
            assert(pk@ =~= self@);
        }
        Ok(pk)
    }

    /// The curve's bit size: 256, 384 or 521.
    pub fn size(&self) -> (r: usize)
        ensures
            r == spec_size(self@.curve),
    {
        self.curve.size()
    }

    /// The SSH algorithm name of the pair's curve.
    pub fn keytype(&self) -> (r: &'static str)
        ensures
            r@ == name_chars(self@.curve),
    {
        self.curve.name()
    }

    /// The canonical SSH public-key blob over the pair's public point; the
    /// same contract as the public key's `blob`.
    pub fn blob(&self) -> (r: Result<Vec<u8>, Error>)
        ensures
            self@.point.len() <= 0xFFFF_FFFF ==> r is Ok,
            r matches Ok(b) ==> b@ == spec_blob(self@.curve, self@.point),
            r matches Err(e) ==> e == Error::Encoding && self@.point.len() > 0xFFFF_FFFF,
    {
        if self.point.len() > 0xFFFF_FFFF {
            return Err(Error::Encoding);
        }
        Ok(encode_blob(self.curve, self.point.as_slice()))
    }

    /// Verifies through a freshly derived public key; the private scalar is
    /// never used. When the derivation goes through, the result is the same
    /// function of the pair's curve and point as the public key's `verify`;
    /// `InvalidFormat` comes exactly when the derivation fails.
    pub fn verify(&self, data: &[u8], sig: &[u8]) -> (r: Result<bool, Error>)
        ensures
            provider::pair_public_acceptance(self.key_handle()) ==> r == spec_verify_result(
                self@.curve,
                self@.point,
                data@,
                sig@,
            ),
            !provider::pair_public_acceptance(self.key_handle()) ==> r == Err::<bool, Error>(
                Error::InvalidFormat,
            ),
    {
        let pk = match self.clone_public_key() {
            Ok(k) => k,
            Err(e) => {
                return Err(e);
            },
        };
        pk.verify(data, sig)
    }

    /// Signs the SHA-1 digest of `data` (SHA-1 for every curve size, an SSH
    /// wire-compatibility choice) and returns the provider's DER-encoded
    /// signature. Fails with `Crypto` exactly when the provider fails.
    pub fn sign(&self, data: &[u8]) -> (r: Result<Vec<u8>, Error>)
        ensures
            r matches Err(e) ==> e == Error::Crypto,
    {
        match provider::sign_sha1(&self.key, data) {
            Ok(sig) => Ok(sig),
            Err(_) => Err(Error::Crypto),
        }
    }
}

} // verus!
