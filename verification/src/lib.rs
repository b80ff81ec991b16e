//! ECDSA key representation over the NIST P-256/P-384/P-521 curves and the
//! SSH binary encoding of their public keys, with the signing and
//! verification operations bound to that representation. The curve registry,
//! the wire encoding and the error discipline are verified; the elliptic-curve
//! arithmetic itself is the crypto provider's and stands behind the trusted
//! boundary in `provider`.

use vstd::prelude::*;

verus! {

/// Failure cases surfaced by the key operations.
#[derive(Debug, Clone, Copy, PartialEq, Eq, Structural)]
pub enum Error {
    /// A curve identifier outside the supported set was given to `from_str`.
    UnsupportedCurve,
    /// A group or key material does not describe a supported curve, or the
    /// crypto provider rejected it during key construction.
    InvalidFormat,
    /// Signing or verification failed for a reason other than a clean
    /// cryptographic mismatch (for example, a signature that cannot be parsed).
    Crypto,
    /// Wire serialization cannot frame the data.
    Encoding,
}

} // verus!

pub mod curve;
pub mod codec;
pub mod provider;
pub mod keys;

pub use curve::EcCurve;
pub use keys::{EcDsaKeyPair, EcDsaPublicKey, KeyView};
