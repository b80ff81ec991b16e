//! The curve registry: the three supported NIST prime curves, their SSH
//! algorithm names, short identifiers, bit sizes, and the parser for the
//! short identifier form.

use vstd::prelude::*;
use vstd::string::StrSliceExecFns;
use vstd::string::StringSliceAdditionalSpecFns;
use crate::Error;

verus! {

/// The closed set of supported elliptic curves.
#[derive(Debug, Clone, Copy, PartialEq, Eq, Structural)]
pub enum EcCurve {
    Nistp256,
    Nistp384,
    Nistp521,
}

/// The bit size of each curve's field order: 256, 384 or 521.
pub open spec fn spec_size(c: EcCurve) -> usize {
    match c {
        EcCurve::Nistp256 => 256,
        EcCurve::Nistp384 => 384,
        EcCurve::Nistp521 => 521,
    }
}

/// The SSH algorithm name of each curve, as written on the wire and shown
/// before the base64 body in the text form.
pub open spec fn name_chars(c: EcCurve) -> Seq<char> {
    match c {
        EcCurve::Nistp256 => "ecdsa-sha2-nistp256"@,
        EcCurve::Nistp384 => "ecdsa-sha2-nistp384"@,
        EcCurve::Nistp521 => "ecdsa-sha2-nistp521"@,
    }
}

/// The short curve identifier, written inside the blob and accepted by `from_str`.
pub open spec fn ident_chars(c: EcCurve) -> Seq<char> {
    match c {
        EcCurve::Nistp256 => "nistp256"@,
        EcCurve::Nistp384 => "nistp384"@,
        EcCurve::Nistp521 => "nistp521"@,
    }
}

/// The bytes of an ASCII character sequence, one byte per character.
pub open spec fn ascii_bytes(s: Seq<char>) -> Seq<u8> {
    Seq::new(s.len(), |i| s[i] as u8)
}

/// The UTF-8 bytes of the algorithm name (the name is ASCII).
pub open spec fn name_bytes(c: EcCurve) -> Seq<u8> {
    ascii_bytes(name_chars(c))
}

/// The UTF-8 bytes of the short identifier (the identifier is ASCII).
pub open spec fn ident_bytes(c: EcCurve) -> Seq<u8> {
    ascii_bytes(ident_chars(c))
}

/// What parsing a short identifier returns: the curve whose identifier the
/// input equals exactly (no case folding, no partial match), and
/// `UnsupportedCurve` for every other input.
pub open spec fn spec_parse(s: Seq<char>) -> Result<EcCurve, Error> {
    if s == ident_chars(EcCurve::Nistp256) {
        Ok(EcCurve::Nistp256)
    } else if s == ident_chars(EcCurve::Nistp384) {
        Ok(EcCurve::Nistp384)
    } else if s == ident_chars(EcCurve::Nistp521) {
        Ok(EcCurve::Nistp521)
    } else {
        Err(Error::UnsupportedCurve)
    }
}

/// Character-wise string equality.
fn str_eq(a: &str, b: &str) -> (r: bool)
    ensures
        r == (a@ == b@),
{
    let alen = a.unicode_len();
    let blen = b.unicode_len();
    if alen != blen {
        proof {
            assert(a@.len() != b@.len());
        }
        return false;
    }
    let mut i: usize = 0;
    while i < alen
        invariant
            alen == a@.len(),
            alen == b@.len(),
            i <= alen,
            forall|j: int| 0 <= j < i ==> a@[j] == b@[j],
        decreases alen - i,
    {
        if a.get_char(i) != b.get_char(i) {
            proof {
                assert(a@[i as int] != b@[i as int]);
            }
            return false;
        }
        i = i + 1;
    }
    proof {
        assert(a@ =~= b@);
    }
    true
}

impl EcCurve {
    /// The curve's bit size: 256, 384 or 521.
    pub fn size(&self) -> (r: usize)
        ensures
            r == spec_size(*self),
    {
        match self {
            EcCurve::Nistp256 => 256,
            EcCurve::Nistp384 => 384,
            EcCurve::Nistp521 => 521,
        }
    }

    /// The canonical SSH algorithm name.
    pub fn name(&self) -> (r: &'static str)
        ensures
            r@ == name_chars(*self),
            r.spec_bytes() == name_bytes(*self),
            r@.len() == 19,
    {
        proof {
            reveal_strlit("ecdsa-sha2-nistp256");
            reveal_strlit("ecdsa-sha2-nistp384");
            reveal_strlit("ecdsa-sha2-nistp521");
        }
        let r = match self {
            EcCurve::Nistp256 => "ecdsa-sha2-nistp256",
            EcCurve::Nistp384 => "ecdsa-sha2-nistp384",
            EcCurve::Nistp521 => "ecdsa-sha2-nistp521",
        };
        proof {
            assert(vstd::string::is_ascii(r));
            vstd::string::is_ascii_spec_bytes(r);
            assert(r.spec_bytes() =~= name_bytes(*self));
        }
        r
    }

    /// The lowercase short curve identifier.
    pub fn ident(&self) -> (r: &'static str)
        ensures
            r@ == ident_chars(*self),
            r.spec_bytes() == ident_bytes(*self),
            r@.len() == 8,
    {
        proof {
            reveal_strlit("nistp256");
            reveal_strlit("nistp384");
            reveal_strlit("nistp521");
        }
        let r = match self {
            EcCurve::Nistp256 => "nistp256",
            EcCurve::Nistp384 => "nistp384",
            EcCurve::Nistp521 => "nistp521",
        };
        proof {
            assert(vstd::string::is_ascii(r));
            vstd::string::is_ascii_spec_bytes(r);
            assert(r.spec_bytes() =~= ident_bytes(*self));
        }
        r
    }

    /// Relies on openssl's `Nid` constants: `X9_62_PRIME256V1`, `SECP384R1`
    /// and `SECP521R1` are the provider's designations of the three supported
    /// curves. The handle is opaque here; nothing is proved of it.
    #[verifier::external_body]
    pub fn nid(&self) -> openssl::nid::Nid {
        match self {
            EcCurve::Nistp256 => openssl::nid::Nid::X9_62_PRIME256V1,
            EcCurve::Nistp384 => openssl::nid::Nid::SECP384R1,
            EcCurve::Nistp521 => openssl::nid::Nid::SECP521R1,
        }
    }

    /// Relies on openssl's `EcGroup::from_curve_name`
    /// (`EC_GROUP_new_by_curve_name`): builds the provider's group object for
    /// this curve's designation. The handle is opaque here; nothing is proved
    /// of it.
    #[verifier::external_body]
    pub fn group(&self) -> Result<openssl::ec::EcGroup, openssl::error::ErrorStack> {
        openssl::ec::EcGroup::from_curve_name(self.nid())
    }

    /// Parses a short curve identifier; accepts exactly the three canonical
    /// identifiers and rejects everything else with `UnsupportedCurve`.
    pub fn from_str(s: &str) -> (r: Result<EcCurve, Error>)
        ensures
            r == spec_parse(s@),
    {
        if str_eq(s, "nistp256") {
            Ok(EcCurve::Nistp256)
        } else if str_eq(s, "nistp384") {
            Ok(EcCurve::Nistp384)
        } else if str_eq(s, "nistp521") {
            Ok(EcCurve::Nistp521)
        } else {
            Err(Error::UnsupportedCurve)
        }
    }
}

/// The registry's decision for a group handle: the curve the provider's
/// designation names, and `InvalidFormat` exactly when the designation is
/// absent or outside the supported set (then the provider reports `None`).
pub fn curve_from_designation(designation: Option<EcCurve>) -> (r: Result<EcCurve, Error>)
    ensures
        designation matches Some(c) ==> r == Ok::<EcCurve, Error>(c),
        designation is None ==> r == Err::<EcCurve, Error>(Error::InvalidFormat),
{
    match designation {
        Some(c) => Ok(c),
        None => Err(Error::InvalidFormat),
    }
}

/// The three curve identifiers are pairwise distinct character sequences.
pub proof fn lemma_idents_distinct()
    ensures
        ident_chars(EcCurve::Nistp256) != ident_chars(EcCurve::Nistp384),
        ident_chars(EcCurve::Nistp256) != ident_chars(EcCurve::Nistp521),
        ident_chars(EcCurve::Nistp384) != ident_chars(EcCurve::Nistp521),
{
    reveal_strlit("nistp256");
    reveal_strlit("nistp384");
    reveal_strlit("nistp521");
    assert(("nistp256"@)[5] == '2');
    assert(("nistp384"@)[5] == '3');
    assert(("nistp521"@)[5] == '5');
}

/// Law: parsing a curve's own short identifier gives that curve back.
pub proof fn lemma_parse_ident_round_trip(c: EcCurve)
    ensures
        spec_parse(ident_chars(c)) == Ok::<EcCurve, Error>(c),
{
    lemma_idents_distinct();
}

/// Law: every input outside the three canonical identifiers is rejected
/// with `UnsupportedCurve`.
pub proof fn lemma_parse_unknown_rejected(s: Seq<char>)
    requires
        s != ident_chars(EcCurve::Nistp256),
        s != ident_chars(EcCurve::Nistp384),
        s != ident_chars(EcCurve::Nistp521),
    ensures
        spec_parse(s) == Err::<EcCurve, Error>(Error::UnsupportedCurve),
{
}

} // verus!
