//! The blob codec: the canonical SSH wire encoding of an elliptic-curve
//! public key. Every field is length-prefixed: a 4-byte big-endian length
//! followed by the raw bytes.

use vstd::prelude::*;
use vstd::string::StrSliceExecFns;
use vstd::string::StringSliceAdditionalSpecFns;
use crate::curve::{EcCurve, name_bytes, ident_bytes};

verus! {

/// A length as four big-endian bytes.
pub open spec fn be32(n: u32) -> Seq<u8> {
    seq![(n >> 24) as u8, ((n >> 16) & 0xff) as u8, ((n >> 8) & 0xff) as u8, (n & 0xff) as u8]
}

/// An SSH string: 4-byte big-endian length, then the raw bytes. The same
/// framing serves text fields and byte-string fields.
pub open spec fn spec_ssh_string(d: Seq<u8>) -> Seq<u8>
    recommends
        d.len() <= 0xFFFF_FFFF,
{
    be32(d.len() as u32) + d
}

/// The SSH public-key blob: the algorithm name, the short curve identifier,
/// and the uncompressed point encoding, each as an SSH string, nothing else.
pub open spec fn spec_blob(c: EcCurve, point: Seq<u8>) -> Seq<u8>
    recommends
        point.len() <= 0xFFFF_FFFF,
{
    spec_ssh_string(name_bytes(c)) + spec_ssh_string(ident_bytes(c)) + spec_ssh_string(point)
}

/// Appends one SSH string to `out`.
fn push_ssh_string(out: &mut Vec<u8>, data: &[u8])
    requires
        data@.len() <= 0xFFFF_FFFF,
    ensures
        final(out)@ == old(out)@ + spec_ssh_string(data@),
{
    let n: u32 = data.len() as u32;
    out.push((n >> 24) as u8);
    out.push(((n >> 16) & 0xff) as u8);
    out.push(((n >> 8) & 0xff) as u8);
    out.push((n & 0xff) as u8);
    let ghost framed = out@;
    proof {
        assert(framed =~= old(out)@ + be32(data@.len() as u32));
    }
    let mut i: usize = 0;
    while i < data.len()
        invariant
            i <= data@.len(),
            out@ == framed + data@.subrange(0, i as int),
        decreases data@.len() - i,
    {
        out.push(data[i]);
        proof {
            assert(out@ =~= framed + data@.subrange(0, i + 1));
        }
        i = i + 1;
    }
    proof {
        assert(data@.subrange(0, data@.len() as int) =~= data@);
        assert(out@ =~= old(out)@ + spec_ssh_string(data@));
    }
}

/// Encodes the blob for a curve and an uncompressed public point.
pub fn encode_blob(curve: EcCurve, point: &[u8]) -> (r: Vec<u8>)
    requires
        point@.len() <= 0xFFFF_FFFF,
    ensures
        r@ == spec_blob(curve, point@),
{
    let mut out: Vec<u8> = Vec::new();
    let name = curve.name();
    let name_b = name.as_bytes_vec();
    push_ssh_string(&mut out, name_b.as_slice());
    let ident = curve.ident();
    let ident_b = ident.as_bytes_vec();
    push_ssh_string(&mut out, ident_b.as_slice());
    push_ssh_string(&mut out, point);
    proof {
        assert(out@ =~= spec_blob(curve, point@));
    }
    out
}

/// Byte-wise equality of two byte strings.
pub fn bytes_eq(a: &[u8], b: &[u8]) -> (r: bool)
    ensures
        r == (a@ == b@),
{
    if a.len() != b.len() {
        proof {
            assert(a@.len() != b@.len());
        }
        return false;
    }
    let mut i: usize = 0;
    while i < a.len()
        invariant
            a@.len() == b@.len(),
            i <= a@.len(),
            forall|j: int| 0 <= j < i ==> a@[j] == b@[j],
        decreases a@.len() - i,
    {
        if a[i] != b[i] {
            proof {
                assert(a@[i as int] != b@[i as int]);
            }
            return false;
        }
        i = i + 1;
    }
    proof {
        assert(a@ =~= b@);
    }
    true
}

} // verus!
