use openssl::bn::BigNumContext;
use openssl::ec::{EcGroup, EcKey, EcPoint};
use openssl::nid::Nid;

use sshkey_ecdsa::{EcCurve, EcDsaKeyPair, EcDsaPublicKey, Error};

const PUB_STR: &str = "ecdsa-sha2-nistp256 AAAAE2VjZHNhLXNoYTItbmlzdHAyNTYAAAAIbmlzdHAyNTYAAABBBKtcK82cEoqjiXyqPpyQAlkOQYs8LL5dDahPah5dqoaJfVHcKS5CJYBX0Ow+Dlj9xKtSQRCyJXOCEtJx+k4LUV0=";

const IDENT: [u8; 0x08] = [0x6e, 0x69, 0x73, 0x74, 0x70, 0x32, 0x35, 0x36];

const PUB_KEY: [u8; 0x41] = [
    0x04, 0xab, 0x5c, 0x2b, 0xcd, 0x9c, 0x12, 0x8a, 0xa3, 0x89, 0x7c, 0xaa, 0x3e, 0x9c, 0x90,
    0x02, 0x59, 0x0e, 0x41, 0x8b, 0x3c, 0x2c, 0xbe, 0x5d, 0x0d, 0xa8, 0x4f, 0x6a, 0x1e, 0x5d,
    0xaa, 0x86, 0x89, 0x7d, 0x51, 0xdc, 0x29, 0x2e, 0x42, 0x25, 0x80, 0x57, 0xd0, 0xec, 0x3e,
    0x0e, 0x58, 0xfd, 0xc4, 0xab, 0x52, 0x41, 0x10, 0xb2, 0x25, 0x73, 0x82, 0x12, 0xd2, 0x71,
    0xfa, 0x4e, 0x0b, 0x51, 0x5d,
];

fn get_test_pubkey() -> Result<EcDsaPublicKey, Error> {
    let ident_str = std::str::from_utf8(&IDENT).unwrap();
    let curve = EcCurve::from_str(ident_str)?;
    let group = curve.group().unwrap();
    let mut bn_ctx = BigNumContext::new().unwrap();
    let point = EcPoint::from_bytes(&group, &PUB_KEY, &mut bn_ctx).unwrap();
    EcDsaPublicKey::new(&group, &point)
}

fn generate_pair(curve: EcCurve) -> EcDsaKeyPair {
    let group = curve.group().unwrap();
    let key = EcKey::generate(&group).unwrap();
    EcDsaKeyPair::new(key).unwrap()
}

#[test]
fn ecdsa_publickey_serialize() {
    let key = get_test_pubkey().unwrap();
    assert_eq!(key.to_text().unwrap(), String::from(PUB_STR));
}

#[test]
fn ecdsa_publickey_size() {
    let key = get_test_pubkey().unwrap();
    assert_eq!(key.size(), 256);
}

#[test]
fn curve_ident_round_trip() {
    let curves = [EcCurve::Nistp256, EcCurve::Nistp384, EcCurve::Nistp521];
    for curve in curves {
        assert_eq!(EcCurve::from_str(curve.ident()), Ok(curve));
    }
}

#[test]
fn curve_parse_rejects_unknown() {
    let bad = ["", "nistp", "nistp123", "NISTP256", "nistp2566", "nistp25", "ecdsa-sha2-nistp256"];
    for s in bad {
        assert_eq!(EcCurve::from_str(s), Err(Error::UnsupportedCurve));
    }
}

#[test]
fn curve_sizes() {
    assert_eq!(EcCurve::Nistp256.size(), 256);
    assert_eq!(EcCurve::Nistp384.size(), 384);
    assert_eq!(EcCurve::Nistp521.size(), 521);
}

#[test]
fn key_sizes_match_curves() {
    assert_eq!(generate_pair(EcCurve::Nistp256).size(), 256);
    assert_eq!(generate_pair(EcCurve::Nistp384).size(), 384);
    assert_eq!(generate_pair(EcCurve::Nistp521).size(), 521);
    assert_eq!(
        generate_pair(EcCurve::Nistp521).clone_public_key().unwrap().size(),
        521
    );
}

#[test]
fn keytype_names() {
    assert_eq!(generate_pair(EcCurve::Nistp256).keytype(), "ecdsa-sha2-nistp256");
    assert_eq!(generate_pair(EcCurve::Nistp384).keytype(), "ecdsa-sha2-nistp384");
    assert_eq!(generate_pair(EcCurve::Nistp521).keytype(), "ecdsa-sha2-nistp521");
    assert_eq!(get_test_pubkey().unwrap().keytype(), "ecdsa-sha2-nistp256");
}

#[test]
fn blob_known_bytes() {
    let key = get_test_pubkey().unwrap();
    let blob = key.blob().unwrap();
    let mut expected: Vec<u8> = Vec::new();
    let name = b"ecdsa-sha2-nistp256";
    expected.extend_from_slice(&(name.len() as u32).to_be_bytes());
    expected.extend_from_slice(name);
    expected.extend_from_slice(&(IDENT.len() as u32).to_be_bytes());
    expected.extend_from_slice(&IDENT);
    expected.extend_from_slice(&(PUB_KEY.len() as u32).to_be_bytes());
    expected.extend_from_slice(&PUB_KEY);
    assert_eq!(blob, expected);
}

#[test]
fn encode_blob_matches_key_blob() {
    let key = get_test_pubkey().unwrap();
    let direct = sshkey_ecdsa::codec::encode_blob(EcCurve::Nistp256, &PUB_KEY);
    assert_eq!(key.blob().unwrap(), direct);
}

#[test]
fn sign_verify_round_trip() {
    let curves = [EcCurve::Nistp256, EcCurve::Nistp384, EcCurve::Nistp521];
    for curve in curves {
        let pair = generate_pair(curve);
        let msg = b"the quality of mercy is not strained";
        let sig = pair.sign(msg).unwrap();
        let public = pair.clone_public_key().unwrap();
        assert_eq!(public.verify(msg, &sig), Ok(true));
        assert_eq!(pair.verify(msg, &sig), Ok(true));
    }
}

#[test]
fn verify_wrong_signature_is_false() {
    let pair = generate_pair(EcCurve::Nistp256);
    let sig = pair.sign(b"first message").unwrap();
    let public = pair.clone_public_key().unwrap();
    assert_eq!(public.verify(b"second message", &sig), Ok(false));
}

#[test]
fn verify_unparseable_signature_is_error() {
    let pair = generate_pair(EcCurve::Nistp256);
    let public = pair.clone_public_key().unwrap();
    let garbage = [0x00u8, 0x01, 0x02, 0x03];
    assert_eq!(public.verify(b"a message", &garbage), Err(Error::Crypto));
}

#[test]
fn verify_signature_from_other_key_is_false() {
    let pair_a = generate_pair(EcCurve::Nistp256);
    let pair_b = generate_pair(EcCurve::Nistp256);
    let msg = b"signed under key a";
    let sig = pair_a.sign(msg).unwrap();
    let public_b = pair_b.clone_public_key().unwrap();
    assert_eq!(public_b.verify(msg, &sig), Ok(false));
}

#[test]
fn publickey_equality_same_input() {
    let group = EcGroup::from_curve_name(EcCurve::Nistp256.nid()).unwrap();
    let mut bn_ctx = BigNumContext::new().unwrap();
    let point = EcPoint::from_bytes(&group, &PUB_KEY, &mut bn_ctx).unwrap();
    let a = EcDsaPublicKey::new(&group, &point).unwrap();
    let b = EcDsaPublicKey::new(&group, &point).unwrap();
    assert!(a == b);
}

#[test]
fn publickey_inequality_distinct_curves() {
    let a = generate_pair(EcCurve::Nistp256).clone_public_key().unwrap();
    let b = generate_pair(EcCurve::Nistp384).clone_public_key().unwrap();
    assert!(a != b);
    let c = generate_pair(EcCurve::Nistp256).clone_public_key().unwrap();
    assert!(a != c);
}

#[test]
fn construction_rejects_unsupported_group() {
    let group = EcGroup::from_curve_name(Nid::SECP256K1).unwrap();
    let key = EcKey::generate(&group).unwrap();
    let result = EcDsaPublicKey::new(&group, key.public_key());
    assert_eq!(result.err(), Some(Error::InvalidFormat));
    let pair = EcDsaKeyPair::new(key);
    assert_eq!(pair.err(), Some(Error::InvalidFormat));
}

#[test]
fn keypair_blob_matches_derived_public() {
    let pair = generate_pair(EcCurve::Nistp384);
    let public = pair.clone_public_key().unwrap();
    assert_eq!(pair.blob().unwrap(), public.blob().unwrap());
    assert_eq!(pair.keytype(), public.keytype());
    assert_eq!(pair.size(), public.size());
}

#[test]
fn public_text_form_is_name_space_base64() {
    let pair = generate_pair(EcCurve::Nistp521);
    let public = pair.clone_public_key().unwrap();
    let text = public.to_text().unwrap();
    let mut parts = text.split(' ');
    assert_eq!(parts.next(), Some("ecdsa-sha2-nistp521"));
    let body = parts.next().unwrap();
    assert!(parts.next().is_none());
    assert!(!body.is_empty());
}

#[test]
fn publickey_clone_is_equal() {
    let key = get_test_pubkey().unwrap();
    let copy = key.clone();
    assert!(key == copy);
    assert_eq!(copy.to_text().unwrap(), String::from(PUB_STR));
    assert_eq!(copy.size(), key.size());
}

#[test]
fn verify_repeat_calls_agree() {
    let pair = generate_pair(EcCurve::Nistp256);
    let public = pair.clone_public_key().unwrap();
    let msg = b"repeatable message";
    let sig = pair.sign(msg).unwrap();
    let first = public.verify(msg, &sig);
    let second = public.verify(msg, &sig);
    assert_eq!(first, second);
    assert_eq!(first, Ok(true));
    let garbage = [0xffu8; 7];
    assert_eq!(public.verify(msg, &garbage), public.verify(msg, &garbage));
    assert_eq!(pair.verify(msg, &sig), Ok(true));
}
