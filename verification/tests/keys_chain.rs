//! Keys, hashing and the certificate chain, exercised against real
//! certificates built and signed in the test.

use attestation::cert::{certs_from_pem, CertChain};
use attestation::errors::Error;
use attestation::key::Key;
use openssl::asn1::Asn1Time;
use openssl::bn::{BigNum, BigNumContext};
use openssl::ec::{EcGroup, EcKey, PointConversionForm};
use openssl::hash::MessageDigest;
use openssl::nid::Nid;
use openssl::pkey::{PKey, Private, Public};
use openssl::sha::sha256;
use openssl::x509::{X509Builder, X509NameBuilder, X509};

fn p256_group() -> EcGroup {
    EcGroup::from_curve_name(Nid::X9_62_PRIME256V1).unwrap()
}

fn gen_keypair() -> (PKey<Private>, PKey<Public>) {
    let group = p256_group();
    let sk = EcKey::generate(&group).unwrap();
    let pk_ec = EcKey::from_public_key(&group, sk.public_key()).unwrap();
    let pk = PKey::from_ec_key(pk_ec).unwrap();
    (PKey::from_ec_key(sk).unwrap(), pk)
}

fn xy_of(pk: &PKey<Public>) -> Vec<u8> {
    let group = p256_group();
    let ec = pk.ec_key().unwrap();
    let mut ctx = BigNumContext::new().unwrap();
    let mut x = BigNum::new().unwrap();
    let mut y = BigNum::new().unwrap();
    ec.public_key().affine_coordinates(&group, &mut x, &mut y, &mut ctx).unwrap();
    let mut out = x.to_vec_padded(32).unwrap();
    out.extend(y.to_vec_padded(32).unwrap());
    out
}

fn point_bytes_of(pk: &PKey<Public>, compressed: bool) -> Vec<u8> {
    let group = p256_group();
    let ec = pk.ec_key().unwrap();
    let mut ctx = BigNumContext::new().unwrap();
    let form = if compressed {
        PointConversionForm::COMPRESSED
    } else {
        PointConversionForm::UNCOMPRESSED
    };
    ec.public_key().to_bytes(&group, form, &mut ctx).unwrap()
}

fn make_cert(subject: &str, issuer: &str, pubkey: &PKey<Public>, signer: &PKey<Private>) -> X509 {
    let mut nb = X509NameBuilder::new().unwrap();
    nb.append_entry_by_text("CN", subject).unwrap();
    let sname = nb.build();
    let mut ib = X509NameBuilder::new().unwrap();
    ib.append_entry_by_text("CN", issuer).unwrap();
    let iname = ib.build();
    let mut b = X509Builder::new().unwrap();
    b.set_version(2).unwrap();
    b.set_subject_name(&sname).unwrap();
    b.set_issuer_name(&iname).unwrap();
    b.set_pubkey(pubkey).unwrap();
    b.set_not_before(&Asn1Time::days_from_now(0).unwrap()).unwrap();
    b.set_not_after(&Asn1Time::days_from_now(365).unwrap()).unwrap();
    let serial = BigNum::from_u32(1).unwrap().to_asn1_integer().unwrap();
    b.set_serial_number(&serial).unwrap();
    b.sign(signer, MessageDigest::sha256()).unwrap();
    b.build()
}

#[test]
fn key_from_valid_coordinates() {
    let (_, pk) = gen_keypair();
    let xy = xy_of(&pk);
    assert!(Key::new_from_xy(&xy).is_ok());
}

#[test]
fn key_from_off_curve_coordinates_fails() {
    // (1, 1) does not lie on P-256.
    let mut xy = [0u8; 64];
    xy[31] = 1;
    xy[63] = 1;
    assert_eq!(Key::new_from_xy(&xy).err().unwrap(), Error::InvalidPoint);
}

#[test]
fn key_from_point_bytes_both_forms() {
    let (_, pk) = gen_keypair();
    assert!(Key::new_from_bytes(&point_bytes_of(&pk, false)).is_ok());
    assert!(Key::new_from_bytes(&point_bytes_of(&pk, true)).is_ok());
}

#[test]
fn key_from_invalid_point_bytes_fails() {
    let mut bytes = [0u8; 65];
    bytes[0] = 0x04;
    bytes[32] = 1;
    bytes[64] = 1;
    assert_eq!(Key::new_from_bytes(&bytes).err().unwrap(), Error::InvalidEncoding);
}

#[test]
fn generated_pair_exports_uncompressed_point() {
    let pair = Key::new_pair_secp256r1().unwrap();
    let bytes = pair.return_pubkey_bytes().unwrap();
    assert_eq!(bytes.len(), 65);
    assert_eq!(bytes[0], 0x04);
    let compressed = pair.return_pubkey_bytes_compressed().unwrap();
    assert_eq!(compressed.len(), 33);
    assert!(compressed[0] == 0x02 || compressed[0] == 0x03);
}

#[test]
fn shared_secret_is_symmetric() {
    // Diffie-Hellman symmetry: each side combines its private key with the
    // other's public point and lands on the same secret.
    let a = Key::new_pair_secp256r1().unwrap();
    let b = Key::new_pair_secp256r1().unwrap();
    let a_pub = Key::new_from_bytes(&a.return_pubkey_bytes().unwrap()).unwrap();
    let b_pub = Key::new_from_bytes(&b.return_pubkey_bytes().unwrap()).unwrap();
    let s1 = a.derive_shared_secret(b_pub.return_pubkey()).unwrap();
    let s2 = b.derive_shared_secret(a_pub.return_pubkey()).unwrap();
    assert_eq!(s1, s2);
    assert_eq!(s1.len(), 32);
}

#[test]
fn session_keys_agree_across_roles() {
    // Each endpoint derives the session key from its own pair and the
    // other's transmitted point; both land on the same symmetric key.
    let a = Key::new_pair_secp256r1().unwrap();
    let b = Key::new_pair_secp256r1().unwrap();
    let ka = attestation::session::agree_session_key(&a, &b.return_pubkey_bytes().unwrap())
        .unwrap();
    let kb = attestation::session::agree_session_key(&b, &a.return_pubkey_bytes().unwrap())
        .unwrap();
    assert_eq!(ka, kb);
    assert_eq!(ka.len(), 32);
}

#[test]
fn session_keys_agree_across_encodings() {
    // The real exchange's shape: one side's point travels compressed (in the
    // report data), the other's uncompressed; both still land on the same
    // session key.
    let enclave_side = Key::new_pair_secp256r1().unwrap();
    let tenant_side = Key::new_pair_secp256r1().unwrap();
    let compressed = enclave_side.return_pubkey_bytes_compressed().unwrap();
    let uncompressed = tenant_side.return_pubkey_bytes().unwrap();
    let kt = attestation::session::agree_session_key(&tenant_side, &compressed).unwrap();
    let ke = attestation::session::agree_session_key(&enclave_side, &uncompressed).unwrap();
    assert_eq!(kt, ke);
}

#[test]
fn transmitted_point_round_trips() {
    // The wire round trip: each exported encoding of a generated pair's
    // public point decodes again on the other side.
    let pair = Key::new_pair_secp256r1().unwrap();
    assert!(Key::new_from_bytes(&pair.return_pubkey_bytes().unwrap()).is_ok());
    assert!(Key::new_from_bytes(&pair.return_pubkey_bytes_compressed().unwrap()).is_ok());
}

#[test]
fn derive_without_private_key_fails() {
    let a = Key::new_pair_secp256r1().unwrap();
    let pub_only = Key::new_from_bytes(&a.return_pubkey_bytes().unwrap()).unwrap();
    let err = pub_only.derive_shared_secret(a.return_pubkey()).err().unwrap();
    assert_eq!(err, Error::NoPrivateKey);
}

#[test]
fn verify_sig_accepts_and_rejects() {
    let (sk, pk) = gen_keypair();
    let msg = b"signed material";
    let digest = sha256(msg);
    let ec_sk = sk.ec_key().unwrap();
    let sig = openssl::ecdsa::EcdsaSig::sign(&digest, &ec_sk).unwrap().to_der().unwrap();
    let key = Key::new_from_pubkey(pk);
    assert!(key.verify_sig(msg, &sig).is_ok());
    assert_eq!(key.verify_sig(b"other material", &sig).err().unwrap(), Error::SignatureInvalid);
    let mut bad = sig.clone();
    let last = bad.len() - 1;
    bad[last] ^= 0x01;
    assert_eq!(key.verify_sig(msg, &bad).err().unwrap(), Error::SignatureInvalid);
}

#[test]
fn verify_hash_binds_every_byte() {
    // The hash binding must fail if a single byte of the unhashed data is
    // altered, even though the altered value is otherwise well formed.
    let key = Key::new_pair_secp256r1().unwrap();
    let data = b"attestation key material".to_vec();
    let hash = sha256(&data);
    assert!(key.verify_hash(&hash, data.clone()).is_ok());
    let mut altered = data.clone();
    altered[3] ^= 0x01;
    assert!(key.verify_hash(&hash, altered).is_err());
    let mut short = data.clone();
    short.pop();
    assert!(key.verify_hash(&hash, short).is_err());
}

#[test]
fn chain_of_three_verifies() {
    // Root signs itself, the intermediate is signed by the root, the leaf by
    // the intermediate: both walks succeed on a correctly signed chain.
    let (root_sk, root_pk) = gen_keypair();
    let (int_sk, int_pk) = gen_keypair();
    let (_leaf_sk, leaf_pk) = gen_keypair();
    let root = make_cert("root", "root", &root_pk, &root_sk);
    let intermediate = make_cert("intermediate", "root", &int_pk, &root_sk);
    let leaf = make_cert("leaf", "intermediate", &leaf_pk, &int_sk);
    let mut pem = intermediate.to_pem().unwrap();
    pem.extend(root.to_pem().unwrap());
    let trust = certs_from_pem(&pem).unwrap();
    let leaf_pem = leaf.to_pem().unwrap();
    let leaf_certs = certs_from_pem(&leaf_pem).unwrap();
    let chain = CertChain::new_from_chain(trust, &leaf_certs[0]);
    assert!(chain.len_ok().is_ok());
    assert!(chain.verify_issuers().is_ok());
    assert!(chain.verify_sigs().is_ok());
}

#[test]
fn chain_with_wrongly_signed_link_fails() {
    // The intermediate claims the root as issuer but was signed by an
    // unrelated key: the issuer walk passes, the signature walk fails.
    let (root_sk, root_pk) = gen_keypair();
    let (int_sk, int_pk) = gen_keypair();
    let (rogue_sk, _) = gen_keypair();
    let (_leaf_sk, leaf_pk) = gen_keypair();
    let root = make_cert("root", "root", &root_pk, &root_sk);
    let intermediate = make_cert("intermediate", "root", &int_pk, &rogue_sk);
    let leaf = make_cert("leaf", "intermediate", &leaf_pk, &int_sk);
    let mut pem = intermediate.to_pem().unwrap();
    pem.extend(root.to_pem().unwrap());
    let trust = certs_from_pem(&pem).unwrap();
    let leaf_pem = leaf.to_pem().unwrap();
    let leaf_certs = certs_from_pem(&leaf_pem).unwrap();
    let chain = CertChain::new_from_chain(trust, &leaf_certs[0]);
    assert!(chain.verify_issuers().is_ok());
    assert_eq!(chain.verify_sigs().err().unwrap(), Error::ChainSignatureInvalid);
}

#[test]
fn chain_with_issuer_mismatch_fails() {
    let (root_sk, root_pk) = gen_keypair();
    let (_int_sk, int_pk) = gen_keypair();
    let (_leaf_sk, leaf_pk) = gen_keypair();
    let root = make_cert("root", "root", &root_pk, &root_sk);
    // The intermediate names a different issuer than the root's subject.
    let intermediate = make_cert("intermediate", "someone else", &int_pk, &root_sk);
    let leaf = make_cert("leaf", "intermediate", &leaf_pk, &root_sk);
    let mut pem = intermediate.to_pem().unwrap();
    pem.extend(root.to_pem().unwrap());
    let trust = certs_from_pem(&pem).unwrap();
    let leaf_pem = leaf.to_pem().unwrap();
    let leaf_certs = certs_from_pem(&leaf_pem).unwrap();
    let chain = CertChain::new_from_chain(trust, &leaf_certs[0]);
    assert_eq!(chain.verify_issuers().err().unwrap(), Error::IssuerMismatch);
}

#[test]
fn chain_too_short() {
    let (root_sk, root_pk) = gen_keypair();
    let root = make_cert("root", "root", &root_pk, &root_sk);
    let pem = root.to_pem().unwrap();
    let certs = certs_from_pem(&pem).unwrap();
    let leaf = certs[0].duplicate();
    let chain = CertChain::new_from_chain(Vec::new(), &leaf);
    assert_eq!(chain.len_ok().err().unwrap(), Error::ChainTooShort);
}

#[test]
fn pem_parsing_keeps_order_and_rejects_garbage() {
    let (root_sk, root_pk) = gen_keypair();
    let a = make_cert("first", "first", &root_pk, &root_sk);
    let b = make_cert("second", "second", &root_pk, &root_sk);
    let mut pem = a.to_pem().unwrap();
    pem.extend(b.to_pem().unwrap());
    let certs = certs_from_pem(&pem).unwrap();
    assert_eq!(certs.len(), 2);
    // A block whose base64 content is corrupted does not parse.
    let mut broken = a.to_pem().unwrap();
    broken[40] = b'!';
    broken[41] = b'!';
    assert!(certs_from_pem(&broken).is_err());
}
