//! Names and trusted wrappers for the cryptographic primitives the protocol
//! calls. Each name stands for what one outside function returns: the result
//! depends on the arguments alone, and nothing in this crate claims to know
//! its value on given inputs. The verified logic above these wrappers reasons
//! only through the contracts stated here.

use openssl::ec::EcKey;
use openssl::pkey::{PKey, Private, Public};
use vstd::prelude::*;

verus! {

// A public key and a private key of the outside backend are opaque values;
// the declarations let them stand in signatures and fields.
#[verifier::external_type_specification]
#[verifier::external_body]
pub struct ExPublic(Public);

#[verifier::external_type_specification]
#[verifier::external_body]
pub struct ExPrivate(Private);

#[verifier::external_type_specification]
#[verifier::external_body]
#[verifier::reject_recursive_types(T)]
pub struct ExPKey<T>(PKey<T>);

#[verifier::external_type_specification]
#[verifier::external_body]
#[verifier::reject_recursive_types(T)]
pub struct ExEcKey<T>(EcKey<T>);

/// The DER SubjectPublicKeyInfo encoding of a public key object: the model by
/// which contracts identify an otherwise opaque key. Names the result of
/// `PKeyRef::public_key_to_der`.
pub uninterp spec fn pkey_der_view(k: PKey<Public>) -> Seq<u8>;

/// The DER ECPrivateKey encoding of a private key object: the model by which
/// contracts identify an otherwise opaque private key. Names the result of
/// `EcKeyRef::private_key_to_der`.
pub uninterp spec fn ec_priv_view(k: EcKey<Private>) -> Seq<u8>;

/// SHA-256 digest of the bytes. Names the result of `openssl::sha::sha256`.
pub uninterp spec fn sha256_of(data: Seq<u8>) -> Seq<u8>;

/// AES-256-GCM ciphertext under (key, iv) with associated data `aad`.
/// Names the ciphertext `openssl::symm::encrypt_aead` returns.
pub uninterp spec fn gcm_ct(key: Seq<u8>, iv: Seq<u8>, aad: Seq<u8>, pt: Seq<u8>) -> Seq<u8>;

/// AES-256-GCM authentication tag under (key, iv) with associated data `aad`.
/// Names the tag `openssl::symm::encrypt_aead` yields.
pub uninterp spec fn gcm_tag(key: Seq<u8>, iv: Seq<u8>, aad: Seq<u8>, pt: Seq<u8>) -> Seq<u8>;

/// Whether the pair (ct, tag) is the authentic AES-256-GCM sealing of `pt`
/// under (key, iv, aad). Decryption releases a plaintext exactly for
/// authentic inputs: the AEAD fails closed on anything else.
pub open spec fn gcm_authentic(
    key: Seq<u8>,
    iv: Seq<u8>,
    aad: Seq<u8>,
    ct: Seq<u8>,
    tag: Seq<u8>,
    pt: Seq<u8>,
) -> bool {
    ct == gcm_ct(key, iv, aad, pt) && tag == gcm_tag(key, iv, aad, pt)
}

/// Whether 64 bytes of big-endian affine coordinates name a point on P-256.
/// Names the success of `EcKey::from_public_key_affine_coordinates`.
pub uninterp spec fn xy_on_curve(xy: Seq<u8>) -> bool;

/// The public key built from 64 bytes of affine coordinates, identified by
/// its DER encoding. Names the key `EcKey::from_public_key_affine_coordinates`
/// yields.
pub uninterp spec fn pubkey_of_xy(xy: Seq<u8>) -> Seq<u8>;

/// Whether a peer-supplied point encoding (compressed or uncompressed X9.62)
/// decodes to a point on P-256. Names the success of `EcPoint::from_bytes`.
pub uninterp spec fn point_decodes(b: Seq<u8>) -> bool;

/// The public key a point encoding decodes to, identified by its DER
/// encoding. Names the key `EcPoint::from_bytes` yields.
pub uninterp spec fn pubkey_of_point(b: Seq<u8>) -> Seq<u8>;

/// The Diffie-Hellman shared secret between a private key and a peer public
/// key. Names the result of `Deriver::derive_to_vec`.
pub uninterp spec fn dh_secret(sk: Seq<u8>, peer: Seq<u8>) -> Seq<u8>;

/// The uncompressed X9.62 encoding of a private key's public point. Names the
/// result of `EcPointRef::to_bytes`.
pub uninterp spec fn ec_point_bytes(sk: Seq<u8>) -> Seq<u8>;

/// The compressed X9.62 encoding of a private key's public point, as placed
/// in the report-data field. Names the result of `EcPointRef::to_bytes` with
/// the compressed form; one leading byte and the 32-byte x coordinate.
pub uninterp spec fn ec_point_bytes_compressed(sk: Seq<u8>) -> Seq<u8>;

/// Whether a private key was generated on the protocol's curve, P-256: the
/// group property of the pair `EcKey::generate` yields. Only such a key's
/// point exports and derivations are promised to succeed.
pub uninterp spec fn p256_pair(sk: Seq<u8>) -> bool;

/// Whether the backend can derive a Diffie-Hellman secret from the private
/// key and the peer's public key: parameter compatibility of the two keys.
/// Names the success of `Deriver::derive_to_vec`.
pub uninterp spec fn dh_ok(sk: Seq<u8>, peer: Seq<u8>) -> bool;

/// Whether the ECDSA-with-SHA-256 signature `sig` (DER-encoded) verifies over
/// `msg` under the public key. Names the acceptance of
/// `openssl::sign::Verifier::verify`.
pub uninterp spec fn sig_ok(key: Seq<u8>, msg: Seq<u8>, sig: Seq<u8>) -> bool;

/// Relies on `openssl::sha::sha256`: the 32-byte SHA-256 digest of the data,
/// a function of the data alone.
#[verifier::external_body]
pub(crate) fn sha256_bytes(data: &[u8]) -> (r: Vec<u8>)
    ensures
        r@ == sha256_of(data@),
        r@.len() == 32,
{
    openssl::sha::sha256(data).to_vec()
}

/// Relies on `openssl::rand::rand_bytes`: fills the buffer with random bytes.
/// Nothing is promised of the value; only the width is fixed.
#[verifier::external_body]
pub(crate) fn random_iv() -> (r: Option<Vec<u8>>)
    ensures
        r matches Some(iv) ==> iv@.len() == 16,
{
    let mut iv = [0u8; 16];
    match openssl::rand::rand_bytes(&mut iv) {
        Ok(()) => Some(iv.to_vec()),
        Err(_) => None,
    }
}

/// Relies on `openssl::symm::encrypt_aead` with AES-256-GCM: returns the
/// ciphertext and the 16-byte tag of the plaintext under (key, iv, aad); GCM
/// is a counter-mode cipher, so under one (key, iv, aad) distinct plaintexts
/// have distinct ciphertexts and the plaintext's length is kept. The backend
/// passes buffer widths through a
/// C `int`, so plaintext and associated data must stay below 2^31 bytes; for
/// the admitted widths the sealing succeeds (allocation failure aside).
#[verifier::external_body]
pub(crate) fn aes256_gcm_seal(key: &[u8], iv: &[u8], aad: &[u8], pt: &[u8]) -> (r: Option<(Vec<u8>, Vec<u8>)>)
    requires
        key@.len() == 32,
        iv@.len() == 16,
        aad@.len() <= 0x7fff_ffff,
        pt@.len() <= 0x7fff_ffff,
    ensures
        r is Some,
        r is Some ==> forall|p1: Seq<u8>, p2: Seq<u8>|
            gcm_ct(key@, iv@, aad@, p1) == gcm_ct(key@, iv@, aad@, p2) ==> p1 == p2,
        r matches Some((ct, tag)) ==> ct@ == gcm_ct(key@, iv@, aad@, pt@) && tag@ == gcm_tag(
            key@,
            iv@,
            aad@,
            pt@,
        ) && ct@.len() == pt@.len() && tag@.len() == 16,
{
    let mut tag = [0u8; 16];
    match openssl::symm::encrypt_aead(
        openssl::symm::Cipher::aes_256_gcm(),
        key,
        Some(iv),
        aad,
        pt,
        &mut tag,
    ) {
        Ok(ct) => Some((ct, tag.to_vec())),
        Err(_) => None,
    }
}

/// Relies on `openssl::symm::decrypt_aead` with AES-256-GCM: releases a
/// plaintext only for the authentic (ciphertext, tag) pair under (key, iv,
/// aad), and releases exactly the sealed plaintext for it; on a tag mismatch
/// it fails closed. The tag must be the full 16 bytes: the backend compares
/// only as many tag bytes as it is handed, so a shorter tag would be checked
/// as a prefix, and callers reject it before this call. Buffer widths pass
/// through a C `int`, so ciphertext and associated data stay below 2^31.
#[verifier::external_body]
pub(crate) fn aes256_gcm_open(key: &[u8], iv: &[u8], aad: &[u8], ct: &[u8], tag: &[u8]) -> (r: Option<Vec<u8>>)
    requires
        key@.len() == 32,
        iv@.len() == 16,
        tag@.len() == 16,
        aad@.len() <= 0x7fff_ffff,
        ct@.len() <= 0x7fff_ffff,
    ensures
        r matches Some(pt) ==> gcm_authentic(key@, iv@, aad@, ct@, tag@, pt@),
        r is Some ==> forall|p1: Seq<u8>, p2: Seq<u8>|
            gcm_ct(key@, iv@, aad@, p1) == gcm_ct(key@, iv@, aad@, p2) ==> p1 == p2,
        r is None ==> forall|pt: Seq<u8>| !gcm_authentic(key@, iv@, aad@, ct@, tag@, pt),
        r matches Some(p) ==> forall|pt: Seq<u8>|
            gcm_authentic(key@, iv@, aad@, ct@, tag@, pt) ==> p@ == pt,
{
    match openssl::symm::decrypt_aead(
        openssl::symm::Cipher::aes_256_gcm(),
        key,
        Some(iv),
        aad,
        ct,
        tag,
    ) {
        Ok(pt) => Some(pt),
        Err(_) => None,
    }
}

/// Relies on `BigNum::from_slice`, `EcKey::from_public_key_affine_coordinates`
/// and `PKey::from_ec_key`: builds the P-256 public key with the given 32-byte
/// big-endian x and y coordinates, and fails exactly where the coordinates do
/// not name a point on the curve.
#[verifier::external_body]
pub(crate) fn p256_key_from_xy(xy: &[u8]) -> (r: Option<PKey<Public>>)
    requires
        xy@.len() == 64,
    ensures
        r is Some <==> xy_on_curve(xy@),
        r matches Some(k) ==> pkey_der_view(k) == pubkey_of_xy(xy@),
{
    let group = openssl::ec::EcGroup::from_curve_name(openssl::nid::Nid::X9_62_PRIME256V1).ok()?;
    let xbn = openssl::bn::BigNum::from_slice(&xy[0..32]).ok()?;
    let ybn = openssl::bn::BigNum::from_slice(&xy[32..64]).ok()?;
    let ec = openssl::ec::EcKey::from_public_key_affine_coordinates(&group, &xbn, &ybn).ok()?;
    PKey::from_ec_key(ec).ok()
}

/// Relies on `EcPoint::from_bytes`, `EcKey::from_public_key` and
/// `PKey::from_ec_key`: decodes a peer-supplied X9.62 point encoding on P-256
/// into a public key, and fails exactly where the bytes do not decode to a
/// point on the curve.
#[verifier::external_body]
pub(crate) fn p256_key_from_point_bytes(b: &[u8]) -> (r: Option<PKey<Public>>)
    ensures
        r is Some <==> point_decodes(b@),
        r matches Some(k) ==> pkey_der_view(k) == pubkey_of_point(b@),
{
    let group = openssl::ec::EcGroup::from_curve_name(openssl::nid::Nid::X9_62_PRIME256V1).ok()?;
    let mut ctx = openssl::bn::BigNumContext::new().ok()?;
    let point = openssl::ec::EcPoint::from_bytes(&group, b, &mut ctx).ok()?;
    let ec = openssl::ec::EcKey::from_public_key(&group, &point).ok()?;
    PKey::from_ec_key(ec).ok()
}

/// Relies on `EcKey::generate` (and `EcKeyRef::check_key`,
/// `EcKey::from_public_key`, `PKey::from_ec_key`): a fresh random P-256 key
/// pair whose public half is exactly the key its private half's public point
/// decodes to. The value depends on the backend's randomness, so nothing
/// further is promised of it.
#[verifier::external_body]
pub(crate) fn p256_generate_keypair() -> (r: Option<(PKey<Public>, EcKey<Private>)>)
    ensures
        r matches Some((pk, sk)) ==> p256_pair(ec_priv_view(sk)) && pkey_der_view(pk)
            == pubkey_of_point(ec_point_bytes(ec_priv_view(sk))),
{
    let group = openssl::ec::EcGroup::from_curve_name(openssl::nid::Nid::X9_62_PRIME256V1).ok()?;
    let sk = openssl::ec::EcKey::generate(&group).ok()?;
    sk.check_key().ok()?;
    let pk_ec = openssl::ec::EcKey::from_public_key(&group, sk.public_key()).ok()?;
    let pk = PKey::from_ec_key(pk_ec).ok()?;
    Some((pk, sk))
}

/// Relies on `EcPointRef::to_bytes` with the uncompressed X9.62 form: the
/// wire encoding of a P-256 key pair's public point, a function of the key
/// alone: 65 bytes with a leading 4, and it decodes again through
/// `EcPoint::from_bytes`. Only a key pair generated on the protocol's curve
/// is admitted: on a hand-built key of another curve, or one whose public
/// point is the point at infinity, the backend would answer differently.
#[verifier::external_body]
pub(crate) fn ec_public_point_bytes(sk: &EcKey<Private>) -> (r: Option<Vec<u8>>)
    requires
        p256_pair(ec_priv_view(*sk)),
    ensures
        r is Some,
        r matches Some(b) ==> b@ == ec_point_bytes(ec_priv_view(*sk)) && b@.len() == 65 && b@[0]
            == 4 && point_decodes(b@),
{
    let group = openssl::ec::EcGroup::from_curve_name(openssl::nid::Nid::X9_62_PRIME256V1).ok()?;
    let mut ctx = openssl::bn::BigNumContext::new().ok()?;
    sk.public_key().to_bytes(&group, openssl::ec::PointConversionForm::UNCOMPRESSED, &mut ctx).ok()
}

/// Relies on `EcPointRef::to_bytes` with the compressed X9.62 form: the
/// 33-byte compressed encoding of a P-256 key pair's public point, a
/// function of the key alone; it decodes again through `EcPoint::from_bytes`
/// and to the same public key as the uncompressed form, since both encode
/// the same point. Only a key pair generated on the protocol's curve is
/// admitted, as with the uncompressed export.
#[verifier::external_body]
pub(crate) fn ec_public_point_bytes_compressed(sk: &EcKey<Private>) -> (r: Option<Vec<u8>>)
    requires
        p256_pair(ec_priv_view(*sk)),
    ensures
        r is Some,
        r matches Some(b) ==> b@ == ec_point_bytes_compressed(ec_priv_view(*sk)) && b@.len() == 33
            && point_decodes(b@) && pubkey_of_point(b@) == pubkey_of_point(
            ec_point_bytes(ec_priv_view(*sk)),
        ),
{
    let group = openssl::ec::EcGroup::from_curve_name(openssl::nid::Nid::X9_62_PRIME256V1).ok()?;
    let mut ctx = openssl::bn::BigNumContext::new().ok()?;
    sk.public_key().to_bytes(&group, openssl::ec::PointConversionForm::COMPRESSED, &mut ctx).ok()
}

/// Relies on `Deriver` (`new`, `set_peer`, `derive_to_vec`): the
/// Diffie-Hellman shared secret of a P-256 key pair's private half and the
/// peer's public key, a function of the two keys alone; it succeeds exactly
/// where the backend finds the keys' parameters compatible — in particular
/// whenever the peer is the decoded public point of a pair on the protocol's
/// curve — and then yields the curve's 32-byte field element. Diffie-Hellman
/// is symmetric: for such a peer the secret equals what that pair would
/// derive with this key's point. Only a key pair generated on the protocol's
/// curve is admitted; a hand-built key whose stored point is not its
/// scalar's multiple would break the symmetry.
#[verifier::external_body]
pub(crate) fn ecdh_derive(sk: &EcKey<Private>, peer: &PKey<Public>) -> (r: Option<Vec<u8>>)
    requires
        p256_pair(ec_priv_view(*sk)),
    ensures
        r is Some <==> dh_ok(ec_priv_view(*sk), pkey_der_view(*peer)),
        r matches Some(s) ==> s@ == dh_secret(ec_priv_view(*sk), pkey_der_view(*peer)) && s@.len()
            == 32,
        r matches Some(s) ==> forall|other: Seq<u8>|
            (pkey_der_view(*peer) == pubkey_of_point(ec_point_bytes(other)) && #[trigger] p256_pair(
                other,
            )) ==> s@ == dh_secret(other, pubkey_of_point(ec_point_bytes(ec_priv_view(*sk)))),
        r is None ==> forall|other: Seq<u8>|
            !(pkey_der_view(*peer) == pubkey_of_point(ec_point_bytes(other)) && #[trigger] p256_pair(
                other,
            )),
{
    let sk_pkey = PKey::from_ec_key(sk.to_owned()).ok()?;
    let mut deriver = openssl::derive::Deriver::new(&sk_pkey).ok()?;
    deriver.set_peer(peer).ok()?;
    deriver.derive_to_vec().ok()
}

/// Relies on `openssl::sign::Verifier` (`new`, `update`, `verify`) with
/// SHA-256: whether the DER-encoded ECDSA signature verifies over the message
/// under the public key; every failure counts as rejection.
#[verifier::external_body]
pub(crate) fn pkey_verify_sha256(pk: &PKey<Public>, msg: &[u8], sig_der: &[u8]) -> (r: bool)
    ensures
        r == sig_ok(pkey_der_view(*pk), msg@, sig_der@),
{
    let md = openssl::hash::MessageDigest::sha256();
    match openssl::sign::Verifier::new(md, pk) {
        Ok(mut v) => v.update(msg).is_ok() && v.verify(sig_der).unwrap_or(false),
        Err(_) => false,
    }
}

} // verus!
