use crate::codec::bytes_eq;
use crate::crypto::{
    dh_ok, dh_secret, ec_point_bytes, ec_point_bytes_compressed, ec_priv_view, ecdh_derive,
    ec_public_point_bytes, ec_public_point_bytes_compressed, p256_generate_keypair, p256_pair,
    p256_key_from_point_bytes, p256_key_from_xy, pkey_der_view, pkey_verify_sha256, point_decodes,
    pubkey_of_point, pubkey_of_xy, sha256_bytes, sha256_of, sig_ok, xy_on_curve,
};
use crate::errors::{Error, HashError};
use openssl::ec::EcKey;
use openssl::pkey::{PKey, Private, Public};
use vstd::prelude::*;

verus! {

/// A public (and optionally private) elliptic-curve key on the protocol's
/// fixed curve, P-256. A key built from peer-supplied material carries no
/// private component; only a generated pair can derive a shared secret.
pub struct Key {
    pubkey: PKey<Public>,
    privkey: Option<EcKey<Private>>,
}

impl Key {
    /// The DER encoding identifying the public half.
    pub closed spec fn spec_pub(&self) -> Seq<u8> {
        pkey_der_view(self.pubkey)
    }

    /// Whether this key owns a private component.
    pub closed spec fn spec_has_priv(&self) -> bool {
        self.privkey is Some
    }

    /// The DER encoding identifying the private half.
    pub closed spec fn spec_priv(&self) -> Seq<u8>
        recommends
            self.spec_has_priv(),
    {
        match self.privkey {
            Some(sk) => ec_priv_view(sk),
            None => Seq::empty(),
        }
    }

    /// A private half, where present, was generated on the protocol's curve.
    /// Every constructor establishes this, so the point exports below are
    /// owed success.
    pub closed spec fn spec_wf(&self) -> bool {
        match self.privkey {
            Some(sk) => p256_pair(ec_priv_view(sk)),
            None => true,
        }
    }

    /// Build a public key from two fixed-width big-endian affine coordinates
    /// on the protocol's curve. Succeeds exactly where the coordinates lie on
    /// the curve; anything else is an invalid point.
    pub fn new_from_xy(xy_coords: &[u8]) -> (r: Result<Key, Error>)
        requires
            xy_coords@.len() == 64,
        ensures
            r is Ok <==> xy_on_curve(xy_coords@),
            r matches Ok(k) ==> k.spec_pub() == pubkey_of_xy(xy_coords@) && !k.spec_has_priv()
                && k.spec_wf(),
            r matches Err(e) ==> e == Error::InvalidPoint,
    {
        match p256_key_from_xy(xy_coords) {
            Some(pk) => Ok(Key { pubkey: pk, privkey: None }),
            None => Err(Error::InvalidPoint),
        }
    }

    /// Build a public key from a peer-supplied point encoding, possibly
    /// compressed, possibly produced by a different cryptographic library
    /// than this side's. Succeeds exactly where the bytes decode to a point
    /// on the protocol's curve.
    pub fn new_from_bytes(bytes: &[u8]) -> (r: Result<Key, Error>)
        ensures
            r is Ok <==> point_decodes(bytes@),
            r matches Ok(k) ==> k.spec_pub() == pubkey_of_point(bytes@) && !k.spec_has_priv()
                && k.spec_wf(),
            r matches Err(e) ==> e == Error::InvalidEncoding,
    {
        match p256_key_from_point_bytes(bytes) {
            Some(pk) => Ok(Key { pubkey: pk, privkey: None }),
            None => Err(Error::InvalidEncoding),
        }
    }

    /// Wrap an existing public key value, for example one extracted from a
    /// certificate.
    pub fn new_from_pubkey(pkey: PKey<Public>) -> (r: Key)
        ensures
            r.spec_pub() == pkey_der_view(pkey),
            !r.spec_has_priv(),
            r.spec_wf(),
    {
        Key { pubkey: pkey, privkey: None }
    }

    /// Generate an ephemeral key pair on the protocol's curve for key
    /// agreement: the public half is exactly the key the private half's
    /// public point decodes to. The value is fresh randomness; nothing
    /// further is promised of it.
    pub fn new_pair_secp256r1() -> (r: Result<Key, Error>)
        ensures
            r matches Ok(k) ==> k.spec_has_priv() && k.spec_wf() && p256_pair(k.spec_priv())
                && k.spec_pub() == pubkey_of_point(ec_point_bytes(k.spec_priv())),
            r matches Err(e) ==> e == Error::CryptoFailure,
    {
        match p256_generate_keypair() {
            Some((pk, sk)) => Ok(Key { pubkey: pk, privkey: Some(sk) }),
            None => Err(Error::CryptoFailure),
        }
    }

    /// The public half, as the backend's key value.
    pub fn return_pubkey(&self) -> (r: &PKey<Public>)
        ensures
            pkey_der_view(*r) == self.spec_pub(),
    {
        &self.pubkey
    }

    /// The public point of this key pair in the fixed uncompressed wire
    /// encoding, for transmission to the peer: 65 bytes with a leading 4,
    /// and the peer's decoder accepts it.
    pub fn return_pubkey_bytes(&self) -> (r: Result<Vec<u8>, Error>)
        requires
            self.spec_has_priv(),
            self.spec_wf(),
        ensures
            r is Ok,
            r matches Ok(b) ==> b@ == ec_point_bytes(self.spec_priv()) && b@.len() == 65 && b@[0]
                == 4 && point_decodes(b@),
            r matches Err(e) ==> e == Error::CryptoFailure,
    {
        match &self.privkey {
            Some(sk) => match ec_public_point_bytes(sk) {
                Some(b) => Ok(b),
                None => Err(Error::CryptoFailure),
            },
            None => Err(Error::CryptoFailure),
        }
    }

    /// The public point of this key pair in the compressed wire encoding:
    /// the 33-byte form that the report-data field carries, and the peer's
    /// decoder accepts it.
    pub fn return_pubkey_bytes_compressed(&self) -> (r: Result<Vec<u8>, Error>)
        requires
            self.spec_has_priv(),
            self.spec_wf(),
        ensures
            r is Ok,
            r matches Ok(b) ==> b@ == ec_point_bytes_compressed(self.spec_priv()) && b@.len()
                == 33 && point_decodes(b@) && pubkey_of_point(b@) == pubkey_of_point(
                ec_point_bytes(self.spec_priv()),
            ),
            r matches Err(e) ==> e == Error::CryptoFailure,
    {
        match &self.privkey {
            Some(sk) => match ec_public_point_bytes_compressed(sk) {
                Some(b) => Ok(b),
                None => Err(Error::CryptoFailure),
            },
            None => Err(Error::CryptoFailure),
        }
    }

    /// Diffie-Hellman: combine this key's private component with the peer's
    /// public point. Only a key that owns a private component can derive; a
    /// public-only key fails with `NoPrivateKey`, and given a private
    /// component the derivation succeeds exactly where the backend finds the
    /// two keys' parameters compatible — in particular whenever the peer is
    /// the decoded public point of a pair on the protocol's curve, and then
    /// the secret is the curve's 32-byte field element. Diffie-Hellman is
    /// symmetric: where
    /// the peer key is the decoded public point of some private key on the
    /// curve, the secret equals what that key would derive with this key's
    /// point, so the two roles of the protocol agree.
    pub fn derive_shared_secret(&self, peer_key: &PKey<Public>) -> (r: Result<Vec<u8>, Error>)
        requires
            self.spec_wf(),
        ensures
            r matches Ok(s) ==> self.spec_has_priv() && s@ == dh_secret(
                self.spec_priv(),
                pkey_der_view(*peer_key),
            ) && s@.len() == 32,
            r matches Ok(s) ==> forall|other: Seq<u8>|
                (pkey_der_view(*peer_key) == pubkey_of_point(ec_point_bytes(other))
                    && #[trigger] p256_pair(other)) ==> s@ == dh_secret(
                    other,
                    pubkey_of_point(ec_point_bytes(self.spec_priv())),
                ),
            r == Err::<Vec<u8>, Error>(Error::NoPrivateKey) <==> !self.spec_has_priv(),
            self.spec_has_priv() ==> (r is Ok <==> dh_ok(
                self.spec_priv(),
                pkey_der_view(*peer_key),
            )),
            (self.spec_has_priv() && exists|other: Seq<u8>|
                pkey_der_view(*peer_key) == pubkey_of_point(ec_point_bytes(other))
                    && #[trigger] p256_pair(other)) ==> r is Ok,
            r matches Err(e) ==> e == Error::NoPrivateKey || e == Error::CryptoFailure,
    {
        match &self.privkey {
            Some(sk) => match ecdh_derive(sk, peer_key) {
                Some(s) => Ok(s),
                None => Err(Error::CryptoFailure),
            },
            None => Err(Error::NoPrivateKey),
        }
    }

    /// Verify an ECDSA-with-SHA-256 signature (DER-encoded) over `signed`
    /// under this key's public point. Succeeds exactly where the verification
    /// primitive accepts the signature.
    pub fn verify_sig(&self, signed: &[u8], sig: &Vec<u8>) -> (r: Result<(), Error>)
        ensures
            r is Ok <==> sig_ok(self.spec_pub(), signed@, sig@),
            r matches Err(e) ==> e == Error::SignatureInvalid,
    {
        if pkey_verify_sha256(&self.pubkey, signed, sig.as_slice()) {
            Ok(())
        } else {
            Err(Error::SignatureInvalid)
        }
    }

    /// Verify that the SHA-256 digest of `unhashed_data` equals
    /// `hashed_data`, byte for byte. This binds out-of-band-hashed material
    /// (the attestation key and authentication data) to the value the
    /// platform certificate actually signed; it succeeds exactly where the
    /// two digests agree.
    pub fn verify_hash(&self, hashed_data: &[u8], unhashed_data: Vec<u8>) -> (r: Result<(), HashError>)
        ensures
            r is Ok <==> sha256_of(unhashed_data@) == hashed_data@,
    {
        let hash = sha256_bytes(unhashed_data.as_slice());
        if bytes_eq(hash.as_slice(), hashed_data) {
            Ok(())
        } else {
            Err(HashError)
        }
    }
}

} // verus!
