//! The post-attestation session: Diffie-Hellman key agreement hashed into a
//! symmetric key, and the sealing and opening of the protocol's two payload
//! shapes (a 32-bit value, and the widened five-byte sum) under AES-256-GCM
//! with the plaintext's hash as associated data.

use crate::codec::{lemma_sum_le_bytes_to_from, spec_sum_to_le_bytes, sum_from_le_bytes,
    sum_to_le_bytes, sum_wire_max, SUM_WIRE_LEN};
use crate::crypto::{aes256_gcm_open, aes256_gcm_seal, dh_ok, dh_secret, ec_point_bytes,
    gcm_authentic, gcm_ct, gcm_tag, p256_pair, pubkey_of_point, point_decodes, sha256_bytes,
    sha256_of};
use crate::errors::Error;
use crate::key::Key;
use vstd::bytes::{lemma_auto_spec_u32_to_from_le_bytes, spec_u32_to_le_bytes, u32_from_le_bytes,
    u32_to_le_bytes};
use vstd::prelude::*;

verus! {

/// The symmetric key of one session: the SHA-256 hash of the Diffie-Hellman
/// shared secret between a private key and a peer's public point. It exists
/// for the lifetime of one session and is never transmitted.
pub open spec fn spec_session_key(sk: Seq<u8>, peer_point: Seq<u8>) -> Seq<u8> {
    sha256_of(dh_secret(sk, pubkey_of_point(peer_point)))
}

/// Whether wire-supplied AEAD inputs have widths the opening step admits:
/// the full 16-byte tag (a shorter tag would only be compared as a prefix,
/// so it is rejected outright), and associated data and ciphertext below the
/// backend's 2^31-byte bound.
pub open spec fn open_input_ok(aad: Seq<u8>, ct: Seq<u8>, tag: Seq<u8>) -> bool {
    tag.len() == 16 && aad.len() <= 0x7fff_ffff && ct.len() <= 0x7fff_ffff
}

/// Reconstruct the peer's public key from its transmitted point encoding,
/// derive the shared secret, and hash it into the session's symmetric key.
/// Both endpoints run this same step, each with its own private key and the
/// other's point; by Diffie-Hellman symmetry, where the peer's point decodes
/// to the exported public point of some pair on the curve — in either wire
/// encoding — both sides land on the same session key, and the agreement is
/// owed success.
pub fn agree_session_key(pair: &Key, peer_point: &[u8]) -> (r: Result<Vec<u8>, Error>)
    requires
        pair.spec_has_priv(),
        pair.spec_wf(),
    ensures
        r matches Ok(k) ==> point_decodes(peer_point@) && k@ == spec_session_key(
            pair.spec_priv(),
            peer_point@,
        ) && k@.len() == 32,
        r matches Ok(k) ==> forall|other: Seq<u8>|
            (pubkey_of_point(peer_point@) == pubkey_of_point(ec_point_bytes(other))
                && #[trigger] p256_pair(other)) ==> k@ == spec_session_key(
                other,
                ec_point_bytes(pair.spec_priv()),
            ),
        r is Ok <==> point_decodes(peer_point@) && dh_ok(
            pair.spec_priv(),
            pubkey_of_point(peer_point@),
        ),
        (point_decodes(peer_point@) && exists|other: Seq<u8>|
            pubkey_of_point(peer_point@) == pubkey_of_point(ec_point_bytes(other))
                && #[trigger] p256_pair(other)) ==> r is Ok,
        r == Err::<Vec<u8>, Error>(Error::InvalidEncoding) <==> !point_decodes(peer_point@),
        r matches Err(e) ==> e == Error::InvalidEncoding || e == Error::CryptoFailure,
{
    let peer = match Key::new_from_bytes(peer_point) {
        Ok(p) => p,
        Err(_) => {
            return Err(Error::InvalidEncoding);
        },
    };
    let secret = match pair.derive_shared_secret(peer.return_pubkey()) {
        Ok(s) => s,
        Err(_) => {
            return Err(Error::CryptoFailure);
        },
    };
    let k = sha256_bytes(secret.as_slice());
    proof {
        assert forall|other: Seq<u8>|
            (pubkey_of_point(peer_point@) == pubkey_of_point(ec_point_bytes(other))
                && #[trigger] p256_pair(other)) implies k@ == spec_session_key(
            other,
            ec_point_bytes(pair.spec_priv()),
        ) by {
            assert(secret@ == dh_secret(
                other,
                pubkey_of_point(ec_point_bytes(pair.spec_priv())),
            ));
        }
    }
    Ok(k)
}

/// Seal one 32-bit value under the session key and a fresh IV, with the
/// SHA-256 hash of the plaintext as associated data. Returns the hash, the
/// ciphertext and the tag, in wire order.
pub fn seal_value(key: &[u8], iv: &[u8], value: u32) -> (r: Result<(Vec<u8>, Vec<u8>, Vec<u8>), Error>)
    requires
        key@.len() == 32,
        iv@.len() == 16,
    ensures
        r matches Ok((h, ct, tag)) ==> h@ == sha256_of(spec_u32_to_le_bytes(value)) && ct@
            == gcm_ct(key@, iv@, h@, spec_u32_to_le_bytes(value)) && tag@ == gcm_tag(
            key@,
            iv@,
            h@,
            spec_u32_to_le_bytes(value),
        ) && ct@.len() == 4 && tag@.len() == 16 && h@.len() == 32,
        r is Ok,
        r matches Err(e) ==> e == Error::CryptoFailure,
{
    let pt = u32_to_le_bytes(value);
    let h = sha256_bytes(pt.as_slice());
    match aes256_gcm_seal(key, iv, h.as_slice(), pt.as_slice()) {
        Some((ct, tag)) => Ok((h, ct, tag)),
        None => Err(Error::CryptoFailure),
    }
}

/// Open one sealed 32-bit value. A tag of any width but the full 16 bytes,
/// or oversized associated data or ciphertext, is rejected outright as a
/// framing error; for admitted widths the call succeeds exactly where the
/// pair (ciphertext, tag) authenticates under (key, iv, aad) and the
/// released plaintext has the value's width. A tag mismatch fails closed: in
/// particular, a ciphertext that seals some plaintext paired with any tag
/// but that sealing's own never opens.
pub fn open_value(key: &[u8], iv: &[u8], aad: &[u8], ct: &[u8], tag: &[u8]) -> (r: Result<u32, Error>)
    requires
        key@.len() == 32,
        iv@.len() == 16,
    ensures
        r matches Ok(v) ==> gcm_authentic(key@, iv@, aad@, ct@, tag@, spec_u32_to_le_bytes(v)),
        open_input_ok(aad@, ct@, tag@) ==> (r == Err::<u32, Error>(Error::AuthenticationFailed)
            <==> (forall|pt: Seq<u8>| !gcm_authentic(key@, iv@, aad@, ct@, tag@, pt))),
        !open_input_ok(aad@, ct@, tag@) ==> r == Err::<u32, Error>(Error::ProtocolFraming),
        r matches Err(e) ==> e == Error::AuthenticationFailed || e == Error::ProtocolFraming,
        r == Err::<u32, Error>(Error::ProtocolFraming) ==> (!open_input_ok(aad@, ct@, tag@) || (
        exists|pt: Seq<u8>| gcm_authentic(key@, iv@, aad@, ct@, tag@, pt) && pt.len() != 4)),
        (open_input_ok(aad@, ct@, tag@) && exists|v: u32|
            gcm_authentic(key@, iv@, aad@, ct@, tag@, spec_u32_to_le_bytes(v))) ==> r is Ok,
        r matches Ok(v) ==> forall|pt: Seq<u8>|
            gcm_authentic(key@, iv@, aad@, ct@, tag@, pt) ==> pt == spec_u32_to_le_bytes(v),
        (open_input_ok(aad@, ct@, tag@) && exists|p0: Seq<u8>|
            ct@ == gcm_ct(key@, iv@, aad@, p0) && tag@ != gcm_tag(key@, iv@, aad@, p0)) ==> r
            == Err::<u32, Error>(Error::AuthenticationFailed),
{
    if tag.len() != 16 || aad.len() > 0x7fff_ffff || ct.len() > 0x7fff_ffff {
        return Err(Error::ProtocolFraming);
    }
    let pt = match aes256_gcm_open(key, iv, aad, ct, tag) {
        Some(pt) => pt,
        None => {
            return Err(Error::AuthenticationFailed);
        },
    };
    if pt.len() != 4 {
        proof {
            // Any authentic plaintext equals the released one, whose width is
            // not a value's; in particular no 32-bit value opens here.
            lemma_auto_spec_u32_to_from_le_bytes();
        }
        return Err(Error::ProtocolFraming);
    }
    let v = u32_from_le_bytes(pt.as_slice());
    proof {
        lemma_auto_spec_u32_to_from_le_bytes();
        assert(spec_u32_to_le_bytes(v) == pt@);
    }
    Ok(v)
}

/// Seal the widened sum under the session key and a fresh IV, with the
/// SHA-256 hash of its five-byte encoding as associated data. Returns the
/// hash, the ciphertext and the tag.
pub fn seal_sum(key: &[u8], iv: &[u8], sum: u64) -> (r: Result<(Vec<u8>, Vec<u8>, Vec<u8>), Error>)
    requires
        key@.len() == 32,
        iv@.len() == 16,
        sum <= sum_wire_max(),
    ensures
        r matches Ok((h, ct, tag)) ==> h@ == sha256_of(spec_sum_to_le_bytes(sum)) && ct@ == gcm_ct(
            key@,
            iv@,
            h@,
            spec_sum_to_le_bytes(sum),
        ) && tag@ == gcm_tag(key@, iv@, h@, spec_sum_to_le_bytes(sum)) && ct@.len() == 5 && tag@.len()
            == 16 && h@.len() == 32,
        r is Ok,
        r matches Err(e) ==> e == Error::CryptoFailure,
{
    let pt = sum_to_le_bytes(sum);
    let h = sha256_bytes(pt.as_slice());
    match aes256_gcm_seal(key, iv, h.as_slice(), pt.as_slice()) {
        Some((ct, tag)) => Ok((h, ct, tag)),
        None => Err(Error::CryptoFailure),
    }
}

/// Open the sealed sum. A tag of any width but the full 16 bytes, or
/// oversized associated data or ciphertext, is rejected outright as a
/// framing error; for admitted widths the call succeeds exactly where the
/// pair (ciphertext, tag) authenticates under (key, iv, aad) and the
/// released plaintext has the sum's five-byte width. A tag mismatch fails
/// closed: in particular, a ciphertext that seals some plaintext paired with
/// any tag but that sealing's own never opens.
pub fn open_sum(key: &[u8], iv: &[u8], aad: &[u8], ct: &[u8], tag: &[u8]) -> (r: Result<u64, Error>)
    requires
        key@.len() == 32,
        iv@.len() == 16,
    ensures
        r matches Ok(v) ==> gcm_authentic(key@, iv@, aad@, ct@, tag@, spec_sum_to_le_bytes(v)) && v
            <= sum_wire_max(),
        open_input_ok(aad@, ct@, tag@) ==> (r == Err::<u64, Error>(Error::AuthenticationFailed)
            <==> (forall|pt: Seq<u8>| !gcm_authentic(key@, iv@, aad@, ct@, tag@, pt))),
        !open_input_ok(aad@, ct@, tag@) ==> r == Err::<u64, Error>(Error::ProtocolFraming),
        r matches Err(e) ==> e == Error::AuthenticationFailed || e == Error::ProtocolFraming,
        r == Err::<u64, Error>(Error::ProtocolFraming) ==> (!open_input_ok(aad@, ct@, tag@) || (
        exists|pt: Seq<u8>| gcm_authentic(key@, iv@, aad@, ct@, tag@, pt) && pt.len() != 5)),
        (open_input_ok(aad@, ct@, tag@) && exists|v: u64|
            v <= sum_wire_max() && gcm_authentic(key@, iv@, aad@, ct@, tag@, spec_sum_to_le_bytes(
                v,
            ))) ==> r is Ok,
        r matches Ok(v) ==> forall|pt: Seq<u8>|
            gcm_authentic(key@, iv@, aad@, ct@, tag@, pt) ==> pt == spec_sum_to_le_bytes(v),
        (open_input_ok(aad@, ct@, tag@) && exists|p0: Seq<u8>|
            ct@ == gcm_ct(key@, iv@, aad@, p0) && tag@ != gcm_tag(key@, iv@, aad@, p0)) ==> r
            == Err::<u64, Error>(Error::AuthenticationFailed),
{
    if tag.len() != 16 || aad.len() > 0x7fff_ffff || ct.len() > 0x7fff_ffff {
        return Err(Error::ProtocolFraming);
    }
    let pt = match aes256_gcm_open(key, iv, aad, ct, tag) {
        Some(pt) => pt,
        None => {
            return Err(Error::AuthenticationFailed);
        },
    };
    if pt.len() != SUM_WIRE_LEN {
        return Err(Error::ProtocolFraming);
    }
    let v = sum_from_le_bytes(pt.as_slice());
    proof {
        lemma_sum_le_bytes_to_from(pt@);
        assert(spec_sum_to_le_bytes(v) == pt@);
    }
    Ok(v)
}

/// Law (round trip): sealing a 32-bit value yields exactly the pair that
/// authenticates that value's encoding under the same key, IV and associated
/// data — the success condition under which opening releases a value — and
/// two values with the same encoding are the same value. Together with the
/// opening contracts, decrypting a freshly sealed value yields the original,
/// and never a different one.
pub proof fn lemma_seal_open_round_trip(key: Seq<u8>, iv: Seq<u8>, v: u32, w: u32)
    ensures
        ({
            let pt = spec_u32_to_le_bytes(v);
            let aad = sha256_of(pt);
            gcm_authentic(key, iv, aad, gcm_ct(key, iv, aad, pt), gcm_tag(key, iv, aad, pt), pt)
        }),
        spec_u32_to_le_bytes(v) == spec_u32_to_le_bytes(w) ==> v == w,
{
    lemma_auto_spec_u32_to_from_le_bytes();
    assert(spec_u32_to_le_bytes(v).len() == 4);
    assert(spec_u32_to_le_bytes(w).len() == 4);
    assert(vstd::bytes::spec_u32_from_le_bytes(spec_u32_to_le_bytes(v)) == v);
    assert(vstd::bytes::spec_u32_from_le_bytes(spec_u32_to_le_bytes(w)) == w);
}

/// Law (round trip, widened sum): sealing the five-byte sum yields exactly
/// the pair that authenticates its encoding, and the encoding is injective
/// over every value the five bytes can carry.
pub proof fn lemma_sum_seal_open_round_trip(key: Seq<u8>, iv: Seq<u8>, v: u64, w: u64)
    requires
        v <= sum_wire_max(),
        w <= sum_wire_max(),
    ensures
        ({
            let pt = spec_sum_to_le_bytes(v);
            let aad = sha256_of(pt);
            gcm_authentic(key, iv, aad, gcm_ct(key, iv, aad, pt), gcm_tag(key, iv, aad, pt), pt)
        }),
        spec_sum_to_le_bytes(v) == spec_sum_to_le_bytes(w) ==> v == w,
{
    crate::codec::lemma_sum_le_bytes_round_trip(v);
    crate::codec::lemma_sum_le_bytes_round_trip(w);
}

} // verus!
