//! The enclave's side of the protocol: building the report-data field that
//! binds its ephemeral public key into the hardware report, and the handler
//! for one tenant session — reconstruct the peer key, derive the session key,
//! open both sealed values, sum them, and seal the sum back.

use crate::codec::spec_sum_to_le_bytes;
use crate::crypto::{gcm_authentic, gcm_ct, gcm_tag, point_decodes, random_iv, sha256_of};
use crate::errors::Error;
use crate::key::Key;
use crate::proto::{EnclaveResponse, TenantPayload};
use crate::crypto::dh_ok;
use crate::crypto::pubkey_of_point;
use crate::session::{agree_session_key, open_input_ok, open_value, seal_sum, spec_session_key};
use vstd::bytes::spec_u32_to_le_bytes;
use vstd::prelude::*;
use vstd::slice::{slice_subrange, slice_to_vec};

verus! {

/// Width of the report-data field of a hardware report.
pub const REPORT_DATA_LEN: usize = 64;

/// Copy the fixed 64-byte report-data prefix out of a longer buffer.
pub fn from_slice(bytes: &[u8]) -> (r: Vec<u8>)
    requires
        bytes@.len() >= 64,
    ensures
        r@ == bytes@.subrange(0, 64),
        r@.len() == 64,
{
    slice_to_vec(slice_subrange(bytes, 0, REPORT_DATA_LEN))
}

/// The 64-byte report-data field carrying a public key: the 33-byte
/// compressed point occupies the fixed prefix and the remainder is
/// zero-padded.
pub fn report_data_for_key(key_bytes: &[u8]) -> (r: Vec<u8>)
    requires
        key_bytes@.len() == 33,
    ensures
        r@.len() == 64,
        r@.subrange(0, 33) == key_bytes@,
        forall|i: int| 33 <= i < 64 ==> r@[i] == 0,
{
    let mut r = slice_to_vec(key_bytes);
    proof {
        assert(r@.subrange(0, 33) =~= key_bytes@);
    }
    while r.len() < 64
        invariant
            33 <= r@.len() <= 64,
            r@.subrange(0, 33) == key_bytes@,
            forall|i: int| 33 <= i < r@.len() ==> r@[i] == 0,
        decreases 64 - r@.len(),
    {
        r.push(0);
        proof {
            assert(r@.subrange(0, 33) =~= key_bytes@);
        }
    }
    r
}

/// Whether the two 32-bit values are what the payload's two sealed
/// ciphertexts open to under the session key.
pub open spec fn payload_values_open(k: Seq<u8>, msg: TenantPayload, v1: u32, v2: u32) -> bool {
    &&& gcm_authentic(k, msg.iv1@, msg.hash1@, msg.ciphertext1@, msg.tag1@, spec_u32_to_le_bytes(v1))
    &&& gcm_authentic(k, msg.iv2@, msg.hash2@, msg.ciphertext2@, msg.tag2@, spec_u32_to_le_bytes(v2))
}

/// Whether the response is the authentic sealing of the given sum under the
/// session key: its hash field is the SHA-256 of the five-byte encoding,
/// ciphertext and tag seal that encoding under the response's own IV, and
/// every field has its fixed wire width.
pub open spec fn response_seals(k: Seq<u8>, resp: EnclaveResponse, sum: u64) -> bool {
    &&& resp.hash@ == sha256_of(spec_sum_to_le_bytes(sum))
    &&& resp.ciphertext@ == gcm_ct(k, resp.iv@, resp.hash@, spec_sum_to_le_bytes(sum))
    &&& resp.tag@ == gcm_tag(k, resp.iv@, resp.hash@, spec_sum_to_le_bytes(sum))
    &&& resp.iv@.len() == 16
    &&& resp.hash@.len() == 32
    &&& resp.ciphertext@.len() == 5
    &&& resp.tag@.len() == 16
}

/// Whether every wire-supplied width of the payload is the fixed one the
/// protocol admits: both IVs 16 bytes, both tags the full 16 bytes, and the
/// associated data and ciphertexts below the backend's bound.
pub open spec fn payload_widths_ok(msg: TenantPayload) -> bool {
    &&& msg.iv1@.len() == 16 && msg.iv2@.len() == 16
    &&& open_input_ok(msg.hash1@, msg.ciphertext1@, msg.tag1@)
    &&& open_input_ok(msg.hash2@, msg.ciphertext2@, msg.tag2@)
}

/// Handle one tenant session, all nine received values in hand: reconstruct
/// the tenant's key from its point bytes, derive the shared secret and hash
/// it into the session key, open both sealed values (failing closed, with no
/// partial acceptance), and seal their widened sum back under a fresh IV.
pub fn handle_tenant_payload(pair: &Key, msg: &TenantPayload) -> (r: Result<EnclaveResponse, Error>)
    requires
        pair.spec_has_priv(),
        pair.spec_wf(),
    ensures
        r matches Ok(resp) ==> ({
            let k = spec_session_key(pair.spec_priv(), msg.tenant_pubkey@);
            &&& point_decodes(msg.tenant_pubkey@)
            &&& msg.iv1@.len() == 16 && msg.iv2@.len() == 16
            &&& exists|v1: u32, v2: u32|
                #[trigger] payload_values_open(k, *msg, v1, v2) && response_seals(
                    k,
                    resp,
                    (v1 + v2) as u64,
                )
            &&& forall|w1: u32, w2: u32|
                #[trigger] payload_values_open(k, *msg, w1, w2) ==> response_seals(
                    k,
                    resp,
                    (w1 + w2) as u64,
                )
        }),
        r == Err::<EnclaveResponse, Error>(Error::InvalidEncoding) <==> !point_decodes(
            msg.tenant_pubkey@,
        ),
        r == Err::<EnclaveResponse, Error>(Error::AuthenticationFailed) ==> ({
            let k = spec_session_key(pair.spec_priv(), msg.tenant_pubkey@);
            &&& point_decodes(msg.tenant_pubkey@)
            &&& msg.iv1@.len() == 16 && msg.iv2@.len() == 16
            &&& !(exists|v1: u32, v2: u32| #[trigger] payload_values_open(k, *msg, v1, v2))
        }),
        r == Err::<EnclaveResponse, Error>(Error::ProtocolFraming) ==> ({
            let k = spec_session_key(pair.spec_priv(), msg.tenant_pubkey@);
            &&& point_decodes(msg.tenant_pubkey@)
            &&& (!payload_widths_ok(*msg) || (exists|pt: Seq<u8>|
                gcm_authentic(k, msg.iv1@, msg.hash1@, msg.ciphertext1@, msg.tag1@, pt)
                    && pt.len() != 4) || (exists|pt: Seq<u8>|
                gcm_authentic(k, msg.iv2@, msg.hash2@, msg.ciphertext2@, msg.tag2@, pt)
                    && pt.len() != 4))
        }),
        (point_decodes(msg.tenant_pubkey@) && dh_ok(
            pair.spec_priv(),
            pubkey_of_point(msg.tenant_pubkey@),
        ) && (msg.iv1@.len() != 16 || msg.iv2@.len() != 16)) ==> r == Err::<
            EnclaveResponse,
            Error,
        >(Error::ProtocolFraming),
        ({
            let k = spec_session_key(pair.spec_priv(), msg.tenant_pubkey@);
            &&& point_decodes(msg.tenant_pubkey@)
            &&& payload_widths_ok(*msg)
            &&& exists|v1: u32, v2: u32| #[trigger] payload_values_open(k, *msg, v1, v2)
        }) ==> (r is Ok || r == Err::<EnclaveResponse, Error>(Error::CryptoFailure)),
        r matches Err(e) ==> e == Error::InvalidEncoding || e == Error::ProtocolFraming
            || e == Error::AuthenticationFailed || e == Error::CryptoFailure,
{
    let k = match agree_session_key(pair, msg.tenant_pubkey.as_slice()) {
        Ok(k) => k,
        Err(e) => {
            return Err(e);
        },
    };
    if msg.iv1.len() != 16 || msg.iv2.len() != 16 {
        return Err(Error::ProtocolFraming);
    }
    let v1 = match open_value(
        k.as_slice(),
        msg.iv1.as_slice(),
        msg.hash1.as_slice(),
        msg.ciphertext1.as_slice(),
        msg.tag1.as_slice(),
    ) {
        Ok(v) => v,
        Err(e) => {
            return Err(e);
        },
    };
    let v2 = match open_value(
        k.as_slice(),
        msg.iv2.as_slice(),
        msg.hash2.as_slice(),
        msg.ciphertext2.as_slice(),
        msg.tag2.as_slice(),
    ) {
        Ok(v) => v,
        Err(e) => {
            return Err(e);
        },
    };
    let sum: u64 = (v1 as u64) + (v2 as u64);
    let iv = match random_iv() {
        Some(iv) => iv,
        None => {
            return Err(Error::CryptoFailure);
        },
    };
    let sealed = match seal_sum(k.as_slice(), iv.as_slice(), sum) {
        Ok(t) => t,
        Err(e) => {
            return Err(e);
        },
    };
    let (h, ct, tag) = sealed;
    let resp = EnclaveResponse { tag, iv, hash: h, ciphertext: ct };
    proof {
        let kk = spec_session_key(pair.spec_priv(), msg.tenant_pubkey@);
        assert(payload_values_open(kk, *msg, v1, v2));
        assert(response_seals(kk, resp, (v1 + v2) as u64));
        // Any values the two slots open to are the two values just opened:
        // the opening step pins every authentic plaintext to the released
        // encoding, and the encoding is injective.
        assert forall|w1: u32, w2: u32|
            #[trigger] payload_values_open(kk, *msg, w1, w2) implies response_seals(
            kk,
            resp,
            (w1 + w2) as u64,
        ) by {
            vstd::bytes::lemma_auto_spec_u32_to_from_le_bytes();
            assert(spec_u32_to_le_bytes(w1).len() == 4);
            assert(spec_u32_to_le_bytes(w2).len() == 4);
            assert(spec_u32_to_le_bytes(v1).len() == 4);
            assert(spec_u32_to_le_bytes(v2).len() == 4);
            assert(spec_u32_to_le_bytes(w1) == spec_u32_to_le_bytes(v1));
            assert(vstd::bytes::spec_u32_from_le_bytes(spec_u32_to_le_bytes(w1)) == w1);
            assert(vstd::bytes::spec_u32_from_le_bytes(spec_u32_to_le_bytes(v1)) == v1);
            assert(spec_u32_to_le_bytes(w2) == spec_u32_to_le_bytes(v2));
            assert(vstd::bytes::spec_u32_from_le_bytes(spec_u32_to_le_bytes(w2)) == w2);
            assert(vstd::bytes::spec_u32_from_le_bytes(spec_u32_to_le_bytes(v2)) == v2);
        }
    }
    Ok(resp)
}

} // verus!
