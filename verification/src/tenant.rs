//! The tenant: the protocol's initiator and sole verifier. It checks the
//! platform-signed quote end to end — certificate chain, attestation-key
//! signature, PCK signature, hash binding, each step strictly gating the next
//! — and only then agrees on a session key and exchanges the sealed payload.

use crate::codec::spec_sum_to_le_bytes;
use crate::cert::{cert_has_key, cert_key_of, certs_from_pem, ders_of, issuers_linked, pem_ders,
    pem_ok, sigs_linked, Cert, CertChain};
use crate::crypto::{ec_point_bytes, gcm_authentic, gcm_ct, gcm_tag, point_decodes, pubkey_of_xy,
    random_iv, sha256_of, sig_ok, xy_on_curve};
use crate::errors::Error;
use crate::key::Key;
use crate::proto::{EnclaveResponse, TenantPayload};
use crate::quote::{parse_quote, quote_well_formed, spec_att_key_xy, spec_auth_data,
    spec_cert_data, spec_enclave_key_bytes, spec_header_and_body, spec_pck_hash, spec_qe_report,
    spec_qe_sig, spec_quote_sig, ParsedQuote};
use crate::session::{agree_session_key, open_input_ok, open_sum, seal_value, spec_session_key};
use crate::sig::{spec_sig_der_of_raw, Signature};
use vstd::bytes::spec_u32_to_le_bytes;
use vstd::prelude::*;
use vstd::slice::slice_subrange;

verus! {

/// The PCK leaf certificate the quote carries: the first certificate of the
/// PEM chain in its certification data.
pub open spec fn spec_leaf(q: Seq<u8>) -> Seq<u8> {
    pem_ders(spec_cert_data(q))[0]
}

/// The full chain the tenant validates: the quote's leaf in front of the
/// tenant-supplied trust chain, whose last certificate is the trusted root.
pub open spec fn spec_full_chain(q: Seq<u8>, rc: Seq<Seq<u8>>) -> Seq<Seq<u8>> {
    seq![spec_leaf(q)] + rc
}

/// The certificate-chain step: the quote's certification data fits the
/// backend's bound and parses as a non-empty PEM chain, the full chain is
/// long enough, its issuers link up, and every signature verifies under its
/// issuer.
pub open spec fn chain_step_ok(q: Seq<u8>, rc: Seq<Seq<u8>>) -> bool {
    &&& spec_cert_data(q).len() <= 0x7fff_ffff
    &&& pem_ok(spec_cert_data(q))
    &&& pem_ders(spec_cert_data(q)).len() >= 1
    &&& spec_full_chain(q, rc).len() >= 2
    &&& issuers_linked(spec_full_chain(q, rc))
    &&& sigs_linked(spec_full_chain(q, rc))
}

/// The attestation key's coordinates name a point on the curve.
pub open spec fn att_key_ok(q: Seq<u8>) -> bool {
    xy_on_curve(spec_att_key_xy(q))
}

/// The attestation key's signature over the quote's header and body
/// verifies.
pub open spec fn quote_sig_ok(q: Seq<u8>) -> bool {
    sig_ok(
        pubkey_of_xy(spec_att_key_xy(q)),
        spec_header_and_body(q),
        spec_sig_der_of_raw(spec_quote_sig(q)),
    )
}

/// A public key can be taken from the PCK leaf certificate.
pub open spec fn pck_key_ok(q: Seq<u8>) -> bool {
    cert_has_key(spec_leaf(q))
}

/// The PCK's signature over the QE report verifies.
pub open spec fn qe_sig_ok(q: Seq<u8>) -> bool {
    sig_ok(
        cert_key_of(spec_leaf(q)),
        spec_qe_report(q),
        spec_sig_der_of_raw(spec_qe_sig(q)),
    )
}

/// The binding step: the SHA-256 hash of the attestation public key followed
/// by the authentication data equals the hashed report data the PCK signed.
/// Without it an unrelated, validly signed key could be substituted.
pub open spec fn hash_binding_ok(q: Seq<u8>) -> bool {
    sha256_of(spec_att_key_xy(q) + spec_auth_data(q)) == spec_pck_hash(q)
}

/// Every verification the tenant runs over a quote, given the tenant's trust
/// chain: well-formedness, the certificate chain, the attestation-key
/// signature, the PCK signature, and the hash binding.
pub open spec fn quote_verified(q: Seq<u8>, rc: Seq<Seq<u8>>) -> bool {
    &&& quote_well_formed(q)
    &&& chain_step_ok(q, rc)
    &&& att_key_ok(q)
    &&& quote_sig_ok(q)
    &&& pck_key_ok(q)
    &&& qe_sig_ok(q)
    &&& hash_binding_ok(q)
}

/// Verify a quote end to end against the tenant-supplied trust chain, in the
/// protocol's fixed order, each step strictly gating the next: parse, build
/// and validate the certificate chain, check the attestation key's signature
/// over header and body, check the PCK's signature over the QE report, and
/// check the hash binding the attestation key to the report data. Each
/// failure is distinguishable; a failure to build the chain from the quote's
/// certification data counts against the chain step.
pub fn verify_quote(quote: &[u8], root_chain: Vec<Cert>) -> (r: Result<ParsedQuote, Error>)
    ensures
        r is Ok <==> quote_verified(quote@, ders_of(root_chain@)),
        r matches Ok(p) ==> p.extracted_from(quote@),
        r == Err::<ParsedQuote, Error>(Error::ProtocolFraming) <==> !quote_well_formed(quote@),
        quote_well_formed(quote@) ==> (r == Err::<ParsedQuote, Error>(Error::ChainInvalid)
            <==> !chain_step_ok(quote@, ders_of(root_chain@))),
        quote_well_formed(quote@) && chain_step_ok(quote@, ders_of(root_chain@)) ==> (r
            == Err::<ParsedQuote, Error>(Error::InvalidPoint) <==> !att_key_ok(quote@)),
        quote_well_formed(quote@) && chain_step_ok(quote@, ders_of(root_chain@)) && att_key_ok(
            quote@,
        ) ==> (r == Err::<ParsedQuote, Error>(Error::QuoteSignatureInvalid) <==> !quote_sig_ok(
            quote@,
        )),
        quote_well_formed(quote@) && chain_step_ok(quote@, ders_of(root_chain@)) && att_key_ok(
            quote@,
        ) && quote_sig_ok(quote@) ==> (r == Err::<ParsedQuote, Error>(Error::InvalidEncoding)
            <==> !pck_key_ok(quote@)),
        quote_well_formed(quote@) && chain_step_ok(quote@, ders_of(root_chain@)) && att_key_ok(
            quote@,
        ) && quote_sig_ok(quote@) && pck_key_ok(quote@) ==> (r == Err::<ParsedQuote, Error>(
            Error::AttestationKeySignatureInvalid,
        ) <==> !qe_sig_ok(quote@)),
        quote_well_formed(quote@) && chain_step_ok(quote@, ders_of(root_chain@)) && att_key_ok(
            quote@,
        ) && quote_sig_ok(quote@) && pck_key_ok(quote@) && qe_sig_ok(quote@) ==> (r
            == Err::<ParsedQuote, Error>(Error::ReportDataHashInvalid) <==> !hash_binding_ok(
            quote@,
        )),
{
    let parsed = match parse_quote(quote) {
        Ok(p) => p,
        Err(_) => {
            return Err(Error::ProtocolFraming);
        },
    };
    // The PCK chain is reconstructed with the quote's leaf certificate in
    // front of the tenant's chain.
    let quote_certs = match certs_from_pem(parsed.sig.certification_data.as_slice()) {
        Ok(v) => v,
        Err(_) => {
            return Err(Error::ChainInvalid);
        },
    };
    if quote_certs.len() == 0 {
        return Err(Error::ChainInvalid);
    }
    proof {
        assert(quote_certs@[0]@ == spec_leaf(quote@));
    }
    let chain = CertChain::new_from_chain(root_chain, &quote_certs[0]);
    proof {
        assert(chain@ =~= spec_full_chain(quote@, ders_of(root_chain@)));
    }
    if chain.len_ok().is_err() {
        return Err(Error::ChainInvalid);
    }
    if chain.verify_issuers().is_err() {
        return Err(Error::ChainInvalid);
    }
    if chain.verify_sigs().is_err() {
        return Err(Error::ChainInvalid);
    }
    // The attestation key's signature over the signed material.
    let attestation_key = match Key::new_from_xy(parsed.sig.attestation_public_key.as_slice()) {
        Ok(k) => k,
        Err(_) => {
            return Err(Error::InvalidPoint);
        },
    };
    let quote_signature = match Signature::from_raw(parsed.sig.signature.as_slice()) {
        Ok(s) => s.to_der_vec(),
        Err(_) => {
            return Err(Error::ProtocolFraming);
        },
    };
    let signed_material = slice_subrange(quote, 0, 432);
    if attestation_key.verify_sig(signed_material, &quote_signature).is_err() {
        return Err(Error::QuoteSignatureInvalid);
    }
    // The PCK's signature over the QE report.
    let pck_pkey = match quote_certs[0].public_key() {
        Ok(k) => k,
        Err(_) => {
            return Err(Error::InvalidEncoding);
        },
    };
    let pc_key = Key::new_from_pubkey(pck_pkey);
    let qe_signature = match Signature::from_raw(parsed.sig.qe_report_signature.as_slice()) {
        Ok(s) => s.to_der_vec(),
        Err(_) => {
            return Err(Error::ProtocolFraming);
        },
    };
    if pc_key.verify_sig(parsed.sig.qe_report.as_slice(), &qe_signature).is_err() {
        return Err(Error::AttestationKeySignatureInvalid);
    }
    // The hash binding the attestation key to the report data the PCK signed.
    let mut unhashed_data: Vec<u8> = Vec::new();
    unhashed_data.extend_from_slice(parsed.sig.attestation_public_key.as_slice());
    unhashed_data.extend_from_slice(parsed.sig.authentication_data.as_slice());
    proof {
        assert(unhashed_data@ =~= spec_att_key_xy(quote@) + spec_auth_data(quote@));
    }
    let hashed_reportdata = slice_subrange(quote, 884, 916);
    if pc_key.verify_hash(hashed_reportdata, unhashed_data).is_err() {
        return Err(Error::ReportDataHashInvalid);
    }
    Ok(parsed)
}

/// Prepare the nine-value payload for the enclave: derive the session key
/// from this side's pair and the enclave's point, then seal both values, each
/// under its own fresh IV with its plaintext's hash as associated data.
/// Returns the payload and the session key, which never leaves this side.
pub fn build_tenant_payload(pair: &Key, enclave_point: &[u8], val1: u32, val2: u32) -> (r: Result<
    (TenantPayload, Vec<u8>),
    Error,
>)
    requires
        pair.spec_has_priv(),
        pair.spec_wf(),
    ensures
        r matches Ok((msg, k)) ==> ({
            &&& point_decodes(enclave_point@)
            &&& k@ == spec_session_key(pair.spec_priv(), enclave_point@)
            &&& k@.len() == 32
            &&& msg.tenant_pubkey@ == ec_point_bytes(pair.spec_priv())
            &&& point_decodes(msg.tenant_pubkey@)
            &&& msg.tenant_pubkey@.len() == 65 && msg.tenant_pubkey@[0] == 4
            &&& msg.iv1@.len() == 16 && msg.iv2@.len() == 16
            &&& msg.hash1@ == sha256_of(spec_u32_to_le_bytes(val1))
            &&& msg.hash2@ == sha256_of(spec_u32_to_le_bytes(val2))
            &&& msg.hash1@.len() == 32 && msg.hash2@.len() == 32
            &&& msg.ciphertext1@ == gcm_ct(k@, msg.iv1@, msg.hash1@, spec_u32_to_le_bytes(val1))
            &&& msg.tag1@ == gcm_tag(k@, msg.iv1@, msg.hash1@, spec_u32_to_le_bytes(val1))
            &&& msg.ciphertext2@ == gcm_ct(k@, msg.iv2@, msg.hash2@, spec_u32_to_le_bytes(val2))
            &&& msg.tag2@ == gcm_tag(k@, msg.iv2@, msg.hash2@, spec_u32_to_le_bytes(val2))
            &&& msg.ciphertext1@.len() == 4 && msg.ciphertext2@.len() == 4
            &&& msg.tag1@.len() == 16 && msg.tag2@.len() == 16
        }),
        r == Err::<(TenantPayload, Vec<u8>), Error>(Error::InvalidEncoding) <==> !point_decodes(
            enclave_point@,
        ),
        r matches Err(e) ==> e == Error::InvalidEncoding || e == Error::CryptoFailure,
{
    let k = match agree_session_key(pair, enclave_point) {
        Ok(k) => k,
        Err(e) => {
            return Err(e);
        },
    };
    let tenant_pubkey = match pair.return_pubkey_bytes() {
        Ok(b) => b,
        Err(e) => {
            return Err(e);
        },
    };
    let iv1 = match random_iv() {
        Some(iv) => iv,
        None => {
            return Err(Error::CryptoFailure);
        },
    };
    let iv2 = match random_iv() {
        Some(iv) => iv,
        None => {
            return Err(Error::CryptoFailure);
        },
    };
    let sealed1 = match seal_value(k.as_slice(), iv1.as_slice(), val1) {
        Ok(t) => t,
        Err(e) => {
            return Err(e);
        },
    };
    let sealed2 = match seal_value(k.as_slice(), iv2.as_slice(), val2) {
        Ok(t) => t,
        Err(e) => {
            return Err(e);
        },
    };
    let (hash1, ciphertext1, tag1) = sealed1;
    let (hash2, ciphertext2, tag2) = sealed2;
    Ok(
        (
            TenantPayload {
                tenant_pubkey,
                hash1,
                hash2,
                iv1,
                iv2,
                tag1,
                tag2,
                ciphertext1,
                ciphertext2,
            },
            k,
        ),
    )
}

/// Decrypt the enclave's response and release the summed result: fail closed
/// on a tag mismatch, reject outright any field of the wrong wire width, and
/// only accept the five-byte widened encoding — so the released value is
/// exactly the sum the response sealed, and no other.
pub fn process_response(key: &[u8], resp: &EnclaveResponse) -> (r: Result<u64, Error>)
    requires
        key@.len() == 32,
    ensures
        r matches Ok(v) ==> resp.iv@.len() == 16 && gcm_authentic(
            key@,
            resp.iv@,
            resp.hash@,
            resp.ciphertext@,
            resp.tag@,
            spec_sum_to_le_bytes(v),
        ) && v <= crate::codec::sum_wire_max(),
        r matches Ok(v) ==> forall|pt: Seq<u8>|
            gcm_authentic(key@, resp.iv@, resp.hash@, resp.ciphertext@, resp.tag@, pt) ==> pt
                == spec_sum_to_le_bytes(v),
        resp.iv@.len() == 16 && open_input_ok(resp.hash@, resp.ciphertext@, resp.tag@) ==> (r
            == Err::<u64, Error>(Error::AuthenticationFailed) <==> (forall|pt: Seq<u8>|
            !gcm_authentic(key@, resp.iv@, resp.hash@, resp.ciphertext@, resp.tag@, pt))),
        resp.iv@.len() != 16 ==> r == Err::<u64, Error>(Error::ProtocolFraming),
        resp.iv@.len() == 16 && !open_input_ok(resp.hash@, resp.ciphertext@, resp.tag@) ==> r
            == Err::<u64, Error>(Error::ProtocolFraming),
        (resp.iv@.len() == 16 && open_input_ok(resp.hash@, resp.ciphertext@, resp.tag@) && exists|
            v: u64,
        |
            v <= crate::codec::sum_wire_max() && gcm_authentic(
                key@,
                resp.iv@,
                resp.hash@,
                resp.ciphertext@,
                resp.tag@,
                spec_sum_to_le_bytes(v),
            )) ==> r is Ok,
        r matches Err(e) ==> e == Error::AuthenticationFailed || e == Error::ProtocolFraming,
{
    if resp.iv.len() != 16 {
        return Err(Error::ProtocolFraming);
    }
    open_sum(
        key,
        resp.iv.as_slice(),
        resp.hash.as_slice(),
        resp.ciphertext.as_slice(),
        resp.tag.as_slice(),
    )
}

/// The whole tenant-side gate before any exchange with the enclave: verify
/// the quote end to end, extract the enclave's public point from the verified
/// report body, generate a fresh pair, and prepare the sealed payload. No
/// payload exists — and so nothing is sent — unless every verification step
/// passed; each gate error is pinned exactly as at `verify_quote`, and on a
/// fully verified quote whose embedded enclave point decodes, only the
/// backend's key or randomness generation stands between the caller and the
/// payload.
pub fn request_exchange(quote: &[u8], root_chain: Vec<Cert>, val1: u32, val2: u32) -> (r: Result<
    (TenantPayload, Vec<u8>),
    Error,
>)
    ensures
        r == Err::<(TenantPayload, Vec<u8>), Error>(Error::ProtocolFraming)
            <==> !quote_well_formed(quote@),
        quote_well_formed(quote@) ==> (r == Err::<(TenantPayload, Vec<u8>), Error>(
            Error::ChainInvalid,
        ) <==> !chain_step_ok(quote@, ders_of(root_chain@))),
        quote_well_formed(quote@) && chain_step_ok(quote@, ders_of(root_chain@)) ==> (r
            == Err::<(TenantPayload, Vec<u8>), Error>(Error::InvalidPoint) <==> !att_key_ok(
            quote@,
        )),
        quote_well_formed(quote@) && chain_step_ok(quote@, ders_of(root_chain@)) && att_key_ok(
            quote@,
        ) ==> (r == Err::<(TenantPayload, Vec<u8>), Error>(Error::QuoteSignatureInvalid)
            <==> !quote_sig_ok(quote@)),
        quote_well_formed(quote@) && chain_step_ok(quote@, ders_of(root_chain@)) && att_key_ok(
            quote@,
        ) && quote_sig_ok(quote@) && !pck_key_ok(quote@) ==> r == Err::<
            (TenantPayload, Vec<u8>),
            Error,
        >(Error::InvalidEncoding),
        r == Err::<(TenantPayload, Vec<u8>), Error>(Error::InvalidEncoding) ==> (!pck_key_ok(
            quote@,
        ) || !point_decodes(spec_enclave_key_bytes(quote@))),
        quote_well_formed(quote@) && chain_step_ok(quote@, ders_of(root_chain@)) && att_key_ok(
            quote@,
        ) && quote_sig_ok(quote@) && pck_key_ok(quote@) ==> (r == Err::<
            (TenantPayload, Vec<u8>),
            Error,
        >(Error::AttestationKeySignatureInvalid) <==> !qe_sig_ok(quote@)),
        quote_well_formed(quote@) && chain_step_ok(quote@, ders_of(root_chain@)) && att_key_ok(
            quote@,
        ) && quote_sig_ok(quote@) && pck_key_ok(quote@) && qe_sig_ok(quote@) ==> (r == Err::<
            (TenantPayload, Vec<u8>),
            Error,
        >(Error::ReportDataHashInvalid) <==> !hash_binding_ok(quote@)),
        quote_verified(quote@, ders_of(root_chain@)) ==> (r is Ok || r == Err::<
            (TenantPayload, Vec<u8>),
            Error,
        >(Error::CryptoFailure) || (r == Err::<(TenantPayload, Vec<u8>), Error>(
            Error::InvalidEncoding,
        ) && !point_decodes(spec_enclave_key_bytes(quote@)))),
        quote_verified(quote@, ders_of(root_chain@)) && point_decodes(
            spec_enclave_key_bytes(quote@),
        ) ==> (r is Ok || r == Err::<(TenantPayload, Vec<u8>), Error>(Error::CryptoFailure)),
        r is Ok ==> quote_verified(quote@, ders_of(root_chain@)),
        r matches Ok((msg, k)) ==> ({
            let point = spec_enclave_key_bytes(quote@);
            &&& point_decodes(point)
            &&& exists|sk: Seq<u8>|
                {
                    &&& k@ == #[trigger] spec_session_key(sk, point)
                    &&& msg.tenant_pubkey@ == ec_point_bytes(sk)
                    &&& crate::crypto::p256_pair(sk)
                    &&& point_decodes(msg.tenant_pubkey@)
                    &&& msg.iv1@.len() == 16 && msg.iv2@.len() == 16
                    &&& msg.hash1@ == sha256_of(spec_u32_to_le_bytes(val1))
                    &&& msg.hash2@ == sha256_of(spec_u32_to_le_bytes(val2))
                    &&& msg.ciphertext1@ == gcm_ct(
                        k@,
                        msg.iv1@,
                        msg.hash1@,
                        spec_u32_to_le_bytes(val1),
                    )
                    &&& msg.tag1@ == gcm_tag(k@, msg.iv1@, msg.hash1@, spec_u32_to_le_bytes(val1))
                    &&& msg.ciphertext2@ == gcm_ct(
                        k@,
                        msg.iv2@,
                        msg.hash2@,
                        spec_u32_to_le_bytes(val2),
                    )
                    &&& msg.tag2@ == gcm_tag(k@, msg.iv2@, msg.hash2@, spec_u32_to_le_bytes(val2))
                }
        }),
{
    let parsed = match verify_quote(quote, root_chain) {
        Ok(p) => p,
        Err(e) => {
            return Err(e);
        },
    };
    // The compressed enclave key sits at a fixed offset of the report body.
    let enclave_point = crate::quote::enclave_key_from_report_body(parsed.report_body.as_slice());
    proof {
        assert(enclave_point@ =~= spec_enclave_key_bytes(quote@));
    }
    let pair = match Key::new_pair_secp256r1() {
        Ok(p) => p,
        Err(e) => {
            return Err(e);
        },
    };
    match build_tenant_payload(&pair, enclave_point.as_slice(), val1, val2) {
        Ok(t) => {
            proof {
                assert(t.1@ == spec_session_key(
                    pair.spec_priv(),
                    spec_enclave_key_bytes(quote@),
                ));
            }
            Ok(t)
        },
        Err(e) => Err(e),
    }
}

} // verus!
