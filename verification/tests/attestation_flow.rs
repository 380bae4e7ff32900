//! The quote parser, the sealed session, and the whole three-party flow run
//! in process: a quote is built and signed exactly as the platform would sign
//! it, the tenant verifies it end to end, and the two endpoints exchange the
//! sealed payload.

use attestation::cert::certs_from_pem;
use attestation::enclave::{handle_tenant_payload, report_data_for_key};
use attestation::errors::Error;
use attestation::key::Key;
use attestation::quote::{parse_quote, raw_header_and_body, raw_pck_hash};
use attestation::session::{open_value, seal_value};
use attestation::proto::{daemon_step, DaemonAction, DaemonEvent, DaemonState};
use attestation::tenant::{process_response, request_exchange, verify_quote};
use openssl::asn1::Asn1Time;
use openssl::bn::{BigNum, BigNumContext};
use openssl::ec::{EcGroup, EcKey};
use openssl::hash::MessageDigest;
use openssl::nid::Nid;
use openssl::pkey::{PKey, Private, Public};
use openssl::sha::sha256;
use openssl::x509::{X509Builder, X509NameBuilder, X509};

fn p256_group() -> EcGroup {
    EcGroup::from_curve_name(Nid::X9_62_PRIME256V1).unwrap()
}

fn gen_keypair() -> (PKey<Private>, PKey<Public>) {
    let group = p256_group();
    let sk = EcKey::generate(&group).unwrap();
    let pk_ec = EcKey::from_public_key(&group, sk.public_key()).unwrap();
    let pk = PKey::from_ec_key(pk_ec).unwrap();
    (PKey::from_ec_key(sk).unwrap(), pk)
}

fn xy_of(pk: &PKey<Public>) -> Vec<u8> {
    let group = p256_group();
    let ec = pk.ec_key().unwrap();
    let mut ctx = BigNumContext::new().unwrap();
    let mut x = BigNum::new().unwrap();
    let mut y = BigNum::new().unwrap();
    ec.public_key().affine_coordinates(&group, &mut x, &mut y, &mut ctx).unwrap();
    let mut out = x.to_vec_padded(32).unwrap();
    out.extend(y.to_vec_padded(32).unwrap());
    out
}

fn sign_raw(data: &[u8], sk: &PKey<Private>) -> Vec<u8> {
    let digest = sha256(data);
    let ec = sk.ec_key().unwrap();
    let sig = openssl::ecdsa::EcdsaSig::sign(&digest, &ec).unwrap();
    let mut out = sig.r().to_vec_padded(32).unwrap();
    out.extend(sig.s().to_vec_padded(32).unwrap());
    out
}

fn make_cert(subject: &str, issuer: &str, pubkey: &PKey<Public>, signer: &PKey<Private>) -> X509 {
    let mut nb = X509NameBuilder::new().unwrap();
    nb.append_entry_by_text("CN", subject).unwrap();
    let sname = nb.build();
    let mut ib = X509NameBuilder::new().unwrap();
    ib.append_entry_by_text("CN", issuer).unwrap();
    let iname = ib.build();
    let mut b = X509Builder::new().unwrap();
    b.set_version(2).unwrap();
    b.set_subject_name(&sname).unwrap();
    b.set_issuer_name(&iname).unwrap();
    b.set_pubkey(pubkey).unwrap();
    b.set_not_before(&Asn1Time::days_from_now(0).unwrap()).unwrap();
    b.set_not_after(&Asn1Time::days_from_now(365).unwrap()).unwrap();
    let serial = BigNum::from_u32(1).unwrap().to_asn1_integer().unwrap();
    b.set_serial_number(&serial).unwrap();
    b.sign(signer, MessageDigest::sha256()).unwrap();
    b.build()
}

fn header_and_body(report_body: &[u8]) -> Vec<u8> {
    assert_eq!(report_body.len(), 384);
    let mut hb = Vec::new();
    hb.extend_from_slice(&3u16.to_le_bytes());
    hb.extend_from_slice(&2u16.to_le_bytes());
    hb.extend_from_slice(&0u32.to_le_bytes());
    hb.extend_from_slice(&0u16.to_le_bytes());
    hb.extend_from_slice(&0u16.to_le_bytes());
    hb.extend_from_slice(&[0u8; 16]);
    hb.extend_from_slice(&[0u8; 20]);
    hb.extend_from_slice(report_body);
    hb
}

fn assemble_quote(
    hb: &[u8],
    quote_sig: &[u8],
    att_xy: &[u8],
    qe_report: &[u8],
    qe_sig: &[u8],
    auth: &[u8],
    cert_pem: &[u8],
) -> Vec<u8> {
    let mut q = hb.to_vec();
    let sig_len = 64 + 64 + 384 + 64 + 2 + auth.len() + 2 + 4 + cert_pem.len();
    q.extend_from_slice(&(sig_len as u32).to_le_bytes());
    q.extend_from_slice(quote_sig);
    q.extend_from_slice(att_xy);
    q.extend_from_slice(qe_report);
    q.extend_from_slice(qe_sig);
    q.extend_from_slice(&(auth.len() as u16).to_le_bytes());
    q.extend_from_slice(auth);
    q.extend_from_slice(&5u16.to_le_bytes());
    q.extend_from_slice(&(cert_pem.len() as u32).to_le_bytes());
    q.extend_from_slice(cert_pem);
    q
}

struct Fixture {
    quote: Vec<u8>,
    trust_pem: Vec<u8>,
    enclave_pair: Key,
}

/// Build a complete, correctly signed attestation: an enclave pair whose
/// compressed point sits in the report data, an attestation key that signs
/// the header and body, and a PCK chain whose leaf signs the QE report
/// carrying the hash that binds the attestation key.
fn build_fixture(tampered_intermediate: bool, swap_attestation_key: bool) -> Fixture {
    let enclave_pair = Key::new_pair_secp256r1().unwrap();
    let compressed = enclave_pair.return_pubkey_bytes_compressed().unwrap();
    let report_data = report_data_for_key(&compressed);
    let mut report_body = vec![0u8; 384];
    report_body[320..384].copy_from_slice(&report_data);
    let hb = header_and_body(&report_body);

    let (att_sk, att_pk) = gen_keypair();
    let att_xy = xy_of(&att_pk);
    let auth = [0xaau8; 32];

    // The QE report binds the attestation key: the first 32 bytes of its
    // report-data field hold SHA-256(attestation key || authentication data).
    let mut bound = att_xy.clone();
    bound.extend_from_slice(&auth);
    let binding_hash = sha256(&bound);
    let mut qe_report = vec![0u8; 384];
    qe_report[320..352].copy_from_slice(&binding_hash);

    let (root_sk, root_pk) = gen_keypair();
    let (int_sk, int_pk) = gen_keypair();
    let (pck_sk, pck_pk) = gen_keypair();
    let root = make_cert("root", "root", &root_pk, &root_sk);
    let intermediate = if tampered_intermediate {
        let (rogue_sk, _) = gen_keypair();
        make_cert("intermediate", "root", &int_pk, &rogue_sk)
    } else {
        make_cert("intermediate", "root", &int_pk, &root_sk)
    };
    let pck_leaf = make_cert("pck", "intermediate", &pck_pk, &int_sk);

    let qe_sig = sign_raw(&qe_report, &pck_sk);

    // The attestation key signs the header and body; a swapped key re-signs
    // validly but is not the key the QE report's hash binds.
    let (quote_sig, att_xy_in_quote) = if swap_attestation_key {
        let (other_sk, other_pk) = gen_keypair();
        (sign_raw(&hb, &other_sk), xy_of(&other_pk))
    } else {
        (sign_raw(&hb, &att_sk), att_xy.clone())
    };

    let leaf_pem = pck_leaf.to_pem().unwrap();
    let quote = assemble_quote(
        &hb,
        &quote_sig,
        &att_xy_in_quote,
        &qe_report,
        &qe_sig,
        &auth,
        &leaf_pem,
    );
    let mut trust_pem = intermediate.to_pem().unwrap();
    trust_pem.extend(root.to_pem().unwrap());
    Fixture { quote, trust_pem, enclave_pair }
}

#[test]
fn quote_parses_into_verbatim_fields() {
    let fx = build_fixture(false, false);
    let parsed = parse_quote(&fx.quote).unwrap();
    assert_eq!(parsed.report_body, fx.quote[48..432].to_vec());
    assert_eq!(parsed.sig.signature, fx.quote[436..500].to_vec());
    assert_eq!(parsed.sig.attestation_public_key, fx.quote[500..564].to_vec());
    assert_eq!(parsed.sig.qe_report, fx.quote[564..948].to_vec());
    assert_eq!(parsed.sig.qe_report_signature, fx.quote[948..1012].to_vec());
    assert_eq!(parsed.sig.authentication_data, vec![0xaau8; 32]);
    let hb = raw_header_and_body(&fx.quote).unwrap();
    assert_eq!(hb, fx.quote[0..432].to_vec());
    let hash = raw_pck_hash(&fx.quote).unwrap();
    assert_eq!(hash, fx.quote[884..916].to_vec());
}

#[test]
fn quote_parse_rejects_malformed() {
    let fx = build_fixture(false, false);
    assert_eq!(parse_quote(&fx.quote[..1000]).err().unwrap(), Error::ProtocolFraming);
    let mut wrong_version = fx.quote.clone();
    wrong_version[0] = 4;
    assert_eq!(parse_quote(&wrong_version).err().unwrap(), Error::ProtocolFraming);
    let mut wrong_len = fx.quote.clone();
    wrong_len.push(0);
    assert_eq!(parse_quote(&wrong_len).err().unwrap(), Error::ProtocolFraming);
}

#[test]
fn seal_and_open_round_trip() {
    let key = [7u8; 32];
    let iv = [9u8; 16];
    let (h, ct, tag) = seal_value(&key, &iv, 0xdead_beef).unwrap();
    assert_eq!(ct.len(), 4);
    assert_eq!(tag.len(), 16);
    let v = open_value(&key, &iv, &h, &ct, &tag).unwrap();
    assert_eq!(v, 0xdead_beef);
}

#[test]
fn open_fails_closed_on_any_flipped_bit() {
    let key = [7u8; 32];
    let iv = [9u8; 16];
    let (h, ct, tag) = seal_value(&key, &iv, 5).unwrap();
    for i in 0..ct.len() {
        let mut bad = ct.clone();
        bad[i] ^= 0x01;
        assert_eq!(open_value(&key, &iv, &h, &bad, &tag).err().unwrap(),
            Error::AuthenticationFailed);
    }
    for i in 0..tag.len() {
        let mut bad = tag.clone();
        bad[i] ^= 0x01;
        assert_eq!(open_value(&key, &iv, &h, &ct, &bad).err().unwrap(),
            Error::AuthenticationFailed);
    }
    let mut bad_aad = h.clone();
    bad_aad[0] ^= 0x01;
    assert_eq!(open_value(&key, &iv, &bad_aad, &ct, &tag).err().unwrap(),
        Error::AuthenticationFailed);
}

#[test]
fn truncated_tag_is_rejected_outright() {
    // The backend would compare a shorter tag as a prefix, so any width but
    // the full 16 bytes is refused before decryption is even attempted.
    let key = [7u8; 32];
    let iv = [9u8; 16];
    let (h, ct, tag) = seal_value(&key, &iv, 5).unwrap();
    for width in [0usize, 1, 8, 15] {
        let short = tag[..width].to_vec();
        assert_eq!(open_value(&key, &iv, &h, &ct, &short).err().unwrap(),
            Error::ProtocolFraming);
    }
    let long = [tag.as_slice(), &[0u8]].concat();
    assert_eq!(open_value(&key, &iv, &h, &ct, &long).err().unwrap(), Error::ProtocolFraming);
}

#[test]
fn enclave_rejects_truncated_tag() {
    let fx = build_fixture(false, false);
    let trust = certs_from_pem(&fx.trust_pem).unwrap();
    let (payload, _key) = request_exchange(&fx.quote, trust, 5, 7).unwrap();
    let truncated = attestation::proto::TenantPayload {
        tenant_pubkey: payload.tenant_pubkey.clone(),
        hash1: payload.hash1.clone(),
        hash2: payload.hash2.clone(),
        iv1: payload.iv1.clone(),
        iv2: payload.iv2.clone(),
        tag1: payload.tag1[..8].to_vec(),
        tag2: payload.tag2.clone(),
        ciphertext1: payload.ciphertext1.clone(),
        ciphertext2: payload.ciphertext2.clone(),
    };
    assert_eq!(handle_tenant_payload(&fx.enclave_pair, &truncated).err().unwrap(),
        Error::ProtocolFraming);
}

#[test]
fn tenant_rejects_truncated_response_tag() {
    let fx = build_fixture(false, false);
    let trust = certs_from_pem(&fx.trust_pem).unwrap();
    let (payload, key) = request_exchange(&fx.quote, trust, 5, 7).unwrap();
    let resp = handle_tenant_payload(&fx.enclave_pair, &payload).unwrap();
    let truncated = attestation::proto::EnclaveResponse {
        tag: resp.tag[..4].to_vec(),
        iv: resp.iv.clone(),
        hash: resp.hash.clone(),
        ciphertext: resp.ciphertext.clone(),
    };
    assert_eq!(process_response(&key, &truncated).err().unwrap(), Error::ProtocolFraming);
}

#[test]
fn verify_quote_rejects_empty_trust_chain() {
    let fx = build_fixture(false, false);
    let err = verify_quote(&fx.quote, Vec::new()).err().unwrap();
    assert_eq!(err, Error::ChainInvalid);
}

#[test]
fn verify_quote_rejects_off_curve_attestation_key() {
    // The chain still verifies, but the embedded coordinates are not a point
    // on the curve.
    let fx = build_fixture(false, false);
    let mut tampered = fx.quote.clone();
    for b in tampered[500..564].iter_mut() {
        *b = 0;
    }
    tampered[531] = 1;
    tampered[563] = 1;
    let trust = certs_from_pem(&fx.trust_pem).unwrap();
    assert_eq!(verify_quote(&tampered, trust).err().unwrap(), Error::InvalidPoint);
}

#[test]
fn raw_extracts_reject_short_input() {
    assert_eq!(raw_header_and_body(&[0u8; 100]).err().unwrap(), Error::ProtocolFraming);
    assert_eq!(raw_pck_hash(&[0u8; 900]).err().unwrap(), Error::ProtocolFraming);
}

#[test]
fn verify_quote_accepts_valid_attestation() {
    let fx = build_fixture(false, false);
    let trust = certs_from_pem(&fx.trust_pem).unwrap();
    assert!(verify_quote(&fx.quote, trust).is_ok());
}

#[test]
fn verify_quote_pinpoints_bad_quote_signature() {
    let fx = build_fixture(false, false);
    let mut tampered = fx.quote.clone();
    tampered[440] ^= 0x01;
    let trust = certs_from_pem(&fx.trust_pem).unwrap();
    assert_eq!(verify_quote(&tampered, trust).err().unwrap(), Error::QuoteSignatureInvalid);
}

#[test]
fn verify_quote_pinpoints_bad_qe_signature() {
    let fx = build_fixture(false, false);
    let mut tampered = fx.quote.clone();
    tampered[950] ^= 0x01;
    let trust = certs_from_pem(&fx.trust_pem).unwrap();
    assert_eq!(verify_quote(&tampered, trust).err().unwrap(),
        Error::AttestationKeySignatureInvalid);
}

#[test]
fn exchange_of_five_and_seven_yields_twelve() {
    // End to end: a valid three-certificate chain and the values 5 and 7.
    let fx = build_fixture(false, false);
    let trust = certs_from_pem(&fx.trust_pem).unwrap();
    let (payload, key) = request_exchange(&fx.quote, trust, 5, 7).unwrap();
    let resp = handle_tenant_payload(&fx.enclave_pair, &payload).unwrap();
    let sum = process_response(&key, &resp).unwrap();
    assert_eq!(sum, 12);
}

#[test]
fn tampered_intermediate_aborts_before_any_exchange() {
    // The intermediate certificate's signature does not verify: the tenant
    // aborts with the chain error and produces no payload to send.
    let fx = build_fixture(true, false);
    let trust = certs_from_pem(&fx.trust_pem).unwrap();
    let err = request_exchange(&fx.quote, trust, 5, 7).err().unwrap();
    assert_eq!(err, Error::ChainInvalid);
}

#[test]
fn swapped_attestation_key_fails_hash_binding() {
    // The quote's attestation key is replaced by an unrelated, validly formed
    // key that re-signs the quote: the signature verifies syntactically, but
    // the hash binding catches the substitution.
    let fx = build_fixture(false, true);
    let trust = certs_from_pem(&fx.trust_pem).unwrap();
    let err = request_exchange(&fx.quote, trust, 5, 7).err().unwrap();
    assert_eq!(err, Error::ReportDataHashInvalid);
}

#[test]
fn boundary_values_sum_with_fifth_byte() {
    // 0 and the 32-bit maximum, and the maximum twice: the widened sum and
    // its fifth wire byte carry the overflow exactly.
    let fx = build_fixture(false, false);
    let trust = certs_from_pem(&fx.trust_pem).unwrap();
    let (payload, key) = request_exchange(&fx.quote, trust, 0, u32::MAX).unwrap();
    let resp = handle_tenant_payload(&fx.enclave_pair, &payload).unwrap();
    assert_eq!(process_response(&key, &resp).unwrap(), u32::MAX as u64);

    let fx2 = build_fixture(false, false);
    let trust2 = certs_from_pem(&fx2.trust_pem).unwrap();
    let (payload2, key2) = request_exchange(&fx2.quote, trust2, u32::MAX, u32::MAX).unwrap();
    let resp2 = handle_tenant_payload(&fx2.enclave_pair, &payload2).unwrap();
    assert_eq!(process_response(&key2, &resp2).unwrap(), 8589934590);
}

#[test]
fn enclave_rejects_bad_peer_point_and_bad_payload() {
    let fx = build_fixture(false, false);
    let trust = certs_from_pem(&fx.trust_pem).unwrap();
    let (payload, _key) = request_exchange(&fx.quote, trust, 5, 7).unwrap();

    let mut bad_point = attestation::proto::TenantPayload {
        tenant_pubkey: vec![0x04; 65],
        hash1: payload.hash1.clone(),
        hash2: payload.hash2.clone(),
        iv1: payload.iv1.clone(),
        iv2: payload.iv2.clone(),
        tag1: payload.tag1.clone(),
        tag2: payload.tag2.clone(),
        ciphertext1: payload.ciphertext1.clone(),
        ciphertext2: payload.ciphertext2.clone(),
    };
    assert_eq!(handle_tenant_payload(&fx.enclave_pair, &bad_point).err().unwrap(),
        Error::InvalidEncoding);

    bad_point.tenant_pubkey = payload.tenant_pubkey.clone();
    bad_point.ciphertext1[0] ^= 0x01;
    assert_eq!(handle_tenant_payload(&fx.enclave_pair, &bad_point).err().unwrap(),
        Error::AuthenticationFailed);

    bad_point.ciphertext1 = payload.ciphertext1.clone();
    bad_point.iv1 = vec![0u8; 3];
    assert_eq!(handle_tenant_payload(&fx.enclave_pair, &bad_point).err().unwrap(),
        Error::ProtocolFraming);
}

#[test]
fn response_tampering_fails_closed() {
    let fx = build_fixture(false, false);
    let trust = certs_from_pem(&fx.trust_pem).unwrap();
    let (payload, key) = request_exchange(&fx.quote, trust, 5, 7).unwrap();
    let resp = handle_tenant_payload(&fx.enclave_pair, &payload).unwrap();
    let tampered = attestation::proto::EnclaveResponse {
        tag: resp.tag.clone(),
        iv: resp.iv.clone(),
        hash: resp.hash.clone(),
        ciphertext: {
            let mut c = resp.ciphertext.clone();
            c[0] ^= 0x01;
            c
        },
    };
    assert_eq!(process_response(&key, &tampered).err().unwrap(), Error::AuthenticationFailed);
}

#[test]
fn daemon_relay_forwards_unmodified() {
    let (s, a) = daemon_step(DaemonState::Listening, DaemonEvent::TenantConnected);
    assert_eq!(s, DaemonState::RelayingToEnclave);
    assert!(matches!(a, DaemonAction::FetchTargetInfo));
    let (s, a) = daemon_step(s, DaemonEvent::TargetInfo(vec![1, 2, 3]));
    assert_eq!(s, DaemonState::AwaitingReport);
    assert!(matches!(a, DaemonAction::SendToEnclave(v) if v == vec![1, 2, 3]));
    let (s, a) = daemon_step(s, DaemonEvent::Sent);
    assert_eq!(s, DaemonState::AwaitingReport);
    assert!(matches!(a, DaemonAction::AwaitReport));
    let (s, a) = daemon_step(s, DaemonEvent::Report(vec![4, 5]));
    assert_eq!(s, DaemonState::RequestingQuote);
    assert!(matches!(a, DaemonAction::RequestQuote(v) if v == vec![4, 5]));
    let (s, a) = daemon_step(s, DaemonEvent::Quote(vec![6]));
    assert_eq!(s, DaemonState::RelayingToTenant);
    assert!(matches!(a, DaemonAction::SendToTenant(v) if v == vec![6]));
    let (s, a) = daemon_step(s, DaemonEvent::Sent);
    assert_eq!(s, DaemonState::Listening);
    assert!(matches!(a, DaemonAction::Accept));
    // An out-of-order event aborts the connection.
    let (s, a) = daemon_step(DaemonState::AwaitingReport, DaemonEvent::TenantConnected);
    assert_eq!(s, DaemonState::Listening);
    assert!(matches!(a, DaemonAction::Abort));
    let (s, a) = daemon_step(DaemonState::RequestingQuote, DaemonEvent::Failed);
    assert_eq!(s, DaemonState::Listening);
    assert!(matches!(a, DaemonAction::Abort));
}

#[test]
fn report_data_layout() {
    let pair = Key::new_pair_secp256r1().unwrap();
    let compressed = pair.return_pubkey_bytes_compressed().unwrap();
    let data = report_data_for_key(&compressed);
    assert_eq!(data.len(), 64);
    assert_eq!(&data[..33], &compressed[..]);
    assert!(data[33..].iter().all(|&b| b == 0));
    let back = attestation::enclave::from_slice(&data);
    assert_eq!(back, data);
}
