//! The platform-signed quote: a version-3 ECDSA-P256 quote over an enclave
//! report, parsed directly from its bytes.
//!
//! Every signed byte range is extracted verbatim by offset — never
//! re-serialized — since any re-encoding would invalidate the signatures over
//! it. The layout, leading offsets absolute in the quote bytes:
//!
//! * `[0, 48)` header: version (3), attestation key type (2, ECDSA-P256),
//!   a reserved word (0), QE and PCE security versions, vendor id, user data;
//! * `[48, 432)` the enclave report body; its report-data field at body
//!   offset 320 carries the enclave's 33-byte compressed public key;
//! * `[432, 436)` the length of the signature section that follows;
//! * `[436, 500)` the attestation key's raw (r, s) signature over the header
//!   and report body;
//! * `[500, 564)` the attestation public key's raw x and y coordinates;
//! * `[564, 948)` the QE report; the first 32 bytes of its report-data field
//!   (absolute `[884, 916)`) hold the hash binding the attestation key;
//! * `[948, 1012)` the PCK's raw (r, s) signature over the QE report;
//! * a two-byte length and the authentication data;
//! * a two-byte certification data type (5, a PCK certificate chain), a
//!   four-byte length, and the PEM certificate chain itself.

use crate::errors::Error;
use vstd::bytes::{spec_u16_from_le_bytes, spec_u32_from_le_bytes, u16_from_le_bytes,
    u32_from_le_bytes};
use vstd::prelude::*;
use vstd::slice::{slice_subrange, slice_to_vec};

verus! {

/// Bytes of the quote header.
pub const QUOTE_HEADER_LEN: usize = 48;

/// Bytes of a report body.
pub const REPORT_BODY_LEN: usize = 384;

/// Bytes of the signed material: header plus report body.
pub const QUOTE_SIGNED_LEN: usize = 432;

/// Offset of the enclave's compressed public key inside a report body.
pub const REPORT_KEY_OFF: usize = 320;

/// Bytes of the enclave's compressed public key.
pub const REPORT_KEY_LEN: usize = 33;

/// The 16-bit little-endian value at an offset.
pub open spec fn spec_u16_at(q: Seq<u8>, off: int) -> u16 {
    spec_u16_from_le_bytes(q.subrange(off, off + 2))
}

/// The 32-bit little-endian value at an offset.
pub open spec fn spec_u32_at(q: Seq<u8>, off: int) -> u32 {
    spec_u32_from_le_bytes(q.subrange(off, off + 4))
}

/// Length of the authentication data field.
pub open spec fn spec_auth_len(q: Seq<u8>) -> int {
    spec_u16_at(q, 1012) as int
}

/// Length of the certification data field.
pub open spec fn spec_cert_len(q: Seq<u8>) -> int {
    spec_u32_at(q, 1016 + spec_auth_len(q)) as int
}

/// Whether the bytes are a complete, well-formed version-3 ECDSA-P256 quote
/// whose certification data is a PCK certificate chain: the one shape the
/// protocol accepts.
pub open spec fn quote_well_formed(q: Seq<u8>) -> bool {
    &&& q.len() >= 1020
    &&& spec_u16_at(q, 0) == 3
    &&& spec_u16_at(q, 2) == 2
    &&& spec_u32_at(q, 4) == 0
    &&& spec_u32_at(q, 432) as int == q.len() - 436
    &&& q.len() >= 1020 + spec_auth_len(q)
    &&& spec_u16_at(q, 1014 + spec_auth_len(q)) == 5
    &&& q.len() == 1020 + spec_auth_len(q) + spec_cert_len(q)
}

/// The signed material: header and report body, verbatim.
pub open spec fn spec_header_and_body(q: Seq<u8>) -> Seq<u8> {
    q.subrange(0, 432)
}

/// The enclave report body, verbatim.
pub open spec fn spec_report_body(q: Seq<u8>) -> Seq<u8> {
    q.subrange(48, 432)
}

/// The enclave's compressed public key, from the report-data field.
pub open spec fn spec_enclave_key_bytes(q: Seq<u8>) -> Seq<u8> {
    q.subrange(368, 401)
}

/// The attestation key's raw signature over the header and report body.
pub open spec fn spec_quote_sig(q: Seq<u8>) -> Seq<u8> {
    q.subrange(436, 500)
}

/// The attestation public key's raw x and y coordinates.
pub open spec fn spec_att_key_xy(q: Seq<u8>) -> Seq<u8> {
    q.subrange(500, 564)
}

/// The QE report, verbatim.
pub open spec fn spec_qe_report(q: Seq<u8>) -> Seq<u8> {
    q.subrange(564, 948)
}

/// The PCK's raw signature over the QE report.
pub open spec fn spec_qe_sig(q: Seq<u8>) -> Seq<u8> {
    q.subrange(948, 1012)
}

/// The hashed report data the PCK signed: the first 32 bytes of the QE
/// report's report-data field.
pub open spec fn spec_pck_hash(q: Seq<u8>) -> Seq<u8> {
    q.subrange(884, 916)
}

/// The authentication data, verbatim.
pub open spec fn spec_auth_data(q: Seq<u8>) -> Seq<u8> {
    q.subrange(1014, 1014 + spec_auth_len(q))
}

/// The certification data: the PEM-encoded PCK certificate chain.
pub open spec fn spec_cert_data(q: Seq<u8>) -> Seq<u8> {
    q.subrange(1020 + spec_auth_len(q), q.len() as int)
}

/// The signed header-and-body range, extracted verbatim. Only the length up
/// to the end of that range is needed.
pub fn raw_header_and_body(quote: &[u8]) -> (r: Result<Vec<u8>, Error>)
    ensures
        r is Ok <==> quote@.len() >= 432,
        r matches Ok(v) ==> v@ == spec_header_and_body(quote@),
        r matches Err(e) ==> e == Error::ProtocolFraming,
{
    if quote.len() < QUOTE_SIGNED_LEN {
        return Err(Error::ProtocolFraming);
    }
    Ok(slice_to_vec(slice_subrange(quote, 0, QUOTE_SIGNED_LEN)))
}

/// The hashed report data the PCK signed, extracted verbatim. Only the
/// length up to the end of that range is needed.
pub fn raw_pck_hash(quote: &[u8]) -> (r: Result<Vec<u8>, Error>)
    ensures
        r is Ok <==> quote@.len() >= 916,
        r matches Ok(v) ==> v@ == spec_pck_hash(quote@),
        r matches Err(e) ==> e == Error::ProtocolFraming,
{
    if quote.len() < 916 {
        return Err(Error::ProtocolFraming);
    }
    Ok(slice_to_vec(slice_subrange(quote, 884, 916)))
}

/// The quote's signature section, parsed into its parts, each verbatim.
pub struct QuoteSignature {
    /// The attestation key's raw (r, s) signature over header and body.
    pub signature: Vec<u8>,
    /// The attestation public key's raw x and y coordinates.
    pub attestation_public_key: Vec<u8>,
    /// The QE report.
    pub qe_report: Vec<u8>,
    /// The PCK's raw (r, s) signature over the QE report.
    pub qe_report_signature: Vec<u8>,
    /// The authentication data.
    pub authentication_data: Vec<u8>,
    /// The PEM-encoded PCK certificate chain.
    pub certification_data: Vec<u8>,
}

impl QuoteSignature {
    /// The parts are exactly the named ranges of the quote bytes.
    pub open spec fn extracted_from(&self, q: Seq<u8>) -> bool {
        &&& self.signature@ == spec_quote_sig(q)
        &&& self.attestation_public_key@ == spec_att_key_xy(q)
        &&& self.qe_report@ == spec_qe_report(q)
        &&& self.qe_report_signature@ == spec_qe_sig(q)
        &&& self.authentication_data@ == spec_auth_data(q)
        &&& self.certification_data@ == spec_cert_data(q)
    }
}

/// A quote parsed into its report body and signature section.
pub struct ParsedQuote {
    /// The enclave report body.
    pub report_body: Vec<u8>,
    /// The signature section.
    pub sig: QuoteSignature,
}

impl ParsedQuote {
    /// The parts are exactly the named ranges of the quote bytes.
    pub open spec fn extracted_from(&self, q: Seq<u8>) -> bool {
        &&& self.report_body@ == spec_report_body(q)
        &&& self.sig.extracted_from(q)
    }
}

/// Parse a quote. Succeeds exactly on a well-formed version-3 ECDSA-P256
/// quote carrying a PCK certificate chain, and hands back each field
/// verbatim; anything else fails as a framing error.
pub fn parse_quote(quote: &[u8]) -> (r: Result<ParsedQuote, Error>)
    ensures
        r is Ok <==> quote_well_formed(quote@),
        r matches Ok(p) ==> p.extracted_from(quote@),
        r matches Err(e) ==> e == Error::ProtocolFraming,
{
    if quote.len() < 1020 {
        return Err(Error::ProtocolFraming);
    }
    let version = u16_from_le_bytes(slice_subrange(quote, 0, 2));
    if version != 3 {
        return Err(Error::ProtocolFraming);
    }
    let key_type = u16_from_le_bytes(slice_subrange(quote, 2, 4));
    if key_type != 2 {
        return Err(Error::ProtocolFraming);
    }
    let reserved = u32_from_le_bytes(slice_subrange(quote, 4, 8));
    if reserved != 0 {
        return Err(Error::ProtocolFraming);
    }
    let sig_len = u32_from_le_bytes(slice_subrange(quote, 432, 436));
    if (sig_len as u64) != (quote.len() as u64) - 436 {
        return Err(Error::ProtocolFraming);
    }
    let auth_len = u16_from_le_bytes(slice_subrange(quote, 1012, 1014));
    let auth_end: usize = 1014 + (auth_len as usize);
    if (quote.len() as u64) < 1020 + (auth_len as u64) {
        return Err(Error::ProtocolFraming);
    }
    let cd_type = u16_from_le_bytes(slice_subrange(quote, auth_end, auth_end + 2));
    if cd_type != 5 {
        return Err(Error::ProtocolFraming);
    }
    let cert_len = u32_from_le_bytes(slice_subrange(quote, auth_end + 2, auth_end + 6));
    if (quote.len() as u64) != 1020 + (auth_len as u64) + (cert_len as u64) {
        return Err(Error::ProtocolFraming);
    }
    let report_body = slice_to_vec(slice_subrange(quote, 48, 432));
    let signature = slice_to_vec(slice_subrange(quote, 436, 500));
    let attestation_public_key = slice_to_vec(slice_subrange(quote, 500, 564));
    let qe_report = slice_to_vec(slice_subrange(quote, 564, 948));
    let qe_report_signature = slice_to_vec(slice_subrange(quote, 948, 1012));
    let authentication_data = slice_to_vec(slice_subrange(quote, 1014, auth_end));
    let certification_data = slice_to_vec(slice_subrange(quote, auth_end + 6, quote.len()));
    Ok(
        ParsedQuote {
            report_body,
            sig: QuoteSignature {
                signature,
                attestation_public_key,
                qe_report,
                qe_report_signature,
                authentication_data,
                certification_data,
            },
        },
    )
}

/// The enclave's compressed public key, from a fixed offset inside the
/// report body.
pub fn enclave_key_from_report_body(report_body: &[u8]) -> (r: Vec<u8>)
    requires
        report_body@.len() == 384,
    ensures
        r@ == report_body@.subrange(320, 353),
        r@.len() == 33,
{
    slice_to_vec(slice_subrange(report_body, REPORT_KEY_OFF, REPORT_KEY_OFF + REPORT_KEY_LEN))
}

} // verus!
