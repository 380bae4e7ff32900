use vstd::prelude::*;

verus! {

/// Every failure the protocol distinguishes. Each attestation step reports its
/// own variant, so that a diagnostic pinpoints which trust check broke.
#[derive(Debug, Clone, Copy, PartialEq, Eq, Structural)]
pub enum Error {
    /// Connection or stream failure; fatal, never retried.
    TransportError,
    /// A received value sequence was short, long, or failed to decode.
    ProtocolFraming,
    /// A raw (r, s) signature pair had the wrong width.
    MalformedSignature,
    /// Coordinates that do not name a point on the protocol's curve.
    InvalidPoint,
    /// A peer-supplied point encoding that does not decode on the curve.
    InvalidEncoding,
    /// A Diffie-Hellman derivation was asked of a key with no private part.
    NoPrivateKey,
    /// A signature did not verify under the given public key.
    SignatureInvalid,
    /// A certificate chain with fewer than two certificates.
    ChainTooShort,
    /// Adjacent chain certificates whose issuer and subject disagree.
    IssuerMismatch,
    /// A chain certificate whose signature does not verify under its issuer.
    ChainSignatureInvalid,
    /// The certificate-chain step of quote verification failed.
    ChainInvalid,
    /// The attestation key's signature over the quote header and body failed.
    QuoteSignatureInvalid,
    /// The PCK certificate's signature over the QE report failed.
    AttestationKeySignatureInvalid,
    /// The hash binding the attestation key to the QE report failed.
    ReportDataHashInvalid,
    /// An AEAD tag did not authenticate; no plaintext is released.
    AuthenticationFailed,
    /// The cryptographic backend refused an operation it normally performs.
    CryptoFailure,
}

impl Error {
    /// A short operator-facing description of the failed step.
    pub fn describe(&self) -> (s: &'static str) {
        match self {
            Error::TransportError => "connection failed",
            Error::ProtocolFraming => "received value sequence did not decode completely",
            Error::MalformedSignature => "raw signature pair has the wrong width",
            Error::InvalidPoint => "coordinates are not a point on the curve",
            Error::InvalidEncoding => "peer key bytes do not decode on the curve",
            Error::NoPrivateKey => "key has no private component",
            Error::SignatureInvalid => "signature did not verify",
            Error::ChainTooShort => "certificate chain has fewer than two certificates",
            Error::IssuerMismatch => "certificate issuer does not match the next subject",
            Error::ChainSignatureInvalid => "certificate signature did not verify under its issuer",
            Error::ChainInvalid => "PCK certificate chain invalid",
            Error::QuoteSignatureInvalid => "attestation key signature over the quote invalid",
            Error::AttestationKeySignatureInvalid => "PCK signature over the QE report invalid",
            Error::ReportDataHashInvalid => "report-data hash does not bind the attestation key",
            Error::AuthenticationFailed => "AEAD tag did not authenticate",
            Error::CryptoFailure => "cryptographic backend failure",
        }
    }
}

/// Returned when the SHA-256 hash of the attestation public key and the
/// authentication data does not match the hash the PCK signed.
#[derive(Debug, Clone)]
pub struct HashError;

} // verus!
