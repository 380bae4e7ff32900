//! The wire envelopes the two endpoints exchange after attestation, and the
//! daemon's relay sequence.
//!
//! Each hop carries a fixed count of self-delimited values in a fixed order;
//! a receiver treats a short or reordered sequence as a fatal protocol error.
//! The envelopes here name every value of a hop as one typed record, so that
//! nothing decodes partially.

use vstd::prelude::*;

verus! {

/// The nine values the tenant sends the enclave, in wire order: its public
/// key bytes, the two plaintext hashes, the two fresh IVs, the two
/// authentication tags, and the two ciphertexts.
pub struct TenantPayload {
    /// The tenant's public point in the fixed uncompressed wire encoding.
    pub tenant_pubkey: Vec<u8>,
    /// SHA-256 of the first plaintext; the first ciphertext's associated data.
    pub hash1: Vec<u8>,
    /// SHA-256 of the second plaintext; the second ciphertext's associated data.
    pub hash2: Vec<u8>,
    /// Fresh IV under which the first value was sealed.
    pub iv1: Vec<u8>,
    /// Fresh IV under which the second value was sealed.
    pub iv2: Vec<u8>,
    /// Authentication tag of the first ciphertext.
    pub tag1: Vec<u8>,
    /// Authentication tag of the second ciphertext.
    pub tag2: Vec<u8>,
    /// The first sealed 32-bit value.
    pub ciphertext1: Vec<u8>,
    /// The second sealed 32-bit value.
    pub ciphertext2: Vec<u8>,
}

/// The four values the enclave sends back, in wire order: tag, IV,
/// associated-data hash, and the sealed sum.
pub struct EnclaveResponse {
    /// Authentication tag of the sealed sum.
    pub tag: Vec<u8>,
    /// Fresh IV under which the sum was sealed.
    pub iv: Vec<u8>,
    /// SHA-256 of the encoded sum; the ciphertext's associated data.
    pub hash: Vec<u8>,
    /// The sealed five-byte sum.
    pub ciphertext: Vec<u8>,
}

/// The daemon's relay states, in the order one connection passes them.
#[derive(Debug, Clone, Copy, PartialEq, Eq, Structural)]
pub enum DaemonState {
    /// Waiting for a tenant to request attestation.
    Listening,
    /// A tenant connected; the quoting service's identity is wanted.
    RelayingToEnclave,
    /// The target information went to the enclave; its report is awaited.
    AwaitingReport,
    /// The report arrived; a quote is wanted from the quoting service.
    RequestingQuote,
    /// The quote is in hand; it goes back to the requesting tenant.
    RelayingToTenant,
}

/// What the daemon observes: a connection, a value arriving from the quoting
/// service or the enclave, a completed send, or a failure.
pub enum DaemonEvent {
    /// A tenant connected, requesting attestation.
    TenantConnected,
    /// The quoting service handed over its target information.
    TargetInfo(Vec<u8>),
    /// The enclave handed back its report.
    Report(Vec<u8>),
    /// The quoting service turned the report into a quote.
    Quote(Vec<u8>),
    /// The pending send completed.
    Sent,
    /// The pending step failed.
    Failed,
}

/// What the daemon does next. The daemon is a stateless relay: every carried
/// value is forwarded unmodified.
pub enum DaemonAction {
    /// Accept the next tenant connection.
    Accept,
    /// Ask the quoting service for its target information.
    FetchTargetInfo,
    /// Send these bytes to the enclave and half-close the write side.
    SendToEnclave(Vec<u8>),
    /// Block for the enclave's report.
    AwaitReport,
    /// Ask the quoting service for a quote over these report bytes.
    RequestQuote(Vec<u8>),
    /// Send these bytes to the requesting tenant and half-close.
    SendToTenant(Vec<u8>),
    /// Abort this connection and return to listening; no retry.
    Abort,
}

/// The daemon's transition relation: one connection walks
/// `Listening -> RelayingToEnclave -> AwaitingReport -> RequestingQuote ->
/// RelayingToTenant -> Listening`, any failure or out-of-order event aborts
/// back to `Listening`, and every carried value is forwarded unmodified.
pub open spec fn spec_daemon_step(state: DaemonState, event: DaemonEvent) -> (
    DaemonState,
    DaemonAction,
) {
    match (state, event) {
        (DaemonState::Listening, DaemonEvent::TenantConnected) => (
            DaemonState::RelayingToEnclave,
            DaemonAction::FetchTargetInfo,
        ),
        (DaemonState::RelayingToEnclave, DaemonEvent::TargetInfo(ti)) => (
            DaemonState::AwaitingReport,
            DaemonAction::SendToEnclave(ti),
        ),
        (DaemonState::AwaitingReport, DaemonEvent::Sent) => (
            DaemonState::AwaitingReport,
            DaemonAction::AwaitReport,
        ),
        (DaemonState::AwaitingReport, DaemonEvent::Report(report)) => (
            DaemonState::RequestingQuote,
            DaemonAction::RequestQuote(report),
        ),
        (DaemonState::RequestingQuote, DaemonEvent::Quote(quote)) => (
            DaemonState::RelayingToTenant,
            DaemonAction::SendToTenant(quote),
        ),
        (DaemonState::RelayingToTenant, DaemonEvent::Sent) => (
            DaemonState::Listening,
            DaemonAction::Accept,
        ),
        _ => (DaemonState::Listening, DaemonAction::Abort),
    }
}

/// Take one daemon step: relay values in the fixed order, forward them
/// unmodified, and abort the connection on any failure or out-of-order event.
pub fn daemon_step(state: DaemonState, event: DaemonEvent) -> (r: (DaemonState, DaemonAction))
    ensures
        r == spec_daemon_step(state, event),
{
    match (state, event) {
        (DaemonState::Listening, DaemonEvent::TenantConnected) => (
            DaemonState::RelayingToEnclave,
            DaemonAction::FetchTargetInfo,
        ),
        (DaemonState::RelayingToEnclave, DaemonEvent::TargetInfo(ti)) => (
            DaemonState::AwaitingReport,
            DaemonAction::SendToEnclave(ti),
        ),
        (DaemonState::AwaitingReport, DaemonEvent::Sent) => (
            DaemonState::AwaitingReport,
            DaemonAction::AwaitReport,
        ),
        (DaemonState::AwaitingReport, DaemonEvent::Report(report)) => (
            DaemonState::RequestingQuote,
            DaemonAction::RequestQuote(report),
        ),
        (DaemonState::RequestingQuote, DaemonEvent::Quote(quote)) => (
            DaemonState::RelayingToTenant,
            DaemonAction::SendToTenant(quote),
        ),
        (DaemonState::RelayingToTenant, DaemonEvent::Sent) => (
            DaemonState::Listening,
            DaemonAction::Accept,
        ),
        (_, _) => (DaemonState::Listening, DaemonAction::Abort),
    }
}

} // verus!
