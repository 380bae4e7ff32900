//! Certificates and the ordered chain from a leaf to the trusted root.
//!
//! A certificate is modeled by its DER encoding; the certificate object of
//! the outside backend is opaque, and every fact the contracts state about
//! one goes through that model.

use crate::crypto::pkey_der_view;
use crate::errors::Error;
use openssl::pkey::{PKey, Public};
use openssl::x509::X509;
use vstd::prelude::*;

verus! {

#[verifier::external_type_specification]
#[verifier::external_body]
pub struct ExX509(X509);

/// The DER encoding of a certificate object: the model by which contracts
/// identify an otherwise opaque certificate. Names the result of
/// `X509Ref::to_der`.
pub uninterp spec fn der_view(c: X509) -> Seq<u8>;

/// Whether the text parses as a stack of PEM certificates. Names the success
/// of `X509::stack_from_pem`.
pub uninterp spec fn pem_ok(pem: Seq<u8>) -> bool;

/// The DER encodings of the certificates the PEM text carries, in order.
/// Names the result of `X509::stack_from_pem`.
pub uninterp spec fn pem_ders(pem: Seq<u8>) -> Seq<Seq<u8>>;

/// Whether the first certificate issued the second: the issuer/subject name
/// linkage the backend's issuer check decides. Names the OK verdict of
/// `X509Ref::issued`.
pub uninterp spec fn issued_ok(issuer: Seq<u8>, subject: Seq<u8>) -> bool;

/// Whether the certificate's signature verifies under the issuer
/// certificate's public key. Names the acceptance of `X509Ref::verify` with
/// the issuer's key; every failure counts as rejection.
pub uninterp spec fn link_sig_ok(cert: Seq<u8>, issuer: Seq<u8>) -> bool;

/// Whether a subject public key can be extracted from the certificate. Names
/// the success of `X509Ref::public_key`.
pub uninterp spec fn cert_has_key(cert: Seq<u8>) -> bool;

/// The certificate's subject public key, identified by its DER encoding.
/// Names the result of `X509Ref::public_key`.
pub uninterp spec fn cert_key_of(cert: Seq<u8>) -> Seq<u8>;

/// Relies on `X509::stack_from_pem`: the certificates the PEM text carries,
/// in order; fails exactly where the text does not parse. The backend hands
/// the buffer width to a C `int`, so the text must stay below 2^31 bytes.
#[verifier::external_body]
fn x509_stack_from_pem(pem: &[u8]) -> (r: Option<Vec<X509>>)
    requires
        pem@.len() <= 0x7fff_ffff,
    ensures
        r is Some <==> pem_ok(pem@),
        r matches Some(v) ==> v@.len() == pem_ders(pem@).len() && forall|i: int|
            0 <= i < v@.len() ==> #[trigger] der_view(v@[i]) == pem_ders(pem@)[i],
{
    X509::stack_from_pem(pem).ok()
}

/// Relies on `X509Ref::issued`: whether the first certificate issued the
/// second, by the backend's issuer/subject linkage check.
#[verifier::external_body]
fn x509_issued(issuer: &X509, subject: &X509) -> (r: bool)
    ensures
        r == issued_ok(der_view(*issuer), der_view(*subject)),
{
    issuer.issued(subject) == openssl::x509::X509VerifyResult::OK
}

/// Relies on `X509Ref::public_key` and `X509Ref::verify`: whether the
/// certificate's signature verifies under the issuer certificate's public
/// key; every failure counts as rejection.
#[verifier::external_body]
fn x509_link_sig(cert: &X509, issuer: &X509) -> (r: bool)
    ensures
        r == link_sig_ok(der_view(*cert), der_view(*issuer)),
{
    match issuer.public_key() {
        Ok(pk) => cert.verify(&pk).unwrap_or(false),
        Err(_) => false,
    }
}

/// Relies on `X509Ref::public_key`: the certificate's subject public key.
#[verifier::external_body]
fn x509_public_key(cert: &X509) -> (r: Option<PKey<Public>>)
    ensures
        r is Some <==> cert_has_key(der_view(*cert)),
        r matches Some(k) ==> pkey_der_view(k) == cert_key_of(der_view(*cert)),
{
    cert.public_key().ok()
}

/// Relies on X509's reference-counted `Clone`: the same certificate value.
#[verifier::external_body]
fn x509_clone(c: &X509) -> (r: X509)
    ensures
        der_view(r) == der_view(*c),
{
    c.clone()
}

/// One X.509 certificate, identified in contracts by its DER encoding.
pub struct Cert {
    x: X509,
}

impl View for Cert {
    type V = Seq<u8>;

    closed spec fn view(&self) -> Seq<u8> {
        der_view(self.x)
    }
}

impl Cert {
    /// Another handle to the same certificate.
    pub fn duplicate(&self) -> (r: Cert)
        ensures
            r@ == self@,
    {
        Cert { x: x509_clone(&self.x) }
    }

    /// The certificate's subject public key.
    pub fn public_key(&self) -> (r: Result<PKey<Public>, Error>)
        ensures
            r is Ok <==> cert_has_key(self@),
            r matches Ok(k) ==> pkey_der_view(k) == cert_key_of(self@),
            r matches Err(e) ==> e == Error::InvalidEncoding,
    {
        match x509_public_key(&self.x) {
            Some(k) => Ok(k),
            None => Err(Error::InvalidEncoding),
        }
    }
}

/// Parse a PEM text into its certificates, in the order the text gives
/// them. A text at or beyond the backend's 2^31-byte bound is rejected
/// outright.
pub fn certs_from_pem(pem: &[u8]) -> (r: Result<Vec<Cert>, Error>)
    ensures
        pem@.len() <= 0x7fff_ffff ==> (r is Ok <==> pem_ok(pem@)),
        pem@.len() > 0x7fff_ffff ==> r is Err,
        r matches Ok(v) ==> v@.map_values(|c: Cert| c@) == pem_ders(pem@),
        r matches Err(e) ==> e == Error::InvalidEncoding,
{
    if pem.len() > 0x7fff_ffff {
        return Err(Error::InvalidEncoding);
    }
    match x509_stack_from_pem(pem) {
        Some(stack) => {
            let mut certs: Vec<Cert> = Vec::new();
            let mut i: usize = 0;
            while i < stack.len()
                invariant
                    i <= stack@.len(),
                    certs@.len() == i,
                    stack@.len() == pem_ders(pem@).len(),
                    forall|j: int| 0 <= j < stack@.len() ==> #[trigger] der_view(stack@[j])
                        == pem_ders(pem@)[j],
                    forall|j: int| 0 <= j < i ==> #[trigger] certs@[j]@ == pem_ders(pem@)[j],
                decreases stack@.len() - i,
            {
                let c = Cert { x: x509_clone(&stack[i]) };
                certs.push(c);
                i = i + 1;
            }
            proof {
                assert(certs@.map_values(|c: Cert| c@) =~= pem_ders(pem@));
            }
            Ok(certs)
        },
        None => Err(Error::InvalidEncoding),
    }
}

/// The DER encodings of a sequence of certificates, in order.
pub open spec fn ders_of(certs: Seq<Cert>) -> Seq<Seq<u8>> {
    certs.map_values(|c: Cert| c@)
}

/// Whether every certificate in the chain names the next one as its issuer,
/// leaf first, root last.
pub open spec fn issuers_linked(chain: Seq<Seq<u8>>) -> bool {
    forall|i: int|
        #![trigger chain[i]]
        0 <= i && i + 1 < chain.len() ==> issued_ok(chain[i + 1], chain[i])
}

/// Whether every certificate's signature verifies under the next
/// certificate's public key, leaf first, root last. The final (root)
/// certificate is trusted a priori and verified against nothing.
pub open spec fn sigs_linked(chain: Seq<Seq<u8>>) -> bool {
    forall|i: int|
        #![trigger chain[i]]
        0 <= i && i + 1 < chain.len() ==> link_sig_ok(chain[i], chain[i + 1])
}

/// Law: one link decides the walk. On a fully linked chain every adjacent
/// pair links — so the walks, whose contracts accept exactly the linked
/// chains, succeed on every correctly signed chain; and a single corrupted
/// signature link already falsifies the whole-chain predicate, so the
/// signature walk rejects the chain no matter where the corruption sits.
pub proof fn lemma_chain_link_decides(chain: Seq<Seq<u8>>, i: int)
    requires
        0 <= i && i + 1 < chain.len(),
    ensures
        sigs_linked(chain) ==> link_sig_ok(chain[i], chain[i + 1]),
        !link_sig_ok(chain[i], chain[i + 1]) ==> !sigs_linked(chain),
        issuers_linked(chain) ==> issued_ok(chain[i + 1], chain[i]),
        !issued_ok(chain[i + 1], chain[i]) ==> !issuers_linked(chain),
{
}

/// An ordered chain of certificates from a leaf to a trusted root. The root
/// is supplied out of band by the tenant and trusted a priori.
pub struct CertChain {
    chain: Vec<Cert>,
}

impl View for CertChain {
    type V = Seq<Seq<u8>>;

    closed spec fn view(&self) -> Seq<Seq<u8>> {
        self.chain@.map_values(|c: Cert| c@)
    }
}

impl CertChain {
    /// Build the full chain to validate: the extra leaf (extracted from the
    /// quote) in front of the tenant-supplied trust chain, so that the chain
    /// runs leaf first, root last.
    pub fn new_from_chain(chain: Vec<Cert>, leaf_cert: &Cert) -> (r: CertChain)
        ensures
            r@ == seq![leaf_cert@] + chain@.map_values(|c: Cert| c@),
    {
        let mut full: Vec<Cert> = Vec::new();
        full.push(leaf_cert.duplicate());
        let mut rest = chain;
        full.append(&mut rest);
        let r = CertChain { chain: full };
        proof {
            assert(r@ =~= seq![leaf_cert@] + chain@.map_values(|c: Cert| c@));
        }
        r
    }

    /// The number of certificates in the chain.
    pub fn len(&self) -> (n: usize)
        ensures
            n == self@.len(),
    {
        self.chain.len()
    }

    /// A chain must hold at least a leaf and a root.
    pub fn len_ok(&self) -> (r: Result<(), Error>)
        ensures
            r is Ok <==> self@.len() >= 2,
            r matches Err(e) ==> e == Error::ChainTooShort,
    {
        if self.chain.len() >= 2 {
            Ok(())
        } else {
            Err(Error::ChainTooShort)
        }
    }

    /// Walk the chain pairwise from the leaf and check that each
    /// certificate's issuer is the next certificate, stopping at the first
    /// link whose names disagree.
    pub fn verify_issuers(&self) -> (r: Result<(), Error>)
        ensures
            r is Ok <==> issuers_linked(self@),
            r matches Err(e) ==> e == Error::IssuerMismatch,
    {
        if self.chain.len() < 2 {
            return Ok(());
        }
        let n = self.chain.len() - 1;
        let mut i: usize = 0;
        while i < n
            invariant
                n + 1 == self.chain@.len(),
                self@ == self.chain@.map_values(|c: Cert| c@),
                i <= n,
                forall|j: int|
                    #![trigger self@[j]]
                    0 <= j < i ==> issued_ok(self@[j + 1], self@[j]),
            decreases n - i,
        {
            let linked = x509_issued(&self.chain[i + 1].x, &self.chain[i].x);
            proof {
                assert(self@[i as int] == self.chain@[i as int]@);
                assert(self@[i as int + 1] == self.chain@[i as int + 1]@);
            }
            if !linked {
                proof {
                    assert(!issued_ok(self@[i as int + 1], self@[i as int]));
                }
                return Err(Error::IssuerMismatch);
            }
            i = i + 1;
        }
        Ok(())
    }

    /// Walk the chain pairwise from the leaf and check each certificate's
    /// signature under the next certificate's public key, stopping at the
    /// first signature that does not verify.
    pub fn verify_sigs(&self) -> (r: Result<(), Error>)
        ensures
            r is Ok <==> sigs_linked(self@),
            r matches Err(e) ==> e == Error::ChainSignatureInvalid,
    {
        if self.chain.len() < 2 {
            return Ok(());
        }
        let n = self.chain.len() - 1;
        let mut i: usize = 0;
        while i < n
            invariant
                n + 1 == self.chain@.len(),
                self@ == self.chain@.map_values(|c: Cert| c@),
                i <= n,
                forall|j: int|
                    #![trigger self@[j]]
                    0 <= j < i ==> link_sig_ok(self@[j], self@[j + 1]),
            decreases n - i,
        {
            let linked = x509_link_sig(&self.chain[i].x, &self.chain[i + 1].x);
            proof {
                assert(self@[i as int] == self.chain@[i as int]@);
                assert(self@[i as int + 1] == self.chain@[i as int + 1]@);
            }
            if !linked {
                proof {
                    assert(!link_sig_ok(self@[i as int], self@[i as int + 1]));
                }
                return Err(Error::ChainSignatureInvalid);
            }
            i = i + 1;
        }
        Ok(())
    }

    /// The certificate at the given position, leaf first.
    pub fn cert_at(&self, i: usize) -> (r: &Cert)
        requires
            i < self@.len(),
        ensures
            r@ == self@[i as int],
    {
        &self.chain[i]
    }
}

} // verus!
