use crate::errors::Error;
use vstd::prelude::*;
use vstd::slice::{slice_subrange, slice_to_vec};

verus! {

/// Width in bytes of one scalar (r or s) on the protocol's curve, P-256.
pub const SCALAR_LEN: usize = 32;

/// Width of a raw signature: the two fixed-width scalars side by side.
pub const RAW_SIG_LEN: usize = 64;

/// The bytes with their leading zero bytes removed.
pub open spec fn spec_strip_zeros(b: Seq<u8>) -> Seq<u8>
    decreases b.len(),
{
    if b.len() > 0 && b[0] == 0 {
        spec_strip_zeros(b.drop_first())
    } else {
        b
    }
}

/// Content octets of a DER INTEGER holding an unsigned big-endian number:
/// minimal length, with one zero byte kept (or prepended) where the number is
/// zero (or its top bit is set, so that it is not read as negative).
pub open spec fn spec_int_content(b: Seq<u8>) -> Seq<u8> {
    let t = spec_strip_zeros(b);
    if t.len() == 0 {
        seq![0u8]
    } else if t[0] >= 0x80 {
        seq![0u8] + t
    } else {
        t
    }
}

/// A whole DER INTEGER: tag, short-form length, content octets.
pub open spec fn spec_der_integer(b: Seq<u8>) -> Seq<u8> {
    let c = spec_int_content(b);
    seq![0x02u8, c.len() as u8] + c
}

/// The DER SEQUENCE of the two scalars, the encoding the verification
/// primitive accepts. Both scalars are at most 32 bytes wide, so every length
/// fits the short form.
pub open spec fn spec_sig_der(r: Seq<u8>, s: Seq<u8>) -> Seq<u8> {
    let body = spec_der_integer(r) + spec_der_integer(s);
    seq![0x30u8, body.len() as u8] + body
}

/// The DER encoding of a raw 64-byte (r, s) signature.
pub open spec fn spec_sig_der_of_raw(raw: Seq<u8>) -> Seq<u8>
    recommends
        raw.len() == 64,
{
    spec_sig_der(raw.subrange(0, 32), raw.subrange(32, 64))
}

proof fn lemma_strip_zeros_len(b: Seq<u8>)
    ensures
        spec_strip_zeros(b).len() <= b.len(),
    decreases b.len(),
{
    if b.len() > 0 && b[0] == 0 {
        lemma_strip_zeros_len(b.drop_first());
    }
}

/// A normalized raw (r, s) signature pair, ready for DER encoding.
pub struct Signature {
    r: Vec<u8>,
    s: Vec<u8>,
}

impl Signature {
    /// Both scalars have the curve's fixed width.
    pub closed spec fn wf(&self) -> bool {
        self.r@.len() == 32 && self.s@.len() == 32
    }

    /// The r scalar, big-endian.
    pub closed spec fn spec_r(&self) -> Seq<u8> {
        self.r@
    }

    /// The s scalar, big-endian.
    pub closed spec fn spec_s(&self) -> Seq<u8> {
        self.s@
    }

    /// Split a raw fixed-width (r, s) byte pair. Anything but exactly two
    /// scalar widths is rejected as malformed.
    pub fn from_raw(raw: &[u8]) -> (res: Result<Signature, Error>)
        ensures
            res is Ok <==> raw@.len() == 64,
            res matches Ok(sig) ==> sig.wf() && sig.spec_r() == raw@.subrange(0, 32)
                && sig.spec_s() == raw@.subrange(32, 64),
            res matches Err(e) ==> e == Error::MalformedSignature,
    {
        if raw.len() != RAW_SIG_LEN {
            return Err(Error::MalformedSignature);
        }
        let r = slice_to_vec(slice_subrange(raw, 0, SCALAR_LEN));
        let s = slice_to_vec(slice_subrange(raw, SCALAR_LEN, RAW_SIG_LEN));
        Ok(Signature { r, s })
    }

    /// The DER encoding of this signature.
    pub fn to_der_vec(&self) -> (out: Vec<u8>)
        requires
            self.wf(),
        ensures
            out@ == spec_sig_der(self.spec_r(), self.spec_s()),
    {
        let ri = encode_der_integer(&self.r);
        let si = encode_der_integer(&self.s);
        proof {
            lemma_strip_zeros_len(self.r@);
            lemma_strip_zeros_len(self.s@);
        }
        let mut out: Vec<u8> = Vec::new();
        out.push(0x30);
        out.push((ri.len() + si.len()) as u8);
        let mut i: usize = 0;
        while i < ri.len()
            invariant
                i <= ri@.len(),
                ri@.len() <= 35,
                si@.len() <= 35,
                out@ == seq![0x30u8, (ri@.len() + si@.len()) as u8] + ri@.subrange(0, i as int),
            decreases ri@.len() - i,
        {
            out.push(ri[i]);
            i = i + 1;
            proof {
                assert(out@ =~= seq![0x30u8, (ri@.len() + si@.len()) as u8] + ri@.subrange(
                    0,
                    i as int,
                ));
            }
        }
        let mut j: usize = 0;
        while j < si.len()
            invariant
                j <= si@.len(),
                ri@.len() <= 35,
                si@.len() <= 35,
                out@ == seq![0x30u8, (ri@.len() + si@.len()) as u8] + ri@ + si@.subrange(
                    0,
                    j as int,
                ),
            decreases si@.len() - j,
        {
            out.push(si[j]);
            j = j + 1;
            proof {
                assert(out@ =~= seq![0x30u8, (ri@.len() + si@.len()) as u8] + ri@ + si@.subrange(
                    0,
                    j as int,
                ));
            }
        }
        proof {
            assert(ri@.subrange(0, ri@.len() as int) =~= ri@);
            assert(si@.subrange(0, si@.len() as int) =~= si@);
            assert(out@ =~= spec_sig_der(self.r@, self.s@));
        }
        out
    }
}

/// Encode one unsigned big-endian number as a whole DER INTEGER.
fn encode_der_integer(b: &Vec<u8>) -> (out: Vec<u8>)
    requires
        b@.len() <= 32,
    ensures
        out@ == spec_der_integer(b@),
        out@.len() == 2 + spec_int_content(b@).len(),
        out@.len() <= 35,
{
    let mut i: usize = 0;
    proof {
        assert(b@.skip(0) =~= b@);
    }
    while i < b.len() && b[i] == 0
        invariant
            i <= b@.len(),
            b@.len() <= 32,
            spec_strip_zeros(b@) == spec_strip_zeros(b@.skip(i as int)),
        decreases b@.len() - i,
    {
        proof {
            assert(b@.skip(i as int).drop_first() =~= b@.skip(i as int + 1));
        }
        i = i + 1;
    }
    proof {
        assert(b@.skip(0) =~= b@);
        // The loop stopped at the end or at a nonzero byte, so the tail is
        // already stripped.
        assert(spec_strip_zeros(b@.skip(i as int)) == b@.skip(i as int));
        lemma_strip_zeros_len(b@);
    }
    let mut out: Vec<u8> = Vec::new();
    out.push(0x02);
    if i == b.len() {
        out.push(1);
        out.push(0);
        proof {
            assert(out@ =~= spec_der_integer(b@));
        }
        return out;
    }
    let lead = b[i];
    let trimmed_len = b.len() - i;
    if lead >= 0x80 {
        out.push((trimmed_len + 1) as u8);
        out.push(0);
    } else {
        out.push(trimmed_len as u8);
    }
    let mut k: usize = i;
    while k < b.len()
        invariant
            i <= k <= b@.len(),
            i < b@.len(),
            b@.len() <= 32,
            spec_strip_zeros(b@) == b@.skip(i as int),
            out@ == if b@[i as int] >= 0x80 {
                seq![0x02u8, (b@.len() - i + 1) as u8, 0u8] + b@.subrange(i as int, k as int)
            } else {
                seq![0x02u8, (b@.len() - i) as u8] + b@.subrange(i as int, k as int)
            },
        decreases b@.len() - k,
    {
        out.push(b[k]);
        k = k + 1;
        proof {
            if b@[i as int] >= 0x80 {
                assert(out@ =~= seq![0x02u8, (b@.len() - i + 1) as u8, 0u8] + b@.subrange(
                    i as int,
                    k as int,
                ));
            } else {
                assert(out@ =~= seq![0x02u8, (b@.len() - i) as u8] + b@.subrange(
                    i as int,
                    k as int,
                ));
            }
        }
    }
    proof {
        assert(b@.subrange(i as int, b@.len() as int) =~= b@.skip(i as int));
        assert(spec_strip_zeros(b@).len() > 0);
        assert(spec_strip_zeros(b@)[0] == b@[i as int]);
        assert(out@ =~= spec_der_integer(b@));
    }
    out
}

} // verus!
