use vstd::prelude::*;

verus! {

/// Width of the wire encoding of the summed payload. The sum of two 32-bit
/// values needs at most 33 bits, so the result type is widened to `u64` and a
/// fifth byte carries the overflow: the protocol fixes that widening as a
/// stated invariant rather than leaving it to buffer sizing.
pub const SUM_WIRE_LEN: usize = 5;

/// Largest value the five-byte little-endian encoding can carry.
pub open spec fn sum_wire_max() -> u64 {
    0xff_ffff_ffff
}

/// Five-byte little-endian encoding of a sum.
pub open spec fn spec_sum_to_le_bytes(x: u64) -> Seq<u8> {
    seq![
        (x & 0xff) as u8,
        ((x >> 8) & 0xff) as u8,
        ((x >> 16) & 0xff) as u8,
        ((x >> 24) & 0xff) as u8,
        ((x >> 32) & 0xff) as u8,
    ]
}

/// The value a five-byte little-endian encoding carries.
pub open spec fn spec_sum_from_le_bytes(s: Seq<u8>) -> u64
    recommends
        s.len() == 5,
{
    ((s[0] as u64) | (s[1] as u64) << 8 | (s[2] as u64) << 16 | (s[3] as u64) << 24 | (
    s[4] as u64) << 32) as u64
}

/// Decoding inverts encoding for every value the five bytes can carry.
pub proof fn lemma_sum_le_bytes_round_trip(x: u64)
    requires
        x <= sum_wire_max(),
    ensures
        spec_sum_from_le_bytes(spec_sum_to_le_bytes(x)) == x,
{
    assert(((((x & 0xff) as u8) as u64) | ((((x >> 8) & 0xff) as u8) as u64) << 8 | ((((x >> 16)
        & 0xff) as u8) as u64) << 16 | ((((x >> 24) & 0xff) as u8) as u64) << 24 | ((((x >> 32)
        & 0xff) as u8) as u64) << 32) == x) by (bit_vector)
        requires
            x <= 0xff_ffff_ffff,
    ;
}

/// Encode a sum into its five little-endian bytes.
pub fn sum_to_le_bytes(x: u64) -> (s: Vec<u8>)
    requires
        x <= sum_wire_max(),
    ensures
        s@ == spec_sum_to_le_bytes(x),
        s@.len() == 5,
{
    let mut s: Vec<u8> = Vec::new();
    s.push((x & 0xff) as u8);
    s.push(((x >> 8) & 0xff) as u8);
    s.push(((x >> 16) & 0xff) as u8);
    s.push(((x >> 24) & 0xff) as u8);
    s.push(((x >> 32) & 0xff) as u8);
    proof {
        assert(s@ =~= spec_sum_to_le_bytes(x));
    }
    s
}

/// Decode five little-endian bytes into the sum they carry.
pub fn sum_from_le_bytes(s: &[u8]) -> (x: u64)
    requires
        s@.len() == 5,
    ensures
        x == spec_sum_from_le_bytes(s@),
        x <= sum_wire_max(),
{
    let b0 = s[0] as u64;
    let b1 = s[1] as u64;
    let b2 = s[2] as u64;
    let b3 = s[3] as u64;
    let b4 = s[4] as u64;
    let x = b0 | b1 << 8 | b2 << 16 | b3 << 24 | b4 << 32;
    proof {
        assert(x <= 0xff_ffff_ffff) by (bit_vector)
            requires
                x == b0 | b1 << 8 | b2 << 16 | b3 << 24 | b4 << 32,
                b0 < 0x100,
                b1 < 0x100,
                b2 < 0x100,
                b3 < 0x100,
                b4 < 0x100,
        ;
    }
    x
}

/// Encoding inverts decoding for every five-byte string.
pub proof fn lemma_sum_le_bytes_to_from(s: Seq<u8>)
    requires
        s.len() == 5,
    ensures
        spec_sum_to_le_bytes(spec_sum_from_le_bytes(s)) == s,
{
    let x = spec_sum_from_le_bytes(s);
    let b0 = s[0];
    let b1 = s[1];
    let b2 = s[2];
    let b3 = s[3];
    let b4 = s[4];
    assert((x == ((b0 as u64) | (b1 as u64) << 8 | (b2 as u64) << 16 | (b3 as u64) << 24 | (
    b4 as u64) << 32) as u64) ==> (b0 == (x & 0xff) as u8 && b1 == ((x >> 8) & 0xff) as u8 && b2
        == ((x >> 16) & 0xff) as u8 && b3 == ((x >> 24) & 0xff) as u8 && b4 == ((x >> 32)
        & 0xff) as u8)) by (bit_vector);
    assert(spec_sum_to_le_bytes(x) =~= s);
}

/// Whether two byte strings are equal, byte for byte.
pub fn bytes_eq(a: &[u8], b: &[u8]) -> (r: bool)
    ensures
        r == (a@ == b@),
{
    if a.len() != b.len() {
        return false;
    }
    let mut i: usize = 0;
    while i < a.len()
        invariant
            i <= a@.len(),
            a@.len() == b@.len(),
            forall|j: int| 0 <= j < i ==> a@[j] == b@[j],
        decreases a@.len() - i,
    {
        if a[i] != b[i] {
            return false;
        }
        i = i + 1;
    }
    proof {
        assert(a@ =~= b@);
    }
    true
}

} // verus!
