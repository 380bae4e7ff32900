//! The byte codecs and the DER signature encoding, cross-checked against the
//! backend's own encoder.

use attestation::codec::{bytes_eq, sum_from_le_bytes, sum_to_le_bytes};
use attestation::errors::Error;
use attestation::sig::Signature;
use attestation::wasm::{Calc, PrintingCalc};
use openssl::bn::BigNum;
use openssl::ecdsa::EcdsaSig;

#[test]
fn sum_encoding_round_trip() {
    let x: u64 = 0x01_2345_6789;
    let bytes = sum_to_le_bytes(x);
    assert_eq!(bytes, vec![0x89, 0x67, 0x45, 0x23, 0x01]);
    assert_eq!(sum_from_le_bytes(&bytes), x);
}

#[test]
fn sum_encoding_bounds() {
    assert_eq!(sum_to_le_bytes(0), vec![0, 0, 0, 0, 0]);
    assert_eq!(sum_from_le_bytes(&[0, 0, 0, 0, 0]), 0);
    let top: u64 = 0xff_ffff_ffff;
    assert_eq!(sum_to_le_bytes(top), vec![0xff, 0xff, 0xff, 0xff, 0xff]);
    assert_eq!(sum_from_le_bytes(&[0xff, 0xff, 0xff, 0xff, 0xff]), top);
}

#[test]
fn fifth_byte_carries_overflow() {
    let sum = (u32::MAX as u64) + (u32::MAX as u64);
    let bytes = sum_to_le_bytes(sum);
    assert_eq!(bytes[4], 0x01);
    assert_eq!(sum_from_le_bytes(&bytes), 8589934590);
}

#[test]
fn bytes_eq_compares_exactly() {
    assert!(bytes_eq(b"abc", b"abc"));
    assert!(!bytes_eq(b"abc", b"abd"));
    assert!(!bytes_eq(b"abc", b"abcd"));
    assert!(bytes_eq(b"", b""));
}

#[test]
fn signature_rejects_wrong_width() {
    assert_eq!(Signature::from_raw(&[0u8; 63]).err().unwrap(), Error::MalformedSignature);
    assert_eq!(Signature::from_raw(&[0u8; 65]).err().unwrap(), Error::MalformedSignature);
    assert!(Signature::from_raw(&[0u8; 64]).is_ok());
}

fn der_of(raw: &[u8]) -> Vec<u8> {
    Signature::from_raw(raw).unwrap().to_der_vec()
}

#[test]
fn signature_der_small_scalars() {
    // r = 5, s = 5: each INTEGER is one content byte.
    let mut raw = [0u8; 64];
    raw[31] = 0x05;
    raw[63] = 0x05;
    assert_eq!(der_of(&raw), vec![0x30, 0x06, 0x02, 0x01, 0x05, 0x02, 0x01, 0x05]);
}

#[test]
fn signature_der_high_bit_gets_zero_prefix() {
    // s's most significant byte has its top bit set, so a zero byte keeps the
    // INTEGER non-negative.
    let mut raw = [0u8; 64];
    raw[31] = 0x05;
    raw[32] = 0x80;
    let der = der_of(&raw);
    let mut expected = vec![0x30, 0x26, 0x02, 0x01, 0x05, 0x02, 0x21, 0x00, 0x80];
    expected.extend(vec![0u8; 31]);
    assert_eq!(der, expected);
}

#[test]
fn signature_der_zero_scalar() {
    let raw = [0u8; 64];
    assert_eq!(der_of(&raw), vec![0x30, 0x06, 0x02, 0x01, 0x00, 0x02, 0x01, 0x00]);
}

#[test]
fn signature_der_matches_backend_encoder() {
    // A value with leading zeros, one with the high bit set, and a full-width
    // one must all encode exactly as the backend's own DER encoder does.
    let cases: [([u8; 32], [u8; 32]); 3] = [
        {
            let mut r = [0u8; 32];
            r[31] = 0x7f;
            let mut s = [0u8; 32];
            s[30] = 0x01;
            (r, s)
        },
        {
            let mut r = [0u8; 32];
            r[0] = 0x80;
            r[31] = 0x01;
            let mut s = [0u8; 32];
            s[5] = 0xff;
            (r, s)
        },
        {
            let mut r = [0u8; 32];
            for (i, b) in r.iter_mut().enumerate() {
                *b = (i as u8) + 1;
            }
            let mut s = [0u8; 32];
            for (i, b) in s.iter_mut().enumerate() {
                *b = 0xff - (i as u8);
            }
            (r, s)
        },
    ];
    for (r, s) in cases.iter() {
        let mut raw = Vec::new();
        raw.extend_from_slice(r);
        raw.extend_from_slice(s);
        let ours = der_of(&raw);
        let theirs = EcdsaSig::from_private_components(
            BigNum::from_slice(r).unwrap(),
            BigNum::from_slice(s).unwrap(),
        )
        .unwrap()
        .to_der()
        .unwrap();
        assert_eq!(ours, theirs);
    }
}

#[test]
fn native_add_sums() {
    assert_eq!(attestation::wasm::native_add(5, 7), 12);
    assert_eq!(attestation::wasm::native_add(-3, 3), 0);
}

#[test]
fn printing_calc_operations() {
    let calc = PrintingCalc;
    assert_eq!(calc.add(7, 3), 10);
    assert_eq!(calc.sub(7, 3), 4);
    assert_eq!(calc.mul(7, 3), 21);
}

#[test]
fn stdio_prints() {
    let stdio = attestation::wasm::Stdio::default();
    stdio.print_str("");
    attestation::wasm::print("");
    attestation::wasm::println("");
}
