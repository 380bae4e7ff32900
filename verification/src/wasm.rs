//! Host-side helpers for the guest-code demonstrations that accompany the
//! attestation protocol: console output for guest programs, and a small
//! calculator interface a host can offer to guest code.

use std::io::Write;
use vstd::prelude::*;

verus! {

/// Relies on `std::io::Stdout::write_fmt`: writes the text to the host's
/// standard output, followed by a line break.
#[verifier::external_body]
fn emit_line(s: &str) {
    let mut out = std::io::stdout();
    let _ = writeln!(out, "{}", s);
}

/// Relies on `std::io::Stdout::write_fmt`: writes the text to the host's
/// standard output.
#[verifier::external_body]
fn emit(s: &str) {
    let mut out = std::io::stdout();
    let _ = write!(out, "{}", s);
}

/// Relies on `std::io::Stdout::write_fmt`: writes a binary expression such as
/// `7 + 3` to the host's standard output.
#[verifier::external_body]
fn emit_binop(a: u32, op: &str, b: u32) {
    let mut out = std::io::stdout();
    let _ = write!(out, "{} {} {}", a, op, b);
}

/// Print a guest string on the host console.
pub fn print(s: &str) {
    emit(s);
}

/// Print a guest string on the host console, with a line break.
pub fn println(s: &str) {
    emit_line(s);
}

/// The host's standard-output device, as offered to guest code.
pub struct Stdio;

impl Default for Stdio {
    /// The device has no state to set up.
    fn default() -> (r: Stdio)
        ensures
            r == (Stdio {  }),
    {
        Stdio {  }
    }
}

impl Stdio {
    /// Print a guest string on the host console.
    pub fn print_str(&self, s: &str) {
        emit(s);
    }
}

/// A calculator interface a host offers to guest code: each operation returns
/// exactly the arithmetic result, and is only asked for operands whose result
/// the 32-bit machine word carries.
pub trait Calc {
    /// The sum of the operands.
    fn add(&self, a: u32, b: u32) -> (r: u32)
        requires
            a + b <= u32::MAX,
        ensures
            r == a + b,
    ;

    /// The difference of the operands.
    fn sub(&self, a: u32, b: u32) -> (r: u32)
        requires
            b <= a,
        ensures
            r == a - b,
    ;

    /// The product of the operands.
    fn mul(&self, a: u32, b: u32) -> (r: u32)
        requires
            a * b <= u32::MAX,
        ensures
            r == a * b,
    ;
}

/// A calculator that echoes each expression to the host console before
/// answering it.
pub struct PrintingCalc;

impl Calc for PrintingCalc {
    fn add(&self, a: u32, b: u32) -> (r: u32) {
        let result = a + b;
        emit_binop(a, "+", b);
        result
    }

    fn sub(&self, a: u32, b: u32) -> (r: u32) {
        let result = a - b;
        emit_binop(a, "-", b);
        result
    }

    fn mul(&self, a: u32, b: u32) -> (r: u32) {
        let result = a * b;
        emit_binop(a, "*", b);
        result
    }
}

/// The native counterpart of the guest demonstration that sums two machine
/// words.
pub fn native_add(a: i32, b: i32) -> (r: i32)
    requires
        i32::MIN <= a + b <= i32::MAX,
    ensures
        r == a + b,
{
    a + b
}

} // verus!
