//! The text that a call of `printf` writes. The machine only formats; the
//! host puts the bytes out.

use crate::printf_spec::{
    argument, decimal_digits, decimal_text, formatted, hex_digit, hex_digits, prepend,
    printf_output,
};
use crate::token::{
    CH_0, CH_LOWER_A, CH_LOWER_C, CH_LOWER_D, CH_LOWER_S, CH_LOWER_X, CH_MINUS, CH_PERCENT,
};
use crate::vm::Vm;
use crate::vm_spec::string_at;
use vstd::prelude::*;

verus! {

/// Appends the decimal digits of `n` to `out`.
pub fn push_decimal(out: &mut Vec<u8>, n: u64)
    ensures
        final(out)@ == old(out)@ + decimal_digits(n as nat),
    decreases n,
{
    if n < 10 {
        out.push(CH_0 + n as u8);
        assert(out@ =~= old(out)@ + decimal_digits(n as nat));
    } else {
        push_decimal(out, n / 10);
        out.push(CH_0 + (n % 10) as u8);
        assert(out@ =~= old(out)@ + decimal_digits(n as nat));
    }
}

/// The digit for a value below 16.
fn hex_digit_of(n: u64) -> (d: u8)
    requires
        n < 16,
    ensures
        d == hex_digit(n as nat),
{
    if n < 10 {
        CH_0 + n as u8
    } else {
        CH_LOWER_A + (n - 10) as u8
    }
}

/// Appends the hexadecimal digits of `n` to `out`.
pub fn push_hex(out: &mut Vec<u8>, n: u64)
    ensures
        final(out)@ == old(out)@ + hex_digits(n as nat),
    decreases n,
{
    if n < 16 {
        out.push(hex_digit_of(n));
        assert(out@ =~= old(out)@ + hex_digits(n as nat));
    } else {
        push_hex(out, n / 16);
        out.push(hex_digit_of(n % 16));
        assert(out@ =~= old(out)@ + hex_digits(n as nat));
    }
}

/// Appends what `%d` writes for `v` to `out`.
pub fn push_decimal_text(out: &mut Vec<u8>, v: i64)
    ensures
        final(out)@ == old(out)@ + decimal_text(v),
{
    if v < 0 {
        out.push(CH_MINUS);
        let n: u64 = if v == i64::MIN {
            0x8000_0000_0000_0000
        } else {
            (-v) as u64
        };
        push_decimal(out, n);
        assert(out@ =~= old(out)@ + decimal_text(v));
    } else {
        push_decimal(out, v as u64);
    }
}

/// Appends `bytes` to `out`.
fn push_all(out: &mut Vec<u8>, bytes: &Vec<u8>)
    ensures
        final(out)@ == old(out)@ + bytes@,
{
    let mut i: usize = 0;
    while i < bytes.len()
        invariant
            i <= bytes.len(),
            out@ =~= old(out)@ + bytes@.subrange(0, i as int),
        decreases bytes.len() - i,
    {
        out.push(bytes[i]);
        i += 1;
    }
    assert(bytes@.subrange(0, i as int) =~= bytes@);
}

/// Argument `k` of a call, 0 beyond those that were handed over.
fn argument_of(args: &Vec<i64>, k: usize) -> (v: i64)
    ensures
        v == argument(args@, k as int),
{
    if k < args.len() {
        args[k]
    } else {
        0
    }
}

impl Vm {
    /// The bytes that `printf` writes for the format at address `format`
    /// and the arguments `args`; `None` where the format or a string
    /// argument does not lie within the memory.
    pub fn format(&self, format: i64, args: &Vec<i64>) -> (r: Option<Vec<u8>>)
        requires
            self.wf(),
        ensures
            match r {
                Some(out) => printf_output(self@.memory, format, args@) == Some(out@),
                None => printf_output(self@.memory, format, args@) is None,
            },
    {
        let text = match self.read_string(format) {
            Some(text) => text,
            None => {
                return None;
            },
        };
        let mut out: Vec<u8> = Vec::new();
        let mut i: usize = 0;
        let mut k: usize = 0;
        while i < text.len()
            invariant
                self.wf(),
                i <= text.len(),
                k <= i,
                string_at(self@.memory, format) == Some(text@),
                formatted(self@.memory, text@, 0, args@, 0) == prepend(
                    out@,
                    formatted(self@.memory, text@, i as int, args@, k as int),
                ),
            decreases text.len() - i,
        {
            let ghost done = out@;
            let ghost rest = formatted(self@.memory, text@, i as int, args@, k as int);
            if text[i] == CH_PERCENT && i + 1 < text.len() {
                let c = text[i + 1];
                let v = argument_of(args, k);
                if c == CH_LOWER_D {
                    push_decimal_text(&mut out, v);
                    k += 1;
                } else if c == CH_LOWER_X {
                    push_hex(
                        &mut out,
                        #[verifier::truncate]
                        (v as u64),
                    );
                    k += 1;
                } else if c == CH_LOWER_C {
                    out.push(
                        #[verifier::truncate]
                        (v as u8),
                    );
                    k += 1;
                } else if c == CH_LOWER_S {
                    match self.read_string(v) {
                        Some(s) => {
                            push_all(&mut out, &s);
                        },
                        None => {
                            return None;
                        },
                    }
                    k += 1;
                } else if c == CH_PERCENT {
                    out.push(CH_PERCENT);
                } else {
                    out.push(CH_PERCENT);
                    out.push(c);
                }
                i += 2;
            } else {
                out.push(text[i]);
                i += 1;
            }
            proof {
                let next = formatted(self@.memory, text@, i as int, args@, k as int);
                match next {
                    Some(tail) => {
                        let head = out@.subrange(done.len() as int, out@.len() as int);
                        assert(out@ =~= done + head);
                        assert(rest == Some(head + tail));
                        assert(done + (head + tail) =~= out@ + tail);
                    },
                    None => {},
                }
            }
        }
        assert(out@ + Seq::<u8>::empty() =~= out@);
        Some(out)
    }
}

} // verus!
