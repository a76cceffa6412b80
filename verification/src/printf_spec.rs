//! What `printf` writes, as a function of the format, the arguments and the
//! memory of the machine.

use crate::token::{
    CH_0, CH_LOWER_A, CH_LOWER_C, CH_LOWER_D, CH_LOWER_S, CH_LOWER_X, CH_MINUS, CH_PERCENT,
};
use crate::vm_spec::string_at;
use vstd::prelude::*;

verus! {

/// The decimal digits of `n`, without leading zeros.
pub open spec fn decimal_digits(n: nat) -> Seq<u8>
    decreases n,
{
    if n < 10 {
        seq![(CH_0 + n) as u8]
    } else {
        decimal_digits(n / 10).push((CH_0 + n % 10) as u8)
    }
}

/// The hexadecimal digits of `n`, in lower case and without leading zeros.
pub open spec fn hex_digits(n: nat) -> Seq<u8>
    decreases n,
{
    if n < 16 {
        seq![hex_digit(n)]
    } else {
        hex_digits(n / 16).push(hex_digit(n % 16))
    }
}

/// The digit for a value below 16.
pub open spec fn hex_digit(n: nat) -> u8 {
    if n < 10 {
        (CH_0 + n) as u8
    } else {
        (CH_LOWER_A + n - 10) as u8
    }
}

/// What `%d` writes for `v`.
pub open spec fn decimal_text(v: i64) -> Seq<u8> {
    if v < 0 {
        seq![CH_MINUS] + decimal_digits((-v) as nat)
    } else {
        decimal_digits(v as nat)
    }
}

/// What `%x` writes for `v`: the digits of `v` taken as an unsigned word.
pub open spec fn hex_text(v: i64) -> Seq<u8> {
    hex_digits((v as u64) as nat)
}

/// Argument `k` of a call, 0 beyond those that were handed over.
pub open spec fn argument(args: Seq<i64>, k: int) -> i64 {
    if 0 <= k < args.len() {
        args[k]
    } else {
        0
    }
}

/// What `printf` writes for the format from byte `i` on, where `k`
/// arguments were used before: `%d` a number in decimal, `%x` in
/// hexadecimal, `%c` one byte, `%s` the string at the address that the
/// argument holds, `%%` a percent sign; every other byte stands for itself.
/// `None` where a string does not lie within the memory.
pub open spec fn formatted(mem: Seq<u8>, format: Seq<u8>, i: int, args: Seq<i64>, k: int) -> Option<
    Seq<u8>,
>
    decreases format.len() - i,
{
    if !(0 <= i < format.len()) {
        Some(Seq::empty())
    } else if format[i] == CH_PERCENT && i + 1 < format.len() {
        let c = format[i + 1];
        let v = argument(args, k);
        if c == CH_LOWER_D {
            prepend(decimal_text(v), formatted(mem, format, i + 2, args, k + 1))
        } else if c == CH_LOWER_X {
            prepend(hex_text(v), formatted(mem, format, i + 2, args, k + 1))
        } else if c == CH_LOWER_C {
            prepend(seq![v as u8], formatted(mem, format, i + 2, args, k + 1))
        } else if c == CH_LOWER_S {
            match string_at(mem, v) {
                Some(text) => prepend(text, formatted(mem, format, i + 2, args, k + 1)),
                None => None,
            }
        } else if c == CH_PERCENT {
            prepend(seq![CH_PERCENT], formatted(mem, format, i + 2, args, k))
        } else {
            prepend(seq![CH_PERCENT, c], formatted(mem, format, i + 2, args, k))
        }
    } else {
        prepend(seq![format[i]], formatted(mem, format, i + 1, args, k))
    }
}

/// `head` put before `rest`, where there is a rest.
pub open spec fn prepend(head: Seq<u8>, rest: Option<Seq<u8>>) -> Option<Seq<u8>> {
    match rest {
        Some(tail) => Some(head + tail),
        None => None,
    }
}

/// What a call of `printf` writes: its format is the string at `format`,
/// and `args` are the arguments behind it.
pub open spec fn printf_output(mem: Seq<u8>, format: i64, args: Seq<i64>) -> Option<Seq<u8>> {
    match string_at(mem, format) {
        Some(text) => formatted(mem, text, 0, args, 0),
        None => None,
    }
}

} // verus!
