//! What the virtual machine does, as functions on the state of the machine.
//!
//! The machine has a code segment of words, a byte memory that holds the
//! data segment, the heap and the stack, and four registers: the program
//! counter `pc`, the stack pointer `sp`, the frame pointer `bp` and the
//! accumulator `a`. Words in memory are 8 bytes, little-endian. Register
//! arithmetic wraps; every access to memory is checked.

use crate::error::{RuntimeError, RuntimeErrorKind};
use crate::opcode::OpCode;
use crate::program::ProgramView;
use crate::state::CODE_LIMIT;
use vstd::bytes::*;
use vstd::prelude::*;
use vstd::utf8::*;

verus! {

/// Size of the memory in bytes. The data segment starts at address 0, the
/// stack grows down from the end.
pub const MEMORY_SIZE: usize = 0x10_0000;

/// First address that `malloc` hands out.
pub const HEAP_START: i64 = 0x4_0000;

/// End of the heap.
pub const HEAP_END: i64 = 0xC_0000;

/// The return address of `main`: the machine stops when it gets there.
pub const HALT: i64 = -1;

/// A system call that the machine cannot perform itself. The fields are the
/// arguments as the program pushed them; addresses are addresses in the
/// machine's memory.
#[derive(Clone, Copy, Debug, PartialEq, Eq, Structural)]
pub enum HostCall {
    Open { path: i64, flags: i64 },
    Read { fd: i64, buffer: i64, count: i64 },
    Close { fd: i64 },
    /// `count` arguments were pushed, the format among them; `arg1` to
    /// `arg5` are the first five that follow the format, 0 where fewer were
    /// pushed.
    Printf { count: i64, format: i64, arg1: i64, arg2: i64, arg3: i64, arg4: i64, arg5: i64 },
}

/// Why the machine stopped.
#[derive(Clone, Copy, Debug, PartialEq, Eq, Structural)]
pub enum Stop {
    /// The program called `exit`, or `main` returned.
    Exit(i32),
    Fault(RuntimeError),
    /// The program waits for the host; `resume` hands it the result.
    Host(HostCall),
}

/// The state of the machine.
pub struct Machine {
    pub code: Seq<i64>,
    pub memory: Seq<u8>,
    pub pc: i64,
    pub sp: i64,
    pub bp: i64,
    pub a: i64,
    /// First free address of the heap.
    pub heap: i64,
    /// Number of instructions executed.
    pub cycle: u64,
}

/// Whether the `n` bytes at `at` lie within the memory.
pub open spec fn in_bounds(mem: Seq<u8>, at: i64, n: int) -> bool {
    0 <= at && at + n <= mem.len()
}

/// The word that the 8 bytes at `at` hold.
pub open spec fn read_word(mem: Seq<u8>, at: i64) -> i64 {
    spec_u64_from_le_bytes(mem.subrange(at as int, at + 8)) as i64
}

/// The memory with `bytes` written at `at`.
pub open spec fn write_bytes(mem: Seq<u8>, at: i64, bytes: Seq<u8>) -> Seq<u8> {
    mem.subrange(0, at as int) + bytes + mem.subrange(at + bytes.len(), mem.len() as int)
}

/// The memory with the word `v` written at `at`.
pub open spec fn write_word(mem: Seq<u8>, at: i64, v: i64) -> Seq<u8> {
    write_bytes(mem, at, spec_u64_to_le_bytes(v as u64))
}

/// The memory after the strings from `args[i]` on were written one behind
/// the other from `at`, each followed by a zero byte; the address behind
/// the last; and `table` with the address of each string appended. `None`
/// where a string would reach beyond the heap.
pub open spec fn place_strings(
    mem: Seq<u8>,
    at: int,
    args: Seq<Seq<u8>>,
    i: int,
    table: Seq<i64>,
) -> Option<(Seq<u8>, int, Seq<i64>)>
    decreases args.len() - i,
{
    if i < 0 || i >= args.len() {
        Some((mem, at, table))
    } else if at + args[i].len() + 1 > HEAP_END {
        None
    } else {
        place_strings(
            write_bytes(mem, at as i64, args[i].push(0)),
            at + args[i].len() + 1,
            args,
            i + 1,
            table.push(at as i64),
        )
    }
}

/// The memory after the words from `words[i]` on were written, word `k` at
/// `at + 8 * k`.
pub open spec fn place_words(mem: Seq<u8>, at: int, words: Seq<i64>, i: int) -> Seq<u8>
    decreases words.len() - i,
{
    if i < 0 || i >= words.len() {
        mem
    } else {
        place_words(write_word(mem, (at + 8 * i) as i64, words[i]), at, words, i + 1)
    }
}

/// The arguments as byte strings.
pub open spec fn argument_bytes(argv: Seq<String>) -> Seq<Seq<u8>> {
    Seq::new(argv.len(), |i: int| encode_utf8(argv[i]@))
}

/// Difference of the first bytes in which the `n` bytes at `p` and at `q`
/// differ, 0 where they are equal.
pub open spec fn compare_bytes(mem: Seq<u8>, p: int, q: int, n: int) -> i64
    decreases n,
{
    if n <= 0 {
        0
    } else if mem[p] != mem[q] {
        (mem[p] - mem[q]) as i64
    } else {
        compare_bytes(mem, p + 1, q + 1, n - 1)
    }
}

/// Index of the first zero byte from `at` on, or the length of the memory.
pub open spec fn string_end(mem: Seq<u8>, at: int) -> int
    decreases mem.len() - at,
{
    if 0 <= at < mem.len() && mem[at] != 0 {
        string_end(mem, at + 1)
    } else {
        at
    }
}

/// The bytes of the zero-terminated string at `at`, without the zero.
pub open spec fn string_at(mem: Seq<u8>, at: i64) -> Option<Seq<u8>> {
    if 0 <= at < mem.len() && string_end(mem, at as int) < mem.len() {
        Some(mem.subrange(at as int, string_end(mem, at as int)))
    } else {
        None
    }
}

/// 1 for true, 0 for false.
pub open spec fn truth(b: bool) -> i64 {
    if b {
        1
    } else {
        0
    }
}

/// `n` rounded up to a multiple of 8.
pub open spec fn round_up(n: i64) -> int {
    (n + 7) / 8 * 8
}

/// What a binary instruction computes from the word `x` taken off the
/// stack and the accumulator `y`; `None` for a division by zero.
/// Arithmetic wraps, shifts take their count modulo 64, and comparisons
/// give 1 or 0.
pub open spec fn alu(op: OpCode, x: i64, y: i64) -> Option<i64> {
    match op {
        OpCode::OR => Some(x | y),
        OpCode::XOR => Some(x ^ y),
        OpCode::AND => Some(x & y),
        OpCode::EQ => Some(truth(x == y)),
        OpCode::NE => Some(truth(x != y)),
        OpCode::LT => Some(truth(x < y)),
        OpCode::GT => Some(truth(x > y)),
        OpCode::LE => Some(truth(x <= y)),
        OpCode::GE => Some(truth(x >= y)),
        OpCode::SHL => Some(x.wrapping_shl(y as u32)),
        OpCode::SHR => Some(x.wrapping_shr(y as u32)),
        OpCode::ADD => Some(x.wrapping_add(y)),
        OpCode::SUB => Some(x.wrapping_sub(y)),
        OpCode::MUL => Some(x.wrapping_mul(y)),
        OpCode::DIV => if y == 0 {
            None
        } else {
            Some(
                match x.checked_div(y) {
                    Some(q) => q,
                    None => i64::MIN,
                },
            )
        },
        OpCode::MOD => if y == 0 {
            None
        } else {
            Some(
                match x.checked_rem(y) {
                    Some(r) => r,
                    None => 0,
                },
            )
        },
        _ => None,
    }
}

impl Machine {
    /// The memory has its size, the code fits its limit, and the heap
    /// pointer lies in the heap at a multiple of 8.
    pub open spec fn wf(self) -> bool {
        &&& self.memory.len() == MEMORY_SIZE
        &&& self.code.len() <= CODE_LIMIT
        &&& HEAP_START <= self.heap <= HEAP_END
        &&& self.heap % 8 == 0
    }

    /// The machine that holds `program` and nothing else: the data segment
    /// at address 0, the rest of the memory zero, the heap and the stack
    /// empty.
    pub open spec fn blank(program: ProgramView) -> Machine {
        Machine {
            code: program.code,
            memory: program.data + Seq::new(
                (MEMORY_SIZE - program.data.len()) as nat,
                |i: int| 0u8,
            ),
            pc: program.entry,
            sp: MEMORY_SIZE as i64,
            bp: MEMORY_SIZE as i64,
            a: 0,
            heap: HEAP_START,
            cycle: 0,
        }
    }

    /// The machine about to call `main(argc, argv)`: on the stack are
    /// `argc`, `argv` and the return address `HALT`.
    pub open spec fn enter(self, argc: i64, argv: i64) -> Machine {
        let top = MEMORY_SIZE as i64;
        let m1 = write_word(self.memory, (top - 8) as i64, argc);
        let m2 = write_word(m1, (top - 16) as i64, argv);
        let m3 = write_word(m2, (top - 24) as i64, HALT);
        Machine { memory: m3, sp: (top - 24) as i64, ..self }
    }

    /// The machine that is about to run `main(argc, argv)` of `program`.
    pub open spec fn boot(program: ProgramView, argc: i64, argv: i64) -> Machine {
        Machine::blank(program).enter(argc, argv)
    }

    /// The machine with the strings `args` in its heap, each followed by a
    /// zero byte, and behind them, at `table`, the addresses of the strings
    /// and a zero word; `None` where the heap has not room for them.
    pub open spec fn with_strings(self, args: Seq<Seq<u8>>) -> Option<(Machine, i64)> {
        match place_strings(self.memory, self.heap as int, args, 0, Seq::empty()) {
            Some((memory, end, addresses)) => {
                let table = round_up(end as i64);
                if table + 8 * (args.len() + 1) <= HEAP_END {
                    Some(
                        (
                            Machine {
                                memory: place_words(memory, table, addresses.push(0), 0),
                                heap: (table + 8 * (args.len() + 1)) as i64,
                                ..self
                            },
                            table as i64,
                        ),
                    )
                } else {
                    None
                }
            },
            None => None,
        }
    }

    /// The machine that is about to run `main` of `program` with the
    /// arguments `args`: `argc` is their number and `argv` the address of
    /// the table of their addresses.
    pub open spec fn boot_with(program: ProgramView, args: Seq<Seq<u8>>) -> Option<Machine> {
        match Machine::blank(program).with_strings(args) {
            Some((m, table)) => Some(m.enter(args.len() as i64, table)),
            None => None,
        }
    }

    /// The word at `at`, `None` outside the memory.
    pub open spec fn load(self, at: i64) -> Option<i64> {
        if in_bounds(self.memory, at, 8) {
            Some(read_word(self.memory, at))
        } else {
            None
        }
    }

    /// The byte at `at` as a word, `None` outside the memory.
    pub open spec fn load_byte(self, at: i64) -> Option<i64> {
        if in_bounds(self.memory, at, 1) {
            Some(self.memory[at as int] as i64)
        } else {
            None
        }
    }

    /// The machine after the word `v` was stored at `at`.
    pub open spec fn store(self, at: i64, v: i64) -> Option<Machine> {
        if in_bounds(self.memory, at, 8) {
            Some(Machine { memory: write_word(self.memory, at, v), ..self })
        } else {
            None
        }
    }

    /// The machine after the low byte of `v` was stored at `at`.
    pub open spec fn store_byte(self, at: i64, v: i64) -> Option<Machine> {
        if in_bounds(self.memory, at, 1) {
            Some(Machine { memory: self.memory.update(at as int, v as u8), ..self })
        } else {
            None
        }
    }

    /// The machine after `v` was pushed on the stack.
    pub open spec fn push(self, v: i64) -> Option<Machine> {
        Machine { sp: self.sp.wrapping_sub(8), ..self }.store(self.sp.wrapping_sub(8), v)
    }

    /// The word `k` words above the top of the stack.
    pub open spec fn stack(self, k: i64) -> Option<i64> {
        self.load(self.sp.wrapping_add(k.wrapping_mul(8)))
    }

    /// The machine stopped by a fault of the current instruction, which
    /// leaves the state as it was.
    pub open spec fn fault(self, kind: RuntimeErrorKind) -> (Machine, Option<Stop>) {
        (self, Some(Stop::Fault(RuntimeError { pc: self.pc, kind })))
    }

    /// The machine after the current instruction was completed: `pc` is the
    /// address of the next, and the cycle is counted.
    pub open spec fn goes_to(self, pc: i64) -> (Machine, Option<Stop>) {
        (
            Machine {
                pc,
                cycle: if self.cycle < u64::MAX {
                    (self.cycle + 1) as u64
                } else {
                    self.cycle
                },
                ..self
            },
            None,
        )
    }

    /// As `goes_to`, but the machine stops for the host.
    pub open spec fn waits(self, pc: i64, call: HostCall) -> (Machine, Option<Stop>) {
        (self.goes_to(pc).0, Some(Stop::Host(call)))
    }

    /// The number of arguments of the call that the instruction at `pc`
    /// belongs to: the operand of the `ADJ` behind it, 0 without one.
    pub open spec fn pushed_args(self, pc: i64) -> i64 {
        if 0 <= pc && pc + 2 < self.code.len() && self.code[pc + 1] == OpCode::ADJ.spec_code() {
            self.code[pc + 2]
        } else {
            0
        }
    }

    /// Argument `k` of `n` that were pushed, counted from 1 in the order of
    /// the call; 0 where fewer than `k` were pushed.
    pub open spec fn pushed(self, n: i64, k: i64) -> Option<i64> {
        if 1 <= k <= n {
            self.stack(n.wrapping_sub(k))
        } else {
            Some(0)
        }
    }

    /// A step of a control or memory instruction, where `x` is its operand
    /// and `next` the address behind it.
    pub open spec fn step_basic(self, op: OpCode, x: i64, next: i64) -> (Machine, Option<Stop>) {
        match op {
            OpCode::LEA => Machine {
                a: self.bp.wrapping_add(x.wrapping_mul(8)),
                ..self
            }.goes_to(next),
            OpCode::IMM => Machine { a: x, ..self }.goes_to(next),
            OpCode::JMP => self.goes_to(x),
            OpCode::JSR => match self.push(next) {
                Some(m) => m.goes_to(x),
                None => self.fault(RuntimeErrorKind::OutOfBounds),
            },
            OpCode::BZ => self.goes_to(
                if self.a == 0 {
                    x
                } else {
                    next
                },
            ),
            OpCode::BNZ => self.goes_to(
                if self.a != 0 {
                    x
                } else {
                    next
                },
            ),
            OpCode::ENT => match self.push(self.bp) {
                Some(m) => Machine {
                    bp: m.sp,
                    sp: m.sp.wrapping_sub(x.wrapping_mul(8)),
                    ..m
                }.goes_to(next),
                None => self.fault(RuntimeErrorKind::OutOfBounds),
            },
            OpCode::ADJ => Machine {
                sp: self.sp.wrapping_add(x.wrapping_mul(8)),
                ..self
            }.goes_to(next),
            OpCode::LEV => match (self.load(self.bp), self.load(self.bp.wrapping_add(8))) {
                (Some(frame), Some(back)) => Machine {
                    sp: self.bp.wrapping_add(16),
                    bp: frame,
                    ..self
                }.goes_to(back),
                _ => self.fault(RuntimeErrorKind::OutOfBounds),
            },
            OpCode::LI => match self.load(self.a) {
                Some(v) => Machine { a: v, ..self }.goes_to(next),
                None => self.fault(RuntimeErrorKind::OutOfBounds),
            },
            OpCode::LC => match self.load_byte(self.a) {
                Some(v) => Machine { a: v, ..self }.goes_to(next),
                None => self.fault(RuntimeErrorKind::OutOfBounds),
            },
            OpCode::SI => match self.stack(0) {
                Some(at) => match self.store(at, self.a) {
                    Some(m) => Machine { sp: self.sp.wrapping_add(8), ..m }.goes_to(next),
                    None => self.fault(RuntimeErrorKind::OutOfBounds),
                },
                None => self.fault(RuntimeErrorKind::OutOfBounds),
            },
            OpCode::SC => match self.stack(0) {
                Some(at) => match self.store_byte(at, self.a) {
                    Some(m) => Machine {
                        sp: self.sp.wrapping_add(8),
                        a: (self.a as u8) as i64,
                        ..m
                    }.goes_to(next),
                    None => self.fault(RuntimeErrorKind::OutOfBounds),
                },
                None => self.fault(RuntimeErrorKind::OutOfBounds),
            },
            OpCode::PSH => match self.push(self.a) {
                Some(m) => m.goes_to(next),
                None => self.fault(RuntimeErrorKind::OutOfBounds),
            },
            _ => self.fault(RuntimeErrorKind::InvalidOpcode),
        }
    }

    /// A step of a binary instruction: the left operand comes off the
    /// stack, the right is the accumulator, which takes the result.
    pub open spec fn step_binary(self, op: OpCode, next: i64) -> (Machine, Option<Stop>) {
        match self.stack(0) {
            Some(x) => match alu(op, x, self.a) {
                Some(v) => Machine { a: v, sp: self.sp.wrapping_add(8), ..self }.goes_to(next),
                None => self.fault(RuntimeErrorKind::DivisionByZero),
            },
            None => self.fault(RuntimeErrorKind::OutOfBounds),
        }
    }

    /// `malloc(n)`: the first free address of the heap, which then grows by
    /// `n` rounded up to a multiple of 8; 0 where `n` is negative or the
    /// heap has not that much left.
    pub open spec fn allocate(self, n: i64) -> Machine {
        if 0 <= n <= HEAP_END - self.heap {
            Machine { a: self.heap, heap: (self.heap + round_up(n)) as i64, ..self }
        } else {
            Machine { a: 0, ..self }
        }
    }

    /// A step of a system call: its arguments are on the stack, the last
    /// on top, and stay there.
    pub open spec fn step_syscall(self, op: OpCode, next: i64) -> (Machine, Option<Stop>) {
        match op {
            OpCode::OPEN => match (self.stack(1), self.stack(0)) {
                (Some(path), Some(flags)) => self.waits(next, HostCall::Open { path, flags }),
                _ => self.fault(RuntimeErrorKind::OutOfBounds),
            },
            OpCode::READ => match (self.stack(2), self.stack(1), self.stack(0)) {
                (Some(fd), Some(buffer), Some(count)) => self.waits(
                    next,
                    HostCall::Read { fd, buffer, count },
                ),
                _ => self.fault(RuntimeErrorKind::OutOfBounds),
            },
            OpCode::CLOS => match self.stack(0) {
                Some(fd) => self.waits(next, HostCall::Close { fd }),
                None => self.fault(RuntimeErrorKind::OutOfBounds),
            },
            OpCode::PRTF => {
                let n = self.pushed_args(self.pc);
                match (
                    self.pushed(n, 1),
                    self.pushed(n, 2),
                    self.pushed(n, 3),
                    self.pushed(n, 4),
                    self.pushed(n, 5),
                    self.pushed(n, 6),
                ) {
                    (Some(format), Some(arg1), Some(arg2), Some(arg3), Some(arg4), Some(arg5)) =>
                        self.waits(
                        next,
                        HostCall::Printf { count: n, format, arg1, arg2, arg3, arg4, arg5 },
                    ),
                    _ => self.fault(RuntimeErrorKind::OutOfBounds),
                }
            },
            OpCode::MALC => match self.stack(0) {
                Some(n) => self.allocate(n).goes_to(next),
                None => self.fault(RuntimeErrorKind::OutOfBounds),
            },
            OpCode::FREE => match self.stack(0) {
                Some(_) => self.goes_to(next),
                None => self.fault(RuntimeErrorKind::OutOfBounds),
            },
            OpCode::MSET => match (self.stack(2), self.stack(1), self.stack(0)) {
                (Some(at), Some(v), Some(n)) => if 0 <= n && in_bounds(self.memory, at, n as int) {
                    Machine {
                        a: at,
                        memory: write_bytes(
                            self.memory,
                            at,
                            Seq::new(n as nat, |i: int| v as u8),
                        ),
                        ..self
                    }.goes_to(next)
                } else {
                    self.fault(RuntimeErrorKind::OutOfBounds)
                },
                _ => self.fault(RuntimeErrorKind::OutOfBounds),
            },
            OpCode::MCMP => match (self.stack(2), self.stack(1), self.stack(0)) {
                (Some(p), Some(q), Some(n)) => if 0 <= n && in_bounds(self.memory, p, n as int)
                    && in_bounds(self.memory, q, n as int) {
                    Machine {
                        a: compare_bytes(self.memory, p as int, q as int, n as int),
                        ..self
                    }.goes_to(next)
                } else {
                    self.fault(RuntimeErrorKind::OutOfBounds)
                },
                _ => self.fault(RuntimeErrorKind::OutOfBounds),
            },
            OpCode::EXIT => match self.stack(0) {
                Some(status) => (self, Some(Stop::Exit(status as i32))),
                None => self.fault(RuntimeErrorKind::OutOfBounds),
            },
            _ => self.fault(RuntimeErrorKind::InvalidOpcode),
        }
    }

    /// One instruction: the machine after it, and why it stopped if it
    /// did. At `HALT` the machine stops with the accumulator as its exit
    /// status.
    pub open spec fn step(self) -> (Machine, Option<Stop>) {
        if self.pc == HALT {
            (self, Some(Stop::Exit(self.a as i32)))
        } else if !(0 <= self.pc < self.code.len()) {
            self.fault(RuntimeErrorKind::BadProgramCounter)
        } else {
            match OpCode::spec_from_code(self.code[self.pc as int]) {
                None => self.fault(RuntimeErrorKind::InvalidOpcode),
                Some(op) => if op.spec_has_operand() {
                    if self.pc + 1 < self.code.len() {
                        self.step_basic(op, self.code[self.pc + 1], (self.pc + 2) as i64)
                    } else {
                        self.fault(RuntimeErrorKind::BadProgramCounter)
                    }
                } else if op.spec_code() <= OpCode::PSH.spec_code() {
                    self.step_basic(op, 0, (self.pc + 1) as i64)
                } else if op.spec_code() <= OpCode::MOD.spec_code() {
                    self.step_binary(op, (self.pc + 1) as i64)
                } else {
                    self.step_syscall(op, (self.pc + 1) as i64)
                },
            }
        }
    }

    /// The machine run for at most `budget` instructions: where it
    /// stopped, and why. A budget that runs out is a fault.
    pub open spec fn run(self, budget: nat) -> (Machine, Stop)
        decreases budget,
    {
        if budget == 0 {
            (self, Stop::Fault(RuntimeError { pc: self.pc, kind: RuntimeErrorKind::CycleLimit }))
        } else {
            match self.step() {
                (m, Some(stop)) => (m, stop),
                (m, None) => m.run((budget - 1) as nat),
            }
        }
    }

    /// The machine after the host has performed the call it waited for:
    /// the accumulator holds the result.
    pub open spec fn resume(self, result: i64) -> Machine {
        Machine { a: result, ..self }
    }

    /// The machine run for at most `budget` instructions with a host that
    /// answers the calls in turn with `results`: where it stopped, why,
    /// and the calls it made, in their order. Where the results run out the
    /// machine stops at the call that is left without one.
    pub open spec fn replay(self, budget: nat, results: Seq<i64>) -> (Machine, Stop, Seq<HostCall>)
        decreases budget,
    {
        if budget == 0 {
            (
                self,
                Stop::Fault(RuntimeError { pc: self.pc, kind: RuntimeErrorKind::CycleLimit }),
                Seq::empty(),
            )
        } else {
            match self.step() {
                (m, None) => m.replay((budget - 1) as nat, results),
                (m, Some(Stop::Host(call))) => if results.len() == 0 {
                    (m, Stop::Host(call), seq![call])
                } else {
                    after_call(
                        call,
                        m.resume(results[0]).replay((budget - 1) as nat, results.drop_first()),
                    )
                },
                (m, Some(stop)) => (m, stop, Seq::empty()),
            }
        }
    }
}

/// The outcome of a run that made `call` and then went on as `rest` says.
pub open spec fn after_call(call: HostCall, rest: (Machine, Stop, Seq<HostCall>)) -> (
    Machine,
    Stop,
    Seq<HostCall>,
) {
    (rest.0, rest.1, seq![call] + rest.2)
}

/// The outcome of a run that made `calls` and then went on as `rest` says.
pub open spec fn after_calls(calls: Seq<HostCall>, rest: (Machine, Stop, Seq<HostCall>)) -> (
    Machine,
    Stop,
    Seq<HostCall>,
) {
    (rest.0, rest.1, calls + rest.2)
}

/// What running a program gives without a host: its exit status, or the
/// fault that stopped it. A program or arguments that do not fit the
/// machine are a fault at the entry; a call that needs the host is a fault
/// at the address of the call.
pub open spec fn execute_spec(program: ProgramView, args: Seq<Seq<u8>>, budget: nat) -> Result<
    i32,
    RuntimeError,
> {
    if !program.wf() {
        Err(RuntimeError { pc: program.entry, kind: RuntimeErrorKind::OutOfBounds })
    } else {
        match Machine::boot_with(program, args) {
            None => Err(RuntimeError { pc: program.entry, kind: RuntimeErrorKind::OutOfBounds }),
            Some(machine) => match machine.run(budget) {
                (_, Stop::Exit(status)) => Ok(status),
                (_, Stop::Fault(e)) => Err(e),
                (m, Stop::Host(_)) => Err(
                    RuntimeError {
                        pc: m.pc.wrapping_sub(1),
                        kind: RuntimeErrorKind::UnresolvedSyscall,
                    },
                ),
            },
        }
    }
}

} // verus!
