//! The virtual machine: a fetch-decode-execute loop over the code of a
//! program.

use crate::compiler::C4;
use crate::error::{RuntimeError, RuntimeErrorKind};
use crate::opcode::OpCode;
use crate::program::{Program, ProgramView};
use crate::state::{CODE_LIMIT, DATA_LIMIT};
use crate::vm_spec::{
    HALT, HEAP_END, HEAP_START, HostCall, MEMORY_SIZE, Machine, Stop, after_calls, alu,
    argument_bytes, compare_bytes, execute_spec, in_bounds, place_strings, place_words,
    string_at, string_end, truth, write_bytes,
};
use vstd::bytes::*;
use vstd::prelude::*;
use vstd::string::*;
use vstd::slice::*;

verus! {

/// A machine that holds a program and the state of its run.
#[derive(Debug)]
pub struct Vm {
    pub code: Vec<i64>,
    pub memory: Vec<u8>,
    pub pc: i64,
    pub sp: i64,
    pub bp: i64,
    pub a: i64,
    /// First free address of the heap.
    pub heap: i64,
    /// Number of instructions executed.
    pub cycle: u64,
}

impl View for Vm {
    type V = Machine;

    open spec fn view(&self) -> Machine {
        Machine {
            code: self.code@,
            memory: self.memory@,
            pc: self.pc,
            sp: self.sp,
            bp: self.bp,
            a: self.a,
            heap: self.heap,
            cycle: self.cycle,
        }
    }
}

/// 1 for true, 0 for false.
fn truth_value(b: bool) -> (v: i64)
    ensures
        v == truth(b),
{
    if b {
        1
    } else {
        0
    }
}

/// What a binary instruction computes from the word `x` taken off the stack
/// and the accumulator `y`.
pub fn compute(op: OpCode, x: i64, y: i64) -> (r: Option<i64>)
    ensures
        r == alu(op, x, y),
{
    match op {
        OpCode::OR => Some(x | y),
        OpCode::XOR => Some(x ^ y),
        OpCode::AND => Some(x & y),
        OpCode::EQ => Some(truth_value(x == y)),
        OpCode::NE => Some(truth_value(x != y)),
        OpCode::LT => Some(truth_value(x < y)),
        OpCode::GT => Some(truth_value(x > y)),
        OpCode::LE => Some(truth_value(x <= y)),
        OpCode::GE => Some(truth_value(x >= y)),
        OpCode::SHL => Some(
            x.wrapping_shl(
                #[verifier::truncate]
                (y as u32),
            ),
        ),
        OpCode::SHR => Some(
            x.wrapping_shr(
                #[verifier::truncate]
                (y as u32),
            ),
        ),
        OpCode::ADD => Some(x.wrapping_add(y)),
        OpCode::SUB => Some(x.wrapping_sub(y)),
        OpCode::MUL => Some(x.wrapping_mul(y)),
        OpCode::DIV => if y == 0 {
            None
        } else {
            Some(
                match x.checked_div(y) {
                    Some(q) => q,
                    None => i64::MIN,
                },
            )
        },
        OpCode::MOD => if y == 0 {
            None
        } else {
            Some(
                match x.checked_rem(y) {
                    Some(r) => r,
                    None => 0,
                },
            )
        },
        _ => None,
    }
}

impl Vm {
    /// The memory has its size, the code fits its limit, and the heap
    /// pointer lies in the heap.
    pub open spec fn wf(&self) -> bool {
        self@.wf()
    }

    /// A machine that holds `program` and nothing else. Fails where a
    /// segment of the program is larger than its limit.
    pub fn blank(program: Program) -> (r: Result<Vm, RuntimeError>)
        ensures
            match r {
                Ok(vm) => program@.wf() && vm.wf() && vm@ == Machine::blank(program@),
                Err(e) => !program@.wf() && e == (RuntimeError {
                    pc: program.entry,
                    kind: RuntimeErrorKind::OutOfBounds,
                }),
            },
    {
        if program.code.len() > CODE_LIMIT || program.data.len() > DATA_LIMIT {
            return Err(RuntimeError { pc: program.entry, kind: RuntimeErrorKind::OutOfBounds });
        }
        let ghost data = program.data@;
        let mut memory = program.data;
        let mut k: usize = memory.len();
        while k < MEMORY_SIZE
            invariant
                data.len() <= k <= MEMORY_SIZE,
                memory@ =~= data + Seq::new((k - data.len()) as nat, |i: int| 0u8),
            decreases MEMORY_SIZE - k,
        {
            memory.push(0);
            k += 1;
        }
        let top = MEMORY_SIZE as i64;
        Ok(
            Vm {
                code: program.code,
                memory,
                pc: program.entry,
                sp: top,
                bp: top,
                a: 0,
                heap: HEAP_START,
                cycle: 0,
            },
        )
    }

    /// Puts `argc`, `argv` and the return address of `main` on the stack.
    pub fn enter(&mut self, argc: i64, argv: i64)
        requires
            old(self).wf(),
        ensures
            final(self).wf(),
            final(self)@ == old(self)@.enter(argc, argv),
    {
        let top = MEMORY_SIZE as i64;
        self.store(top - 8, argc);
        self.store(top - 16, argv);
        self.store(top - 24, HALT);
        self.sp = top - 24;
    }

    /// A machine that is about to run `main(argc, argv)` of `program`.
    /// Fails where a segment of the program is larger than its limit.
    pub fn new(program: Program, argc: i64, argv: i64) -> (r: Result<Vm, RuntimeError>)
        ensures
            match r {
                Ok(vm) => program@.wf() && vm.wf() && vm@ == Machine::boot(program@, argc, argv),
                Err(e) => !program@.wf() && e == (RuntimeError {
                    pc: program.entry,
                    kind: RuntimeErrorKind::OutOfBounds,
                }),
            },
    {
        let mut vm = match Vm::blank(program) {
            Ok(vm) => vm,
            Err(e) => {
                return Err(e);
            },
        };
        vm.enter(argc, argv);
        Ok(vm)
    }

    /// Writes the strings `args` to the heap, each followed by a zero
    /// byte, and behind them the table of their addresses, which ends with
    /// a zero word; gives the address of the table. Does nothing and gives
    /// `None` where the heap has not room.
    pub fn put_strings(&mut self, args: &Vec<String>) -> (r: Option<i64>)
        requires
            old(self).wf(),
        ensures
            final(self).wf(),
            match r {
                Some(table) => old(self)@.with_strings(argument_bytes(args@)) == Some(
                    (final(self)@, table),
                ),
                None => old(self)@.with_strings(argument_bytes(args@)) is None && final(self)@
                    == old(self)@,
            },
    {
        let ghost before = self@;
        let ghost texts = argument_bytes(args@);
        let memory = copy_memory(&self.memory);
        let mut at: i64 = self.heap;
        let mut addresses: Vec<i64> = Vec::new();
        let mut i: usize = 0;
        while i < args.len()
            invariant
                self.wf(),
                before.wf(),
                before == old(self)@,
                texts == argument_bytes(args@),
                memory@ == before.memory,
                i <= args.len(),
                i == addresses.len(),
                HEAP_START <= at <= HEAP_END,
                before.heap + i <= at,
                self@ == (Machine { memory: self@.memory, ..before }),
                place_strings(self@.memory, at as int, texts, i as int, addresses@)
                    == place_strings(before.memory, before.heap as int, texts, 0, Seq::empty()),
            decreases args.len() - i,
        {
            let bytes = args[i].as_str().as_bytes();
            assert(bytes@ == texts[i as int]);
            if bytes.len() >= (HEAP_END - at) as usize {
                assert(place_strings(self@.memory, at as int, texts, i as int, addresses@) is None);
                self.memory = memory;
                return None;
            }
            let mut text = slice_to_vec(bytes);
            text.push(0);
            self.write_memory(at, text.as_slice());
            addresses.push(at);
            at = at + text.len() as i64;
            i += 1;
        }
        let table = (at + 7) / 8 * 8;
        if (HEAP_END - table) / 8 <= args.len() as i64 {
            self.memory = memory;
            return None;
        }
        addresses.push(0);
        let ghost filled = self@.memory;
        let mut k: usize = 0;
        while k < addresses.len()
            invariant
                self.wf(),
                k <= addresses.len(),
                addresses.len() == args.len() + 1,
                HEAP_START <= table,
                table + 8 * addresses.len() <= HEAP_END,
                self@ == (Machine { memory: self@.memory, ..before }),
                place_words(self@.memory, table as int, addresses@, k as int) == place_words(
                    filled,
                    table as int,
                    addresses@,
                    0,
                ),
            decreases addresses.len() - k,
        {
            self.store(table + 8 * k as i64, addresses[k]);
            k += 1;
        }
        self.heap = table + 8 * addresses.len() as i64;
        Some(table)
    }

    /// A machine that is about to run `main` of `program` with the
    /// arguments `args`. Fails where a segment of the program is larger
    /// than its limit or the heap has not room for the arguments.
    pub fn with_arguments(program: Program, args: &Vec<String>) -> (r: Result<Vm, RuntimeError>)
        ensures
            match r {
                Ok(vm) => program@.wf() && vm.wf() && Machine::boot_with(
                    program@,
                    argument_bytes(args@),
                ) == Some(vm@),
                Err(e) => e == (RuntimeError {
                    pc: program.entry,
                    kind: RuntimeErrorKind::OutOfBounds,
                }) && (!program@.wf() || Machine::boot_with(program@, argument_bytes(args@))
                    is None),
            },
    {
        let entry = program.entry;
        let mut vm = match Vm::blank(program) {
            Ok(vm) => vm,
            Err(e) => {
                return Err(e);
            },
        };
        match vm.put_strings(args) {
            Some(table) => {
                vm.enter(args.len() as i64, table);
                Ok(vm)
            },
            None => Err(RuntimeError { pc: entry, kind: RuntimeErrorKind::OutOfBounds }),
        }
    }

    /// The word at `at`, `None` outside the memory.
    pub fn load(&self, at: i64) -> (r: Option<i64>)
        requires
            self.wf(),
        ensures
            r == self@.load(at),
    {
        if at < 0 || at > (MEMORY_SIZE - 8) as i64 {
            return None;
        }
        let i = at as usize;
        let bytes = slice_subrange(self.memory.as_slice(), i, i + 8);
        Some(
            #[verifier::truncate]
            (u64_from_le_bytes(bytes) as i64),
        )
    }

    /// The byte at `at` as a word, `None` outside the memory.
    pub fn load_byte(&self, at: i64) -> (r: Option<i64>)
        requires
            self.wf(),
        ensures
            r == self@.load_byte(at),
    {
        if at < 0 || at > (MEMORY_SIZE - 1) as i64 {
            return None;
        }
        Some(self.memory[at as usize] as i64)
    }

    /// Writes `bytes` at `at`; does nothing and tells so where they do not
    /// lie within the memory.
    pub fn write_memory(&mut self, at: i64, bytes: &[u8]) -> (ok: bool)
        requires
            old(self).wf(),
        ensures
            final(self).wf(),
            ok == in_bounds(old(self)@.memory, at, bytes@.len() as int),
            ok ==> final(self)@ == (Machine {
                memory: write_bytes(old(self)@.memory, at, bytes@),
                ..old(self)@
            }),
            !ok ==> final(self)@ == old(self)@,
    {
        if at < 0 || at > MEMORY_SIZE as i64 || bytes.len() > MEMORY_SIZE - at as usize {
            return false;
        }
        let base = at as usize;
        let ghost before = self@;
        let mut k: usize = 0;
        while k < bytes.len()
            invariant
                before.wf(),
                k <= bytes@.len(),
                base == at,
                base + bytes@.len() <= MEMORY_SIZE,
                self@ == (Machine { memory: self@.memory, ..before }),
                self@.memory =~= write_bytes(before.memory, at, bytes@.subrange(0, k as int)),
            decreases bytes@.len() - k,
        {
            self.memory[base + k] = bytes[k];
            k += 1;
        }
        assert(bytes@.subrange(0, k as int) =~= bytes@);
        assert(write_bytes(before.memory, at, Seq::<u8>::empty()) =~= before.memory);
        true
    }

    /// Stores the word `v` at `at`; does nothing and tells so outside the
    /// memory.
    pub fn store(&mut self, at: i64, v: i64) -> (ok: bool)
        requires
            old(self).wf(),
        ensures
            final(self).wf(),
            match old(self)@.store(at, v) {
                Some(m) => ok && final(self)@ == m,
                None => !ok && final(self)@ == old(self)@,
            },
    {
        let bytes = u64_to_le_bytes(
            #[verifier::truncate]
            (v as u64),
        );
        self.write_memory(at, bytes.as_slice())
    }

    /// Stores the low byte of `v` at `at`; does nothing and tells so
    /// outside the memory.
    pub fn store_byte(&mut self, at: i64, v: i64) -> (ok: bool)
        requires
            old(self).wf(),
        ensures
            final(self).wf(),
            match old(self)@.store_byte(at, v) {
                Some(m) => ok && final(self)@ == m,
                None => !ok && final(self)@ == old(self)@,
            },
    {
        if at < 0 || at > (MEMORY_SIZE - 1) as i64 {
            return false;
        }
        self.memory[at as usize] =
        #[verifier::truncate]
        (v as u8);
        true
    }

    /// Pushes `v` on the stack; does nothing and tells so where the stack
    /// has left the memory.
    pub fn push(&mut self, v: i64) -> (ok: bool)
        requires
            old(self).wf(),
        ensures
            final(self).wf(),
            match old(self)@.push(v) {
                Some(m) => ok && final(self)@ == m,
                None => !ok && final(self)@ == old(self)@,
            },
    {
        let at = self.sp.wrapping_sub(8);
        if self.store(at, v) {
            self.sp = at;
            true
        } else {
            false
        }
    }

    /// The word `k` words above the top of the stack.
    pub fn stack(&self, k: i64) -> (r: Option<i64>)
        requires
            self.wf(),
        ensures
            r == self@.stack(k),
    {
        self.load(self.sp.wrapping_add(k.wrapping_mul(8)))
    }

    /// The fault of kind `kind` at the current instruction.
    fn fault(&self, kind: RuntimeErrorKind) -> (r: Option<Stop>)
        ensures
            r == self@.fault(kind).1,
    {
        Some(Stop::Fault(RuntimeError { pc: self.pc, kind }))
    }

    /// Completes the current instruction: the next is at `pc`.
    fn goes_to(&mut self, pc: i64) -> (r: Option<Stop>)
        requires
            old(self).wf(),
        ensures
            final(self).wf(),
            (final(self)@, r) == old(self)@.goes_to(pc),
    {
        self.pc = pc;
        if self.cycle < u64::MAX {
            self.cycle = self.cycle + 1;
        }
        None
    }

    /// Completes the current instruction and stops for the host.
    fn waits(&mut self, pc: i64, call: HostCall) -> (r: Option<Stop>)
        requires
            old(self).wf(),
        ensures
            final(self).wf(),
            (final(self)@, r) == old(self)@.waits(pc, call),
    {
        self.goes_to(pc);
        Some(Stop::Host(call))
    }

    /// Executes a control or memory instruction.
    fn step_basic(&mut self, op: OpCode, x: i64, next: i64) -> (r: Option<Stop>)
        requires
            old(self).wf(),
        ensures
            final(self).wf(),
            (final(self)@, r) == old(self)@.step_basic(op, x, next),
    {
        match op {
            OpCode::LEA => {
                self.a = self.bp.wrapping_add(x.wrapping_mul(8));
                self.goes_to(next)
            },
            OpCode::IMM => {
                self.a = x;
                self.goes_to(next)
            },
            OpCode::JMP => self.goes_to(x),
            OpCode::JSR => {
                if self.push(next) {
                    self.goes_to(x)
                } else {
                    self.fault(RuntimeErrorKind::OutOfBounds)
                }
            },
            OpCode::BZ => {
                let target = if self.a == 0 {
                    x
                } else {
                    next
                };
                self.goes_to(target)
            },
            OpCode::BNZ => {
                let target = if self.a != 0 {
                    x
                } else {
                    next
                };
                self.goes_to(target)
            },
            OpCode::ENT => {
                if self.push(self.bp) {
                    self.bp = self.sp;
                    self.sp = self.sp.wrapping_sub(x.wrapping_mul(8));
                    self.goes_to(next)
                } else {
                    self.fault(RuntimeErrorKind::OutOfBounds)
                }
            },
            OpCode::ADJ => {
                self.sp = self.sp.wrapping_add(x.wrapping_mul(8));
                self.goes_to(next)
            },
            OpCode::LEV => {
                match (self.load(self.bp), self.load(self.bp.wrapping_add(8))) {
                    (Some(frame), Some(back)) => {
                        self.sp = self.bp.wrapping_add(16);
                        self.bp = frame;
                        self.goes_to(back)
                    },
                    _ => self.fault(RuntimeErrorKind::OutOfBounds),
                }
            },
            OpCode::LI => {
                match self.load(self.a) {
                    Some(v) => {
                        self.a = v;
                        self.goes_to(next)
                    },
                    None => self.fault(RuntimeErrorKind::OutOfBounds),
                }
            },
            OpCode::LC => {
                match self.load_byte(self.a) {
                    Some(v) => {
                        self.a = v;
                        self.goes_to(next)
                    },
                    None => self.fault(RuntimeErrorKind::OutOfBounds),
                }
            },
            OpCode::SI => {
                match self.stack(0) {
                    Some(at) => {
                        if self.store(at, self.a) {
                            self.sp = self.sp.wrapping_add(8);
                            self.goes_to(next)
                        } else {
                            self.fault(RuntimeErrorKind::OutOfBounds)
                        }
                    },
                    None => self.fault(RuntimeErrorKind::OutOfBounds),
                }
            },
            OpCode::SC => {
                match self.stack(0) {
                    Some(at) => {
                        if self.store_byte(at, self.a) {
                            self.sp = self.sp.wrapping_add(8);
                            self.a = (
                            #[verifier::truncate]
                            (self.a as u8)) as i64;
                            self.goes_to(next)
                        } else {
                            self.fault(RuntimeErrorKind::OutOfBounds)
                        }
                    },
                    None => self.fault(RuntimeErrorKind::OutOfBounds),
                }
            },
            OpCode::PSH => {
                if self.push(self.a) {
                    self.goes_to(next)
                } else {
                    self.fault(RuntimeErrorKind::OutOfBounds)
                }
            },
            _ => self.fault(RuntimeErrorKind::InvalidOpcode),
        }
    }

    /// Executes a binary instruction.
    fn step_binary(&mut self, op: OpCode, next: i64) -> (r: Option<Stop>)
        requires
            old(self).wf(),
        ensures
            final(self).wf(),
            (final(self)@, r) == old(self)@.step_binary(op, next),
    {
        match self.stack(0) {
            Some(x) => match compute(op, x, self.a) {
                Some(v) => {
                    self.a = v;
                    self.sp = self.sp.wrapping_add(8);
                    self.goes_to(next)
                },
                None => self.fault(RuntimeErrorKind::DivisionByZero),
            },
            None => self.fault(RuntimeErrorKind::OutOfBounds),
        }
    }

    /// Number of arguments of the call that the instruction at `pc` belongs
    /// to.
    fn pushed_args(&self, pc: i64) -> (n: i64)
        requires
            self.wf(),
        ensures
            n == self@.pushed_args(pc),
    {
        if pc >= 0 && pc < CODE_LIMIT as i64 && (pc as usize) + 2 < self.code.len() && self.code[pc as usize
            + 1] == OpCode::ADJ.code() {
            self.code[pc as usize + 2]
        } else {
            0
        }
    }

    /// Argument `k` of `n` that were pushed.
    fn pushed(&self, n: i64, k: i64) -> (r: Option<i64>)
        requires
            self.wf(),
        ensures
            r == self@.pushed(n, k),
    {
        if 1 <= k && k <= n {
            self.stack(n.wrapping_sub(k))
        } else {
            Some(0)
        }
    }

    /// Performs `malloc(n)`.
    fn allocate(&mut self, n: i64)
        requires
            old(self).wf(),
        ensures
            final(self).wf(),
            final(self)@ == old(self)@.allocate(n),
    {
        if 0 <= n && n <= HEAP_END - self.heap {
            self.a = self.heap;
            self.heap = self.heap + (n + 7) / 8 * 8;
        } else {
            self.a = 0;
        }
    }

    /// Fills the `n` bytes at `at` with `b`; the range lies within the
    /// memory.
    fn fill(&mut self, at: usize, b: u8, n: usize)
        requires
            old(self).wf(),
            at + n <= MEMORY_SIZE,
        ensures
            final(self).wf(),
            final(self)@ == (Machine {
                memory: write_bytes(
                    old(self)@.memory,
                    at as i64,
                    Seq::new(n as nat, |i: int| b),
                ),
                ..old(self)@
            }),
    {
        let ghost before = self@;
        let mut k: usize = 0;
        while k < n
            invariant
                before.wf(),
                k <= n,
                at + n <= MEMORY_SIZE,
                self@ == (Machine { memory: self@.memory, ..before }),
                self@.memory =~= write_bytes(
                    before.memory,
                    at as i64,
                    Seq::new(k as nat, |i: int| b),
                ),
            decreases n - k,
        {
            self.memory[at + k] = b;
            k += 1;
        }
    }

    /// Compares the `n` bytes at `p` with those at `q`; both ranges lie
    /// within the memory.
    fn compare(&self, p: usize, q: usize, n: usize) -> (r: i64)
        requires
            self.wf(),
            p + n <= MEMORY_SIZE,
            q + n <= MEMORY_SIZE,
        ensures
            r == compare_bytes(self@.memory, p as int, q as int, n as int),
    {
        let mut k: usize = 0;
        while k < n
            invariant
                self.wf(),
                k <= n,
                p + n <= MEMORY_SIZE,
                q + n <= MEMORY_SIZE,
                compare_bytes(self@.memory, p + k, q + k, n - k) == compare_bytes(
                    self@.memory,
                    p as int,
                    q as int,
                    n as int,
                ),
            decreases n - k,
        {
            let x = self.memory[p + k];
            let y = self.memory[q + k];
            if x != y {
                return x as i64 - y as i64;
            }
            k += 1;
        }
        0
    }

    /// Executes a system call.
    fn step_syscall(&mut self, op: OpCode, next: i64) -> (r: Option<Stop>)
        requires
            old(self).wf(),
        ensures
            final(self).wf(),
            (final(self)@, r) == old(self)@.step_syscall(op, next),
    {
        match op {
            OpCode::OPEN => match (self.stack(1), self.stack(0)) {
                (Some(path), Some(flags)) => self.waits(next, HostCall::Open { path, flags }),
                _ => self.fault(RuntimeErrorKind::OutOfBounds),
            },
            OpCode::READ => match (self.stack(2), self.stack(1), self.stack(0)) {
                (Some(fd), Some(buffer), Some(count)) => self.waits(
                    next,
                    HostCall::Read { fd, buffer, count },
                ),
                _ => self.fault(RuntimeErrorKind::OutOfBounds),
            },
            OpCode::CLOS => match self.stack(0) {
                Some(fd) => self.waits(next, HostCall::Close { fd }),
                None => self.fault(RuntimeErrorKind::OutOfBounds),
            },
            OpCode::PRTF => {
                let n = self.pushed_args(self.pc);
                match (
                    self.pushed(n, 1),
                    self.pushed(n, 2),
                    self.pushed(n, 3),
                    self.pushed(n, 4),
                    self.pushed(n, 5),
                    self.pushed(n, 6),
                ) {
                    (Some(format), Some(arg1), Some(arg2), Some(arg3), Some(arg4), Some(arg5)) =>
                        self.waits(
                        next,
                        HostCall::Printf { count: n, format, arg1, arg2, arg3, arg4, arg5 },
                    ),
                    _ => self.fault(RuntimeErrorKind::OutOfBounds),
                }
            },
            OpCode::MALC => match self.stack(0) {
                Some(n) => {
                    self.allocate(n);
                    self.goes_to(next)
                },
                None => self.fault(RuntimeErrorKind::OutOfBounds),
            },
            OpCode::FREE => match self.stack(0) {
                Some(_) => self.goes_to(next),
                None => self.fault(RuntimeErrorKind::OutOfBounds),
            },
            OpCode::MSET => match (self.stack(2), self.stack(1), self.stack(0)) {
                (Some(at), Some(v), Some(n)) => {
                    if 0 <= n && 0 <= at && at <= MEMORY_SIZE as i64 && n <= MEMORY_SIZE as i64
                        - at {
                        self.fill(
                            at as usize,
                            #[verifier::truncate]
                            (v as u8),
                            n as usize,
                        );
                        self.a = at;
                        self.goes_to(next)
                    } else {
                        self.fault(RuntimeErrorKind::OutOfBounds)
                    }
                },
                _ => self.fault(RuntimeErrorKind::OutOfBounds),
            },
            OpCode::MCMP => match (self.stack(2), self.stack(1), self.stack(0)) {
                (Some(p), Some(q), Some(n)) => {
                    let size = MEMORY_SIZE as i64;
                    if 0 <= n && 0 <= p && p <= size && n <= size - p && 0 <= q && q <= size && n
                        <= size - q {
                        self.a = self.compare(p as usize, q as usize, n as usize);
                        self.goes_to(next)
                    } else {
                        self.fault(RuntimeErrorKind::OutOfBounds)
                    }
                },
                _ => self.fault(RuntimeErrorKind::OutOfBounds),
            },
            OpCode::EXIT => match self.stack(0) {
                Some(status) => Some(
                    Stop::Exit(
                        #[verifier::truncate]
                        (status as i32),
                    ),
                ),
                None => self.fault(RuntimeErrorKind::OutOfBounds),
            },
            _ => self.fault(RuntimeErrorKind::InvalidOpcode),
        }
    }

    /// Executes one instruction and tells why the machine stopped, if it
    /// did. A fault leaves the machine as it was.
    pub fn step(&mut self) -> (r: Option<Stop>)
        requires
            old(self).wf(),
        ensures
            final(self).wf(),
            (final(self)@, r) == old(self)@.step(),
    {
        if self.pc == HALT {
            return Some(
                Stop::Exit(
                    #[verifier::truncate]
                    (self.a as i32),
                ),
            );
        }
        if self.pc < 0 || self.pc >= self.code.len() as i64 {
            return self.fault(RuntimeErrorKind::BadProgramCounter);
        }
        let at = self.pc as usize;
        let op = match OpCode::from_code(self.code[at]) {
            Some(op) => op,
            None => {
                return self.fault(RuntimeErrorKind::InvalidOpcode);
            },
        };
        if op.has_operand() {
            if at + 1 < self.code.len() {
                self.step_basic(op, self.code[at + 1], self.pc + 2)
            } else {
                self.fault(RuntimeErrorKind::BadProgramCounter)
            }
        } else if op.code() <= OpCode::PSH.code() {
            self.step_basic(op, 0, self.pc + 1)
        } else if op.code() <= OpCode::MOD.code() {
            self.step_binary(op, self.pc + 1)
        } else {
            self.step_syscall(op, self.pc + 1)
        }
    }

    /// Runs the machine until it stops, for at most `budget` instructions.
    pub fn run(&mut self, budget: u64) -> (stop: Stop)
        requires
            old(self).wf(),
        ensures
            final(self).wf(),
            (final(self)@, stop) == old(self)@.run(budget as nat),
    {
        let mut left = budget;
        loop
            invariant
                self.wf(),
                self@.run(left as nat) == old(self)@.run(budget as nat),
            decreases left,
        {
            if left == 0 {
                return Stop::Fault(
                    RuntimeError { pc: self.pc, kind: RuntimeErrorKind::CycleLimit },
                );
            }
            match self.step() {
                Some(stop) => {
                    return stop;
                },
                None => {
                    left = left - 1;
                },
            }
        }
    }

    /// Runs the machine for at most `budget` instructions and answers its
    /// host calls in turn with `results`; gives the reason why it stopped
    /// and the calls it made.
    pub fn replay(&mut self, budget: u64, results: &Vec<i64>) -> (r: (Stop, Vec<HostCall>))
        requires
            old(self).wf(),
        ensures
            final(self).wf(),
            (final(self)@, r.0, r.1@) == old(self)@.replay(budget as nat, results@),
    {
        let mut left = budget;
        let mut used: usize = 0;
        let mut calls: Vec<HostCall> = Vec::new();
        proof {
            assert(results@.subrange(0, results@.len() as int) =~= results@);
            let all = self@.replay(budget as nat, results@);
            assert(calls@ + all.2 =~= all.2);
        }
        loop
            invariant
                self.wf(),
                used <= results.len(),
                old(self)@.replay(budget as nat, results@) == after_calls(
                    calls@,
                    self@.replay(left as nat, results@.subrange(used as int, results@.len() as int)),
                ),
            decreases left,
        {
            let ghost rest = results@.subrange(used as int, results@.len() as int);
            if left == 0 {
                assert(calls@ + Seq::<HostCall>::empty() =~= calls@);
                return (
                    Stop::Fault(RuntimeError { pc: self.pc, kind: RuntimeErrorKind::CycleLimit }),
                    calls,
                );
            }
            let ghost before = calls@;
            match self.step() {
                None => {
                    left = left - 1;
                },
                Some(Stop::Host(call)) => {
                    calls.push(call);
                    if used == results.len() {
                        assert(before + seq![call] =~= calls@);
                        return (Stop::Host(call), calls);
                    }
                    self.resume(results[used]);
                    used = used + 1;
                    left = left - 1;
                    proof {
                        assert(rest.drop_first() =~= results@.subrange(
                            used as int,
                            results@.len() as int,
                        ));
                        let tail = self@.replay(left as nat, rest.drop_first());
                        assert(before + (seq![call] + tail.2) =~= calls@ + tail.2);
                    }
                },
                Some(stop) => {
                    assert(calls@ + Seq::<HostCall>::empty() =~= calls@);
                    return (stop, calls);
                },
            }
        }
    }

    /// Hands the machine the result of the host call it stopped for.
    pub fn resume(&mut self, result: i64)
        ensures
            final(self)@ == old(self)@.resume(result),
            old(self).wf() ==> final(self).wf(),
    {
        self.a = result;
    }

    /// The bytes of the zero-terminated string at `at`, `None` where it is
    /// not within the memory.
    pub fn read_string(&self, at: i64) -> (r: Option<Vec<u8>>)
        requires
            self.wf(),
        ensures
            match r {
                Some(v) => string_at(self@.memory, at) == Some(v@),
                None => string_at(self@.memory, at) is None,
            },
    {
        if at < 0 || at >= MEMORY_SIZE as i64 {
            return None;
        }
        let start = at as usize;
        let mut end = start;
        while end < MEMORY_SIZE && self.memory[end] != 0
            invariant
                self.wf(),
                start <= end <= MEMORY_SIZE,
                string_end(self@.memory, end as int) == string_end(self@.memory, start as int),
            decreases MEMORY_SIZE - end,
        {
            end += 1;
        }
        if end < MEMORY_SIZE {
            Some(slice_to_vec(slice_subrange(self.memory.as_slice(), start, end)))
        } else {
            None
        }
    }
}

impl C4 {
    /// Runs what was compiled so far, from the function whose symbol is
    /// `main`, as `execute` runs a program.
    pub fn run(&self, main: usize, argv: &Vec<String>, budget: u64) -> (r: Result<
        i32,
        RuntimeError,
    >)
        requires
            main < self@.symbols.len(),
        ensures
            r == execute_spec(
                ProgramView {
                    code: self@.code,
                    data: self@.data,
                    entry: self@.symbols[main as int].value,
                },
                argument_bytes(argv@),
                budget as nat,
            ),
    {
        let program = Program {
            code: self.e.clone(),
            data: self.data.clone(),
            entry: self.symbols[main].value,
        };
        execute(program, argv, budget)
    }
}

/// Runs `main(argc, argv)` of `program` with the arguments `argv`, for at
/// most `budget` instructions and without a host: gives the exit status of
/// the program, or the fault that stopped it.
pub fn execute(program: Program, argv: &Vec<String>, budget: u64) -> (r: Result<i32, RuntimeError>)
    ensures
        r == execute_spec(program@, argument_bytes(argv@), budget as nat),
{
    let mut vm = match Vm::with_arguments(program, argv) {
        Ok(vm) => vm,
        Err(e) => {
            return Err(e);
        },
    };
    match vm.run(budget) {
        Stop::Exit(status) => Ok(status),
        Stop::Fault(e) => Err(e),
        Stop::Host(_) => Err(
            RuntimeError { pc: vm.pc.wrapping_sub(1), kind: RuntimeErrorKind::UnresolvedSyscall },
        ),
    }
}

/// A copy of a memory.
fn copy_memory(memory: &Vec<u8>) -> (copy: Vec<u8>)
    ensures
        copy@ == memory@,
{
    slice_to_vec(memory.as_slice())
}

} // verus!
