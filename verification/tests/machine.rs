use c4_rust::error::{RuntimeError, RuntimeErrorKind};
use c4_rust::opcode::OpCode;
use c4_rust::program::Program;
use c4_rust::vm::{compute, execute, Vm};
use c4_rust::vm_spec::{HostCall, Stop};

const LEA: i64 = 0;
const IMM: i64 = 1;
const JMP: i64 = 2;
const JSR: i64 = 3;
const BZ: i64 = 4;
const BNZ: i64 = 5;
const ENT: i64 = 6;
const ADJ: i64 = 7;
const LEV: i64 = 8;
const LI: i64 = 9;
const LC: i64 = 10;
const SI: i64 = 11;
const SC: i64 = 12;
const PSH: i64 = 13;
const ADD: i64 = 25;
const DIV: i64 = 28;
const MOD: i64 = 29;
const OPEN: i64 = 30;
const READ: i64 = 31;
const CLOS: i64 = 32;
const PRTF: i64 = 33;
const MALC: i64 = 34;
const FREE: i64 = 35;
const MSET: i64 = 36;
const MCMP: i64 = 37;
const EXIT: i64 = 38;

const TOP: i64 = 0x10_0000;
const HEAP: i64 = 0x4_0000;

fn program(code: &[i64], data: &[u8]) -> Program {
    let mut words = vec![0];
    words.extend_from_slice(code);
    Program { code: words, data: data.to_vec(), entry: 1 }
}

fn machine(code: &[i64]) -> Vm {
    Vm::new(program(code, &[]), 0, 0).unwrap()
}

fn fault(pc: i64, kind: RuntimeErrorKind) -> Stop {
    Stop::Fault(RuntimeError { pc, kind })
}

/// The accumulator after `IMM x; PSH; IMM y; op`.
fn binary(op: OpCode, x: i64, y: i64) -> i64 {
    let mut vm = machine(&[IMM, x, PSH, IMM, y, op.code()]);
    let sp = vm.sp;
    assert_eq!(vm.run(4), fault(7, RuntimeErrorKind::CycleLimit));
    assert_eq!(vm.sp, sp);
    assert_eq!(vm.cycle, 4);
    assert_eq!(Some(vm.a), compute(op, x, y));
    vm.a
}

#[test]
fn a_fresh_machine_is_ready_to_call_main() {
    let vm = Vm::new(program(&[LEV], b"abc"), 2, 77).unwrap();
    assert_eq!(vm.memory.len(), 0x10_0000);
    assert_eq!(&vm.memory[..4], b"abc\0");
    assert_eq!(vm.pc, 1);
    assert_eq!(vm.bp, TOP);
    assert_eq!(vm.sp, TOP - 24);
    assert_eq!(vm.a, 0);
    assert_eq!(vm.heap, HEAP);
    assert_eq!(vm.cycle, 0);
    assert_eq!(vm.load(TOP - 8), Some(2));
    assert_eq!(vm.load(TOP - 16), Some(77));
    assert_eq!(vm.load(TOP - 24), Some(-1));
    assert_eq!(vm.stack(0), Some(-1));
    assert_eq!(vm.stack(2), Some(2));
    assert_eq!(vm.stack(3), None);
}

#[test]
fn arguments_are_laid_out_in_the_heap() {
    let argv = vec![String::from("prog"), String::from(""), String::from("x=1")];
    let vm = Vm::with_arguments(program(&[LEV], b"d"), &argv).unwrap();
    // "prog\0" at HEAP, "\0" at HEAP + 5, "x=1\0" at HEAP + 6, the table at HEAP + 16
    assert_eq!(vm.read_string(HEAP), Some(b"prog".to_vec()));
    assert_eq!(vm.read_string(HEAP + 5), Some(Vec::new()));
    assert_eq!(vm.read_string(HEAP + 6), Some(b"x=1".to_vec()));
    assert_eq!(vm.load(HEAP + 16), Some(HEAP));
    assert_eq!(vm.load(HEAP + 24), Some(HEAP + 5));
    assert_eq!(vm.load(HEAP + 32), Some(HEAP + 6));
    assert_eq!(vm.load(HEAP + 40), Some(0));
    assert_eq!(vm.heap, HEAP + 48);
    assert_eq!(vm.stack(0), Some(-1));
    assert_eq!(vm.stack(1), Some(HEAP + 16));
    assert_eq!(vm.stack(2), Some(3));
    assert_eq!(vm.sp, TOP - 24);
    assert_eq!(vm.pc, 1);
    assert_eq!(vm.memory[0], b'd');
    // without arguments the table is one zero word
    let vm = Vm::with_arguments(program(&[LEV], &[]), &Vec::new()).unwrap();
    assert_eq!(vm.stack(1), Some(HEAP));
    assert_eq!(vm.stack(2), Some(0));
    assert_eq!(vm.load(HEAP), Some(0));
    assert_eq!(vm.heap, HEAP + 8);
}

#[test]
fn arguments_that_do_not_fit_the_heap_are_refused() {
    let room = 0xC_0000 - 0x4_0000;
    let long = "x".repeat(room - 1);
    let refused = RuntimeError { pc: 1, kind: RuntimeErrorKind::OutOfBounds };
    // the string fits, its table does not
    assert_eq!(Vm::with_arguments(program(&[LEV], &[]), &vec![long.clone()]).unwrap_err(), refused);
    assert_eq!(execute(program(&[LEV], &[]), &vec![long], 10), Err(refused));
    let fits = "x".repeat(room - 17);
    let vm = Vm::with_arguments(program(&[LEV], &[]), &vec![fits]).unwrap();
    assert_eq!(vm.heap, 0xC_0000);
    let too_long = "x".repeat(room);
    let mut vm = Vm::blank(program(&[LEV], &[])).unwrap();
    assert_eq!(vm.put_strings(&vec![String::from("a"), too_long]), None);
    assert_eq!(vm.heap, HEAP);
    assert_eq!(vm.memory[HEAP as usize], 0);
    assert_eq!(vm.put_strings(&vec![String::from("a")]), Some(HEAP + 8));
    assert_eq!(vm.memory[HEAP as usize], b'a');
    vm.enter(1, HEAP + 8);
    assert_eq!(vm.stack(2), Some(1));
}

#[test]
fn a_program_beyond_the_limits_is_not_loaded() {
    let big = Program { code: vec![0, LEV], data: vec![0; 0x4_0001], entry: 1 };
    assert_eq!(
        Vm::new(big.clone(), 0, 0).unwrap_err(),
        RuntimeError { pc: 1, kind: RuntimeErrorKind::OutOfBounds }
    );
    assert_eq!(
        execute(big, &Vec::new(), 10),
        Err(RuntimeError { pc: 1, kind: RuntimeErrorKind::OutOfBounds })
    );
    let long = Program { code: vec![0; 0x4_0001], data: vec![], entry: 1 };
    assert!(Vm::new(long, 0, 0).is_err());
    let full = Program { code: vec![0; 0x4_0000], data: vec![0; 0x4_0000], entry: 1 };
    assert!(Vm::new(full, 0, 0).is_ok());
}

#[test]
fn the_return_of_main_ends_the_run_with_the_accumulator() {
    let mut vm = machine(&[ENT, 0, IMM, 42, LEV]);
    assert_eq!(vm.step(), None);
    assert_eq!(vm.bp, TOP - 32);
    assert_eq!(vm.sp, TOP - 32);
    assert_eq!(vm.step(), None);
    assert_eq!(vm.a, 42);
    assert_eq!(vm.step(), None);
    assert_eq!(vm.pc, -1);
    assert_eq!(vm.bp, TOP);
    assert_eq!(vm.sp, TOP - 16);
    assert_eq!(vm.cycle, 3);
    assert_eq!(vm.step(), Some(Stop::Exit(42)));
    assert_eq!(vm.cycle, 3);
    assert_eq!(vm.run(10), Stop::Exit(42));
    assert_eq!(execute(program(&[ENT, 0, IMM, 42, LEV], &[]), &Vec::new(), 4), Ok(42));
    assert_eq!(
        execute(program(&[ENT, 0, IMM, 42, LEV], &[]), &Vec::new(), 3),
        Err(RuntimeError { pc: -1, kind: RuntimeErrorKind::CycleLimit })
    );
    // the status is the low 32 bits
    assert_eq!(execute(program(&[ENT, 0, IMM, (1 << 32) + 5, LEV], &[]), &Vec::new(), 10), Ok(5));
    assert_eq!(execute(program(&[ENT, 0, IMM, -1, LEV], &[]), &Vec::new(), 10), Ok(-1));
    // without a frame of its own, main has nothing to return through
    assert_eq!(
        execute(program(&[IMM, 1, LEV], &[]), &Vec::new(), 10),
        Err(RuntimeError { pc: 3, kind: RuntimeErrorKind::OutOfBounds })
    );
}

#[test]
fn arithmetic_wraps() {
    assert_eq!(binary(OpCode::ADD, 2, 3), 5);
    assert_eq!(binary(OpCode::ADD, i64::MAX, 1), i64::MIN);
    assert_eq!(binary(OpCode::SUB, 2, 3), -1);
    assert_eq!(binary(OpCode::SUB, i64::MIN, 1), i64::MAX);
    assert_eq!(binary(OpCode::MUL, -4, 3), -12);
    assert_eq!(binary(OpCode::MUL, i64::MAX, 2), -2);
}

#[test]
fn division_truncates_toward_zero() {
    assert_eq!(binary(OpCode::DIV, 7, 2), 3);
    assert_eq!(binary(OpCode::DIV, -7, 2), -3);
    assert_eq!(binary(OpCode::DIV, 7, -2), -3);
    assert_eq!(binary(OpCode::DIV, -7, -2), 3);
    assert_eq!(binary(OpCode::DIV, 0, 5), 0);
    assert_eq!(binary(OpCode::DIV, i64::MIN, -1), i64::MIN);
    assert_eq!(binary(OpCode::MOD, 7, 3), 1);
    assert_eq!(binary(OpCode::MOD, -7, 3), -1);
    assert_eq!(binary(OpCode::MOD, 7, -3), 1);
    assert_eq!(binary(OpCode::MOD, -7, -3), -1);
    assert_eq!(binary(OpCode::MOD, i64::MIN, -1), 0);
}

#[test]
fn division_by_zero_is_a_fault_that_leaves_the_machine_alone() {
    for op in [DIV, MOD] {
        let mut vm = machine(&[IMM, 7, PSH, IMM, 0, op]);
        assert_eq!(vm.run(10), fault(6, RuntimeErrorKind::DivisionByZero));
        assert_eq!(vm.pc, 6);
        assert_eq!(vm.a, 0);
        assert_eq!(vm.sp, TOP - 32);
        assert_eq!(vm.cycle, 3);
        assert_eq!(vm.stack(0), Some(7));
        assert_eq!(vm.step(), Some(fault(6, RuntimeErrorKind::DivisionByZero)));
    }
    assert_eq!(compute(OpCode::DIV, 1, 0), None);
    assert_eq!(compute(OpCode::MOD, 1, 0), None);
    assert_eq!(
        RuntimeError { pc: 6, kind: RuntimeErrorKind::DivisionByZero }.message(),
        "division by zero"
    );
}

#[test]
fn bit_operations_and_shifts() {
    assert_eq!(binary(OpCode::OR, 6, 3), 7);
    assert_eq!(binary(OpCode::XOR, 6, 3), 5);
    assert_eq!(binary(OpCode::AND, 6, 3), 2);
    assert_eq!(binary(OpCode::XOR, 5, -1), -6);
    assert_eq!(binary(OpCode::SHL, 1, 4), 16);
    assert_eq!(binary(OpCode::SHL, 1, 63), i64::MIN);
    assert_eq!(binary(OpCode::SHL, 1, 64), 1);
    assert_eq!(binary(OpCode::SHR, 16, 2), 4);
    assert_eq!(binary(OpCode::SHR, -16, 2), -4);
    assert_eq!(binary(OpCode::SHR, -1, 65), -1);
}

#[test]
fn comparisons_give_one_or_zero() {
    assert_eq!(binary(OpCode::EQ, 3, 3), 1);
    assert_eq!(binary(OpCode::EQ, 3, 4), 0);
    assert_eq!(binary(OpCode::NE, 3, 4), 1);
    assert_eq!(binary(OpCode::NE, 3, 3), 0);
    assert_eq!(binary(OpCode::LT, 2, 3), 1);
    assert_eq!(binary(OpCode::LT, 3, 3), 0);
    assert_eq!(binary(OpCode::LT, -1, 0), 1);
    assert_eq!(binary(OpCode::GT, 3, 2), 1);
    assert_eq!(binary(OpCode::GT, 2, 3), 0);
    assert_eq!(binary(OpCode::LE, 3, 3), 1);
    assert_eq!(binary(OpCode::LE, 4, 3), 0);
    assert_eq!(binary(OpCode::GE, 3, 3), 1);
    assert_eq!(binary(OpCode::GE, 2, 3), 0);
    // an instruction that is no binary operation computes nothing
    assert_eq!(compute(OpCode::PSH, 1, 2), None);
}

#[test]
fn jumps_and_branches() {
    // 1: IMM 0  3: BZ 7  5: IMM 9  7: BNZ 1  9: IMM 5  11: BNZ 15  13: IMM 6  15: JMP 19 ..19: LEV
    let code = [IMM, 0, BZ, 7, IMM, 9, BNZ, 1, IMM, 5, BNZ, 15, IMM, 6, JMP, 19, 99, 99, LEV];
    let mut vm = machine(&code);
    assert_eq!(vm.step(), None);
    assert_eq!(vm.step(), None);
    assert_eq!(vm.pc, 7);
    assert_eq!(vm.step(), None);
    assert_eq!(vm.pc, 9);
    assert_eq!(vm.step(), None);
    assert_eq!(vm.step(), None);
    assert_eq!(vm.pc, 15);
    assert_eq!(vm.step(), None);
    assert_eq!(vm.pc, 19);
    assert_eq!(vm.a, 5);
    let mut vm = machine(&[ENT, 0, IMM, 1, BZ, 11, IMM, 4, LEV]);
    assert_eq!(vm.run(10), Stop::Exit(4));
}

#[test]
fn call_frames() {
    // 1: ENT 0  3: IMM 5  5: PSH  6: JSR 12  8: ADJ 1  10: LEV  11: (filler)
    // 12: ENT 2  14: LEA 2  16: LI  17: LEV
    let code = [ENT, 0, IMM, 5, PSH, JSR, 12, ADJ, 1, LEV, 0, ENT, 2, LEA, 2, LI, LEV];
    let mut vm = machine(&code);
    assert_eq!(vm.run(4), fault(12, RuntimeErrorKind::CycleLimit));
    // the argument, then the return address
    assert_eq!(vm.bp, TOP - 32);
    assert_eq!(vm.sp, TOP - 48);
    assert_eq!(vm.stack(0), Some(8));
    assert_eq!(vm.stack(1), Some(5));
    assert_eq!(vm.step(), None);
    // ENT 2: the old frame pointer is saved, two words are reserved
    assert_eq!(vm.bp, TOP - 56);
    assert_eq!(vm.sp, TOP - 72);
    assert_eq!(vm.load(vm.bp), Some(TOP - 32));
    assert_eq!(vm.step(), None);
    assert_eq!(vm.a, TOP - 40);
    assert_eq!(vm.step(), None);
    assert_eq!(vm.a, 5);
    assert_eq!(vm.step(), None);
    // LEV: back in the caller, the argument still on the stack
    assert_eq!(vm.pc, 8);
    assert_eq!(vm.bp, TOP - 32);
    assert_eq!(vm.sp, TOP - 40);
    assert_eq!(vm.step(), None);
    assert_eq!(vm.sp, TOP - 32);
    assert_eq!(vm.run(5), Stop::Exit(5));
    assert_eq!(vm.cycle, 10);
}

#[test]
fn words_are_little_endian_and_bytes_address_the_same_memory() {
    // IMM HEAP; PSH; IMM v; SI; IMM HEAP; LI
    let v = 0x0102_0304_0506_0708;
    let mut vm = machine(&[IMM, HEAP, PSH, IMM, v, SI, IMM, HEAP + 1, LC, IMM, HEAP, LI]);
    assert_eq!(vm.run(4), fault(7, RuntimeErrorKind::CycleLimit));
    assert_eq!(vm.sp, TOP - 24);
    assert_eq!(vm.memory[HEAP as usize..HEAP as usize + 8], [8, 7, 6, 5, 4, 3, 2, 1]);
    assert_eq!(vm.run(2), fault(10, RuntimeErrorKind::CycleLimit));
    assert_eq!(vm.a, 7);
    assert_eq!(vm.run(2), fault(13, RuntimeErrorKind::CycleLimit));
    assert_eq!(vm.a, v);
    assert_eq!(vm.load(HEAP), Some(v));
    assert_eq!(vm.load_byte(HEAP + 7), Some(1));
    // a negative word comes back as it was
    assert!(vm.store(HEAP + 8, -2));
    assert_eq!(vm.load(HEAP + 8), Some(-2));
    assert_eq!(vm.load_byte(HEAP + 8), Some(254));
}

#[test]
fn storing_a_byte_keeps_its_low_eight_bits() {
    let mut vm = machine(&[IMM, HEAP, PSH, IMM, 0x1234, SC]);
    assert_eq!(vm.run(4), fault(7, RuntimeErrorKind::CycleLimit));
    assert_eq!(vm.a, 0x34);
    assert_eq!(vm.memory[HEAP as usize], 0x34);
    assert_eq!(vm.memory[HEAP as usize + 1], 0);
    assert_eq!(vm.sp, TOP - 24);
}

#[test]
fn accesses_outside_the_memory_are_faults() {
    let out = RuntimeErrorKind::OutOfBounds;
    assert_eq!(machine(&[IMM, -1, LI]).run(9), fault(3, out));
    assert_eq!(machine(&[IMM, TOP - 7, LI]).run(9), fault(3, out));
    assert_eq!(machine(&[IMM, TOP, LC]).run(9), fault(3, out));
    assert_eq!(machine(&[IMM, -8, PSH, SI]).run(9), fault(4, out));
    assert_eq!(machine(&[IMM, TOP, PSH, SC]).run(9), fault(4, out));
    assert_eq!(machine(&[ADJ, 3, ADD]).run(9), fault(3, out));
    assert_eq!(machine(&[ADJ, 3, SI]).run(9), fault(3, out));
    assert_eq!(machine(&[ADJ, -0x2_0000 + 3, PSH]).run(9), fault(3, out));
    assert_eq!(machine(&[ADJ, -0x2_0000 + 3, JSR, 1]).run(9), fault(3, out));
    assert_eq!(machine(&[ADJ, -0x2_0000 + 3, ENT, 1]).run(9), fault(3, out));
    let mut vm = machine(&[LEV]);
    vm.bp = TOP - 8;
    assert_eq!(vm.step(), Some(fault(1, out)));
    assert_eq!(vm.sp, TOP - 24);
    assert_eq!(vm.load(TOP - 7), None);
    assert_eq!(vm.load(TOP - 8), Some(0));
    assert!(!vm.store(TOP - 7, 1));
    assert!(!vm.store_byte(-1, 1));
    assert!(vm.store_byte(TOP - 1, 1));
    assert!(!vm.push(0) || vm.sp == TOP - 32);
}

#[test]
fn bad_code_is_a_fault() {
    assert_eq!(machine(&[99]).run(9), fault(1, RuntimeErrorKind::InvalidOpcode));
    assert_eq!(machine(&[-1]).run(9), fault(1, RuntimeErrorKind::InvalidOpcode));
    assert_eq!(machine(&[39]).run(9), fault(1, RuntimeErrorKind::InvalidOpcode));
    // an operand is missing
    assert_eq!(machine(&[IMM]).run(9), fault(1, RuntimeErrorKind::BadProgramCounter));
    // the code ends
    assert_eq!(machine(&[IMM, 1]).run(9), fault(3, RuntimeErrorKind::BadProgramCounter));
    assert_eq!(machine(&[JMP, 1000]).run(9), fault(1000, RuntimeErrorKind::BadProgramCounter));
    assert_eq!(machine(&[JMP, -2]).run(9), fault(-2, RuntimeErrorKind::BadProgramCounter));
    // word 0 is the filler, which reads as LEA without operand checks failing
    let mut vm = machine(&[JMP, 0]);
    assert_eq!(vm.step(), None);
    assert_eq!(vm.step(), None);
    assert_eq!(vm.pc, 2);
    assert_eq!(RuntimeErrorKind::InvalidOpcode.message(), "invalid opcode");
}

#[test]
fn exit_stops_with_the_argument_on_top_of_the_stack() {
    assert_eq!(machine(&[IMM, 5, PSH, EXIT]).run(9), Stop::Exit(5));
    assert_eq!(machine(&[IMM, -3, PSH, EXIT]).run(9), Stop::Exit(-3));
    assert_eq!(execute(program(&[IMM, 7, PSH, EXIT, ADJ, 1], &[]), &Vec::new(), 9), Ok(7));
    assert_eq!(machine(&[ADJ, 3, EXIT]).run(9), fault(3, RuntimeErrorKind::OutOfBounds));
}

#[test]
fn malloc_hands_out_the_heap_in_multiples_of_a_word() {
    let mut vm = machine(&[IMM, 10, PSH, MALC, IMM, 1, PSH, MALC, IMM, 0, PSH, MALC, FREE]);
    assert_eq!(vm.run(3), fault(5, RuntimeErrorKind::CycleLimit));
    assert_eq!(vm.a, HEAP);
    assert_eq!(vm.heap, HEAP + 16);
    assert_eq!(vm.run(3), fault(9, RuntimeErrorKind::CycleLimit));
    assert_eq!(vm.a, HEAP + 16);
    assert_eq!(vm.heap, HEAP + 24);
    assert_eq!(vm.run(3), fault(13, RuntimeErrorKind::CycleLimit));
    assert_eq!(vm.a, HEAP + 24);
    assert_eq!(vm.heap, HEAP + 24);
    // free does nothing
    assert_eq!(vm.step(), None);
    assert_eq!(vm.a, HEAP + 24);
    assert_eq!(vm.heap, HEAP + 24);
    assert_eq!(vm.sp, TOP - 48);
}

#[test]
fn malloc_gives_zero_when_it_cannot_serve() {
    let room = 0xC_0000 - HEAP;
    let mut vm = machine(&[IMM, -1, PSH, MALC, IMM, room + 1, PSH, MALC, IMM, room, PSH, MALC, IMM, 1, PSH, MALC]);
    assert_eq!(vm.run(3), fault(5, RuntimeErrorKind::CycleLimit));
    assert_eq!(vm.a, 0);
    assert_eq!(vm.run(3), fault(9, RuntimeErrorKind::CycleLimit));
    assert_eq!(vm.a, 0);
    assert_eq!(vm.heap, HEAP);
    assert_eq!(vm.run(3), fault(13, RuntimeErrorKind::CycleLimit));
    assert_eq!(vm.a, HEAP);
    assert_eq!(vm.heap, 0xC_0000);
    assert_eq!(vm.run(3), fault(17, RuntimeErrorKind::CycleLimit));
    assert_eq!(vm.a, 0);
}

#[test]
fn memset_fills_and_returns_the_address() {
    let mut vm = machine(&[IMM, HEAP + 1, PSH, IMM, 0x141, PSH, IMM, 3, PSH, MSET]);
    assert_eq!(vm.run(7), fault(11, RuntimeErrorKind::CycleLimit));
    assert_eq!(vm.a, HEAP + 1);
    assert_eq!(vm.memory[HEAP as usize..HEAP as usize + 5], [0, 0x41, 0x41, 0x41, 0]);
    assert_eq!(vm.sp, TOP - 48);
    let out = RuntimeErrorKind::OutOfBounds;
    assert_eq!(machine(&[IMM, TOP - 2, PSH, IMM, 1, PSH, IMM, 3, PSH, MSET]).run(9), fault(10, out));
    assert_eq!(machine(&[IMM, HEAP, PSH, IMM, 1, PSH, IMM, -1, PSH, MSET]).run(9), fault(10, out));
    assert_eq!(machine(&[IMM, -1, PSH, IMM, 1, PSH, IMM, 0, PSH, MSET]).run(9), fault(10, out));
    // nothing to fill at the very end is fine
    let mut vm = machine(&[IMM, TOP, PSH, IMM, 1, PSH, IMM, 0, PSH, MSET]);
    assert_eq!(vm.run(7), fault(11, RuntimeErrorKind::CycleLimit));
    assert_eq!(vm.a, TOP);
}

#[test]
fn memcmp_gives_the_first_difference() {
    let data = b"abcd\0\0\0\0abzd\0\0\0\0";
    let compare = |p: i64, q: i64, n: i64| {
        let mut vm = Vm::new(program(&[IMM, p, PSH, IMM, q, PSH, IMM, n, PSH, MCMP], data), 0, 0).unwrap();
        let stop = vm.run(7);
        (stop, vm.a)
    };
    let limit = fault(11, RuntimeErrorKind::CycleLimit);
    assert_eq!(compare(0, 8, 2), (limit, 0));
    assert_eq!(compare(0, 8, 3), (limit, 99 - 122));
    assert_eq!(compare(8, 0, 4), (limit, 122 - 99));
    assert_eq!(compare(0, 8, 0), (limit, 0));
    assert_eq!(compare(3, 11, 5), (limit, 0));
    assert_eq!(compare(0, 1, 1), (limit, -1));
    let out = fault(10, RuntimeErrorKind::OutOfBounds);
    assert_eq!(compare(0, TOP - 1, 2).0, out);
    assert_eq!(compare(-1, 0, 1).0, out);
    assert_eq!(compare(0, 0, -1).0, out);
}

#[test]
fn open_read_and_close_wait_for_the_host() {
    let code = [
        IMM, 64, PSH, IMM, 2, PSH, OPEN, ADJ, 2, // 1: open(64, 2)
        PSH, IMM, HEAP, PSH, IMM, 5, PSH, READ, ADJ, 3, // 10: read(fd, HEAP, 5)
        PSH, CLOS, ADJ, 1, // 20: close(n)
        PSH, EXIT, // 24
    ];
    let mut vm = Vm::new(program(&code, b"file.c\0"), 0, 0).unwrap();
    assert_eq!(vm.run(100), Stop::Host(HostCall::Open { path: 64, flags: 2 }));
    assert_eq!(vm.pc, 8);
    assert_eq!(vm.cycle, 5);
    assert_eq!(vm.read_string(0), Some(b"file.c".to_vec()));
    vm.resume(3);
    assert_eq!(vm.a, 3);
    assert_eq!(vm.run(100), Stop::Host(HostCall::Read { fd: 3, buffer: HEAP, count: 5 }));
    assert!(vm.write_memory(HEAP, b"hello"));
    vm.resume(5);
    assert_eq!(vm.read_string(HEAP), Some(b"hello".to_vec()));
    assert_eq!(vm.run(100), Stop::Host(HostCall::Close { fd: 5 }));
    vm.resume(0);
    assert_eq!(vm.run(100), Stop::Exit(0));
}

#[test]
fn printf_hands_over_the_format_and_up_to_five_arguments() {
    let code = [IMM, 8, PSH, IMM, 11, PSH, IMM, 22, PSH, PRTF, ADJ, 3, PSH, EXIT];
    let mut vm = machine(&code);
    assert_eq!(
        vm.run(100),
        Stop::Host(HostCall::Printf { count: 3, format: 8, arg1: 11, arg2: 22, arg3: 0, arg4: 0, arg5: 0 })
    );
    vm.resume(4);
    assert_eq!(vm.run(100), Stop::Exit(4));
    let code = [IMM, 1, PSH, IMM, 2, PSH, IMM, 3, PSH, IMM, 4, PSH, IMM, 5, PSH, IMM, 6, PSH, IMM, 7, PSH, PRTF, ADJ, 7];
    assert_eq!(
        machine(&code).run(100),
        Stop::Host(HostCall::Printf { count: 7, format: 1, arg1: 2, arg2: 3, arg3: 4, arg4: 5, arg5: 6 })
    );
    // without an ADJ behind it nothing was pushed
    assert_eq!(
        machine(&[IMM, 8, PSH, PRTF, LEV]).run(100),
        Stop::Host(HostCall::Printf { count: 0, format: 0, arg1: 0, arg2: 0, arg3: 0, arg4: 0, arg5: 0 })
    );
    assert_eq!(machine(&[PRTF, ADJ, 4]).run(100), fault(1, RuntimeErrorKind::OutOfBounds));
}

#[test]
fn without_a_host_a_host_call_is_a_fault_at_the_call() {
    let code = [IMM, 8, PSH, PRTF, ADJ, 1, LEV];
    assert_eq!(
        execute(program(&code, &[]), &Vec::new(), 100),
        Err(RuntimeError { pc: 4, kind: RuntimeErrorKind::UnresolvedSyscall })
    );
    assert_eq!(
        execute(program(&[CLOS], &[]), &Vec::new(), 100),
        Err(RuntimeError { pc: 1, kind: RuntimeErrorKind::UnresolvedSyscall })
    );
}

#[test]
fn strings_end_at_the_first_zero_byte() {
    let vm = Vm::new(program(&[LEV], b"ab\0cd"), 0, 0).unwrap();
    assert_eq!(vm.read_string(0), Some(b"ab".to_vec()));
    assert_eq!(vm.read_string(1), Some(b"b".to_vec()));
    assert_eq!(vm.read_string(2), Some(Vec::new()));
    assert_eq!(vm.read_string(3), Some(b"cd".to_vec()));
    assert_eq!(vm.read_string(-1), None);
    assert_eq!(vm.read_string(TOP), None);
    let mut vm = vm;
    assert!(vm.write_memory(TOP - 2, b"xy"));
    assert_eq!(vm.read_string(TOP - 2), None);
    assert!(!vm.write_memory(TOP - 1, b"xy"));
    assert!(!vm.write_memory(-1, b""));
    assert!(vm.write_memory(TOP, b""));
}

#[test]
fn replay_answers_the_host_calls_in_turn() {
    let code = [
        IMM, 64, PSH, IMM, 2, PSH, OPEN, ADJ, 2, // 1: open(64, 2)
        PSH, CLOS, ADJ, 1, // 10: close(fd)
        PSH, EXIT, // 14
    ];
    let mut vm = machine(&code);
    let (stop, calls) = vm.replay(100, &vec![3, 7]);
    assert_eq!(stop, Stop::Exit(7));
    assert_eq!(calls, vec![HostCall::Open { path: 64, flags: 2 }, HostCall::Close { fd: 3 }]);
    // the exit itself is not counted
    assert_eq!(vm.cycle, 10);
    // the results run out: the machine waits at the call that got none
    let mut vm = machine(&code);
    let (stop, calls) = vm.replay(100, &vec![3]);
    assert_eq!(stop, Stop::Host(HostCall::Close { fd: 3 }));
    assert_eq!(calls, vec![HostCall::Open { path: 64, flags: 2 }, HostCall::Close { fd: 3 }]);
    assert_eq!(vm.pc, 12);
    let mut vm = machine(&code);
    let (stop, calls) = vm.replay(100, &vec![]);
    assert_eq!(stop, Stop::Host(HostCall::Open { path: 64, flags: 2 }));
    assert_eq!(calls.len(), 1);
    // the budget counts the calls too
    let mut vm = machine(&code);
    let (stop, calls) = vm.replay(7, &vec![3, 7]);
    assert_eq!(stop, fault(11, RuntimeErrorKind::CycleLimit));
    assert_eq!(calls, vec![HostCall::Open { path: 64, flags: 2 }]);
    let mut vm = machine(&code);
    let (stop, calls) = vm.replay(8, &vec![3, 7]);
    assert_eq!(stop, fault(12, RuntimeErrorKind::CycleLimit));
    assert_eq!(calls.len(), 2);
    assert_eq!(vm.a, 7);
    // results that no call asks for are left over
    let mut vm = machine(&[ENT, 0, IMM, 9, LEV]);
    assert_eq!(vm.replay(100, &vec![1, 2, 3]), (Stop::Exit(9), vec![]));
}

#[test]
fn two_replays_with_the_same_results_agree() {
    let code = [
        IMM, 0, PSH, IMM, 5, PSH, PRTF, ADJ, 2, PSH, // 1: printf(0, 5), result pushed
        IMM, HEAP, PSH, IMM, 4, PSH, READ, ADJ, 2, // 11: read(.., HEAP, 4)
        ADD, PSH, EXIT, // 20: status = printf result + read result
    ];
    let one = program(&code, b"%d\0");
    let two = one.clone();
    let mut a = Vm::new(one, 0, 0).unwrap();
    let mut b = Vm::new(two, 0, 0).unwrap();
    let first = a.replay(1000, &vec![10, 20]);
    let second = b.replay(1000, &vec![10, 20]);
    assert_eq!(first, second);
    assert_eq!(first.0, Stop::Exit(30));
    assert_eq!(first.1.len(), 2);
    assert_eq!(a.memory, b.memory);
    assert_eq!((a.pc, a.sp, a.bp, a.a, a.heap, a.cycle), (b.pc, b.sp, b.bp, b.a, b.heap, b.cycle));
    // other results, another outcome
    let mut c = Vm::new(program(&code, b"%d\0"), 0, 0).unwrap();
    assert_eq!(c.replay(1000, &vec![1, 2]).0, Stop::Exit(3));
}

#[test]
fn two_runs_of_one_program_agree() {
    let code = [IMM, 3, PSH, IMM, 4, ADD, PSH, IMM, HEAP, SC, PRTF, ADJ, 0, LEV];
    let one = program(&code, b"x");
    let two = one.clone();
    let mut a = Vm::new(one, 1, 0).unwrap();
    let mut b = Vm::new(two, 1, 0).unwrap();
    loop {
        let x = a.step();
        let y = b.step();
        assert_eq!(x, y);
        assert_eq!((a.pc, a.sp, a.bp, a.a, a.cycle), (b.pc, b.sp, b.bp, b.a, b.cycle));
        match x {
            Some(Stop::Host(_)) => {
                a.resume(9);
                b.resume(9);
            }
            Some(_) => break,
            None => {}
        }
    }
    assert_eq!(a.memory, b.memory);
    let _ = (LEA, LC, BNZ);
}
