//! Laws of the machine: what is stored is loaded back, and a call returns
//! to its caller.

use crate::opcode::OpCode;
use crate::program::ProgramView;
use crate::vm_spec::{HALT, MEMORY_SIZE, Machine, Stop, in_bounds, read_word, write_word};
use vstd::bytes::*;
use vstd::prelude::*;

verus! {

/// A word survives the way through the unsigned words.
pub proof fn lemma_word_round_trip(v: i64)
    ensures
        ((v as u64) as i64) == v,
{
    assert(((v as u64) as i64) == v) by (bit_vector);
}

/// What is stored is loaded back: a word written at an address within the
/// memory is the word read there, and the memory keeps its size.
pub proof fn law_load_after_store(mem: Seq<u8>, at: i64, v: i64)
    requires
        in_bounds(mem, at, 8),
    ensures
        write_word(mem, at, v).len() == mem.len(),
        read_word(write_word(mem, at, v), at) == v,
{
    lemma_auto_spec_u64_to_from_le_bytes();
    lemma_word_round_trip(v);
    let bytes = spec_u64_to_le_bytes(v as u64);
    assert(write_word(mem, at, v).subrange(at as int, at + 8) =~= bytes);
}

/// A store leaves the rest of the memory alone: a word that does not
/// overlap the one written reads as before.
pub proof fn law_load_beside_store(mem: Seq<u8>, at: i64, v: i64, other: i64)
    requires
        in_bounds(mem, at, 8),
        in_bounds(mem, other, 8),
        other + 8 <= at || at + 8 <= other,
    ensures
        read_word(write_word(mem, at, v), other) == read_word(mem, other),
{
    lemma_auto_spec_u64_to_from_le_bytes();
    assert(write_word(mem, at, v).subrange(other as int, other + 8) =~= mem.subrange(
        other as int,
        other + 8,
    ));
}

/// A call returns to its caller. Where the machine is at a `JSR` to a
/// function that is nothing but `ENT n` and `LEV`, and the stack has room
/// for two words, three steps later it is at the instruction behind the
/// `JSR` with the stack pointer, the frame pointer and the accumulator it
/// had before the call.
pub proof fn law_call_returns(m: Machine, target: i64, n: i64)
    requires
        m.wf(),
        0 <= m.pc,
        m.pc + 1 < m.code.len(),
        m.code[m.pc as int] == OpCode::JSR.spec_code(),
        m.code[m.pc + 1] == target,
        0 <= target,
        target + 2 < m.code.len(),
        m.code[target as int] == OpCode::ENT.spec_code(),
        m.code[target + 1] == n,
        m.code[target + 2] == OpCode::LEV.spec_code(),
        16 <= m.sp <= MEMORY_SIZE,
    ensures
        m.step().1 is None,
        m.step().0.step().1 is None,
        m.step().0.step().0.step().1 is None,
        m.step().0.step().0.step().0.pc == m.pc + 2,
        m.step().0.step().0.step().0.sp == m.sp,
        m.step().0.step().0.step().0.bp == m.bp,
        m.step().0.step().0.step().0.a == m.a,
        m.step().0.step().0.step().0.code == m.code,
{
    let back = (m.pc + 2) as i64;
    let sp1 = (m.sp - 8) as i64;
    let sp2 = (m.sp - 16) as i64;
    assert(m.sp.wrapping_sub(8) == sp1);
    law_load_after_store(m.memory, sp1, back);
    let m1 = m.step().0;
    assert(m.push(back) is Some);
    assert(m1.pc == target && m1.sp == sp1 && m1.bp == m.bp);
    assert(m1.memory == write_word(m.memory, sp1, back));
    assert(sp1.wrapping_sub(8) == sp2);
    law_load_after_store(m1.memory, sp2, m.bp);
    law_load_beside_store(m1.memory, sp2, m.bp, sp1);
    let m2 = m1.step().0;
    assert(m1.push(m.bp) is Some);
    assert(m2.bp == sp2 && m2.pc == target + 2);
    assert(m2.memory == write_word(m1.memory, sp2, m.bp));
    assert(sp2.wrapping_add(8) == sp1);
    assert(sp2.wrapping_add(16) == m.sp);
    assert(m2.load(sp2) == Some(m.bp));
    assert(m2.load(sp1) == Some(back));
}

/// A `main` that returns a number exits with it. Where the code at the
/// entry of a program is `ENT k`, `IMM n`, `LEV`, the machine that was
/// booted with the program stops within four instructions, with the low 32
/// bits of `n` as its exit status.
pub proof fn law_main_returns(program: ProgramView, argc: i64, argv: i64, k: i64, n: i64)
    requires
        program.wf(),
        0 <= program.entry,
        program.entry + 4 < program.code.len(),
        program.code[program.entry as int] == OpCode::ENT.spec_code(),
        program.code[program.entry + 1] == k,
        program.code[program.entry + 2] == OpCode::IMM.spec_code(),
        program.code[program.entry + 3] == n,
        program.code[program.entry + 4] == OpCode::LEV.spec_code(),
    ensures
        Machine::boot(program, argc, argv).run(4).1 == Stop::Exit(n as i32),
{
    let top = MEMORY_SIZE as i64;
    let blank = Machine::blank(program);
    let w1 = write_word(blank.memory, (top - 8) as i64, argc);
    law_load_after_store(blank.memory, (top - 8) as i64, argc);
    let w2 = write_word(w1, (top - 16) as i64, argv);
    law_load_after_store(w1, (top - 16) as i64, argv);
    let w3 = write_word(w2, (top - 24) as i64, HALT);
    law_load_after_store(w2, (top - 24) as i64, HALT);
    let m = Machine::boot(program, argc, argv);
    assert(m.memory == w3);
    let sp1 = (top - 32) as i64;
    assert(m.sp.wrapping_sub(8) == sp1);
    law_load_after_store(m.memory, sp1, m.bp);
    law_load_beside_store(m.memory, sp1, m.bp, (top - 24) as i64);
    assert(m.push(m.bp) is Some);
    let m1 = m.step().0;
    assert(m.step().1 is None);
    assert(m1.bp == sp1 && m1.pc == program.entry + 2);
    assert(m1.memory == write_word(m.memory, sp1, m.bp));
    let m2 = m1.step().0;
    assert(m1.step().1 is None);
    assert(m2.a == n && m2.bp == sp1 && m2.memory == m1.memory && m2.pc == program.entry + 4);
    assert(sp1.wrapping_add(8) == top - 24);
    assert(m2.load(sp1) == Some(m.bp));
    assert(m2.load((top - 24) as i64) == Some(HALT));
    let m3 = m2.step().0;
    assert(m2.step().1 is None);
    assert(m3.pc == HALT && m3.a == n);
    assert(m3.step().1 == Some(Stop::Exit(n as i32)));
    assert(m3.run(1).1 == Stop::Exit(n as i32));
    assert(m2.run(2) == m3.run(1));
    assert(m1.run(3) == m2.run(2));
    assert(m.run(4) == m1.run(3));
}

} // verus!
