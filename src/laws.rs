//! Properties of the instruction set that relate several operations or hold
//! of every state.

use crate::bits::{immediate_mode, sign_extended};
use crate::isa::{
    branch_taken, condition_code, current_instruction, exception_result, execute_result, fetched,
    field_dr, field_sr1, field_sr2, interrupt_result, offset, opcode, pc_relative, priority_level,
    push_context, rti_result, step, user_mode, vector_address, with_condition, MachineState,
};
use crate::memory::{DSR, KBDR, KBSR};
use vstd::arithmetic::div_mod::{
    lemma_add_mod_noop, lemma_mod_add_multiples_vanish, lemma_mod_bound,
    lemma_mod_sub_multiples_vanish, lemma_small_mod,
};
use vstd::arithmetic::power2::{lemma_pow2_pos, lemma_pow2_unfold, pow2};
use vstd::prelude::*;

verus! {

/// Sign extension is idempotent: extending an already extended value at the
/// same width changes nothing. The result lies in the signed range of `n`
/// bits and agrees with the input in its low `n` bits.
pub proof fn lemma_sign_extend_idempotent(v: int, n: nat)
    requires
        1 <= n <= 16,
    ensures
        sign_extended(sign_extended(v, n), n) == sign_extended(v, n),
        -(pow2((n - 1) as nat) as int) <= sign_extended(v, n) < pow2((n - 1) as nat),
        sign_extended(v, n) % (pow2(n) as int) == v % (pow2(n) as int),
{
    let p = pow2(n) as int;
    lemma_pow2_pos(n);
    lemma_pow2_unfold(n);
    let f = v % p;
    lemma_mod_bound(v, p);
    lemma_small_mod(f as nat, p as nat);
    lemma_mod_sub_multiples_vanish(f, p);
}

/// Writing a result leaves exactly one of the condition bits N, Z, P set,
/// the one that matches the sign of the result, and keeps every other bit
/// of the status register.
pub proof fn lemma_condition_code_exclusive(psr: i16, v: i16)
    ensures
        with_condition(psr, v) & 7 == condition_code(v),
        condition_code(v) == 4 || condition_code(v) == 2 || condition_code(v) == 1,
        (with_condition(psr, v) & 4 != 0) == (v < 0),
        (with_condition(psr, v) & 2 != 0) == (v == 0),
        (with_condition(psr, v) & 1 != 0) == (v > 0),
        with_condition(psr, v) & !7i16 == psr & !7i16,
{
    let c = condition_code(v);
    assert(c == 4 || c == 2 || c == 1);
    assert(c == 4 || c == 2 || c == 1 ==> ((psr & !7i16) | c) & 7 == c && ((psr & !7i16) | c)
        & !7i16 == psr & !7i16) by (bit_vector);
    assert(((psr & !7i16) | 4) & 4 != 0 && ((psr & !7i16) | 4) & 2 == 0 && ((psr & !7i16) | 4) & 1
        == 0) by (bit_vector);
    assert(((psr & !7i16) | 2) & 4 == 0 && ((psr & !7i16) | 2) & 2 != 0 && ((psr & !7i16) | 2) & 1
        == 0) by (bit_vector);
    assert(((psr & !7i16) | 1) & 4 == 0 && ((psr & !7i16) | 1) & 2 == 0 && ((psr & !7i16) | 1) & 1
        != 0) by (bit_vector);
}

/// ADD and AND agree in immediate and register mode when the second source
/// register holds the value that the immediate field encodes.
pub proof fn lemma_immediate_matches_register(s: MachineState, imm: i16, reg: i16)
    requires
        opcode(imm as u16) == 1 || opcode(imm as u16) == 5,
        opcode(reg as u16) == opcode(imm as u16),
        field_dr(reg as u16) == field_dr(imm as u16),
        field_sr1(reg as u16) == field_sr1(imm as u16),
        immediate_mode(imm),
        !immediate_mode(reg),
        s.regs[field_sr2(reg as u16) as int] == offset(imm, 5),
    ensures
        execute_result(s, imm) == execute_result(s, reg),
{
}

/// Every instruction that produces a result (ADD, AND, NOT, LD, LDI, LDR,
/// LEA) leaves exactly one condition bit set, the one that matches the sign
/// of the value written to the destination register.
pub proof fn lemma_result_sets_one_condition(s: MachineState, i: i16)
    requires
        s.wf(),
        ({
            let op = opcode(i as u16);
            op == 1 || op == 5 || op == 9 || op == 2 || op == 10 || op == 6 || op == 14
        }),
    ensures
        ({
            let t = execute_result(s, i);
            let v = t.regs[field_dr(i as u16) as int];
            &&& t.psr & 7 == condition_code(v)
            &&& condition_code(v) == 4 || condition_code(v) == 2 || condition_code(v) == 1
        }),
{
    let w = i as u16;
    let t = execute_result(s, i);
    let v = t.regs[field_dr(w) as int];
    if opcode(w) == 9 {
        let a = s.regs[field_sr1(w) as int];
        assert(-0x8000 <= !a <= 0x7FFF) by (bit_vector);
    }
    assert(t.psr == with_condition(s.psr, v));
    lemma_condition_code_exclusive(s.psr, v);
}

/// The 16-bit two's-complement value congruent to `x` modulo 65536.
pub open spec fn wrap16(x: int) -> int {
    let m = x % 0x10000;
    if m >= 0x8000 {
        m - 0x10000
    } else {
        m
    }
}

/// Wrapping addition on 16-bit values is addition modulo 65536.
pub proof fn lemma_wrapping_add(a: i16, b: i16)
    ensures
        a.wrapping_add(b) as int == wrap16(a + b),
{
    let x = a + b;
    if x >= 0 {
        lemma_small_mod(x as nat, 0x10000);
    } else {
        lemma_mod_add_multiples_vanish(x, 0x10000);
        lemma_small_mod((x + 0x10000) as nat, 0x10000);
    }
}

/// `wrap16` depends on its argument modulo 65536 only.
pub proof fn lemma_wrap16_add(x: int, y: int)
    ensures
        wrap16(wrap16(x) + y) == wrap16(x + y),
{
    let m = 0x10000int;
    lemma_mod_bound(x, m);
    lemma_small_mod((x % m) as nat, m as nat);
    lemma_add_mod_noop(x, y, m);
    lemma_add_mod_noop(x % m, y, m);
    if x % m >= 0x8000 {
        lemma_mod_sub_multiples_vanish(x % m + y, m);
    }
}

/// `wrap16` keeps its argument modulo 65536.
proof fn lemma_wrap16_congruent(x: int)
    ensures
        wrap16(x) % 0x10000 == x % 0x10000,
{
    let m = 0x10000int;
    lemma_mod_bound(x, m);
    lemma_small_mod((x % m) as nat, m as nat);
    if x % m >= 0x8000 {
        lemma_mod_sub_multiples_vanish(x % m, m);
    }
}

/// A 16-bit value used as an address is that value modulo 65536.
proof fn lemma_address_of(y: i16)
    ensures
        (y as u16) as int == (y as int) % 0x10000,
{
    assert(y >= 0 ==> (y as u16) as i32 == y as i32) by (bit_vector);
    assert(y < 0 ==> (y as u16) as i32 == (y as i32) + 0x10000) by (bit_vector);
    if y >= 0 {
        lemma_small_mod(y as nat, 0x10000);
    } else {
        lemma_mod_add_multiples_vanish(y as int, 0x10000);
        lemma_small_mod((y + 0x10000) as nat, 0x10000);
    }
}

/// A step advances pc past the fetched word before the instruction uses it:
/// an instruction that does not jump leaves pc at the next word, and the
/// pc-relative forms (LEA, a taken BR, JSR with an offset) count their
/// offset from that next word, modulo 65536, as do the memory addresses of
/// LD, LDI, ST and STI.
pub proof fn lemma_step_advances_pc(s: MachineState)
    requires
        s.wf(),
        !s.halted,
    ensures
        ({
            let i = current_instruction(s);
            let op = opcode(i as u16);
            let t = step(s);
            &&& (op == 1 || op == 5 || op == 9 || op == 2 || op == 10 || op == 6 || op == 14 || op
                == 3 || op == 11 || op == 7) ==> t.pc as int == wrap16(s.pc + 1)
            &&& op == 14 ==> t.regs[field_dr(i as u16) as int] as int == wrap16(
                s.pc + 1 + offset(i, 9),
            )
            &&& op == 0 && branch_taken(s.psr, i as u16) ==> t.pc as int == wrap16(
                s.pc + 1 + offset(i, 9),
            )
            &&& op == 0 && !branch_taken(s.psr, i as u16) ==> t.pc as int == wrap16(s.pc + 1)
            &&& op == 4 && ((i as u16) / 2048) % 2 == 1 ==> t.pc as int == wrap16(
                s.pc + 1 + offset(i, 11),
            )
            &&& pc_relative(fetched(s), i) as int == (s.pc + 1 + offset(i, 9)) % 0x10000
        }),
{
    let i = current_instruction(s);
    let w = i as u16;
    let op = opcode(w);
    let f = fetched(s);
    lemma_wrapping_add(s.pc, 1);
    lemma_wrapping_add(f.pc, offset(i, 9));
    lemma_wrapping_add(f.pc, offset(i, 11));
    lemma_wrap16_add(s.pc + 1, offset(i, 9) as int);
    lemma_wrap16_add(s.pc + 1, offset(i, 11) as int);
    lemma_address_of(f.pc.wrapping_add(offset(i, 9)));
    lemma_wrap16_congruent(s.pc + 1 + offset(i, 9));
    if op == 9 {
        let a = f.regs[field_sr1(w) as int];
        assert(-0x8000 <= !a <= 0x7FFF) by (bit_vector);
    }
}

/// JSR, JSRR and TRAP leave the link register holding the address of the
/// next instruction, whatever the target.
pub proof fn lemma_link_register(s: MachineState)
    requires
        s.wf(),
        !s.halted,
        opcode(current_instruction(s) as u16) == 4 || opcode(current_instruction(s) as u16) == 15,
    ensures
        step(s).regs[7] == s.pc.wrapping_add(1),
        step(s).regs[7] as int == wrap16(s.pc + 1),
{
    lemma_wrapping_add(s.pc, 1);
}

/// Clearing bit 15 leaves supervisor mode.
proof fn lemma_supervisor_bit(p: i16)
    ensures
        !user_mode(p & 0x7FFF),
{
    assert(((p & 0x7FFF) as u16) / 32768 != 1) by (bit_vector);
}

/// RTI in user mode pops nothing: it raises the privilege exception, which
/// saves the user stack pointer, pushes onto the supervisor stack and
/// dispatches through the vector at 0x0100. In supervisor mode it pops pc,
/// then the status register, and switches back to the user stack pointer.
pub proof fn lemma_rti_privilege(s: MachineState)
    requires
        s.wf(),
        !s.halted,
        opcode(current_instruction(s) as u16) == 8,
    ensures
        ({
            let f = fetched(s);
            let t = step(s);
            user_mode(s.psr) ==> {
                &&& t == exception_result(f, 0)
                &&& t.saved_usp == s.regs[6]
                &&& t.regs[6] == s.saved_ssp.wrapping_sub(1).wrapping_sub(1)
                &&& t.pc == t.memory.cells[0x100]
                &&& !user_mode(t.psr)
            }
        }),
        ({
            let f = fetched(s);
            let t = step(s);
            let sp = s.regs[6];
            !user_mode(s.psr) ==> {
                &&& t.pc == f.memory.read_value(sp as u16)
                &&& t.psr == f.memory.after_read(sp as u16).read_value(sp.wrapping_add(1) as u16)
                &&& t.regs[6] == s.saved_usp
                &&& t.saved_ssp == sp.wrapping_add(1).wrapping_add(1)
            }
        }),
{
    lemma_supervisor_bit(s.psr);
}

/// A serviced interrupt raises the keyboard-ready latch, enters supervisor
/// mode at the requested priority, saves the user stack pointer and leaves
/// pc at the handler read from `0x0100 + code`; the data stays in the
/// keyboard data register unless the pushes of the context landed on it.
pub proof fn lemma_interrupt_delivers(s: MachineState, code: u8, priority: u8, data: i16)
    requires
        s.wf(),
    ensures
        ({
            let t = interrupt_result(s, code, priority, data);
            let sp1 = s.saved_ssp.wrapping_sub(1);
            let sp2 = sp1.wrapping_sub(1);
            &&& t.memory.keyboard_ready
            &&& t.pc == t.memory.cells[vector_address(code) as int]
            &&& priority_level(t.psr) == priority % 8
            &&& !user_mode(t.psr)
            &&& t.saved_usp == s.regs[6]
            &&& sp1 as u16 != KBDR && sp2 as u16 != KBDR ==> t.memory.cells[KBDR as int] == data
        }),
{
    let q = priority % 8;
    let t = push_context(s);
    let p = t.psr;
    assert(q < 8 ==> (((((p & 0x78FF) | ((q * 256) as i16)) as u16) / 256) % 8) as u8 == q
        && ((((p & 0x78FF) | ((q * 256) as i16)) as u16) / 32768) != 1) by (bit_vector);
}

/// Distinct 16-bit values stay distinct as addresses.
proof fn lemma_address_injective(x: i16, y: i16)
    ensures
        x != y ==> x as u16 != y as u16,
{
    assert(x != y ==> x as u16 != y as u16) by (bit_vector);
}

/// RTI undoes the context save of an exception or interrupt: once a handler
/// in supervisor mode returns with the stack as the save left it, pc, the
/// status register, the registers and the supervisor stack pointer are
/// those of before the save. The status register is pushed first and popped
/// last.
pub proof fn lemma_rti_restores_context(s: MachineState, psr: i16, pc: i16)
    requires
        s.wf(),
        !user_mode(psr),
        s.saved_ssp.wrapping_sub(1) as u16 != KBSR,
        s.saved_ssp.wrapping_sub(1) as u16 != DSR,
        s.saved_ssp.wrapping_sub(1).wrapping_sub(1) as u16 != KBSR,
        s.saved_ssp.wrapping_sub(1).wrapping_sub(1) as u16 != DSR,
    ensures
        ({
            let u = rti_result(MachineState { psr, pc, ..push_context(s) });
            &&& u.pc == s.pc
            &&& u.psr == s.psr
            &&& u.regs == s.regs
            &&& u.saved_ssp == s.saved_ssp
            &&& u.saved_usp == s.regs[6]
        }),
{
    let sp1 = s.saved_ssp.wrapping_sub(1);
    let sp2 = sp1.wrapping_sub(1);
    lemma_address_injective(sp1, sp2);
    let u = rti_result(MachineState { psr, pc, ..push_context(s) });
    assert(u.regs =~= s.regs);
}

} // verus!
