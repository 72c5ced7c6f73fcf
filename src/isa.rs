//! The instruction set as spec functions: the abstract machine state and what
//! one fetch-decode-execute step does to it.

use crate::bits::{immediate_mode, sign_extended};
use crate::memory::{MemoryState, KBDR};
use vstd::prelude::*;

verus! {

/// What one clock step reports to the host.
#[derive(Debug, Copy, Clone, PartialEq, Eq, Structural)]
pub enum LC3IO {
    Halt,
    Display(i16),
    Idle,
}

/// The abstract state of the processor: control and status registers, the
/// eight general registers (index 6 is the live stack pointer, index 7 the
/// link register) and memory.
#[verifier::ext_equal]
pub struct MachineState {
    pub halted: bool,
    pub ie: u8,
    pub pc: i16,
    pub psr: i16,
    pub saved_usp: i16,
    pub saved_ssp: i16,
    pub regs: Seq<i16>,
    pub memory: MemoryState,
}

/// Bits 15..12: the opcode.
pub open spec fn opcode(w: u16) -> u16 {
    w / 4096
}

/// Bits 11..9: the destination register, or the source register of a store.
pub open spec fn field_dr(w: u16) -> u16 {
    (w / 512) % 8
}

/// Bits 8..6: the first source register, or the base register.
pub open spec fn field_sr1(w: u16) -> u16 {
    (w / 64) % 8
}

/// Bits 2..0: the second source register.
pub open spec fn field_sr2(w: u16) -> u16 {
    w % 8
}

/// The low `n` bits of an instruction, sign-extended: an immediate or an offset.
pub open spec fn offset(i: i16, n: nat) -> i16 {
    sign_extended(i as int, n) as i16
}

/// The condition code that a result sets: N (4), Z (2) or P (1).
pub open spec fn condition_code(v: i16) -> i16 {
    if v < 0 {
        4
    } else if v == 0 {
        2
    } else {
        1
    }
}

/// A status register with its condition bits replaced by those of `v`.
pub open spec fn with_condition(psr: i16, v: i16) -> i16 {
    (psr & !7i16) | condition_code(v)
}

/// Bit 15 of the status register: user mode when set.
pub open spec fn user_mode(psr: i16) -> bool {
    (psr as u16) / 32768 == 1
}

/// Bits 10..8 of the status register: the current priority level.
pub open spec fn priority_level(psr: i16) -> u8 {
    (((psr as u16) / 256) % 8) as u8
}

/// Whether a BR instruction whose bits 11, 10 and 9 request N, Z and P is
/// taken under the condition bits of `psr`.
pub open spec fn branch_taken(psr: i16, w: u16) -> bool {
    ((w / 2048) % 2 == 1 && psr & 4 != 0) || ((w / 1024) % 2 == 1 && psr & 2 != 0) || ((w / 512)
        % 2 == 1 && psr & 1 != 0)
}

impl MachineState {
    /// Eight registers and a cell at each address.
    pub open spec fn wf(self) -> bool {
        self.regs.len() == 8 && self.memory.wf()
    }

    pub open spec fn set_reg(self, r: u16, v: i16) -> MachineState {
        MachineState { regs: self.regs.update(r as int, v), ..self }
    }

    pub open spec fn set_cc(self, v: i16) -> MachineState {
        MachineState { psr: with_condition(self.psr, v), ..self }
    }

    pub open spec fn set_memory(self, m: MemoryState) -> MachineState {
        MachineState { memory: m, ..self }
    }

    pub open spec fn set_pc(self, pc: i16) -> MachineState {
        MachineState { pc, ..self }
    }

    /// Writes a result to register `r` and sets the condition code from it.
    pub open spec fn set_result(self, r: u16, v: i16) -> MachineState {
        self.set_cc(v).set_reg(r, v)
    }

    /// Reads `addr` into register `r`, with the read's side effects, and sets
    /// the condition code.
    pub open spec fn load_into(self, r: u16, addr: u16) -> MachineState {
        self.set_memory(self.memory.after_read(addr)).set_result(r, self.memory.read_value(addr))
    }
}

/// The address `pc + offset`, with wraparound.
pub open spec fn pc_relative(s: MachineState, i: i16) -> u16 {
    s.pc.wrapping_add(offset(i, 9)) as u16
}

/// The address `base + offset`, with wraparound.
pub open spec fn base_relative(s: MachineState, i: i16) -> u16 {
    s.regs[field_sr1(i as u16) as int].wrapping_add(offset(i, 6)) as u16
}

/// The second operand of ADD and AND: an immediate or a register.
pub open spec fn second_operand(s: MachineState, i: i16) -> i16 {
    if immediate_mode(i) {
        offset(i, 5)
    } else {
        s.regs[field_sr2(i as u16) as int]
    }
}

pub open spec fn add_result(s: MachineState, i: i16) -> MachineState {
    let w = i as u16;
    s.set_result(field_dr(w), s.regs[field_sr1(w) as int].wrapping_add(second_operand(s, i)))
}

pub open spec fn and_result(s: MachineState, i: i16) -> MachineState {
    let w = i as u16;
    s.set_result(field_dr(w), s.regs[field_sr1(w) as int] & second_operand(s, i))
}

pub open spec fn br_result(s: MachineState, i: i16) -> MachineState {
    if branch_taken(s.psr, i as u16) {
        s.set_pc(s.pc.wrapping_add(offset(i, 9)))
    } else {
        s
    }
}

pub open spec fn jmp_result(s: MachineState, i: i16) -> MachineState {
    s.set_pc(s.regs[field_sr1(i as u16) as int])
}

/// JSR (bit 11 set: pc-relative) or JSRR (base register); the link register
/// receives the incremented pc.
pub open spec fn jsr_result(s: MachineState, i: i16) -> MachineState {
    let w = i as u16;
    let target = if (w / 2048) % 2 == 1 {
        s.pc.wrapping_add(offset(i, 11))
    } else {
        s.regs[field_sr1(w) as int]
    };
    s.set_pc(target).set_reg(7, s.pc)
}

pub open spec fn ld_result(s: MachineState, i: i16) -> MachineState {
    s.load_into(field_dr(i as u16), pc_relative(s, i))
}

pub open spec fn ldi_result(s: MachineState, i: i16) -> MachineState {
    let a = pc_relative(s, i);
    let t = s.set_memory(s.memory.after_read(a));
    t.load_into(field_dr(i as u16), s.memory.read_value(a) as u16)
}

pub open spec fn ldr_result(s: MachineState, i: i16) -> MachineState {
    s.load_into(field_dr(i as u16), base_relative(s, i))
}

pub open spec fn lea_result(s: MachineState, i: i16) -> MachineState {
    s.set_result(field_dr(i as u16), s.pc.wrapping_add(offset(i, 9)))
}

pub open spec fn not_result(s: MachineState, i: i16) -> MachineState {
    let w = i as u16;
    s.set_result(field_dr(w), !s.regs[field_sr1(w) as int])
}

pub open spec fn st_result(s: MachineState, i: i16) -> MachineState {
    let w = i as u16;
    s.set_memory(s.memory.after_write(pc_relative(s, i), s.regs[field_dr(w) as int]))
}

pub open spec fn sti_result(s: MachineState, i: i16) -> MachineState {
    let w = i as u16;
    let a = pc_relative(s, i);
    let m = s.memory.after_read(a);
    s.set_memory(m.after_write(s.memory.read_value(a) as u16, s.regs[field_dr(w) as int]))
}

pub open spec fn str_result(s: MachineState, i: i16) -> MachineState {
    let w = i as u16;
    s.set_memory(s.memory.after_write(base_relative(s, i), s.regs[field_dr(w) as int]))
}

/// TRAP: the link register receives the incremented pc, and pc the entry of
/// the trap vector table named by bits 7..0.
pub open spec fn trap_result(s: MachineState, i: i16) -> MachineState {
    let v = (i as u16) % 256;
    let t = s.set_reg(7, s.pc);
    t.set_memory(t.memory.after_read(v)).set_pc(t.memory.read_value(v))
}

/// Switches to the supervisor stack and pushes the status register, then pc.
pub open spec fn push_context(s: MachineState) -> MachineState {
    let sp1 = s.saved_ssp.wrapping_sub(1);
    let sp2 = sp1.wrapping_sub(1);
    MachineState {
        saved_usp: s.regs[6],
        regs: s.regs.update(6, sp2),
        memory: s.memory.after_write(sp1 as u16, s.psr).after_write(sp2 as u16, s.pc),
        ..s
    }
}

/// The entry of the interrupt vector table for `code`.
pub open spec fn vector_address(code: u8) -> u16 {
    (0x100 + code) as u16
}

/// Dispatches to the handler at `vector_address(code)`.
pub open spec fn dispatch(s: MachineState, code: u8) -> MachineState {
    let v = vector_address(code);
    s.set_memory(s.memory.after_read(v)).set_pc(s.memory.read_value(v))
}

/// An internal exception: the context is saved, the processor enters
/// supervisor mode and dispatches through the interrupt vector table.
pub open spec fn exception_result(s: MachineState, code: u8) -> MachineState {
    let t = push_context(s);
    dispatch(MachineState { psr: t.psr & 0x7FFF, ..t }, code)
}

/// RTI: in supervisor mode pops pc, then the status register, and switches
/// back to the user stack; in user mode a privilege exception.
pub open spec fn rti_result(s: MachineState) -> MachineState {
    if user_mode(s.psr) {
        exception_result(s, 0)
    } else {
        let sp = s.regs[6];
        let m1 = s.memory.after_read(sp as u16);
        let sp1 = sp.wrapping_add(1);
        MachineState {
            pc: s.memory.read_value(sp as u16),
            psr: m1.read_value(sp1 as u16),
            saved_ssp: sp1.wrapping_add(1),
            regs: s.regs.update(6, s.saved_usp),
            memory: m1.after_read(sp1 as u16),
            ..s
        }
    }
}

/// The effect of executing instruction `i` once pc has been advanced past it.
pub open spec fn execute_result(s: MachineState, i: i16) -> MachineState {
    let op = opcode(i as u16);
    if op == 1 {
        add_result(s, i)
    } else if op == 5 {
        and_result(s, i)
    } else if op == 0 {
        br_result(s, i)
    } else if op == 12 {
        jmp_result(s, i)
    } else if op == 4 {
        jsr_result(s, i)
    } else if op == 2 {
        ld_result(s, i)
    } else if op == 10 {
        ldi_result(s, i)
    } else if op == 6 {
        ldr_result(s, i)
    } else if op == 14 {
        lea_result(s, i)
    } else if op == 9 {
        not_result(s, i)
    } else if op == 8 {
        rti_result(s)
    } else if op == 3 {
        st_result(s, i)
    } else if op == 11 {
        sti_result(s, i)
    } else if op == 7 {
        str_result(s, i)
    } else if op == 15 {
        trap_result(s, i)
    } else {
        exception_result(s, 1)
    }
}

/// The state once the word at pc has been fetched and pc advanced past it.
pub open spec fn fetched(s: MachineState) -> MachineState {
    s.set_memory(s.memory.after_read(s.pc as u16)).set_pc(s.pc.wrapping_add(1))
}

/// The instruction word at pc.
pub open spec fn current_instruction(s: MachineState) -> i16 {
    s.memory.read_value(s.pc as u16)
}

/// One fetch-decode-execute step; nothing happens while halted.
pub open spec fn step(s: MachineState) -> MachineState {
    if s.halted {
        s
    } else {
        execute_result(fetched(s), current_instruction(s))
    }
}

/// One clock call: a step, then the display latch is drained and reported,
/// then a pending halt request is drained, halts the machine and is reported
/// in place of the character.
pub open spec fn clock_result(s: MachineState) -> (MachineState, LC3IO) {
    let t = step(s);
    let io = match t.memory.last_char {
        Some(c) => LC3IO::Display(c),
        None => LC3IO::Idle,
    };
    let u = t.set_memory(MemoryState { last_char: None, halt_requested: false, ..t.memory });
    if t.memory.halt_requested {
        (MachineState { halted: true, ..u }, LC3IO::Halt)
    } else {
        (u, io)
    }
}

/// A serviced external interrupt: the data goes to the keyboard data register
/// and raises the keyboard-ready latch, the context is saved, the processor
/// enters supervisor mode at the requested priority and dispatches.
pub open spec fn interrupt_result(s: MachineState, code: u8, priority: u8, data: i16) -> MachineState {
    let m = MemoryState { keyboard_ready: true, ..s.memory.after_write(KBDR, data) };
    let t = push_context(s.set_memory(m));
    dispatch(MachineState { psr: (t.psr & 0x78FF) | (((priority % 8) * 256) as i16), ..t }, code)
}

} // verus!
