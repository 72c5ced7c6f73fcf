//! The processor: registers, the fetch-decode-execute cycle, exceptions and
//! external interrupts.

use crate::bits::{mux, sign_extend};
use crate::isa;
use crate::isa::{LC3IO, MachineState};
use crate::memory::{LC3Memory, KBDR, MCR};
use vstd::prelude::*;

verus! {

/// LC-3 (Little Computer 3)
#[derive(Debug)]
pub struct LC3 {
    /// Whether the processor stopped; it starts halted.
    pub halted: bool,
    /// Interrupt enable: external interrupts are accepted while it is 1.
    pub ie: u8,
    pub pc: i16,
    /// Process status: privilege (bit 15), priority (bits 10..8), N/Z/P (bits 2..0).
    pub psr: i16,
    pub saved_usp: i16,
    pub saved_ssp: i16,
    pub r0: i16,
    pub r1: i16,
    pub r2: i16,
    pub r3: i16,
    pub r4: i16,
    /// Frame pointer, by convention.
    pub r5: i16,
    /// Stack pointer.
    pub r6: i16,
    /// Return address.
    pub r7: i16,
    pub memory: LC3Memory,
}

impl View for LC3 {
    type V = MachineState;

    open spec fn view(&self) -> MachineState {
        MachineState {
            halted: self.halted,
            ie: self.ie,
            pc: self.pc,
            psr: self.psr,
            saved_usp: self.saved_usp,
            saved_ssp: self.saved_ssp,
            regs: seq![self.r0, self.r1, self.r2, self.r3, self.r4, self.r5, self.r6, self.r7],
            memory: self.memory@,
        }
    }
}

impl LC3 {
    /// A halted processor in supervisor mode with interrupts enabled, every
    /// register 0 and memory zeroed.
    pub fn new() -> (r: Self)
        ensures
            r@.wf(),
            r@.halted,
            r@.ie == 1,
            r@.pc == 0 && r@.psr == 0 && r@.saved_usp == 0 && r@.saved_ssp == 0,
            forall|k: int| 0 <= k < 8 ==> #[trigger] r@.regs[k] == 0,
            forall|a: int| 0 <= a < 0x10000 ==> #[trigger] r@.memory.cells[a] == 0,
            !r@.memory.keyboard_ready,
            r@.memory.last_char is None,
            !r@.memory.halt_requested,
    {
        let r = LC3 {
            halted: true,
            ie: 1,
            pc: 0,
            psr: 0,
            saved_usp: 0,
            saved_ssp: 0,
            r0: 0,
            r1: 0,
            r2: 0,
            r3: 0,
            r4: 0,
            r5: 0,
            r6: 0,
            r7: 0,
            memory: LC3Memory::new(),
        };
        proof {
            r.memory.lemma_wf();
        }
        r
    }

    /// The start signal: the processor runs, and the machine control register
    /// is set to 1, which withdraws any pending halt request.
    pub fn start(&mut self)
        ensures
            final(self)@ == (MachineState {
                halted: false,
                memory: old(self)@.memory.after_write(MCR, 1),
                ..old(self)@
            }),
    {
        self.halted = false;
        self.memory.put(MCR, 1);
    }

    /// Every processor has eight registers and a cell at each address.
    pub proof fn lemma_wf(&self)
        ensures
            self@.wf(),
    {
        self.memory.lemma_wf();
    }

    /// The value of the register with code `code`.
    fn get_reg(&self, code: u16) -> (r: i16)
        requires
            code < 8,
        ensures
            r == self@.regs[code as int],
    {
        match code {
            0 => self.r0,
            1 => self.r1,
            2 => self.r2,
            3 => self.r3,
            4 => self.r4,
            5 => self.r5,
            6 => self.r6,
            _ => self.r7,
        }
    }

    /// Sets the register with code `code`.
    fn put_reg(&mut self, code: u16, data: i16)
        requires
            code < 8,
        ensures
            final(self)@ == old(self)@.set_reg(code, data),
    {
        match code {
            0 => self.r0 = data,
            1 => self.r1 = data,
            2 => self.r2 = data,
            3 => self.r3 = data,
            4 => self.r4 = data,
            5 => self.r5 = data,
            6 => self.r6 = data,
            _ => self.r7 = data,
        }
        assert(self@.regs =~= old(self)@.regs.update(code as int, data));
    }

    /// Sets the N/Z/P bits of the status register from `value`.
    fn codes(&mut self, value: i16)
        ensures
            final(self)@ == old(self)@.set_cc(value),
    {
        let cc: i16 = if value < 0 {
            4
        } else if value == 0 {
            2
        } else {
            1
        };
        self.psr = (self.psr & !7i16) | cc;
    }

    /// Writes a result to a register and sets the condition code from it.
    fn put_result(&mut self, code: u16, data: i16)
        requires
            code < 8,
        ensures
            final(self)@ == old(self)@.set_result(code, data),
    {
        self.codes(data);
        self.put_reg(code, data);
    }

    /// ADD: register or immediate operand; sets the condition code.
    fn add(&mut self, instruction: i16)
        ensures
            final(self)@ == isa::add_result(old(self)@, instruction),
    {
        let w = instruction as u16;
        let dr = (w / 512) % 8;
        let sr1 = (w / 64) % 8;
        let operand = if mux(instruction) {
            sign_extend(instruction, 5)
        } else {
            self.get_reg(w % 8)
        };
        let res = self.get_reg(sr1).wrapping_add(operand);
        self.put_result(dr, res);
    }

    /// AND: register or immediate operand; sets the condition code.
    fn and(&mut self, instruction: i16)
        ensures
            final(self)@ == isa::and_result(old(self)@, instruction),
    {
        let w = instruction as u16;
        let dr = (w / 512) % 8;
        let sr1 = (w / 64) % 8;
        let operand = if mux(instruction) {
            sign_extend(instruction, 5)
        } else {
            self.get_reg(w % 8)
        };
        let res = self.get_reg(sr1) & operand;
        self.put_result(dr, res);
    }

    /// BR: adds the offset to pc when a requested condition bit is set.
    fn br(&mut self, instruction: i16)
        ensures
            final(self)@ == isa::br_result(old(self)@, instruction),
    {
        let w = instruction as u16;
        let n = (w / 2048) % 2 == 1 && self.psr & 4 != 0;
        let z = (w / 1024) % 2 == 1 && self.psr & 2 != 0;
        let p = (w / 512) % 2 == 1 && self.psr & 1 != 0;
        if n || z || p {
            self.pc = self.pc.wrapping_add(sign_extend(instruction, 9));
        }
    }

    /// JMP, and RET (JMP through the link register).
    fn jmp(&mut self, instruction: i16)
        ensures
            final(self)@ == isa::jmp_result(old(self)@, instruction),
    {
        self.pc = self.get_reg(((instruction as u16) / 64) % 8);
    }

    /// JSR / JSRR: the link register receives the incremented pc.
    fn jsr(&mut self, instruction: i16)
        ensures
            final(self)@ == isa::jsr_result(old(self)@, instruction),
    {
        let w = instruction as u16;
        let temp = self.pc;
        if (w / 2048) % 2 == 1 {
            self.pc = self.pc.wrapping_add(sign_extend(instruction, 11));
        } else {
            self.pc = self.get_reg((w / 64) % 8);
        }
        self.r7 = temp;
    }

    /// LD: loads from `pc + offset`.
    fn ld(&mut self, instruction: i16)
        ensures
            final(self)@ == isa::ld_result(old(self)@, instruction),
    {
        let addr = self.pc.wrapping_add(sign_extend(instruction, 9));
        let res = self.memory.get(addr as u16);
        self.put_result(((instruction as u16) / 512) % 8, res);
    }

    /// LDI: loads from the address stored at `pc + offset`.
    fn ldi(&mut self, instruction: i16)
        ensures
            final(self)@ == isa::ldi_result(old(self)@, instruction),
    {
        let addr = self.pc.wrapping_add(sign_extend(instruction, 9));
        let addr2 = self.memory.get(addr as u16);
        let res = self.memory.get(addr2 as u16);
        self.put_result(((instruction as u16) / 512) % 8, res);
    }

    /// LDR: loads from `base + offset`.
    fn ldr(&mut self, instruction: i16)
        ensures
            final(self)@ == isa::ldr_result(old(self)@, instruction),
    {
        let base = self.get_reg(((instruction as u16) / 64) % 8);
        let res = self.memory.get(base.wrapping_add(sign_extend(instruction, 6)) as u16);
        self.put_result(((instruction as u16) / 512) % 8, res);
    }

    /// LEA: the address `pc + offset` itself.
    fn lea(&mut self, instruction: i16)
        ensures
            final(self)@ == isa::lea_result(old(self)@, instruction),
    {
        let addr = self.pc.wrapping_add(sign_extend(instruction, 9));
        self.put_result(((instruction as u16) / 512) % 8, addr);
    }

    /// NOT: bitwise complement.
    fn not(&mut self, instruction: i16)
        ensures
            final(self)@ == isa::not_result(old(self)@, instruction),
    {
        let w = instruction as u16;
        let res = !self.get_reg((w / 64) % 8);
        self.put_result((w / 512) % 8, res);
    }

    /// ST: stores at `pc + offset`.
    fn st(&mut self, instruction: i16)
        ensures
            final(self)@ == isa::st_result(old(self)@, instruction),
    {
        let sr = self.get_reg(((instruction as u16) / 512) % 8);
        let addr = self.pc.wrapping_add(sign_extend(instruction, 9));
        self.memory.put(addr as u16, sr);
    }

    /// STI: stores at the address stored at `pc + offset`.
    fn sti(&mut self, instruction: i16)
        ensures
            final(self)@ == isa::sti_result(old(self)@, instruction),
    {
        let sr = self.get_reg(((instruction as u16) / 512) % 8);
        let addr = self.pc.wrapping_add(sign_extend(instruction, 9));
        let addr2 = self.memory.get(addr as u16);
        self.memory.put(addr2 as u16, sr);
    }

    /// STR: stores at `base + offset`.
    fn stor(&mut self, instruction: i16)
        ensures
            final(self)@ == isa::str_result(old(self)@, instruction),
    {
        let w = instruction as u16;
        let sr = self.get_reg((w / 512) % 8);
        let base = self.get_reg((w / 64) % 8);
        self.memory.put(base.wrapping_add(sign_extend(instruction, 6)) as u16, sr);
    }

    /// TRAP: the link register receives the incremented pc, and pc the
    /// entry of the trap vector table.
    fn trap(&mut self, instruction: i16)
        ensures
            final(self)@ == isa::trap_result(old(self)@, instruction),
    {
        self.r7 = self.pc;
        self.pc = self.memory.get((instruction as u16) % 256);
    }

    /// Switches to the supervisor stack and pushes the status register, then pc.
    fn push_context(&mut self)
        ensures
            final(self)@ == isa::push_context(old(self)@),
    {
        self.saved_usp = self.r6;
        self.r6 = self.saved_ssp.wrapping_sub(1);
        self.memory.put(self.r6 as u16, self.psr);
        self.r6 = self.r6.wrapping_sub(1);
        self.memory.put(self.r6 as u16, self.pc);
    }

    /// Internal exception: saves the context, enters supervisor mode and
    /// dispatches through the interrupt vector table.
    fn exception(&mut self, code: u8)
        ensures
            final(self)@ == isa::exception_result(old(self)@, code),
    {
        self.push_context();
        self.psr = self.psr & 0x7FFF;
        self.pc = self.memory.get(0x100u16 + code as u16);
    }

    /// RTI: returns from an interrupt or exception; a privilege exception in
    /// user mode.
    fn rti(&mut self)
        ensures
            final(self)@ == isa::rti_result(old(self)@),
    {
        if (self.psr as u16) / 32768 == 1 {
            self.exception(0);
        } else {
            self.pc = self.memory.get(self.r6 as u16);
            self.r6 = self.r6.wrapping_add(1);
            self.psr = self.memory.get(self.r6 as u16);
            self.r6 = self.r6.wrapping_add(1);
            self.saved_ssp = self.r6;
            self.r6 = self.saved_usp;
        }
    }

    /// Executes one instruction, pc having been advanced past it.
    fn execute(&mut self, instruction: i16)
        ensures
            final(self)@ == isa::execute_result(old(self)@, instruction),
    {
        match (instruction as u16) / 4096 {
            1 => self.add(instruction),
            5 => self.and(instruction),
            0 => self.br(instruction),
            12 => self.jmp(instruction),
            4 => self.jsr(instruction),
            2 => self.ld(instruction),
            10 => self.ldi(instruction),
            6 => self.ldr(instruction),
            14 => self.lea(instruction),
            9 => self.not(instruction),
            8 => self.rti(),
            3 => self.st(instruction),
            11 => self.sti(instruction),
            7 => self.stor(instruction),
            15 => self.trap(instruction),
            _ => self.exception(1),
        }
    }

    /// Executes one fetch-decode-execute cycle unless halted, then reports a
    /// character written to the display, or a halt once 0 was written to the
    /// machine control register.
    pub fn clock(&mut self) -> (r: LC3IO)
        ensures
            (final(self)@, r) == isa::clock_result(old(self)@),
    {
        if !self.halted {
            let instruction = self.memory.get(self.pc as u16);
            self.pc = self.pc.wrapping_add(1);
            self.execute(instruction);
        }
        let mut io = match self.memory.take_char() {
            Some(c) => LC3IO::Display(c),
            None => LC3IO::Idle,
        };
        if self.memory.take_halt_request() {
            self.halted = true;
            io = LC3IO::Halt;
        }
        io
    }

    /// External interrupt with vector `code`, priority `priority` and
    /// keyboard data `data`. Refused while interrupts are disabled or when
    /// `priority` does not exceed the current priority level; otherwise
    /// serviced, returning `priority`.
    pub fn interrupt(&mut self, code: u8, priority: u8, data: i16) -> (r: Result<u8, &'static str>)
        ensures
            old(self).ie != 1 ==> r == Err::<u8, &'static str>("Interrupt Enable is 0")
                && final(self)@ == old(self)@,
            old(self).ie == 1 && priority <= isa::priority_level(old(self).psr) ==> r == Err::<
                u8,
                &'static str,
            >("Currently servicing a higher or equal priority task.") && final(self)@ == old(
                self,
            )@,
            old(self).ie == 1 && priority > isa::priority_level(old(self).psr) ==> r == Ok::<
                u8,
                &'static str,
            >(priority) && final(self)@ == isa::interrupt_result(old(self)@, code, priority, data),
    {
        if self.ie != 1 {
            return Err("Interrupt Enable is 0");
        }
        let prio = (((self.psr as u16) / 256) % 8) as u8;
        if prio >= priority {
            return Err("Currently servicing a higher or equal priority task.");
        }
        self.memory.put(KBDR, data);
        self.memory.set_keyboard_ready();
        self.push_context();
        self.psr = (self.psr & 0x78FF) | ((priority % 8) as i16 * 256);
        self.pc = self.memory.get(0x100u16 + code as u16);
        Ok(priority)
    }
}

} // verus!
