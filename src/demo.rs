//! A small operating system image and a program that runs on it: the trap
//! routines GETC, OUT, PUTS and HALT with their vector table entries, and a
//! user program that prints a greeting and halts.

use crate::isa::MachineState;
use crate::machine::LC3;
use crate::memory::MemoryState;
use vstd::prelude::*;

verus! {

/// The word at an address after an image is loaded: the image's word where
/// it has one, else what was there.
pub open spec fn loaded(word: Option<i16>, before: i16) -> i16 {
    match word {
        Some(w) => w,
        None => before,
    }
}

/// The supervisor image: vector table entries and trap routines.
pub open spec fn supervisor_word(a: int) -> Option<i16> {
    if a == 0x0020 {
        Some(0x0200)
    } else if a == 0x0021 {
        Some(0x0220)
    } else if a == 0x0022 {
        Some(0x0240)
    } else if a == 0x0023 {
        Some(0x0260)
    } else if a == 0x0024 {
        Some(0x0280)
    } else if a == 0x0025 {
        Some(0x02A0)
    } else if a == 0x0100 {
        Some(0x02C0)
    } else if a == 0x0101 {
        Some(0x02C0)
    } else if a == 0x0180 {
        Some(0x02E0)
    } else if a == 0x0200 {
        Some(0b1010_000_000000010u16 as i16)
    } else if a == 0x0201 {
        Some(0b0000_010_000000001)
    } else if a == 0x0202 {
        Some(0b0000_000_000000001)
    } else if a == 0x0203 {
        Some(0xFE00u16 as i16)
    } else if a == 0x0204 {
        Some(0b1010_000_000000001u16 as i16)
    } else if a == 0x0205 {
        Some(0b1100_000_111_000000u16 as i16)
    } else if a == 0x0206 {
        Some(0xFE02u16 as i16)
    } else if a == 0x0220 {
        Some(0b1011_000_000000001u16 as i16)
    } else if a == 0x0221 {
        Some(0b1100_000_111_000000u16 as i16)
    } else if a == 0x0222 {
        Some(0xFE06u16 as i16)
    } else if a == 0x0240 {
        Some(0b0001_001_111_1_00000)
    } else if a == 0x0241 {
        Some(0b0001_010_000_1_00000)
    } else if a == 0x0242 {
        Some(0b0110_000_010_000000)
    } else if a == 0x0243 {
        Some(0b0000_010_000000011)
    } else if a == 0x0244 {
        Some(0b1111_0000_00100001u16 as i16)
    } else if a == 0x0245 {
        Some(0b0001_010_010_1_00001)
    } else if a == 0x0246 {
        Some(0b0000_111_111111011)
    } else if a == 0x0247 {
        Some(0b0001_111_001_1_00000)
    } else if a == 0x0248 {
        Some(0b1100_000_111_000000u16 as i16)
    } else if a == 0x02A0 {
        Some(0b0101_000_000_1_00000)
    } else if a == 0x02A1 {
        Some(0b1011_000_000000001u16 as i16)
    } else if a == 0x02A2 {
        Some(0b1100_000_111_000000u16 as i16)
    } else if a == 0x02A3 {
        Some(0xFFFEu16 as i16)
    } else {
        None
    }
}

/// The user program, loaded at 0x3000: prints "HELLO WORLD" and a newline, then halts.
pub open spec fn user_word(a: int) -> Option<i16> {
    if a == 0x3000 {
        Some(0b1110_000_000000010u16 as i16)
    } else if a == 0x3001 {
        Some(0b1111_0000_00100010u16 as i16)
    } else if a == 0x3002 {
        Some(0b1111_0000_00100101u16 as i16)
    } else if a == 0x3003 {
        Some(0x48)
    } else if a == 0x3004 {
        Some(0x45)
    } else if a == 0x3005 {
        Some(0x4c)
    } else if a == 0x3006 {
        Some(0x4c)
    } else if a == 0x3007 {
        Some(0x4f)
    } else if a == 0x3008 {
        Some(0x20)
    } else if a == 0x3009 {
        Some(0x57)
    } else if a == 0x300a {
        Some(0x4f)
    } else if a == 0x300b {
        Some(0x52)
    } else if a == 0x300c {
        Some(0x4c)
    } else if a == 0x300d {
        Some(0x44)
    } else if a == 0x300e {
        Some(0xa)
    } else if a == 0x300f {
        Some(0x0)
    } else {
        None
    }
}

/// Loads the supervisor image into memory; nothing else changes.
pub fn prepare_supervisor(lc3: &mut LC3)
    ensures
        forall|a: int|
            0 <= a < 0x10000 ==> #[trigger] final(lc3)@.memory.cells[a] == loaded(
                supervisor_word(a),
                old(lc3)@.memory.cells[a],
            ),
        final(lc3)@ == (MachineState {
            memory: MemoryState { cells: final(lc3)@.memory.cells, ..old(lc3)@.memory },
            ..old(lc3)@
        }),
{
    proof {
        lc3.lemma_wf();
    }
    lc3.memory.put(0x0020, 0x0200); // GETC: read a character from the keyboard into R0
    lc3.memory.put(0x0021, 0x0220); // OUT: write R0 to the display
    lc3.memory.put(0x0022, 0x0240); // PUTS: write the string at R0, up to a 0 word
    lc3.memory.put(0x0023, 0x0260); // IN: GETC with echo
    lc3.memory.put(0x0024, 0x0280); // PUTSP: PUTS with two characters per word
    lc3.memory.put(0x0025, 0x02A0); // HALT: stop the machine
    lc3.memory.put(0x0100, 0x02C0); // privilege exception
    lc3.memory.put(0x0101, 0x02C0); // illegal opcode exception
    lc3.memory.put(0x0180, 0x02E0); // keystroke interrupt
    lc3.memory.put(0x0200, 0b1010_000_000000010u16 as i16); // LDI R0, [PC + 2]: keyboard status
    lc3.memory.put(0x0201, 0b0000_010_000000001); // BRz PC + 1
    lc3.memory.put(0x0202, 0b0000_000_000000001); // BR PC + 1
    lc3.memory.put(0x0203, 0xFE00u16 as i16); // .FILL keyboard status register
    lc3.memory.put(0x0204, 0b1010_000_000000001u16 as i16); // LDI R0, [PC + 1]: keyboard data
    lc3.memory.put(0x0205, 0b1100_000_111_000000u16 as i16); // RET
    lc3.memory.put(0x0206, 0xFE02u16 as i16); // .FILL keyboard data register
    lc3.memory.put(0x0220, 0b1011_000_000000001u16 as i16); // STI R0, [PC + 1]: display data
    lc3.memory.put(0x0221, 0b1100_000_111_000000u16 as i16); // RET
    lc3.memory.put(0x0222, 0xFE06u16 as i16); // .FILL display data register
    lc3.memory.put(0x0240, 0b0001_001_111_1_00000); // ADD R1, R7, #0: keep the return address
    lc3.memory.put(0x0241, 0b0001_010_000_1_00000); // ADD R2, R0, #0: string pointer
    lc3.memory.put(0x0242, 0b0110_000_010_000000); // LDR R0, [R2 + 0]: next character
    lc3.memory.put(0x0243, 0b0000_010_000000011); // BRz PC + 3: end of string
    lc3.memory.put(0x0244, 0b1111_0000_00100001u16 as i16); // TRAP OUT
    lc3.memory.put(0x0245, 0b0001_010_010_1_00001); // ADD R2, R2, #1
    lc3.memory.put(0x0246, 0b0000_111_111111011); // BR PC - 5
    lc3.memory.put(0x0247, 0b0001_111_001_1_00000); // ADD R7, R1, #0: restore the return address
    lc3.memory.put(0x0248, 0b1100_000_111_000000u16 as i16); // RET
    lc3.memory.put(0x02A0, 0b0101_000_000_1_00000); // AND R0, R0, #0
    lc3.memory.put(0x02A1, 0b1011_000_000000001u16 as i16); // STI R0, [PC + 1]: machine control
    lc3.memory.put(0x02A2, 0b1100_000_111_000000u16 as i16); // RET
    lc3.memory.put(0x02A3, 0xFFFEu16 as i16); // .FILL machine control register
}

/// Loads the user program into memory at 0x3000; nothing else changes.
pub fn prepare_user_program(lc3: &mut LC3)
    ensures
        forall|a: int|
            0 <= a < 0x10000 ==> #[trigger] final(lc3)@.memory.cells[a] == loaded(
                user_word(a),
                old(lc3)@.memory.cells[a],
            ),
        final(lc3)@ == (MachineState {
            memory: MemoryState { cells: final(lc3)@.memory.cells, ..old(lc3)@.memory },
            ..old(lc3)@
        }),
{
    proof {
        lc3.lemma_wf();
    }
    lc3.memory.put(0x3000, 0b1110_000_000000010u16 as i16); // LEA R0, [PC + 2]
    lc3.memory.put(0x3001, 0b1111_0000_00100010u16 as i16); // TRAP PUTS
    lc3.memory.put(0x3002, 0b1111_0000_00100101u16 as i16); // TRAP HALT
    lc3.memory.put(0x3003, 0x48); // 'H'
    lc3.memory.put(0x3004, 0x45); // 'E'
    lc3.memory.put(0x3005, 0x4c); // 'L'
    lc3.memory.put(0x3006, 0x4c); // 'L'
    lc3.memory.put(0x3007, 0x4f); // 'O'
    lc3.memory.put(0x3008, 0x20); // ' '
    lc3.memory.put(0x3009, 0x57); // 'W'
    lc3.memory.put(0x300a, 0x4f); // 'O'
    lc3.memory.put(0x300b, 0x52); // 'R'
    lc3.memory.put(0x300c, 0x4c); // 'L'
    lc3.memory.put(0x300d, 0x44); // 'D'
    lc3.memory.put(0x300e, 0xa); // newline
    lc3.memory.put(0x300f, 0x0); // end of string
}

} // verus!
