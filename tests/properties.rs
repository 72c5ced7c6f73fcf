#![allow(overflowing_literals)]

use lc3::{sign_extend, LC3IO, LC3};

fn running_at(program: &[(u16, i16)], pc: i16) -> LC3 {
    let mut lc3 = LC3::new();
    for &(addr, word) in program {
        lc3.memory.put(addr, word);
    }
    lc3.pc = pc;
    lc3.start();
    lc3
}

#[test]
fn sign_extend_six_bit_negative_field() {
    assert_eq!(sign_extend(0b110100, 6), -12);
    assert_eq!(sign_extend(0b011111, 6), 31);
    assert_eq!(sign_extend(0b100000, 6), -32);
    assert_eq!(sign_extend(0b1_1111, 5), -1);
    assert_eq!(sign_extend(0x7FFF, 16), 0x7FFF);
    assert_eq!(sign_extend(0x8000, 16), -32768);
    assert_eq!(sign_extend(0b1, 1), -1);
}

#[test]
fn sign_extend_ignores_high_bits() {
    assert_eq!(sign_extend(0b1111_0000_0011_0100, 6), -12);
    assert_eq!(sign_extend(0b1111_0000_0000_0100, 6), 4);
}

#[test]
fn sign_extend_is_idempotent() {
    for n in 1..=16usize {
        for v in [0i16, 1, 4, 0b110100, 0x1FF, 0x100, -1, -12, 0x7FFF, -32768] {
            let once = sign_extend(v, n);
            assert_eq!(sign_extend(once, n), once);
        }
    }
}

#[test]
fn add_immediate_and_register_agree() {
    let mut imm = running_at(&[(0x3000, 0b0001_001_010_1_11101)], 0x3000); // ADD R1, R2, #-3
    imm.r2 = 7;
    imm.clock();
    let mut reg = running_at(&[(0x3000, 0b0001_001_010_0_00_011)], 0x3000); // ADD R1, R2, R3
    reg.r2 = 7;
    reg.r3 = -3;
    reg.clock();
    assert_eq!(imm.r1, 4);
    assert_eq!(reg.r1, 4);
    assert_eq!(imm.psr, reg.psr);
    assert_eq!(imm.psr & 0b111, 0b001);
}

#[test]
fn and_immediate_and_register_agree() {
    let mut imm = running_at(&[(0x3000, 0b0101_001_010_1_10110)], 0x3000); // AND R1, R2, #-10
    imm.r2 = 0x7F0F;
    imm.clock();
    let mut reg = running_at(&[(0x3000, 0b0101_001_010_0_00_011)], 0x3000); // AND R1, R2, R3
    reg.r2 = 0x7F0F;
    reg.r3 = -10;
    reg.clock();
    assert_eq!(imm.r1, 0x7F06);
    assert_eq!(reg.r1, imm.r1);
    assert_eq!(imm.psr & 0b111, reg.psr & 0b111);
}

#[test]
fn exactly_one_condition_bit() {
    for (value, flag) in [(-5i16, 0b100i16), (0, 0b010), (9, 0b001)] {
        let mut lc3 = running_at(&[(0x3000, 0b0001_001_010_1_00000)], 0x3000); // ADD R1, R2, #0
        lc3.psr = 0b0000_0111_0000_0111;
        lc3.r2 = value;
        lc3.clock();
        assert_eq!(lc3.psr & 0b111, flag);
        assert_eq!(lc3.psr & !0b111, 0b0000_0111_0000_0000);
    }
}

#[test]
fn add_wraps_around() {
    let mut lc3 = running_at(&[(0x3000, 0b0001_001_010_0_00_011)], 0x3000); // ADD R1, R2, R3
    lc3.r2 = 0x7FFF;
    lc3.r3 = 1;
    lc3.clock();
    assert_eq!(lc3.r1, -32768);
    assert_eq!(lc3.psr & 0b111, 0b100);
}

#[test]
fn step_advances_pc_by_one() {
    let mut lc3 = running_at(&[(0x3000, 0b0001_001_010_1_00001)], 0x3000);
    lc3.clock();
    assert_eq!(lc3.pc, 0x3001);
}

#[test]
fn pc_wraps_at_end_of_memory() {
    let mut lc3 = running_at(&[(0xFFFF, 0b0001_001_010_1_00001)], 0xFFFF);
    lc3.clock();
    assert_eq!(lc3.pc, 0);
}

#[test]
fn pc_relative_uses_incremented_pc() {
    // LEA R3, #-1 yields the address of the LEA itself.
    let mut lc3 = running_at(&[(0x3000, 0b1110_011_111111111)], 0x3000);
    lc3.clock();
    assert_eq!(lc3.r3, 0x3000);
    // LD R4, #0 reads the word right after the LD.
    let mut lc3 = running_at(&[(0x4000, 0b0010_100_000000000), (0x4001, 0x1234)], 0x4000);
    lc3.clock();
    assert_eq!(lc3.r4, 0x1234);
}

#[test]
fn jsrr_through_link_register_swaps() {
    let mut lc3 = running_at(&[(0x3000, 0b0100_0_00_111_000000)], 0x3000); // JSRR R7
    lc3.r7 = 0x4444;
    lc3.clock();
    assert_eq!(lc3.pc, 0x4444);
    assert_eq!(lc3.r7, 0x3001);
}

#[test]
fn trap_saves_link_register() {
    let mut lc3 = running_at(&[(0x3000, 0b1111_0000_00100101), (0x0025, 0x02A0)], 0x3000);
    lc3.r7 = 0x1111;
    lc3.clock();
    assert_eq!(lc3.pc, 0x02A0);
    assert_eq!(lc3.r7, 0x3001);
}

#[test]
fn rti_in_user_mode_raises_privilege_exception() {
    let mut lc3 = running_at(&[(0x3000, 0b1000_0000_0000_0000), (0x0100, 0x0500)], 0x3000);
    lc3.psr = 0b1000_0000_0000_0010u16 as i16;
    lc3.r6 = 0xF000u16 as i16;
    lc3.saved_ssp = 0x2000;
    lc3.clock();
    assert_eq!(lc3.pc, 0x0500);
    assert_eq!(lc3.r6, 0x1FFE);
    assert_eq!(lc3.saved_usp, 0xF000u16 as i16);
    assert_eq!(lc3.memory.get(0x1FFF), 0b1000_0000_0000_0010u16 as i16);
    assert_eq!(lc3.memory.get(0x1FFE), 0x3001);
    assert_eq!(lc3.psr, 0b0000_0000_0000_0010);
}

#[test]
fn rti_in_supervisor_mode_pops_pc_then_psr() {
    let mut lc3 = running_at(
        &[(0x0400, 0b1000_0000_0000_0000), (0x1FFE, 0x3456), (0x1FFF, 0b1000_0000_0000_0001u16 as i16)],
        0x0400,
    );
    lc3.r6 = 0x1FFE;
    lc3.saved_usp = 0x7000;
    lc3.clock();
    assert_eq!(lc3.pc, 0x3456);
    assert_eq!(lc3.psr, 0b1000_0000_0000_0001u16 as i16);
    assert_eq!(lc3.saved_ssp, 0x2000);
    assert_eq!(lc3.r6, 0x7000);
}

#[test]
fn interrupt_refused_when_disabled() {
    let mut lc3 = LC3::new();
    lc3.ie = 0;
    lc3.pc = 0x3000;
    lc3.r6 = 0x5000;
    assert_eq!(lc3.interrupt(0x80, 4, 65), Err("Interrupt Enable is 0"));
    assert_eq!(lc3.pc, 0x3000);
    assert_eq!(lc3.r6, 0x5000);
    assert_eq!(lc3.psr, 0);
    assert_eq!(lc3.memory.get(0xFE00), 0);
    assert_eq!(lc3.memory.get(0xFE02), 0);
}

#[test]
fn interrupt_refused_at_equal_priority() {
    let mut lc3 = LC3::new();
    lc3.psr = 0b0000_0011_0000_0000;
    lc3.pc = 0x3000;
    assert_eq!(
        lc3.interrupt(0x80, 3, 65),
        Err("Currently servicing a higher or equal priority task.")
    );
    assert_eq!(
        lc3.interrupt(0x80, 2, 65),
        Err("Currently servicing a higher or equal priority task.")
    );
    assert_eq!(lc3.pc, 0x3000);
    assert_eq!(lc3.psr, 0b0000_0011_0000_0000);
    assert_eq!(lc3.memory.get(0xFE00), 0);
}

#[test]
fn interrupt_delivers_key_and_dispatches() {
    let mut lc3 = LC3::new();
    lc3.psr = (0b1000_0001_0000_0100u16) as i16;
    lc3.pc = 0x3005;
    lc3.r6 = 0xFD00u16 as i16;
    lc3.saved_ssp = 0x3000;
    lc3.memory.put(0x0180, 0x1200);
    assert_eq!(lc3.interrupt(0x80, 4, 'A' as i16), Ok(4));
    assert_eq!(lc3.pc, 0x1200);
    assert_eq!(lc3.psr, 0b0000_0100_0000_0100);
    assert_eq!(lc3.saved_usp, 0xFD00u16 as i16);
    assert_eq!(lc3.r6, 0x2FFE);
    assert_eq!(lc3.memory.get(0x2FFF), (0b1000_0001_0000_0100u16) as i16);
    assert_eq!(lc3.memory.get(0x2FFE), 0x3005);
    assert_eq!(lc3.memory.get(0xFE00), 1);
    assert_eq!(lc3.memory.get(0xFE02), 'A' as i16);
    assert_eq!(lc3.memory.get(0xFE00), 0);
}

#[test]
fn interrupt_then_rti_restores_context() {
    let mut lc3 = running_at(&[(0x0180, 0x1200), (0x1200, 0b1000_0000_0000_0000)], 0x3000);
    lc3.psr = 0b1000_0000_0000_0001u16 as i16;
    lc3.r6 = 0xFD00u16 as i16;
    lc3.saved_ssp = 0x3000;
    assert_eq!(lc3.interrupt(0x80, 1, 0x61), Ok(1));
    lc3.clock();
    assert_eq!(lc3.pc, 0x3000);
    assert_eq!(lc3.psr, 0b1000_0000_0000_0001u16 as i16);
    assert_eq!(lc3.r6, 0xFD00u16 as i16);
    assert_eq!(lc3.saved_ssp, 0x3000);
}

#[test]
fn illegal_opcode_dispatches_through_vector_one() {
    let mut lc3 = running_at(&[(0x3000, 0b1101_0000_0000_0000u16 as i16), (0x0101, 0x0600)], 0x3000);
    lc3.saved_ssp = 0x3000;
    lc3.clock();
    assert_eq!(lc3.pc, 0x0600);
    assert_eq!(lc3.memory.get(0x2FFE), 0x3001);
}

#[test]
fn scenario_add_immediate_fifteen() {
    let mut lc3 = running_at(&[(0x3000, 0b0001_001_010_1_01111)], 0x3000);
    lc3.r2 = 100;
    assert_eq!(lc3.clock(), LC3IO::Idle);
    assert_eq!(lc3.r1, 115);
    assert_eq!(lc3.psr & 0b111, 0b001);
}

#[test]
fn scenario_clear_then_branch_negative_or_zero() {
    let mut lc3 = running_at(
        &[(0x3000, 0b0101_001_001_1_00000), (0x3001, 0b0000_110_000000101)],
        0x3000,
    );
    lc3.r1 = -1283;
    lc3.clock();
    assert_eq!(lc3.psr & 0b111, 0b010);
    lc3.clock();
    assert_eq!(lc3.pc, 0x3007);
}

#[test]
fn branch_on_positive_not_taken_when_zero() {
    let mut lc3 = running_at(
        &[(0x3000, 0b0101_001_001_1_00000), (0x3001, 0b0000_001_000000101)],
        0x3000,
    );
    lc3.clock();
    lc3.clock();
    assert_eq!(lc3.pc, 0x3002);
}

#[test]
fn scenario_halt_through_control_register() {
    // STI R0, [PC + 1] with R0 = 0 writes 0 to 0xFFFE.
    let mut lc3 = running_at(
        &[(0x3000, 0b1011_000_000000001), (0x3002, 0xFFFEu16 as i16)],
        0x3000,
    );
    assert!(!lc3.halted);
    assert_eq!(lc3.clock(), LC3IO::Halt);
    assert!(lc3.halted);
    let pc = lc3.pc;
    assert_eq!(lc3.clock(), LC3IO::Idle);
    assert!(lc3.halted);
    assert_eq!(lc3.pc, pc);
}

#[test]
fn host_write_of_control_register_halts_next_step() {
    let mut lc3 = running_at(&[], 0x3000);
    lc3.memory.put(0xFFFE, 0);
    assert_eq!(lc3.clock(), LC3IO::Halt);
    assert!(lc3.halted);
    assert_eq!(lc3.pc, 0x3001);
}

#[test]
fn display_write_reported_same_step_before_halt() {
    // STI R0, [PC + 2] to 0xFE06, then STI R1, [PC + 2] to 0xFFFE.
    let mut lc3 = running_at(
        &[
            (0x3000, 0b1011_000_000000010),
            (0x3001, 0b1011_001_000000010),
            (0x3003, 0xFE06u16 as i16),
            (0x3004, 0xFFFEu16 as i16),
        ],
        0x3000,
    );
    lc3.r0 = 'H' as i16;
    lc3.r1 = 0;
    assert_eq!(lc3.clock(), LC3IO::Display('H' as i16));
    assert_eq!(lc3.clock(), LC3IO::Halt);
    assert_eq!(lc3.clock(), LC3IO::Idle);
}

#[test]
fn halted_processor_does_not_execute() {
    let mut lc3 = LC3::new();
    lc3.memory.put(0x0000, 0b0001_001_001_1_00001);
    assert_eq!(lc3.clock(), LC3IO::Idle);
    assert_eq!(lc3.pc, 0);
    assert_eq!(lc3.r1, 0);
}

#[test]
fn device_registers() {
    let mut lc3 = LC3::new();
    assert_eq!(lc3.memory.get(0xFE04), 1);
    assert_eq!(lc3.memory.get(0xFE00), 0);
    lc3.memory.put(0x1234, -7);
    assert_eq!(lc3.memory.get(0x1234), -7);
}

#[test]
fn greeting_program_prints_and_halts() {
    let mut lc3 = LC3::new();
    lc3::prepare_supervisor(&mut lc3);
    lc3::prepare_user_program(&mut lc3);
    lc3.psr = (0b1u16 << 15) as i16;
    lc3.pc = 0x3000;
    lc3.saved_ssp = 0x3000;
    lc3.r6 = 0xFE00u16 as i16;
    lc3.start();
    let mut out = String::new();
    let mut steps = 0;
    loop {
        steps += 1;
        assert!(steps < 10_000);
        match lc3.clock() {
            LC3IO::Idle => (),
            LC3IO::Display(c) => out.push((c as u8) as char),
            LC3IO::Halt => break,
        }
    }
    assert_eq!(out, "HELLO WORLD\n");
    assert!(lc3.halted);
    assert_eq!(lc3.memory.get(0x0025), 0x02A0);
    assert_eq!(lc3.memory.get(0x02A3), 0xFFFEu16 as i16);
}
