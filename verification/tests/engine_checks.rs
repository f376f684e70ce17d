use m68k_core::cpu::{CPUState, CPU};
use m68k_core::instruction::{Condition, Instructions, Registers, Size, Target};
use m68k_core::memory::{Fault, Memory};

/// A machine whose memory holds a reset vector (supervisor stack at 0x700,
/// program counter at 0x400) and the given instruction words at 0x400.
fn machine_with_program(words: &[u16]) -> CPU {
    let mut image = vec![0u8; 0x2000];
    image[3] = 0x00;
    image[2] = 0x07;
    image[7] = 0x00;
    image[6] = 0x04;
    let mut a = 0x400;
    for w in words {
        image[a] = (w >> 8) as u8;
        image[a + 1] = *w as u8;
        a += 2;
    }
    let mut cpu = CPU::with_image(image);
    cpu.init();
    cpu
}

#[test]
fn init_loads_the_reset_vector_and_enters_fetching() {
    let cpu = machine_with_program(&[]);
    assert_eq!(cpu.registers.PC, 0x400);
    assert_eq!(cpu.registers.SP, 0x700);
    assert!(cpu.registers.SR.supervisor_state);
    assert_eq!(cpu.registers.D0, 0);
    assert!(matches!(cpu.state, CPUState::Fetching));
}

#[test]
fn fetch_advances_the_program_counter_by_two() {
    let mut cpu = machine_with_program(&[0x7405]);
    assert_eq!(cpu.fetch(), Ok(0x7405));
    assert_eq!(cpu.registers.PC, 0x402);
}

#[test]
fn fetch_from_an_odd_address_is_a_misaligned_fault() {
    let mut cpu = machine_with_program(&[0x7405]);
    cpu.registers.PC = 0x401;
    assert_eq!(cpu.fetch(), Err(Fault::MisalignedFetch));
    assert_eq!(cpu.registers.PC, 0x401);
}

#[test]
fn a_small_program_runs_to_its_stop() {
    // MOVEQ #5, D2; ADDQ.L #1, D2; STOP #0x2700
    let mut cpu = machine_with_program(&[0x7405, 0x5282, 0x4E72, 0x2700]);
    cpu.run(10);
    assert_eq!(cpu.registers.D2, 6);
    assert!(matches!(cpu.state, CPUState::Halting));
    assert!(cpu.registers.SR.supervisor_state);
    assert_eq!(cpu.registers.SR.interrupt_mask, 7);
}

#[test]
fn run_respects_its_step_budget() {
    // an endless loop: BRA -2 branches back to itself
    let mut cpu = machine_with_program(&[0x60FE]);
    cpu.run(5);
    assert!(matches!(cpu.state, CPUState::Fetching));
    assert_eq!(cpu.registers.PC, 0x400);
}

#[test]
fn a_reserved_pattern_halts_with_an_illegal_opcode_fault() {
    let mut cpu = machine_with_program(&[0xA123]);
    assert_eq!(cpu.step(), Err(Fault::IllegalOpcode));
    assert!(matches!(cpu.state, CPUState::Halting));
    assert_eq!(cpu.registers.PC, 0x402);
}

#[test]
fn jsr_and_rts_wind_and_unwind_the_stack() {
    // 0x400: JSR (0x500).L; 0x406: STOP #0x2700 — 0x500: MOVEQ #7,D0; RTS
    let mut cpu = machine_with_program(&[0x4EB9, 0x0000, 0x0500]);
    let words: [u16; 2] = [0x7007, 0x4E75];
    let mut a = 0x500;
    for w in words {
        cpu.memory_bus.memory.write_at_address_word(a, w).unwrap();
        a += 2;
    }
    cpu.memory_bus.memory.write_at_address_word(0x406, 0x4E72).unwrap();
    cpu.memory_bus.memory.write_at_address_word(0x408, 0x2700).unwrap();
    cpu.run(10);
    assert!(matches!(cpu.state, CPUState::Halting));
    assert_eq!(cpu.registers.D0, 7);
    assert_eq!(cpu.registers.SP, 0x700);
}

#[test]
fn stop_outside_supervisor_state_is_a_privilege_violation() {
    let mut cpu = machine_with_program(&[]);
    cpu.registers.SR.supervisor_state = false;
    assert_eq!(cpu.execute(&Instructions::STOP(0x2700)), Err(Fault::PrivilegeViolation));
    assert!(!cpu.registers.SR.supervisor_state);
}

#[test]
fn move_to_sr_outside_supervisor_state_is_a_privilege_violation() {
    let mut cpu = machine_with_program(&[]);
    cpu.registers.SR.supervisor_state = false;
    let ins = Instructions::MOVEtoSR(Target::DnDirect(Registers::D0));
    assert_eq!(cpu.execute(&ins), Err(Fault::PrivilegeViolation));
}

#[test]
fn predecrement_decrements_once_per_resolution_left_to_right() {
    let mut cpu = machine_with_program(&[]);
    cpu.registers.A0 = 0x1000;
    cpu.memory_bus.memory.write_at_address_word(0x0FFE, 0xBEEF).unwrap();
    let t = Target::AnIndirectPreDec(Registers::A0);
    let ins = Instructions::MOVE(t, t, Size::Word);
    assert_eq!(cpu.execute(&ins), Ok(()));
    // the source resolution decremented to 0xFFE, the destination's to 0xFFC
    assert_eq!(cpu.registers.A0, 0x0FFC);
    assert_eq!(cpu.memory_bus.memory.read_at_address_word(0x0FFC), Some(0xBEEF));
    // the source word itself is untouched
    assert_eq!(cpu.memory_bus.memory.read_at_address_word(0x0FFE), Some(0xBEEF));
}

#[test]
fn postincrement_bumps_its_register_by_the_operand_width() {
    let mut cpu = machine_with_program(&[]);
    cpu.registers.A1 = 0x200;
    cpu.memory_bus.memory.write_at_address_long(0x200, 0xCAFEBABE).unwrap();
    let ins = Instructions::MOVE(
        Target::AnIndirectPostInc(Registers::A1),
        Target::DnDirect(Registers::D4),
        Size::Long,
    );
    assert_eq!(cpu.execute(&ins), Ok(()));
    assert_eq!(cpu.registers.A1, 0x204);
    assert_eq!(cpu.registers.D4, 0xCAFEBABE);
}

#[test]
fn add_sets_the_documented_condition_codes() {
    let mut cpu = machine_with_program(&[]);
    // signed overflow: 0x7F + 1 = 0x80
    cpu.registers.D0 = 0x7F;
    let ins = Instructions::ADD(Target::Immediate(1), Target::DnDirect(Registers::D0), Size::Byte);
    assert_eq!(cpu.execute(&ins), Ok(()));
    assert_eq!(cpu.registers.D0, 0x80);
    assert!(cpu.registers.SR.negative);
    assert!(cpu.registers.SR.overflow);
    assert!(!cpu.registers.SR.carry);
    assert!(!cpu.registers.SR.zero);
    assert!(!cpu.registers.SR.extend);
    // unsigned carry to zero: 0xFF + 1 = 0x00 carry
    cpu.registers.D1 = 0xFF;
    let ins = Instructions::ADD(Target::Immediate(1), Target::DnDirect(Registers::D1), Size::Byte);
    assert_eq!(cpu.execute(&ins), Ok(()));
    assert_eq!(cpu.registers.D1, 0);
    assert!(cpu.registers.SR.zero);
    assert!(cpu.registers.SR.carry);
    assert!(cpu.registers.SR.extend);
    assert!(!cpu.registers.SR.negative);
    assert!(!cpu.registers.SR.overflow);
}

#[test]
fn byte_arithmetic_touches_only_the_low_byte_of_the_register() {
    let mut cpu = machine_with_program(&[]);
    cpu.registers.D0 = 0xAABB_CCFF;
    let ins = Instructions::ADD(Target::Immediate(1), Target::DnDirect(Registers::D0), Size::Byte);
    assert_eq!(cpu.execute(&ins), Ok(()));
    assert_eq!(cpu.registers.D0, 0xAABB_CC00);
}

#[test]
fn cmp_borrows_without_writing_or_touching_extend() {
    let mut cpu = machine_with_program(&[]);
    cpu.registers.D0 = 3;
    cpu.registers.SR.extend = true;
    let ins = Instructions::CMP(Target::Immediate(5), Target::DnDirect(Registers::D0), Size::Byte);
    assert_eq!(cpu.execute(&ins), Ok(()));
    assert_eq!(cpu.registers.D0, 3);
    assert!(cpu.registers.SR.carry);
    assert!(cpu.registers.SR.negative);
    assert!(cpu.registers.SR.extend);
    assert!(!cpu.registers.SR.zero);
}

#[test]
fn move_sets_flags_from_the_value_moved() {
    let mut cpu = machine_with_program(&[]);
    cpu.registers.SR.carry = true;
    cpu.registers.SR.overflow = true;
    cpu.registers.D3 = 0x8000;
    let ins = Instructions::MOVE(
        Target::DnDirect(Registers::D3),
        Target::DnDirect(Registers::D4),
        Size::Word,
    );
    assert_eq!(cpu.execute(&ins), Ok(()));
    assert!(cpu.registers.SR.negative);
    assert!(!cpu.registers.SR.zero);
    assert!(!cpu.registers.SR.carry);
    assert!(!cpu.registers.SR.overflow);
}

#[test]
fn instructions_without_cc_effect_leave_flags_untouched() {
    let mut cpu = machine_with_program(&[]);
    cpu.registers.SR.negative = true;
    cpu.registers.SR.zero = true;
    cpu.registers.SR.overflow = true;
    cpu.registers.SR.carry = true;
    cpu.registers.SR.extend = true;
    let before = cpu.registers.SR;
    let exg = Instructions::EXG(
        Target::DnDirect(Registers::D0),
        Target::AnDirect(Registers::A0),
    );
    assert_eq!(cpu.execute(&exg), Ok(()));
    assert_eq!(cpu.registers.SR, before);
    assert_eq!(cpu.execute(&Instructions::BRA(4)), Ok(()));
    assert_eq!(cpu.registers.SR, before);
    let movea = Instructions::MOVEA(Target::DnDirect(Registers::D1), Registers::A3, Size::Long);
    assert_eq!(cpu.execute(&movea), Ok(()));
    assert_eq!(cpu.registers.SR, before);
    let lea = Instructions::LEA(Target::AnIndirect(Registers::A1), Registers::A4);
    assert_eq!(cpu.execute(&lea), Ok(()));
    assert_eq!(cpu.registers.SR, before);
    assert_eq!(cpu.execute(&Instructions::NOP), Ok(()));
    assert_eq!(cpu.registers.SR, before);
}

#[test]
fn conditional_branches_follow_the_flags() {
    let mut cpu = machine_with_program(&[]);
    cpu.registers.PC = 0x400;
    cpu.registers.SR.zero = true;
    assert_eq!(cpu.execute(&Instructions::Bcc(Condition::Equal, 0x10)), Ok(()));
    assert_eq!(cpu.registers.PC, 0x410);
    assert_eq!(cpu.execute(&Instructions::Bcc(Condition::Neq, 0x10)), Ok(()));
    assert_eq!(cpu.registers.PC, 0x410);
}

#[test]
fn moveq_sign_extends_and_sets_flags() {
    let mut cpu = machine_with_program(&[]);
    assert_eq!(cpu.execute(&Instructions::MOVEQ(0xFF, Registers::D1)), Ok(()));
    assert_eq!(cpu.registers.D1, 0xFFFF_FFFF);
    assert!(cpu.registers.SR.negative);
    assert_eq!(cpu.execute(&Instructions::MOVEQ(0, Registers::D2)), Ok(()));
    assert_eq!(cpu.registers.D2, 0);
    assert!(cpu.registers.SR.zero);
}

#[test]
fn clr_not_neg_tst_and_swap_behave() {
    let mut cpu = machine_with_program(&[]);
    cpu.registers.D0 = 0x1234_5678;
    assert_eq!(cpu.execute(&Instructions::SWAP(Registers::D0)), Ok(()));
    assert_eq!(cpu.registers.D0, 0x5678_1234);
    cpu.registers.D1 = 0x0000_00F0;
    assert_eq!(
        cpu.execute(&Instructions::NOT(Target::DnDirect(Registers::D1), Size::Byte)),
        Ok(())
    );
    assert_eq!(cpu.registers.D1, 0x0000_000F);
    cpu.registers.D2 = 1;
    assert_eq!(
        cpu.execute(&Instructions::NEG(Target::DnDirect(Registers::D2), Size::Byte)),
        Ok(())
    );
    assert_eq!(cpu.registers.D2, 0xFF);
    assert!(cpu.registers.SR.carry);
    assert!(cpu.registers.SR.negative);
    assert_eq!(
        cpu.execute(&Instructions::CLR(Target::DnDirect(Registers::D2), Size::Byte)),
        Ok(())
    );
    assert_eq!(cpu.registers.D2, 0);
    assert!(cpu.registers.SR.zero);
    cpu.registers.D3 = 0;
    assert_eq!(
        cpu.execute(&Instructions::TST(Target::DnDirect(Registers::D3), Size::Long)),
        Ok(())
    );
    assert!(cpu.registers.SR.zero);
}

#[test]
fn an_out_of_bounds_operand_is_a_clean_fault() {
    let mut cpu = machine_with_program(&[]);
    cpu.registers.A0 = 0xFFFF_0000;
    let ins = Instructions::MOVE(
        Target::AnIndirect(Registers::A0),
        Target::DnDirect(Registers::D0),
        Size::Word,
    );
    assert_eq!(cpu.execute(&ins), Err(Fault::OutOfBounds));
    assert_eq!(cpu.registers.A0, 0xFFFF_0000);
    assert_eq!(cpu.registers.D0, 0);
}

#[test]
fn executing_a_sentinel_is_an_illegal_opcode_fault() {
    let mut cpu = machine_with_program(&[]);
    assert_eq!(cpu.execute(&Instructions::NotImplemented), Err(Fault::IllegalOpcode));
    assert_eq!(cpu.execute(&Instructions::ILLEGAL), Err(Fault::IllegalOpcode));
}

#[test]
fn decode_method_pulls_extension_words_past_the_program_counter() {
    let mut cpu = machine_with_program(&[0x0000, 0x1234]);
    cpu.registers.PC = 0x402;
    // MOVE.W #0x1234, D0 — the immediate word sits at the program counter
    assert_eq!(
        cpu.decode(0x303C),
        Ok(Instructions::MOVE(
            Target::Immediate(0x1234),
            Target::DnDirect(Registers::D0),
            Size::Word
        ))
    );
    assert_eq!(cpu.registers.PC, 0x404);
}

#[test]
fn new_machine_owns_the_reference_capacity() {
    let cpu = CPU::new();
    assert!(matches!(cpu.state, CPUState::Halting));
    assert_eq!(cpu.memory_bus.memory.read_at_address_byte(0x4F_FFFF), Some(0));
    assert_eq!(cpu.memory_bus.memory.read_at_address_byte(0x50_0000), None);
}

#[test]
fn address_arithmetic_works_at_full_width_without_flags() {
    let mut cpu = machine_with_program(&[]);
    cpu.registers.SR.zero = true;
    let before = cpu.registers.SR;
    cpu.registers.D0 = 0xFFFF; // -1 as a word
    cpu.registers.A1 = 0x1000;
    let adda = Instructions::ADDA(Target::DnDirect(Registers::D0), Registers::A1, Size::Word);
    assert_eq!(cpu.execute(&adda), Ok(()));
    assert_eq!(cpu.registers.A1, 0x0FFF);
    assert_eq!(cpu.registers.SR, before);
    cpu.registers.A2 = 10;
    let suba = Instructions::SUBA(Target::Immediate(4), Registers::A2, Size::Long);
    assert_eq!(cpu.execute(&suba), Ok(()));
    assert_eq!(cpu.registers.A2, 6);
    assert_eq!(cpu.registers.SR, before);
}

#[test]
fn cmpa_compares_at_the_full_width() {
    let mut cpu = machine_with_program(&[]);
    cpu.registers.A0 = 5;
    let ins = Instructions::CMPA(Target::Immediate(6), Registers::A0, Size::Word);
    assert_eq!(cpu.execute(&ins), Ok(()));
    assert!(cpu.registers.SR.carry);
    assert!(cpu.registers.SR.negative);
    assert_eq!(cpu.registers.A0, 5);
}

#[test]
fn ext_sign_extends_within_the_register() {
    let mut cpu = machine_with_program(&[]);
    cpu.registers.D5 = 0xAABB_0080;
    let ins = Instructions::EXT(Registers::D5, Size::Byte, Size::Word);
    assert_eq!(cpu.execute(&ins), Ok(()));
    assert_eq!(cpu.registers.D5, 0xAABB_FF80);
    assert!(cpu.registers.SR.negative);
    cpu.registers.D6 = 0x1234_8000;
    let ins = Instructions::EXT(Registers::D6, Size::Word, Size::Long);
    assert_eq!(cpu.execute(&ins), Ok(()));
    assert_eq!(cpu.registers.D6, 0xFFFF_8000);
    assert!(cpu.registers.SR.negative);
}

#[test]
fn scc_sets_all_ones_or_all_zeroes_by_the_condition() {
    let mut cpu = machine_with_program(&[]);
    cpu.registers.SR.zero = true;
    cpu.registers.D0 = 0x1234_5600;
    let before = cpu.registers.SR;
    let ins = Instructions::Scc(Condition::Equal, Target::DnDirect(Registers::D0));
    assert_eq!(cpu.execute(&ins), Ok(()));
    assert_eq!(cpu.registers.D0, 0x1234_56FF);
    assert_eq!(cpu.registers.SR, before);
    let ins = Instructions::Scc(Condition::Neq, Target::DnDirect(Registers::D0));
    assert_eq!(cpu.execute(&ins), Ok(()));
    assert_eq!(cpu.registers.D0, 0x1234_5600);
}

#[test]
fn dbcc_decrements_and_branches_until_minus_one() {
    let mut cpu = machine_with_program(&[]);
    cpu.registers.PC = 0x404; // just past a loop instruction and its word
    cpu.registers.D3 = 2;
    // the condition fails, so the counter drops and the branch is taken,
    // relative to the extension word at 0x402
    let ins = Instructions::DBcc(Condition::Equal, Registers::D3, -4);
    assert_eq!(cpu.execute(&ins), Ok(()));
    assert_eq!(cpu.registers.D3, 1);
    assert_eq!(cpu.registers.PC, 0x3FE);
    // at zero the counter wraps to the all-ones word and falls through
    cpu.registers.PC = 0x404;
    cpu.registers.D3 = 0;
    assert_eq!(cpu.execute(&ins), Ok(()));
    assert_eq!(cpu.registers.D3, 0xFFFF);
    assert_eq!(cpu.registers.PC, 0x404);
    // a satisfied condition leaves the counter alone
    cpu.registers.SR.zero = true;
    cpu.registers.D3 = 5;
    assert_eq!(cpu.execute(&ins), Ok(()));
    assert_eq!(cpu.registers.D3, 5);
    assert_eq!(cpu.registers.PC, 0x404);
}

#[test]
fn a_program_with_a_memory_destination_runs_end_to_end() {
    // LEA (0x600).W, A0; MOVEQ #3, D0; ADD.B D0, (A0); STOP #0x2700
    let mut cpu = machine_with_program(&[0x41F8, 0x0600, 0x7003, 0xD110, 0x4E72, 0x2700]);
    cpu.memory_bus.memory.write_at_address_byte(0x600, 0x10).unwrap();
    cpu.run(10);
    assert!(matches!(cpu.state, CPUState::Halting));
    assert_eq!(cpu.registers.A0, 0x600);
    assert_eq!(cpu.memory_bus.memory.read_at_address_byte(0x600), Some(0x13));
}

#[test]
fn link_and_unlk_build_and_tear_down_a_frame() {
    let mut cpu = machine_with_program(&[]);
    cpu.registers.A6 = 0xDDCC_BBAA;
    let sp0 = cpu.registers.SP;
    assert_eq!(cpu.execute(&Instructions::LINK(Registers::A6, -8)), Ok(()));
    // the old frame register sits on the stack, the register holds the new
    // stack top, and the stack grew by the displacement
    assert_eq!(cpu.registers.A6, sp0 - 4);
    assert_eq!(
        cpu.memory_bus.memory.read_at_address_long(sp0 - 4),
        Some(0xDDCC_BBAA)
    );
    assert_eq!(cpu.registers.SP, sp0 - 4 - 8);
    assert_eq!(cpu.execute(&Instructions::UNLK(Registers::A6)), Ok(()));
    assert_eq!(cpu.registers.A6, 0xDDCC_BBAA);
    assert_eq!(cpu.registers.SP, sp0);
}
