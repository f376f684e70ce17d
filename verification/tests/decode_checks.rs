use m68k_core::decoder::{decode, AddressingMode, addressing_mode_of, opcode_type_of, OpCodeType};
use m68k_core::instruction::{
    Condition, Direction, IndexRegister, Instructions, Registers, Size, Target,
};
use m68k_core::memory::{ByteMemory, Fault, Memory, MemoryIter};

fn decode_with_ext(ins: u16, ext: &[u16]) -> Result<Instructions, Fault> {
    let mut image = Vec::new();
    for w in ext {
        image.push((w >> 8) as u8);
        image.push(*w as u8);
    }
    let mem = ByteMemory::from_image(image);
    let mut it = MemoryIter::new(0);
    decode(&mem, &mut it, ins)
}

fn decode_plain(ins: u16) -> Result<Instructions, Fault> {
    decode_with_ext(ins, &[])
}

#[test]
fn opcode_group_table_covers_all_sixteen_groups() {
    assert_eq!(opcode_type_of(0x0000), OpCodeType::BitManipulation);
    assert_eq!(opcode_type_of(0x1000), OpCodeType::MovByte);
    assert_eq!(opcode_type_of(0x2000), OpCodeType::MovLong);
    assert_eq!(opcode_type_of(0x3000), OpCodeType::MovWord);
    assert_eq!(opcode_type_of(0x4000), OpCodeType::Misc);
    assert_eq!(opcode_type_of(0x5000), OpCodeType::AddqSubq);
    assert_eq!(opcode_type_of(0x6000), OpCodeType::Branch);
    assert_eq!(opcode_type_of(0x7000), OpCodeType::Moveq);
    assert_eq!(opcode_type_of(0x8000), OpCodeType::OrDiv);
    assert_eq!(opcode_type_of(0x9000), OpCodeType::Sub);
    assert_eq!(opcode_type_of(0xA000), OpCodeType::Reserved);
    assert_eq!(opcode_type_of(0xB000), OpCodeType::CmpEor);
    assert_eq!(opcode_type_of(0xC000), OpCodeType::AndMul);
    assert_eq!(opcode_type_of(0xD000), OpCodeType::Add);
    assert_eq!(opcode_type_of(0xE000), OpCodeType::Shift);
    assert_eq!(opcode_type_of(0xF000), OpCodeType::Extension);
}

#[test]
fn addressing_mode_classification() {
    assert_eq!(addressing_mode_of(0, 3), Some(AddressingMode::DataRegisterDirect));
    assert_eq!(addressing_mode_of(4, 0), Some(AddressingMode::PredecrementRegisterIndirect));
    assert_eq!(addressing_mode_of(7, 4), Some(AddressingMode::Immediate));
    assert_eq!(addressing_mode_of(7, 7), None);
}

#[test]
fn moveq_canonical_pattern_decodes_to_immediate_and_register() {
    assert_eq!(decode_plain(0x7405), Ok(Instructions::MOVEQ(5, Registers::D2)));
}

#[test]
fn moveq_reserved_bit_is_a_sentinel() {
    assert_eq!(decode_plain(0x7505), Ok(Instructions::NotImplemented));
}

#[test]
fn reserved_groups_never_decode_silently() {
    assert_eq!(decode_plain(0xA123), Ok(Instructions::NotImplemented));
    assert_eq!(decode_plain(0xAFFF), Ok(Instructions::NotImplemented));
    assert_eq!(decode_plain(0xF000), Ok(Instructions::NotImplemented));
    assert_eq!(decode_plain(0xFABC), Ok(Instructions::NotImplemented));
}

#[test]
fn illegal_pattern_decodes_to_the_illegal_sentinel() {
    assert_eq!(decode_plain(0x4AFC), Ok(Instructions::ILLEGAL));
}

#[test]
fn moves_decode_with_both_effective_addresses() {
    assert_eq!(
        decode_plain(0x3401),
        Ok(Instructions::MOVE(
            Target::DnDirect(Registers::D1),
            Target::DnDirect(Registers::D2),
            Size::Word
        ))
    );
    assert_eq!(
        decode_plain(0x1618),
        Ok(Instructions::MOVE(
            Target::AnIndirectPostInc(Registers::A0),
            Target::DnDirect(Registers::D3),
            Size::Byte
        ))
    );
    assert_eq!(
        decode_with_ext(0x3029, &[0x0008]),
        Ok(Instructions::MOVE(
            Target::AnIndirectDisplacement(8, Registers::A1),
            Target::DnDirect(Registers::D0),
            Size::Word
        ))
    );
    assert_eq!(
        decode_with_ext(0x303C, &[0x1234]),
        Ok(Instructions::MOVE(
            Target::Immediate(0x1234),
            Target::DnDirect(Registers::D0),
            Size::Word
        ))
    );
    assert_eq!(
        decode_plain(0x2440),
        Ok(Instructions::MOVEA(Target::DnDirect(Registers::D0), Registers::A2, Size::Long))
    );
}

#[test]
fn move_to_an_immediate_destination_is_reserved() {
    assert_eq!(decode_plain(0x39C0), Ok(Instructions::NotImplemented));
}

#[test]
fn indexed_and_absolute_modes_decode() {
    assert_eq!(
        decode_with_ext(0x1030, &[0x1002]),
        Ok(Instructions::MOVE(
            Target::AnIndirectIndex(
                2,
                Registers::A0,
                IndexRegister { register: Registers::D1, size: Size::Word, scale: 1 }
            ),
            Target::DnDirect(Registers::D0),
            Size::Byte
        ))
    );
    // a full-format extension word is unsupported and must not decode silently
    assert_eq!(decode_with_ext(0x1030, &[0x0100]), Ok(Instructions::NotImplemented));
    assert_eq!(
        decode_with_ext(0x3038, &[0x1000]),
        Ok(Instructions::MOVE(
            Target::AbsoluteShortAddress(0x1000),
            Target::DnDirect(Registers::D0),
            Size::Word
        ))
    );
    assert_eq!(
        decode_with_ext(0x3039, &[0x0001, 0x0234]),
        Ok(Instructions::MOVE(
            Target::AbsoluteLongAddress(1, 0x234),
            Target::DnDirect(Registers::D0),
            Size::Word
        ))
    );
}

#[test]
fn pc_relative_source_resolves_against_the_extension_word_address() {
    // the extension word sits at address 0, so the operand's base is 0 + 4
    assert_eq!(
        decode_with_ext(0x303A, &[0x0004]),
        Ok(Instructions::MOVE(
            Target::PCIndirectDisplacement(4, Registers::PC),
            Target::DnDirect(Registers::D0),
            Size::Word
        ))
    );
}

#[test]
fn branches_decode_byte_and_word_displacements() {
    assert_eq!(decode_plain(0x6008), Ok(Instructions::BRA(8)));
    assert_eq!(decode_plain(0x60FE), Ok(Instructions::BRA(-2)));
    // a word displacement is normalised to be relative to the next instruction
    assert_eq!(decode_with_ext(0x6000, &[0x0010]), Ok(Instructions::BRA(14)));
    assert_eq!(decode_plain(0x6104), Ok(Instructions::BSR(4)));
    assert_eq!(decode_plain(0x6704), Ok(Instructions::Bcc(Condition::Equal, 4)));
    assert_eq!(decode_plain(0x6AFC), Ok(Instructions::Bcc(Condition::Plus, -4)));
}

#[test]
fn branch_needing_extension_word_faults_at_the_end_of_memory() {
    let mem = ByteMemory::from_image(vec![]);
    let mut it = MemoryIter::new(0);
    assert_eq!(decode(&mem, &mut it, 0x6000), Err(Fault::OutOfBounds));
}

#[test]
fn addq_subq_scc_dbcc_decode() {
    assert_eq!(
        decode_plain(0x5282),
        Ok(Instructions::ADDQ(1, Target::DnDirect(Registers::D2), Size::Long))
    );
    assert_eq!(
        decode_plain(0x5040),
        Ok(Instructions::ADDQ(8, Target::DnDirect(Registers::D0), Size::Word))
    );
    assert_eq!(
        decode_plain(0x5302),
        Ok(Instructions::SUBQ(1, Target::DnDirect(Registers::D2), Size::Byte))
    );
    assert_eq!(decode_plain(0x56C4), Ok(Instructions::Scc(Condition::Neq, Target::DnDirect(Registers::D4))));
    assert_eq!(
        decode_with_ext(0x57CB, &[0xFFFE]),
        Ok(Instructions::DBcc(Condition::Equal, Registers::D3, -2))
    );
    // set/loop conditions zero and one have no Condition value here
    assert_eq!(decode_plain(0x50C0), Ok(Instructions::NotImplemented));
}

#[test]
fn immediate_operations_decode() {
    assert_eq!(
        decode_with_ext(0x0243, &[0x00FF]),
        Ok(Instructions::ANDI(0xFF, Target::DnDirect(Registers::D3), Size::Word))
    );
    assert_eq!(
        decode_with_ext(0x0C00, &[0x0001]),
        Ok(Instructions::CMPI(1, Target::DnDirect(Registers::D0), Size::Byte))
    );
    assert_eq!(
        decode_with_ext(0x0682, &[0x0001, 0x0000]),
        Ok(Instructions::ADDI(0x10000, Target::DnDirect(Registers::D2), Size::Long))
    );
    assert_eq!(decode_with_ext(0x003C, &[0x001F]), Ok(Instructions::ORItoCCR(0x1F)));
    assert_eq!(decode_with_ext(0x007C, &[0x0700]), Ok(Instructions::ORItoSR(0x700)));
    assert_eq!(decode_with_ext(0x0A3C, &[0x0011]), Ok(Instructions::EORtoCCR(0x11)));
    assert_eq!(decode_with_ext(0x0A7C, &[0x2700]), Ok(Instructions::EORtoSR(0x2700)));
}

#[test]
fn bit_operations_decode() {
    assert_eq!(
        decode_with_ext(0x0801, &[0x0005]),
        Ok(Instructions::BTST(Target::Immediate(5), Target::DnDirect(Registers::D1), Size::Long))
    );
    assert_eq!(
        decode_plain(0x05D3),
        Ok(Instructions::BSET(
            Target::DnDirect(Registers::D2),
            Target::AnIndirect(Registers::A3),
            Size::Byte
        ))
    );
    // the peripheral move is unsupported
    assert_eq!(decode_plain(0x0188), Ok(Instructions::NotImplemented));
}

#[test]
fn arithmetic_and_logic_groups_decode() {
    assert_eq!(
        decode_plain(0xD240),
        Ok(Instructions::ADD(
            Target::DnDirect(Registers::D0),
            Target::DnDirect(Registers::D1),
            Size::Word
        ))
    );
    assert_eq!(
        decode_plain(0x9883),
        Ok(Instructions::SUB(
            Target::DnDirect(Registers::D3),
            Target::DnDirect(Registers::D4),
            Size::Long
        ))
    );
    assert_eq!(
        decode_plain(0x9501),
        Ok(Instructions::SUBX(
            Target::DnDirect(Registers::D1),
            Target::DnDirect(Registers::D2),
            Size::Byte
        ))
    );
    assert_eq!(
        decode_plain(0xD2C0),
        Ok(Instructions::ADDA(Target::DnDirect(Registers::D0), Registers::A1, Size::Word))
    );
    assert_eq!(
        decode_plain(0xB411),
        Ok(Instructions::CMP(
            Target::AnIndirect(Registers::A1),
            Target::DnDirect(Registers::D2),
            Size::Byte
        ))
    );
    assert_eq!(
        decode_plain(0xB308),
        Ok(Instructions::CMPM(
            Target::AnIndirectPostInc(Registers::A0),
            Target::AnIndirectPostInc(Registers::A1),
            Size::Byte
        ))
    );
    assert_eq!(
        decode_plain(0xB342),
        Ok(Instructions::EOR(
            Target::DnDirect(Registers::D1),
            Target::DnDirect(Registers::D2),
            Size::Word
        ))
    );
    assert_eq!(decode_plain(0xC4C1), Ok(Instructions::MULUW(Target::DnDirect(Registers::D1), Registers::D2)));
    assert_eq!(
        decode_plain(0x83C3),
        Ok(Instructions::DIVSW(Target::DnDirect(Registers::D3), Registers::D1, Size::Word))
    );
    assert_eq!(
        decode_plain(0x8701),
        Ok(Instructions::SBCD(Target::DnDirect(Registers::D1), Target::DnDirect(Registers::D3)))
    );
    assert_eq!(
        decode_plain(0xC300),
        Ok(Instructions::ABCD(Target::DnDirect(Registers::D0), Target::DnDirect(Registers::D1)))
    );
    assert_eq!(
        decode_plain(0xC38A),
        Ok(Instructions::EXG(Target::DnDirect(Registers::D1), Target::AnDirect(Registers::A2)))
    );
}

#[test]
fn shift_and_rotate_group_decodes() {
    assert_eq!(
        decode_plain(0xE741),
        Ok(Instructions::ASL(Target::Immediate(3), Target::DnDirect(Registers::D1), Size::Word))
    );
    assert_eq!(
        decode_plain(0xE08F),
        Ok(Instructions::LSR(Target::Immediate(8), Target::DnDirect(Registers::D7), Size::Long))
    );
    assert_eq!(
        decode_plain(0xE533),
        Ok(Instructions::ROXL(Target::DnDirect(Registers::D2), Target::DnDirect(Registers::D3), Size::Byte))
    );
    assert_eq!(
        decode_plain(0xE0D1),
        Ok(Instructions::ASR(Target::Immediate(1), Target::AnIndirect(Registers::A1), Size::Word))
    );
}

#[test]
fn miscellaneous_group_decodes() {
    assert_eq!(decode_plain(0x4E71), Ok(Instructions::NOP));
    assert_eq!(decode_plain(0x4E70), Ok(Instructions::RESET));
    assert_eq!(decode_plain(0x4E73), Ok(Instructions::RTE));
    assert_eq!(decode_plain(0x4E75), Ok(Instructions::RTS));
    assert_eq!(decode_plain(0x4E76), Ok(Instructions::TRAPV));
    assert_eq!(decode_plain(0x4E77), Ok(Instructions::RTR));
    assert_eq!(decode_with_ext(0x4E72, &[0x2700]), Ok(Instructions::STOP(0x2700)));
    assert_eq!(decode_with_ext(0x4E74, &[0x0004]), Ok(Instructions::RTD(4)));
    assert_eq!(decode_plain(0x4E43), Ok(Instructions::TRAP(3)));
    assert_eq!(decode_with_ext(0x4E52, &[0xFFF0]), Ok(Instructions::LINK(Registers::A2, -16)));
    assert_eq!(decode_plain(0x4E5A), Ok(Instructions::UNLK(Registers::A2)));
    assert_eq!(
        decode_plain(0x4E62),
        Ok(Instructions::MOVEUSP(Target::AnDirect(Registers::A2), Direction::RegisterToMemory))
    );
    assert_eq!(
        decode_plain(0x4E6A),
        Ok(Instructions::MOVEUSP(Target::AnDirect(Registers::A2), Direction::MemoryToRegister))
    );
    assert_eq!(decode_plain(0x4ED0), Ok(Instructions::JMP(Target::AnIndirect(Registers::A0))));
    assert_eq!(
        decode_with_ext(0x4EB9, &[0x0000, 0x0500]),
        Ok(Instructions::JSR(Target::AbsoluteLongAddress(0, 0x500)))
    );
    assert_eq!(
        decode_plain(0x47D1),
        Ok(Instructions::LEA(Target::AnIndirect(Registers::A1), Registers::A3))
    );
    assert_eq!(
        decode_plain(0x4382),
        Ok(Instructions::CHK(Target::DnDirect(Registers::D2), Registers::D1, Size::Word))
    );
    assert_eq!(decode_plain(0x4843), Ok(Instructions::SWAP(Registers::D3)));
    assert_eq!(decode_plain(0x4852), Ok(Instructions::PEA(Target::AnIndirect(Registers::A2))));
    assert_eq!(decode_plain(0x4885), Ok(Instructions::EXT(Registers::D5, Size::Byte, Size::Word)));
    assert_eq!(decode_plain(0x48C5), Ok(Instructions::EXT(Registers::D5, Size::Word, Size::Long)));
    assert_eq!(decode_plain(0x4802), Ok(Instructions::NBCD(Target::DnDirect(Registers::D2))));
    assert_eq!(decode_plain(0x4AC1), Ok(Instructions::TAS(Target::DnDirect(Registers::D1))));
    assert_eq!(decode_plain(0x4000), Ok(Instructions::NEGX(Target::DnDirect(Registers::D0), Size::Byte)));
    assert_eq!(decode_plain(0x4244), Ok(Instructions::CLR(Target::DnDirect(Registers::D4), Size::Word)));
    assert_eq!(decode_plain(0x4441), Ok(Instructions::NEG(Target::DnDirect(Registers::D1), Size::Word)));
    assert_eq!(decode_plain(0x4682), Ok(Instructions::NOT(Target::DnDirect(Registers::D2), Size::Long)));
    assert_eq!(decode_plain(0x4A00), Ok(Instructions::TST(Target::DnDirect(Registers::D0), Size::Byte)));
    assert_eq!(decode_plain(0x40C1), Ok(Instructions::MOVEfromSR(Target::DnDirect(Registers::D1))));
    assert_eq!(decode_plain(0x42C3), Ok(Instructions::MOVEfromCCR(Target::DnDirect(Registers::D3))));
    assert_eq!(decode_plain(0x44C2), Ok(Instructions::MOVEtoCCR(Target::DnDirect(Registers::D2))));
    assert_eq!(decode_plain(0x46C0), Ok(Instructions::MOVEtoSR(Target::DnDirect(Registers::D0))));
    // the move-multiple rows are unsupported and must not decode silently
    assert_eq!(decode_with_ext(0x48A1, &[0x0101]), Ok(Instructions::NotImplemented));
}
