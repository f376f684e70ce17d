use m68k_core::instruction::{
    Condition, Direction, IndexRegister, Instructions, Registers, Size, Target,
};

#[test]
fn moveq_renders_its_canonical_text() {
    let ins = Instructions::MOVEQ(5, Registers::D2);
    assert_eq!(ins.render(), "MOVEQ\t #<5>, %d2");
}

#[test]
fn targets_render_with_mode_punctuation() {
    assert_eq!(Target::DnDirect(Registers::D3).render(), "%d3");
    assert_eq!(Target::AnDirect(Registers::SP).render(), "%sp");
    assert_eq!(Target::AnIndirect(Registers::A1).render(), "(%a1)");
    assert_eq!(Target::AnIndirectPostInc(Registers::A3).render(), "(%a3) +");
    assert_eq!(Target::AnIndirectPreDec(Registers::A0).render(), "- (%a0)");
    assert_eq!(Target::AnIndirectDisplacement(-4, Registers::A2).render(), "(-4_16, %a2)");
    assert_eq!(
        Target::AnIndirectIndex(
            2,
            Registers::A0,
            IndexRegister { register: Registers::D1, size: Size::Word, scale: 1 }
        )
        .render(),
        "(2_8, %a0, %d1.W*1)"
    );
    assert_eq!(Target::AbsoluteShortAddress(4096).render(), "(4096).W");
    assert_eq!(Target::AbsoluteLongAddress(0x12, 0x3456).render(), "(1193046).L");
    assert_eq!(Target::Immediate(42).render(), "#<42>");
    assert_eq!(Target::PCIndirectDisplacement(100, Registers::PC).render(), "(100_16, %pc)");
}

#[test]
fn two_operand_instructions_render_sized_mnemonics() {
    assert_eq!(
        Instructions::ADD(
            Target::DnDirect(Registers::D0),
            Target::DnDirect(Registers::D1),
            Size::Word
        )
        .render(),
        "ADD.W\t %d0, %d1"
    );
    assert_eq!(
        Instructions::MOVE(
            Target::AnIndirectPostInc(Registers::A0),
            Target::DnDirect(Registers::D3),
            Size::Byte
        )
        .render(),
        "MOVE.B\t (%a0) +, %d3"
    );
    assert_eq!(
        Instructions::ADDQ(1, Target::DnDirect(Registers::D2), Size::Long).render(),
        "ADDQ.L\t #<1>, %d2"
    );
    assert_eq!(
        Instructions::MOVEA(Target::DnDirect(Registers::D0), Registers::A2, Size::Long).render(),
        "MOVEA.L\t %d0, %a2"
    );
}

#[test]
fn branches_and_system_instructions_render() {
    assert_eq!(Instructions::BRA(8).render(), "BRA\t 8");
    assert_eq!(Instructions::BRA(-2).render(), "BRA\t -2");
    assert_eq!(Instructions::BSR(4).render(), "BSR\t 4");
    assert_eq!(Instructions::Bcc(Condition::Equal, 4).render(), "BEQ\t 4");
    assert_eq!(Instructions::Bcc(Condition::CarryClear, -6).render(), "BCC\t -6");
    assert_eq!(Instructions::DBcc(Condition::Neq, Registers::D3, -2).render(), "DBNE\t %d3, -2");
    assert_eq!(Instructions::Scc(Condition::Plus, Target::DnDirect(Registers::D4)).render(), "SPL\t %d4");
    assert_eq!(Instructions::NOP.render(), "NOP");
    assert_eq!(Instructions::RTS.render(), "RTS");
    assert_eq!(Instructions::ILLEGAL.render(), "ILLEGAL");
    assert_eq!(Instructions::STOP(0x2700).render(), "STOP\t #<9984>");
    assert_eq!(Instructions::TRAP(3).render(), "TRAP\t #<3>");
    assert_eq!(Instructions::LINK(Registers::A2, -16).render(), "LINK\t %a2, -16");
    assert_eq!(Instructions::UNLK(Registers::A2).render(), "UNLK\t %a2");
    assert_eq!(Instructions::SWAP(Registers::D3).render(), "SWAP\t %d3");
    assert_eq!(Instructions::EXT(Registers::D5, Size::Byte, Size::Word).render(), "EXT.W\t %d5");
    assert_eq!(
        Instructions::LEA(Target::AnIndirect(Registers::A1), Registers::A3).render(),
        "LEA\t (%a1), %a3"
    );
    assert_eq!(
        Instructions::MOVEUSP(Target::AnDirect(Registers::A2), Direction::RegisterToMemory)
            .render(),
        "MOVEUSP\t %a2, USP"
    );
    assert_eq!(Instructions::NotImplemented.render(), "Instruction not implemented!");
}

#[test]
fn distinct_modes_never_render_identically() {
    let forms = [
        Target::DnDirect(Registers::D1).render(),
        Target::AnDirect(Registers::A1).render(),
        Target::AnIndirect(Registers::A1).render(),
        Target::AnIndirectPostInc(Registers::A1).render(),
        Target::AnIndirectPreDec(Registers::A1).render(),
        Target::AnIndirectDisplacement(0, Registers::A1).render(),
        Target::AbsoluteShortAddress(0).render(),
        Target::AbsoluteLongAddress(0, 0).render(),
        Target::Immediate(0).render(),
    ];
    for i in 0..forms.len() {
        for j in 0..forms.len() {
            if i != j {
                assert_ne!(forms[i], forms[j]);
            }
        }
    }
}
