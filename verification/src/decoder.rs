//! The decoder: one 16-bit instruction word, plus whatever extension words its
//! addressing modes demand, becomes one `Instructions` value. Dispatch is on
//! the top four bits — the opcode group — and each group has its own routine.
//! Reserved or unsupported bit patterns decode to the `NotImplemented`
//! sentinel, never silently to an executable instruction; a fetch failure while
//! pulling extension words surfaces as a fault.

use vstd::prelude::*;

use crate::instruction::{Condition, IndexRegister, Instructions, Registers, Size, Target};
use crate::memory::{spec_fetch_word, Fault, Memory, MemoryIter};

verus! {

/// The sixteen architectural opcode classes, indexed by the top four bits of
/// an instruction word.
#[derive(Clone, Copy, Debug, PartialEq, Eq, Structural)]
pub enum OpCodeType {
    BitManipulation,
    MovByte,
    MovLong,
    MovWord,
    Misc,
    AddqSubq,
    Branch,
    Moveq,
    OrDiv,
    Sub,
    Reserved,
    CmpEor,
    AndMul,
    Add,
    Shift,
    Extension,
}

/// The opcode class a group index selects.
pub open spec fn spec_opcode_type(group: int) -> OpCodeType {
    if group == 0 {
        OpCodeType::BitManipulation
    } else if group == 1 {
        OpCodeType::MovByte
    } else if group == 2 {
        OpCodeType::MovLong
    } else if group == 3 {
        OpCodeType::MovWord
    } else if group == 4 {
        OpCodeType::Misc
    } else if group == 5 {
        OpCodeType::AddqSubq
    } else if group == 6 {
        OpCodeType::Branch
    } else if group == 7 {
        OpCodeType::Moveq
    } else if group == 8 {
        OpCodeType::OrDiv
    } else if group == 9 {
        OpCodeType::Sub
    } else if group == 10 {
        OpCodeType::Reserved
    } else if group == 11 {
        OpCodeType::CmpEor
    } else if group == 12 {
        OpCodeType::AndMul
    } else if group == 13 {
        OpCodeType::Add
    } else if group == 14 {
        OpCodeType::Shift
    } else {
        OpCodeType::Extension
    }
}

/// The opcode class of an instruction word.
pub fn opcode_type_of(ins: u16) -> (t: OpCodeType)
    ensures
        t == spec_opcode_type(ins as int / 0x1000),
{
    match ins / 0x1000 {
        0 => OpCodeType::BitManipulation,
        1 => OpCodeType::MovByte,
        2 => OpCodeType::MovLong,
        3 => OpCodeType::MovWord,
        4 => OpCodeType::Misc,
        5 => OpCodeType::AddqSubq,
        6 => OpCodeType::Branch,
        7 => OpCodeType::Moveq,
        8 => OpCodeType::OrDiv,
        9 => OpCodeType::Sub,
        10 => OpCodeType::Reserved,
        11 => OpCodeType::CmpEor,
        12 => OpCodeType::AndMul,
        13 => OpCodeType::Add,
        14 => OpCodeType::Shift,
        _ => OpCodeType::Extension,
    }
}

/// Classification of the effective-address forms by their mode (and, for mode
/// seven, register) field.
#[derive(Clone, Copy, Debug, PartialEq, Eq, Structural)]
pub enum AddressingMode {
    DataRegisterDirect,
    AddressRegisterDirect,
    AbsoluteShort,
    AbsoluteLong,
    RelativeWithOffset,
    RelativeWithOffsetAndIndex,
    RegisterIndirect,
    PostincrementRegisterIndirect,
    PredecrementRegisterIndirect,
    RegisterIndirectWithOffset,
    IndexedRegisterIndirectWithOffset,
    Immediate,
    QuickImmediate,
    ImpliedRegister,
}

/// The addressing-mode class named by a mode/register field pair, when the
/// pair names one.
pub open spec fn spec_addressing_mode(mode: int, reg: int) -> Option<AddressingMode> {
    if mode == 0 {
        Some(AddressingMode::DataRegisterDirect)
    } else if mode == 1 {
        Some(AddressingMode::AddressRegisterDirect)
    } else if mode == 2 {
        Some(AddressingMode::RegisterIndirect)
    } else if mode == 3 {
        Some(AddressingMode::PostincrementRegisterIndirect)
    } else if mode == 4 {
        Some(AddressingMode::PredecrementRegisterIndirect)
    } else if mode == 5 {
        Some(AddressingMode::RegisterIndirectWithOffset)
    } else if mode == 6 {
        Some(AddressingMode::IndexedRegisterIndirectWithOffset)
    } else if mode == 7 && reg == 0 {
        Some(AddressingMode::AbsoluteShort)
    } else if mode == 7 && reg == 1 {
        Some(AddressingMode::AbsoluteLong)
    } else if mode == 7 && reg == 2 {
        Some(AddressingMode::RelativeWithOffset)
    } else if mode == 7 && reg == 3 {
        Some(AddressingMode::RelativeWithOffsetAndIndex)
    } else if mode == 7 && reg == 4 {
        Some(AddressingMode::Immediate)
    } else {
        None
    }
}

/// The addressing-mode class of a mode/register field pair.
pub fn addressing_mode_of(mode: u16, reg: u16) -> (r: Option<AddressingMode>)
    requires
        mode < 8,
        reg < 8,
    ensures
        r == spec_addressing_mode(mode as int, reg as int),
{
    match mode {
        0 => Some(AddressingMode::DataRegisterDirect),
        1 => Some(AddressingMode::AddressRegisterDirect),
        2 => Some(AddressingMode::RegisterIndirect),
        3 => Some(AddressingMode::PostincrementRegisterIndirect),
        4 => Some(AddressingMode::PredecrementRegisterIndirect),
        5 => Some(AddressingMode::RegisterIndirectWithOffset),
        6 => Some(AddressingMode::IndexedRegisterIndirectWithOffset),
        _ => match reg {
            0 => Some(AddressingMode::AbsoluteShort),
            1 => Some(AddressingMode::AbsoluteLong),
            2 => Some(AddressingMode::RelativeWithOffset),
            3 => Some(AddressingMode::RelativeWithOffsetAndIndex),
            4 => Some(AddressingMode::Immediate),
            _ => None,
        },
    }
}

/// The data register with index `n`.
pub open spec fn spec_data_reg(n: int) -> Registers {
    if n == 0 {
        Registers::D0
    } else if n == 1 {
        Registers::D1
    } else if n == 2 {
        Registers::D2
    } else if n == 3 {
        Registers::D3
    } else if n == 4 {
        Registers::D4
    } else if n == 5 {
        Registers::D5
    } else if n == 6 {
        Registers::D6
    } else {
        Registers::D7
    }
}

/// The address register with index `n`; index seven is the stack pointer.
pub open spec fn spec_addr_reg(n: int) -> Registers {
    if n == 0 {
        Registers::A0
    } else if n == 1 {
        Registers::A1
    } else if n == 2 {
        Registers::A2
    } else if n == 3 {
        Registers::A3
    } else if n == 4 {
        Registers::A4
    } else if n == 5 {
        Registers::A5
    } else if n == 6 {
        Registers::A6
    } else {
        Registers::SP
    }
}

/// The data register a three-bit field names.
pub fn data_register(n: u16) -> (r: Registers)
    requires
        n < 8,
    ensures
        r == spec_data_reg(n as int),
{
    match n {
        0 => Registers::D0,
        1 => Registers::D1,
        2 => Registers::D2,
        3 => Registers::D3,
        4 => Registers::D4,
        5 => Registers::D5,
        6 => Registers::D6,
        _ => Registers::D7,
    }
}

/// The address register a three-bit field names.
pub fn address_register(n: u16) -> (r: Registers)
    requires
        n < 8,
    ensures
        r == spec_addr_reg(n as int),
{
    match n {
        0 => Registers::A0,
        1 => Registers::A1,
        2 => Registers::A2,
        3 => Registers::A3,
        4 => Registers::A4,
        5 => Registers::A5,
        6 => Registers::A6,
        _ => Registers::SP,
    }
}

/// A 16-bit word read as a two's-complement number.
pub open spec fn spec_sign16(w: u16) -> i32 {
    (if w >= 0x8000 {
        w - 0x1_0000
    } else {
        w as int
    }) as i32
}

/// The low byte of a word read as a two's-complement number.
pub open spec fn spec_sign8(w: u16) -> i32 {
    (if w % 0x100 >= 0x80 {
        w % 0x100 - 0x100
    } else {
        w as int % 0x100
    }) as i32
}

/// Sign-extend a 16-bit word to 32 bits.
pub fn sign16(w: u16) -> (r: i32)
    ensures
        r == spec_sign16(w),
{
    if w >= 0x8000 {
        (w as i32) - 0x1_0000
    } else {
        w as i32
    }
}

/// Sign-extend the low byte of a word to 32 bits.
pub fn sign8(w: u16) -> (r: i32)
    ensures
        r == spec_sign8(w),
{
    let b = w % 0x100;
    if b >= 0x80 {
        (b as i32) - 0x100
    } else {
        b as i32
    }
}

/// The index-register descriptor packed in a brief-format extension word:
/// register kind and number, active width, and scale factor.
pub open spec fn spec_index_reg(w: u16) -> IndexRegister {
    IndexRegister {
        register: if w / 0x8000 == 0 {
            spec_data_reg((w / 0x1000) as int % 8)
        } else {
            spec_addr_reg((w / 0x1000) as int % 8)
        },
        size: if (w / 0x800) % 2 == 0 {
            Size::Word
        } else {
            Size::Long
        },
        scale: if (w / 0x200) % 4 == 0 {
            1u8
        } else if (w / 0x200) % 4 == 1 {
            2u8
        } else if (w / 0x200) % 4 == 2 {
            4u8
        } else {
            8u8
        },
    }
}

/// Unpack the index-register descriptor of a brief-format extension word.
pub fn index_reg_of(w: u16) -> (r: IndexRegister)
    ensures
        r == spec_index_reg(w),
{
    let register = if w / 0x8000 == 0 {
        data_register((w / 0x1000) % 8)
    } else {
        address_register((w / 0x1000) % 8)
    };
    let size = if (w / 0x800) % 2 == 0 {
        Size::Word
    } else {
        Size::Long
    };
    let scale: u8 = match (w / 0x200) % 4 {
        0 => 1,
        1 => 2,
        2 => 4,
        _ => 8,
    };
    IndexRegister { register, size, scale }
}

/// What decoding an effective-address field yields: the operand (or `None` for
/// a reserved or unsupported encoding) and the address after any extension
/// words it consumed, or the fault that interrupted the extension-word fetch.
pub open spec fn spec_ea(m: Seq<u8>, a: u32, mode: int, reg: int, size: Size) -> Result<
    (Option<Target>, u32),
    Fault,
> {
    if mode == 0 {
        Ok((Some(Target::DnDirect(spec_data_reg(reg))), a))
    } else if mode == 1 {
        Ok((Some(Target::AnDirect(spec_addr_reg(reg))), a))
    } else if mode == 2 {
        Ok((Some(Target::AnIndirect(spec_addr_reg(reg))), a))
    } else if mode == 3 {
        Ok((Some(Target::AnIndirectPostInc(spec_addr_reg(reg))), a))
    } else if mode == 4 {
        Ok((Some(Target::AnIndirectPreDec(spec_addr_reg(reg))), a))
    } else if mode == 5 {
        match spec_fetch_word(m, a) {
            Ok(w1) => Ok(
                (
                    Some(Target::AnIndirectDisplacement(spec_sign16(w1), spec_addr_reg(reg))),
                    (a + 2) as u32,
                ),
            ),
            Err(f) => Err(f),
        }
    } else if mode == 6 {
        match spec_fetch_word(m, a) {
            Ok(w1) => if (w1 / 0x100) % 2 == 0 {
                Ok(
                    (
                        Some(
                            Target::AnIndirectIndex(
                                spec_sign8(w1),
                                spec_addr_reg(reg),
                                spec_index_reg(w1),
                            ),
                        ),
                        (a + 2) as u32,
                    ),
                )
            } else {
                Ok((None, (a + 2) as u32))
            },
            Err(f) => Err(f),
        }
    } else if reg == 0 {
        match spec_fetch_word(m, a) {
            Ok(w1) => Ok((Some(Target::AbsoluteShortAddress(spec_sign16(w1))), (a + 2) as u32)),
            Err(f) => Err(f),
        }
    } else if reg == 1 {
        match spec_fetch_word(m, a) {
            Ok(w1) => match spec_fetch_word(m, (a + 2) as u32) {
                Ok(w2) => Ok(
                    (Some(Target::AbsoluteLongAddress(w1 as u32, w2 as u32)), (a + 4) as u32),
                ),
                Err(f) => Err(f),
            },
            Err(f) => Err(f),
        }
    } else if reg == 2 {
        match spec_fetch_word(m, a) {
            Ok(w1) => if 0 <= a + spec_sign16(w1) <= 0x7FFF_FFFF {
                Ok(
                    (
                        Some(
                            Target::PCIndirectDisplacement(
                                (a + spec_sign16(w1)) as i32,
                                Registers::PC,
                            ),
                        ),
                        (a + 2) as u32,
                    ),
                )
            } else {
                Ok((None, (a + 2) as u32))
            },
            Err(f) => Err(f),
        }
    } else if reg == 3 {
        match spec_fetch_word(m, a) {
            Ok(w1) => if (w1 / 0x100) % 2 == 0 && 0 <= a + spec_sign8(w1) <= 0x7FFF_FFFF {
                Ok(
                    (
                        Some(
                            Target::PCIndirectIndex(
                                (a + spec_sign8(w1)) as i32,
                                Registers::PC,
                                spec_index_reg(w1),
                            ),
                        ),
                        (a + 2) as u32,
                    ),
                )
            } else {
                Ok((None, (a + 2) as u32))
            },
            Err(f) => Err(f),
        }
    } else if reg == 4 {
        match size {
            Size::Byte => match spec_fetch_word(m, a) {
                Ok(w1) => Ok((Some(Target::Immediate((w1 % 0x100) as u32)), (a + 2) as u32)),
                Err(f) => Err(f),
            },
            Size::Word => match spec_fetch_word(m, a) {
                Ok(w1) => Ok((Some(Target::Immediate(w1 as u32)), (a + 2) as u32)),
                Err(f) => Err(f),
            },
            Size::Long => match spec_fetch_word(m, a) {
                Ok(w1) => match spec_fetch_word(m, (a + 2) as u32) {
                    Ok(w2) => Ok(
                        (
                            Some(Target::Immediate((w1 as int * 0x1_0000 + w2 as int) as u32)),
                            (a + 4) as u32,
                        ),
                    ),
                    Err(f) => Err(f),
                },
                Err(f) => Err(f),
            },
        }
    } else {
        Ok((None, a))
    }
}

/// Decode an effective-address field, pulling extension words through the
/// cursor as the mode demands. `Ok(None)` reports a reserved or unsupported
/// encoding; the program-counter-relative forms come back with their base
/// already resolved against the extension word's address, so the operand is
/// self-contained.
pub fn decode_ea<M: Memory>(
    mem: &M,
    it: &mut MemoryIter,
    mode: u16,
    reg: u16,
    size: Size,
) -> (r: Result<Option<Target>, Fault>)
    requires
        mode < 8,
        reg < 8,
    ensures
        match spec_ea(mem.contents(), old(it).next_address, mode as int, reg as int, size) {
            Ok((t, a2)) => r == Ok::<Option<Target>, Fault>(t) && final(it).next_address == a2,
            Err(f) => r == Err::<Option<Target>, Fault>(f),
        },
{
    match mode {
        0 => Ok(Some(Target::DnDirect(data_register(reg)))),
        1 => Ok(Some(Target::AnDirect(address_register(reg)))),
        2 => Ok(Some(Target::AnIndirect(address_register(reg)))),
        3 => Ok(Some(Target::AnIndirectPostInc(address_register(reg)))),
        4 => Ok(Some(Target::AnIndirectPreDec(address_register(reg)))),
        5 => {
            let w1 = it.next(mem)?;
            Ok(Some(Target::AnIndirectDisplacement(sign16(w1), address_register(reg))))
        },
        6 => {
            let w1 = it.next(mem)?;
            if (w1 / 0x100) % 2 == 0 {
                Ok(Some(Target::AnIndirectIndex(sign8(w1), address_register(reg), index_reg_of(w1))))
            } else {
                Ok(None)
            }
        },
        _ => match reg {
            0 => {
                let w1 = it.next(mem)?;
                Ok(Some(Target::AbsoluteShortAddress(sign16(w1))))
            },
            1 => {
                let w1 = it.next(mem)?;
                let w2 = it.next(mem)?;
                Ok(Some(Target::AbsoluteLongAddress(w1 as u32, w2 as u32)))
            },
            2 => {
                let base = it.next_address;
                let w1 = it.next(mem)?;
                let ea = base as i64 + sign16(w1) as i64;
                if 0 <= ea && ea <= 0x7FFF_FFFF {
                    Ok(Some(Target::PCIndirectDisplacement(ea as i32, Registers::PC)))
                } else {
                    Ok(None)
                }
            },
            3 => {
                let base = it.next_address;
                let w1 = it.next(mem)?;
                let ea = base as i64 + sign8(w1) as i64;
                if (w1 / 0x100) % 2 == 0 && 0 <= ea && ea <= 0x7FFF_FFFF {
                    Ok(Some(Target::PCIndirectIndex(ea as i32, Registers::PC, index_reg_of(w1))))
                } else {
                    Ok(None)
                }
            },
            4 => match size {
                Size::Byte => {
                    let w1 = it.next(mem)?;
                    Ok(Some(Target::Immediate((w1 % 0x100) as u32)))
                },
                Size::Word => {
                    let w1 = it.next(mem)?;
                    Ok(Some(Target::Immediate(w1 as u32)))
                },
                Size::Long => {
                    let w1 = it.next(mem)?;
                    let w2 = it.next(mem)?;
                    Ok(Some(Target::Immediate((w1 as u32) * 0x1_0000 + (w2 as u32)))
                    )
                },
            },
            _ => Ok(None),
        },
    }
}

/// What a group routine yields: the decoded instruction and the address after
/// the extension words it consumed.
pub type Decoded = Result<(Instructions, u32), Fault>;

/// The operand width a two-bit size field selects; the reserved value three
/// never reaches this.
pub open spec fn spec_size2(z: int) -> Size {
    if z == 0 {
        Size::Byte
    } else if z == 1 {
        Size::Word
    } else {
        Size::Long
    }
}

/// The operand width of a two-bit size field.
pub fn size_of2(z: u16) -> (r: Size)
    requires
        z < 3,
    ensures
        r == spec_size2(z as int),
{
    match z {
        0 => Size::Byte,
        1 => Size::Word,
        _ => Size::Long,
    }
}

/// The condition a four-bit condition field selects; the always/never values
/// zero and one never reach this.
pub open spec fn spec_cond(c: int) -> Condition {
    if c == 2 {
        Condition::High
    } else if c == 3 {
        Condition::Low
    } else if c == 4 {
        Condition::CarryClear
    } else if c == 5 {
        Condition::CarrySet
    } else if c == 6 {
        Condition::Neq
    } else if c == 7 {
        Condition::Equal
    } else if c == 8 {
        Condition::OverflowClear
    } else if c == 9 {
        Condition::OverflowSet
    } else if c == 10 {
        Condition::Plus
    } else if c == 11 {
        Condition::Minus
    } else if c == 12 {
        Condition::Geq
    } else if c == 13 {
        Condition::Lt
    } else if c == 14 {
        Condition::Gt
    } else {
        Condition::Leq
    }
}

/// The condition a four-bit condition field selects.
pub fn condition_of(c: u16) -> (r: Condition)
    requires
        2 <= c < 16,
    ensures
        r == spec_cond(c as int),
{
    match c {
        2 => Condition::High,
        3 => Condition::Low,
        4 => Condition::CarryClear,
        5 => Condition::CarrySet,
        6 => Condition::Neq,
        7 => Condition::Equal,
        8 => Condition::OverflowClear,
        9 => Condition::OverflowSet,
        10 => Condition::Plus,
        11 => Condition::Minus,
        12 => Condition::Geq,
        13 => Condition::Lt,
        14 => Condition::Gt,
        _ => Condition::Leq,
    }
}

/// A 16-bit word read as a two's-complement 16-bit number.
pub open spec fn spec_sign16w(w: u16) -> i16 {
    (if w >= 0x8000 {
        w - 0x1_0000
    } else {
        w as int
    }) as i16
}

/// Reinterpret a 16-bit word as a two's-complement 16-bit number.
pub fn sign16w(w: u16) -> (r: i16)
    ensures
        r == spec_sign16w(w),
{
    if w >= 0x8000 {
        ((w as i32) - 0x1_0000) as i16
    } else {
        w as i16
    }
}

/// Move quick: group seven. Bit eight set is reserved.
pub open spec fn spec_decode_moveq(m: Seq<u8>, a: u32, ins: u16) -> Decoded {
    if (ins / 0x100) % 2 == 0 {
        Ok(
            (
                Instructions::MOVEQ((ins % 0x100) as u8, spec_data_reg((ins / 0x200) as int % 8)),
                a,
            ),
        )
    } else {
        Ok((Instructions::NotImplemented, a))
    }
}

/// Decode a move-quick instruction word.
pub fn decode_moveq<M: Memory>(mem: &M, it: &mut MemoryIter, ins: u16) -> (r: Result<
    Instructions,
    Fault,
>)
    ensures
        match spec_decode_moveq(mem.contents(), old(it).next_address, ins) {
            Ok((i2, a2)) => r == Ok::<Instructions, Fault>(i2) && final(it).next_address == a2,
            Err(f) => r == Err::<Instructions, Fault>(f),
        },
{
    if (ins / 0x100) % 2 == 0 {
        Ok(Instructions::MOVEQ((ins % 0x100) as u8, data_register((ins / 0x200) % 8)))
    } else {
        Ok(Instructions::NotImplemented)
    }
}

/// Branches: group six. An all-zero byte displacement pulls a 16-bit
/// displacement from the extension word; conditions zero and one are the
/// unconditional branch and the branch to subroutine. Every label is stored
/// relative to the address after the whole branch instruction, so the word
/// form (whose architectural base is the extension word itself) is adjusted
/// by the extension word's length.
pub open spec fn spec_decode_branch(m: Seq<u8>, a: u32, ins: u16) -> Decoded {
    let cond = (ins / 0x100) as int % 16;
    if ins % 0x100 == 0 {
        match spec_fetch_word(m, a) {
            Ok(w1) => Ok(
                (
                    if cond == 0 {
                        Instructions::BRA((spec_sign16(w1) - 2) as i32)
                    } else if cond == 1 {
                        Instructions::BSR((spec_sign16(w1) - 2) as i32)
                    } else {
                        Instructions::Bcc(spec_cond(cond), (spec_sign16(w1) - 2) as i32)
                    },
                    (a + 2) as u32,
                ),
            ),
            Err(f) => Err(f),
        }
    } else {
        Ok(
            (
                if cond == 0 {
                    Instructions::BRA(spec_sign8(ins))
                } else if cond == 1 {
                    Instructions::BSR(spec_sign8(ins))
                } else {
                    Instructions::Bcc(spec_cond(cond), spec_sign8(ins))
                },
                a,
            ),
        )
    }
}

/// Decode a branch instruction word.
pub fn decode_branch<M: Memory>(mem: &M, it: &mut MemoryIter, ins: u16) -> (r: Result<
    Instructions,
    Fault,
>)
    ensures
        match spec_decode_branch(mem.contents(), old(it).next_address, ins) {
            Ok((i2, a2)) => r == Ok::<Instructions, Fault>(i2) && final(it).next_address == a2,
            Err(f) => r == Err::<Instructions, Fault>(f),
        },
{
    let cond = (ins / 0x100) % 16;
    let disp: i32 = if ins % 0x100 == 0 {
        let w1 = it.next(mem)?;
        sign16(w1) - 2
    } else {
        sign8(ins)
    };
    if cond == 0 {
        Ok(Instructions::BRA(disp))
    } else if cond == 1 {
        Ok(Instructions::BSR(disp))
    } else {
        Ok(Instructions::Bcc(condition_of(cond), disp))
    }
}

/// Add quick, subtract quick, conditional set and decrement-and-branch:
/// group five.
pub open spec fn spec_decode_addq_subq(m: Seq<u8>, a: u32, ins: u16) -> Decoded {
    let size2 = (ins / 0x40) as int % 4;
    let mode = (ins / 8) as int % 8;
    let reg = ins as int % 8;
    let cond = (ins / 0x100) as int % 16;
    let data = if (ins / 0x200) % 8 == 0 {
        8u32
    } else {
        ((ins / 0x200) % 8) as u32
    };
    if size2 < 3 {
        match spec_ea(m, a, mode, reg, spec_size2(size2)) {
            Ok((Some(t), a2)) => Ok(
                (
                    if (ins / 0x100) % 2 == 0 {
                        Instructions::ADDQ(data, t, spec_size2(size2))
                    } else {
                        Instructions::SUBQ(data, t, spec_size2(size2))
                    },
                    a2,
                ),
            ),
            Ok((None, a2)) => Ok((Instructions::NotImplemented, a2)),
            Err(f) => Err(f),
        }
    } else if mode == 1 {
        if cond >= 2 {
            match spec_fetch_word(m, a) {
                Ok(w1) => Ok(
                    (
                        Instructions::DBcc(spec_cond(cond), spec_data_reg(reg), spec_sign16w(w1)),
                        (a + 2) as u32,
                    ),
                ),
                Err(f) => Err(f),
            }
        } else {
            Ok((Instructions::NotImplemented, a))
        }
    } else {
        if cond >= 2 {
            match spec_ea(m, a, mode, reg, Size::Byte) {
                Ok((Some(t), a2)) => Ok((Instructions::Scc(spec_cond(cond), t), a2)),
                Ok((None, a2)) => Ok((Instructions::NotImplemented, a2)),
                Err(f) => Err(f),
            }
        } else {
            Ok((Instructions::NotImplemented, a))
        }
    }
}

/// Decode an add-quick/subtract-quick/set/decrement-and-branch word.
pub fn decode_addq_subq<M: Memory>(mem: &M, it: &mut MemoryIter, ins: u16) -> (r: Result<
    Instructions,
    Fault,
>)
    ensures
        match spec_decode_addq_subq(mem.contents(), old(it).next_address, ins) {
            Ok((i2, a2)) => r == Ok::<Instructions, Fault>(i2) && final(it).next_address == a2,
            Err(f) => r == Err::<Instructions, Fault>(f),
        },
{
    let size2 = (ins / 0x40) % 4;
    let mode = (ins / 8) % 8;
    let reg = ins % 8;
    let cond = (ins / 0x100) % 16;
    let data: u32 = if (ins / 0x200) % 8 == 0 {
        8
    } else {
        ((ins / 0x200) % 8) as u32
    };
    if size2 < 3 {
        let z = size_of2(size2);
        match decode_ea(mem, it, mode, reg, z)? {
            Some(t) => {
                if (ins / 0x100) % 2 == 0 {
                    Ok(Instructions::ADDQ(data, t, z))
                } else {
                    Ok(Instructions::SUBQ(data, t, z))
                }
            },
            None => Ok(Instructions::NotImplemented),
        }
    } else if mode == 1 {
        if cond >= 2 {
            let w1 = it.next(mem)?;
            Ok(Instructions::DBcc(condition_of(cond), data_register(reg), sign16w(w1)))
        } else {
            Ok(Instructions::NotImplemented)
        }
    } else {
        if cond >= 2 {
            match decode_ea(mem, it, mode, reg, Size::Byte)? {
                Some(t) => Ok(Instructions::Scc(condition_of(cond), t)),
                None => Ok(Instructions::NotImplemented),
            }
        } else {
            Ok(Instructions::NotImplemented)
        }
    }
}

/// A move at a given width: groups one, two and three. The source operand's
/// extension words come first in the stream, then the destination's. A
/// destination in a program-counter-relative or immediate form is reserved;
/// an address-register destination is the move-address form, which has no
/// byte width.
pub open spec fn spec_decode_move(m: Seq<u8>, a: u32, ins: u16, z: Size) -> Decoded {
    let src_mode = (ins / 8) as int % 8;
    let src_reg = ins as int % 8;
    let dst_mode = (ins / 0x40) as int % 8;
    let dst_reg = (ins / 0x200) as int % 8;
    match spec_ea(m, a, src_mode, src_reg, z) {
        Ok((Some(src), a2)) => if dst_mode == 1 {
            if z is Byte {
                Ok((Instructions::NotImplemented, a2))
            } else {
                Ok((Instructions::MOVEA(src, spec_addr_reg(dst_reg), z), a2))
            }
        } else if dst_mode == 7 && dst_reg >= 2 {
            Ok((Instructions::NotImplemented, a2))
        } else {
            match spec_ea(m, a2, dst_mode, dst_reg, z) {
                Ok((Some(dst), a3)) => Ok((Instructions::MOVE(src, dst, z), a3)),
                Ok((None, a3)) => Ok((Instructions::NotImplemented, a3)),
                Err(f) => Err(f),
            }
        },
        Ok((None, a2)) => Ok((Instructions::NotImplemented, a2)),
        Err(f) => Err(f),
    }
}

/// Decode a move instruction word at width `z`.
fn decode_move_sized<M: Memory>(mem: &M, it: &mut MemoryIter, ins: u16, z: Size) -> (r: Result<
    Instructions,
    Fault,
>)
    ensures
        match spec_decode_move(mem.contents(), old(it).next_address, ins, z) {
            Ok((i2, a2)) => r == Ok::<Instructions, Fault>(i2) && final(it).next_address == a2,
            Err(f) => r == Err::<Instructions, Fault>(f),
        },
{
    let src_mode = (ins / 8) % 8;
    let src_reg = ins % 8;
    let dst_mode = (ins / 0x40) % 8;
    let dst_reg = (ins / 0x200) % 8;
    match decode_ea(mem, it, src_mode, src_reg, z)? {
        Some(src) => {
            if dst_mode == 1 {
                if matches!(z, Size::Byte) {
                    Ok(Instructions::NotImplemented)
                } else {
                    Ok(Instructions::MOVEA(src, address_register(dst_reg), z))
                }
            } else if dst_mode == 7 && dst_reg >= 2 {
                Ok(Instructions::NotImplemented)
            } else {
                match decode_ea(mem, it, dst_mode, dst_reg, z)? {
                    Some(dst) => Ok(Instructions::MOVE(src, dst, z)),
                    None => Ok(Instructions::NotImplemented),
                }
            }
        },
        None => Ok(Instructions::NotImplemented),
    }
}

/// Byte-width moves: group one.
pub fn decode_mov_byte<M: Memory>(mem: &M, it: &mut MemoryIter, ins: u16) -> (r: Result<
    Instructions,
    Fault,
>)
    ensures
        match spec_decode_move(mem.contents(), old(it).next_address, ins, Size::Byte) {
            Ok((i2, a2)) => r == Ok::<Instructions, Fault>(i2) && final(it).next_address == a2,
            Err(f) => r == Err::<Instructions, Fault>(f),
        },
{
    decode_move_sized(mem, it, ins, Size::Byte)
}

/// Long-width moves: group two.
pub fn decode_mov_long<M: Memory>(mem: &M, it: &mut MemoryIter, ins: u16) -> (r: Result<
    Instructions,
    Fault,
>)
    ensures
        match spec_decode_move(mem.contents(), old(it).next_address, ins, Size::Long) {
            Ok((i2, a2)) => r == Ok::<Instructions, Fault>(i2) && final(it).next_address == a2,
            Err(f) => r == Err::<Instructions, Fault>(f),
        },
{
    decode_move_sized(mem, it, ins, Size::Long)
}

/// Word-width moves: group three.
pub fn decode_mov_word<M: Memory>(mem: &M, it: &mut MemoryIter, ins: u16) -> (r: Result<
    Instructions,
    Fault,
>)
    ensures
        match spec_decode_move(mem.contents(), old(it).next_address, ins, Size::Word) {
            Ok((i2, a2)) => r == Ok::<Instructions, Fault>(i2) && final(it).next_address == a2,
            Err(f) => r == Err::<Instructions, Fault>(f),
        },
{
    decode_move_sized(mem, it, ins, Size::Word)
}

/// The add and subtract families share one layout: groups nine and thirteen.
/// Opmodes zero to two operate into the data register, four to six into the
/// operand (or are the extend form when the operand field names a register),
/// three and seven are the address-register form.
pub open spec fn spec_decode_addsub(m: Seq<u8>, a: u32, ins: u16, is_add: bool) -> Decoded {
    let dn = (ins / 0x200) as int % 8;
    let opmode = (ins / 0x40) as int % 8;
    let mode = (ins / 8) as int % 8;
    let reg = ins as int % 8;
    if opmode == 3 || opmode == 7 {
        let z = if opmode == 3 {
            Size::Word
        } else {
            Size::Long
        };
        match spec_ea(m, a, mode, reg, z) {
            Ok((Some(t), a2)) => Ok(
                (
                    if is_add {
                        Instructions::ADDA(t, spec_addr_reg(dn), z)
                    } else {
                        Instructions::SUBA(t, spec_addr_reg(dn), z)
                    },
                    a2,
                ),
            ),
            Ok((None, a2)) => Ok((Instructions::NotImplemented, a2)),
            Err(f) => Err(f),
        }
    } else if opmode < 3 {
        match spec_ea(m, a, mode, reg, spec_size2(opmode)) {
            Ok((Some(t), a2)) => Ok(
                (
                    if is_add {
                        Instructions::ADD(t, Target::DnDirect(spec_data_reg(dn)), spec_size2(opmode))
                    } else {
                        Instructions::SUB(t, Target::DnDirect(spec_data_reg(dn)), spec_size2(opmode))
                    },
                    a2,
                ),
            ),
            Ok((None, a2)) => Ok((Instructions::NotImplemented, a2)),
            Err(f) => Err(f),
        }
    } else if mode == 0 {
        let z = spec_size2(opmode - 4);
        Ok(
            (
                if is_add {
                    Instructions::ADDX(
                        Target::DnDirect(spec_data_reg(reg)),
                        Target::DnDirect(spec_data_reg(dn)),
                        z,
                    )
                } else {
                    Instructions::SUBX(
                        Target::DnDirect(spec_data_reg(reg)),
                        Target::DnDirect(spec_data_reg(dn)),
                        z,
                    )
                },
                a,
            ),
        )
    } else if mode == 1 {
        let z = spec_size2(opmode - 4);
        Ok(
            (
                if is_add {
                    Instructions::ADDX(
                        Target::AnIndirectPreDec(spec_addr_reg(reg)),
                        Target::AnIndirectPreDec(spec_addr_reg(dn)),
                        z,
                    )
                } else {
                    Instructions::SUBX(
                        Target::AnIndirectPreDec(spec_addr_reg(reg)),
                        Target::AnIndirectPreDec(spec_addr_reg(dn)),
                        z,
                    )
                },
                a,
            ),
        )
    } else {
        let z = spec_size2(opmode - 4);
        match spec_ea(m, a, mode, reg, z) {
            Ok((Some(t), a2)) => Ok(
                (
                    if is_add {
                        Instructions::ADD(Target::DnDirect(spec_data_reg(dn)), t, z)
                    } else {
                        Instructions::SUB(Target::DnDirect(spec_data_reg(dn)), t, z)
                    },
                    a2,
                ),
            ),
            Ok((None, a2)) => Ok((Instructions::NotImplemented, a2)),
            Err(f) => Err(f),
        }
    }
}

/// Decode an add- or subtract-family word.
fn decode_addsub<M: Memory>(mem: &M, it: &mut MemoryIter, ins: u16, is_add: bool) -> (r: Result<
    Instructions,
    Fault,
>)
    ensures
        match spec_decode_addsub(mem.contents(), old(it).next_address, ins, is_add) {
            Ok((i2, a2)) => r == Ok::<Instructions, Fault>(i2) && final(it).next_address == a2,
            Err(f) => r == Err::<Instructions, Fault>(f),
        },
{
    let dn = (ins / 0x200) % 8;
    let opmode = (ins / 0x40) % 8;
    let mode = (ins / 8) % 8;
    let reg = ins % 8;
    if opmode == 3 || opmode == 7 {
        let z = if opmode == 3 {
            Size::Word
        } else {
            Size::Long
        };
        match decode_ea(mem, it, mode, reg, z)? {
            Some(t) => {
                if is_add {
                    Ok(Instructions::ADDA(t, address_register(dn), z))
                } else {
                    Ok(Instructions::SUBA(t, address_register(dn), z))
                }
            },
            None => Ok(Instructions::NotImplemented),
        }
    } else if opmode < 3 {
        let z = size_of2(opmode);
        match decode_ea(mem, it, mode, reg, z)? {
            Some(t) => {
                if is_add {
                    Ok(Instructions::ADD(t, Target::DnDirect(data_register(dn)), z))
                } else {
                    Ok(Instructions::SUB(t, Target::DnDirect(data_register(dn)), z))
                }
            },
            None => Ok(Instructions::NotImplemented),
        }
    } else if mode == 0 {
        let z = size_of2(opmode - 4);
        let src = Target::DnDirect(data_register(reg));
        let dst = Target::DnDirect(data_register(dn));
        if is_add {
            Ok(Instructions::ADDX(src, dst, z))
        } else {
            Ok(Instructions::SUBX(src, dst, z))
        }
    } else if mode == 1 {
        let z = size_of2(opmode - 4);
        let src = Target::AnIndirectPreDec(address_register(reg));
        let dst = Target::AnIndirectPreDec(address_register(dn));
        if is_add {
            Ok(Instructions::ADDX(src, dst, z))
        } else {
            Ok(Instructions::SUBX(src, dst, z))
        }
    } else {
        let z = size_of2(opmode - 4);
        match decode_ea(mem, it, mode, reg, z)? {
            Some(t) => {
                if is_add {
                    Ok(Instructions::ADD(Target::DnDirect(data_register(dn)), t, z))
                } else {
                    Ok(Instructions::SUB(Target::DnDirect(data_register(dn)), t, z))
                }
            },
            None => Ok(Instructions::NotImplemented),
        }
    }
}

/// The subtract family: group nine.
pub fn decode_sub<M: Memory>(mem: &M, it: &mut MemoryIter, ins: u16) -> (r: Result<
    Instructions,
    Fault,
>)
    ensures
        match spec_decode_addsub(mem.contents(), old(it).next_address, ins, false) {
            Ok((i2, a2)) => r == Ok::<Instructions, Fault>(i2) && final(it).next_address == a2,
            Err(f) => r == Err::<Instructions, Fault>(f),
        },
{
    decode_addsub(mem, it, ins, false)
}

/// The add family: group thirteen.
pub fn decode_add<M: Memory>(mem: &M, it: &mut MemoryIter, ins: u16) -> (r: Result<
    Instructions,
    Fault,
>)
    ensures
        match spec_decode_addsub(mem.contents(), old(it).next_address, ins, true) {
            Ok((i2, a2)) => r == Ok::<Instructions, Fault>(i2) && final(it).next_address == a2,
            Err(f) => r == Err::<Instructions, Fault>(f),
        },
{
    decode_addsub(mem, it, ins, true)
}

/// Inclusive or, unsigned/signed divide and decimal subtract: group eight.
pub open spec fn spec_decode_or_div(m: Seq<u8>, a: u32, ins: u16) -> Decoded {
    let dn = (ins / 0x200) as int % 8;
    let opmode = (ins / 0x40) as int % 8;
    let mode = (ins / 8) as int % 8;
    let reg = ins as int % 8;
    if opmode == 3 || opmode == 7 {
        match spec_ea(m, a, mode, reg, Size::Word) {
            Ok((Some(t), a2)) => Ok(
                (
                    if opmode == 3 {
                        Instructions::DIVUW(t, spec_data_reg(dn), Size::Word)
                    } else {
                        Instructions::DIVSW(t, spec_data_reg(dn), Size::Word)
                    },
                    a2,
                ),
            ),
            Ok((None, a2)) => Ok((Instructions::NotImplemented, a2)),
            Err(f) => Err(f),
        }
    } else if opmode < 3 {
        match spec_ea(m, a, mode, reg, spec_size2(opmode)) {
            Ok((Some(t), a2)) => Ok(
                (
                    Instructions::OR(t, Target::DnDirect(spec_data_reg(dn)), spec_size2(opmode)),
                    a2,
                ),
            ),
            Ok((None, a2)) => Ok((Instructions::NotImplemented, a2)),
            Err(f) => Err(f),
        }
    } else if opmode == 4 && mode == 0 {
        Ok(
            (
                Instructions::SBCD(
                    Target::DnDirect(spec_data_reg(reg)),
                    Target::DnDirect(spec_data_reg(dn)),
                ),
                a,
            ),
        )
    } else if opmode == 4 && mode == 1 {
        Ok(
            (
                Instructions::SBCD(
                    Target::AnIndirectPreDec(spec_addr_reg(reg)),
                    Target::AnIndirectPreDec(spec_addr_reg(dn)),
                ),
                a,
            ),
        )
    } else if mode >= 2 {
        let z = spec_size2(opmode - 4);
        match spec_ea(m, a, mode, reg, z) {
            Ok((Some(t), a2)) => Ok(
                (Instructions::OR(Target::DnDirect(spec_data_reg(dn)), t, z), a2),
            ),
            Ok((None, a2)) => Ok((Instructions::NotImplemented, a2)),
            Err(f) => Err(f),
        }
    } else {
        Ok((Instructions::NotImplemented, a))
    }
}

/// Decode an or/divide/decimal-subtract word.
pub fn decode_or_div<M: Memory>(mem: &M, it: &mut MemoryIter, ins: u16) -> (r: Result<
    Instructions,
    Fault,
>)
    ensures
        match spec_decode_or_div(mem.contents(), old(it).next_address, ins) {
            Ok((i2, a2)) => r == Ok::<Instructions, Fault>(i2) && final(it).next_address == a2,
            Err(f) => r == Err::<Instructions, Fault>(f),
        },
{
    let dn = (ins / 0x200) % 8;
    let opmode = (ins / 0x40) % 8;
    let mode = (ins / 8) % 8;
    let reg = ins % 8;
    if opmode == 3 || opmode == 7 {
        match decode_ea(mem, it, mode, reg, Size::Word)? {
            Some(t) => {
                if opmode == 3 {
                    Ok(Instructions::DIVUW(t, data_register(dn), Size::Word))
                } else {
                    Ok(Instructions::DIVSW(t, data_register(dn), Size::Word))
                }
            },
            None => Ok(Instructions::NotImplemented),
        }
    } else if opmode < 3 {
        let z = size_of2(opmode);
        match decode_ea(mem, it, mode, reg, z)? {
            Some(t) => Ok(Instructions::OR(t, Target::DnDirect(data_register(dn)), z)),
            None => Ok(Instructions::NotImplemented),
        }
    } else if opmode == 4 && mode == 0 {
        Ok(
            Instructions::SBCD(
                Target::DnDirect(data_register(reg)),
                Target::DnDirect(data_register(dn)),
            ),
        )
    } else if opmode == 4 && mode == 1 {
        Ok(
            Instructions::SBCD(
                Target::AnIndirectPreDec(address_register(reg)),
                Target::AnIndirectPreDec(address_register(dn)),
            ),
        )
    } else if mode >= 2 {
        let z = size_of2(opmode - 4);
        match decode_ea(mem, it, mode, reg, z)? {
            Some(t) => Ok(Instructions::OR(Target::DnDirect(data_register(dn)), t, z)),
            None => Ok(Instructions::NotImplemented),
        }
    } else {
        Ok(Instructions::NotImplemented)
    }
}

/// Compare, compare-address, compare-memory and exclusive or: group eleven.
pub open spec fn spec_decode_cmp_eor(m: Seq<u8>, a: u32, ins: u16) -> Decoded {
    let dn = (ins / 0x200) as int % 8;
    let opmode = (ins / 0x40) as int % 8;
    let mode = (ins / 8) as int % 8;
    let reg = ins as int % 8;
    if opmode == 3 || opmode == 7 {
        let z = if opmode == 3 {
            Size::Word
        } else {
            Size::Long
        };
        match spec_ea(m, a, mode, reg, z) {
            Ok((Some(t), a2)) => Ok((Instructions::CMPA(t, spec_addr_reg(dn), z), a2)),
            Ok((None, a2)) => Ok((Instructions::NotImplemented, a2)),
            Err(f) => Err(f),
        }
    } else if opmode < 3 {
        match spec_ea(m, a, mode, reg, spec_size2(opmode)) {
            Ok((Some(t), a2)) => Ok(
                (
                    Instructions::CMP(t, Target::DnDirect(spec_data_reg(dn)), spec_size2(opmode)),
                    a2,
                ),
            ),
            Ok((None, a2)) => Ok((Instructions::NotImplemented, a2)),
            Err(f) => Err(f),
        }
    } else if mode == 1 {
        let z = spec_size2(opmode - 4);
        Ok(
            (
                Instructions::CMPM(
                    Target::AnIndirectPostInc(spec_addr_reg(reg)),
                    Target::AnIndirectPostInc(spec_addr_reg(dn)),
                    z,
                ),
                a,
            ),
        )
    } else {
        let z = spec_size2(opmode - 4);
        match spec_ea(m, a, mode, reg, z) {
            Ok((Some(t), a2)) => Ok(
                (Instructions::EOR(Target::DnDirect(spec_data_reg(dn)), t, z), a2),
            ),
            Ok((None, a2)) => Ok((Instructions::NotImplemented, a2)),
            Err(f) => Err(f),
        }
    }
}

/// Decode a compare/exclusive-or word.
pub fn decode_cmp_eor<M: Memory>(mem: &M, it: &mut MemoryIter, ins: u16) -> (r: Result<
    Instructions,
    Fault,
>)
    ensures
        match spec_decode_cmp_eor(mem.contents(), old(it).next_address, ins) {
            Ok((i2, a2)) => r == Ok::<Instructions, Fault>(i2) && final(it).next_address == a2,
            Err(f) => r == Err::<Instructions, Fault>(f),
        },
{
    let dn = (ins / 0x200) % 8;
    let opmode = (ins / 0x40) % 8;
    let mode = (ins / 8) % 8;
    let reg = ins % 8;
    if opmode == 3 || opmode == 7 {
        let z = if opmode == 3 {
            Size::Word
        } else {
            Size::Long
        };
        match decode_ea(mem, it, mode, reg, z)? {
            Some(t) => Ok(Instructions::CMPA(t, address_register(dn), z)),
            None => Ok(Instructions::NotImplemented),
        }
    } else if opmode < 3 {
        let z = size_of2(opmode);
        match decode_ea(mem, it, mode, reg, z)? {
            Some(t) => Ok(Instructions::CMP(t, Target::DnDirect(data_register(dn)), z)),
            None => Ok(Instructions::NotImplemented),
        }
    } else if mode == 1 {
        let z = size_of2(opmode - 4);
        Ok(
            Instructions::CMPM(
                Target::AnIndirectPostInc(address_register(reg)),
                Target::AnIndirectPostInc(address_register(dn)),
                z,
            ),
        )
    } else {
        let z = size_of2(opmode - 4);
        match decode_ea(mem, it, mode, reg, z)? {
            Some(t) => Ok(Instructions::EOR(Target::DnDirect(data_register(dn)), t, z)),
            None => Ok(Instructions::NotImplemented),
        }
    }
}

/// And, multiply, decimal add and register exchange: group twelve.
pub open spec fn spec_decode_and_mul(m: Seq<u8>, a: u32, ins: u16) -> Decoded {
    let dn = (ins / 0x200) as int % 8;
    let opmode = (ins / 0x40) as int % 8;
    let mode = (ins / 8) as int % 8;
    let reg = ins as int % 8;
    if opmode == 3 || opmode == 7 {
        match spec_ea(m, a, mode, reg, Size::Word) {
            Ok((Some(t), a2)) => Ok(
                (
                    if opmode == 3 {
                        Instructions::MULUW(t, spec_data_reg(dn))
                    } else {
                        Instructions::MULSW(t, spec_data_reg(dn))
                    },
                    a2,
                ),
            ),
            Ok((None, a2)) => Ok((Instructions::NotImplemented, a2)),
            Err(f) => Err(f),
        }
    } else if opmode < 3 {
        match spec_ea(m, a, mode, reg, spec_size2(opmode)) {
            Ok((Some(t), a2)) => Ok(
                (
                    Instructions::AND(t, Target::DnDirect(spec_data_reg(dn)), spec_size2(opmode)),
                    a2,
                ),
            ),
            Ok((None, a2)) => Ok((Instructions::NotImplemented, a2)),
            Err(f) => Err(f),
        }
    } else if opmode == 4 && mode == 0 {
        Ok(
            (
                Instructions::ABCD(
                    Target::DnDirect(spec_data_reg(reg)),
                    Target::DnDirect(spec_data_reg(dn)),
                ),
                a,
            ),
        )
    } else if opmode == 4 && mode == 1 {
        Ok(
            (
                Instructions::ABCD(
                    Target::AnIndirectPreDec(spec_addr_reg(reg)),
                    Target::AnIndirectPreDec(spec_addr_reg(dn)),
                ),
                a,
            ),
        )
    } else if opmode == 5 && mode == 0 {
        Ok(
            (
                Instructions::EXG(
                    Target::DnDirect(spec_data_reg(dn)),
                    Target::DnDirect(spec_data_reg(reg)),
                ),
                a,
            ),
        )
    } else if opmode == 5 && mode == 1 {
        Ok(
            (
                Instructions::EXG(
                    Target::AnDirect(spec_addr_reg(dn)),
                    Target::AnDirect(spec_addr_reg(reg)),
                ),
                a,
            ),
        )
    } else if opmode == 6 && mode == 1 {
        Ok(
            (
                Instructions::EXG(
                    Target::DnDirect(spec_data_reg(dn)),
                    Target::AnDirect(spec_addr_reg(reg)),
                ),
                a,
            ),
        )
    } else if mode >= 2 {
        let z = spec_size2(opmode - 4);
        match spec_ea(m, a, mode, reg, z) {
            Ok((Some(t), a2)) => Ok(
                (Instructions::AND(Target::DnDirect(spec_data_reg(dn)), t, z), a2),
            ),
            Ok((None, a2)) => Ok((Instructions::NotImplemented, a2)),
            Err(f) => Err(f),
        }
    } else {
        Ok((Instructions::NotImplemented, a))
    }
}

/// Decode an and/multiply/decimal-add/exchange word.
pub fn decode_and_mul<M: Memory>(mem: &M, it: &mut MemoryIter, ins: u16) -> (r: Result<
    Instructions,
    Fault,
>)
    ensures
        match spec_decode_and_mul(mem.contents(), old(it).next_address, ins) {
            Ok((i2, a2)) => r == Ok::<Instructions, Fault>(i2) && final(it).next_address == a2,
            Err(f) => r == Err::<Instructions, Fault>(f),
        },
{
    let dn = (ins / 0x200) % 8;
    let opmode = (ins / 0x40) % 8;
    let mode = (ins / 8) % 8;
    let reg = ins % 8;
    if opmode == 3 || opmode == 7 {
        match decode_ea(mem, it, mode, reg, Size::Word)? {
            Some(t) => {
                if opmode == 3 {
                    Ok(Instructions::MULUW(t, data_register(dn)))
                } else {
                    Ok(Instructions::MULSW(t, data_register(dn)))
                }
            },
            None => Ok(Instructions::NotImplemented),
        }
    } else if opmode < 3 {
        let z = size_of2(opmode);
        match decode_ea(mem, it, mode, reg, z)? {
            Some(t) => Ok(Instructions::AND(t, Target::DnDirect(data_register(dn)), z)),
            None => Ok(Instructions::NotImplemented),
        }
    } else if opmode == 4 && mode == 0 {
        Ok(
            Instructions::ABCD(
                Target::DnDirect(data_register(reg)),
                Target::DnDirect(data_register(dn)),
            ),
        )
    } else if opmode == 4 && mode == 1 {
        Ok(
            Instructions::ABCD(
                Target::AnIndirectPreDec(address_register(reg)),
                Target::AnIndirectPreDec(address_register(dn)),
            ),
        )
    } else if opmode == 5 && mode == 0 {
        Ok(
            Instructions::EXG(
                Target::DnDirect(data_register(dn)),
                Target::DnDirect(data_register(reg)),
            ),
        )
    } else if opmode == 5 && mode == 1 {
        Ok(
            Instructions::EXG(
                Target::AnDirect(address_register(dn)),
                Target::AnDirect(address_register(reg)),
            ),
        )
    } else if opmode == 6 && mode == 1 {
        Ok(
            Instructions::EXG(
                Target::DnDirect(data_register(dn)),
                Target::AnDirect(address_register(reg)),
            ),
        )
    } else if mode >= 2 {
        let z = size_of2(opmode - 4);
        match decode_ea(mem, it, mode, reg, z)? {
            Some(t) => Ok(Instructions::AND(Target::DnDirect(data_register(dn)), t, z)),
            None => Ok(Instructions::NotImplemented),
        }
    } else {
        Ok(Instructions::NotImplemented)
    }
}

/// The shift and rotate family: group fourteen. Sizes zero to two shift a data
/// register by an immediate count (zero meaning eight) or by a register;
/// size three is the single-bit memory form. Bit eleven set in the memory form
/// is reserved.
pub open spec fn spec_decode_shift(m: Seq<u8>, a: u32, ins: u16) -> Decoded {
    let size2 = (ins / 0x40) as int % 4;
    let dir = (ins / 0x100) as int % 2;
    let mode = (ins / 8) as int % 8;
    let reg = ins as int % 8;
    if size2 < 3 {
        let z = spec_size2(size2);
        let count = (ins / 0x200) as int % 8;
        let src = if (ins / 0x20) % 2 == 0 {
            Target::Immediate(if count == 0 {
                8 as u32
            } else {
                count as u32
            })
        } else {
            Target::DnDirect(spec_data_reg(count))
        };
        let dst = Target::DnDirect(spec_data_reg(reg));
        let kind = (ins / 8) as int % 4;
        Ok(
            (
                if kind == 0 {
                    if dir == 0 {
                        Instructions::ASR(src, dst, z)
                    } else {
                        Instructions::ASL(src, dst, z)
                    }
                } else if kind == 1 {
                    if dir == 0 {
                        Instructions::LSR(src, dst, z)
                    } else {
                        Instructions::LSL(src, dst, z)
                    }
                } else if kind == 2 {
                    if dir == 0 {
                        Instructions::ROXR(src, dst, z)
                    } else {
                        Instructions::ROXL(src, dst, z)
                    }
                } else {
                    if dir == 0 {
                        Instructions::ROR(src, dst, z)
                    } else {
                        Instructions::ROL(src, dst, z)
                    }
                },
                a,
            ),
        )
    } else if (ins / 0x800) % 2 == 1 || mode < 2 {
        Ok((Instructions::NotImplemented, a))
    } else {
        let kind = (ins / 0x200) as int % 4;
        match spec_ea(m, a, mode, reg, Size::Word) {
            Ok((Some(t), a2)) => Ok(
                (
                    {
                        let src = Target::Immediate(1);
                        if kind == 0 {
                            if dir == 0 {
                                Instructions::ASR(src, t, Size::Word)
                            } else {
                                Instructions::ASL(src, t, Size::Word)
                            }
                        } else if kind == 1 {
                            if dir == 0 {
                                Instructions::LSR(src, t, Size::Word)
                            } else {
                                Instructions::LSL(src, t, Size::Word)
                            }
                        } else if kind == 2 {
                            if dir == 0 {
                                Instructions::ROXR(src, t, Size::Word)
                            } else {
                                Instructions::ROXL(src, t, Size::Word)
                            }
                        } else {
                            if dir == 0 {
                                Instructions::ROR(src, t, Size::Word)
                            } else {
                                Instructions::ROL(src, t, Size::Word)
                            }
                        }
                    },
                    a2,
                ),
            ),
            Ok((None, a2)) => Ok((Instructions::NotImplemented, a2)),
            Err(f) => Err(f),
        }
    }
}

/// Decode a shift or rotate word.
pub fn decode_shift<M: Memory>(mem: &M, it: &mut MemoryIter, ins: u16) -> (r: Result<
    Instructions,
    Fault,
>)
    ensures
        match spec_decode_shift(mem.contents(), old(it).next_address, ins) {
            Ok((i2, a2)) => r == Ok::<Instructions, Fault>(i2) && final(it).next_address == a2,
            Err(f) => r == Err::<Instructions, Fault>(f),
        },
{
    let size2 = (ins / 0x40) % 4;
    let dir = (ins / 0x100) % 2;
    let mode = (ins / 8) % 8;
    let reg = ins % 8;
    if size2 < 3 {
        let z = size_of2(size2);
        let count = (ins / 0x200) % 8;
        let src = if (ins / 0x20) % 2 == 0 {
            Target::Immediate(if count == 0 {
                8
            } else {
                count as u32
            })
        } else {
            Target::DnDirect(data_register(count))
        };
        let dst = Target::DnDirect(data_register(reg));
        let kind = (ins / 8) % 4;
        Ok(
            match kind {
                0 => if dir == 0 {
                    Instructions::ASR(src, dst, z)
                } else {
                    Instructions::ASL(src, dst, z)
                },
                1 => if dir == 0 {
                    Instructions::LSR(src, dst, z)
                } else {
                    Instructions::LSL(src, dst, z)
                },
                2 => if dir == 0 {
                    Instructions::ROXR(src, dst, z)
                } else {
                    Instructions::ROXL(src, dst, z)
                },
                _ => if dir == 0 {
                    Instructions::ROR(src, dst, z)
                } else {
                    Instructions::ROL(src, dst, z)
                },
            },
        )
    } else if (ins / 0x800) % 2 == 1 || mode < 2 {
        Ok(Instructions::NotImplemented)
    } else {
        let kind = (ins / 0x200) % 4;
        match decode_ea(mem, it, mode, reg, Size::Word)? {
            Some(t) => {
                let src = Target::Immediate(1);
                Ok(
                    match kind {
                        0 => if dir == 0 {
                            Instructions::ASR(src, t, Size::Word)
                        } else {
                            Instructions::ASL(src, t, Size::Word)
                        },
                        1 => if dir == 0 {
                            Instructions::LSR(src, t, Size::Word)
                        } else {
                            Instructions::LSL(src, t, Size::Word)
                        },
                        2 => if dir == 0 {
                            Instructions::ROXR(src, t, Size::Word)
                        } else {
                            Instructions::ROXL(src, t, Size::Word)
                        },
                        _ => if dir == 0 {
                            Instructions::ROR(src, t, Size::Word)
                        } else {
                            Instructions::ROL(src, t, Size::Word)
                        },
                    },
                )
            },
            None => Ok(Instructions::NotImplemented),
        }
    }
}

/// Whether a mode/register pair is one of the control addressing modes: the
/// forms that name a memory address without side effects, the only operands
/// the address-taking instructions accept.
pub open spec fn spec_is_control(mode: int, reg: int) -> bool {
    mode == 2 || mode == 5 || mode == 6 || (mode == 7 && reg <= 3)
}

/// Whether a mode/register pair is a control addressing mode.
pub fn is_control_mode(mode: u16, reg: u16) -> (r: bool)
    ensures
        r == spec_is_control(mode as int, reg as int),
{
    mode == 2 || mode == 5 || mode == 6 || (mode == 7 && reg <= 3)
}

/// The sized single-operand pages of the miscellaneous group: negate with
/// extend, clear, negate and complement, whose size-three rows are the moves
/// to and from the status register and condition codes.
pub open spec fn spec_misc_sized(m: Seq<u8>, a: u32, ins: u16) -> Decoded {
    let ppp = (ins / 0x200) as int % 8;
    let size2 = (ins / 0x40) as int % 4;
    let mode = (ins / 8) as int % 8;
    let reg = ins as int % 8;
    if size2 < 3 {
        match spec_ea(m, a, mode, reg, spec_size2(size2)) {
            Ok((Some(t), a2)) => Ok(
                (
                    if ppp == 0 {
                        Instructions::NEGX(t, spec_size2(size2))
                    } else if ppp == 1 {
                        Instructions::CLR(t, spec_size2(size2))
                    } else if ppp == 2 {
                        Instructions::NEG(t, spec_size2(size2))
                    } else {
                        Instructions::NOT(t, spec_size2(size2))
                    },
                    a2,
                ),
            ),
            Ok((None, a2)) => Ok((Instructions::NotImplemented, a2)),
            Err(f) => Err(f),
        }
    } else {
        match spec_ea(m, a, mode, reg, Size::Word) {
            Ok((Some(t), a2)) => Ok(
                (
                    if ppp == 0 {
                        Instructions::MOVEfromSR(t)
                    } else if ppp == 1 {
                        Instructions::MOVEfromCCR(t)
                    } else if ppp == 2 {
                        Instructions::MOVEtoCCR(t)
                    } else {
                        Instructions::MOVEtoSR(t)
                    },
                    a2,
                ),
            ),
            Ok((None, a2)) => Ok((Instructions::NotImplemented, a2)),
            Err(f) => Err(f),
        }
    }
}

/// Decode a sized single-operand word of the miscellaneous group.
fn decode_misc_sized<M: Memory>(mem: &M, it: &mut MemoryIter, ins: u16) -> (r: Result<
    Instructions,
    Fault,
>)
    requires
        (ins / 0x100) % 2 == 0,
        (ins / 0x200) % 8 < 4,
    ensures
        match spec_misc_sized(mem.contents(), old(it).next_address, ins) {
            Ok((i2, a2)) => r == Ok::<Instructions, Fault>(i2) && final(it).next_address == a2,
            Err(f) => r == Err::<Instructions, Fault>(f),
        },
{
    let ppp = (ins / 0x200) % 8;
    let size2 = (ins / 0x40) % 4;
    let mode = (ins / 8) % 8;
    let reg = ins % 8;
    if size2 < 3 {
        let z = size_of2(size2);
        match decode_ea(mem, it, mode, reg, z)? {
            Some(t) => Ok(
                match ppp {
                    0 => Instructions::NEGX(t, z),
                    1 => Instructions::CLR(t, z),
                    2 => Instructions::NEG(t, z),
                    _ => Instructions::NOT(t, z),
                },
            ),
            None => Ok(Instructions::NotImplemented),
        }
    } else {
        match decode_ea(mem, it, mode, reg, Size::Word)? {
            Some(t) => Ok(
                match ppp {
                    0 => Instructions::MOVEfromSR(t),
                    1 => Instructions::MOVEfromCCR(t),
                    2 => Instructions::MOVEtoCCR(t),
                    _ => Instructions::MOVEtoSR(t),
                },
            ),
            None => Ok(Instructions::NotImplemented),
        }
    }
}

/// The page of the miscellaneous group holding negate-decimal, swap, push
/// effective address and sign extension; its move-multiple rows are
/// unsupported.
pub open spec fn spec_misc_48(m: Seq<u8>, a: u32, ins: u16) -> Decoded {
    let size2 = (ins / 0x40) as int % 4;
    let mode = (ins / 8) as int % 8;
    let reg = ins as int % 8;
    if size2 == 0 {
        match spec_ea(m, a, mode, reg, Size::Byte) {
            Ok((Some(t), a2)) => Ok((Instructions::NBCD(t), a2)),
            Ok((None, a2)) => Ok((Instructions::NotImplemented, a2)),
            Err(f) => Err(f),
        }
    } else if size2 == 1 {
        if mode == 0 {
            Ok((Instructions::SWAP(spec_data_reg(reg)), a))
        } else if spec_is_control(mode, reg) {
            match spec_ea(m, a, mode, reg, Size::Long) {
                Ok((Some(t), a2)) => Ok((Instructions::PEA(t), a2)),
                Ok((None, a2)) => Ok((Instructions::NotImplemented, a2)),
                Err(f) => Err(f),
            }
        } else {
            Ok((Instructions::NotImplemented, a))
        }
    } else if size2 == 2 {
        if mode == 0 {
            Ok((Instructions::EXT(spec_data_reg(reg), Size::Byte, Size::Word), a))
        } else {
            Ok((Instructions::NotImplemented, a))
        }
    } else {
        if mode == 0 {
            Ok((Instructions::EXT(spec_data_reg(reg), Size::Word, Size::Long), a))
        } else {
            Ok((Instructions::NotImplemented, a))
        }
    }
}

/// Decode a negate-decimal/swap/push/extend word.
fn decode_misc_48<M: Memory>(mem: &M, it: &mut MemoryIter, ins: u16) -> (r: Result<
    Instructions,
    Fault,
>)
    ensures
        match spec_misc_48(mem.contents(), old(it).next_address, ins) {
            Ok((i2, a2)) => r == Ok::<Instructions, Fault>(i2) && final(it).next_address == a2,
            Err(f) => r == Err::<Instructions, Fault>(f),
        },
{
    let size2 = (ins / 0x40) % 4;
    let mode = (ins / 8) % 8;
    let reg = ins % 8;
    if size2 == 0 {
        match decode_ea(mem, it, mode, reg, Size::Byte)? {
            Some(t) => Ok(Instructions::NBCD(t)),
            None => Ok(Instructions::NotImplemented),
        }
    } else if size2 == 1 {
        if mode == 0 {
            Ok(Instructions::SWAP(data_register(reg)))
        } else if is_control_mode(mode, reg) {
            match decode_ea(mem, it, mode, reg, Size::Long)? {
                Some(t) => Ok(Instructions::PEA(t)),
                None => Ok(Instructions::NotImplemented),
            }
        } else {
            Ok(Instructions::NotImplemented)
        }
    } else if size2 == 2 {
        if mode == 0 {
            Ok(Instructions::EXT(data_register(reg), Size::Byte, Size::Word))
        } else {
            Ok(Instructions::NotImplemented)
        }
    } else {
        if mode == 0 {
            Ok(Instructions::EXT(data_register(reg), Size::Word, Size::Long))
        } else {
            Ok(Instructions::NotImplemented)
        }
    }
}

/// The test page of the miscellaneous group: test, test-and-set, and the
/// explicit illegal-instruction pattern.
pub open spec fn spec_misc_4a(m: Seq<u8>, a: u32, ins: u16) -> Decoded {
    let size2 = (ins / 0x40) as int % 4;
    let mode = (ins / 8) as int % 8;
    let reg = ins as int % 8;
    if ins == 0x4AFC {
        Ok((Instructions::ILLEGAL, a))
    } else if size2 < 3 {
        match spec_ea(m, a, mode, reg, spec_size2(size2)) {
            Ok((Some(t), a2)) => Ok((Instructions::TST(t, spec_size2(size2)), a2)),
            Ok((None, a2)) => Ok((Instructions::NotImplemented, a2)),
            Err(f) => Err(f),
        }
    } else {
        match spec_ea(m, a, mode, reg, Size::Byte) {
            Ok((Some(t), a2)) => Ok((Instructions::TAS(t), a2)),
            Ok((None, a2)) => Ok((Instructions::NotImplemented, a2)),
            Err(f) => Err(f),
        }
    }
}

/// Decode a test/test-and-set/illegal word.
fn decode_misc_4a<M: Memory>(mem: &M, it: &mut MemoryIter, ins: u16) -> (r: Result<
    Instructions,
    Fault,
>)
    ensures
        match spec_misc_4a(mem.contents(), old(it).next_address, ins) {
            Ok((i2, a2)) => r == Ok::<Instructions, Fault>(i2) && final(it).next_address == a2,
            Err(f) => r == Err::<Instructions, Fault>(f),
        },
{
    let size2 = (ins / 0x40) % 4;
    let mode = (ins / 8) % 8;
    let reg = ins % 8;
    if ins == 0x4AFC {
        Ok(Instructions::ILLEGAL)
    } else if size2 < 3 {
        let z = size_of2(size2);
        match decode_ea(mem, it, mode, reg, z)? {
            Some(t) => Ok(Instructions::TST(t, z)),
            None => Ok(Instructions::NotImplemented),
        }
    } else {
        match decode_ea(mem, it, mode, reg, Size::Byte)? {
            Some(t) => Ok(Instructions::TAS(t)),
            None => Ok(Instructions::NotImplemented),
        }
    }
}

/// The control page of the miscellaneous group: traps, link and unlink, user
/// stack pointer moves, the nullary system instructions, jump and jump to
/// subroutine.
pub open spec fn spec_misc_4e(m: Seq<u8>, a: u32, ins: u16) -> Decoded {
    let size2 = (ins / 0x40) as int % 4;
    let mode = (ins / 8) as int % 8;
    let reg = ins as int % 8;
    if 0x4E40 <= ins < 0x4E50 {
        Ok((Instructions::TRAP((ins % 16) as u8), a))
    } else if 0x4E50 <= ins < 0x4E58 {
        match spec_fetch_word(m, a) {
            Ok(w1) => Ok((Instructions::LINK(spec_addr_reg(reg), spec_sign16(w1)), (a + 2) as u32)),
            Err(f) => Err(f),
        }
    } else if 0x4E58 <= ins < 0x4E60 {
        Ok((Instructions::UNLK(spec_addr_reg(reg)), a))
    } else if 0x4E60 <= ins < 0x4E68 {
        Ok(
            (
                Instructions::MOVEUSP(
                    Target::AnDirect(spec_addr_reg(reg)),
                    crate::instruction::Direction::RegisterToMemory,
                ),
                a,
            ),
        )
    } else if 0x4E68 <= ins < 0x4E70 {
        Ok(
            (
                Instructions::MOVEUSP(
                    Target::AnDirect(spec_addr_reg(reg)),
                    crate::instruction::Direction::MemoryToRegister,
                ),
                a,
            ),
        )
    } else if ins == 0x4E70 {
        Ok((Instructions::RESET, a))
    } else if ins == 0x4E71 {
        Ok((Instructions::NOP, a))
    } else if ins == 0x4E72 {
        match spec_fetch_word(m, a) {
            Ok(w1) => Ok((Instructions::STOP(w1), (a + 2) as u32)),
            Err(f) => Err(f),
        }
    } else if ins == 0x4E73 {
        Ok((Instructions::RTE, a))
    } else if ins == 0x4E74 {
        match spec_fetch_word(m, a) {
            Ok(w1) => Ok((Instructions::RTD(spec_sign16w(w1)), (a + 2) as u32)),
            Err(f) => Err(f),
        }
    } else if ins == 0x4E75 {
        Ok((Instructions::RTS, a))
    } else if ins == 0x4E76 {
        Ok((Instructions::TRAPV, a))
    } else if ins == 0x4E77 {
        Ok((Instructions::RTR, a))
    } else if size2 >= 2 && spec_is_control(mode, reg) {
        match spec_ea(m, a, mode, reg, Size::Long) {
            Ok((Some(t), a2)) => Ok(
                (
                    if size2 == 2 {
                        Instructions::JSR(t)
                    } else {
                        Instructions::JMP(t)
                    },
                    a2,
                ),
            ),
            Ok((None, a2)) => Ok((Instructions::NotImplemented, a2)),
            Err(f) => Err(f),
        }
    } else {
        Ok((Instructions::NotImplemented, a))
    }
}

/// Decode a word of the control page of the miscellaneous group.
fn decode_misc_4e<M: Memory>(mem: &M, it: &mut MemoryIter, ins: u16) -> (r: Result<
    Instructions,
    Fault,
>)
    ensures
        match spec_misc_4e(mem.contents(), old(it).next_address, ins) {
            Ok((i2, a2)) => r == Ok::<Instructions, Fault>(i2) && final(it).next_address == a2,
            Err(f) => r == Err::<Instructions, Fault>(f),
        },
{
    let size2 = (ins / 0x40) % 4;
    let mode = (ins / 8) % 8;
    let reg = ins % 8;
    if 0x4E40 <= ins && ins < 0x4E50 {
        Ok(Instructions::TRAP((ins % 16) as u8))
    } else if 0x4E50 <= ins && ins < 0x4E58 {
        let w1 = it.next(mem)?;
        Ok(Instructions::LINK(address_register(reg), sign16(w1)))
    } else if 0x4E58 <= ins && ins < 0x4E60 {
        Ok(Instructions::UNLK(address_register(reg)))
    } else if 0x4E60 <= ins && ins < 0x4E68 {
        Ok(
            Instructions::MOVEUSP(
                Target::AnDirect(address_register(reg)),
                crate::instruction::Direction::RegisterToMemory,
            ),
        )
    } else if 0x4E68 <= ins && ins < 0x4E70 {
        Ok(
            Instructions::MOVEUSP(
                Target::AnDirect(address_register(reg)),
                crate::instruction::Direction::MemoryToRegister,
            ),
        )
    } else if ins == 0x4E70 {
        Ok(Instructions::RESET)
    } else if ins == 0x4E71 {
        Ok(Instructions::NOP)
    } else if ins == 0x4E72 {
        let w1 = it.next(mem)?;
        Ok(Instructions::STOP(w1))
    } else if ins == 0x4E73 {
        Ok(Instructions::RTE)
    } else if ins == 0x4E74 {
        let w1 = it.next(mem)?;
        Ok(Instructions::RTD(sign16w(w1)))
    } else if ins == 0x4E75 {
        Ok(Instructions::RTS)
    } else if ins == 0x4E76 {
        Ok(Instructions::TRAPV)
    } else if ins == 0x4E77 {
        Ok(Instructions::RTR)
    } else if size2 >= 2 && is_control_mode(mode, reg) {
        match decode_ea(mem, it, mode, reg, Size::Long)? {
            Some(t) => {
                if size2 == 2 {
                    Ok(Instructions::JSR(t))
                } else {
                    Ok(Instructions::JMP(t))
                }
            },
            None => Ok(Instructions::NotImplemented),
        }
    } else {
        Ok(Instructions::NotImplemented)
    }
}

/// The miscellaneous group: group four. Bit eight set selects load effective
/// address and check-register; bit eight clear selects a page by bits nine to
/// eleven.
pub open spec fn spec_decode_misc(m: Seq<u8>, a: u32, ins: u16) -> Decoded {
    let dn = (ins / 0x200) as int % 8;
    let opmode = (ins / 0x40) as int % 8;
    let mode = (ins / 8) as int % 8;
    let reg = ins as int % 8;
    if (ins / 0x100) % 2 == 1 {
        if opmode == 7 {
            if spec_is_control(mode, reg) {
                match spec_ea(m, a, mode, reg, Size::Long) {
                    Ok((Some(t), a2)) => Ok((Instructions::LEA(t, spec_addr_reg(dn)), a2)),
                    Ok((None, a2)) => Ok((Instructions::NotImplemented, a2)),
                    Err(f) => Err(f),
                }
            } else {
                Ok((Instructions::NotImplemented, a))
            }
        } else if opmode == 6 {
            if mode != 1 {
                match spec_ea(m, a, mode, reg, Size::Word) {
                    Ok((Some(t), a2)) => Ok(
                        (Instructions::CHK(t, spec_data_reg(dn), Size::Word), a2),
                    ),
                    Ok((None, a2)) => Ok((Instructions::NotImplemented, a2)),
                    Err(f) => Err(f),
                }
            } else {
                Ok((Instructions::NotImplemented, a))
            }
        } else {
            Ok((Instructions::NotImplemented, a))
        }
    } else if dn < 4 {
        spec_misc_sized(m, a, ins)
    } else if dn == 4 {
        spec_misc_48(m, a, ins)
    } else if dn == 5 {
        spec_misc_4a(m, a, ins)
    } else if dn == 7 {
        spec_misc_4e(m, a, ins)
    } else {
        Ok((Instructions::NotImplemented, a))
    }
}

/// Decode a word of the miscellaneous group.
pub fn decode_misc<M: Memory>(mem: &M, it: &mut MemoryIter, ins: u16) -> (r: Result<
    Instructions,
    Fault,
>)
    ensures
        match spec_decode_misc(mem.contents(), old(it).next_address, ins) {
            Ok((i2, a2)) => r == Ok::<Instructions, Fault>(i2) && final(it).next_address == a2,
            Err(f) => r == Err::<Instructions, Fault>(f),
        },
{
    let dn = (ins / 0x200) % 8;
    let opmode = (ins / 0x40) % 8;
    let mode = (ins / 8) % 8;
    let reg = ins % 8;
    if (ins / 0x100) % 2 == 1 {
        if opmode == 7 {
            if is_control_mode(mode, reg) {
                match decode_ea(mem, it, mode, reg, Size::Long)? {
                    Some(t) => Ok(Instructions::LEA(t, address_register(dn))),
                    None => Ok(Instructions::NotImplemented),
                }
            } else {
                Ok(Instructions::NotImplemented)
            }
        } else if opmode == 6 {
            if mode != 1 {
                match decode_ea(mem, it, mode, reg, Size::Word)? {
                    Some(t) => Ok(Instructions::CHK(t, data_register(dn), Size::Word)),
                    None => Ok(Instructions::NotImplemented),
                }
            } else {
                Ok(Instructions::NotImplemented)
            }
        } else {
            Ok(Instructions::NotImplemented)
        }
    } else if dn < 4 {
        decode_misc_sized(mem, it, ins)
    } else if dn == 4 {
        decode_misc_48(mem, it, ins)
    } else if dn == 5 {
        decode_misc_4a(mem, it, ins)
    } else if dn == 7 {
        decode_misc_4e(mem, it, ins)
    } else {
        Ok(Instructions::NotImplemented)
    }
}

/// The architecturally reserved group: every word decodes to the sentinel.
pub open spec fn spec_decode_reserved(m: Seq<u8>, a: u32, ins: u16) -> Decoded {
    Ok((Instructions::NotImplemented, a))
}

/// Decode a word of the reserved group.
pub fn decode_reserved<M: Memory>(mem: &M, it: &mut MemoryIter, ins: u16) -> (r: Result<
    Instructions,
    Fault,
>)
    ensures
        match spec_decode_reserved(mem.contents(), old(it).next_address, ins) {
            Ok((i2, a2)) => r == Ok::<Instructions, Fault>(i2) && final(it).next_address == a2,
            Err(f) => r == Err::<Instructions, Fault>(f),
        },
{
    Ok(Instructions::NotImplemented)
}

/// What fetching an immediate operand of width `z` yields: its value and the
/// address after the one or two extension words holding it. A byte immediate
/// occupies the low half of one extension word.
pub open spec fn spec_imm(m: Seq<u8>, a: u32, z: Size) -> Result<(u32, u32), Fault> {
    match z {
        Size::Byte => match spec_fetch_word(m, a) {
            Ok(w1) => Ok(((w1 % 0x100) as u32, (a + 2) as u32)),
            Err(f) => Err(f),
        },
        Size::Word => match spec_fetch_word(m, a) {
            Ok(w1) => Ok((w1 as u32, (a + 2) as u32)),
            Err(f) => Err(f),
        },
        Size::Long => match spec_fetch_word(m, a) {
            Ok(w1) => match spec_fetch_word(m, (a + 2) as u32) {
                Ok(w2) => Ok(((w1 as int * 0x1_0000 + w2 as int) as u32, (a + 4) as u32)),
                Err(f) => Err(f),
            },
            Err(f) => Err(f),
        },
    }
}

/// Pull an immediate operand of width `z` through the cursor.
fn fetch_imm<M: Memory>(mem: &M, it: &mut MemoryIter, z: Size) -> (r: Result<u32, Fault>)
    ensures
        match spec_imm(mem.contents(), old(it).next_address, z) {
            Ok((v, a2)) => r == Ok::<u32, Fault>(v) && final(it).next_address == a2,
            Err(f) => r == Err::<u32, Fault>(f),
        },
{
    match z {
        Size::Byte => {
            let w1 = it.next(mem)?;
            Ok((w1 % 0x100) as u32)
        },
        Size::Word => {
            let w1 = it.next(mem)?;
            Ok(w1 as u32)
        },
        Size::Long => {
            let w1 = it.next(mem)?;
            let w2 = it.next(mem)?;
            Ok((w1 as u32) * 0x1_0000 + (w2 as u32))
        },
    }
}

/// Bit manipulation and the immediate operations: group zero. Bit eight set is
/// a register-counted bit operation (or the unsupported peripheral move); bit
/// eight clear selects an immediate operation, a static bit operation, or — on
/// an immediate destination — an operation on the condition codes or the
/// status register.
pub open spec fn spec_decode_bit_manipulation(m: Seq<u8>, a: u32, ins: u16) -> Decoded {
    let dd = (ins / 0x200) as int % 8;
    let size2 = (ins / 0x40) as int % 4;
    let mode = (ins / 8) as int % 8;
    let reg = ins as int % 8;
    if (ins / 0x100) % 2 == 1 {
        if mode == 1 {
            Ok((Instructions::NotImplemented, a))
        } else {
            let src = Target::DnDirect(spec_data_reg(dd));
            let z = if mode == 0 {
                Size::Long
            } else {
                Size::Byte
            };
            match spec_ea(m, a, mode, reg, z) {
                Ok((Some(t), a2)) => Ok(
                    (
                        if size2 == 0 {
                            Instructions::BTST(src, t, z)
                        } else if size2 == 1 {
                            Instructions::BCHG(src, t, z)
                        } else if size2 == 2 {
                            Instructions::BCLR(src, t, z)
                        } else {
                            Instructions::BSET(src, t, z)
                        },
                        a2,
                    ),
                ),
                Ok((None, a2)) => Ok((Instructions::NotImplemented, a2)),
                Err(f) => Err(f),
            }
        }
    } else if dd == 4 {
        match spec_fetch_word(m, a) {
            Ok(w1) => {
                let src = Target::Immediate((w1 % 0x100) as u32);
                let z = if mode == 0 {
                    Size::Long
                } else {
                    Size::Byte
                };
                match spec_ea(m, (a + 2) as u32, mode, reg, z) {
                    Ok((Some(t), a2)) => Ok(
                        (
                            if size2 == 0 {
                                Instructions::BTST(src, t, z)
                            } else if size2 == 1 {
                                Instructions::BCHG(src, t, z)
                            } else if size2 == 2 {
                                Instructions::BCLR(src, t, z)
                            } else {
                                Instructions::BSET(src, t, z)
                            },
                            a2,
                        ),
                    ),
                    Ok((None, a2)) => Ok((Instructions::NotImplemented, a2)),
                    Err(f) => Err(f),
                }
            },
            Err(f) => Err(f),
        }
    } else if dd == 7 || size2 == 3 {
        Ok((Instructions::NotImplemented, a))
    } else {
        let z = spec_size2(size2);
        match spec_imm(m, a, z) {
            Ok((imm, a2)) => if mode == 7 && reg == 4 {
                if dd == 0 && size2 == 0 {
                    Ok((Instructions::ORItoCCR(imm), a2))
                } else if dd == 0 && size2 == 1 {
                    Ok((Instructions::ORItoSR(imm), a2))
                } else if dd == 5 && size2 == 0 {
                    Ok((Instructions::EORtoCCR(imm as u8), a2))
                } else if dd == 5 && size2 == 1 {
                    Ok((Instructions::EORtoSR(imm as u16), a2))
                } else {
                    Ok((Instructions::NotImplemented, a2))
                }
            } else {
                match spec_ea(m, a2, mode, reg, z) {
                    Ok((Some(t), a3)) => Ok(
                        (
                            if dd == 0 {
                                Instructions::ORI(imm, t, z)
                            } else if dd == 1 {
                                Instructions::ANDI(imm, t, z)
                            } else if dd == 2 {
                                Instructions::SUBI(imm, t, z)
                            } else if dd == 3 {
                                Instructions::ADDI(imm, t, z)
                            } else if dd == 5 {
                                Instructions::EORI(imm, t, z)
                            } else {
                                Instructions::CMPI(imm, t, z)
                            },
                            a3,
                        ),
                    ),
                    Ok((None, a3)) => Ok((Instructions::NotImplemented, a3)),
                    Err(f) => Err(f),
                }
            },
            Err(f) => Err(f),
        }
    }
}

/// Decode a bit-manipulation or immediate-operation word.
pub fn decode_bit_manipulation<M: Memory>(mem: &M, it: &mut MemoryIter, ins: u16) -> (r: Result<
    Instructions,
    Fault,
>)
    ensures
        match spec_decode_bit_manipulation(mem.contents(), old(it).next_address, ins) {
            Ok((i2, a2)) => r == Ok::<Instructions, Fault>(i2) && final(it).next_address == a2,
            Err(f) => r == Err::<Instructions, Fault>(f),
        },
{
    let dd = (ins / 0x200) % 8;
    let size2 = (ins / 0x40) % 4;
    let mode = (ins / 8) % 8;
    let reg = ins % 8;
    if (ins / 0x100) % 2 == 1 {
        if mode == 1 {
            Ok(Instructions::NotImplemented)
        } else {
            let src = Target::DnDirect(data_register(dd));
            let z = if mode == 0 {
                Size::Long
            } else {
                Size::Byte
            };
            match decode_ea(mem, it, mode, reg, z)? {
                Some(t) => Ok(
                    match size2 {
                        0 => Instructions::BTST(src, t, z),
                        1 => Instructions::BCHG(src, t, z),
                        2 => Instructions::BCLR(src, t, z),
                        _ => Instructions::BSET(src, t, z),
                    },
                ),
                None => Ok(Instructions::NotImplemented),
            }
        }
    } else if dd == 4 {
        let w1 = it.next(mem)?;
        let src = Target::Immediate((w1 % 0x100) as u32);
        let z = if mode == 0 {
            Size::Long
        } else {
            Size::Byte
        };
        match decode_ea(mem, it, mode, reg, z)? {
            Some(t) => Ok(
                match size2 {
                    0 => Instructions::BTST(src, t, z),
                    1 => Instructions::BCHG(src, t, z),
                    2 => Instructions::BCLR(src, t, z),
                    _ => Instructions::BSET(src, t, z),
                },
            ),
            None => Ok(Instructions::NotImplemented),
        }
    } else if dd == 7 || size2 == 3 {
        Ok(Instructions::NotImplemented)
    } else {
        let z = size_of2(size2);
        let imm = fetch_imm(mem, it, z)?;
        if mode == 7 && reg == 4 {
            if dd == 0 && size2 == 0 {
                Ok(Instructions::ORItoCCR(imm))
            } else if dd == 0 && size2 == 1 {
                Ok(Instructions::ORItoSR(imm))
            } else if dd == 5 && size2 == 0 {
                assert(imm < 0x100);
                Ok(Instructions::EORtoCCR(imm as u8))
            } else if dd == 5 && size2 == 1 {
                assert(imm < 0x1_0000);
                Ok(Instructions::EORtoSR(imm as u16))
            } else {
                Ok(Instructions::NotImplemented)
            }
        } else {
            match decode_ea(mem, it, mode, reg, z)? {
                Some(t) => Ok(
                    match dd {
                        0 => Instructions::ORI(imm, t, z),
                        1 => Instructions::ANDI(imm, t, z),
                        2 => Instructions::SUBI(imm, t, z),
                        3 => Instructions::ADDI(imm, t, z),
                        5 => Instructions::EORI(imm, t, z),
                        _ => Instructions::CMPI(imm, t, z),
                    },
                ),
                None => Ok(Instructions::NotImplemented),
            }
        }
    }
}

/// What decoding an instruction word yields: dispatch on the opcode group.
/// Decode is a pure function of the instruction word and the extension words
/// behind `a`; it never reads a register.
pub open spec fn spec_decode(m: Seq<u8>, a: u32, ins: u16) -> Decoded {
    let g = ins as int / 0x1000;
    if g == 0 {
        spec_decode_bit_manipulation(m, a, ins)
    } else if g == 1 {
        spec_decode_move(m, a, ins, Size::Byte)
    } else if g == 2 {
        spec_decode_move(m, a, ins, Size::Long)
    } else if g == 3 {
        spec_decode_move(m, a, ins, Size::Word)
    } else if g == 4 {
        spec_decode_misc(m, a, ins)
    } else if g == 5 {
        spec_decode_addq_subq(m, a, ins)
    } else if g == 6 {
        spec_decode_branch(m, a, ins)
    } else if g == 7 {
        spec_decode_moveq(m, a, ins)
    } else if g == 8 {
        spec_decode_or_div(m, a, ins)
    } else if g == 9 {
        spec_decode_addsub(m, a, ins, false)
    } else if g == 10 {
        spec_decode_reserved(m, a, ins)
    } else if g == 11 {
        spec_decode_cmp_eor(m, a, ins)
    } else if g == 12 {
        spec_decode_and_mul(m, a, ins)
    } else if g == 13 {
        spec_decode_addsub(m, a, ins, true)
    } else if g == 14 {
        spec_decode_shift(m, a, ins)
    } else {
        spec_decode_extension(m, a, ins)
    }
}

/// Decode one instruction word, pulling extension words through the cursor.
/// Reserved and unsupported patterns yield the `NotImplemented` sentinel (or
/// `ILLEGAL` for the architectural illegal pattern); a failed extension-word
/// fetch yields its fault.
pub fn decode<M: Memory>(mem: &M, it: &mut MemoryIter, ins: u16) -> (r: Result<Instructions, Fault>)
    ensures
        match spec_decode(mem.contents(), old(it).next_address, ins) {
            Ok((i2, a2)) => r == Ok::<Instructions, Fault>(i2) && final(it).next_address == a2,
            Err(f) => r == Err::<Instructions, Fault>(f),
        },
{
    match ins / 0x1000 {
        0 => decode_bit_manipulation(mem, it, ins),
        1 => decode_mov_byte(mem, it, ins),
        2 => decode_mov_long(mem, it, ins),
        3 => decode_mov_word(mem, it, ins),
        4 => decode_misc(mem, it, ins),
        5 => decode_addq_subq(mem, it, ins),
        6 => decode_branch(mem, it, ins),
        7 => decode_moveq(mem, it, ins),
        8 => decode_or_div(mem, it, ins),
        9 => decode_sub(mem, it, ins),
        10 => decode_reserved(mem, it, ins),
        11 => decode_cmp_eor(mem, it, ins),
        12 => decode_and_mul(mem, it, ins),
        13 => decode_add(mem, it, ins),
        14 => decode_shift(mem, it, ins),
        _ => decode_extension(mem, it, ins),
    }
}

/// Every word of the two groups the architecture reserves decodes to the
/// sentinel, never to an executable instruction.
pub proof fn lemma_reserved_groups_decode_to_sentinel(m: Seq<u8>, a: u32, ins: u16)
    requires
        ins / 0x1000 == 10 || ins / 0x1000 == 15,
    ensures
        spec_decode(m, a, ins) == Ok::<(Instructions, u32), Fault>((Instructions::NotImplemented, a)),
{
}

/// A move-quick word with its reserved bit set decodes to the sentinel.
pub proof fn lemma_moveq_reserved_bit(m: Seq<u8>, a: u32, ins: u16)
    requires
        ins / 0x1000 == 7,
        (ins / 0x100) % 2 == 1,
    ensures
        spec_decode(m, a, ins) == Ok::<(Instructions, u32), Fault>((Instructions::NotImplemented, a)),
{
}

/// The coprocessor/extension group: unsupported here, every word decodes to
/// the sentinel.
pub open spec fn spec_decode_extension(m: Seq<u8>, a: u32, ins: u16) -> Decoded {
    Ok((Instructions::NotImplemented, a))
}

/// Decode a word of the coprocessor/extension group.
pub fn decode_extension<M: Memory>(mem: &M, it: &mut MemoryIter, ins: u16) -> (r: Result<
    Instructions,
    Fault,
>)
    ensures
        match spec_decode_extension(mem.contents(), old(it).next_address, ins) {
            Ok((i2, a2)) => r == Ok::<Instructions, Fault>(i2) && final(it).next_address == a2,
            Err(f) => r == Err::<Instructions, Fault>(f),
        },
{
    Ok(Instructions::NotImplemented)
}

/// The trait seam for the decode stage: one routine per opcode group, each a
/// pure function of the instruction word and the extension words behind the
/// cursor — never of the register file. Reserved or unsupported patterns
/// decode to the sentinel; a failed extension-word fetch surfaces its fault.
pub trait Decoder<M: Memory> {
    fn decode(&self, mem: &M, it: &mut MemoryIter, ins: u16) -> (r: Result<Instructions, Fault>)
        ensures
            match spec_decode(mem.contents(), old(it).next_address, ins) {
                Ok((i2, a2)) => r == Ok::<Instructions, Fault>(i2) && final(it).next_address == a2,
                Err(f) => r == Err::<Instructions, Fault>(f),
            },
    ;

    fn decode_bit_manipulation(&self, mem: &M, it: &mut MemoryIter, ins: u16) -> (r: Result<
        Instructions,
        Fault,
    >)
        ensures
            match spec_decode_bit_manipulation(mem.contents(), old(it).next_address, ins) {
                Ok((i2, a2)) => r == Ok::<Instructions, Fault>(i2) && final(it).next_address == a2,
                Err(f) => r == Err::<Instructions, Fault>(f),
            },
    ;

    fn decode_mov_byte(&self, mem: &M, it: &mut MemoryIter, ins: u16) -> (r: Result<
        Instructions,
        Fault,
    >)
        ensures
            match spec_decode_move(mem.contents(), old(it).next_address, ins, Size::Byte) {
                Ok((i2, a2)) => r == Ok::<Instructions, Fault>(i2) && final(it).next_address == a2,
                Err(f) => r == Err::<Instructions, Fault>(f),
            },
    ;

    fn decode_mov_long(&self, mem: &M, it: &mut MemoryIter, ins: u16) -> (r: Result<
        Instructions,
        Fault,
    >)
        ensures
            match spec_decode_move(mem.contents(), old(it).next_address, ins, Size::Long) {
                Ok((i2, a2)) => r == Ok::<Instructions, Fault>(i2) && final(it).next_address == a2,
                Err(f) => r == Err::<Instructions, Fault>(f),
            },
    ;

    fn decode_mov_word(&self, mem: &M, it: &mut MemoryIter, ins: u16) -> (r: Result<
        Instructions,
        Fault,
    >)
        ensures
            match spec_decode_move(mem.contents(), old(it).next_address, ins, Size::Word) {
                Ok((i2, a2)) => r == Ok::<Instructions, Fault>(i2) && final(it).next_address == a2,
                Err(f) => r == Err::<Instructions, Fault>(f),
            },
    ;

    fn decode_misc(&self, mem: &M, it: &mut MemoryIter, ins: u16) -> (r: Result<
        Instructions,
        Fault,
    >)
        ensures
            match spec_decode_misc(mem.contents(), old(it).next_address, ins) {
                Ok((i2, a2)) => r == Ok::<Instructions, Fault>(i2) && final(it).next_address == a2,
                Err(f) => r == Err::<Instructions, Fault>(f),
            },
    ;

    fn decode_addq_subq(&self, mem: &M, it: &mut MemoryIter, ins: u16) -> (r: Result<
        Instructions,
        Fault,
    >)
        ensures
            match spec_decode_addq_subq(mem.contents(), old(it).next_address, ins) {
                Ok((i2, a2)) => r == Ok::<Instructions, Fault>(i2) && final(it).next_address == a2,
                Err(f) => r == Err::<Instructions, Fault>(f),
            },
    ;

    fn decode_branch(&self, mem: &M, it: &mut MemoryIter, ins: u16) -> (r: Result<
        Instructions,
        Fault,
    >)
        ensures
            match spec_decode_branch(mem.contents(), old(it).next_address, ins) {
                Ok((i2, a2)) => r == Ok::<Instructions, Fault>(i2) && final(it).next_address == a2,
                Err(f) => r == Err::<Instructions, Fault>(f),
            },
    ;

    fn decode_moveq(&self, mem: &M, it: &mut MemoryIter, ins: u16) -> (r: Result<
        Instructions,
        Fault,
    >)
        ensures
            match spec_decode_moveq(mem.contents(), old(it).next_address, ins) {
                Ok((i2, a2)) => r == Ok::<Instructions, Fault>(i2) && final(it).next_address == a2,
                Err(f) => r == Err::<Instructions, Fault>(f),
            },
    ;

    fn decode_or_div(&self, mem: &M, it: &mut MemoryIter, ins: u16) -> (r: Result<
        Instructions,
        Fault,
    >)
        ensures
            match spec_decode_or_div(mem.contents(), old(it).next_address, ins) {
                Ok((i2, a2)) => r == Ok::<Instructions, Fault>(i2) && final(it).next_address == a2,
                Err(f) => r == Err::<Instructions, Fault>(f),
            },
    ;

    fn decode_sub(&self, mem: &M, it: &mut MemoryIter, ins: u16) -> (r: Result<
        Instructions,
        Fault,
    >)
        ensures
            match spec_decode_addsub(mem.contents(), old(it).next_address, ins, false) {
                Ok((i2, a2)) => r == Ok::<Instructions, Fault>(i2) && final(it).next_address == a2,
                Err(f) => r == Err::<Instructions, Fault>(f),
            },
    ;

    fn decode_reserved(&self, mem: &M, it: &mut MemoryIter, ins: u16) -> (r: Result<
        Instructions,
        Fault,
    >)
        ensures
            match spec_decode_reserved(mem.contents(), old(it).next_address, ins) {
                Ok((i2, a2)) => r == Ok::<Instructions, Fault>(i2) && final(it).next_address == a2,
                Err(f) => r == Err::<Instructions, Fault>(f),
            },
    ;

    fn decode_cmp_eor(&self, mem: &M, it: &mut MemoryIter, ins: u16) -> (r: Result<
        Instructions,
        Fault,
    >)
        ensures
            match spec_decode_cmp_eor(mem.contents(), old(it).next_address, ins) {
                Ok((i2, a2)) => r == Ok::<Instructions, Fault>(i2) && final(it).next_address == a2,
                Err(f) => r == Err::<Instructions, Fault>(f),
            },
    ;

    fn decode_and_mul(&self, mem: &M, it: &mut MemoryIter, ins: u16) -> (r: Result<
        Instructions,
        Fault,
    >)
        ensures
            match spec_decode_and_mul(mem.contents(), old(it).next_address, ins) {
                Ok((i2, a2)) => r == Ok::<Instructions, Fault>(i2) && final(it).next_address == a2,
                Err(f) => r == Err::<Instructions, Fault>(f),
            },
    ;

    fn decode_add(&self, mem: &M, it: &mut MemoryIter, ins: u16) -> (r: Result<
        Instructions,
        Fault,
    >)
        ensures
            match spec_decode_addsub(mem.contents(), old(it).next_address, ins, true) {
                Ok((i2, a2)) => r == Ok::<Instructions, Fault>(i2) && final(it).next_address == a2,
                Err(f) => r == Err::<Instructions, Fault>(f),
            },
    ;

    fn decode_shift(&self, mem: &M, it: &mut MemoryIter, ins: u16) -> (r: Result<
        Instructions,
        Fault,
    >)
        ensures
            match spec_decode_shift(mem.contents(), old(it).next_address, ins) {
                Ok((i2, a2)) => r == Ok::<Instructions, Fault>(i2) && final(it).next_address == a2,
                Err(f) => r == Err::<Instructions, Fault>(f),
            },
    ;

    fn decode_extension(&self, mem: &M, it: &mut MemoryIter, ins: u16) -> (r: Result<
        Instructions,
        Fault,
    >)
        ensures
            match spec_decode_extension(mem.contents(), old(it).next_address, ins) {
                Ok((i2, a2)) => r == Ok::<Instructions, Fault>(i2) && final(it).next_address == a2,
                Err(f) => r == Err::<Instructions, Fault>(f),
            },
    ;
}

} // verus!
