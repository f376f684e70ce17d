//! The CPU engine: the register file and status flags, operand resolution with
//! its post-increment and pre-decrement side effects, the execute step for the
//! supported instruction subset, and the fetch/decode/execute state machine.

use vstd::prelude::*;

use crate::instruction::{Condition, Instructions, Size, Target};
use crate::instruction::Registers as RegName;
use crate::memory::{
    spec_fetch_word, spec_read_byte, spec_read_long, spec_read_word, spec_write_byte,
    spec_write_long, spec_write_word, ByteMemory, Fault, Memory, MemoryIter, MEMORY_CAPACITY,
};

verus! {

/// The status register: trace and supervisor bits, the interrupt mask, and the
/// five condition codes.
#[derive(Clone, Copy, Debug, PartialEq, Eq, Structural)]
pub struct StatusRegister {
    pub trace_mode: bool,
    pub supervisor_state: bool,
    pub interrupt_mask: u8,
    pub extend: bool,
    pub negative: bool,
    pub zero: bool,
    pub overflow: bool,
    pub carry: bool,
}

impl StatusRegister {
    /// The architectural reset value: everything clear.
    pub fn new() -> (sr: StatusRegister)
        ensures
            sr == spec_sr_zero(),
    {
        StatusRegister {
            trace_mode: false,
            supervisor_state: false,
            interrupt_mask: 0,
            extend: false,
            negative: false,
            zero: false,
            overflow: false,
            carry: false,
        }
    }
}

/// The all-clear status register.
pub open spec fn spec_sr_zero() -> StatusRegister {
    StatusRegister {
        trace_mode: false,
        supervisor_state: false,
        interrupt_mask: 0,
        extend: false,
        negative: false,
        zero: false,
        overflow: false,
        carry: false,
    }
}

/// The register file: eight data registers, seven address registers, the
/// stack pointer, the program counter and the status register.
#[allow(non_snake_case)]
#[derive(Clone, Copy, Debug, PartialEq, Eq, Structural)]
pub struct Registers {
    /* Data Registers */
    pub D0: u32,
    pub D1: u32,
    pub D2: u32,
    pub D3: u32,
    pub D4: u32,
    pub D5: u32,
    pub D6: u32,
    pub D7: u32,
    /* Address Registers */
    pub A0: u32,
    pub A1: u32,
    pub A2: u32,
    pub A3: u32,
    pub A4: u32,
    pub A5: u32,
    pub A6: u32,
    // Stack Pointer (either SSP or USP)
    pub SP: u32,
    // Program Counter
    pub PC: u32,
    // Status Register (including CCR)
    pub SR: StatusRegister,
}

/// The all-zero register file.
pub open spec fn spec_registers_zero() -> Registers {
    Registers {
        D0: 0,
        D1: 0,
        D2: 0,
        D3: 0,
        D4: 0,
        D5: 0,
        D6: 0,
        D7: 0,
        A0: 0,
        A1: 0,
        A2: 0,
        A3: 0,
        A4: 0,
        A5: 0,
        A6: 0,
        SP: 0,
        PC: 0,
        SR: spec_sr_zero(),
    }
}

impl Registers {
    /// The architectural reset value: every register zero, every flag clear.
    pub fn new() -> (r: Registers)
        ensures
            r == spec_registers_zero(),
    {
        Registers {
            D0: 0,
            D1: 0,
            D2: 0,
            D3: 0,
            D4: 0,
            D5: 0,
            D6: 0,
            D7: 0,
            A0: 0,
            A1: 0,
            A2: 0,
            A3: 0,
            A4: 0,
            A5: 0,
            A6: 0,
            SP: 0,
            PC: 0,
            SR: StatusRegister::new(),
        }
    }
}

/// The 32-bit content a register name denotes; the status register reads as
/// its packed word value.
pub open spec fn spec_get_reg(regs: Registers, r: RegName) -> u32 {
    match r {
        RegName::D0 => regs.D0,
        RegName::D1 => regs.D1,
        RegName::D2 => regs.D2,
        RegName::D3 => regs.D3,
        RegName::D4 => regs.D4,
        RegName::D5 => regs.D5,
        RegName::D6 => regs.D6,
        RegName::D7 => regs.D7,
        RegName::A0 => regs.A0,
        RegName::A1 => regs.A1,
        RegName::A2 => regs.A2,
        RegName::A3 => regs.A3,
        RegName::A4 => regs.A4,
        RegName::A5 => regs.A5,
        RegName::A6 => regs.A6,
        RegName::SP => regs.SP,
        RegName::PC => regs.PC,
        RegName::SR => spec_sr_word(regs.SR) as u32,
    }
}

/// The register file with one register name set to `v`; the status register
/// and program counter are written only through their own paths.
pub open spec fn spec_set_reg(regs: Registers, r: RegName, v: u32) -> Registers {
    match r {
        RegName::D0 => Registers { D0: v, ..regs },
        RegName::D1 => Registers { D1: v, ..regs },
        RegName::D2 => Registers { D2: v, ..regs },
        RegName::D3 => Registers { D3: v, ..regs },
        RegName::D4 => Registers { D4: v, ..regs },
        RegName::D5 => Registers { D5: v, ..regs },
        RegName::D6 => Registers { D6: v, ..regs },
        RegName::D7 => Registers { D7: v, ..regs },
        RegName::A0 => Registers { A0: v, ..regs },
        RegName::A1 => Registers { A1: v, ..regs },
        RegName::A2 => Registers { A2: v, ..regs },
        RegName::A3 => Registers { A3: v, ..regs },
        RegName::A4 => Registers { A4: v, ..regs },
        RegName::A5 => Registers { A5: v, ..regs },
        RegName::A6 => Registers { A6: v, ..regs },
        RegName::SP => Registers { SP: v, ..regs },
        RegName::PC => Registers { PC: v, ..regs },
        RegName::SR => regs,
    }
}

/// Read a register by name.
pub fn get_register(regs: &Registers, r: RegName) -> (v: u32)
    ensures
        v == spec_get_reg(*regs, r),
{
    match r {
        RegName::D0 => regs.D0,
        RegName::D1 => regs.D1,
        RegName::D2 => regs.D2,
        RegName::D3 => regs.D3,
        RegName::D4 => regs.D4,
        RegName::D5 => regs.D5,
        RegName::D6 => regs.D6,
        RegName::D7 => regs.D7,
        RegName::A0 => regs.A0,
        RegName::A1 => regs.A1,
        RegName::A2 => regs.A2,
        RegName::A3 => regs.A3,
        RegName::A4 => regs.A4,
        RegName::A5 => regs.A5,
        RegName::A6 => regs.A6,
        RegName::SP => regs.SP,
        RegName::PC => regs.PC,
        RegName::SR => sr_to_word(&regs.SR) as u32,
    }
}

/// Write a register by name; the status register is written only through its
/// own paths.
pub fn set_register(regs: &mut Registers, r: RegName, v: u32)
    ensures
        *final(regs) == spec_set_reg(*old(regs), r, v),
{
    match r {
        RegName::D0 => regs.D0 = v,
        RegName::D1 => regs.D1 = v,
        RegName::D2 => regs.D2 = v,
        RegName::D3 => regs.D3 = v,
        RegName::D4 => regs.D4 = v,
        RegName::D5 => regs.D5 = v,
        RegName::D6 => regs.D6 = v,
        RegName::D7 => regs.D7 = v,
        RegName::A0 => regs.A0 = v,
        RegName::A1 => regs.A1 = v,
        RegName::A2 => regs.A2 = v,
        RegName::A3 => regs.A3 = v,
        RegName::A4 => regs.A4 = v,
        RegName::A5 => regs.A5 = v,
        RegName::A6 => regs.A6 = v,
        RegName::SP => regs.SP = v,
        RegName::PC => regs.PC = v,
        RegName::SR => (),
    }
}

/// The status register packed into its architectural word layout: trace,
/// supervisor and interrupt mask in the system byte, the five condition codes
/// in the low byte.
pub open spec fn spec_sr_word(sr: StatusRegister) -> u16 {
    ((if sr.trace_mode {
        0x8000int
    } else {
        0int
    }) + (if sr.supervisor_state {
        0x2000int
    } else {
        0int
    }) + (sr.interrupt_mask as int % 8) * 0x100 + spec_ccr_byte(sr)) as u16
}

/// The condition codes packed into the low byte: extend, negative, zero,
/// overflow, carry from bit four down to bit zero.
pub open spec fn spec_ccr_byte(sr: StatusRegister) -> int {
    (if sr.extend {
        16int
    } else {
        0int
    }) + (if sr.negative {
        8int
    } else {
        0int
    }) + (if sr.zero {
        4int
    } else {
        0int
    }) + (if sr.overflow {
        2int
    } else {
        0int
    }) + (if sr.carry {
        1int
    } else {
        0int
    })
}

/// Pack the status register into its word layout.
pub fn sr_to_word(sr: &StatusRegister) -> (w: u16)
    ensures
        w == spec_sr_word(*sr),
{
    let mut w: u16 = 0;
    if sr.trace_mode {
        w = w + 0x8000;
    }
    if sr.supervisor_state {
        w = w + 0x2000;
    }
    w = w + (sr.interrupt_mask % 8) as u16 * 0x100;
    w = w + ccr_to_byte(sr) as u16;
    w
}

/// Pack the condition codes into their byte layout.
pub fn ccr_to_byte(sr: &StatusRegister) -> (b: u8)
    ensures
        b as int == spec_ccr_byte(*sr),
{
    let mut b: u8 = 0;
    if sr.extend {
        b = b + 16;
    }
    if sr.negative {
        b = b + 8;
    }
    if sr.zero {
        b = b + 4;
    }
    if sr.overflow {
        b = b + 2;
    }
    if sr.carry {
        b = b + 1;
    }
    b
}

/// The status register a packed word denotes.
pub open spec fn spec_sr_from_word(w: u16) -> StatusRegister {
    StatusRegister {
        trace_mode: (w / 0x8000) % 2 == 1,
        supervisor_state: (w / 0x2000) % 2 == 1,
        interrupt_mask: ((w / 0x100) % 8) as u8,
        extend: (w / 16) % 2 == 1,
        negative: (w / 8) % 2 == 1,
        zero: (w / 4) % 2 == 1,
        overflow: (w / 2) % 2 == 1,
        carry: w % 2 == 1,
    }
}

/// Unpack a status-register word.
pub fn sr_from_word(w: u16) -> (sr: StatusRegister)
    ensures
        sr == spec_sr_from_word(w),
{
    StatusRegister {
        trace_mode: (w / 0x8000) % 2 == 1,
        supervisor_state: (w / 0x2000) % 2 == 1,
        interrupt_mask: ((w / 0x100) % 8) as u8,
        extend: (w / 16) % 2 == 1,
        negative: (w / 8) % 2 == 1,
        zero: (w / 4) % 2 == 1,
        overflow: (w / 2) % 2 == 1,
        carry: w % 2 == 1,
    }
}

/// The status register with only its condition codes replaced from a packed
/// byte: a move to the condition codes leaves the system byte alone.
pub open spec fn spec_sr_set_ccr(sr: StatusRegister, b: u16) -> StatusRegister {
    StatusRegister {
        extend: (b / 16) % 2 == 1,
        negative: (b / 8) % 2 == 1,
        zero: (b / 4) % 2 == 1,
        overflow: (b / 2) % 2 == 1,
        carry: b % 2 == 1,
        ..sr
    }
}

/// Replace only the condition codes from the low bits of `b`.
pub fn sr_set_ccr(sr: &StatusRegister, b: u16) -> (r: StatusRegister)
    ensures
        r == spec_sr_set_ccr(*sr, b),
{
    StatusRegister {
        extend: (b / 16) % 2 == 1,
        negative: (b / 8) % 2 == 1,
        zero: (b / 4) % 2 == 1,
        overflow: (b / 2) % 2 == 1,
        carry: b % 2 == 1,
        ..*sr
    }
}

/// Whether a condition holds of the current flags.
pub open spec fn spec_cond_holds(c: Condition, sr: StatusRegister) -> bool {
    match c {
        Condition::CarryClear => !sr.carry,
        Condition::CarrySet => sr.carry,
        Condition::Equal => sr.zero,
        Condition::Neq => !sr.zero,
        Condition::Minus => sr.negative,
        Condition::Plus => !sr.negative,
        Condition::OverflowClear => !sr.overflow,
        Condition::OverflowSet => sr.overflow,
        Condition::High => !sr.carry && !sr.zero,
        Condition::Low => sr.carry || sr.zero,
        Condition::Geq => sr.negative == sr.overflow,
        Condition::Lt => sr.negative != sr.overflow,
        Condition::Gt => !sr.zero && sr.negative == sr.overflow,
        Condition::Leq => sr.zero || sr.negative != sr.overflow,
    }
}

/// Evaluate a condition against the current flags.
pub fn cond_holds(c: Condition, sr: &StatusRegister) -> (r: bool)
    ensures
        r == spec_cond_holds(c, *sr),
{
    match c {
        Condition::CarryClear => !sr.carry,
        Condition::CarrySet => sr.carry,
        Condition::Equal => sr.zero,
        Condition::Neq => !sr.zero,
        Condition::Minus => sr.negative,
        Condition::Plus => !sr.negative,
        Condition::OverflowClear => !sr.overflow,
        Condition::OverflowSet => sr.overflow,
        Condition::High => !sr.carry && !sr.zero,
        Condition::Low => sr.carry || sr.zero,
        Condition::Geq => sr.negative == sr.overflow,
        Condition::Lt => sr.negative != sr.overflow,
        Condition::Gt => !sr.zero && sr.negative == sr.overflow,
        Condition::Leq => sr.zero || sr.negative != sr.overflow,
    }
}

/// How many bytes an operand of width `z` occupies.
pub open spec fn spec_bytes(z: Size) -> int {
    match z {
        Size::Byte => 1,
        Size::Word => 2,
        Size::Long => 4,
    }
}

/// The byte count of an operand width.
pub fn size_bytes(z: Size) -> (n: u32)
    ensures
        n == spec_bytes(z),
{
    match z {
        Size::Byte => 1,
        Size::Word => 2,
        Size::Long => 4,
    }
}

/// One more than the largest value an operand of width `z` can hold.
pub open spec fn spec_modulus(z: Size) -> int {
    match z {
        Size::Byte => 0x100,
        Size::Word => 0x1_0000,
        Size::Long => 0x1_0000_0000,
    }
}

/// Whether a value, truncated to width `z`, has its sign bit set.
pub open spec fn spec_neg(z: Size, v: u32) -> bool {
    v as int % spec_modulus(z) >= spec_modulus(z) / 2
}

/// A number reduced to a 32-bit address, wrapping as the architecture's
/// address arithmetic does.
pub open spec fn spec_wrap32(v: int) -> u32 {
    (v % 0x1_0000_0000) as u32
}

/// Reduce a bounded signed number to a 32-bit address.
pub fn wrap32(v: i64) -> (r: u32)
    requires
        -0xFF_FFFF_FFFF <= v <= 0xFF_FFFF_FFFF,
    ensures
        r == spec_wrap32(v as int),
{
    let shifted = v + 0x100_0000_0000;
    let m = shifted % 0x1_0000_0000;
    proof {
        vstd::arithmetic::div_mod::lemma_mod_multiples_vanish(0x100, v as int, 0x1_0000_0000);
        vstd::arithmetic::div_mod::lemma_mod_bound(shifted as int, 0x1_0000_0000);
    }
    m as u32
}

/// A register's content read as a signed number at the index width, times the
/// scale factor: the index contribution of an indexed addressing mode.
pub open spec fn spec_index_value(regs: Registers, ix: crate::instruction::IndexRegister) -> int {
    let raw = spec_get_reg(regs, ix.register);
    let v = match ix.size {
        Size::Word => if raw as int % 0x1_0000 >= 0x8000 {
            raw as int % 0x1_0000 - 0x1_0000
        } else {
            raw as int % 0x1_0000
        },
        _ => if raw >= 0x8000_0000 {
            raw - 0x1_0000_0000
        } else {
            raw as int
        },
    };
    v * (ix.scale as int)
}

/// Compute the index contribution of an indexed addressing mode.
pub fn index_value(regs: &Registers, ix: &crate::instruction::IndexRegister) -> (r: i64)
    ensures
        r == spec_index_value(*regs, *ix),
        -0x80_0000_0000 <= r <= 0x80_0000_0000,
{
    let raw = get_register(regs, ix.register);
    let v: i64 = match ix.size {
        Size::Word => {
            let low = raw % 0x1_0000;
            if low >= 0x8000 {
                low as i64 - 0x1_0000
            } else {
                low as i64
            }
        },
        _ => {
            if raw >= 0x8000_0000 {
                raw as i64 - 0x1_0000_0000
            } else {
                raw as i64
            }
        },
    };
    assert(-0x80_0000_0000 <= v as int * (ix.scale as int) <= 0x80_0000_0000) by (nonlinear_arith)
        requires
            -0x8000_0000 <= v as int <= 0x8000_0000,
            0 <= ix.scale as int <= 0x100,
    ;
    v * (ix.scale as i64)
}

/// The effective address a memory operand resolves to, with the register file
/// after the resolution's side effect: post-increment and pre-decrement mutate
/// their address register by the operand width, exactly once per resolution.
/// `None` for an operand that is not a supported memory form.
pub open spec fn spec_resolve_addr(regs: Registers, t: Target, z: Size) -> Option<(u32, Registers)> {
    match t {
        Target::AnIndirect(r) => Some((spec_get_reg(regs, r), regs)),
        Target::AnIndirectPostInc(r) => Some(
            (
                spec_get_reg(regs, r),
                spec_set_reg(regs, r, spec_wrap32(spec_get_reg(regs, r) + spec_bytes(z))),
            ),
        ),
        Target::AnIndirectPreDec(r) => Some(
            (
                spec_wrap32(spec_get_reg(regs, r) - spec_bytes(z)),
                spec_set_reg(regs, r, spec_wrap32(spec_get_reg(regs, r) - spec_bytes(z))),
            ),
        ),
        Target::AnIndirectDisplacement(d, r) => Some(
            (spec_wrap32(spec_get_reg(regs, r) + d), regs),
        ),
        Target::AnIndirectIndex(d, r, ix) => Some(
            (spec_wrap32(spec_get_reg(regs, r) + d + spec_index_value(regs, ix)), regs),
        ),
        Target::PCIndirectDisplacement(d, _r) => if d >= 0 {
            Some((d as u32, regs))
        } else {
            None
        },
        Target::PCIndirectIndex(d, _r, ix) => if d >= 0 {
            Some((spec_wrap32(d + spec_index_value(regs, ix)), regs))
        } else {
            None
        },
        Target::AbsoluteShortAddress(d) => Some((spec_wrap32(d as int), regs)),
        Target::AbsoluteLongAddress(hi, lo) => Some(
            (spec_wrap32((hi as int % 0x1_0000) * 0x1_0000 + (lo as int % 0x1_0000)), regs),
        ),
        _ => None,
    }
}

/// Resolve a memory operand to its effective address, applying any
/// post-increment or pre-decrement side effect to the returned register file.
pub fn resolve_addr(regs: &Registers, t: &Target, z: Size) -> (r: Option<(u32, Registers)>)
    ensures
        r == spec_resolve_addr(*regs, *t, z),
{
    match t {
        Target::AnIndirect(rn) => Some((get_register(regs, *rn), *regs)),
        Target::AnIndirectPostInc(rn) => {
            let a = get_register(regs, *rn);
            let bumped = wrap32(a as i64 + size_bytes(z) as i64);
            let mut regs2 = *regs;
            set_register(&mut regs2, *rn, bumped);
            Some((a, regs2))
        },
        Target::AnIndirectPreDec(rn) => {
            let a = get_register(regs, *rn);
            let bumped = wrap32(a as i64 - size_bytes(z) as i64);
            let mut regs2 = *regs;
            set_register(&mut regs2, *rn, bumped);
            Some((bumped, regs2))
        },
        Target::AnIndirectDisplacement(d, rn) => {
            let a = get_register(regs, *rn);
            Some((wrap32(a as i64 + *d as i64), *regs))
        },
        Target::AnIndirectIndex(d, rn, ix) => {
            let a = get_register(regs, *rn);
            let idx = index_value(regs, ix);
            Some((wrap32(a as i64 + *d as i64 + idx), *regs))
        },
        Target::PCIndirectDisplacement(d, _rn) => {
            if *d >= 0 {
                Some((*d as u32, *regs))
            } else {
                None
            }
        },
        Target::PCIndirectIndex(d, _rn, ix) => {
            if *d >= 0 {
                let idx = index_value(regs, ix);
                Some((wrap32(*d as i64 + idx), *regs))
            } else {
                None
            }
        },
        Target::AbsoluteShortAddress(d) => Some((wrap32(*d as i64), *regs)),
        Target::AbsoluteLongAddress(hi, lo) => Some(
            (wrap32((*hi % 0x1_0000) as i64 * 0x1_0000 + (*lo % 0x1_0000) as i64), *regs),
        ),
        _ => None,
    }
}

/// A number truncated to width `z`.
pub open spec fn spec_trunc(z: Size, v: int) -> u32 {
    (v % spec_modulus(z)) as u32
}

/// Truncate a 32-bit value to width `z`.
pub fn trunc_sized(z: Size, v: u32) -> (r: u32)
    ensures
        r == spec_trunc(z, v as int),
        r < spec_modulus(z),
{
    match z {
        Size::Byte => v % 0x100,
        Size::Word => v % 0x1_0000,
        Size::Long => {
            proof {
                vstd::arithmetic::div_mod::lemma_small_mod(v as nat, 0x1_0000_0000);
            }
            v
        },
    }
}

/// The sum of two width-`z` values, truncated to the width.
pub open spec fn spec_add_result(z: Size, s: u32, d: u32) -> u32 {
    spec_trunc(z, s + d)
}

/// Whether the sum of two width-`z` values carries out of the width.
pub open spec fn spec_add_carry(z: Size, s: u32, d: u32) -> bool {
    s + d >= spec_modulus(z)
}

/// Whether the signed sum of two width-`z` values overflows: the operands
/// agree in sign and the result does not.
pub open spec fn spec_add_overflow(z: Size, s: u32, d: u32) -> bool {
    spec_neg(z, s) == spec_neg(z, d) && spec_neg(z, spec_add_result(z, s, d)) != spec_neg(z, s)
}

/// The difference `d - s` of two width-`z` values, truncated to the width.
pub open spec fn spec_sub_result(z: Size, s: u32, d: u32) -> u32 {
    spec_trunc(z, d - s)
}

/// Whether `d - s` borrows: the subtrahend is the larger.
pub open spec fn spec_sub_borrow(z: Size, s: u32, d: u32) -> bool {
    s > d
}

/// Whether the signed difference `d - s` overflows: the operands differ in
/// sign and the result's sign differs from the minuend's.
pub open spec fn spec_sub_overflow(z: Size, s: u32, d: u32) -> bool {
    spec_neg(z, s) != spec_neg(z, d) && spec_neg(z, spec_sub_result(z, s, d)) != spec_neg(z, d)
}

/// Add two width-`z` values: the truncated sum, the carry, and the signed
/// overflow.
pub fn add_sized(z: Size, s: u32, d: u32) -> (r: (u32, bool, bool))
    requires
        s < spec_modulus(z),
        d < spec_modulus(z),
    ensures
        r.0 == spec_add_result(z, s, d),
        r.0 < spec_modulus(z),
        r.1 == spec_add_carry(z, s, d),
        r.2 == spec_add_overflow(z, s, d),
{
    let sum: u64 = s as u64 + d as u64;
    let (modulus, half): (u64, u32) = match z {
        Size::Byte => (0x100, 0x80),
        Size::Word => (0x1_0000, 0x8000),
        Size::Long => (0x1_0000_0000, 0x8000_0000),
    };
    let carry = sum >= modulus;
    let result: u32 = if carry {
        (sum - modulus) as u32
    } else {
        sum as u32
    };
    proof {
        if carry {
            vstd::arithmetic::div_mod::lemma_mod_add_multiples_vanish(
                sum as int - modulus as int,
                modulus as int,
            );
        }
        vstd::arithmetic::div_mod::lemma_small_mod((result as int) as nat, modulus as nat);
    }
    let overflow = ((s >= half) == (d >= half)) && ((result >= half) != (s >= half));
    (result, carry, overflow)
}

/// Subtract `s` from `d` at width `z`: the truncated difference, the borrow,
/// and the signed overflow.
pub fn sub_sized(z: Size, s: u32, d: u32) -> (r: (u32, bool, bool))
    requires
        s < spec_modulus(z),
        d < spec_modulus(z),
    ensures
        r.0 == spec_sub_result(z, s, d),
        r.0 < spec_modulus(z),
        r.1 == spec_sub_borrow(z, s, d),
        r.2 == spec_sub_overflow(z, s, d),
{
    let (modulus, half): (u64, u32) = match z {
        Size::Byte => (0x100, 0x80),
        Size::Word => (0x1_0000, 0x8000),
        Size::Long => (0x1_0000_0000, 0x8000_0000),
    };
    let borrow = s > d;
    let result: u32 = if borrow {
        (d as u64 + modulus - s as u64) as u32
    } else {
        d - s
    };
    proof {
        if borrow {
            vstd::arithmetic::div_mod::lemma_mod_add_multiples_vanish(
                d as int - s as int,
                modulus as int,
            );
        }
        vstd::arithmetic::div_mod::lemma_small_mod((result as int) as nat, modulus as nat);
    }
    let overflow = ((s >= half) != (d >= half)) && ((result >= half) != (d >= half));
    (result, borrow, overflow)
}

/// A width-`z` result written into a register: the bytes above the width keep
/// their old content.
pub open spec fn spec_merge(z: Size, oldv: u32, r: u32) -> u32 {
    match z {
        Size::Long => r,
        Size::Word => (oldv - oldv as int % 0x1_0000 + r) as u32,
        Size::Byte => (oldv - oldv as int % 0x100 + r) as u32,
    }
}

/// Write a width-`z` result into the low part of a register value.
pub fn merge_sized(z: Size, oldv: u32, r: u32) -> (v: u32)
    requires
        r < spec_modulus(z),
    ensures
        v == spec_merge(z, oldv, r),
{
    match z {
        Size::Long => r,
        Size::Word => oldv / 0x1_0000 * 0x1_0000 + r,
        Size::Byte => oldv / 0x100 * 0x100 + r,
    }
}

/// The flags after a data move or a logic operation: negative and zero follow
/// the result, overflow and carry clear, extend untouched.
pub open spec fn spec_flags_move(sr: StatusRegister, z: Size, v: u32) -> StatusRegister {
    StatusRegister {
        negative: spec_neg(z, v),
        zero: v == 0,
        overflow: false,
        carry: false,
        ..sr
    }
}

/// The flags after an addition: all five condition codes follow the result.
pub open spec fn spec_flags_add(sr: StatusRegister, z: Size, s: u32, d: u32) -> StatusRegister {
    StatusRegister {
        negative: spec_neg(z, spec_add_result(z, s, d)),
        zero: spec_add_result(z, s, d) == 0,
        overflow: spec_add_overflow(z, s, d),
        carry: spec_add_carry(z, s, d),
        extend: spec_add_carry(z, s, d),
        ..sr
    }
}

/// The flags after a subtraction or comparison of `d - s`: a comparison leaves
/// extend untouched, a subtraction copies the borrow into it.
pub open spec fn spec_flags_sub(
    sr: StatusRegister,
    z: Size,
    s: u32,
    d: u32,
    set_extend: bool,
) -> StatusRegister {
    StatusRegister {
        negative: spec_neg(z, spec_sub_result(z, s, d)),
        zero: spec_sub_result(z, s, d) == 0,
        overflow: spec_sub_overflow(z, s, d),
        carry: spec_sub_borrow(z, s, d),
        extend: if set_extend {
            spec_sub_borrow(z, s, d)
        } else {
            sr.extend
        },
        ..sr
    }
}

/// What reading an operand at width `z` yields: its value (truncated to the
/// width) and the register file after any resolution side effect. Registers
/// and immediates read directly; memory operands resolve and read, failing
/// out-of-bounds cleanly; an unsupported operand form is an illegal-opcode
/// fault. On a fault the register file is unchanged.
#[verifier::opaque]
pub open spec fn spec_target_read(regs: Registers, m: Seq<u8>, t: Target, z: Size) -> Result<
    (u32, Registers),
    Fault,
> {
    match t {
        Target::DnDirect(r) => Ok((spec_trunc(z, spec_get_reg(regs, r) as int), regs)),
        Target::AnDirect(r) => Ok((spec_trunc(z, spec_get_reg(regs, r) as int), regs)),
        Target::Immediate(v) => Ok((spec_trunc(z, v as int), regs)),
        _ => match spec_resolve_addr(regs, t, z) {
            Some((a, regs2)) => match z {
                Size::Byte => match spec_read_byte(m, a) {
                    Some(b) => Ok((b as u32, regs2)),
                    None => Err(Fault::OutOfBounds),
                },
                Size::Word => match spec_read_word(m, a) {
                    Some(w) => Ok((w as u32, regs2)),
                    None => Err(Fault::OutOfBounds),
                },
                Size::Long => match spec_read_long(m, a) {
                    Some(l) => Ok((l, regs2)),
                    None => Err(Fault::OutOfBounds),
                },
            },
            None => Err(Fault::IllegalOpcode),
        },
    }
}

/// Read an operand at width `z`, applying any post-increment or pre-decrement
/// side effect to the returned register file.
pub fn target_read(regs: &Registers, mem: &ByteMemory, t: &Target, z: Size) -> (r: Result<
    (u32, Registers),
    Fault,
>)
    ensures
        r == spec_target_read(*regs, mem.contents(), *t, z),
        r matches Ok(p) ==> p.0 < spec_modulus(z),
{
    proof {
        reveal(spec_target_read);
    }
    match t {
        Target::DnDirect(rn) => Ok((trunc_sized(z, get_register(regs, *rn)), *regs)),
        Target::AnDirect(rn) => Ok((trunc_sized(z, get_register(regs, *rn)), *regs)),
        Target::Immediate(v) => Ok((trunc_sized(z, *v), *regs)),
        _ => match resolve_addr(regs, t, z) {
            Some((a, regs2)) => match z {
                Size::Byte => match mem.read_at_address_byte(a) {
                    Some(b) => Ok(((b as u32), regs2)),
                    None => Err(Fault::OutOfBounds),
                },
                Size::Word => match mem.read_at_address_word(a) {
                    Some(w) => Ok(((w as u32), regs2)),
                    None => Err(Fault::OutOfBounds),
                },
                Size::Long => match mem.read_at_address_long(a) {
                    Some(l) => Ok((l, regs2)),
                    None => Err(Fault::OutOfBounds),
                },
            },
            None => Err(Fault::IllegalOpcode),
        },
    }
}

/// What writing a width-`z` value to an operand yields: the register file
/// (with any resolution side effect and, for a data register, the merged
/// content) and the store. Address-register, immediate and program-counter-
/// relative destinations are not writable here; an out-of-range memory write
/// fails cleanly, mutating nothing.
#[verifier::opaque]
pub open spec fn spec_target_write(regs: Registers, m: Seq<u8>, t: Target, z: Size, v: u32) -> Result<
    (Registers, Seq<u8>),
    Fault,
> {
    match t {
        Target::DnDirect(r) => Ok(
            (spec_set_reg(regs, r, spec_merge(z, spec_get_reg(regs, r), v)), m),
        ),
        Target::AnDirect(_r) => Err(Fault::IllegalOpcode),
        Target::Immediate(_v) => Err(Fault::IllegalOpcode),
        Target::PCIndirectDisplacement(_d, _r) => Err(Fault::IllegalOpcode),
        Target::PCIndirectIndex(_d, _r, _ix) => Err(Fault::IllegalOpcode),
        _ => match spec_resolve_addr(regs, t, z) {
            Some((a, regs2)) => match z {
                Size::Byte => if a as int + 1 <= m.len() {
                    Ok((regs2, spec_write_byte(m, a, (v % 0x100) as u8)))
                } else {
                    Err(Fault::OutOfBounds)
                },
                Size::Word => if a as int + 2 <= m.len() {
                    Ok((regs2, spec_write_word(m, a, (v % 0x1_0000) as u16)))
                } else {
                    Err(Fault::OutOfBounds)
                },
                Size::Long => if a as int + 4 <= m.len() {
                    Ok((regs2, spec_write_long(m, a, v)))
                } else {
                    Err(Fault::OutOfBounds)
                },
            },
            None => Err(Fault::IllegalOpcode),
        },
    }
}

/// Write a width-`z` value to an operand. On success the returned register
/// file carries any resolution side effect and the store carries the write;
/// on a fault both are unchanged.
pub fn target_write(regs: &Registers, mem: &mut ByteMemory, t: &Target, z: Size, v: u32) -> (r:
    Result<Registers, Fault>)
    requires
        v < spec_modulus(z),
    ensures
        match spec_target_write(*regs, old(mem).contents(), *t, z, v) {
            Ok((regs2, m2)) => r == Ok::<Registers, Fault>(regs2) && final(mem).contents() == m2,
            Err(f) => r == Err::<Registers, Fault>(f) && final(mem).contents() == old(
                mem,
            ).contents(),
        },
{
    proof {
        reveal(spec_target_write);
    }
    match t {
        Target::DnDirect(rn) => {
            let merged = merge_sized(z, get_register(regs, *rn), v);
            let mut regs2 = *regs;
            set_register(&mut regs2, *rn, merged);
            Ok(regs2)
        },
        Target::AnDirect(_rn) => Err(Fault::IllegalOpcode),
        Target::Immediate(_v) => Err(Fault::IllegalOpcode),
        Target::PCIndirectDisplacement(_d, _rn) => Err(Fault::IllegalOpcode),
        Target::PCIndirectIndex(_d, _rn, _ix) => Err(Fault::IllegalOpcode),
        _ => match resolve_addr(regs, t, z) {
            Some((a, regs2)) => {
                let outcome = match z {
                    Size::Byte => mem.write_at_address_byte(a, (v % 0x100) as u8),
                    Size::Word => mem.write_at_address_word(a, (v % 0x1_0000) as u16),
                    Size::Long => mem.write_at_address_long(a, v),
                };
                match outcome {
                    Ok(()) => Ok(regs2),
                    Err(f) => Err(f),
                }
            },
            None => Err(Fault::IllegalOpcode),
        },
    }
}

/// The two-operand operations that share the read–modify–write shape.
#[derive(Clone, Copy, Debug, PartialEq, Eq, Structural)]
pub enum AluOp {
    Add,
    Sub,
    Cmp,
    And,
    Or,
    Eor,
}

/// The width-`z` result of an operation on source `s` and destination `d`;
/// a comparison leaves the destination as it was.
pub open spec fn spec_alu_result(z: Size, op: AluOp, s: u32, d: u32) -> u32 {
    match op {
        AluOp::Add => spec_add_result(z, s, d),
        AluOp::Sub => spec_sub_result(z, s, d),
        AluOp::Cmp => d,
        AluOp::And => ((s & d) as int % spec_modulus(z)) as u32,
        AluOp::Or => ((s | d) as int % spec_modulus(z)) as u32,
        AluOp::Eor => ((s ^ d) as int % spec_modulus(z)) as u32,
    }
}

/// The flags after an operation: additions and subtractions follow their
/// documented truth tables, comparisons leave extend untouched, and the logic
/// operations set negative and zero and clear overflow and carry.
pub open spec fn spec_alu_flags(sr: StatusRegister, z: Size, op: AluOp, s: u32, d: u32) -> StatusRegister {
    match op {
        AluOp::Add => spec_flags_add(sr, z, s, d),
        AluOp::Sub => spec_flags_sub(sr, z, s, d, true),
        AluOp::Cmp => spec_flags_sub(sr, z, s, d, false),
        AluOp::And => spec_flags_move(sr, z, spec_alu_result(z, op, s, d)),
        AluOp::Or => spec_flags_move(sr, z, spec_alu_result(z, op, s, d)),
        AluOp::Eor => spec_flags_move(sr, z, spec_alu_result(z, op, s, d)),
    }
}

/// Whether a comparison: the destination is read but never written.
pub open spec fn spec_alu_writes(op: AluOp) -> bool {
    !(op is Cmp)
}

/// What the engine's execute step yields on success: the register file, the
/// store, and whether the engine must halt.
pub type ExecOut = Result<(Registers, Seq<u8>, bool), Fault>;

/// Execute a two-operand operation: read the source, resolve the destination
/// exactly once, read it, compute the result and flags, and (except for a
/// comparison) write the result back through the same resolution. Source then
/// destination, left to right.
#[verifier::opaque]
pub open spec fn spec_exec_alu(
    regs: Registers,
    m: Seq<u8>,
    src: Target,
    dst: Target,
    z: Size,
    op: AluOp,
) -> ExecOut {
    match spec_target_read(regs, m, src, z) {
        Ok((sv, r1)) => match dst {
            Target::DnDirect(rn) => {
                let dv = spec_trunc(z, spec_get_reg(r1, rn) as int);
                let res = spec_alu_result(z, op, sv, dv);
                let flags = spec_alu_flags(r1.SR, z, op, sv, dv);
                let r2 = if spec_alu_writes(op) {
                    spec_set_reg(r1, rn, spec_merge(z, spec_get_reg(r1, rn), res))
                } else {
                    r1
                };
                Ok((Registers { SR: flags, ..r2 }, m, false))
            },
            Target::AnDirect(_) => Err(Fault::IllegalOpcode),
            Target::Immediate(_) => Err(Fault::IllegalOpcode),
            Target::PCIndirectDisplacement(_, _) => if op is Cmp {
                spec_exec_alu_mem(r1, m, dst, z, op, sv)
            } else {
                Err(Fault::IllegalOpcode)
            },
            Target::PCIndirectIndex(_, _, _) => if op is Cmp {
                spec_exec_alu_mem(r1, m, dst, z, op, sv)
            } else {
                Err(Fault::IllegalOpcode)
            },
            _ => spec_exec_alu_mem(r1, m, dst, z, op, sv),
        },
        Err(f) => Err(f),
    }
}

/// The memory-destination half of a two-operand operation: one resolution, one
/// read, and at most one write at the same address.
#[verifier::opaque]
pub open spec fn spec_exec_alu_mem(
    r1: Registers,
    m: Seq<u8>,
    dst: Target,
    z: Size,
    op: AluOp,
    sv: u32,
) -> ExecOut {
    match spec_resolve_addr(r1, dst, z) {
        Some((a, r2)) => {
            let read = match z {
                Size::Byte => match spec_read_byte(m, a) {
                    Some(b) => Some(b as u32),
                    None => None,
                },
                Size::Word => match spec_read_word(m, a) {
                    Some(w) => Some(w as u32),
                    None => None,
                },
                Size::Long => spec_read_long(m, a),
            };
            match read {
                Some(dv) => {
                    let res = spec_alu_result(z, op, sv, dv);
                    let flags = spec_alu_flags(r1.SR, z, op, sv, dv);
                    if spec_alu_writes(op) {
                        let m2 = match z {
                            Size::Byte => spec_write_byte(m, a, (res % 0x100) as u8),
                            Size::Word => spec_write_word(m, a, (res % 0x1_0000) as u16),
                            Size::Long => spec_write_long(m, a, res),
                        };
                        Ok((Registers { SR: flags, ..r2 }, m2, false))
                    } else {
                        Ok((Registers { SR: flags, ..r2 }, m, false))
                    }
                },
                None => Err(Fault::OutOfBounds),
            }
        },
        None => Err(Fault::IllegalOpcode),
    }
}

/// Execute a two-operand operation against the live register file and store.
fn exec_alu(
    regs: &Registers,
    mem: &mut ByteMemory,
    src: &Target,
    dst: &Target,
    z: Size,
    op: AluOp,
) -> (r: Result<(Registers, bool), Fault>)
    ensures
        match spec_exec_alu(*regs, old(mem).contents(), *src, *dst, z, op) {
            Ok((r2, m2, halt)) => r == Ok::<(Registers, bool), Fault>((r2, halt))
                && final(mem).contents() == m2,
            Err(f) => r == Err::<(Registers, bool), Fault>(f) && final(mem).contents() == old(
                mem,
            ).contents(),
        },
{
    proof {
        reveal(spec_exec_alu);
    }
    let (sv, r1) = target_read(regs, mem, src, z)?;
    match dst {
        Target::DnDirect(rn) => {
            let dv = trunc_sized(z, get_register(&r1, *rn));
            let res = alu_result(z, op, sv, dv);
            let flags = alu_flags(&r1.SR, z, op, sv, dv);
            let mut r2 = r1;
            if !matches!(op, AluOp::Cmp) {
                let merged = merge_sized(z, get_register(&r1, *rn), res);
                set_register(&mut r2, *rn, merged);
            }
            r2.SR = flags;
            Ok((r2, false))
        },
        Target::AnDirect(_) => Err(Fault::IllegalOpcode),
        Target::Immediate(_) => Err(Fault::IllegalOpcode),
        Target::PCIndirectDisplacement(_, _) => {
            if matches!(op, AluOp::Cmp) {
                exec_alu_mem(&r1, mem, dst, z, op, sv)
            } else {
                Err(Fault::IllegalOpcode)
            }
        },
        Target::PCIndirectIndex(_, _, _) => {
            if matches!(op, AluOp::Cmp) {
                exec_alu_mem(&r1, mem, dst, z, op, sv)
            } else {
                Err(Fault::IllegalOpcode)
            }
        },
        _ => exec_alu_mem(&r1, mem, dst, z, op, sv),
    }
}

/// The memory-destination half of `exec_alu`.
fn exec_alu_mem(r1: &Registers, mem: &mut ByteMemory, dst: &Target, z: Size, op: AluOp, sv: u32) -> (r:
    Result<(Registers, bool), Fault>)
    requires
        sv < spec_modulus(z),
    ensures
        match spec_exec_alu_mem(*r1, old(mem).contents(), *dst, z, op, sv) {
            Ok((r2, m2, halt)) => r == Ok::<(Registers, bool), Fault>((r2, halt))
                && final(mem).contents() == m2,
            Err(f) => r == Err::<(Registers, bool), Fault>(f) && final(mem).contents() == old(
                mem,
            ).contents(),
        },
{
    proof {
        reveal(spec_exec_alu_mem);
    }
    match resolve_addr(r1, dst, z) {
        Some((a, r2)) => {
            let read: Option<u32> = match z {
                Size::Byte => match mem.read_at_address_byte(a) {
                    Some(b) => Some(b as u32),
                    None => None,
                },
                Size::Word => match mem.read_at_address_word(a) {
                    Some(w) => Some(w as u32),
                    None => None,
                },
                Size::Long => mem.read_at_address_long(a),
            };
            match read {
                Some(dv) => {
                    assert(dv < spec_modulus(z));
                    let res = alu_result(z, op, sv, dv);
                    let flags = alu_flags(&r1.SR, z, op, sv, dv);
                    let mut r3 = r2;
                    r3.SR = flags;
                    if !matches!(op, AluOp::Cmp) {
                        let outcome = match z {
                            Size::Byte => mem.write_at_address_byte(a, (res % 0x100) as u8),
                            Size::Word => mem.write_at_address_word(a, (res % 0x1_0000) as u16),
                            Size::Long => mem.write_at_address_long(a, res),
                        };
                        match outcome {
                            Ok(()) => Ok((r3, false)),
                            Err(f) => Err(f),
                        }
                    } else {
                        Ok((r3, false))
                    }
                },
                None => Err(Fault::OutOfBounds),
            }
        },
        None => Err(Fault::IllegalOpcode),
    }
}

/// Compute a two-operand result at width `z`.
fn alu_result(z: Size, op: AluOp, s: u32, d: u32) -> (r: u32)
    requires
        s < spec_modulus(z),
        d < spec_modulus(z),
    ensures
        r == spec_alu_result(z, op, s, d),
        r < spec_modulus(z),
{
    match op {
        AluOp::Add => add_sized(z, s, d).0,
        AluOp::Sub => sub_sized(z, s, d).0,
        AluOp::Cmp => d,
        AluOp::And => trunc_sized(z, s & d),
        AluOp::Or => trunc_sized(z, s | d),
        AluOp::Eor => trunc_sized(z, s ^ d),
    }
}

/// Compute the flags of a two-operand operation at width `z`.
fn alu_flags(sr: &StatusRegister, z: Size, op: AluOp, s: u32, d: u32) -> (r: StatusRegister)
    requires
        s < spec_modulus(z),
        d < spec_modulus(z),
    ensures
        r == spec_alu_flags(*sr, z, op, s, d),
{
    match op {
        AluOp::Add => {
            let (res, carry, overflow) = add_sized(z, s, d);
            StatusRegister {
                negative: neg_sized(z, res),
                zero: res == 0,
                overflow,
                carry,
                extend: carry,
                ..*sr
            }
        },
        AluOp::Sub => {
            let (res, borrow, overflow) = sub_sized(z, s, d);
            StatusRegister {
                negative: neg_sized(z, res),
                zero: res == 0,
                overflow,
                carry: borrow,
                extend: borrow,
                ..*sr
            }
        },
        AluOp::Cmp => {
            let (res, borrow, overflow) = sub_sized(z, s, d);
            StatusRegister {
                negative: neg_sized(z, res),
                zero: res == 0,
                overflow,
                carry: borrow,
                ..*sr
            }
        },
        _ => {
            let res = alu_result(z, op, s, d);
            StatusRegister {
                negative: neg_sized(z, res),
                zero: res == 0,
                overflow: false,
                carry: false,
                ..*sr
            }
        },
    }
}

/// Whether a width-`z` value has its sign bit set.
fn neg_sized(z: Size, v: u32) -> (r: bool)
    requires
        v < spec_modulus(z),
    ensures
        r == spec_neg(z, v),
{
    proof {
        vstd::arithmetic::div_mod::lemma_small_mod(v as nat, spec_modulus(z) as nat);
    }
    match z {
        Size::Byte => v >= 0x80,
        Size::Word => v >= 0x8000,
        Size::Long => v >= 0x8000_0000,
    }
}

/// The single-operand read–modify–write operations.
#[derive(Clone, Copy, Debug, PartialEq, Eq, Structural)]
pub enum UnaryOp {
    Neg,
    Not,
}

/// The width-`z` result of a single-operand operation.
pub open spec fn spec_unary_result(z: Size, op: UnaryOp, dv: u32) -> u32 {
    match op {
        UnaryOp::Neg => spec_sub_result(z, dv, 0),
        UnaryOp::Not => (spec_modulus(z) - 1 - dv) as u32,
    }
}

/// The flags after a single-operand operation: negation follows the
/// subtraction truth table with zero as minuend, complement the logic table.
pub open spec fn spec_unary_flags(sr: StatusRegister, z: Size, op: UnaryOp, dv: u32) -> StatusRegister {
    match op {
        UnaryOp::Neg => spec_flags_sub(sr, z, dv, 0, true),
        UnaryOp::Not => spec_flags_move(sr, z, spec_unary_result(z, op, dv)),
    }
}

/// Execute a single-operand operation: resolve the destination exactly once,
/// read it, and write the result back through the same resolution.
#[verifier::opaque]
pub open spec fn spec_exec_unary(regs: Registers, m: Seq<u8>, dst: Target, z: Size, op: UnaryOp) -> ExecOut {
    match dst {
        Target::DnDirect(rn) => {
            let dv = spec_trunc(z, spec_get_reg(regs, rn) as int);
            let res = spec_unary_result(z, op, dv);
            let flags = spec_unary_flags(regs.SR, z, op, dv);
            let r2 = spec_set_reg(regs, rn, spec_merge(z, spec_get_reg(regs, rn), res));
            Ok((Registers { SR: flags, ..r2 }, m, false))
        },
        Target::AnDirect(_) => Err(Fault::IllegalOpcode),
        Target::Immediate(_) => Err(Fault::IllegalOpcode),
        Target::PCIndirectDisplacement(_, _) => Err(Fault::IllegalOpcode),
        Target::PCIndirectIndex(_, _, _) => Err(Fault::IllegalOpcode),
        _ => match spec_resolve_addr(regs, dst, z) {
            Some((a, r2)) => {
                let read = match z {
                    Size::Byte => match spec_read_byte(m, a) {
                        Some(b) => Some(b as u32),
                        None => None,
                    },
                    Size::Word => match spec_read_word(m, a) {
                        Some(w) => Some(w as u32),
                        None => None,
                    },
                    Size::Long => spec_read_long(m, a),
                };
                match read {
                    Some(dv) => {
                        let res = spec_unary_result(z, op, dv);
                        let flags = spec_unary_flags(regs.SR, z, op, dv);
                        let m2 = match z {
                            Size::Byte => spec_write_byte(m, a, (res % 0x100) as u8),
                            Size::Word => spec_write_word(m, a, (res % 0x1_0000) as u16),
                            Size::Long => spec_write_long(m, a, res),
                        };
                        Ok((Registers { SR: flags, ..r2 }, m2, false))
                    },
                    None => Err(Fault::OutOfBounds),
                }
            },
            None => Err(Fault::IllegalOpcode),
        },
    }
}

/// Compute a single-operand result at width `z`.
fn unary_result(z: Size, op: UnaryOp, dv: u32) -> (r: u32)
    requires
        dv < spec_modulus(z),
    ensures
        r == spec_unary_result(z, op, dv),
        r < spec_modulus(z),
{
    match op {
        UnaryOp::Neg => sub_sized(z, dv, 0).0,
        UnaryOp::Not => {
            let modulus_minus_one: u32 = match z {
                Size::Byte => 0xFF,
                Size::Word => 0xFFFF,
                Size::Long => 0xFFFF_FFFF,
            };
            modulus_minus_one - dv
        },
    }
}

/// Compute the flags of a single-operand operation at width `z`.
fn unary_flags(sr: &StatusRegister, z: Size, op: UnaryOp, dv: u32) -> (r: StatusRegister)
    requires
        dv < spec_modulus(z),
    ensures
        r == spec_unary_flags(*sr, z, op, dv),
{
    match op {
        UnaryOp::Neg => {
            let (res, borrow, overflow) = sub_sized(z, dv, 0);
            StatusRegister {
                negative: neg_sized(z, res),
                zero: res == 0,
                overflow,
                carry: borrow,
                extend: borrow,
                ..*sr
            }
        },
        UnaryOp::Not => {
            let res = unary_result(z, op, dv);
            StatusRegister {
                negative: neg_sized(z, res),
                zero: res == 0,
                overflow: false,
                carry: false,
                ..*sr
            }
        },
    }
}

/// Execute a single-operand operation against the live register file and store.
fn exec_unary(regs: &Registers, mem: &mut ByteMemory, dst: &Target, z: Size, op: UnaryOp) -> (r:
    Result<(Registers, bool), Fault>)
    ensures
        match spec_exec_unary(*regs, old(mem).contents(), *dst, z, op) {
            Ok((r2, m2, halt)) => r == Ok::<(Registers, bool), Fault>((r2, halt))
                && final(mem).contents() == m2,
            Err(f) => r == Err::<(Registers, bool), Fault>(f) && final(mem).contents() == old(
                mem,
            ).contents(),
        },
{
    proof {
        reveal(spec_exec_unary);
    }
    match dst {
        Target::DnDirect(rn) => {
            let dv = trunc_sized(z, get_register(regs, *rn));
            let res = unary_result(z, op, dv);
            let flags = unary_flags(&regs.SR, z, op, dv);
            let merged = merge_sized(z, get_register(regs, *rn), res);
            let mut r2 = *regs;
            set_register(&mut r2, *rn, merged);
            r2.SR = flags;
            Ok((r2, false))
        },
        Target::AnDirect(_) => Err(Fault::IllegalOpcode),
        Target::Immediate(_) => Err(Fault::IllegalOpcode),
        Target::PCIndirectDisplacement(_, _) => Err(Fault::IllegalOpcode),
        Target::PCIndirectIndex(_, _, _) => Err(Fault::IllegalOpcode),
        _ => match resolve_addr(regs, dst, z) {
            Some((a, r2)) => {
                let read: Option<u32> = match z {
                    Size::Byte => match mem.read_at_address_byte(a) {
                        Some(b) => Some(b as u32),
                        None => None,
                    },
                    Size::Word => match mem.read_at_address_word(a) {
                        Some(w) => Some(w as u32),
                        None => None,
                    },
                    Size::Long => mem.read_at_address_long(a),
                };
                match read {
                    Some(dv) => {
                        assert(dv < spec_modulus(z));
                        let res = unary_result(z, op, dv);
                        let flags = unary_flags(&regs.SR, z, op, dv);
                        let outcome = match z {
                            Size::Byte => mem.write_at_address_byte(a, (res % 0x100) as u8),
                            Size::Word => mem.write_at_address_word(a, (res % 0x1_0000) as u16),
                            Size::Long => mem.write_at_address_long(a, res),
                        };
                        match outcome {
                            Ok(()) => {
                                let mut r3 = r2;
                                r3.SR = flags;
                                Ok((r3, false))
                            },
                            Err(f) => Err(f),
                        }
                    },
                    None => Err(Fault::OutOfBounds),
                }
            },
            None => Err(Fault::IllegalOpcode),
        },
    }
}

/// Whether an operand form is one of the control modes the address-taking
/// instructions accept: it names a memory address and resolving it has no
/// side effect.
pub open spec fn spec_is_control_target(t: Target) -> bool {
    match t {
        Target::AnIndirect(_) => true,
        Target::AnIndirectDisplacement(_, _) => true,
        Target::AnIndirectIndex(_, _, _) => true,
        Target::PCIndirectDisplacement(_, _) => true,
        Target::PCIndirectIndex(_, _, _) => true,
        Target::AbsoluteShortAddress(_) => true,
        Target::AbsoluteLongAddress(_, _) => true,
        _ => false,
    }
}

/// Whether an operand form is a control mode.
pub fn is_control_target(t: &Target) -> (r: bool)
    ensures
        r == spec_is_control_target(*t),
{
    match t {
        Target::AnIndirect(_) => true,
        Target::AnIndirectDisplacement(_, _) => true,
        Target::AnIndirectIndex(_, _, _) => true,
        Target::PCIndirectDisplacement(_, _) => true,
        Target::PCIndirectIndex(_, _, _) => true,
        Target::AbsoluteShortAddress(_) => true,
        Target::AbsoluteLongAddress(_, _) => true,
        _ => false,
    }
}

/// What pushing a long word onto the stack yields: the stack pointer moves
/// down by four, then the value is stored there; out of range, nothing moves.
pub open spec fn spec_push_long(regs: Registers, m: Seq<u8>, v: u32) -> Result<
    (Registers, Seq<u8>),
    Fault,
> {
    let sp2 = spec_wrap32(regs.SP - 4);
    if sp2 as int + 4 <= m.len() {
        Ok((Registers { SP: sp2, ..regs }, spec_write_long(m, sp2, v)))
    } else {
        Err(Fault::OutOfBounds)
    }
}

/// Push a long word onto the stack.
fn push_long(regs: &Registers, mem: &mut ByteMemory, v: u32) -> (r: Result<Registers, Fault>)
    ensures
        match spec_push_long(*regs, old(mem).contents(), v) {
            Ok((r2, m2)) => r == Ok::<Registers, Fault>(r2) && final(mem).contents() == m2,
            Err(f) => r == Err::<Registers, Fault>(f) && final(mem).contents() == old(
                mem,
            ).contents(),
        },
{
    let sp2 = wrap32(regs.SP as i64 - 4);
    match mem.write_at_address_long(sp2, v) {
        Ok(()) => {
            let mut r2 = *regs;
            r2.SP = sp2;
            Ok(r2)
        },
        Err(f) => Err(f),
    }
}

/// What popping a long word off the stack yields: the value at the stack
/// pointer, which then moves up by four.
pub open spec fn spec_pop_long(regs: Registers, m: Seq<u8>) -> Result<(u32, Registers), Fault> {
    match spec_read_long(m, regs.SP) {
        Some(v) => Ok((v, Registers { SP: spec_wrap32(regs.SP + 4), ..regs })),
        None => Err(Fault::OutOfBounds),
    }
}

/// Pop a long word off the stack.
fn pop_long(regs: &Registers, mem: &ByteMemory) -> (r: Result<(u32, Registers), Fault>)
    ensures
        r == spec_pop_long(*regs, mem.contents()),
{
    match mem.read_at_address_long(regs.SP) {
        Some(v) => {
            let mut r2 = *regs;
            r2.SP = wrap32(regs.SP as i64 + 4);
            Ok((v, r2))
        },
        None => Err(Fault::OutOfBounds),
    }
}

/// The control, system and status-register half of the execute semantics.
#[verifier::opaque]
pub open spec fn spec_execute_control(regs: Registers, m: Seq<u8>, i: Instructions) -> ExecOut {
    match i {
        Instructions::NOP => Ok((regs, m, false)),
        Instructions::BRA(d) => Ok(
            (Registers { PC: spec_wrap32(regs.PC + d), ..regs }, m, false),
        ),
        Instructions::Bcc(c, d) => if spec_cond_holds(c, regs.SR) {
            Ok((Registers { PC: spec_wrap32(regs.PC + d), ..regs }, m, false))
        } else {
            Ok((regs, m, false))
        },
        Instructions::BSR(d) => match spec_push_long(regs, m, regs.PC) {
            Ok((r2, m2)) => Ok((Registers { PC: spec_wrap32(regs.PC + d), ..r2 }, m2, false)),
            Err(f) => Err(f),
        },
        Instructions::JMP(t) => if spec_is_control_target(t) {
            match spec_resolve_addr(regs, t, Size::Long) {
                Some((a, r1)) => Ok((Registers { PC: a, ..r1 }, m, false)),
                None => Err(Fault::IllegalOpcode),
            }
        } else {
            Err(Fault::IllegalOpcode)
        },
        Instructions::JSR(t) => if spec_is_control_target(t) {
            match spec_resolve_addr(regs, t, Size::Long) {
                Some((a, r1)) => match spec_push_long(r1, m, regs.PC) {
                    Ok((r2, m2)) => Ok((Registers { PC: a, ..r2 }, m2, false)),
                    Err(f) => Err(f),
                },
                None => Err(Fault::IllegalOpcode),
            }
        } else {
            Err(Fault::IllegalOpcode)
        },
        Instructions::RTS => match spec_pop_long(regs, m) {
            Ok((v, r2)) => Ok((Registers { PC: v, ..r2 }, m, false)),
            Err(f) => Err(f),
        },
        Instructions::STOP(imm) => if regs.SR.supervisor_state {
            Ok((Registers { SR: spec_sr_from_word(imm), ..regs }, m, true))
        } else {
            Err(Fault::PrivilegeViolation)
        },
        Instructions::RESET => if regs.SR.supervisor_state {
            Ok((regs, m, false))
        } else {
            Err(Fault::PrivilegeViolation)
        },
        Instructions::RTE => if regs.SR.supervisor_state {
            match spec_read_word(m, regs.SP) {
                Some(srw) => match spec_read_long(m, spec_wrap32(regs.SP + 2)) {
                    Some(pc) => Ok(
                        (
                            Registers {
                                SP: spec_wrap32(regs.SP + 6),
                                PC: pc,
                                SR: spec_sr_from_word(srw),
                                ..regs
                            },
                            m,
                            false,
                        ),
                    ),
                    None => Err(Fault::OutOfBounds),
                },
                None => Err(Fault::OutOfBounds),
            }
        } else {
            Err(Fault::PrivilegeViolation)
        },
        Instructions::MOVEtoSR(src) => if regs.SR.supervisor_state {
            match spec_target_read(regs, m, src, Size::Word) {
                Ok((v, r1)) => Ok(
                    (Registers { SR: spec_sr_from_word((v % 0x1_0000) as u16), ..r1 }, m, false),
                ),
                Err(f) => Err(f),
            }
        } else {
            Err(Fault::PrivilegeViolation)
        },
        Instructions::MOVEfromSR(dst) => match spec_target_write(
            regs,
            m,
            dst,
            Size::Word,
            spec_sr_word(regs.SR) as u32,
        ) {
            Ok((r2, m2)) => Ok((r2, m2, false)),
            Err(f) => Err(f),
        },
        Instructions::MOVEtoCCR(src) => match spec_target_read(regs, m, src, Size::Word) {
            Ok((v, r1)) => Ok(
                (
                    Registers { SR: spec_sr_set_ccr(regs.SR, (v % 0x1_0000) as u16), ..r1 },
                    m,
                    false,
                ),
            ),
            Err(f) => Err(f),
        },
        Instructions::MOVEfromCCR(dst) => match spec_target_write(
            regs,
            m,
            dst,
            Size::Word,
            spec_ccr_byte(regs.SR) as u32,
        ) {
            Ok((r2, m2)) => Ok((r2, m2, false)),
            Err(f) => Err(f),
        },
        Instructions::Scc(c, dst) => {
            let v: u32 = if spec_cond_holds(c, regs.SR) {
                0xFF
            } else {
                0
            };
            match spec_target_write(regs, m, dst, Size::Byte, v) {
                Ok((r2, m2)) => Ok((r2, m2, false)),
                Err(f) => Err(f),
            }
        },
        Instructions::DBcc(c, rn, disp) => if spec_cond_holds(c, regs.SR) {
            Ok((regs, m, false))
        } else {
            let low = spec_get_reg(regs, rn) as int % 0x1_0000;
            let newlow = (if low == 0 {
                0xFFFF
            } else {
                low - 1
            }) as u32;
            let r1 = spec_set_reg(regs, rn, spec_merge(Size::Word, spec_get_reg(regs, rn), newlow));
            if newlow == 0xFFFF {
                Ok((r1, m, false))
            } else {
                Ok((Registers { PC: spec_wrap32(regs.PC - 2 + disp), ..r1 }, m, false))
            }
        },
        _ => Err(Fault::IllegalOpcode),
    }
}

/// The data-movement, arithmetic and address-register half of the execute
/// semantics.
#[verifier::opaque]
pub open spec fn spec_execute_data(regs: Registers, m: Seq<u8>, i: Instructions) -> ExecOut {
    match i {
        Instructions::MOVEQ(imm, rn) => {
            let v: u32 = if imm >= 0x80 {
                (imm + 0xFFFF_FF00) as u32
            } else {
                imm as u32
            };
            let r2 = spec_set_reg(regs, rn, v);
            Ok((Registers { SR: spec_flags_move(regs.SR, Size::Long, v), ..r2 }, m, false))
        },
        Instructions::MOVE(src, dst, z) => match spec_target_read(regs, m, src, z) {
            Ok((v, r1)) => match spec_target_write(r1, m, dst, z, v) {
                Ok((r2, m2)) => Ok(
                    (Registers { SR: spec_flags_move(regs.SR, z, v), ..r2 }, m2, false),
                ),
                Err(f) => Err(f),
            },
            Err(f) => Err(f),
        },
        Instructions::MOVEA(src, rn, z) => if z is Byte {
            Err(Fault::IllegalOpcode)
        } else {
            match spec_target_read(regs, m, src, z) {
                Ok((v, r1)) => {
                    let full: u32 = if z is Word {
                        if v >= 0x8000 {
                            (v + 0xFFFF_0000) as u32
                        } else {
                            v
                        }
                    } else {
                        v
                    };
                    Ok((spec_set_reg(r1, rn, full), m, false))
                },
                Err(f) => Err(f),
            }
        },
        Instructions::LEA(t, rn) => if spec_is_control_target(t) {
            match spec_resolve_addr(regs, t, Size::Long) {
                Some((a, r1)) => Ok((spec_set_reg(r1, rn, a), m, false)),
                None => Err(Fault::IllegalOpcode),
            }
        } else {
            Err(Fault::IllegalOpcode)
        },
        Instructions::PEA(t) => if spec_is_control_target(t) {
            match spec_resolve_addr(regs, t, Size::Long) {
                Some((a, r1)) => match spec_push_long(r1, m, a) {
                    Ok((r2, m2)) => Ok((r2, m2, false)),
                    Err(f) => Err(f),
                },
                None => Err(Fault::IllegalOpcode),
            }
        } else {
            Err(Fault::IllegalOpcode)
        },
        Instructions::CLR(dst, z) => match spec_target_write(regs, m, dst, z, 0) {
            Ok((r2, m2)) => Ok(
                (Registers { SR: spec_flags_move(regs.SR, z, 0), ..r2 }, m2, false),
            ),
            Err(f) => Err(f),
        },
        Instructions::TST(dst, z) => match spec_target_read(regs, m, dst, z) {
            Ok((v, r1)) => Ok((Registers { SR: spec_flags_move(regs.SR, z, v), ..r1 }, m, false)),
            Err(f) => Err(f),
        },
        Instructions::NOT(dst, z) => spec_exec_unary(regs, m, dst, z, UnaryOp::Not),
        Instructions::NEG(dst, z) => spec_exec_unary(regs, m, dst, z, UnaryOp::Neg),
        Instructions::EXG(x, y) => {
            let vx = match x {
                Target::DnDirect(rn) => Some(rn),
                Target::AnDirect(rn) => Some(rn),
                _ => None,
            };
            let vy = match y {
                Target::DnDirect(rn) => Some(rn),
                Target::AnDirect(rn) => Some(rn),
                _ => None,
            };
            match (vx, vy) {
                (Some(rx), Some(ry)) => {
                    let a = spec_get_reg(regs, rx);
                    let b = spec_get_reg(regs, ry);
                    Ok((spec_set_reg(spec_set_reg(regs, rx, b), ry, a), m, false))
                },
                _ => Err(Fault::IllegalOpcode),
            }
        },
        Instructions::SWAP(rn) => {
            let v = spec_get_reg(regs, rn);
            let swapped = ((v as int % 0x1_0000) * 0x1_0000 + v as int / 0x1_0000) as u32;
            let r2 = spec_set_reg(regs, rn, swapped);
            Ok((Registers { SR: spec_flags_move(regs.SR, Size::Long, swapped), ..r2 }, m, false))
        },
        Instructions::ADD(src, dst, z) => spec_exec_alu(regs, m, src, dst, z, AluOp::Add),
        Instructions::SUB(src, dst, z) => spec_exec_alu(regs, m, src, dst, z, AluOp::Sub),
        Instructions::CMP(src, dst, z) => spec_exec_alu(regs, m, src, dst, z, AluOp::Cmp),
        Instructions::AND(src, dst, z) => spec_exec_alu(regs, m, src, dst, z, AluOp::And),
        Instructions::OR(src, dst, z) => spec_exec_alu(regs, m, src, dst, z, AluOp::Or),
        Instructions::EOR(src, dst, z) => spec_exec_alu(regs, m, src, dst, z, AluOp::Eor),
        Instructions::ADDI(imm, dst, z) => spec_exec_alu(
            regs,
            m,
            Target::Immediate(imm),
            dst,
            z,
            AluOp::Add,
        ),
        Instructions::SUBI(imm, dst, z) => spec_exec_alu(
            regs,
            m,
            Target::Immediate(imm),
            dst,
            z,
            AluOp::Sub,
        ),
        Instructions::CMPI(imm, dst, z) => spec_exec_alu(
            regs,
            m,
            Target::Immediate(imm),
            dst,
            z,
            AluOp::Cmp,
        ),
        Instructions::ANDI(imm, dst, z) => spec_exec_alu(
            regs,
            m,
            Target::Immediate(imm),
            dst,
            z,
            AluOp::And,
        ),
        Instructions::ORI(imm, dst, z) => spec_exec_alu(
            regs,
            m,
            Target::Immediate(imm),
            dst,
            z,
            AluOp::Or,
        ),
        Instructions::EORI(imm, dst, z) => spec_exec_alu(
            regs,
            m,
            Target::Immediate(imm),
            dst,
            z,
            AluOp::Eor,
        ),
        Instructions::ADDQ(imm, dst, z) => match dst {
            Target::AnDirect(rn) => Ok(
                (spec_set_reg(regs, rn, spec_wrap32(spec_get_reg(regs, rn) + imm)), m, false),
            ),
            _ => spec_exec_alu(regs, m, Target::Immediate(imm), dst, z, AluOp::Add),
        },
        Instructions::SUBQ(imm, dst, z) => match dst {
            Target::AnDirect(rn) => Ok(
                (spec_set_reg(regs, rn, spec_wrap32(spec_get_reg(regs, rn) - imm)), m, false),
            ),
            _ => spec_exec_alu(regs, m, Target::Immediate(imm), dst, z, AluOp::Sub),
        },
        Instructions::ADDA(src, rn, z) => if z is Byte {
            Err(Fault::IllegalOpcode)
        } else {
            match spec_target_read(regs, m, src, z) {
                Ok((v, r1)) => Ok(
                    (
                        spec_set_reg(
                            r1,
                            rn,
                            spec_wrap32(spec_get_reg(r1, rn) + spec_sign_to_long(z, v)),
                        ),
                        m,
                        false,
                    ),
                ),
                Err(f) => Err(f),
            }
        },
        Instructions::SUBA(src, rn, z) => if z is Byte {
            Err(Fault::IllegalOpcode)
        } else {
            match spec_target_read(regs, m, src, z) {
                Ok((v, r1)) => Ok(
                    (
                        spec_set_reg(
                            r1,
                            rn,
                            spec_wrap32(spec_get_reg(r1, rn) - spec_sign_to_long(z, v)),
                        ),
                        m,
                        false,
                    ),
                ),
                Err(f) => Err(f),
            }
        },
        Instructions::CMPA(src, rn, z) => if z is Byte {
            Err(Fault::IllegalOpcode)
        } else {
            match spec_target_read(regs, m, src, z) {
                Ok((v, r1)) => Ok(
                    (
                        Registers {
                            SR: spec_flags_sub(
                                regs.SR,
                                Size::Long,
                                spec_sign_to_long(z, v),
                                spec_get_reg(r1, rn),
                                false,
                            ),
                            ..r1
                        },
                        m,
                        false,
                    ),
                ),
                Err(f) => Err(f),
            }
        },
        Instructions::EXT(rn, _from, to) => match to {
            Size::Word => {
                let b = spec_get_reg(regs, rn) as int % 0x100;
                let w = (if b >= 0x80 {
                    b + 0xFF00
                } else {
                    b
                }) as u32;
                let merged = spec_merge(Size::Word, spec_get_reg(regs, rn), w);
                Ok(
                    (
                        Registers {
                            SR: spec_flags_move(regs.SR, Size::Word, w),
                            ..spec_set_reg(regs, rn, merged)
                        },
                        m,
                        false,
                    ),
                )
            },
            Size::Long => {
                let w = spec_get_reg(regs, rn) as int % 0x1_0000;
                let v = (if w >= 0x8000 {
                    w + 0xFFFF_0000
                } else {
                    w
                }) as u32;
                Ok(
                    (
                        Registers {
                            SR: spec_flags_move(regs.SR, Size::Long, v),
                            ..spec_set_reg(regs, rn, v)
                        },
                        m,
                        false,
                    ),
                )
            },
            Size::Byte => Err(Fault::IllegalOpcode),
        },
        Instructions::LINK(rn, disp) => match spec_push_long(regs, m, spec_get_reg(regs, rn)) {
            Ok((r1, m1)) => {
                let r2 = spec_set_reg(r1, rn, r1.SP);
                Ok((Registers { SP: spec_wrap32(r1.SP + disp), ..r2 }, m1, false))
            },
            Err(f) => Err(f),
        },
        Instructions::UNLK(rn) => {
            let sp = spec_get_reg(regs, rn);
            match spec_read_long(m, sp) {
                Some(v) => Ok(
                    (Registers { SP: spec_wrap32(sp + 4), ..spec_set_reg(regs, rn, v) }, m, false),
                ),
                None => Err(Fault::OutOfBounds),
            }
        },
        _ => Err(Fault::IllegalOpcode),
    }
}

/// What executing one decoded instruction does to the register file and the
/// store, and whether the engine must halt afterwards. Instructions outside
/// the engine's executed subset — and the two decode sentinels — fault with
/// an illegal opcode; privileged instructions outside supervisor state fault
/// with a privilege violation; a memory access past the end of the store
/// faults out of bounds. On any fault nothing is committed. The program
/// counter read here is the address of the next instruction; branch
/// displacements are relative to it.
pub open spec fn spec_execute(regs: Registers, m: Seq<u8>, i: Instructions) -> ExecOut {
    if spec_is_control_ins(i) {
        spec_execute_control(regs, m, i)
    } else {
        spec_execute_data(regs, m, i)
    }
}

/// A word operand sign-extended to the full register width; a long operand as
/// it is. The address-register operations work at the full width.
pub open spec fn spec_sign_to_long(z: Size, v: u32) -> u32 {
    if z is Word {
        if v >= 0x8000 {
            (v + 0xFFFF_0000) as u32
        } else {
            v
        }
    } else {
        v
    }
}

/// Sign-extend a word operand to the full register width.
fn sign_to_long(z: Size, v: u32) -> (r: u32)
    requires
        v < spec_modulus(z),
    ensures
        r == spec_sign_to_long(z, v),
{
    if matches!(z, Size::Word) {
        if v >= 0x8000 {
            v + 0xFFFF_0000
        } else {
            v
        }
    } else {
        v
    }
}

/// Whether an instruction belongs to the control, system and status-register
/// half of the execute step.
pub open spec fn spec_is_control_ins(i: Instructions) -> bool {
    match i {
        Instructions::NOP => true,
        Instructions::BRA(_) => true,
        Instructions::Bcc(_, _) => true,
        Instructions::BSR(_) => true,
        Instructions::JMP(_) => true,
        Instructions::JSR(_) => true,
        Instructions::RTS => true,
        Instructions::STOP(_) => true,
        Instructions::RESET => true,
        Instructions::RTE => true,
        Instructions::MOVEtoSR(_) => true,
        Instructions::MOVEfromSR(_) => true,
        Instructions::MOVEtoCCR(_) => true,
        Instructions::MOVEfromCCR(_) => true,
        Instructions::Scc(_, _) => true,
        Instructions::DBcc(_, _, _) => true,
        _ => false,
    }
}

/// Execute one decoded instruction against the live register file and store:
/// on success the returned register file and the mutated store match the
/// execute semantics; on a fault the store is unchanged and no register file
/// is returned.
pub fn exec_instruction(regs: &Registers, mem: &mut ByteMemory, i: &Instructions) -> (r: Result<
    (Registers, bool),
    Fault,
>)
    ensures
        match spec_execute(*regs, old(mem).contents(), *i) {
            Ok((r2, m2, halt)) => r == Ok::<(Registers, bool), Fault>((r2, halt))
                && final(mem).contents() == m2,
            Err(f) => r == Err::<(Registers, bool), Fault>(f) && final(mem).contents() == old(
                mem,
            ).contents(),
        },
{
    if is_control_ins(i) {
        exec_ins_control(regs, mem, i)
    } else {
        exec_ins_data(regs, mem, i)
    }
}

/// Whether an instruction belongs to the control half of the execute step.
fn is_control_ins(i: &Instructions) -> (r: bool)
    ensures
        r == spec_is_control_ins(*i),
{
    match i {
        Instructions::NOP => true,
        Instructions::BRA(_) => true,
        Instructions::Bcc(_, _) => true,
        Instructions::BSR(_) => true,
        Instructions::JMP(_) => true,
        Instructions::JSR(_) => true,
        Instructions::RTS => true,
        Instructions::STOP(_) => true,
        Instructions::RESET => true,
        Instructions::RTE => true,
        Instructions::MOVEtoSR(_) => true,
        Instructions::MOVEfromSR(_) => true,
        Instructions::MOVEtoCCR(_) => true,
        Instructions::MOVEfromCCR(_) => true,
        Instructions::Scc(_, _) => true,
        Instructions::DBcc(_, _, _) => true,
        _ => false,
    }
}

/// The control, system and status-register half of the execute step.
#[verifier::rlimit(100)]
#[verifier::spinoff_prover]
fn exec_ins_control(regs: &Registers, mem: &mut ByteMemory, i: &Instructions) -> (r: Result<
    (Registers, bool),
    Fault,
>)
    requires
        spec_is_control_ins(*i),
    ensures
        match spec_execute(*regs, old(mem).contents(), *i) {
            Ok((r2, m2, halt)) => r == Ok::<(Registers, bool), Fault>((r2, halt))
                && final(mem).contents() == m2,
            Err(f) => r == Err::<(Registers, bool), Fault>(f) && final(mem).contents() == old(
                mem,
            ).contents(),
        },
{
    proof {
        reveal(spec_execute_control);
    }
    match i {
        Instructions::NOP => Ok((*regs, false)),
        Instructions::BRA(d) => {
            let mut r2 = *regs;
            r2.PC = wrap32(regs.PC as i64 + *d as i64);
            Ok((r2, false))
        },
        Instructions::Bcc(c, d) => {
            if cond_holds(*c, &regs.SR) {
                let mut r2 = *regs;
                r2.PC = wrap32(regs.PC as i64 + *d as i64);
                Ok((r2, false))
            } else {
                Ok((*regs, false))
            }
        },
        Instructions::BSR(d) => {
            let mut r2 = push_long(regs, mem, regs.PC)?;
            r2.PC = wrap32(regs.PC as i64 + *d as i64);
            Ok((r2, false))
        },
        Instructions::JMP(t) => {
            if is_control_target(t) {
                match resolve_addr(regs, t, Size::Long) {
                    Some((a, r1)) => {
                        let mut r2 = r1;
                        r2.PC = a;
                        Ok((r2, false))
                    },
                    None => Err(Fault::IllegalOpcode),
                }
            } else {
                Err(Fault::IllegalOpcode)
            }
        },
        Instructions::JSR(t) => {
            if is_control_target(t) {
                match resolve_addr(regs, t, Size::Long) {
                    Some((a, r1)) => {
                        let mut r2 = push_long(&r1, mem, regs.PC)?;
                        r2.PC = a;
                        Ok((r2, false))
                    },
                    None => Err(Fault::IllegalOpcode),
                }
            } else {
                Err(Fault::IllegalOpcode)
            }
        },
        Instructions::RTS => {
            let (v, r1) = pop_long(regs, mem)?;
            let mut r2 = r1;
            r2.PC = v;
            Ok((r2, false))
        },
        Instructions::STOP(imm) => {
            if regs.SR.supervisor_state {
                let mut r2 = *regs;
                r2.SR = sr_from_word(*imm);
                Ok((r2, true))
            } else {
                Err(Fault::PrivilegeViolation)
            }
        },
        Instructions::RESET => {
            if regs.SR.supervisor_state {
                Ok((*regs, false))
            } else {
                Err(Fault::PrivilegeViolation)
            }
        },
        Instructions::RTE => {
            if regs.SR.supervisor_state {
                match mem.read_at_address_word(regs.SP) {
                    Some(srw) => match mem.read_at_address_long(wrap32(regs.SP as i64 + 2)) {
                        Some(pc) => {
                            let mut r2 = *regs;
                            r2.SP = wrap32(regs.SP as i64 + 6);
                            r2.PC = pc;
                            r2.SR = sr_from_word(srw);
                            Ok((r2, false))
                        },
                        None => Err(Fault::OutOfBounds),
                    },
                    None => Err(Fault::OutOfBounds),
                }
            } else {
                Err(Fault::PrivilegeViolation)
            }
        },
        Instructions::MOVEtoSR(src) => {
            if regs.SR.supervisor_state {
                let (v, r1) = target_read(regs, mem, src, Size::Word)?;
                let mut r2 = r1;
                r2.SR = sr_from_word((v % 0x1_0000) as u16);
                Ok((r2, false))
            } else {
                Err(Fault::PrivilegeViolation)
            }
        },
        Instructions::MOVEfromSR(dst) => {
            let w = sr_to_word(&regs.SR);
            let r2 = target_write(regs, mem, dst, Size::Word, w as u32)?;
            Ok((r2, false))
        },
        Instructions::MOVEtoCCR(src) => {
            let (v, r1) = target_read(regs, mem, src, Size::Word)?;
            let mut r2 = r1;
            r2.SR = sr_set_ccr(&regs.SR, (v % 0x1_0000) as u16);
            Ok((r2, false))
        },
        Instructions::MOVEfromCCR(dst) => {
            let b = ccr_to_byte(&regs.SR);
            let r2 = target_write(regs, mem, dst, Size::Word, b as u32)?;
            Ok((r2, false))
        },
        Instructions::Scc(c, dst) => exec_scc(regs, mem, *c, dst),
        Instructions::DBcc(c, rn, disp) => exec_dbcc(regs, mem, *c, *rn, *disp),
        _ => {
            proof {
                assert(false);
            }
            Err(Fault::IllegalOpcode)
        },
    }
}

/// Whether an instruction is one of the two-operand arithmetic or logic
/// forms of the execute step.
pub open spec fn spec_is_alu_ins(i: Instructions) -> bool {
    match i {
        Instructions::ADD(_, _, _) => true,
        Instructions::SUB(_, _, _) => true,
        Instructions::CMP(_, _, _) => true,
        Instructions::AND(_, _, _) => true,
        Instructions::OR(_, _, _) => true,
        Instructions::EOR(_, _, _) => true,
        Instructions::ADDI(_, _, _) => true,
        Instructions::SUBI(_, _, _) => true,
        Instructions::CMPI(_, _, _) => true,
        Instructions::ANDI(_, _, _) => true,
        Instructions::ORI(_, _, _) => true,
        Instructions::EORI(_, _, _) => true,
        Instructions::ADDQ(_, _, _) => true,
        Instructions::SUBQ(_, _, _) => true,
        _ => false,
    }
}

/// The data-movement half of the execute step.
#[verifier::rlimit(100)]
#[verifier::spinoff_prover]
fn exec_ins_data(regs: &Registers, mem: &mut ByteMemory, i: &Instructions) -> (r: Result<
    (Registers, bool),
    Fault,
>)
    requires
        !spec_is_control_ins(*i),
    ensures
        match spec_execute(*regs, old(mem).contents(), *i) {
            Ok((r2, m2, halt)) => r == Ok::<(Registers, bool), Fault>((r2, halt))
                && final(mem).contents() == m2,
            Err(f) => r == Err::<(Registers, bool), Fault>(f) && final(mem).contents() == old(
                mem,
            ).contents(),
        },
{
    if is_alu_ins(i) {
        exec_ins_alu(regs, mem, i)
    } else if is_addr_ins(i) {
        exec_ins_addr(regs, mem, i)
    } else {
        exec_ins_move(regs, mem, i)
    }
}

/// Whether an instruction is an address-register operation or a sign extension.
fn is_addr_ins(i: &Instructions) -> (r: bool)
    ensures
        r == spec_is_addr_ins(*i),
{
    matches!(
        i,
        Instructions::ADDA(_, _, _) | Instructions::SUBA(_, _, _) | Instructions::CMPA(_, _, _)
            | Instructions::EXT(_, _, _) | Instructions::LINK(_, _) | Instructions::UNLK(_)
    )
}

/// Whether an instruction is one of the two-operand arithmetic or logic forms.
fn is_alu_ins(i: &Instructions) -> (r: bool)
    ensures
        r == spec_is_alu_ins(*i),
{
    matches!(
        i,
        Instructions::ADD(_, _, _) | Instructions::SUB(_, _, _) | Instructions::CMP(_, _, _)
            | Instructions::AND(_, _, _) | Instructions::OR(_, _, _) | Instructions::EOR(_, _, _)
            | Instructions::ADDI(_, _, _) | Instructions::SUBI(_, _, _) | Instructions::CMPI(
            _,
            _,
            _,
        ) | Instructions::ANDI(_, _, _) | Instructions::ORI(_, _, _) | Instructions::EORI(_, _, _)
            | Instructions::ADDQ(_, _, _) | Instructions::SUBQ(_, _, _)
    )
}

/// The two-operand arithmetic and logic forms of the execute step.
#[verifier::rlimit(100)]
#[verifier::spinoff_prover]
fn exec_ins_alu(regs: &Registers, mem: &mut ByteMemory, i: &Instructions) -> (r: Result<
    (Registers, bool),
    Fault,
>)
    requires
        spec_is_alu_ins(*i),
    ensures
        match spec_execute(*regs, old(mem).contents(), *i) {
            Ok((r2, m2, halt)) => r == Ok::<(Registers, bool), Fault>((r2, halt))
                && final(mem).contents() == m2,
            Err(f) => r == Err::<(Registers, bool), Fault>(f) && final(mem).contents() == old(
                mem,
            ).contents(),
        },
{
    proof {
        reveal(spec_execute_data);
    }
    match i {
        Instructions::ADD(src, dst, z) => exec_alu(regs, mem, src, dst, *z, AluOp::Add),
        Instructions::SUB(src, dst, z) => exec_alu(regs, mem, src, dst, *z, AluOp::Sub),
        Instructions::CMP(src, dst, z) => exec_alu(regs, mem, src, dst, *z, AluOp::Cmp),
        Instructions::AND(src, dst, z) => exec_alu(regs, mem, src, dst, *z, AluOp::And),
        Instructions::OR(src, dst, z) => exec_alu(regs, mem, src, dst, *z, AluOp::Or),
        Instructions::EOR(src, dst, z) => exec_alu(regs, mem, src, dst, *z, AluOp::Eor),
        Instructions::ADDI(imm, dst, z) => exec_alu(
            regs,
            mem,
            &Target::Immediate(*imm),
            dst,
            *z,
            AluOp::Add,
        ),
        Instructions::SUBI(imm, dst, z) => exec_alu(
            regs,
            mem,
            &Target::Immediate(*imm),
            dst,
            *z,
            AluOp::Sub,
        ),
        Instructions::CMPI(imm, dst, z) => exec_alu(
            regs,
            mem,
            &Target::Immediate(*imm),
            dst,
            *z,
            AluOp::Cmp,
        ),
        Instructions::ANDI(imm, dst, z) => exec_alu(
            regs,
            mem,
            &Target::Immediate(*imm),
            dst,
            *z,
            AluOp::And,
        ),
        Instructions::ORI(imm, dst, z) => exec_alu(
            regs,
            mem,
            &Target::Immediate(*imm),
            dst,
            *z,
            AluOp::Or,
        ),
        Instructions::EORI(imm, dst, z) => exec_alu(
            regs,
            mem,
            &Target::Immediate(*imm),
            dst,
            *z,
            AluOp::Eor,
        ),
        Instructions::ADDQ(imm, dst, z) => match dst {
            Target::AnDirect(rn) => {
                let bumped = wrap32(get_register(regs, *rn) as i64 + *imm as i64);
                let mut r2 = *regs;
                set_register(&mut r2, *rn, bumped);
                Ok((r2, false))
            },
            _ => exec_alu(regs, mem, &Target::Immediate(*imm), dst, *z, AluOp::Add),
        },
        Instructions::SUBQ(imm, dst, z) => match dst {
            Target::AnDirect(rn) => {
                let bumped = wrap32(get_register(regs, *rn) as i64 - *imm as i64);
                let mut r2 = *regs;
                set_register(&mut r2, *rn, bumped);
                Ok((r2, false))
            },
            _ => exec_alu(regs, mem, &Target::Immediate(*imm), dst, *z, AluOp::Sub),
        },
        _ => {
            proof {
                assert(false);
            }
            Err(Fault::IllegalOpcode)
        },
    }
}

/// The move, clear, test and register-shuffle forms of the execute step.
#[verifier::rlimit(100)]
#[verifier::spinoff_prover]
fn exec_ins_move(regs: &Registers, mem: &mut ByteMemory, i: &Instructions) -> (r: Result<
    (Registers, bool),
    Fault,
>)
    requires
        !spec_is_control_ins(*i),
        !spec_is_alu_ins(*i),
        !spec_is_addr_ins(*i),
    ensures
        match spec_execute(*regs, old(mem).contents(), *i) {
            Ok((r2, m2, halt)) => r == Ok::<(Registers, bool), Fault>((r2, halt))
                && final(mem).contents() == m2,
            Err(f) => r == Err::<(Registers, bool), Fault>(f) && final(mem).contents() == old(
                mem,
            ).contents(),
        },
{
    proof {
        reveal(spec_execute_data);
    }
    match i {
        Instructions::MOVEQ(imm, rn) => {
            let v: u32 = if *imm >= 0x80 {
                *imm as u32 + 0xFFFF_FF00
            } else {
                *imm as u32
            };
            let mut r2 = *regs;
            set_register(&mut r2, *rn, v);
            r2.SR = flags_move(&regs.SR, Size::Long, v);
            Ok((r2, false))
        },
        Instructions::MOVE(src, dst, z) => {
            let (v, r1) = target_read(regs, mem, src, *z)?;
            let mut r2 = target_write(&r1, mem, dst, *z, v)?;
            r2.SR = flags_move(&regs.SR, *z, v);
            Ok((r2, false))
        },
        Instructions::MOVEA(src, rn, z) => {
            if matches!(z, Size::Byte) {
                Err(Fault::IllegalOpcode)
            } else {
                let (v, r1) = target_read(regs, mem, src, *z)?;
                let full: u32 = if matches!(z, Size::Word) {
                    if v >= 0x8000 {
                        v + 0xFFFF_0000
                    } else {
                        v
                    }
                } else {
                    v
                };
                let mut r2 = r1;
                set_register(&mut r2, *rn, full);
                Ok((r2, false))
            }
        },
        Instructions::LEA(t, rn) => {
            if is_control_target(t) {
                match resolve_addr(regs, t, Size::Long) {
                    Some((a, r1)) => {
                        let mut r2 = r1;
                        set_register(&mut r2, *rn, a);
                        Ok((r2, false))
                    },
                    None => Err(Fault::IllegalOpcode),
                }
            } else {
                Err(Fault::IllegalOpcode)
            }
        },
        Instructions::PEA(t) => {
            if is_control_target(t) {
                match resolve_addr(regs, t, Size::Long) {
                    Some((a, r1)) => {
                        let r2 = push_long(&r1, mem, a)?;
                        Ok((r2, false))
                    },
                    None => Err(Fault::IllegalOpcode),
                }
            } else {
                Err(Fault::IllegalOpcode)
            }
        },
        Instructions::CLR(dst, z) => {
            let mut r2 = target_write(regs, mem, dst, *z, 0)?;
            r2.SR = flags_move(&regs.SR, *z, 0);
            Ok((r2, false))
        },
        Instructions::TST(dst, z) => {
            let (v, r1) = target_read(regs, mem, dst, *z)?;
            let mut r2 = r1;
            r2.SR = flags_move(&regs.SR, *z, v);
            Ok((r2, false))
        },
        Instructions::NOT(dst, z) => exec_unary(regs, mem, dst, *z, UnaryOp::Not),
        Instructions::NEG(dst, z) => exec_unary(regs, mem, dst, *z, UnaryOp::Neg),
        Instructions::EXG(x, y) => {
            let vx = match x {
                Target::DnDirect(rn) => Some(*rn),
                Target::AnDirect(rn) => Some(*rn),
                _ => None,
            };
            let vy = match y {
                Target::DnDirect(rn) => Some(*rn),
                Target::AnDirect(rn) => Some(*rn),
                _ => None,
            };
            match (vx, vy) {
                (Some(rx), Some(ry)) => {
                    let a = get_register(regs, rx);
                    let b = get_register(regs, ry);
                    let mut r2 = *regs;
                    set_register(&mut r2, rx, b);
                    set_register(&mut r2, ry, a);
                    Ok((r2, false))
                },
                _ => Err(Fault::IllegalOpcode),
            }
        },
        Instructions::SWAP(rn) => {
            let v = get_register(regs, *rn);
            let swapped = (v % 0x1_0000) * 0x1_0000 + v / 0x1_0000;
            let mut r2 = *regs;
            set_register(&mut r2, *rn, swapped);
            r2.SR = flags_move(&regs.SR, Size::Long, swapped);
            Ok((r2, false))
        },
        _ => Err(Fault::IllegalOpcode),
    }
}

/// Whether an instruction is an address-register operation, a sign extension
/// or a stack-frame primitive: the forms that work at the full register width.
pub open spec fn spec_is_addr_ins(i: Instructions) -> bool {
    match i {
        Instructions::ADDA(_, _, _) => true,
        Instructions::SUBA(_, _, _) => true,
        Instructions::CMPA(_, _, _) => true,
        Instructions::EXT(_, _, _) => true,
        Instructions::LINK(_, _) => true,
        Instructions::UNLK(_) => true,
        _ => false,
    }
}

/// The address-register and sign-extension forms of the execute step.
#[verifier::rlimit(100)]
#[verifier::spinoff_prover]
fn exec_ins_addr(regs: &Registers, mem: &mut ByteMemory, i: &Instructions) -> (r: Result<
    (Registers, bool),
    Fault,
>)
    requires
        spec_is_addr_ins(*i),
    ensures
        match spec_execute(*regs, old(mem).contents(), *i) {
            Ok((r2, m2, halt)) => r == Ok::<(Registers, bool), Fault>((r2, halt))
                && final(mem).contents() == m2,
            Err(f) => r == Err::<(Registers, bool), Fault>(f) && final(mem).contents() == old(
                mem,
            ).contents(),
        },
{
    proof {
        reveal(spec_execute_data);
    }
    match i {
        Instructions::ADDA(src, rn, z) => {
            if matches!(z, Size::Byte) {
                Err(Fault::IllegalOpcode)
            } else {
                let (v, r1) = target_read(regs, mem, src, *z)?;
                let full = sign_to_long(*z, v);
                let bumped = wrap32(get_register(&r1, *rn) as i64 + full as i64);
                let mut r2 = r1;
                set_register(&mut r2, *rn, bumped);
                Ok((r2, false))
            }
        },
        Instructions::SUBA(src, rn, z) => {
            if matches!(z, Size::Byte) {
                Err(Fault::IllegalOpcode)
            } else {
                let (v, r1) = target_read(regs, mem, src, *z)?;
                let full = sign_to_long(*z, v);
                let bumped = wrap32(get_register(&r1, *rn) as i64 - full as i64);
                let mut r2 = r1;
                set_register(&mut r2, *rn, bumped);
                Ok((r2, false))
            }
        },
        Instructions::CMPA(src, rn, z) => {
            if matches!(z, Size::Byte) {
                Err(Fault::IllegalOpcode)
            } else {
                let (v, r1) = target_read(regs, mem, src, *z)?;
                let full = sign_to_long(*z, v);
                let flags = alu_flags(&regs.SR, Size::Long, AluOp::Cmp, full, get_register(&r1, *rn));
                let mut r2 = r1;
                r2.SR = flags;
                Ok((r2, false))
            }
        },
        Instructions::EXT(rn, _from, to) => match to {
            Size::Word => {
                let cur = get_register(regs, *rn);
                let b = cur % 0x100;
                let w: u32 = if b >= 0x80 {
                    b + 0xFF00
                } else {
                    b
                };
                let merged = merge_sized(Size::Word, cur, w);
                let mut r2 = *regs;
                set_register(&mut r2, *rn, merged);
                r2.SR = flags_move(&regs.SR, Size::Word, w);
                Ok((r2, false))
            },
            Size::Long => {
                let cur = get_register(regs, *rn);
                let w = cur % 0x1_0000;
                let v: u32 = if w >= 0x8000 {
                    w + 0xFFFF_0000
                } else {
                    w
                };
                let mut r2 = *regs;
                set_register(&mut r2, *rn, v);
                r2.SR = flags_move(&regs.SR, Size::Long, v);
                Ok((r2, false))
            },
            Size::Byte => Err(Fault::IllegalOpcode),
        },
        Instructions::LINK(rn, disp) => exec_link(regs, mem, *rn, *disp),
        Instructions::UNLK(rn) => exec_unlk(regs, mem, *rn),
        _ => {
            proof {
                assert(false);
            }
            Err(Fault::IllegalOpcode)
        },
    }
}

/// Execute a conditional set.
#[verifier::spinoff_prover]
fn exec_scc(regs: &Registers, mem: &mut ByteMemory, c: Condition, dst: &Target) -> (r: Result<
    (Registers, bool),
    Fault,
>)
    ensures
        match spec_execute(*regs, old(mem).contents(), Instructions::Scc(c, *dst)) {
            Ok((r2, m2, halt)) => r == Ok::<(Registers, bool), Fault>((r2, halt))
                && final(mem).contents() == m2,
            Err(f) => r == Err::<(Registers, bool), Fault>(f) && final(mem).contents() == old(
                mem,
            ).contents(),
        },
{
    proof {
        reveal(spec_execute_control);
    }
    let v: u32 = if cond_holds(c, &regs.SR) {
        0xFF
    } else {
        0
    };
    let r2 = target_write(regs, mem, dst, Size::Byte, v)?;
    Ok((r2, false))
}

/// Execute a test-condition, decrement and branch.
#[verifier::spinoff_prover]
fn exec_dbcc(regs: &Registers, mem: &mut ByteMemory, c: Condition, rn: RegName, disp: i16) -> (r:
    Result<(Registers, bool), Fault>)
    ensures
        match spec_execute(*regs, old(mem).contents(), Instructions::DBcc(c, rn, disp)) {
            Ok((r2, m2, halt)) => r == Ok::<(Registers, bool), Fault>((r2, halt))
                && final(mem).contents() == m2,
            Err(f) => r == Err::<(Registers, bool), Fault>(f) && final(mem).contents() == old(
                mem,
            ).contents(),
        },
{
    proof {
        reveal(spec_execute_control);
    }
    if cond_holds(c, &regs.SR) {
        Ok((*regs, false))
    } else {
        let cur = get_register(regs, rn);
        let low = cur % 0x1_0000;
        let newlow: u32 = if low == 0 {
            0xFFFF
        } else {
            low - 1
        };
        let merged = merge_sized(Size::Word, cur, newlow);
        let mut r1 = *regs;
        set_register(&mut r1, rn, merged);
        if newlow == 0xFFFF {
            Ok((r1, false))
        } else {
            r1.PC = wrap32(regs.PC as i64 - 2 + disp as i64);
            Ok((r1, false))
        }
    }
}

/// Execute a link-and-allocate.
#[verifier::spinoff_prover]
fn exec_link(regs: &Registers, mem: &mut ByteMemory, rn: RegName, disp: i32) -> (r: Result<
    (Registers, bool),
    Fault,
>)
    ensures
        match spec_execute(*regs, old(mem).contents(), Instructions::LINK(rn, disp)) {
            Ok((r2, m2, halt)) => r == Ok::<(Registers, bool), Fault>((r2, halt))
                && final(mem).contents() == m2,
            Err(f) => r == Err::<(Registers, bool), Fault>(f) && final(mem).contents() == old(
                mem,
            ).contents(),
        },
{
    proof {
        reveal(spec_execute_data);
    }
    let frame = get_register(regs, rn);
    let r1 = push_long(regs, mem, frame)?;
    let mut r2 = r1;
    set_register(&mut r2, rn, r1.SP);
    r2.SP = wrap32(r1.SP as i64 + disp as i64);
    Ok((r2, false))
}

/// Execute an unlink.
#[verifier::spinoff_prover]
fn exec_unlk(regs: &Registers, mem: &mut ByteMemory, rn: RegName) -> (r: Result<
    (Registers, bool),
    Fault,
>)
    ensures
        match spec_execute(*regs, old(mem).contents(), Instructions::UNLK(rn)) {
            Ok((r2, m2, halt)) => r == Ok::<(Registers, bool), Fault>((r2, halt))
                && final(mem).contents() == m2,
            Err(f) => r == Err::<(Registers, bool), Fault>(f) && final(mem).contents() == old(
                mem,
            ).contents(),
        },
{
    proof {
        reveal(spec_execute_data);
    }
    let sp = get_register(regs, rn);
    match mem.read_at_address_long(sp) {
        Some(v) => {
            let mut r2 = *regs;
            set_register(&mut r2, rn, v);
            r2.SP = wrap32(sp as i64 + 4);
            Ok((r2, false))
        },
        None => Err(Fault::OutOfBounds),
    }
}

/// Compute the flags after a data move at width `z`.
fn flags_move(sr: &StatusRegister, z: Size, v: u32) -> (r: StatusRegister)
    requires
        v < spec_modulus(z),
    ensures
        r == spec_flags_move(*sr, z, v),
{
    StatusRegister { negative: neg_sized(z, v), zero: v == 0, overflow: false, carry: false, ..*sr }
}

/// The engine's phase: fetching is the resting state between instructions,
/// decoding and executing are the transient phases inside one step, and
/// halting is absorbing.
#[derive(Clone, Copy, Debug, PartialEq, Eq, Structural)]
pub enum CPUState {
    Fetching,
    Decoding,
    Executing,
    Halting,
}

/// The engine's connection to its address space.
pub struct MemoryBus<M: Memory> {
    pub memory: M,
}

/// The CPU: register file, machine state and exclusively owned memory. The
/// engine is the only mutator of architectural state.
pub struct CPU {
    pub registers: Registers,
    pub state: CPUState,
    pub memory_bus: MemoryBus<ByteMemory>,
}

/// The register file after a machine reset against store `m`: everything
/// zero, supervisor state on, the stack pointer and program counter loaded
/// from the reset vector (the two long words at the bottom of memory, or zero
/// where the store is too small to hold them).
pub open spec fn spec_init_regs(m: Seq<u8>) -> Registers {
    Registers {
        SP: match spec_read_long(m, 0) {
            Some(v) => v,
            None => 0,
        },
        PC: match spec_read_long(m, 4) {
            Some(v) => v,
            None => 0,
        },
        SR: StatusRegister { supervisor_state: true, ..spec_sr_zero() },
        ..spec_registers_zero()
    }
}

/// What one full fetch/decode/execute step does. Outside the fetching state
/// the step is a no-op. A fetch or decode fault, a decode sentinel, or an
/// execute fault leaves the program counter where the failure found it and
/// halts the engine with the rest of the state intact; a successful execute
/// commits its effects and returns to fetching unless the instruction halted
/// the machine.
#[verifier::opaque]
pub open spec fn spec_step(regs: Registers, m: Seq<u8>, st: CPUState) -> (
    Result<(), Fault>,
    Registers,
    Seq<u8>,
    CPUState,
) {
    if !(st is Fetching) {
        (Ok(()), regs, m, st)
    } else {
        match spec_fetch_word(m, regs.PC) {
            Err(f) => (Err(f), regs, m, CPUState::Halting),
            Ok(w) => {
                let r1 = Registers { PC: (regs.PC + 2) as u32, ..regs };
                match crate::decoder::spec_decode(m, r1.PC, w) {
                    Err(f) => (Err(f), r1, m, CPUState::Halting),
                    Ok((ins, pc2)) => {
                        let r2 = Registers { PC: pc2, ..r1 };
                        if ins is NotImplemented || ins is ILLEGAL {
                            (Err(Fault::IllegalOpcode), r2, m, CPUState::Halting)
                        } else {
                            match spec_execute(r2, m, ins) {
                                Err(f) => (Err(f), r2, m, CPUState::Halting),
                                Ok((r3, m3, halt)) => (
                                    Ok(()),
                                    r3,
                                    m3,
                                    if halt {
                                        CPUState::Halting
                                    } else {
                                        CPUState::Fetching
                                    },
                                ),
                            }
                        }
                    },
                }
            },
        }
    }
}

/// The machine state after `n` steps.
pub open spec fn spec_run(regs: Registers, m: Seq<u8>, st: CPUState, n: nat) -> (
    Registers,
    Seq<u8>,
    CPUState,
)
    decreases n,
{
    if n == 0 {
        (regs, m, st)
    } else {
        let s1 = spec_step(regs, m, st);
        spec_run(s1.1, s1.2, s1.3, (n - 1) as nat)
    }
}

/// A run of `a + b` steps is a run of `a` steps followed by a run of `b`.
pub proof fn lemma_run_add(regs: Registers, m: Seq<u8>, st: CPUState, a: nat, b: nat)
    ensures
        spec_run(regs, m, st, a + b) == ({
            let s1 = spec_run(regs, m, st, a);
            spec_run(s1.0, s1.1, s1.2, b)
        }),
    decreases a,
{
    if a > 0 {
        let s1 = spec_step(regs, m, st);
        lemma_run_add(s1.1, s1.2, s1.3, (a - 1) as nat, b);
    }
}

/// Outside the fetching state nothing ever changes again: halting is
/// absorbing, and the transient phases rest as well.
pub proof fn lemma_run_stable(regs: Registers, m: Seq<u8>, st: CPUState, n: nat)
    requires
        !(st is Fetching),
    ensures
        spec_run(regs, m, st, n) == (regs, m, st),
    decreases n,
{
    reveal(spec_step);
    if n > 0 {
        lemma_run_stable(regs, m, st, (n - 1) as nat);
    }
}

impl CPU {
    /// The byte-level view of the machine's memory.
    pub open spec fn mem(&self) -> Seq<u8> {
        self.memory_bus.memory.contents()
    }

    /// A machine with zeroed registers, a zero-filled address space of the
    /// reference capacity, and the engine halted until `init`.
    pub fn new() -> (cpu: CPU)
        ensures
            cpu.registers == spec_registers_zero(),
            cpu.state is Halting,
            cpu.mem() == Seq::new(MEMORY_CAPACITY as nat, |i: int| 0u8),
    {
        CPU {
            registers: Registers::new(),
            state: CPUState::Halting,
            memory_bus: MemoryBus { memory: ByteMemory::new(MEMORY_CAPACITY) },
        }
    }

    /// A machine whose address space is preloaded with a raw memory image.
    pub fn with_image(image: Vec<u8>) -> (cpu: CPU)
        ensures
            cpu.registers == spec_registers_zero(),
            cpu.state is Halting,
            cpu.mem() == image@,
    {
        CPU {
            registers: Registers::new(),
            state: CPUState::Halting,
            memory_bus: MemoryBus { memory: ByteMemory::from_image(image) },
        }
    }

    /// Reset to architectural defaults: registers cleared, supervisor state
    /// on, stack pointer and program counter taken from the reset vector, and
    /// the engine set fetching. Memory is untouched.
    pub fn init(&mut self)
        ensures
            final(self).registers == spec_init_regs(old(self).mem()),
            final(self).mem() == old(self).mem(),
            final(self).state is Fetching,
    {
        let mut regs = Registers::new();
        regs.SP = match self.memory_bus.memory.read_at_address_long(0) {
            Some(v) => v,
            None => 0,
        };
        regs.PC = match self.memory_bus.memory.read_at_address_long(4) {
            Some(v) => v,
            None => 0,
        };
        regs.SR.supervisor_state = true;
        self.registers = regs;
        self.state = CPUState::Fetching;
    }

    /// Pull the next instruction word from the program counter, which advances
    /// by two. A misaligned or exhausted fetch faults and moves nothing.
    pub fn fetch(&mut self) -> (r: Result<u16, Fault>)
        ensures
            r == spec_fetch_word(old(self).mem(), old(self).registers.PC),
            final(self).mem() == old(self).mem(),
            final(self).state == old(self).state,
            r is Ok ==> final(self).registers == (Registers {
                PC: (old(self).registers.PC + 2) as u32,
                ..old(self).registers
            }),
            r is Err ==> final(self).registers == old(self).registers,
    {
        let mut it = MemoryIter::new(self.registers.PC);
        let r = it.next(&self.memory_bus.memory);
        if r.is_ok() {
            self.registers.PC = it.next_address;
        }
        r
    }

    /// Decode one instruction word, pulling extension words from the program
    /// counter, which advances past them; a fault moves nothing.
    pub fn decode(&mut self, ins: u16) -> (r: Result<Instructions, Fault>)
        ensures
            final(self).mem() == old(self).mem(),
            final(self).state == old(self).state,
            match crate::decoder::spec_decode(old(self).mem(), old(self).registers.PC, ins) {
                Ok((i2, pc2)) => r == Ok::<Instructions, Fault>(i2) && final(self).registers
                    == (Registers { PC: pc2, ..old(self).registers }),
                Err(f) => r == Err::<Instructions, Fault>(f) && final(self).registers == old(self).registers,
            },
    {
        let mut it = MemoryIter::new(self.registers.PC);
        match crate::decoder::decode(&self.memory_bus.memory, &mut it, ins) {
            Ok(i2) => {
                self.registers.PC = it.next_address;
                Ok(i2)
            },
            Err(f) => Err(f),
        }
    }

    /// Execute one decoded instruction: on success its register, memory and
    /// flag effects are committed and a halting instruction parks the engine;
    /// on a fault nothing changes here (the step routine halts the engine).
    pub fn execute(&mut self, i: &Instructions) -> (r: Result<(), Fault>)
        ensures
            match spec_execute(old(self).registers, old(self).mem(), *i) {
                Ok((r2, m2, halt)) => r is Ok && final(self).registers == r2 && final(self).mem()
                    == m2 && final(self).state == (if halt {
                    CPUState::Halting
                } else {
                    old(self).state
                }),
                Err(f) => r == Err::<(), Fault>(f) && final(self).registers == old(self).registers
                    && final(self).mem() == old(self).mem() && final(self).state == old(self).state,
            },
    {
        match exec_instruction(&self.registers, &mut self.memory_bus.memory, i) {
            Ok((r2, halt)) => {
                self.registers = r2;
                if halt {
                    self.state = CPUState::Halting;
                }
                Ok(())
            },
            Err(f) => Err(f),
        }
    }

    /// One full fetch/decode/execute step, passing through the transient
    /// decoding and executing phases; any fault halts the engine with the
    /// state the failure found.
    pub fn step(&mut self) -> (r: Result<(), Fault>)
        ensures
            ({
                let out = spec_step(old(self).registers, old(self).mem(), old(self).state);
                r == out.0 && final(self).registers == out.1 && final(self).mem() == out.2 && final(self).state == out.3
            }),
    {
        proof {
            reveal(spec_step);
        }
        if !matches!(self.state, CPUState::Fetching) {
            return Ok(());
        }
        let mut it = MemoryIter::new(self.registers.PC);
        let w = match it.next(&self.memory_bus.memory) {
            Ok(w) => w,
            Err(f) => {
                self.state = CPUState::Halting;
                return Err(f);
            },
        };
        self.registers.PC = it.next_address;
        self.state = CPUState::Decoding;
        let ins = match crate::decoder::decode(&self.memory_bus.memory, &mut it, w) {
            Ok(i2) => i2,
            Err(f) => {
                self.state = CPUState::Halting;
                return Err(f);
            },
        };
        self.registers.PC = it.next_address;
        self.state = CPUState::Executing;
        if matches!(ins, Instructions::NotImplemented) || matches!(ins, Instructions::ILLEGAL) {
            self.state = CPUState::Halting;
            return Err(Fault::IllegalOpcode);
        }
        match exec_instruction(&self.registers, &mut self.memory_bus.memory, &ins) {
            Ok((r3, halt)) => {
                self.registers = r3;
                self.state = if halt {
                    CPUState::Halting
                } else {
                    CPUState::Fetching
                };
                Ok(())
            },
            Err(f) => {
                self.state = CPUState::Halting;
                return Err(f);
            },
        }
    }

    /// Run at most `max_steps` full steps, stopping early once the engine
    /// leaves the fetching state: the step budget an embedding host injects.
    pub fn run(&mut self, max_steps: usize)
        ensures
            ({
                let out = spec_run(
                    old(self).registers,
                    old(self).mem(),
                    old(self).state,
                    max_steps as nat,
                );
                final(self).registers == out.0 && final(self).mem() == out.1 && final(self).state
                    == out.2
            }),
    {
        let ghost regs0 = self.registers;
        let ghost m0 = self.mem();
        let ghost st0 = self.state;
        let mut i: usize = 0;
        while i < max_steps
            invariant
                i <= max_steps,
                regs0 == old(self).registers,
                m0 == old(self).mem(),
                st0 == old(self).state,
                spec_run(regs0, m0, st0, i as nat) == (
                    self.registers,
                    self.mem(),
                    self.state,
                ),
            decreases max_steps - i,
        {
            if !matches!(self.state, CPUState::Fetching) {
                proof {
                    let rest = (max_steps - i) as nat;
                    lemma_run_stable(self.registers, self.mem(), self.state, rest);
                    lemma_run_add(regs0, m0, st0, i as nat, rest);
                    assert(i as nat + rest == max_steps as nat);
                    let s1 = spec_run(regs0, m0, st0, i as nat);
                    assert(spec_run(regs0, m0, st0, max_steps as nat) == spec_run(
                        s1.0,
                        s1.1,
                        s1.2,
                        rest,
                    ));
                }
                return ;
            }
            let ghost pre = (self.registers, self.mem(), self.state);
            let _ = self.step();
            proof {
                let s1 = spec_step(pre.0, pre.1, pre.2);
                assert(spec_run(pre.0, pre.1, pre.2, 1) == spec_run(s1.1, s1.2, s1.3, 0));
                assert(spec_run(s1.1, s1.2, s1.3, 0) == (s1.1, s1.2, s1.3));
                lemma_run_add(regs0, m0, st0, i as nat, 1);
            }
            i = i + 1;
        }
    }
}

/// Writing any register name leaves the status register untouched.
pub proof fn lemma_set_reg_preserves_sr(regs: Registers, r: RegName, v: u32)
    ensures
        spec_set_reg(regs, r, v).SR == regs.SR,
{
}

/// Resolving an operand address never touches the status register: the only
/// side effect is on the address register of a post-increment or
/// pre-decrement form.
pub proof fn lemma_resolve_preserves_sr(regs: Registers, t: Target, z: Size)
    ensures
        spec_resolve_addr(regs, t, z) matches Some(p) ==> p.1.SR == regs.SR,
{
}

/// Reading an operand never touches the status register.
pub proof fn lemma_target_read_preserves_sr(regs: Registers, m: Seq<u8>, t: Target, z: Size)
    ensures
        spec_target_read(regs, m, t, z) matches Ok(p) ==> p.1.SR == regs.SR,
{
    reveal(spec_target_read);
    lemma_resolve_preserves_sr(regs, t, z);
}

/// Writing an operand never touches the status register.
pub proof fn lemma_target_write_preserves_sr(regs: Registers, m: Seq<u8>, t: Target, z: Size, v: u32)
    ensures
        spec_target_write(regs, m, t, z, v) matches Ok(p) ==> p.0.SR == regs.SR,
{
    reveal(spec_target_write);
    lemma_resolve_preserves_sr(regs, t, z);
}

/// The instructions the engine executes without a documented condition-code
/// effect: address moves, address arithmetic, register exchange, the
/// address-taking forms and the plain control transfers.
pub open spec fn spec_no_cc_effect(i: Instructions) -> bool {
    match i {
        Instructions::MOVEA(_, _, _) => true,
        Instructions::LEA(_, _) => true,
        Instructions::PEA(_) => true,
        Instructions::EXG(_, _) => true,
        Instructions::NOP => true,
        Instructions::BRA(_) => true,
        Instructions::Bcc(_, _) => true,
        Instructions::BSR(_) => true,
        Instructions::JMP(_) => true,
        Instructions::JSR(_) => true,
        Instructions::RTS => true,
        Instructions::RESET => true,
        Instructions::ADDA(_, _, _) => true,
        Instructions::SUBA(_, _, _) => true,
        Instructions::Scc(_, _) => true,
        Instructions::DBcc(_, _, _) => true,
        Instructions::LINK(_, _) => true,
        Instructions::UNLK(_) => true,
        _ => false,
    }
}

/// An instruction with no documented condition-code effect leaves every flag
/// exactly as it found it; the flag-setting instructions recompute the flags
/// from the documented truth tables in `spec_execute` itself.
#[verifier::rlimit(100)]
#[verifier::spinoff_prover]
pub proof fn lemma_no_cc_effect_preserves_flags(regs: Registers, m: Seq<u8>, i: Instructions)
    requires
        spec_no_cc_effect(i),
    ensures
        spec_execute(regs, m, i) matches Ok(out) ==> out.0.SR == regs.SR,
{
    reveal(spec_execute_control);
    reveal(spec_execute_data);
    match i {
        Instructions::MOVEA(src, rn, z) => {
            lemma_target_read_preserves_sr(regs, m, src, z);
        },
        Instructions::LEA(t, rn) => {
            lemma_resolve_preserves_sr(regs, t, Size::Long);
        },
        Instructions::PEA(t) => {
            lemma_resolve_preserves_sr(regs, t, Size::Long);
        },
        Instructions::JMP(t) => {
            lemma_resolve_preserves_sr(regs, t, Size::Long);
        },
        Instructions::JSR(t) => {
            lemma_resolve_preserves_sr(regs, t, Size::Long);
        },
        Instructions::ADDA(src, _rn, z) => {
            lemma_target_read_preserves_sr(regs, m, src, z);
        },
        Instructions::SUBA(src, _rn, z) => {
            lemma_target_read_preserves_sr(regs, m, src, z);
        },
        Instructions::Scc(c, dst) => {
            let v: u32 = if spec_cond_holds(c, regs.SR) {
                0xFF
            } else {
                0
            };
            lemma_target_write_preserves_sr(regs, m, dst, Size::Byte, v);
        },
        _ => {},
    }
}

/// Each pre-decrement resolution decrements its address register exactly once,
/// by the operand width in bytes, and yields the decremented value as the
/// effective address.
pub proof fn lemma_predec_resolves_once(regs: Registers, rn: RegName, z: Size)
    ensures
        spec_resolve_addr(regs, Target::AnIndirectPreDec(rn), z) == Some(
            (
                spec_wrap32(spec_get_reg(regs, rn) - spec_bytes(z)),
                spec_set_reg(regs, rn, spec_wrap32(spec_get_reg(regs, rn) - spec_bytes(z))),
            ),
        ),
{
}

/// A move whose source and destination both name the same address register in
/// pre-decrement form resolves left to right: when it succeeds, the register
/// ends two widths below where it started — one decrement per resolution, the
/// source's first. (The status register is no address register and is
/// excluded.)
#[verifier::spinoff_prover]
pub proof fn lemma_predec_shared_register(regs: Registers, m: Seq<u8>, rn: RegName, z: Size)
    requires
        !(rn is SR),
    ensures
        ({
            let t = Target::AnIndirectPreDec(rn);
            spec_execute(regs, m, Instructions::MOVE(t, t, z)) matches Ok(out) ==> spec_get_reg(
                out.0,
                rn,
            ) == spec_wrap32(
                spec_wrap32(spec_get_reg(regs, rn) - spec_bytes(z)) - spec_bytes(z),
            )
        }),
{
    reveal(spec_execute_data);
    let t = Target::AnIndirectPreDec(rn);
    let b = spec_bytes(z);
    let first = spec_wrap32(spec_get_reg(regs, rn) - b);
    let r1 = spec_set_reg(regs, rn, first);
    let second = spec_wrap32(first - b);
    let r2 = spec_set_reg(r1, rn, second);
    assert(spec_get_reg(r1, rn) == first);
    assert(spec_get_reg(r2, rn) == second);
    let rd = spec_target_read(regs, m, t, z);
    assert(rd is Ok ==> rd->Ok_0.1 == r1) by {
        reveal(spec_target_read);
    }
    if rd is Ok {
        let v = rd->Ok_0.0;
        let wr = spec_target_write(r1, m, t, z, v);
        assert(wr is Ok ==> wr->Ok_0.0 == r2) by {
            reveal(spec_target_write);
        }
        if wr is Ok {
            let out0 = Registers { SR: spec_flags_move(regs.SR, z, v), ..wr->Ok_0.0 };
            assert(spec_get_reg(out0, rn) == spec_get_reg(r2, rn));
        }
    }
}

/// The machine-step contract: reset to architectural defaults, run one full
/// step or a budget of steps, and the fetch and execute halves on their own.
pub trait Processor {
    /// The register file the processor owns.
    spec fn processor_registers(&self) -> Registers;

    /// The byte-level view of the memory it owns.
    spec fn processor_memory(&self) -> Seq<u8>;

    /// The engine's phase.
    spec fn processor_state(&self) -> CPUState;

    fn init(&mut self)
        ensures
            final(self).processor_registers() == spec_init_regs(old(self).processor_memory()),
            final(self).processor_memory() == old(self).processor_memory(),
            final(self).processor_state() is Fetching,
    ;

    fn run(&mut self, max_steps: usize)
        ensures
            ({
                let out = spec_run(
                    old(self).processor_registers(),
                    old(self).processor_memory(),
                    old(self).processor_state(),
                    max_steps as nat,
                );
                final(self).processor_registers() == out.0 && final(self).processor_memory()
                    == out.1 && final(self).processor_state() == out.2
            }),
    ;

    fn fetch(&mut self) -> (r: Result<u16, Fault>)
        ensures
            r == spec_fetch_word(old(self).processor_memory(), old(self).processor_registers().PC),
            final(self).processor_memory() == old(self).processor_memory(),
            final(self).processor_state() == old(self).processor_state(),
            r is Ok ==> final(self).processor_registers() == (Registers {
                PC: (old(self).processor_registers().PC + 2) as u32,
                ..old(self).processor_registers()
            }),
            r is Err ==> final(self).processor_registers() == old(self).processor_registers(),
    ;

    fn execute(&mut self, i: &Instructions) -> (r: Result<(), Fault>)
        ensures
            match spec_execute(
                old(self).processor_registers(),
                old(self).processor_memory(),
                *i,
            ) {
                Ok((r2, m2, halt)) => r is Ok && final(self).processor_registers() == r2 && final(self).processor_memory() == m2 && final(self).processor_state() == (if halt {
                    CPUState::Halting
                } else {
                    old(self).processor_state()
                }),
                Err(f) => r == Err::<(), Fault>(f) && final(self).processor_registers() == old(self).processor_registers() && final(self).processor_memory() == old(self).processor_memory() && final(self).processor_state() == old(self).processor_state(),
            },
    ;
}

impl Processor for CPU {
    open spec fn processor_registers(&self) -> Registers {
        self.registers
    }

    open spec fn processor_memory(&self) -> Seq<u8> {
        self.mem()
    }

    open spec fn processor_state(&self) -> CPUState {
        self.state
    }

    fn init(&mut self) {
        CPU::init(self)
    }

    fn run(&mut self, max_steps: usize) {
        CPU::run(self, max_steps)
    }

    fn fetch(&mut self) -> (r: Result<u16, Fault>) {
        CPU::fetch(self)
    }

    fn execute(&mut self, i: &Instructions) -> (r: Result<(), Fault>) {
        CPU::execute(self, i)
    }
}

impl<M: Memory> crate::decoder::Decoder<M> for CPU {
    fn decode(&self, mem: &M, it: &mut MemoryIter, ins: u16) -> (r: Result<Instructions, Fault>) {
        crate::decoder::decode(mem, it, ins)
    }

    fn decode_bit_manipulation(&self, mem: &M, it: &mut MemoryIter, ins: u16) -> (r: Result<
        Instructions,
        Fault,
    >) {
        crate::decoder::decode_bit_manipulation(mem, it, ins)
    }

    fn decode_mov_byte(&self, mem: &M, it: &mut MemoryIter, ins: u16) -> (r: Result<
        Instructions,
        Fault,
    >) {
        crate::decoder::decode_mov_byte(mem, it, ins)
    }

    fn decode_mov_long(&self, mem: &M, it: &mut MemoryIter, ins: u16) -> (r: Result<
        Instructions,
        Fault,
    >) {
        crate::decoder::decode_mov_long(mem, it, ins)
    }

    fn decode_mov_word(&self, mem: &M, it: &mut MemoryIter, ins: u16) -> (r: Result<
        Instructions,
        Fault,
    >) {
        crate::decoder::decode_mov_word(mem, it, ins)
    }

    fn decode_misc(&self, mem: &M, it: &mut MemoryIter, ins: u16) -> (r: Result<
        Instructions,
        Fault,
    >) {
        crate::decoder::decode_misc(mem, it, ins)
    }

    fn decode_addq_subq(&self, mem: &M, it: &mut MemoryIter, ins: u16) -> (r: Result<
        Instructions,
        Fault,
    >) {
        crate::decoder::decode_addq_subq(mem, it, ins)
    }

    fn decode_branch(&self, mem: &M, it: &mut MemoryIter, ins: u16) -> (r: Result<
        Instructions,
        Fault,
    >) {
        crate::decoder::decode_branch(mem, it, ins)
    }

    fn decode_moveq(&self, mem: &M, it: &mut MemoryIter, ins: u16) -> (r: Result<
        Instructions,
        Fault,
    >) {
        crate::decoder::decode_moveq(mem, it, ins)
    }

    fn decode_or_div(&self, mem: &M, it: &mut MemoryIter, ins: u16) -> (r: Result<
        Instructions,
        Fault,
    >) {
        crate::decoder::decode_or_div(mem, it, ins)
    }

    fn decode_sub(&self, mem: &M, it: &mut MemoryIter, ins: u16) -> (r: Result<
        Instructions,
        Fault,
    >) {
        crate::decoder::decode_sub(mem, it, ins)
    }

    fn decode_reserved(&self, mem: &M, it: &mut MemoryIter, ins: u16) -> (r: Result<
        Instructions,
        Fault,
    >) {
        crate::decoder::decode_reserved(mem, it, ins)
    }

    fn decode_cmp_eor(&self, mem: &M, it: &mut MemoryIter, ins: u16) -> (r: Result<
        Instructions,
        Fault,
    >) {
        crate::decoder::decode_cmp_eor(mem, it, ins)
    }

    fn decode_and_mul(&self, mem: &M, it: &mut MemoryIter, ins: u16) -> (r: Result<
        Instructions,
        Fault,
    >) {
        crate::decoder::decode_and_mul(mem, it, ins)
    }

    fn decode_add(&self, mem: &M, it: &mut MemoryIter, ins: u16) -> (r: Result<
        Instructions,
        Fault,
    >) {
        crate::decoder::decode_add(mem, it, ins)
    }

    fn decode_shift(&self, mem: &M, it: &mut MemoryIter, ins: u16) -> (r: Result<
        Instructions,
        Fault,
    >) {
        crate::decoder::decode_shift(mem, it, ins)
    }

    fn decode_extension(&self, mem: &M, it: &mut MemoryIter, ins: u16) -> (r: Result<
        Instructions,
        Fault,
    >) {
        crate::decoder::decode_extension(mem, it, ins)
    }
}

} // verus!
