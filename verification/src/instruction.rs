//! The instruction model: operand sizes, the register file names, the closed
//! set of effective-address forms (`Target`) and the closed set of machine
//! instructions, one variant per mnemonic.

use vstd::prelude::*;

verus! {

/// A 32-bit branch displacement.
pub type LongLabel = i32;

/// A 16-bit displacement, register mask or stack adjustment.
pub type WordLabel = i16;

/// Operand width of a size-polymorphic instruction.
#[derive(Clone, Copy, Debug, PartialEq, Eq, Structural)]
pub enum Size {
    Byte,
    Word,
    Long,
}

/// Transfer direction for the instructions that move between a register and
/// somewhere else (user stack pointer, control register, memory block).
#[derive(Clone, Copy, Debug, PartialEq, Eq, Structural)]
pub enum Direction {
    RegisterToMemory,
    MemoryToRegister,
}

/// The architectural registers an operand can name.
#[allow(non_snake_case)]
#[derive(Clone, Copy, Debug, PartialEq, Eq, Structural)]
pub enum Registers {
    /* Data Registers */
    D0,
    D1,
    D2,
    D3,
    D4,
    D5,
    D6,
    D7,
    /* Address Registers */
    A0,
    A1,
    A2,
    A3,
    A4,
    A5,
    A6,
    // Stack Pointer (either SSP or USP)
    SP,
    // Program Counter
    PC,
    // Status Register (including CCR)
    SR,
}

/// The index part of an indexed addressing mode: which register, whether its
/// word or long part is used, and the scale factor applied to it.
#[derive(Clone, Copy, Debug, PartialEq, Eq, Structural)]
pub struct IndexRegister {
    pub register: Registers,
    pub size: Size,
    pub scale: u8,
}

/// An effective-address operand: where an instruction's operand lives. A
/// decoded `Target` is self-contained — the program-counter-relative forms
/// carry the already-resolved base, so resolving a `Target` never re-reads the
/// instruction stream.
#[derive(Clone, Copy, Debug, PartialEq, Eq)]
pub enum Target {
    DnDirect(Registers),
    AnDirect(Registers),
    AnIndirect(Registers),
    AnIndirectPostInc(Registers),
    AnIndirectPreDec(Registers),
    AnIndirectDisplacement(i32, Registers),
    AnIndirectIndex(i32, Registers, IndexRegister),
    AnIndirectIndexBase(Option<i32>, Registers, IndexRegister),
    MemoryIndirectPostIndex(Option<i32>, Option<Registers>, Option<IndexRegister>, Option<i32>),
    MemoryIndirectPreIndex(Option<i32>, Option<Registers>, Option<IndexRegister>, Option<i32>),
    PCIndirectDisplacement(i32, Registers),
    PCIndirectIndex(i32, Registers, IndexRegister),
    PCIndirectIndexBase(Option<i32>, Option<Registers>, Option<IndexRegister>),
    PCMemoryIndirectPostIndex(Option<i32>, Option<Registers>, Option<IndexRegister>, Option<i32>),
    PCMemoryIndirectPreIndex(Option<i32>, Option<Registers>, Option<IndexRegister>, Option<i32>),
    AbsoluteShortAddress(i32),
    AbsoluteLongAddress(u32, u32),
    Immediate(u32),
}

/// The conditions a conditional branch, set or loop instruction can test.
#[derive(Clone, Copy, Debug, PartialEq, Eq, Structural)]
pub enum Condition {
    CarryClear,
    CarrySet,
    Equal,
    Geq,
    Gt,
    High,
    Leq,
    Low,
    Lt,
    Minus,
    Neq,
    Plus,
    OverflowClear,
    OverflowSet,
}

/// The control registers the privileged move-control instruction can name.
#[derive(Clone, Copy, Debug, PartialEq, Eq, Structural)]
pub enum ControlRegister {
    VBR,
}

/// The closed set of machine instructions, each carrying its operands, its
/// size qualifier where the mnemonic is size-polymorphic, and a displacement
/// for branches and loops. `ILLEGAL` and `NotImplemented` are the decode
/// sentinels: they signal a decode failure and are never executed as no-ops.
#[derive(Clone, Copy, Debug, PartialEq, Eq)]
pub enum Instructions {
    // Add Decimal With Extend: Dst + Src + X -> Dst
    ABCD(Target, Target),
    // Add: Dst + Src -> Dst
    ADD(Target, Target, Size),
    // Add Address: Dst + Src -> Dst
    ADDA(Target, Registers, Size),
    // Add Immediate: Dst + Immediate Data -> Dst
    ADDI(u32, Target, Size),
    // Add Quick: Dst + Immediate Data -> Dst
    ADDQ(u32, Target, Size),
    // Add with Extend: Dst + Src + X -> Dst
    ADDX(Target, Target, Size),
    // And: Dst & Src -> Dst
    AND(Target, Target, Size),
    // And Immediate: Dst & Immediate Data -> Dst
    ANDI(u32, Target, Size),
    // Arithmetic Shift Left: Dst << n -> Dst
    ASL(Target, Target, Size),
    // Arithmetic Shift Right: Dst >> n -> Dst
    ASR(Target, Target, Size),
    // Branch Conditionally: If CC then PC + d -> PC
    Bcc(Condition, LongLabel),
    // Bit Test and Change: ~(number of Dst) -> Z, 0 -> (number of Dst)
    BCHG(Target, Target, Size),
    // Bit Test and Clear: ~(number of Dst) -> Z, 1 -> (number of Dst)
    BCLR(Target, Target, Size),
    // Branch Always: PC + d -> PC
    BRA(LongLabel),
    // Bit Test and Set: ~(number of Dst) -> Z, 1 -> (number of Dst)
    BSET(Target, Target, Size),
    // Branch to Subroutine: PC -> -(SP), PC + d -> PC
    BSR(LongLabel),
    // Bit Test: ~(number of Dst) -> Z
    BTST(Target, Target, Size),
    // Check Register Against Bounds: if Dn then Trap
    CHK(Target, Registers, Size),
    // Clear Operand: 0 -> Dst
    CLR(Target, Size),
    // Compare: Dst - Src
    CMP(Target, Target, Size),
    // Compare Address: Dst - Src
    CMPA(Target, Registers, Size),
    // Compare Immediate: Dst - Immediate Data
    CMPI(u32, Target, Size),
    // Compare Memory: Dst - Src
    CMPM(Target, Target, Size),
    // Test Condition, Decrement and Branch: if ~CC then Dn - 1 -> Dn, if Dn != 1 then PC + d -> PC
    DBcc(Condition, Registers, WordLabel),
    // Signed Divide: Dst/Src -> Dst
    DIVSW(Target, Registers, Size),
    // Unsigned Divide: Dst/Src -> Dst
    DIVUW(Target, Registers, Size),
    // Exclusive Or: Dst^Src -> Dst
    EOR(Target, Target, Size),
    // Exclusive Or to CCR: Src^CCR -> CCR
    EORtoCCR(u8),
    // Exclusive Or to SR: if supervisor state then SRC^SR -> SR else TRAP
    EORtoSR(u16),
    // Exclusive Or Immediate: Dst^Immediate Data -> Dst
    EORI(u32, Target, Size),
    // Exchange Registers: Rx <-> Ry
    EXG(Target, Target),
    // Sign Extend: Dst Sign-Extended -> Dst
    EXT(Registers, Size, Size),
    // Illegal
    ILLEGAL,
    // Jump: Dst -> PC
    JMP(Target),
    // Jump to Subroutine: PC -> -(SP), Dst -> PC
    JSR(Target),
    // Load Effective Address: <ea> -> An
    LEA(Target, Registers),
    // Link and Allocate: An -> -(Sp), Sp -> An, Sp + Displacement -> Sp
    LINK(Registers, i32),
    // Logical Shift Left: Dst << n -> Dst
    LSL(Target, Target, Size),
    // Logical Shift Right: Dst >> n -> Dst
    LSR(Target, Target, Size),
    // Move: Src -> Dst
    MOVE(Target, Target, Size),
    // Move Address: Src -> Dst
    MOVEA(Target, Registers, Size),
    // Move from CCR: CCR -> Dst
    MOVEfromCCR(Target),
    // Move to CCR: Src -> CCR
    MOVEtoCCR(Target),
    // Move from SR: SR -> Dst
    MOVEfromSR(Target),
    // Move to SR: if supervisor state then Src -> SR else TRAP
    MOVEtoSR(Target),
    // Move User Stack Pointer: if supervisor state then USP -> An or An -> USP else TRAP
    MOVEUSP(Target, Direction),
    // Move Control Register: if supervisor state then Rc -> Rn or Rn -> Rc else TRAP
    MOVEC(Target, ControlRegister, Direction),
    // Move Multiple Registers: Registers -> Dst, Src -> Registers
    MOVEM(Target, Size, WordLabel, Direction),
    // Move Peripheral Data: Src -> Dst
    MOVEP(Registers, Registers, WordLabel, Size, Direction),
    // Move Quick: Immediate Data -> Dst
    MOVEQ(u8, Registers),
    // Signed Multiply: Dst*Src -> Dst
    MULSW(Target, Registers),
    // Unsigned Multiply: Dst*Src -> Dst
    MULUW(Target, Registers),
    // Negate Decimal with Extend: 0 - Dst - X -> Dst
    NBCD(Target),
    // Negate: 0 - Dst -> Dst
    NEG(Target, Size),
    // Negate with Extend: 0 - Dst - X -> Dst
    NEGX(Target, Size),
    // No Operation
    NOP,
    // 1's Complement: ~Dst -> Dst
    NOT(Target, Size),
    // Logical Or: Dst | Src -> Dst
    OR(Target, Target, Size),
    // Or Immediate: Dst | Immediate Data -> Dst
    ORI(u32, Target, Size),
    // Or Immediate to CCR: Src | CCR -> CCR
    ORItoCCR(u32),
    // Or Immediate to SR: if supervisor state then Src | SR -> SR else TRAP
    ORItoSR(u32),
    // Push Effective Address: <ea> -> -(SP)
    PEA(Target),
    // Reset External Devices
    RESET,
    // Rotate Left without Extend: Dst rotated by n -> Dst
    ROL(Target, Target, Size),
    // Rotate Right without Extend: Dst rotated by n -> Dst
    ROR(Target, Target, Size),
    // Rotate Left with Extend: Dst rotated by n -> Dst
    ROXL(Target, Target, Size),
    // Rotate Right with Extend: Dst rotated by n -> Dst
    ROXR(Target, Target, Size),
    // Return with Displacement: (SP) -> PC, SP + 4 + d -> SP
    RTD(WordLabel),
    // Return from Exception: if supervisor state then (SP) -> SR, SP + 2 -> SP, (SP) -> PC, SP + 4 -> SP else TRAP
    RTE,
    // Return and Restore: (SP) -> CCR, SP + 2 -> SP, (SP) -> PC, SP + 4 -> SP
    RTR,
    // Return from Subroutine: (SP) -> PC, SP + 4 -> SP
    RTS,
    // Subtract Decimal with Extend: Dst - Src - X -> Dst
    SBCD(Target, Target),
    // Set According to Condition: If CC then 1's -> Dst else 0's -> Dst
    Scc(Condition, Target),
    // Stop: Immediate Data -> SR, STOP
    STOP(u16),
    // Subtract: Dst - Src -> Dst
    SUB(Target, Target, Size),
    // Subtract Address: Dst - Src -> Dst
    SUBA(Target, Registers, Size),
    // Subtract Immediate: Dst - Immediate Data -> Dst
    SUBI(u32, Target, Size),
    // Subract Quick: Dst - Immediate Data -> Dst
    SUBQ(u32, Target, Size),
    // Subtract with Extend: Dst - Src - X -> DSt
    SUBX(Target, Target, Size),
    // Swap Data Register Halves: Register [31:16] <-> Register [15:0]
    SWAP(Registers),
    // Test and Set Operand: Dst Tested -> CC, 1 -> (7th bit of Dst)
    TAS(Target),
    // Trap: SSP - 2 -> SSP, Format/Offset -> (SSP), SPP - 4 -> SSP, PC -> (SSP), SSP -2 -> SSP, SR -> (SSP), Vector Address -> PC
    TRAP(u8),
    // Trap on Overflow: if V then TRAP
    TRAPV,
    // Test: Dst Tested -> CC
    TST(Target, Size),
    // Unlink: An -> Sp, Sp -> An
    UNLK(Registers),
    // Not Implemented
    NotImplemented,
}

} // verus!
