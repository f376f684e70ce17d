//! Canonical disassembly text for every decoded value: registers, sizes,
//! conditions, effective-address operands and whole instructions. Each
//! renderer's contract pins the exact character sequence produced.

use vstd::prelude::*;

use crate::instruction::{Condition, Direction, IndexRegister, Instructions, Registers, Size, Target};

verus! {

/// The decimal digit character for `d`.
pub open spec fn spec_digit(d: int) -> Seq<char> {
    if d == 0 {
        "0"@
    } else if d == 1 {
        "1"@
    } else if d == 2 {
        "2"@
    } else if d == 3 {
        "3"@
    } else if d == 4 {
        "4"@
    } else if d == 5 {
        "5"@
    } else if d == 6 {
        "6"@
    } else if d == 7 {
        "7"@
    } else if d == 8 {
        "8"@
    } else {
        "9"@
    }
}

/// Decimal text of a non-negative number, without sign or padding.
pub open spec fn spec_dec(n: int) -> Seq<char>
    decreases n,
{
    if n < 10 {
        spec_digit(n)
    } else {
        spec_dec(n / 10) + spec_digit(n % 10)
    }
}

/// Decimal text of a possibly negative number: a leading minus, then digits.
pub open spec fn spec_dec_signed(n: int) -> Seq<char> {
    if n < 0 {
        "-"@ + spec_dec(-n)
    } else {
        spec_dec(n)
    }
}

/// Canonical register name.
pub open spec fn spec_render_reg(r: Registers) -> Seq<char> {
    match r {
        Registers::D0 => "%d0"@,
        Registers::D1 => "%d1"@,
        Registers::D2 => "%d2"@,
        Registers::D3 => "%d3"@,
        Registers::D4 => "%d4"@,
        Registers::D5 => "%d5"@,
        Registers::D6 => "%d6"@,
        Registers::D7 => "%d7"@,
        Registers::A0 => "%a0"@,
        Registers::A1 => "%a1"@,
        Registers::A2 => "%a2"@,
        Registers::A3 => "%a3"@,
        Registers::A4 => "%a4"@,
        Registers::A5 => "%a5"@,
        Registers::A6 => "%a6"@,
        Registers::SP => "%sp"@,
        Registers::PC => "%pc"@,
        Registers::SR => "%sr"@,
    }
}

/// Size suffix appended to a size-polymorphic mnemonic or index register.
pub open spec fn spec_size_suffix(s: Size) -> Seq<char> {
    match s {
        Size::Byte => ".B"@,
        Size::Word => ".W"@,
        Size::Long => ".L"@,
    }
}

/// Two-letter condition mnemonic.
pub open spec fn spec_render_cond(c: Condition) -> Seq<char> {
    match c {
        Condition::CarryClear => "CC"@,
        Condition::CarrySet => "CS"@,
        Condition::Equal => "EQ"@,
        Condition::Geq => "GE"@,
        Condition::Gt => "GT"@,
        Condition::High => "HI"@,
        Condition::Leq => "LE"@,
        Condition::Low => "LS"@,
        Condition::Lt => "LT"@,
        Condition::Minus => "MI"@,
        Condition::Neq => "NE"@,
        Condition::Plus => "PL"@,
        Condition::OverflowClear => "VC"@,
        Condition::OverflowSet => "VS"@,
    }
}

/// An index-register descriptor: register, active width, scale factor.
pub open spec fn spec_render_index(ix: IndexRegister) -> Seq<char> {
    spec_render_reg(ix.register) + spec_size_suffix(ix.size) + "*"@ + spec_dec(ix.scale as int)
}

/// An optional displacement: `_` marks a suppressed component.
pub open spec fn spec_render_opt_disp(d: Option<i32>) -> Seq<char> {
    match d {
        Some(v) => spec_dec_signed(v as int),
        None => "_"@,
    }
}

/// An optional base register: `_` marks a suppressed component.
pub open spec fn spec_render_opt_reg(r: Option<Registers>) -> Seq<char> {
    match r {
        Some(v) => spec_render_reg(v),
        None => "_"@,
    }
}

/// An optional index-register descriptor: `_` marks a suppressed component.
pub open spec fn spec_render_opt_index(ix: Option<IndexRegister>) -> Seq<char> {
    match ix {
        Some(v) => spec_render_index(v),
        None => "_"@,
    }
}

/// A register wrapped in the given punctuation: the indirect forms.
pub open spec fn spec_render_wrapped_reg(pre: Seq<char>, r: Registers, post: Seq<char>) -> Seq<
    char,
> {
    pre + spec_render_reg(r) + post
}

/// A 16-bit-displacement indirect form.
pub open spec fn spec_render_disp16(disp: i32, r: Registers) -> Seq<char> {
    "("@ + spec_dec_signed(disp as int) + "_16, "@ + spec_render_reg(r) + ")"@
}

/// An 8-bit-displacement indexed indirect form.
pub open spec fn spec_render_index8(disp: i32, r: Registers, ix: IndexRegister) -> Seq<char> {
    "("@ + spec_dec_signed(disp as int) + "_8, "@ + spec_render_reg(r) + ", "@ + spec_render_index(
        ix,
    ) + ")"@
}

/// A base-displacement indexed indirect form.
pub open spec fn spec_render_index_base(bd: Option<i32>, r: Registers, ix: IndexRegister) -> Seq<
    char,
> {
    "("@ + spec_render_opt_disp(bd) + ", "@ + spec_render_reg(r) + ", "@ + spec_render_index(ix)
        + ")"@
}

/// A base-displacement indexed indirect form with every component optional.
pub open spec fn spec_render_index_base_opt(
    bd: Option<i32>,
    r: Option<Registers>,
    ix: Option<IndexRegister>,
) -> Seq<char> {
    "("@ + spec_render_opt_disp(bd) + ", "@ + spec_render_opt_reg(r) + ", "@
        + spec_render_opt_index(ix) + ")"@
}

/// A two-level memory-indirect form, post-indexed: the index applies outside
/// the bracketed inner access.
pub open spec fn spec_render_mem_post(
    bd: Option<i32>,
    r: Option<Registers>,
    ix: Option<IndexRegister>,
    od: Option<i32>,
) -> Seq<char> {
    "(["@ + spec_render_opt_disp(bd) + ", "@ + spec_render_opt_reg(r) + "], "@
        + spec_render_opt_index(ix) + ", "@ + spec_render_opt_disp(od) + ")"@
}

/// A two-level memory-indirect form, pre-indexed: the index applies inside
/// the bracketed inner access.
pub open spec fn spec_render_mem_pre(
    bd: Option<i32>,
    r: Option<Registers>,
    ix: Option<IndexRegister>,
    od: Option<i32>,
) -> Seq<char> {
    "(["@ + spec_render_opt_disp(bd) + ", "@ + spec_render_opt_reg(r) + ", "@
        + spec_render_opt_index(ix) + "], "@ + spec_render_opt_disp(od) + ")"@
}

/// Canonical text of an effective-address operand. Distinct operand forms
/// render with distinct surrounding punctuation, so the text identifies the
/// addressing mode as well as its fields.
pub open spec fn spec_render_target(t: Target) -> Seq<char> {
    match t {
        Target::DnDirect(reg) => spec_render_reg(reg),
        Target::AnDirect(reg) => spec_render_reg(reg),
        Target::AnIndirect(reg) => spec_render_wrapped_reg("("@, reg, ")"@),
        Target::AnIndirectPostInc(reg) => spec_render_wrapped_reg("("@, reg, ") +"@),
        Target::AnIndirectPreDec(reg) => spec_render_wrapped_reg("- ("@, reg, ")"@),
        Target::AnIndirectDisplacement(disp, reg) => spec_render_disp16(disp, reg),
        Target::AnIndirectIndex(disp, reg, ix) => spec_render_index8(disp, reg, ix),
        Target::AnIndirectIndexBase(bd, reg, ix) => spec_render_index_base(bd, reg, ix),
        Target::MemoryIndirectPostIndex(bd, reg, ix, od) => spec_render_mem_post(bd, reg, ix, od),
        Target::MemoryIndirectPreIndex(bd, reg, ix, od) => spec_render_mem_pre(bd, reg, ix, od),
        Target::PCIndirectDisplacement(disp, reg) => spec_render_disp16(disp, reg),
        Target::PCIndirectIndex(disp, reg, ix) => spec_render_index8(disp, reg, ix),
        Target::PCIndirectIndexBase(bd, reg, ix) => spec_render_index_base_opt(bd, reg, ix),
        Target::PCMemoryIndirectPostIndex(bd, reg, ix, od) => spec_render_mem_post(bd, reg, ix, od),
        Target::PCMemoryIndirectPreIndex(bd, reg, ix, od) => spec_render_mem_pre(bd, reg, ix, od),
        Target::AbsoluteShortAddress(extw) => "("@ + spec_dec_signed(extw as int) + ").W"@,
        Target::AbsoluteLongAddress(hi, lo) => "("@ + spec_dec(hi as int * 0x1_0000 + lo as int)
            + ").L"@,
        Target::Immediate(value) => "#<"@ + spec_dec(value as int) + ">"@,
    }
}

/// Append the digit character for `d`.
fn push_digit(s: &mut String, d: u32)
    requires
        d < 10,
    ensures
        final(s)@ == old(s)@ + spec_digit(d as int),
{
    match d {
        0 => s.append("0"),
        1 => s.append("1"),
        2 => s.append("2"),
        3 => s.append("3"),
        4 => s.append("4"),
        5 => s.append("5"),
        6 => s.append("6"),
        7 => s.append("7"),
        8 => s.append("8"),
        _ => s.append("9"),
    }
}

/// Append the decimal text of `n`.
fn push_dec(s: &mut String, n: u32)
    ensures
        final(s)@ == old(s)@ + spec_dec(n as int),
    decreases n,
{
    if n < 10 {
        push_digit(s, n);
    } else {
        push_dec(s, n / 10);
        push_digit(s, n % 10);
        assert(s@ =~= old(s)@ + spec_dec(n as int));
    }
}

/// Append the decimal text of `n`, with a leading minus when negative.
fn push_dec_signed(s: &mut String, n: i32)
    ensures
        final(s)@ == old(s)@ + spec_dec_signed(n as int),
{
    if n < 0 {
        s.append("-");
        let magnitude = (-(n as i64)) as u32;
        push_dec(s, magnitude);
        assert(s@ =~= old(s)@ + spec_dec_signed(n as int));
    } else {
        push_dec(s, n as u32);
    }
}

/// Append the canonical name of `r`.
fn push_reg(s: &mut String, r: Registers)
    ensures
        final(s)@ == old(s)@ + spec_render_reg(r),
{
    match r {
        Registers::D0 => s.append("%d0"),
        Registers::D1 => s.append("%d1"),
        Registers::D2 => s.append("%d2"),
        Registers::D3 => s.append("%d3"),
        Registers::D4 => s.append("%d4"),
        Registers::D5 => s.append("%d5"),
        Registers::D6 => s.append("%d6"),
        Registers::D7 => s.append("%d7"),
        Registers::A0 => s.append("%a0"),
        Registers::A1 => s.append("%a1"),
        Registers::A2 => s.append("%a2"),
        Registers::A3 => s.append("%a3"),
        Registers::A4 => s.append("%a4"),
        Registers::A5 => s.append("%a5"),
        Registers::A6 => s.append("%a6"),
        Registers::SP => s.append("%sp"),
        Registers::PC => s.append("%pc"),
        Registers::SR => s.append("%sr"),
    }
}

/// Append the size suffix of `z`.
fn push_size(s: &mut String, z: Size)
    ensures
        final(s)@ == old(s)@ + spec_size_suffix(z),
{
    match z {
        Size::Byte => s.append(".B"),
        Size::Word => s.append(".W"),
        Size::Long => s.append(".L"),
    }
}

/// Append the condition mnemonic of `c`.
fn push_cond(s: &mut String, c: Condition)
    ensures
        final(s)@ == old(s)@ + spec_render_cond(c),
{
    match c {
        Condition::CarryClear => s.append("CC"),
        Condition::CarrySet => s.append("CS"),
        Condition::Equal => s.append("EQ"),
        Condition::Geq => s.append("GE"),
        Condition::Gt => s.append("GT"),
        Condition::High => s.append("HI"),
        Condition::Leq => s.append("LE"),
        Condition::Low => s.append("LS"),
        Condition::Lt => s.append("LT"),
        Condition::Minus => s.append("MI"),
        Condition::Neq => s.append("NE"),
        Condition::Plus => s.append("PL"),
        Condition::OverflowClear => s.append("VC"),
        Condition::OverflowSet => s.append("VS"),
    }
}

/// Append the index-register descriptor of `ix`.
fn push_index(s: &mut String, ix: IndexRegister)
    ensures
        final(s)@ == old(s)@ + spec_render_index(ix),
{
    push_reg(s, ix.register);
    push_size(s, ix.size);
    s.append("*");
    push_dec(s, ix.scale as u32);
    assert(s@ =~= old(s)@ + spec_render_index(ix));
}

/// Append an optional displacement.
fn push_opt_disp(s: &mut String, d: Option<i32>)
    ensures
        final(s)@ == old(s)@ + spec_render_opt_disp(d),
{
    match d {
        Some(v) => push_dec_signed(s, v),
        None => s.append("_"),
    }
}

/// Append an optional base register.
fn push_opt_reg(s: &mut String, r: Option<Registers>)
    ensures
        final(s)@ == old(s)@ + spec_render_opt_reg(r),
{
    match r {
        Some(v) => push_reg(s, v),
        None => s.append("_"),
    }
}

/// Append an optional index-register descriptor.
fn push_opt_index(s: &mut String, ix: Option<IndexRegister>)
    ensures
        final(s)@ == old(s)@ + spec_render_opt_index(ix),
{
    match ix {
        Some(v) => push_index(s, v),
        None => s.append("_"),
    }
}

/// Append a register wrapped in the given punctuation.
fn push_wrapped_reg(s: &mut String, pre: &str, r: Registers, post: &str)
    ensures
        final(s)@ == old(s)@ + spec_render_wrapped_reg(pre@, r, post@),
{
    s.append(pre);
    push_reg(s, r);
    s.append(post);
    assert(s@ =~= old(s)@ + spec_render_wrapped_reg(pre@, r, post@));
}

/// Append a 16-bit-displacement indirect form.
fn push_disp16(s: &mut String, disp: i32, r: Registers)
    ensures
        final(s)@ == old(s)@ + spec_render_disp16(disp, r),
{
    s.append("(");
    push_dec_signed(s, disp);
    s.append("_16, ");
    push_reg(s, r);
    s.append(")");
    assert(s@ =~= old(s)@ + spec_render_disp16(disp, r));
}

/// Append an 8-bit-displacement indexed indirect form.
fn push_index8(s: &mut String, disp: i32, r: Registers, ix: IndexRegister)
    ensures
        final(s)@ == old(s)@ + spec_render_index8(disp, r, ix),
{
    s.append("(");
    push_dec_signed(s, disp);
    s.append("_8, ");
    push_reg(s, r);
    s.append(", ");
    push_index(s, ix);
    s.append(")");
    assert(s@ =~= old(s)@ + spec_render_index8(disp, r, ix));
}

/// Append a base-displacement indexed indirect form.
fn push_index_base(s: &mut String, bd: Option<i32>, r: Registers, ix: IndexRegister)
    ensures
        final(s)@ == old(s)@ + spec_render_index_base(bd, r, ix),
{
    s.append("(");
    push_opt_disp(s, bd);
    s.append(", ");
    push_reg(s, r);
    s.append(", ");
    push_index(s, ix);
    s.append(")");
    assert(s@ =~= old(s)@ + spec_render_index_base(bd, r, ix));
}

/// Append a base-displacement indexed indirect form with optional components.
fn push_index_base_opt(
    s: &mut String,
    bd: Option<i32>,
    r: Option<Registers>,
    ix: Option<IndexRegister>,
)
    ensures
        final(s)@ == old(s)@ + spec_render_index_base_opt(bd, r, ix),
{
    s.append("(");
    push_opt_disp(s, bd);
    s.append(", ");
    push_opt_reg(s, r);
    s.append(", ");
    push_opt_index(s, ix);
    s.append(")");
    assert(s@ =~= old(s)@ + spec_render_index_base_opt(bd, r, ix));
}

/// Append a two-level memory-indirect, post-indexed form.
fn push_mem_post(
    s: &mut String,
    bd: Option<i32>,
    r: Option<Registers>,
    ix: Option<IndexRegister>,
    od: Option<i32>,
)
    ensures
        final(s)@ == old(s)@ + spec_render_mem_post(bd, r, ix, od),
{
    s.append("([");
    push_opt_disp(s, bd);
    s.append(", ");
    push_opt_reg(s, r);
    s.append("], ");
    push_opt_index(s, ix);
    s.append(", ");
    push_opt_disp(s, od);
    s.append(")");
    assert(s@ =~= old(s)@ + spec_render_mem_post(bd, r, ix, od));
}

/// Append a two-level memory-indirect, pre-indexed form.
fn push_mem_pre(
    s: &mut String,
    bd: Option<i32>,
    r: Option<Registers>,
    ix: Option<IndexRegister>,
    od: Option<i32>,
)
    ensures
        final(s)@ == old(s)@ + spec_render_mem_pre(bd, r, ix, od),
{
    s.append("([");
    push_opt_disp(s, bd);
    s.append(", ");
    push_opt_reg(s, r);
    s.append(", ");
    push_opt_index(s, ix);
    s.append("], ");
    push_opt_disp(s, od);
    s.append(")");
    assert(s@ =~= old(s)@ + spec_render_mem_pre(bd, r, ix, od));
}

/// Append the canonical text of the operand `t`.
fn push_target(s: &mut String, t: &Target)
    ensures
        final(s)@ == old(s)@ + spec_render_target(*t),
{
    match t {
        Target::DnDirect(reg) => push_reg(s, *reg),
        Target::AnDirect(reg) => push_reg(s, *reg),
        Target::AnIndirect(reg) => push_wrapped_reg(s, "(", *reg, ")"),
        Target::AnIndirectPostInc(reg) => push_wrapped_reg(s, "(", *reg, ") +"),
        Target::AnIndirectPreDec(reg) => push_wrapped_reg(s, "- (", *reg, ")"),
        Target::AnIndirectDisplacement(disp, reg) => push_disp16(s, *disp, *reg),
        Target::AnIndirectIndex(disp, reg, ix) => push_index8(s, *disp, *reg, *ix),
        Target::AnIndirectIndexBase(bd, reg, ix) => push_index_base(s, *bd, *reg, *ix),
        Target::MemoryIndirectPostIndex(bd, reg, ix, od) => push_mem_post(s, *bd, *reg, *ix, *od),
        Target::MemoryIndirectPreIndex(bd, reg, ix, od) => push_mem_pre(s, *bd, *reg, *ix, *od),
        Target::PCIndirectDisplacement(disp, reg) => push_disp16(s, *disp, *reg),
        Target::PCIndirectIndex(disp, reg, ix) => push_index8(s, *disp, *reg, *ix),
        Target::PCIndirectIndexBase(bd, reg, ix) => push_index_base_opt(s, *bd, *reg, *ix),
        Target::PCMemoryIndirectPostIndex(bd, reg, ix, od) => push_mem_post(s, *bd, *reg, *ix, *od),
        Target::PCMemoryIndirectPreIndex(bd, reg, ix, od) => push_mem_pre(s, *bd, *reg, *ix, *od),
        Target::AbsoluteShortAddress(extw) => {
            s.append("(");
            push_dec_signed(s, *extw);
            s.append(").W");
            assert(s@ =~= old(s)@ + spec_render_target(*t));
        },
        Target::AbsoluteLongAddress(hi, lo) => {
            s.append("(");
            assert(*hi as u64 * 0x1_0000 + *lo as u64 <= 0xFFFF_FFFF_0000_FFFF) by (nonlinear_arith);
            let combined = *hi as u64 * 0x1_0000 + *lo as u64;
            push_dec_u64(s, combined);
            s.append(").L");
            assert(s@ =~= old(s)@ + spec_render_target(*t));
        },
        Target::Immediate(value) => {
            s.append("#<");
            push_dec(s, *value);
            s.append(">");
            assert(s@ =~= old(s)@ + spec_render_target(*t));
        },
    }
}

/// Append the decimal text of a number too wide for `push_dec`.
fn push_dec_u64(s: &mut String, n: u64)
    ensures
        final(s)@ == old(s)@ + spec_dec(n as int),
    decreases n,
{
    if n < 10 {
        push_digit(s, n as u32);
    } else {
        push_dec_u64(s, n / 10);
        push_digit(s, (n % 10) as u32);
        assert(s@ =~= old(s)@ + spec_dec(n as int));
    }
}

impl Target {
    /// Canonical disassembly text of this operand.
    pub fn render(&self) -> (r: String)
        ensures
            r@ == spec_render_target(*self),
    {
        let mut s = String::new();
        push_target(&mut s, self);
        s
    }
}

/// A sized mnemonic with two operands, source first.
pub open spec fn spec_ins_two(m: Seq<char>, z: Size, a: Target, b: Target) -> Seq<char> {
    m + spec_size_suffix(z) + "\t "@ + spec_render_target(a) + ", "@ + spec_render_target(b)
}

/// An unsized mnemonic with two operands, source first.
pub open spec fn spec_ins_two_ns(m: Seq<char>, a: Target, b: Target) -> Seq<char> {
    m + "\t "@ + spec_render_target(a) + ", "@ + spec_render_target(b)
}

/// A sized mnemonic with one operand.
pub open spec fn spec_ins_one(m: Seq<char>, z: Size, a: Target) -> Seq<char> {
    m + spec_size_suffix(z) + "\t "@ + spec_render_target(a)
}

/// An unsized mnemonic with one operand.
pub open spec fn spec_ins_one_ns(m: Seq<char>, a: Target) -> Seq<char> {
    m + "\t "@ + spec_render_target(a)
}

/// A sized mnemonic with an immediate source and an operand destination.
pub open spec fn spec_ins_imm_two(m: Seq<char>, z: Size, imm: u32, b: Target) -> Seq<char> {
    m + spec_size_suffix(z) + "\t #<"@ + spec_dec(imm as int) + ">, "@ + spec_render_target(b)
}

/// A sized mnemonic with an operand source and a register destination.
pub open spec fn spec_ins_src_reg(m: Seq<char>, z: Size, a: Target, r: Registers) -> Seq<char> {
    m + spec_size_suffix(z) + "\t "@ + spec_render_target(a) + ", "@ + spec_render_reg(r)
}

/// An unsized mnemonic with an operand source and a register destination.
pub open spec fn spec_ins_src_reg_ns(m: Seq<char>, a: Target, r: Registers) -> Seq<char> {
    m + "\t "@ + spec_render_target(a) + ", "@ + spec_render_reg(r)
}

/// A mnemonic with an immediate source and a named status destination.
pub open spec fn spec_ins_imm_named(m: Seq<char>, imm: int, dest: Seq<char>) -> Seq<char> {
    m + "\t #<"@ + spec_dec(imm) + ">, "@ + dest
}

/// A mnemonic with a bare immediate operand.
pub open spec fn spec_ins_imm_only(m: Seq<char>, imm: int) -> Seq<char> {
    m + "\t #<"@ + spec_dec(imm) + ">"@
}

/// A mnemonic with a single register operand.
pub open spec fn spec_ins_reg_only(m: Seq<char>, r: Registers) -> Seq<char> {
    m + "\t "@ + spec_render_reg(r)
}

/// A conditional branch: `B` plus the condition, then the displacement.
pub open spec fn spec_ins_branch_cond(c: Condition, label: i32) -> Seq<char> {
    "B"@ + spec_render_cond(c) + "\t "@ + spec_dec_signed(label as int)
}

/// An unconditional branch mnemonic and its displacement.
pub open spec fn spec_ins_branch(m: Seq<char>, label: i32) -> Seq<char> {
    m + "\t "@ + spec_dec_signed(label as int)
}

/// A decrement-and-branch: `DB` plus the condition, the counter register and
/// the displacement.
pub open spec fn spec_ins_dbcc(c: Condition, r: Registers, label: i16) -> Seq<char> {
    "DB"@ + spec_render_cond(c) + "\t "@ + spec_render_reg(r) + ", "@ + spec_dec_signed(
        label as int,
    )
}

/// A conditional set: `S` plus the condition, then the destination.
pub open spec fn spec_ins_scc(c: Condition, b: Target) -> Seq<char> {
    "S"@ + spec_render_cond(c) + "\t "@ + spec_render_target(b)
}

/// Move quick: an immediate into a data register.
pub open spec fn spec_ins_moveq(imm: u8, r: Registers) -> Seq<char> {
    "MOVEQ\t #<"@ + spec_dec(imm as int) + ">, "@ + spec_render_reg(r)
}

/// Sign extension: the mnemonic carries the destination width.
pub open spec fn spec_ins_ext(r: Registers, to: Size) -> Seq<char> {
    "EXT"@ + spec_size_suffix(to) + "\t "@ + spec_render_reg(r)
}

/// Link: the frame register and the stack displacement.
pub open spec fn spec_ins_link(r: Registers, disp: i32) -> Seq<char> {
    "LINK\t "@ + spec_render_reg(r) + ", "@ + spec_dec_signed(disp as int)
}

/// Move to or from the user stack pointer: the direction shows as operand order.
pub open spec fn spec_ins_moveusp(t: Target, dir: Direction) -> Seq<char> {
    match dir {
        Direction::RegisterToMemory => "MOVEUSP\t "@ + spec_render_target(t) + ", USP"@,
        Direction::MemoryToRegister => "MOVEUSP\t USP, "@ + spec_render_target(t),
    }
}

/// Move to or from a control register: the direction shows as operand order.
pub open spec fn spec_ins_movec(t: Target, dir: Direction) -> Seq<char> {
    match dir {
        Direction::RegisterToMemory => "MOVEC\t "@ + spec_render_target(t) + ", VBR"@,
        Direction::MemoryToRegister => "MOVEC\t VBR, "@ + spec_render_target(t),
    }
}

/// Move multiple: the register mask and the transfer operand, ordered by
/// direction.
pub open spec fn spec_ins_movem(t: Target, z: Size, mask: i16, dir: Direction) -> Seq<char> {
    match dir {
        Direction::RegisterToMemory => "MOVEM"@ + spec_size_suffix(z) + "\t #<"@ + spec_dec_signed(
            mask as int,
        ) + ">, "@ + spec_render_target(t),
        Direction::MemoryToRegister => "MOVEM"@ + spec_size_suffix(z) + "\t "@ + spec_render_target(
            t,
        ) + ", #<"@ + spec_dec_signed(mask as int) + ">"@,
    }
}

/// Move peripheral: a data register and a displaced address-register operand,
/// ordered by direction.
pub open spec fn spec_ins_movep(
    dx: Registers,
    ay: Registers,
    disp: i16,
    z: Size,
    dir: Direction,
) -> Seq<char> {
    match dir {
        Direction::RegisterToMemory => "MOVEP"@ + spec_size_suffix(z) + "\t "@ + spec_render_reg(dx)
            + ", ("@ + spec_dec_signed(disp as int) + ", "@ + spec_render_reg(ay) + ")"@,
        Direction::MemoryToRegister => "MOVEP"@ + spec_size_suffix(z) + "\t ("@ + spec_dec_signed(
            disp as int,
        ) + ", "@ + spec_render_reg(ay) + "), "@ + spec_render_reg(dx),
    }
}

/// Canonical disassembly text of a whole instruction: the mnemonic, a size
/// suffix where the mnemonic is size-polymorphic, a tab, then the operands in
/// architectural order separated by `, `.
pub open spec fn spec_render_ins(i: Instructions) -> Seq<char> {
    match i {
        Instructions::ABCD(src, dst) => spec_ins_two_ns("ABCD"@, src, dst),
        Instructions::ADD(src, dst, z) => spec_ins_two("ADD"@, z, src, dst),
        Instructions::ADDA(src, r, z) => spec_ins_src_reg("ADDA"@, z, src, r),
        Instructions::ADDI(imm, dst, z) => spec_ins_imm_two("ADDI"@, z, imm, dst),
        Instructions::ADDQ(imm, dst, z) => spec_ins_imm_two("ADDQ"@, z, imm, dst),
        Instructions::ADDX(src, dst, z) => spec_ins_two("ADDX"@, z, src, dst),
        Instructions::AND(src, dst, z) => spec_ins_two("AND"@, z, src, dst),
        Instructions::ANDI(imm, dst, z) => spec_ins_imm_two("ANDI"@, z, imm, dst),
        Instructions::ASL(src, dst, z) => spec_ins_two("ASL"@, z, src, dst),
        Instructions::ASR(src, dst, z) => spec_ins_two("ASR"@, z, src, dst),
        Instructions::Bcc(c, label) => spec_ins_branch_cond(c, label),
        Instructions::BCHG(src, dst, z) => spec_ins_two("BCHG"@, z, src, dst),
        Instructions::BCLR(src, dst, z) => spec_ins_two("BCLR"@, z, src, dst),
        Instructions::BRA(label) => spec_ins_branch("BRA"@, label),
        Instructions::BSET(src, dst, z) => spec_ins_two("BSET"@, z, src, dst),
        Instructions::BSR(label) => spec_ins_branch("BSR"@, label),
        Instructions::BTST(src, dst, z) => spec_ins_two("BTST"@, z, src, dst),
        Instructions::CHK(src, r, z) => spec_ins_src_reg("CHK"@, z, src, r),
        Instructions::CLR(dst, z) => spec_ins_one("CLR"@, z, dst),
        Instructions::CMP(src, dst, z) => spec_ins_two("CMP"@, z, src, dst),
        Instructions::CMPA(src, r, z) => spec_ins_src_reg("CMPA"@, z, src, r),
        Instructions::CMPI(imm, dst, z) => spec_ins_imm_two("CMPI"@, z, imm, dst),
        Instructions::CMPM(src, dst, z) => spec_ins_two("CMPM"@, z, src, dst),
        Instructions::DBcc(c, r, label) => spec_ins_dbcc(c, r, label),
        Instructions::DIVSW(src, r, z) => spec_ins_src_reg("DIVSW"@, z, src, r),
        Instructions::DIVUW(src, r, z) => spec_ins_src_reg("DIVUW"@, z, src, r),
        Instructions::EOR(src, dst, z) => spec_ins_two("EOR"@, z, src, dst),
        Instructions::EORtoCCR(imm) => spec_ins_imm_named("EORtoCCR"@, imm as int, "CCR"@),
        Instructions::EORtoSR(imm) => spec_ins_imm_named("EORtoSR"@, imm as int, "SR"@),
        Instructions::EORI(imm, dst, z) => spec_ins_imm_two("EORI"@, z, imm, dst),
        Instructions::EXG(src, dst) => spec_ins_two_ns("EXG"@, src, dst),
        Instructions::EXT(r, _from, to) => spec_ins_ext(r, to),
        Instructions::ILLEGAL => "ILLEGAL"@,
        Instructions::JMP(dst) => spec_ins_one_ns("JMP"@, dst),
        Instructions::JSR(dst) => spec_ins_one_ns("JSR"@, dst),
        Instructions::LEA(src, r) => spec_ins_src_reg_ns("LEA"@, src, r),
        Instructions::LINK(r, disp) => spec_ins_link(r, disp),
        Instructions::LSL(src, dst, z) => spec_ins_two("LSL"@, z, src, dst),
        Instructions::LSR(src, dst, z) => spec_ins_two("LSR"@, z, src, dst),
        Instructions::MOVE(src, dst, z) => spec_ins_two("MOVE"@, z, src, dst),
        Instructions::MOVEA(src, r, z) => spec_ins_src_reg("MOVEA"@, z, src, r),
        Instructions::MOVEfromCCR(dst) => spec_ins_one_ns("MOVEfromCCR"@, dst),
        Instructions::MOVEtoCCR(src) => spec_ins_one_ns("MOVEtoCCR"@, src),
        Instructions::MOVEfromSR(dst) => spec_ins_one_ns("MOVEfromSR"@, dst),
        Instructions::MOVEtoSR(src) => spec_ins_one_ns("MOVEtoSR"@, src),
        Instructions::MOVEUSP(t, dir) => spec_ins_moveusp(t, dir),
        Instructions::MOVEC(t, _cr, dir) => spec_ins_movec(t, dir),
        Instructions::MOVEM(t, z, mask, dir) => spec_ins_movem(t, z, mask, dir),
        Instructions::MOVEP(dx, ay, disp, z, dir) => spec_ins_movep(dx, ay, disp, z, dir),
        Instructions::MOVEQ(imm, r) => spec_ins_moveq(imm, r),
        Instructions::MULSW(src, r) => spec_ins_src_reg_ns("MULSW"@, src, r),
        Instructions::MULUW(src, r) => spec_ins_src_reg_ns("MULUW"@, src, r),
        Instructions::NBCD(dst) => spec_ins_one_ns("NBCD"@, dst),
        Instructions::NEG(dst, z) => spec_ins_one("NEG"@, z, dst),
        Instructions::NEGX(dst, z) => spec_ins_one("NEGX"@, z, dst),
        Instructions::NOP => "NOP"@,
        Instructions::NOT(dst, z) => spec_ins_one("NOT"@, z, dst),
        Instructions::OR(src, dst, z) => spec_ins_two("OR"@, z, src, dst),
        Instructions::ORI(imm, dst, z) => spec_ins_imm_two("ORI"@, z, imm, dst),
        Instructions::ORItoCCR(imm) => spec_ins_imm_named("ORItoCCR"@, imm as int, "CCR"@),
        Instructions::ORItoSR(imm) => spec_ins_imm_named("ORItoSR"@, imm as int, "SR"@),
        Instructions::PEA(t) => spec_ins_one_ns("PEA"@, t),
        Instructions::RESET => "RESET"@,
        Instructions::ROL(src, dst, z) => spec_ins_two("ROL"@, z, src, dst),
        Instructions::ROR(src, dst, z) => spec_ins_two("ROR"@, z, src, dst),
        Instructions::ROXL(src, dst, z) => spec_ins_two("ROXL"@, z, src, dst),
        Instructions::ROXR(src, dst, z) => spec_ins_two("ROXR"@, z, src, dst),
        Instructions::RTD(label) => "RTD\t "@ + spec_dec_signed(label as int),
        Instructions::RTE => "RTE"@,
        Instructions::RTR => "RTR"@,
        Instructions::RTS => "RTS"@,
        Instructions::SBCD(src, dst) => spec_ins_two_ns("SBCD"@, src, dst),
        Instructions::Scc(c, dst) => spec_ins_scc(c, dst),
        Instructions::STOP(imm) => spec_ins_imm_only("STOP"@, imm as int),
        Instructions::SUB(src, dst, z) => spec_ins_two("SUB"@, z, src, dst),
        Instructions::SUBA(src, r, z) => spec_ins_src_reg("SUBA"@, z, src, r),
        Instructions::SUBI(imm, dst, z) => spec_ins_imm_two("SUBI"@, z, imm, dst),
        Instructions::SUBQ(imm, dst, z) => spec_ins_imm_two("SUBQ"@, z, imm, dst),
        Instructions::SUBX(src, dst, z) => spec_ins_two("SUBX"@, z, src, dst),
        Instructions::SWAP(r) => spec_ins_reg_only("SWAP"@, r),
        Instructions::TAS(dst) => spec_ins_one_ns("TAS"@, dst),
        Instructions::TRAP(v) => spec_ins_imm_only("TRAP"@, v as int),
        Instructions::TRAPV => "TRAPV"@,
        Instructions::TST(dst, z) => spec_ins_one("TST"@, z, dst),
        Instructions::UNLK(r) => spec_ins_reg_only("UNLK"@, r),
        Instructions::NotImplemented => "Instruction not implemented!"@,
    }
}

/// Append a sized mnemonic with two operands.
fn push_ins_two(s: &mut String, m: &str, z: Size, a: Target, b: Target)
    ensures
        final(s)@ == old(s)@ + spec_ins_two(m@, z, a, b),
{
    s.append(m);
    push_size(s, z);
    s.append("\t ");
    push_target(s, &a);
    s.append(", ");
    push_target(s, &b);
    assert(s@ =~= old(s)@ + spec_ins_two(m@, z, a, b));
}

/// Append an unsized mnemonic with two operands.
fn push_ins_two_ns(s: &mut String, m: &str, a: Target, b: Target)
    ensures
        final(s)@ == old(s)@ + spec_ins_two_ns(m@, a, b),
{
    s.append(m);
    s.append("\t ");
    push_target(s, &a);
    s.append(", ");
    push_target(s, &b);
    assert(s@ =~= old(s)@ + spec_ins_two_ns(m@, a, b));
}

/// Append a sized mnemonic with one operand.
fn push_ins_one(s: &mut String, m: &str, z: Size, a: Target)
    ensures
        final(s)@ == old(s)@ + spec_ins_one(m@, z, a),
{
    s.append(m);
    push_size(s, z);
    s.append("\t ");
    push_target(s, &a);
    assert(s@ =~= old(s)@ + spec_ins_one(m@, z, a));
}

/// Append an unsized mnemonic with one operand.
fn push_ins_one_ns(s: &mut String, m: &str, a: Target)
    ensures
        final(s)@ == old(s)@ + spec_ins_one_ns(m@, a),
{
    s.append(m);
    s.append("\t ");
    push_target(s, &a);
    assert(s@ =~= old(s)@ + spec_ins_one_ns(m@, a));
}

/// Append a sized mnemonic with an immediate source and an operand destination.
fn push_ins_imm_two(s: &mut String, m: &str, z: Size, imm: u32, b: Target)
    ensures
        final(s)@ == old(s)@ + spec_ins_imm_two(m@, z, imm, b),
{
    s.append(m);
    push_size(s, z);
    s.append("\t #<");
    push_dec(s, imm);
    s.append(">, ");
    push_target(s, &b);
    assert(s@ =~= old(s)@ + spec_ins_imm_two(m@, z, imm, b));
}

/// Append a sized mnemonic with an operand source and a register destination.
fn push_ins_src_reg(s: &mut String, m: &str, z: Size, a: Target, r: Registers)
    ensures
        final(s)@ == old(s)@ + spec_ins_src_reg(m@, z, a, r),
{
    s.append(m);
    push_size(s, z);
    s.append("\t ");
    push_target(s, &a);
    s.append(", ");
    push_reg(s, r);
    assert(s@ =~= old(s)@ + spec_ins_src_reg(m@, z, a, r));
}

/// Append an unsized mnemonic with an operand source and a register destination.
fn push_ins_src_reg_ns(s: &mut String, m: &str, a: Target, r: Registers)
    ensures
        final(s)@ == old(s)@ + spec_ins_src_reg_ns(m@, a, r),
{
    s.append(m);
    s.append("\t ");
    push_target(s, &a);
    s.append(", ");
    push_reg(s, r);
    assert(s@ =~= old(s)@ + spec_ins_src_reg_ns(m@, a, r));
}

/// Append a mnemonic with an immediate source and a named status destination.
fn push_ins_imm_named(s: &mut String, m: &str, imm: u32, dest: &str)
    ensures
        final(s)@ == old(s)@ + spec_ins_imm_named(m@, imm as int, dest@),
{
    s.append(m);
    s.append("\t #<");
    push_dec(s, imm);
    s.append(">, ");
    s.append(dest);
    assert(s@ =~= old(s)@ + spec_ins_imm_named(m@, imm as int, dest@));
}

/// Append a mnemonic with a bare immediate operand.
fn push_ins_imm_only(s: &mut String, m: &str, imm: u32)
    ensures
        final(s)@ == old(s)@ + spec_ins_imm_only(m@, imm as int),
{
    s.append(m);
    s.append("\t #<");
    push_dec(s, imm);
    s.append(">");
    assert(s@ =~= old(s)@ + spec_ins_imm_only(m@, imm as int));
}

/// Append a mnemonic with a single register operand.
fn push_ins_reg_only(s: &mut String, m: &str, r: Registers)
    ensures
        final(s)@ == old(s)@ + spec_ins_reg_only(m@, r),
{
    s.append(m);
    s.append("\t ");
    push_reg(s, r);
    assert(s@ =~= old(s)@ + spec_ins_reg_only(m@, r));
}

/// Append a conditional branch.
fn push_ins_branch_cond(s: &mut String, c: Condition, label: i32)
    ensures
        final(s)@ == old(s)@ + spec_ins_branch_cond(c, label),
{
    s.append("B");
    push_cond(s, c);
    s.append("\t ");
    push_dec_signed(s, label);
    assert(s@ =~= old(s)@ + spec_ins_branch_cond(c, label));
}

/// Append an unconditional branch.
fn push_ins_branch(s: &mut String, m: &str, label: i32)
    ensures
        final(s)@ == old(s)@ + spec_ins_branch(m@, label),
{
    s.append(m);
    s.append("\t ");
    push_dec_signed(s, label);
    assert(s@ =~= old(s)@ + spec_ins_branch(m@, label));
}

/// Append a decrement-and-branch.
fn push_ins_dbcc(s: &mut String, c: Condition, r: Registers, label: i16)
    ensures
        final(s)@ == old(s)@ + spec_ins_dbcc(c, r, label),
{
    s.append("DB");
    push_cond(s, c);
    s.append("\t ");
    push_reg(s, r);
    s.append(", ");
    push_dec_signed(s, label as i32);
    assert(s@ =~= old(s)@ + spec_ins_dbcc(c, r, label));
}

/// Append a conditional set.
fn push_ins_scc(s: &mut String, c: Condition, b: Target)
    ensures
        final(s)@ == old(s)@ + spec_ins_scc(c, b),
{
    s.append("S");
    push_cond(s, c);
    s.append("\t ");
    push_target(s, &b);
    assert(s@ =~= old(s)@ + spec_ins_scc(c, b));
}

/// Append a move-quick.
fn push_ins_moveq(s: &mut String, imm: u8, r: Registers)
    ensures
        final(s)@ == old(s)@ + spec_ins_moveq(imm, r),
{
    s.append("MOVEQ\t #<");
    push_dec(s, imm as u32);
    s.append(">, ");
    push_reg(s, r);
    assert(s@ =~= old(s)@ + spec_ins_moveq(imm, r));
}

/// Append a sign extension.
fn push_ins_ext(s: &mut String, r: Registers, to: Size)
    ensures
        final(s)@ == old(s)@ + spec_ins_ext(r, to),
{
    s.append("EXT");
    push_size(s, to);
    s.append("\t ");
    push_reg(s, r);
    assert(s@ =~= old(s)@ + spec_ins_ext(r, to));
}

/// Append a link.
fn push_ins_link(s: &mut String, r: Registers, disp: i32)
    ensures
        final(s)@ == old(s)@ + spec_ins_link(r, disp),
{
    s.append("LINK\t ");
    push_reg(s, r);
    s.append(", ");
    push_dec_signed(s, disp);
    assert(s@ =~= old(s)@ + spec_ins_link(r, disp));
}

/// Append a move to or from the user stack pointer.
fn push_ins_moveusp(s: &mut String, t: Target, dir: Direction)
    ensures
        final(s)@ == old(s)@ + spec_ins_moveusp(t, dir),
{
    match dir {
        Direction::RegisterToMemory => {
            s.append("MOVEUSP\t ");
            push_target(s, &t);
            s.append(", USP");
        },
        Direction::MemoryToRegister => {
            s.append("MOVEUSP\t USP, ");
            push_target(s, &t);
        },
    }
    assert(s@ =~= old(s)@ + spec_ins_moveusp(t, dir));
}

/// Append a move to or from a control register.
fn push_ins_movec(s: &mut String, t: Target, dir: Direction)
    ensures
        final(s)@ == old(s)@ + spec_ins_movec(t, dir),
{
    match dir {
        Direction::RegisterToMemory => {
            s.append("MOVEC\t ");
            push_target(s, &t);
            s.append(", VBR");
        },
        Direction::MemoryToRegister => {
            s.append("MOVEC\t VBR, ");
            push_target(s, &t);
        },
    }
    assert(s@ =~= old(s)@ + spec_ins_movec(t, dir));
}

/// Append a move-multiple.
fn push_ins_movem(s: &mut String, t: Target, z: Size, mask: i16, dir: Direction)
    ensures
        final(s)@ == old(s)@ + spec_ins_movem(t, z, mask, dir),
{
    match dir {
        Direction::RegisterToMemory => {
            s.append("MOVEM");
            push_size(s, z);
            s.append("\t #<");
            push_dec_signed(s, mask as i32);
            s.append(">, ");
            push_target(s, &t);
        },
        Direction::MemoryToRegister => {
            s.append("MOVEM");
            push_size(s, z);
            s.append("\t ");
            push_target(s, &t);
            s.append(", #<");
            push_dec_signed(s, mask as i32);
            s.append(">");
        },
    }
    assert(s@ =~= old(s)@ + spec_ins_movem(t, z, mask, dir));
}

/// Append a move-peripheral.
fn push_ins_movep(s: &mut String, dx: Registers, ay: Registers, disp: i16, z: Size, dir: Direction)
    ensures
        final(s)@ == old(s)@ + spec_ins_movep(dx, ay, disp, z, dir),
{
    match dir {
        Direction::RegisterToMemory => {
            s.append("MOVEP");
            push_size(s, z);
            s.append("\t ");
            push_reg(s, dx);
            s.append(", (");
            push_dec_signed(s, disp as i32);
            s.append(", ");
            push_reg(s, ay);
            s.append(")");
        },
        Direction::MemoryToRegister => {
            s.append("MOVEP");
            push_size(s, z);
            s.append("\t (");
            push_dec_signed(s, disp as i32);
            s.append(", ");
            push_reg(s, ay);
            s.append("), ");
            push_reg(s, dx);
        },
    }
    assert(s@ =~= old(s)@ + spec_ins_movep(dx, ay, disp, z, dir));
}

impl Instructions {
    /// Canonical disassembly text of this instruction.
    pub fn render(&self) -> (r: String)
        ensures
            r@ == spec_render_ins(*self),
    {
        let mut s = String::new();
        push_ins(&mut s, self);
        s
    }
}

/// Append the canonical text of the instruction `i`.
#[verifier::rlimit(100)]
fn push_ins(s: &mut String, i: &Instructions)
    ensures
        final(s)@ == old(s)@ + spec_render_ins(*i),
{
    match *i {
        Instructions::ABCD(src, dst) => push_ins_two_ns(s, "ABCD", src, dst),
        Instructions::ADD(src, dst, z) => push_ins_two(s, "ADD", z, src, dst),
        Instructions::ADDA(src, r, z) => push_ins_src_reg(s, "ADDA", z, src, r),
        Instructions::ADDI(imm, dst, z) => push_ins_imm_two(s, "ADDI", z, imm, dst),
        Instructions::ADDQ(imm, dst, z) => push_ins_imm_two(s, "ADDQ", z, imm, dst),
        Instructions::ADDX(src, dst, z) => push_ins_two(s, "ADDX", z, src, dst),
        Instructions::AND(src, dst, z) => push_ins_two(s, "AND", z, src, dst),
        Instructions::ANDI(imm, dst, z) => push_ins_imm_two(s, "ANDI", z, imm, dst),
        Instructions::ASL(src, dst, z) => push_ins_two(s, "ASL", z, src, dst),
        Instructions::ASR(src, dst, z) => push_ins_two(s, "ASR", z, src, dst),
        Instructions::Bcc(c, label) => push_ins_branch_cond(s, c, label),
        Instructions::BCHG(src, dst, z) => push_ins_two(s, "BCHG", z, src, dst),
        Instructions::BCLR(src, dst, z) => push_ins_two(s, "BCLR", z, src, dst),
        Instructions::BRA(label) => push_ins_branch(s, "BRA", label),
        Instructions::BSET(src, dst, z) => push_ins_two(s, "BSET", z, src, dst),
        Instructions::BSR(label) => push_ins_branch(s, "BSR", label),
        Instructions::BTST(src, dst, z) => push_ins_two(s, "BTST", z, src, dst),
        Instructions::CHK(src, r, z) => push_ins_src_reg(s, "CHK", z, src, r),
        Instructions::CLR(dst, z) => push_ins_one(s, "CLR", z, dst),
        Instructions::CMP(src, dst, z) => push_ins_two(s, "CMP", z, src, dst),
        Instructions::CMPA(src, r, z) => push_ins_src_reg(s, "CMPA", z, src, r),
        Instructions::CMPI(imm, dst, z) => push_ins_imm_two(s, "CMPI", z, imm, dst),
        Instructions::CMPM(src, dst, z) => push_ins_two(s, "CMPM", z, src, dst),
        Instructions::DBcc(c, r, label) => push_ins_dbcc(s, c, r, label),
        Instructions::DIVSW(src, r, z) => push_ins_src_reg(s, "DIVSW", z, src, r),
        Instructions::DIVUW(src, r, z) => push_ins_src_reg(s, "DIVUW", z, src, r),
        Instructions::EOR(src, dst, z) => push_ins_two(s, "EOR", z, src, dst),
        Instructions::EORtoCCR(imm) => push_ins_imm_named(s, "EORtoCCR", imm as u32, "CCR"),
        Instructions::EORtoSR(imm) => push_ins_imm_named(s, "EORtoSR", imm as u32, "SR"),
        Instructions::EORI(imm, dst, z) => push_ins_imm_two(s, "EORI", z, imm, dst),
        Instructions::EXG(src, dst) => push_ins_two_ns(s, "EXG", src, dst),
        Instructions::EXT(r, _from, to) => push_ins_ext(s, r, to),
        Instructions::ILLEGAL => s.append("ILLEGAL"),
        Instructions::JMP(dst) => push_ins_one_ns(s, "JMP", dst),
        Instructions::JSR(dst) => push_ins_one_ns(s, "JSR", dst),
        Instructions::LEA(src, r) => push_ins_src_reg_ns(s, "LEA", src, r),
        Instructions::LINK(r, disp) => push_ins_link(s, r, disp),
        Instructions::LSL(src, dst, z) => push_ins_two(s, "LSL", z, src, dst),
        Instructions::LSR(src, dst, z) => push_ins_two(s, "LSR", z, src, dst),
        Instructions::MOVE(src, dst, z) => push_ins_two(s, "MOVE", z, src, dst),
        Instructions::MOVEA(src, r, z) => push_ins_src_reg(s, "MOVEA", z, src, r),
        Instructions::MOVEfromCCR(dst) => push_ins_one_ns(s, "MOVEfromCCR", dst),
        Instructions::MOVEtoCCR(src) => push_ins_one_ns(s, "MOVEtoCCR", src),
        Instructions::MOVEfromSR(dst) => push_ins_one_ns(s, "MOVEfromSR", dst),
        Instructions::MOVEtoSR(src) => push_ins_one_ns(s, "MOVEtoSR", src),
        Instructions::MOVEUSP(t, dir) => push_ins_moveusp(s, t, dir),
        Instructions::MOVEC(t, _cr, dir) => push_ins_movec(s, t, dir),
        Instructions::MOVEM(t, z, mask, dir) => push_ins_movem(s, t, z, mask, dir),
        Instructions::MOVEP(dx, ay, disp, z, dir) => push_ins_movep(s, dx, ay, disp, z, dir),
        Instructions::MOVEQ(imm, r) => push_ins_moveq(s, imm, r),
        Instructions::MULSW(src, r) => push_ins_src_reg_ns(s, "MULSW", src, r),
        Instructions::MULUW(src, r) => push_ins_src_reg_ns(s, "MULUW", src, r),
        Instructions::NBCD(dst) => push_ins_one_ns(s, "NBCD", dst),
        Instructions::NEG(dst, z) => push_ins_one(s, "NEG", z, dst),
        Instructions::NEGX(dst, z) => push_ins_one(s, "NEGX", z, dst),
        Instructions::NOP => s.append("NOP"),
        Instructions::NOT(dst, z) => push_ins_one(s, "NOT", z, dst),
        Instructions::OR(src, dst, z) => push_ins_two(s, "OR", z, src, dst),
        Instructions::ORI(imm, dst, z) => push_ins_imm_two(s, "ORI", z, imm, dst),
        Instructions::ORItoCCR(imm) => push_ins_imm_named(s, "ORItoCCR", imm, "CCR"),
        Instructions::ORItoSR(imm) => push_ins_imm_named(s, "ORItoSR", imm, "SR"),
        Instructions::PEA(t) => push_ins_one_ns(s, "PEA", t),
        Instructions::RESET => s.append("RESET"),
        Instructions::ROL(src, dst, z) => push_ins_two(s, "ROL", z, src, dst),
        Instructions::ROR(src, dst, z) => push_ins_two(s, "ROR", z, src, dst),
        Instructions::ROXL(src, dst, z) => push_ins_two(s, "ROXL", z, src, dst),
        Instructions::ROXR(src, dst, z) => push_ins_two(s, "ROXR", z, src, dst),
        Instructions::RTD(label) => {
            s.append("RTD\t ");
            push_dec_signed(s, label as i32);
            assert(s@ =~= old(s)@ + spec_render_ins(*i));
        },
        Instructions::RTE => s.append("RTE"),
        Instructions::RTR => s.append("RTR"),
        Instructions::RTS => s.append("RTS"),
        Instructions::SBCD(src, dst) => push_ins_two_ns(s, "SBCD", src, dst),
        Instructions::Scc(c, dst) => push_ins_scc(s, c, dst),
        Instructions::STOP(imm) => push_ins_imm_only(s, "STOP", imm as u32),
        Instructions::SUB(src, dst, z) => push_ins_two(s, "SUB", z, src, dst),
        Instructions::SUBA(src, r, z) => push_ins_src_reg(s, "SUBA", z, src, r),
        Instructions::SUBI(imm, dst, z) => push_ins_imm_two(s, "SUBI", z, imm, dst),
        Instructions::SUBQ(imm, dst, z) => push_ins_imm_two(s, "SUBQ", z, imm, dst),
        Instructions::SUBX(src, dst, z) => push_ins_two(s, "SUBX", z, src, dst),
        Instructions::SWAP(r) => push_ins_reg_only(s, "SWAP", r),
        Instructions::TAS(dst) => push_ins_one_ns(s, "TAS", dst),
        Instructions::TRAP(v) => push_ins_imm_only(s, "TRAP", v as u32),
        Instructions::TRAPV => s.append("TRAPV"),
        Instructions::TST(dst, z) => push_ins_one(s, "TST", z, dst),
        Instructions::UNLK(r) => push_ins_reg_only(s, "UNLK", r),
        Instructions::NotImplemented => s.append("Instruction not implemented!"),
    }
}

} // verus!
