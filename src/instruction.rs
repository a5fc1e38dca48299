use crate::regs::{Reg16, Reg8};
use vstd::prelude::*;

verus! {

/// An 8-bit location an instruction reads and writes: a register, or the byte at (HL).
#[derive(Debug, Clone, Copy, PartialEq, Eq, Structural)]
pub enum Var8 {
    Reg(Reg8),
    MemHl,
}

/// An 8-bit source operand: a location, or the byte following the opcode.
#[derive(Debug, Clone, Copy, PartialEq, Eq, Structural)]
pub enum Operand8 {
    Imm,
    Var(Var8),
}

/// A branch condition on the carry or zero flag.
#[derive(Debug, Clone, Copy, PartialEq, Eq, Structural)]
pub enum Test {
    C,
    Z,
    Nc,
    Nz,
}

/// Whether a load through (HL) increments or decrements HL afterwards.
#[derive(Debug, Clone, Copy, PartialEq, Eq, Structural)]
pub enum HlIncDec {
    Inc,
    Dec,
}

#[derive(Debug, Clone, Copy, PartialEq, Eq, Structural)]
pub enum Instruction {
    Nop,
    Ld(Var8, Operand8),
    LdMemRegA(Reg16),
    LdAMemReg(Reg16),
    LdMem16A,
    LdAMem16,
    LdhMemA,
    LdhAMem,
    LdhMemCA,
    LdhAMemC,
    LdIncDecA(HlIncDec),
    LdAIncDec(HlIncDec),
    Ld16(Reg16),
    LdMemSp,
    LdHlSpInc,
    LdSpHl,
    Pop(Reg16),
    Push(Reg16),
    Bit(u8, Var8),
    Dec(Var8),
    Inc(Var8),
    Res(u8, Var8),
    Rla,
    Rl(Var8),
    Rlca,
    Rlc(Var8),
    Rra,
    Rr(Var8),
    Rrca,
    Rrc(Var8),
    SetBit(u8, Var8),
    Sla(Var8),
    Sra(Var8),
    Srl(Var8),
    Swap(Var8),
    Adc(Operand8),
    Add(Operand8),
    And(Operand8),
    Cp(Operand8),
    Or(Operand8),
    Sbc(Operand8),
    Sub(Operand8),
    Xor(Operand8),
    Cpl,
    Daa,
    AddHl(Reg16),
    AddSp,
    Dec16(Reg16),
    Inc16(Reg16),
    Ccf,
    Scf,
    Call(Option<Test>),
    Jp(Option<Test>),
    JpHl,
    Jr(Option<Test>),
    Rst(u8),
    Ret(Option<Test>),
    Reti,
    Di,
    Ei,
    Halt,
    Stop,
    Illegal,
}

/// A decoded opcode: the operation, its cost in machine cycles, and for a
/// conditional branch the cost when the branch is not taken.
#[derive(Debug, Clone, Copy, PartialEq, Eq, Structural)]
pub struct InstructionEntry {
    pub instruction: Instruction,
    pub cycles: usize,
    pub branch_cycles: usize,
}

/// The prefix byte that selects the extended opcode table.
pub const PREFIX_OPCODE: u8 = 0xcb;

pub open spec fn is_conditional(i: Instruction) -> bool {
    match i {
        Instruction::Call(Some(_)) | Instruction::Jp(Some(_)) | Instruction::Jr(Some(_))
        | Instruction::Ret(Some(_)) => true,
        _ => false,
    }
}

/// An entry the CPU can run: every instruction takes at least one cycle,
/// also when a conditional branch is not taken.
pub open spec fn entry_wf(e: InstructionEntry) -> bool {
    &&& e.cycles >= 1
    &&& is_conditional(e.instruction) ==> e.branch_cycles >= 1
}

/// Whether a bit operation names a bit of a byte.
pub open spec fn bit_args_ok(i: Instruction) -> bool {
    match i {
        Instruction::Bit(b, _) | Instruction::Res(b, _) | Instruction::SetBit(b, _) => b < 8,
        _ => true,
    }
}

/// The location named by a 3-bit operand field: B, C, D, E, H, L, (HL), A.
pub open spec fn spec_var8(bits: u8) -> Var8 {
    let i = bits % 8;
    if i == 0 {
        Var8::Reg(Reg8::B)
    } else if i == 1 {
        Var8::Reg(Reg8::C)
    } else if i == 2 {
        Var8::Reg(Reg8::D)
    } else if i == 3 {
        Var8::Reg(Reg8::E)
    } else if i == 4 {
        Var8::Reg(Reg8::H)
    } else if i == 5 {
        Var8::Reg(Reg8::L)
    } else if i == 6 {
        Var8::MemHl
    } else {
        Var8::Reg(Reg8::A)
    }
}

/// The 8-bit arithmetic/logic operation selected by a 3-bit field.
pub open spec fn spec_alu_op(group: u8, src: Operand8) -> Instruction {
    let g = group % 8;
    if g == 0 {
        Instruction::Add(src)
    } else if g == 1 {
        Instruction::Adc(src)
    } else if g == 2 {
        Instruction::Sub(src)
    } else if g == 3 {
        Instruction::Sbc(src)
    } else if g == 4 {
        Instruction::And(src)
    } else if g == 5 {
        Instruction::Xor(src)
    } else if g == 6 {
        Instruction::Or(src)
    } else {
        Instruction::Cp(src)
    }
}

/// The opcodes of the conditional jumps, calls and returns.
pub open spec fn is_conditional_opcode(op: u8) -> bool {
    op == 0x20 || op == 0x28 || op == 0x30 || op == 0x38 || op == 0xc0 || op == 0xc2 || op == 0xc4
        || op == 0xc8 || op == 0xca || op == 0xcc || op == 0xd0 || op == 0xd2 || op == 0xd4 || op == 0xd8
        || op == 0xda || op == 0xdc
}

/// The opcodes that the CPU does not define.
pub open spec fn is_undefined_opcode(op: u8) -> bool {
    op == 0xcb || op == 0xd3 || op == 0xdb || op == 0xdd || op == 0xe3 || op == 0xe4 || op == 0xeb
        || op == 0xec || op == 0xed || op == 0xf4 || op == 0xfc || op == 0xfd
}

impl Var8 {
    pub fn from_bits(bits: u8) -> (r: Var8)
        ensures
            r == spec_var8(bits),
    {
        match bits % 8 {
            6 => Var8::MemHl,
            7 => Var8::Reg(Reg8::A),
            _ => Var8::Reg(Reg8::from_bits(bits)),
        }
    }
}

impl Operand8 {
    pub fn new_reg(reg: Reg8) -> (r: Operand8)
        ensures
            r == Operand8::Var(Var8::Reg(reg)),
    {
        Operand8::Var(Var8::Reg(reg))
    }

    pub fn new_mem() -> (r: Operand8)
        ensures
            r == Operand8::Var(Var8::MemHl),
    {
        Operand8::Var(Var8::MemHl)
    }
}

pub fn new(instruction: Instruction, cycles: usize) -> (r: InstructionEntry)
    ensures
        r == (InstructionEntry { instruction, cycles, branch_cycles: 0 }),
{
    InstructionEntry { instruction, cycles, branch_cycles: 0 }
}

fn branch(instruction: Instruction, cycles: usize, branch_cycles: usize) -> (r: InstructionEntry)
    ensures
        r == (InstructionEntry { instruction, cycles, branch_cycles }),
{
    InstructionEntry { instruction, cycles, branch_cycles }
}

fn alu_op(group: u8, src: Operand8) -> (r: Instruction)
    ensures
        r == spec_alu_op(group, src),
{
    match group % 8 {
        0 => Instruction::Add(src),
        1 => Instruction::Adc(src),
        2 => Instruction::Sub(src),
        3 => Instruction::Sbc(src),
        4 => Instruction::And(src),
        5 => Instruction::Xor(src),
        6 => Instruction::Or(src),
        _ => Instruction::Cp(src),
    }
}

/// An entry with the given cost and not-taken cost.
pub open spec fn spec_entry(instruction: Instruction, cycles: usize, branch_cycles: usize) -> InstructionEntry {
    InstructionEntry { instruction, cycles, branch_cycles }
}

/// The main opcode table: the operation and costs of every opcode.
pub open spec fn spec_opcode_entry(opcode: u8) -> InstructionEntry {
    if 0x40 <= opcode < 0x80 {
        if opcode == 0x76 {
            spec_entry(Instruction::Halt, 1, 0)
        } else {
            let dst = spec_var8(opcode / 8);
            let src = spec_var8(opcode);
            spec_entry(Instruction::Ld(dst, Operand8::Var(src)), if dst == Var8::MemHl || src == Var8::MemHl { 2 } else { 1 }, 0)
        }
    } else if 0x80 <= opcode < 0xc0 {
        let src = spec_var8(opcode);
        spec_entry(spec_alu_op(opcode / 8, Operand8::Var(src)), if src == Var8::MemHl { 2 } else { 1 }, 0)
    } else if opcode >= 0xc0 && opcode % 8 == 6 {
        spec_entry(spec_alu_op(opcode / 8, Operand8::Imm), 2, 0)
    } else if opcode >= 0xc0 && opcode % 8 == 7 {
        spec_entry(Instruction::Rst((opcode - 0xc7) as u8), 4, 0)
    } else if opcode < 0x40 && opcode % 8 == 4 {
        let var = spec_var8(opcode / 8);
        spec_entry(Instruction::Inc(var), if var == Var8::MemHl { 3 } else { 1 }, 0)
    } else if opcode < 0x40 && opcode % 8 == 5 {
        let var = spec_var8(opcode / 8);
        spec_entry(Instruction::Dec(var), if var == Var8::MemHl { 3 } else { 1 }, 0)
    } else if opcode < 0x40 && opcode % 8 == 6 {
        let var = spec_var8(opcode / 8);
        spec_entry(Instruction::Ld(var, Operand8::Imm), if var == Var8::MemHl { 3 } else { 2 }, 0)
    } else {
        match opcode {
            0x00 => spec_entry(Instruction::Nop, 1, 0),
            0x01 => spec_entry(Instruction::Ld16(Reg16::BC), 3, 0),
            0x02 => spec_entry(Instruction::LdMemRegA(Reg16::BC), 2, 0),
            0x03 => spec_entry(Instruction::Inc16(Reg16::BC), 2, 0),
            0x07 => spec_entry(Instruction::Rlca, 1, 0),
            0x08 => spec_entry(Instruction::LdMemSp, 5, 0),
            0x09 => spec_entry(Instruction::AddHl(Reg16::BC), 2, 0),
            0x0a => spec_entry(Instruction::LdAMemReg(Reg16::BC), 2, 0),
            0x0b => spec_entry(Instruction::Dec16(Reg16::BC), 2, 0),
            0x0f => spec_entry(Instruction::Rrca, 1, 0),
            0x10 => spec_entry(Instruction::Stop, 1, 0),
            0x11 => spec_entry(Instruction::Ld16(Reg16::DE), 3, 0),
            0x12 => spec_entry(Instruction::LdMemRegA(Reg16::DE), 2, 0),
            0x13 => spec_entry(Instruction::Inc16(Reg16::DE), 2, 0),
            0x17 => spec_entry(Instruction::Rla, 1, 0),
            0x18 => spec_entry(Instruction::Jr(None), 3, 0),
            0x19 => spec_entry(Instruction::AddHl(Reg16::DE), 2, 0),
            0x1a => spec_entry(Instruction::LdAMemReg(Reg16::DE), 2, 0),
            0x1b => spec_entry(Instruction::Dec16(Reg16::DE), 2, 0),
            0x1f => spec_entry(Instruction::Rra, 1, 0),
            0x20 => spec_entry(Instruction::Jr(Some(Test::Nz)), 3, 2),
            0x21 => spec_entry(Instruction::Ld16(Reg16::HL), 3, 0),
            0x22 => spec_entry(Instruction::LdIncDecA(HlIncDec::Inc), 2, 0),
            0x23 => spec_entry(Instruction::Inc16(Reg16::HL), 2, 0),
            0x27 => spec_entry(Instruction::Daa, 1, 0),
            0x28 => spec_entry(Instruction::Jr(Some(Test::Z)), 3, 2),
            0x29 => spec_entry(Instruction::AddHl(Reg16::HL), 2, 0),
            0x2a => spec_entry(Instruction::LdAIncDec(HlIncDec::Inc), 2, 0),
            0x2b => spec_entry(Instruction::Dec16(Reg16::HL), 2, 0),
            0x2f => spec_entry(Instruction::Cpl, 1, 0),
            0x30 => spec_entry(Instruction::Jr(Some(Test::Nc)), 3, 2),
            0x31 => spec_entry(Instruction::Ld16(Reg16::SP), 3, 0),
            0x32 => spec_entry(Instruction::LdIncDecA(HlIncDec::Dec), 2, 0),
            0x33 => spec_entry(Instruction::Inc16(Reg16::SP), 2, 0),
            0x37 => spec_entry(Instruction::Scf, 1, 0),
            0x38 => spec_entry(Instruction::Jr(Some(Test::C)), 3, 2),
            0x39 => spec_entry(Instruction::AddHl(Reg16::SP), 2, 0),
            0x3a => spec_entry(Instruction::LdAIncDec(HlIncDec::Dec), 2, 0),
            0x3b => spec_entry(Instruction::Dec16(Reg16::SP), 2, 0),
            0x3f => spec_entry(Instruction::Ccf, 1, 0),
            0xc0 => spec_entry(Instruction::Ret(Some(Test::Nz)), 5, 2),
            0xc1 => spec_entry(Instruction::Pop(Reg16::BC), 3, 0),
            0xc2 => spec_entry(Instruction::Jp(Some(Test::Nz)), 4, 3),
            0xc3 => spec_entry(Instruction::Jp(None), 4, 0),
            0xc4 => spec_entry(Instruction::Call(Some(Test::Nz)), 6, 3),
            0xc5 => spec_entry(Instruction::Push(Reg16::BC), 4, 0),
            0xc8 => spec_entry(Instruction::Ret(Some(Test::Z)), 5, 2),
            0xc9 => spec_entry(Instruction::Ret(None), 4, 0),
            0xca => spec_entry(Instruction::Jp(Some(Test::Z)), 4, 3),
            0xcc => spec_entry(Instruction::Call(Some(Test::Z)), 6, 3),
            0xcd => spec_entry(Instruction::Call(None), 6, 0),
            0xd0 => spec_entry(Instruction::Ret(Some(Test::Nc)), 5, 2),
            0xd1 => spec_entry(Instruction::Pop(Reg16::DE), 3, 0),
            0xd2 => spec_entry(Instruction::Jp(Some(Test::Nc)), 4, 3),
            0xd4 => spec_entry(Instruction::Call(Some(Test::Nc)), 6, 3),
            0xd5 => spec_entry(Instruction::Push(Reg16::DE), 4, 0),
            0xd8 => spec_entry(Instruction::Ret(Some(Test::C)), 5, 2),
            0xd9 => spec_entry(Instruction::Reti, 4, 0),
            0xda => spec_entry(Instruction::Jp(Some(Test::C)), 4, 3),
            0xdc => spec_entry(Instruction::Call(Some(Test::C)), 6, 3),
            0xe0 => spec_entry(Instruction::LdhMemA, 3, 0),
            0xe1 => spec_entry(Instruction::Pop(Reg16::HL), 3, 0),
            0xe2 => spec_entry(Instruction::LdhMemCA, 2, 0),
            0xe5 => spec_entry(Instruction::Push(Reg16::HL), 4, 0),
            0xe8 => spec_entry(Instruction::AddSp, 4, 0),
            0xe9 => spec_entry(Instruction::JpHl, 1, 0),
            0xea => spec_entry(Instruction::LdMem16A, 4, 0),
            0xf0 => spec_entry(Instruction::LdhAMem, 3, 0),
            0xf1 => spec_entry(Instruction::Pop(Reg16::AF), 3, 0),
            0xf2 => spec_entry(Instruction::LdhAMemC, 2, 0),
            0xf3 => spec_entry(Instruction::Di, 1, 0),
            0xf5 => spec_entry(Instruction::Push(Reg16::AF), 4, 0),
            0xf8 => spec_entry(Instruction::LdHlSpInc, 3, 0),
            0xf9 => spec_entry(Instruction::LdSpHl, 2, 0),
            0xfa => spec_entry(Instruction::LdAMem16, 4, 0),
            0xfb => spec_entry(Instruction::Ei, 1, 0),
            _ => spec_entry(Instruction::Illegal, 1, 0),
        }
    }
}

/// The extended opcode table (after the prefix byte).
pub open spec fn spec_prefix_entry(opcode: u8) -> InstructionEntry {
    let var = spec_var8(opcode);
    let bit = (opcode / 8 % 8) as u8;
    let instruction = if opcode < 0x08 {
        Instruction::Rlc(var)
    } else if opcode < 0x10 {
        Instruction::Rrc(var)
    } else if opcode < 0x18 {
        Instruction::Rl(var)
    } else if opcode < 0x20 {
        Instruction::Rr(var)
    } else if opcode < 0x28 {
        Instruction::Sla(var)
    } else if opcode < 0x30 {
        Instruction::Sra(var)
    } else if opcode < 0x38 {
        Instruction::Swap(var)
    } else if opcode < 0x40 {
        Instruction::Srl(var)
    } else if opcode < 0x80 {
        Instruction::Bit(bit, var)
    } else if opcode < 0xc0 {
        Instruction::Res(bit, var)
    } else {
        Instruction::SetBit(bit, var)
    };
    spec_entry(
        instruction,
        if var != Var8::MemHl { 2 } else if 0x40 <= opcode < 0x80 { 3 } else { 4 },
        0,
    )
}

/// Decodes an opcode of the extended table (after the prefix byte). The low three
/// bits name the location; the upper bits the rotate/shift kind or the bit operation
/// and its bit number.
pub fn entry_for_prefix_opcode(opcode: u8) -> (r: InstructionEntry)
    ensures
        r == spec_prefix_entry(opcode),
        entry_wf(r),
        bit_args_ok(r.instruction),
        r.branch_cycles == 0,
        opcode < 0x08 ==> r.instruction == Instruction::Rlc(spec_var8(opcode)),
        0x08 <= opcode < 0x10 ==> r.instruction == Instruction::Rrc(spec_var8(opcode)),
        0x10 <= opcode < 0x18 ==> r.instruction == Instruction::Rl(spec_var8(opcode)),
        0x18 <= opcode < 0x20 ==> r.instruction == Instruction::Rr(spec_var8(opcode)),
        0x20 <= opcode < 0x28 ==> r.instruction == Instruction::Sla(spec_var8(opcode)),
        0x28 <= opcode < 0x30 ==> r.instruction == Instruction::Sra(spec_var8(opcode)),
        0x30 <= opcode < 0x38 ==> r.instruction == Instruction::Swap(spec_var8(opcode)),
        0x38 <= opcode < 0x40 ==> r.instruction == Instruction::Srl(spec_var8(opcode)),
        0x40 <= opcode < 0x80 ==> r.instruction == Instruction::Bit(
            (opcode / 8 % 8) as u8,
            spec_var8(opcode),
        ),
        0x80 <= opcode < 0xc0 ==> r.instruction == Instruction::Res(
            (opcode / 8 % 8) as u8,
            spec_var8(opcode),
        ),
        0xc0 <= opcode ==> r.instruction == Instruction::SetBit((opcode / 8 % 8) as u8, spec_var8(opcode)),
        r.cycles == (if spec_var8(opcode) != Var8::MemHl {
            2usize
        } else if 0x40 <= opcode < 0x80 {
            3usize
        } else {
            4usize
        }),
{
    let var = Var8::from_bits(opcode);
    let bit = opcode / 8 % 8;
    let instruction = if opcode < 0x08 {
        Instruction::Rlc(var)
    } else if opcode < 0x10 {
        Instruction::Rrc(var)
    } else if opcode < 0x18 {
        Instruction::Rl(var)
    } else if opcode < 0x20 {
        Instruction::Rr(var)
    } else if opcode < 0x28 {
        Instruction::Sla(var)
    } else if opcode < 0x30 {
        Instruction::Sra(var)
    } else if opcode < 0x38 {
        Instruction::Swap(var)
    } else if opcode < 0x40 {
        Instruction::Srl(var)
    } else if opcode < 0x80 {
        Instruction::Bit(bit, var)
    } else if opcode < 0xc0 {
        Instruction::Res(bit, var)
    } else {
        Instruction::SetBit(bit, var)
    };
    let cycles = match (var, instruction) {
        (Var8::MemHl, Instruction::Bit(..)) => 3,
        (Var8::MemHl, _) => 4,
        _ => 2,
    };
    new(instruction, cycles)
}

/// Decodes an opcode of the main table.
pub fn entry_for_opcode(opcode: u8) -> (r: InstructionEntry)
    ensures
        r == spec_opcode_entry(opcode),
        entry_wf(r),
        bit_args_ok(r.instruction),
        0x40 <= opcode < 0x80 && opcode != 0x76 ==> r.instruction == Instruction::Ld(
            spec_var8(opcode / 8),
            Operand8::Var(spec_var8(opcode)),
        ),
        opcode == 0x76 ==> r.instruction == Instruction::Halt,
        0x40 <= opcode < 0x80 && opcode != 0x76 ==> r.cycles == if spec_var8(opcode / 8) == Var8::MemHl
            || spec_var8(opcode) == Var8::MemHl {
            2usize
        } else {
            1usize
        },
        0x80 <= opcode < 0xc0 ==> r.instruction == spec_alu_op(
            opcode / 8,
            Operand8::Var(spec_var8(opcode)),
        ),
        0x80 <= opcode < 0xc0 ==> r.cycles == if spec_var8(opcode) == Var8::MemHl { 2usize } else { 1usize },
        0xc0 <= opcode && opcode % 8 == 6 ==> r.instruction == spec_alu_op(opcode / 8, Operand8::Imm),
        0xc0 <= opcode && opcode % 8 == 7 ==> r.instruction == Instruction::Rst(
            (opcode - 0xc7) as u8,
        ),
        opcode < 0x40 && opcode % 8 == 4 ==> r.instruction == Instruction::Inc(spec_var8(opcode / 8)),
        opcode < 0x40 && opcode % 8 == 5 ==> r.instruction == Instruction::Dec(spec_var8(opcode / 8)),
        opcode < 0x40 && opcode % 8 == 6 ==> r.instruction == Instruction::Ld(
            spec_var8(opcode / 8),
            Operand8::Imm,
        ),
        is_undefined_opcode(opcode) <==> r.instruction == Instruction::Illegal,
        (r.instruction == Instruction::Stop) <==> opcode == 0x10,
        (r.instruction == Instruction::Ei) <==> opcode == 0xfb,
        (r.instruction == Instruction::Di) <==> opcode == 0xf3,
        (r.instruction == Instruction::Reti) <==> opcode == 0xd9,
        is_conditional(r.instruction) <==> is_conditional_opcode(opcode),
        is_conditional(r.instruction) ==> 0 < r.branch_cycles < r.cycles,
        !is_conditional(r.instruction) ==> r.branch_cycles == 0,
{
    if 0x40 <= opcode && opcode < 0x80 {
        if opcode == 0x76 {
            return new(Instruction::Halt, 1);
        }
        let dst = Var8::from_bits(opcode / 8);
        let src = Var8::from_bits(opcode);
        let cycles = if dst == Var8::MemHl || src == Var8::MemHl { 2 } else { 1 };
        return new(Instruction::Ld(dst, Operand8::Var(src)), cycles);
    }
    if 0x80 <= opcode && opcode < 0xc0 {
        let src = Var8::from_bits(opcode);
        let cycles = if src == Var8::MemHl { 2 } else { 1 };
        return new(alu_op(opcode / 8, Operand8::Var(src)), cycles);
    }
    if opcode >= 0xc0 && opcode % 8 == 6 {
        return new(alu_op(opcode / 8, Operand8::Imm), 2);
    }
    if opcode >= 0xc0 && opcode % 8 == 7 {
        return new(Instruction::Rst(opcode - 0xc7), 4);
    }
    if opcode < 0x40 && opcode % 8 >= 4 && opcode % 8 <= 6 {
        let var = Var8::from_bits(opcode / 8);
        let mem = var == Var8::MemHl;
        return match opcode % 8 {
            4 => new(Instruction::Inc(var), if mem { 3 } else { 1 }),
            5 => new(Instruction::Dec(var), if mem { 3 } else { 1 }),
            _ => new(Instruction::Ld(var, Operand8::Imm), if mem { 3 } else { 2 }),
        };
    }
    match opcode {
        0x00 => new(Instruction::Nop, 1),
        0x01 => new(Instruction::Ld16(Reg16::BC), 3),
        0x02 => new(Instruction::LdMemRegA(Reg16::BC), 2),
        0x03 => new(Instruction::Inc16(Reg16::BC), 2),
        0x07 => new(Instruction::Rlca, 1),
        0x08 => new(Instruction::LdMemSp, 5),
        0x09 => new(Instruction::AddHl(Reg16::BC), 2),
        0x0a => new(Instruction::LdAMemReg(Reg16::BC), 2),
        0x0b => new(Instruction::Dec16(Reg16::BC), 2),
        0x0f => new(Instruction::Rrca, 1),
        0x10 => new(Instruction::Stop, 1),
        0x11 => new(Instruction::Ld16(Reg16::DE), 3),
        0x12 => new(Instruction::LdMemRegA(Reg16::DE), 2),
        0x13 => new(Instruction::Inc16(Reg16::DE), 2),
        0x17 => new(Instruction::Rla, 1),
        0x18 => new(Instruction::Jr(None), 3),
        0x19 => new(Instruction::AddHl(Reg16::DE), 2),
        0x1a => new(Instruction::LdAMemReg(Reg16::DE), 2),
        0x1b => new(Instruction::Dec16(Reg16::DE), 2),
        0x1f => new(Instruction::Rra, 1),
        0x20 => branch(Instruction::Jr(Some(Test::Nz)), 3, 2),
        0x21 => new(Instruction::Ld16(Reg16::HL), 3),
        0x22 => new(Instruction::LdIncDecA(HlIncDec::Inc), 2),
        0x23 => new(Instruction::Inc16(Reg16::HL), 2),
        0x27 => new(Instruction::Daa, 1),
        0x28 => branch(Instruction::Jr(Some(Test::Z)), 3, 2),
        0x29 => new(Instruction::AddHl(Reg16::HL), 2),
        0x2a => new(Instruction::LdAIncDec(HlIncDec::Inc), 2),
        0x2b => new(Instruction::Dec16(Reg16::HL), 2),
        0x2f => new(Instruction::Cpl, 1),
        0x30 => branch(Instruction::Jr(Some(Test::Nc)), 3, 2),
        0x31 => new(Instruction::Ld16(Reg16::SP), 3),
        0x32 => new(Instruction::LdIncDecA(HlIncDec::Dec), 2),
        0x33 => new(Instruction::Inc16(Reg16::SP), 2),
        0x37 => new(Instruction::Scf, 1),
        0x38 => branch(Instruction::Jr(Some(Test::C)), 3, 2),
        0x39 => new(Instruction::AddHl(Reg16::SP), 2),
        0x3a => new(Instruction::LdAIncDec(HlIncDec::Dec), 2),
        0x3b => new(Instruction::Dec16(Reg16::SP), 2),
        0x3f => new(Instruction::Ccf, 1),
        0xc0 => branch(Instruction::Ret(Some(Test::Nz)), 5, 2),
        0xc1 => new(Instruction::Pop(Reg16::BC), 3),
        0xc2 => branch(Instruction::Jp(Some(Test::Nz)), 4, 3),
        0xc3 => new(Instruction::Jp(None), 4),
        0xc4 => branch(Instruction::Call(Some(Test::Nz)), 6, 3),
        0xc5 => new(Instruction::Push(Reg16::BC), 4),
        0xc8 => branch(Instruction::Ret(Some(Test::Z)), 5, 2),
        0xc9 => new(Instruction::Ret(None), 4),
        0xca => branch(Instruction::Jp(Some(Test::Z)), 4, 3),
        0xcc => branch(Instruction::Call(Some(Test::Z)), 6, 3),
        0xcd => new(Instruction::Call(None), 6),
        0xd0 => branch(Instruction::Ret(Some(Test::Nc)), 5, 2),
        0xd1 => new(Instruction::Pop(Reg16::DE), 3),
        0xd2 => branch(Instruction::Jp(Some(Test::Nc)), 4, 3),
        0xd4 => branch(Instruction::Call(Some(Test::Nc)), 6, 3),
        0xd5 => new(Instruction::Push(Reg16::DE), 4),
        0xd8 => branch(Instruction::Ret(Some(Test::C)), 5, 2),
        0xd9 => new(Instruction::Reti, 4),
        0xda => branch(Instruction::Jp(Some(Test::C)), 4, 3),
        0xdc => branch(Instruction::Call(Some(Test::C)), 6, 3),
        0xe0 => new(Instruction::LdhMemA, 3),
        0xe1 => new(Instruction::Pop(Reg16::HL), 3),
        0xe2 => new(Instruction::LdhMemCA, 2),
        0xe5 => new(Instruction::Push(Reg16::HL), 4),
        0xe8 => new(Instruction::AddSp, 4),
        0xe9 => new(Instruction::JpHl, 1),
        0xea => new(Instruction::LdMem16A, 4),
        0xf0 => new(Instruction::LdhAMem, 3),
        0xf1 => new(Instruction::Pop(Reg16::AF), 3),
        0xf2 => new(Instruction::LdhAMemC, 2),
        0xf3 => new(Instruction::Di, 1),
        0xf5 => new(Instruction::Push(Reg16::AF), 4),
        0xf8 => new(Instruction::LdHlSpInc, 3),
        0xf9 => new(Instruction::LdSpHl, 2),
        0xfa => new(Instruction::LdAMem16, 4),
        0xfb => new(Instruction::Ei, 1),
        _ => new(Instruction::Illegal, 1),
    }
}

} // verus!
