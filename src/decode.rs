//! The opcode table: which words are instructions of this core, and which.
use vstd::prelude::*;
use crate::instruction::{
    funct10,
    funct10_of,
    funct3,
    funct3_of,
    funct7,
    funct7_of,
    imm_b,
    imm_b_of,
    imm_i,
    imm_i_of,
    imm_j,
    imm_j_of,
    imm_s,
    imm_s_of,
    imm_u,
    imm_u_of,
    opcode,
    opcode_of,
    rd,
    rd_of,
    rs1,
    rs1_of,
    rs2,
    rs2_of,
};

verus! {

pub const OP: u32 = 0b01100;
pub const OP_IMM: u32 = 0b00100;
pub const LUI: u32 = 0b01101;
pub const AUIPC: u32 = 0b00101;
pub const JAL: u32 = 0b11011;
pub const JALR: u32 = 0b11001;
pub const BRANCH: u32 = 0b11000;
pub const LOAD: u32 = 0b00000;
pub const STORE: u32 = 0b01000;
pub const MISC_MEM: u32 = 0b00011;
pub const SYSTEM: u32 = 0b11100;

/// funct7 of the alternate forms (subtract, arithmetic right shift).
pub const FUNCT7_ALT: u32 = 0b0100000;

#[derive(Clone, Copy, Debug, PartialEq, Eq, Structural)]
pub enum AluOp {
    Add,
    Sub,
    Sll,
    Slt,
    Sltu,
    Xor,
    Srl,
    Sra,
    Or,
    And,
    Mul,
    Mulh,
    Mulhu,
    Div,
    Divu,
    Rem,
    Remu,
}

#[derive(Clone, Copy, Debug, PartialEq, Eq, Structural)]
pub enum BranchCond {
    Eq,
    Ne,
    Lt,
    Ge,
    Ltu,
    Geu,
}

#[derive(Clone, Copy, Debug, PartialEq, Eq, Structural)]
pub enum LoadKind {
    Byte,
    Half,
    Word,
    ByteUnsigned,
    HalfUnsigned,
}

#[derive(Clone, Copy, Debug, PartialEq, Eq, Structural)]
pub enum StoreKind {
    Byte,
    Half,
    Word,
}

/// A decoded instruction: register indices are below 32.
#[derive(Clone, Copy, Debug, PartialEq, Eq, Structural)]
pub enum Instr {
    Op { op: AluOp, rd: usize, rs1: usize, rs2: usize },
    OpImm { op: AluOp, rd: usize, rs1: usize, imm: i32 },
    Lui { rd: usize, imm: i32 },
    Auipc { rd: usize, imm: i32 },
    Jal { rd: usize, imm: i32 },
    Jalr { rd: usize, rs1: usize, imm: i32 },
    Branch { cond: BranchCond, rs1: usize, rs2: usize, imm: i32 },
    Load { width: LoadKind, rd: usize, rs1: usize, imm: i32 },
    Store { size: StoreKind, rs1: usize, rs2: usize, imm: i32 },
    Fence,
}

/// The register-register operation selected by a combined function code.
pub open spec fn op_of_funct10(f: u32) -> Option<AluOp> {
    if f == 0b000 {
        Some(AluOp::Add)
    } else if f == 0b0100000000 {
        Some(AluOp::Sub)
    } else if f == 0b001 {
        Some(AluOp::Sll)
    } else if f == 0b010 {
        Some(AluOp::Slt)
    } else if f == 0b011 {
        Some(AluOp::Sltu)
    } else if f == 0b100 {
        Some(AluOp::Xor)
    } else if f == 0b101 {
        Some(AluOp::Srl)
    } else if f == 0b0100000101 {
        Some(AluOp::Sra)
    } else if f == 0b110 {
        Some(AluOp::Or)
    } else if f == 0b111 {
        Some(AluOp::And)
    } else if f == 0b0000001000 {
        Some(AluOp::Mul)
    } else if f == 0b0000001001 {
        Some(AluOp::Mulh)
    } else if f == 0b0000001011 {
        Some(AluOp::Mulhu)
    } else if f == 0b0000001100 {
        Some(AluOp::Div)
    } else if f == 0b0000001101 {
        Some(AluOp::Divu)
    } else if f == 0b0000001110 {
        Some(AluOp::Rem)
    } else if f == 0b0000001111 {
        Some(AluOp::Remu)
    } else {
        None
    }
}

/// The register-immediate operation: funct3 selects it, and funct7 (the top
/// of the immediate) only for the two right shifts and the left shift.
pub open spec fn imm_op_of(f3: u32, f7: u32) -> Option<AluOp> {
    if f3 == 0b000 {
        Some(AluOp::Add)
    } else if f3 == 0b001 {
        if f7 == 0 {
            Some(AluOp::Sll)
        } else {
            None
        }
    } else if f3 == 0b010 {
        Some(AluOp::Slt)
    } else if f3 == 0b011 {
        Some(AluOp::Sltu)
    } else if f3 == 0b100 {
        Some(AluOp::Xor)
    } else if f3 == 0b101 {
        if f7 == 0 {
            Some(AluOp::Srl)
        } else if f7 == FUNCT7_ALT {
            Some(AluOp::Sra)
        } else {
            None
        }
    } else if f3 == 0b110 {
        Some(AluOp::Or)
    } else if f3 == 0b111 {
        Some(AluOp::And)
    } else {
        None
    }
}

pub open spec fn branch_of(f3: u32) -> Option<BranchCond> {
    if f3 == 0b000 {
        Some(BranchCond::Eq)
    } else if f3 == 0b001 {
        Some(BranchCond::Ne)
    } else if f3 == 0b100 {
        Some(BranchCond::Lt)
    } else if f3 == 0b101 {
        Some(BranchCond::Ge)
    } else if f3 == 0b110 {
        Some(BranchCond::Ltu)
    } else if f3 == 0b111 {
        Some(BranchCond::Geu)
    } else {
        None
    }
}

pub open spec fn load_of(f3: u32) -> Option<LoadKind> {
    if f3 == 0b000 {
        Some(LoadKind::Byte)
    } else if f3 == 0b001 {
        Some(LoadKind::Half)
    } else if f3 == 0b010 {
        Some(LoadKind::Word)
    } else if f3 == 0b100 {
        Some(LoadKind::ByteUnsigned)
    } else if f3 == 0b101 {
        Some(LoadKind::HalfUnsigned)
    } else {
        None
    }
}

pub open spec fn store_of(f3: u32) -> Option<StoreKind> {
    if f3 == 0b000 {
        Some(StoreKind::Byte)
    } else if f3 == 0b001 {
        Some(StoreKind::Half)
    } else if f3 == 0b010 {
        Some(StoreKind::Word)
    } else {
        None
    }
}

/// The instruction a word encodes, or `None` where the table has no entry for
/// its opcode and function codes.
pub open spec fn decoded(inst: u32) -> Option<Instr> {
    let op = opcode_of(inst);
    let rd = rd_of(inst) as usize;
    let rs1 = rs1_of(inst) as usize;
    let rs2 = rs2_of(inst) as usize;
    let f3 = funct3_of(inst);
    if op == OP {
        match op_of_funct10(funct10_of(inst)) {
            Some(o) => Some(Instr::Op { op: o, rd, rs1, rs2 }),
            None => None,
        }
    } else if op == OP_IMM {
        match imm_op_of(f3, funct7_of(inst)) {
            Some(o) => Some(Instr::OpImm { op: o, rd, rs1, imm: imm_i_of(inst) as i32 }),
            None => None,
        }
    } else if op == LUI {
        Some(Instr::Lui { rd, imm: imm_u_of(inst) as i32 })
    } else if op == AUIPC {
        Some(Instr::Auipc { rd, imm: imm_u_of(inst) as i32 })
    } else if op == JAL {
        Some(Instr::Jal { rd, imm: imm_j_of(inst) as i32 })
    } else if op == JALR {
        Some(Instr::Jalr { rd, rs1, imm: imm_i_of(inst) as i32 })
    } else if op == BRANCH {
        match branch_of(f3) {
            Some(c) => Some(Instr::Branch { cond: c, rs1, rs2, imm: imm_b_of(inst) as i32 }),
            None => None,
        }
    } else if op == LOAD {
        match load_of(f3) {
            Some(k) => Some(Instr::Load { width: k, rd, rs1, imm: imm_i_of(inst) as i32 }),
            None => None,
        }
    } else if op == STORE {
        match store_of(f3) {
            Some(k) => Some(Instr::Store { size: k, rs1, rs2, imm: imm_s_of(inst) as i32 }),
            None => None,
        }
    } else if op == MISC_MEM {
        if f3 == 0 {
            Some(Instr::Fence)
        } else {
            None
        }
    } else {
        None
    }
}

fn op_from_funct10(f: u32) -> (r: Option<AluOp>)
    ensures
        r == op_of_funct10(f),
{
    match f {
        0b000 => Some(AluOp::Add),
        0b0100000000 => Some(AluOp::Sub),
        0b001 => Some(AluOp::Sll),
        0b010 => Some(AluOp::Slt),
        0b011 => Some(AluOp::Sltu),
        0b100 => Some(AluOp::Xor),
        0b101 => Some(AluOp::Srl),
        0b0100000101 => Some(AluOp::Sra),
        0b110 => Some(AluOp::Or),
        0b111 => Some(AluOp::And),
        0b0000001000 => Some(AluOp::Mul),
        0b0000001001 => Some(AluOp::Mulh),
        0b0000001011 => Some(AluOp::Mulhu),
        0b0000001100 => Some(AluOp::Div),
        0b0000001101 => Some(AluOp::Divu),
        0b0000001110 => Some(AluOp::Rem),
        0b0000001111 => Some(AluOp::Remu),
        _ => None,
    }
}

fn imm_op_from(f3: u32, f7: u32) -> (r: Option<AluOp>)
    ensures
        r == imm_op_of(f3, f7),
{
    match f3 {
        0b000 => Some(AluOp::Add),
        0b001 => if f7 == 0 {
            Some(AluOp::Sll)
        } else {
            None
        },
        0b010 => Some(AluOp::Slt),
        0b011 => Some(AluOp::Sltu),
        0b100 => Some(AluOp::Xor),
        0b101 => if f7 == 0 {
            Some(AluOp::Srl)
        } else if f7 == FUNCT7_ALT {
            Some(AluOp::Sra)
        } else {
            None
        },
        0b110 => Some(AluOp::Or),
        0b111 => Some(AluOp::And),
        _ => None,
    }
}

fn branch_from(f3: u32) -> (r: Option<BranchCond>)
    ensures
        r == branch_of(f3),
{
    match f3 {
        0b000 => Some(BranchCond::Eq),
        0b001 => Some(BranchCond::Ne),
        0b100 => Some(BranchCond::Lt),
        0b101 => Some(BranchCond::Ge),
        0b110 => Some(BranchCond::Ltu),
        0b111 => Some(BranchCond::Geu),
        _ => None,
    }
}

fn load_from(f3: u32) -> (r: Option<LoadKind>)
    ensures
        r == load_of(f3),
{
    match f3 {
        0b000 => Some(LoadKind::Byte),
        0b001 => Some(LoadKind::Half),
        0b010 => Some(LoadKind::Word),
        0b100 => Some(LoadKind::ByteUnsigned),
        0b101 => Some(LoadKind::HalfUnsigned),
        _ => None,
    }
}

fn store_from(f3: u32) -> (r: Option<StoreKind>)
    ensures
        r == store_of(f3),
{
    match f3 {
        0b000 => Some(StoreKind::Byte),
        0b001 => Some(StoreKind::Half),
        0b010 => Some(StoreKind::Word),
        _ => None,
    }
}

/// Classifies a word against the opcode table.
pub fn decode(inst: u32) -> (r: Option<Instr>)
    ensures
        r == decoded(inst),
{
    let op = opcode(inst);
    let rd = rd(inst);
    let rs1 = rs1(inst);
    let rs2 = rs2(inst);
    let f3 = funct3(inst);
    if op == OP {
        match op_from_funct10(funct10(inst)) {
            Some(o) => Some(Instr::Op { op: o, rd, rs1, rs2 }),
            None => None,
        }
    } else if op == OP_IMM {
        match imm_op_from(f3, funct7(inst)) {
            Some(o) => Some(Instr::OpImm { op: o, rd, rs1, imm: imm_i(inst) }),
            None => None,
        }
    } else if op == LUI {
        Some(Instr::Lui { rd, imm: imm_u(inst) })
    } else if op == AUIPC {
        Some(Instr::Auipc { rd, imm: imm_u(inst) })
    } else if op == JAL {
        Some(Instr::Jal { rd, imm: imm_j(inst) })
    } else if op == JALR {
        Some(Instr::Jalr { rd, rs1, imm: imm_i(inst) })
    } else if op == BRANCH {
        match branch_from(f3) {
            Some(c) => Some(Instr::Branch { cond: c, rs1, rs2, imm: imm_b(inst) }),
            None => None,
        }
    } else if op == LOAD {
        match load_from(f3) {
            Some(k) => Some(Instr::Load { width: k, rd, rs1, imm: imm_i(inst) }),
            None => None,
        }
    } else if op == STORE {
        match store_from(f3) {
            Some(k) => Some(Instr::Store { size: k, rs1, rs2, imm: imm_s(inst) }),
            None => None,
        }
    } else if op == MISC_MEM {
        if f3 == 0 {
            Some(Instr::Fence)
        } else {
            None
        }
    } else {
        None
    }
}

} // verus!
