//! Arithmetic, logic and comparison semantics of the integer operations.
use vstd::prelude::*;
use crate::decode::{AluOp, BranchCond};

verus! {

/// The shift amount that a second operand selects: its low five bits.
pub open spec fn shamt(b: i32) -> u32 {
    (b as u32) % 32
}

/// The upper 32 bits of a 64-bit product.
pub open spec fn high_word(p: int) -> i32 {
    (p / 0x1_0000_0000) as i32
}

pub open spec fn abs(a: int) -> int {
    if a < 0 {
        -a
    } else {
        a
    }
}

/// The quotient rounded toward zero.
pub open spec fn quot_toward_zero(a: int, b: int) -> int {
    if (a < 0) == (b < 0) {
        abs(a) / abs(b)
    } else {
        -(abs(a) / abs(b))
    }
}

/// The result of an operation on two register values. Results wrap to 32
/// bits. A division by zero gives all ones and a remainder by zero gives the
/// dividend; the one overflowing division, the least value by -1, gives the
/// least value, with remainder 0.
pub open spec fn alu_result(op: AluOp, a: i32, b: i32) -> i32 {
    match op {
        AluOp::Add => (a + b) as i32,
        AluOp::Sub => (a - b) as i32,
        AluOp::Sll => ((a as u32) << shamt(b)) as i32,
        AluOp::Slt => if a < b {
            1
        } else {
            0
        },
        AluOp::Sltu => if (#[verifier::truncate] (a as u32)) < (#[verifier::truncate] (b as u32)) {
            1
        } else {
            0
        },
        AluOp::Xor => a ^ b,
        AluOp::Srl => ((a as u32) >> shamt(b)) as i32,
        AluOp::Sra => a >> shamt(b),
        AluOp::Or => a | b,
        AluOp::And => a & b,
        AluOp::Mul => (a * b) as i32,
        AluOp::Mulh => high_word(a * b),
        AluOp::Mulhu => high_word((a as u32) * (b as u32)),
        AluOp::Div => if b == 0 {
            -1i32
        } else {
            quot_toward_zero(a as int, b as int) as i32
        },
        AluOp::Divu => if b == 0 {
            -1i32
        } else {
            ((a as u32) / (b as u32)) as i32
        },
        AluOp::Rem => if b == 0 {
            a
        } else {
            (a - b * quot_toward_zero(a as int, b as int)) as i32
        },
        AluOp::Remu => if b == 0 {
            a
        } else {
            ((a as u32) % (b as u32)) as i32
        },
    }
}

/// Whether a branch with condition `c` on register values `a` and `b` is taken.
pub open spec fn branch_taken(c: BranchCond, a: i32, b: i32) -> bool {
    match c {
        BranchCond::Eq => a == b,
        BranchCond::Ne => a != b,
        BranchCond::Lt => a < b,
        BranchCond::Ge => a >= b,
        BranchCond::Ltu => (a as u32) < (b as u32),
        BranchCond::Geu => (a as u32) >= (b as u32),
    }
}

fn shift_amount(b: i32) -> (r: u32)
    ensures
        r == shamt(b),
        r < 32,
{
    let r = (#[verifier::truncate] (b as u32)) & 31;
    assert(r == shamt(b) && r < 32) by (bit_vector)
        requires
            r == (b as u32) & 31,
    ;
    r
}

/// The quotient and remainder of a signed division by a nonzero divisor,
/// rounded toward zero, before wrapping to 32 bits.
fn div_rem_signed(a: i32, b: i32) -> (r: (i64, i64))
    requires
        b != 0,
    ensures
        r.0 == quot_toward_zero(a as int, b as int),
        r.1 == a - b * quot_toward_zero(a as int, b as int),
{
    let x: i64 = a as i64;
    let y: i64 = b as i64;
    let ux: u64 = if x < 0 {
        (-x) as u64
    } else {
        x as u64
    };
    let uy: u64 = if y < 0 {
        (-y) as u64
    } else {
        y as u64
    };
    let uq: u64 = ux / uy;
    assert(uq <= ux) by (nonlinear_arith)
        requires
            uq == ux / uy,
            uy > 0,
    ;
    let q: i64 = if (x < 0) == (y < 0) {
        uq as i64
    } else {
        -(uq as i64)
    };
    assert(-0x8000_0000 <= q <= 0x8000_0000);
    assert(-0x8000_0000 * 0x8000_0000 <= y * q <= 0x8000_0000 * 0x8000_0000) by (nonlinear_arith)
        requires
            -0x8000_0000 <= q <= 0x8000_0000,
            -0x8000_0000 <= y <= 0x8000_0000,
    ;
    (q, x - y * q)
}

/// Applies an operation to two register values.
pub fn alu(op: AluOp, a: i32, b: i32) -> (r: i32)
    ensures
        r == alu_result(op, a, b),
{
    match op {
        AluOp::Add => #[verifier::truncate] (((a as i64) + (b as i64)) as i32),
        AluOp::Sub => #[verifier::truncate] (((a as i64) - (b as i64)) as i32),
        AluOp::Sll => #[verifier::truncate] (((#[verifier::truncate] (a as u32)) << shift_amount(b)) as i32),
        AluOp::Slt => if a < b {
            1
        } else {
            0
        },
        AluOp::Sltu => if (#[verifier::truncate] (a as u32)) < (#[verifier::truncate] (b as u32)) {
            1
        } else {
            0
        },
        AluOp::Xor => a ^ b,
        AluOp::Srl => #[verifier::truncate] (((#[verifier::truncate] (a as u32)) >> shift_amount(b)) as i32),
        AluOp::Sra => a >> shift_amount(b),
        AluOp::Or => a | b,
        AluOp::And => a & b,
        AluOp::Mul => {
            let x: i64 = a as i64;
            let y: i64 = b as i64;
            assert(-0x4000_0000_0000_0000 <= x * y <= 0x4000_0000_0000_0000) by (nonlinear_arith)
                requires
                    -0x8000_0000 <= x <= 0x8000_0000,
                    -0x8000_0000 <= y <= 0x8000_0000,
            ;
            #[verifier::truncate] ((x * y) as i32)
        },
        AluOp::Mulh => {
            let x: i64 = a as i64;
            let y: i64 = b as i64;
            assert(-0x4000_0000_0000_0000 <= x * y <= 0x4000_0000_0000_0000) by (nonlinear_arith)
                requires
                    -0x8000_0000 <= x <= 0x8000_0000,
                    -0x8000_0000 <= y <= 0x8000_0000,
            ;
            let p: i64 = x * y;
            let h: i64 = p >> 32;
            assert(h == p / 0x1_0000_0000) by (bit_vector)
                requires
                    h == p >> 32,
            ;
            #[verifier::truncate] (h as i32)
        },
        AluOp::Mulhu => {
            let x: u64 = (#[verifier::truncate] (a as u32)) as u64;
            let y: u64 = (#[verifier::truncate] (b as u32)) as u64;
            assert(x * y < 0x1_0000_0000 * 0x1_0000_0000) by (nonlinear_arith)
                requires
                    x < 0x1_0000_0000,
                    y < 0x1_0000_0000,
            ;
            let p: u64 = x * y;
            let h: u64 = p >> 32;
            assert(h == p / 0x1_0000_0000) by (bit_vector)
                requires
                    h == p >> 32,
            ;
            #[verifier::truncate] (h as i32)
        },
        AluOp::Div => if b == 0 {
            -1
        } else {
            #[verifier::truncate] (div_rem_signed(a, b).0 as i32)
        },
        AluOp::Divu => if b == 0 {
            -1
        } else {
            let ub = #[verifier::truncate] (b as u32);
            assert(ub != 0) by (bit_vector)
                requires
                    ub == b as u32,
                    b != 0,
            ;
            #[verifier::truncate] (((#[verifier::truncate] (a as u32)) / ub) as i32)
        },
        AluOp::Rem => if b == 0 {
            a
        } else {
            #[verifier::truncate] (div_rem_signed(a, b).1 as i32)
        },
        AluOp::Remu => if b == 0 {
            a
        } else {
            let ub = #[verifier::truncate] (b as u32);
            assert(ub != 0) by (bit_vector)
                requires
                    ub == b as u32,
                    b != 0,
            ;
            #[verifier::truncate] (((#[verifier::truncate] (a as u32)) % ub) as i32)
        },
    }
}

/// Decides a branch on two register values.
pub fn is_taken(c: BranchCond, a: i32, b: i32) -> (r: bool)
    ensures
        r == branch_taken(c, a, b),
{
    match c {
        BranchCond::Eq => a == b,
        BranchCond::Ne => a != b,
        BranchCond::Lt => a < b,
        BranchCond::Ge => a >= b,
        BranchCond::Ltu => (a as u32) < (b as u32),
        BranchCond::Geu => (a as u32) >= (b as u32),
    }
}

} // verus!
