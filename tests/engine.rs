use rvcore::alu::alu;
use rvcore::decode::AluOp;
use rvcore::hart::{Fault, Hart};
use rvcore::mem::{BasicRam, Bus, Memory};
use rvcore::regs::RegisterFile;

/// A RAM holding the words from address 0, each most significant byte first,
/// followed by `spare` zero bytes.
fn ram_with(words: &[u32], spare: usize) -> BasicRam {
    let mut bytes = Vec::new();
    for w in words {
        bytes.extend_from_slice(&w.to_be_bytes());
    }
    bytes.extend(std::iter::repeat(0u8).take(spare));
    BasicRam::new(bytes)
}

fn hart_with(words: &[u32], pc: u32) -> Hart<BasicRam> {
    Hart::new(ram_with(words, 16), pc)
}

#[test]
fn add_sets_sum() {
    let mut h = hart_with(&[0x003100B3], 0);
    h.set_reg(2, 5);
    h.set_reg(3, 42);
    assert_eq!(h.execute(), Ok(()));
    assert_eq!(h.reg(1), 47);
    assert_eq!(h.pc(), 4);
    assert_eq!(h.inst(), 0x003100B3);
}

#[test]
fn sub_sets_difference() {
    let mut h = hart_with(&[0x403100B3], 0);
    h.set_reg(2, 5);
    h.set_reg(3, 42);
    assert_eq!(h.execute(), Ok(()));
    assert_eq!(h.reg(1), -37);
}

#[test]
fn lui_ignores_prior_value() {
    for prior in [0, -1, 999, i32::MIN] {
        let mut h = hart_with(&[0x123450B7], 0);
        h.set_reg(1, prior);
        assert_eq!(h.execute(), Ok(()));
        assert_eq!(h.reg(1), 0x12345000);
    }
}

#[test]
fn set_less_than_signed_and_unsigned_differ() {
    // slt x1, x2, x3 then sltu x4, x2, x3
    let mut h = hart_with(&[0x003120B3, 0x00313233], 0);
    h.set_reg(2, -1);
    h.set_reg(3, 1);
    assert_eq!(h.execute(), Ok(()));
    assert_eq!(h.execute(), Ok(()));
    assert_eq!(h.reg(1), 1);
    assert_eq!(h.reg(4), 0);
    assert_eq!(alu(AluOp::Slt, -1, 1), 1);
    assert_eq!(alu(AluOp::Sltu, -1, 1), 0);
}

/// Runs the branch word placed at address 8 and returns the next pc.
fn branch_from_8(word: u32, a: i32, b: i32) -> u32 {
    let mut h = hart_with(&[0, 0, word], 8);
    h.set_reg(1, a);
    h.set_reg(2, b);
    assert_eq!(h.execute(), Ok(()));
    assert_eq!(h.reg(1), a);
    assert_eq!(h.reg(2), b);
    h.pc()
}

#[test]
fn branch_equal() {
    assert_eq!(branch_from_8(0x00208463, 3, 3), 16);
    assert_eq!(branch_from_8(0x00208463, 3, 4), 12);
}

#[test]
fn branch_not_equal() {
    assert_eq!(branch_from_8(0x00209463, 3, 4), 16);
    assert_eq!(branch_from_8(0x00209463, 3, 3), 12);
}

#[test]
fn branch_less_than() {
    assert_eq!(branch_from_8(0x0020C463, -1, 1), 16);
    assert_eq!(branch_from_8(0x0020C463, 1, -1), 12);
}

#[test]
fn branch_greater_or_equal() {
    assert_eq!(branch_from_8(0x0020D463, 1, -1), 16);
    assert_eq!(branch_from_8(0x0020D463, 1, 1), 16);
    assert_eq!(branch_from_8(0x0020D463, -1, 1), 12);
}

#[test]
fn branch_less_than_unsigned() {
    assert_eq!(branch_from_8(0x0020E463, 1, -1), 16);
    assert_eq!(branch_from_8(0x0020E463, -1, 1), 12);
}

#[test]
fn branch_greater_or_equal_unsigned() {
    assert_eq!(branch_from_8(0x0020F463, -1, 1), 16);
    assert_eq!(branch_from_8(0x0020F463, 1, -1), 12);
}

#[test]
fn branch_backward() {
    // beq x0, x0, -4
    let mut h = hart_with(&[0, 0, 0xFE000EE3], 8);
    assert_eq!(h.execute(), Ok(()));
    assert_eq!(h.pc(), 4);
}

#[test]
fn register_zero_ignores_writes() {
    // addi x0, x0, 5
    let mut h = hart_with(&[0x00500013], 0);
    h.set_reg(0, 77);
    assert_eq!(h.reg(0), 0);
    assert_eq!(h.execute(), Ok(()));
    assert_eq!(h.reg(0), 0);

    let mut regs = RegisterFile::new();
    for v in [1, -1, i32::MAX, i32::MIN, 42] {
        regs.write(0, v);
        assert_eq!(regs.read(0), 0);
    }
    regs.write(5, 9);
    assert_eq!(regs.read(5), 9);
}

#[test]
fn jump_and_link() {
    // jal x1, +8 at address 8
    let mut h = hart_with(&[0, 0, 0x008000EF], 8);
    assert_eq!(h.execute(), Ok(()));
    assert_eq!(h.reg(1), 12);
    assert_eq!(h.pc(), 16);
}

#[test]
fn jump_and_link_register_clears_bit_zero() {
    // jalr x1, 1(x2) at address 4
    let mut h = hart_with(&[0, 0x001100E7], 4);
    h.set_reg(2, 100);
    assert_eq!(h.execute(), Ok(()));
    assert_eq!(h.pc(), 100);
    assert_eq!(h.reg(1), 8);
}

#[test]
fn jump_and_link_register_reads_source_before_link() {
    // jalr x1, 0(x1)
    let mut h = hart_with(&[0x000080E7], 0);
    h.set_reg(1, 40);
    assert_eq!(h.execute(), Ok(()));
    assert_eq!(h.pc(), 40);
    assert_eq!(h.reg(1), 4);
}

#[test]
fn add_upper_immediate_to_pc() {
    // auipc x1, 0x1 at address 8
    let mut h = hart_with(&[0, 0, 0x00001097], 8);
    assert_eq!(h.execute(), Ok(()));
    assert_eq!(h.reg(1), 8 + 0x1000);
    assert_eq!(h.pc(), 12);
}

#[test]
fn store_then_load_word() {
    // sw x3, 8(x0); lw x4, 8(x0)
    let mut h = Hart::new(ram_with(&[0x00302423, 0x00802203, 0], 0), 0);
    h.set_reg(3, 0x11223344);
    assert_eq!(h.execute(), Ok(()));
    assert_eq!(h.execute(), Ok(()));
    assert_eq!(h.reg(4), 0x11223344);
    assert!(h.memory().is_mapped(11));
}

#[test]
fn stored_word_lies_high_byte_first() {
    // sw x3, 16(x0); lbu x4, 16(x0); lbu x5, 19(x0)
    let mut h = Hart::new(ram_with(&[0x00302823, 0x01004203, 0x01304283], 16), 0);
    h.set_reg(3, 0x11223344);
    for _ in 0..3 {
        assert_eq!(h.execute(), Ok(()));
    }
    assert_eq!(h.reg(4), 0x11);
    assert_eq!(h.reg(5), 0x44);
}

#[test]
fn loads_extend_by_kind() {
    // memory at 16: 0x80 0x01; lb x1, 16(x0); lbu x2, 16(x0); lh x3, 16(x0); lhu x4, 16(x0)
    let mut h = Hart::new(
        ram_with(&[0x01000083, 0x01004103, 0x01001183, 0x01005203, 0x80010000], 0),
        0,
    );
    for _ in 0..4 {
        assert_eq!(h.execute(), Ok(()));
    }
    assert_eq!(h.reg(1), -128);
    assert_eq!(h.reg(2), 128);
    assert_eq!(h.reg(3), -32767);
    assert_eq!(h.reg(4), 0x8001);
}

#[test]
fn store_byte_and_half_keep_low_bits() {
    // sb x3, 16(x0); sh x3, 18(x0); lw x4, 16(x0)
    let mut h = Hart::new(ram_with(&[0x00300823, 0x00301923, 0x01002203], 16), 0);
    h.set_reg(3, 0x11223344);
    for _ in 0..3 {
        assert_eq!(h.execute(), Ok(()));
    }
    assert_eq!(h.reg(4), 0x44003344);
}

#[test]
fn load_outside_memory_faults() {
    // lw x1, 100(x0)
    let mut h = hart_with(&[0x06402083], 0);
    h.set_reg(1, 3);
    assert_eq!(h.execute(), Err(Fault::Access { pc: 0, inst: 0x06402083, addr: 100 }));
    assert_eq!(h.reg(1), 3);
    assert_eq!(h.pc(), 0);
}

#[test]
fn store_outside_memory_faults() {
    // sw x3, 8(x0) with only the instruction word backed
    let mut h = Hart::new(BasicRam::new(vec![0x00, 0x30, 0x24, 0x23]), 0);
    assert_eq!(h.execute(), Err(Fault::Access { pc: 0, inst: 0x00302423, addr: 8 }));
}

#[test]
fn fetch_outside_memory_faults() {
    let mut h = hart_with(&[0x003100B3], 0x8000_0000);
    assert_eq!(h.execute(), Err(Fault::Fetch { pc: 0x8000_0000 }));
    assert_eq!(h.fetch(), Err(Fault::Fetch { pc: 0x8000_0000 }));
}

#[test]
fn system_group_is_unimplemented() {
    let mut h = hart_with(&[0x00000073], 0);
    assert_eq!(h.execute(), Err(Fault::Unimplemented { pc: 0, inst: 0x73 }));
    assert_eq!(h.pc(), 0);
}

#[test]
fn fence_only_advances() {
    let mut h = hart_with(&[0x0000000F], 0);
    h.set_reg(7, 7);
    assert_eq!(h.execute(), Ok(()));
    assert_eq!(h.pc(), 4);
    assert_eq!(h.reg(7), 7);
}

#[test]
fn runs_through_bus() {
    // addi x1, x0, -1
    let mut h = Hart::new(Bus::new(ram_with(&[0xFFF00093], 0)), 0);
    assert_eq!(h.execute(), Ok(()));
    assert_eq!(h.reg(1), -1);
}

#[test]
fn shift_immediates() {
    // slli x1, x2, 4; srli x3, x2, 28; srai x4, x2, 28
    let mut h = hart_with(&[0x00411093, 0x01C15193, 0x41C15213], 0);
    h.set_reg(2, -16);
    for _ in 0..3 {
        assert_eq!(h.execute(), Ok(()));
    }
    assert_eq!(h.reg(1), -256);
    assert_eq!(h.reg(3), 0xF);
    assert_eq!(h.reg(4), -1);
}

#[test]
fn alu_arithmetic_wraps() {
    assert_eq!(alu(AluOp::Add, i32::MAX, 1), i32::MIN);
    assert_eq!(alu(AluOp::Sub, i32::MIN, 1), i32::MAX);
    assert_eq!(alu(AluOp::Mul, 0x10000, 0x10000), 0);
    assert_eq!(alu(AluOp::Mul, -3, 7), -21);
}

#[test]
fn alu_shifts_use_low_five_bits() {
    assert_eq!(alu(AluOp::Sll, 1, 33), 2);
    assert_eq!(alu(AluOp::Srl, -1, 28), 0xF);
    assert_eq!(alu(AluOp::Sra, -16, 2), -4);
    assert_eq!(alu(AluOp::Sra, -16, 34), -4);
}

#[test]
fn alu_logic() {
    assert_eq!(alu(AluOp::Xor, 0b1100, 0b1010), 0b0110);
    assert_eq!(alu(AluOp::Or, 0b1100, 0b1010), 0b1110);
    assert_eq!(alu(AluOp::And, 0b1100, 0b1010), 0b1000);
}

#[test]
fn alu_high_multiplies() {
    assert_eq!(alu(AluOp::Mulh, -1, -1), 0);
    assert_eq!(alu(AluOp::Mulh, i32::MIN, i32::MIN), 0x4000_0000);
    assert_eq!(alu(AluOp::Mulh, -2, 3), -1);
    assert_eq!(alu(AluOp::Mulhu, -1, -1), -2);
    assert_eq!(alu(AluOp::Mulhu, 0x10000, 0x10000), 1);
}

#[test]
fn alu_division_rounds_toward_zero() {
    assert_eq!(alu(AluOp::Div, -7, 2), -3);
    assert_eq!(alu(AluOp::Rem, -7, 2), -1);
    assert_eq!(alu(AluOp::Div, 7, -2), -3);
    assert_eq!(alu(AluOp::Rem, 7, -2), 1);
    assert_eq!(alu(AluOp::Divu, -1, 2), 0x7FFF_FFFF);
    assert_eq!(alu(AluOp::Remu, -1, 2), 1);
}

#[test]
fn alu_division_by_zero_and_overflow() {
    assert_eq!(alu(AluOp::Div, 7, 0), -1);
    assert_eq!(alu(AluOp::Divu, 7, 0), -1);
    assert_eq!(alu(AluOp::Rem, 7, 0), 7);
    assert_eq!(alu(AluOp::Remu, -7, 0), -7);
    assert_eq!(alu(AluOp::Div, i32::MIN, -1), i32::MIN);
    assert_eq!(alu(AluOp::Rem, i32::MIN, -1), 0);
}

#[test]
fn divide_instruction_by_zero() {
    // div x1, x2, x3
    let mut h = hart_with(&[0x0231C0B3], 0);
    h.set_reg(2, 9);
    assert_eq!(h.execute(), Ok(()));
    assert_eq!(h.reg(1), -1);
}

#[test]
fn jump_and_link_register_ignores_funct3() {
    // jalr x1, 0(x0) with funct3 = 1
    let mut h = hart_with(&[0x000010E7], 0);
    h.set_reg(1, 9);
    assert_eq!(h.execute(), Ok(()));
    assert_eq!(h.reg(1), 4);
    assert_eq!(h.pc(), 0);
    assert_eq!(h.inst(), 0x000010E7);
}

#[test]
fn fetched_word_is_kept_after_a_fault() {
    // addi x1, x0, -1 then lw x1, 100(x0)
    let mut h = hart_with(&[0xFFF00093, 0x06402083], 0);
    assert_eq!(h.inst(), 0);
    assert_eq!(h.execute(), Ok(()));
    assert_eq!(h.inst(), 0xFFF00093);
    assert!(h.execute().is_err());
    assert_eq!(h.inst(), 0x06402083);
    assert_eq!(h.pc(), 4);
}
