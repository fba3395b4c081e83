//! Field extraction from 32-bit instruction words.
use vstd::prelude::*;

verus! {

/// Bit 31 of the word: the sign bit of every immediate.
pub open spec fn sign_bit(inst: u32) -> u32 {
    inst / 0x8000_0000
}

/// Bits [6:2]: the opcode without the two low format-marker bits.
pub open spec fn opcode_of(inst: u32) -> u32 {
    (inst / 4) % 32
}

/// Bits [11:7].
pub open spec fn rd_of(inst: u32) -> u32 {
    (inst / 0x80) % 32
}

/// Bits [14:12].
pub open spec fn funct3_of(inst: u32) -> u32 {
    (inst / 0x1000) % 8
}

/// Bits [19:15].
pub open spec fn rs1_of(inst: u32) -> u32 {
    (inst / 0x8000) % 32
}

/// Bits [24:20].
pub open spec fn rs2_of(inst: u32) -> u32 {
    (inst / 0x10_0000) % 32
}

/// Bits [31:25].
pub open spec fn funct7_of(inst: u32) -> u32 {
    inst / 0x200_0000
}

/// funct7 followed by funct3, as one 10-bit key.
pub open spec fn funct10_of(inst: u32) -> u32 {
    (funct7_of(inst) * 8 + funct3_of(inst)) as u32
}

/// I-format: bits [31:20] as a signed 12-bit value.
pub open spec fn imm_i_of(inst: u32) -> int {
    (inst / 0x10_0000) as int - 0x1000 * sign_bit(inst)
}

/// S-format: bits [31:25] above bits [11:7], as a signed 12-bit value.
pub open spec fn imm_s_of(inst: u32) -> int {
    32 * (inst / 0x200_0000) as int + ((inst / 0x80) % 32) as int - 0x1000 * sign_bit(inst)
}

/// B-format: offset bits [4:1] from bits [11:8], [10:5] from [30:25], 11 from
/// bit 7 and the sign (bit 12) from bit 31; bit 0 is zero.
pub open spec fn imm_b_of(inst: u32) -> int {
    2 * ((inst / 0x100) % 16) as int + 32 * ((inst / 0x200_0000) % 64) as int + 0x800 * ((inst
        / 0x80) % 2) as int - 0x1000 * sign_bit(inst)
}

/// U-format: bits [31:12] in place, low 12 bits zero, as a signed 32-bit value.
pub open spec fn imm_u_of(inst: u32) -> int {
    0x1000 * (inst / 0x1000) as int - 0x1_0000_0000 * sign_bit(inst)
}

/// J-format: offset bits [10:1] from bits [30:21], 11 from bit 20, [19:12] in
/// place and the sign (bit 20) from bit 31; bit 0 is zero.
pub open spec fn imm_j_of(inst: u32) -> int {
    2 * ((inst / 0x20_0000) % 0x400) as int + 0x800 * ((inst / 0x10_0000) % 2) as int + 0x1000 * ((
    inst / 0x1000) % 0x100) as int - 0x10_0000 * sign_bit(inst)
}

/// The word whose fields hold the given values, with both format-marker bits set.
pub open spec fn encode_fields(
    opcode: u32,
    rd: u32,
    funct3: u32,
    rs1: u32,
    rs2: u32,
    funct7: u32,
) -> u32 {
    (funct7 << 25u32) | (rs2 << 20u32) | (rs1 << 15u32) | (funct3 << 12u32) | (rd << 7u32) | (
    opcode << 2u32) | 3u32
}

/// Decoding a word built from field values gives back each value: no field
/// reads any bit of another.
pub proof fn lemma_fields_round_trip(
    opcode: u32,
    rd: u32,
    funct3: u32,
    rs1: u32,
    rs2: u32,
    funct7: u32,
)
    requires
        opcode < 32,
        rd < 32,
        funct3 < 8,
        rs1 < 32,
        rs2 < 32,
        funct7 < 128,
    ensures
        opcode_of(encode_fields(opcode, rd, funct3, rs1, rs2, funct7)) == opcode,
        rd_of(encode_fields(opcode, rd, funct3, rs1, rs2, funct7)) == rd,
        funct3_of(encode_fields(opcode, rd, funct3, rs1, rs2, funct7)) == funct3,
        rs1_of(encode_fields(opcode, rd, funct3, rs1, rs2, funct7)) == rs1,
        rs2_of(encode_fields(opcode, rd, funct3, rs1, rs2, funct7)) == rs2,
        funct7_of(encode_fields(opcode, rd, funct3, rs1, rs2, funct7)) == funct7,
{
    let w = encode_fields(opcode, rd, funct3, rs1, rs2, funct7);
    assert(opcode_of(w) == opcode && rd_of(w) == rd && funct3_of(w) == funct3 && rs1_of(w) == rs1
        && rs2_of(w) == rs2 && funct7_of(w) == funct7) by (bit_vector)
        requires
            w == (funct7 << 25u32) | (rs2 << 20u32) | (rs1 << 15u32) | (funct3 << 12u32) | (rd
                << 7u32) | (opcode << 2u32) | 3u32,
            opcode < 32,
            rd < 32,
            funct3 < 8,
            rs1 < 32,
            rs2 < 32,
            funct7 < 128,
    ;
}

pub fn opcode(inst: u32) -> (r: u32)
    ensures
        r == opcode_of(inst),
        r < 32,
{
    let r = (inst >> 2) & 0b11111;
    assert(r == opcode_of(inst) && r < 32) by (bit_vector)
        requires
            r == (inst >> 2) & 0b11111,
    ;
    r
}

pub fn rd(inst: u32) -> (r: usize)
    ensures
        r == rd_of(inst),
        r < 32,
{
    let f = (inst >> 7) & 0b11111;
    assert(f == rd_of(inst) && f < 32) by (bit_vector)
        requires
            f == (inst >> 7) & 0b11111,
    ;
    f as usize
}

pub fn funct3(inst: u32) -> (r: u32)
    ensures
        r == funct3_of(inst),
        r < 8,
{
    let r = (inst >> 12) & 0b111;
    assert(r == funct3_of(inst) && r < 8) by (bit_vector)
        requires
            r == (inst >> 12) & 0b111,
    ;
    r
}

pub fn rs1(inst: u32) -> (r: usize)
    ensures
        r == rs1_of(inst),
        r < 32,
{
    let f = (inst >> 15) & 0b11111;
    assert(f == rs1_of(inst) && f < 32) by (bit_vector)
        requires
            f == (inst >> 15) & 0b11111,
    ;
    f as usize
}

pub fn rs2(inst: u32) -> (r: usize)
    ensures
        r == rs2_of(inst),
        r < 32,
{
    let f = (inst >> 20) & 0b11111;
    assert(f == rs2_of(inst) && f < 32) by (bit_vector)
        requires
            f == (inst >> 20) & 0b11111,
    ;
    f as usize
}

pub fn funct7(inst: u32) -> (r: u32)
    ensures
        r == funct7_of(inst),
        r < 128,
{
    let r = inst >> 25;
    assert(r == funct7_of(inst) && r < 128) by (bit_vector)
        requires
            r == inst >> 25,
    ;
    r
}

pub fn imm_i(inst: u32) -> (r: i32)
    ensures
        r == imm_i_of(inst),
{
    let r = (inst as i32) >> 20;
    assert(r == imm_i_of(inst)) by (bit_vector)
        requires
            r == (inst as i32) >> 20,
    ;
    r
}
pub fn imm_s(inst: u32) -> (r: i32)
    ensures
        r == imm_s_of(inst),
{
    let w = inst as i32;
    let r = ((w >> 7) & 0b11111) | ((w >> 20) & !0b11111);
    assert(r == imm_s_of(inst)) by (bit_vector)
        requires
            w == inst as i32,
            r == ((w >> 7) & 0b11111) | ((w >> 20) & !0b11111),
    ;
    r
}

pub fn imm_b(inst: u32) -> (r: i32)
    ensures
        r == imm_b_of(inst),
        r % 2 == 0,
{
    let w = inst as i32;
    let r = ((w >> 7) & 0b11110) | ((w >> 20) & 0b11111100000) | ((w << 4) & 0b100000000000) | ((
    w >> 19) & (0xFFFF_F000u32 as i32));
    assert(r == imm_b_of(inst) && r % 2 == 0) by (bit_vector)
        requires
            w == inst as i32,
            r == ((w >> 7) & 0b11110) | ((w >> 20) & 0b11111100000) | ((w << 4) & 0b100000000000)
                | ((w >> 19) & (0xFFFF_F000u32 as i32)),
    ;
    r
}

pub fn imm_u(inst: u32) -> (r: i32)
    ensures
        r == imm_u_of(inst),
{
    let r = (inst & 0xFFFF_F000) as i32;
    assert(r == imm_u_of(inst)) by (bit_vector)
        requires
            r == (inst & 0xFFFF_F000) as i32,
    ;
    r
}

pub fn imm_j(inst: u32) -> (r: i32)
    ensures
        r == imm_j_of(inst),
        r % 2 == 0,
{
    let w = inst as i32;
    let r = ((w >> 20) & 0b11111111110) | ((w >> 9) & 0b100000000000) | (w & 0b11111111000000000000)
        | ((w >> 11) & (0xFFF0_0000u32 as i32));
    assert(r == imm_j_of(inst) && r % 2 == 0) by (bit_vector)
        requires
            w == inst as i32,
            r == ((w >> 20) & 0b11111111110) | ((w >> 9) & 0b100000000000) | (w
                & 0b11111111000000000000) | ((w >> 11) & (0xFFF0_0000u32 as i32)),
    ;
    r
}

pub fn funct10(inst: u32) -> (r: u32)
    ensures
        r == funct10_of(inst),
        r < 1024,
{
    let f7 = funct7(inst);
    let f3 = funct3(inst);
    let r = (f7 << 3) | f3;
    assert(r == funct10_of(inst) && r < 1024) by (bit_vector)
        requires
            f7 == funct7_of(inst),
            f3 == funct3_of(inst),
            r == (f7 << 3) | f3,
    ;
    r
}

} // verus!
