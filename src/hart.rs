//! The execution engine: one hart running the fetch-decode-execute cycle.
use vstd::prelude::*;
use crate::alu::{alu, alu_result, branch_taken, is_taken};
use crate::decode::{branch_of, decode, decoded, Instr, LoadKind, StoreKind, BRANCH};
use crate::instruction::{funct3_of, imm_b_of, opcode_of, rs1_of, rs2_of};
use crate::mem::{backed, half_at, half_stored, is_backed, word_at, word_stored, Memory};
use crate::regs::{written, RegisterFile, NUM_REGS};

verus! {

/// Why a cycle could not complete. Each names the address of the instruction.
#[derive(Clone, Copy, Debug, PartialEq, Eq, Structural)]
pub enum Fault {
    /// The instruction word at `pc` is not backed by memory.
    Fetch { pc: u32 },
    /// The word `inst` has no entry in the opcode table.
    Unimplemented { pc: u32, inst: u32 },
    /// A load or store of `inst` reached the unbacked address `addr`.
    Access { pc: u32, inst: u32, addr: u32 },
}

/// A machine state: registers, program counter and memory.
pub type MachineState = (Seq<i32>, u32, Map<u32, u8>);

/// The byte value, sign-extended.
pub open spec fn sext8(b: u8) -> i32 {
    if b < 0x80 {
        b as i32
    } else {
        (b - 0x100) as i32
    }
}

/// A 16-bit value, sign-extended.
pub open spec fn sext16(h: int) -> i32 {
    if h < 0x8000 {
        h as i32
    } else {
        (h - 0x1_0000) as i32
    }
}

/// Bytes that a load of this kind reads.
pub open spec fn load_size(k: LoadKind) -> int {
    match k {
        LoadKind::Byte | LoadKind::ByteUnsigned => 1,
        LoadKind::Half | LoadKind::HalfUnsigned => 2,
        LoadKind::Word => 4,
    }
}

/// Bytes that a store of this kind writes.
pub open spec fn store_size(k: StoreKind) -> int {
    match k {
        StoreKind::Byte => 1,
        StoreKind::Half => 2,
        StoreKind::Word => 4,
    }
}

/// The register value that a load of this kind from `addr` gives.
pub open spec fn loaded(k: LoadKind, m: Map<u32, u8>, addr: u32) -> i32 {
    match k {
        LoadKind::Byte => sext8(m[addr]),
        LoadKind::ByteUnsigned => m[addr] as i32,
        LoadKind::Half => sext16(half_at(m, addr)),
        LoadKind::HalfUnsigned => half_at(m, addr) as i32,
        LoadKind::Word => word_at(m, addr) as i32,
    }
}

/// The memory after a store of this kind of the low bits of `v` at `addr`.
pub open spec fn stored(k: StoreKind, m: Map<u32, u8>, addr: u32, v: i32) -> Map<u32, u8> {
    match k {
        StoreKind::Byte => m.insert(addr, v as u8),
        StoreKind::Half => half_stored(m, addr, v as u16),
        StoreKind::Word => word_stored(m, addr, v as u32),
    }
}

/// A register value plus an offset, as a 32-bit address.
pub open spec fn effective(base: i32, imm: i32) -> u32 {
    (base + imm) as u32
}

/// The target of a jump through a register: bit 0 cleared.
pub open spec fn jalr_target(base: i32, imm: i32) -> u32 {
    (effective(base, imm) / 2 * 2) as u32
}

/// The state after a decoded instruction at `pc`, or the address that a load
/// or store could not reach.
pub open spec fn effect(ins: Instr, regs: Seq<i32>, pc: u32, m: Map<u32, u8>) -> Result<
    MachineState,
    u32,
> {
    let next = (pc + 4) as u32;
    match ins {
        Instr::Op { op, rd, rs1, rs2 } => Ok(
            (written(regs, rd as int, alu_result(op, regs[rs1 as int], regs[rs2 as int])), next, m),
        ),
        Instr::OpImm { op, rd, rs1, imm } => Ok(
            (written(regs, rd as int, alu_result(op, regs[rs1 as int], imm)), next, m),
        ),
        Instr::Lui { rd, imm } => Ok((written(regs, rd as int, imm), next, m)),
        Instr::Auipc { rd, imm } => Ok((written(regs, rd as int, (pc + imm) as i32), next, m)),
        Instr::Jal { rd, imm } => Ok(
            (written(regs, rd as int, (pc + 4) as i32), (pc + imm) as u32, m),
        ),
        Instr::Jalr { rd, rs1, imm } => Ok(
            (written(regs, rd as int, (pc + 4) as i32), jalr_target(regs[rs1 as int], imm), m),
        ),
        Instr::Branch { cond, rs1, rs2, imm } => Ok(
            (
                regs,
                if branch_taken(cond, regs[rs1 as int], regs[rs2 as int]) {
                    (pc + imm) as u32
                } else {
                    next
                },
                m,
            ),
        ),
        Instr::Load { width, rd, rs1, imm } => {
            let a = effective(regs[rs1 as int], imm);
            if backed(m, a, load_size(width)) {
                Ok((written(regs, rd as int, loaded(width, m, a)), next, m))
            } else {
                Err(a)
            }
        },
        Instr::Store { size, rs1, rs2, imm } => {
            let a = effective(regs[rs1 as int], imm);
            if backed(m, a, store_size(size)) {
                Ok((regs, next, stored(size, m, a, regs[rs2 as int])))
            } else {
                Err(a)
            }
        },
        Instr::Fence => Ok((regs, next, m)),
    }
}

/// Every register index of the instruction names one of the 32 registers.
pub open spec fn in_range(ins: Instr) -> bool {
    match ins {
        Instr::Op { rd, rs1, rs2, .. } => rd < NUM_REGS && rs1 < NUM_REGS && rs2 < NUM_REGS,
        Instr::OpImm { rd, rs1, .. } => rd < NUM_REGS && rs1 < NUM_REGS,
        Instr::Lui { rd, .. } => rd < NUM_REGS,
        Instr::Auipc { rd, .. } => rd < NUM_REGS,
        Instr::Jal { rd, .. } => rd < NUM_REGS,
        Instr::Jalr { rd, rs1, .. } => rd < NUM_REGS && rs1 < NUM_REGS,
        Instr::Branch { rs1, rs2, .. } => rs1 < NUM_REGS && rs2 < NUM_REGS,
        Instr::Load { rd, rs1, .. } => rd < NUM_REGS && rs1 < NUM_REGS,
        Instr::Store { rs1, rs2, .. } => rs1 < NUM_REGS && rs2 < NUM_REGS,
        Instr::Fence => true,
    }
}

/// One cycle: fetch the word at `pc`, decode it and apply it.
pub open spec fn step(regs: Seq<i32>, pc: u32, m: Map<u32, u8>) -> Result<MachineState, Fault> {
    if !backed(m, pc, 4) {
        Err(Fault::Fetch { pc })
    } else {
        let inst = word_at(m, pc) as u32;
        match decoded(inst) {
            None => Err(Fault::Unimplemented { pc, inst }),
            Some(ins) => match effect(ins, regs, pc, m) {
                Ok(s) => Ok(s),
                Err(a) => Err(Fault::Access { pc, inst, addr: a }),
            },
        }
    }
}

/// A branch that is not taken falls through to the next instruction, and one
/// that is taken goes to its own address plus the B-immediate; registers and
/// memory are left as they were.
pub proof fn lemma_branch_target(regs: Seq<i32>, pc: u32, m: Map<u32, u8>)
    requires
        regs.len() == NUM_REGS,
        backed(m, pc, 4),
        opcode_of(word_at(m, pc) as u32) == BRANCH,
        branch_of(funct3_of(word_at(m, pc) as u32)) is Some,
    ensures
        step(regs, pc, m) is Ok,
        (step(regs, pc, m)->Ok_0).0 == regs,
        (step(regs, pc, m)->Ok_0).2 == m,
        branch_taken(
            branch_of(funct3_of(word_at(m, pc) as u32))->0,
            regs[rs1_of(word_at(m, pc) as u32) as int],
            regs[rs2_of(word_at(m, pc) as u32) as int],
        ) ==> (step(regs, pc, m)->Ok_0).1 == (pc + imm_b_of(word_at(m, pc) as u32)) as u32,
        !branch_taken(
            branch_of(funct3_of(word_at(m, pc) as u32))->0,
            regs[rs1_of(word_at(m, pc) as u32) as int],
            regs[rs2_of(word_at(m, pc) as u32) as int],
        ) ==> (step(regs, pc, m)->Ok_0).1 == (pc + 4) as u32,
{
}

/// A cycle keeps the register file at 32 registers with register 0 zero,
/// whatever the instruction writes.
pub proof fn lemma_step_keeps_zero_register(regs: Seq<i32>, pc: u32, m: Map<u32, u8>)
    requires
        regs.len() == NUM_REGS,
        regs[0] == 0,
        step(regs, pc, m) is Ok,
    ensures
        (step(regs, pc, m)->Ok_0).0.len() == NUM_REGS,
        (step(regs, pc, m)->Ok_0).0[0] == 0,
{
}

fn address(base: i32, imm: i32) -> (r: u32)
    ensures
        r == effective(base, imm),
{
    #[verifier::truncate] (((base as i64) + (imm as i64)) as u32)
}

fn offset(pc: u32, imm: i32) -> (r: u32)
    ensures
        r == (pc + imm) as u32,
{
    #[verifier::truncate] (((pc as i64) + (imm as i64)) as u32)
}

pub struct Hart<M: Memory> {
    memory: M,
    regs: RegisterFile,
    pc: u32,
    inst: u32,
}

impl<M: Memory> Hart<M> {
    pub closed spec fn reg_values(&self) -> Seq<i32> {
        self.regs@
    }

    pub closed spec fn pc_value(&self) -> u32 {
        self.pc
    }

    pub closed spec fn mem_bytes(&self) -> Map<u32, u8> {
        self.memory.bytes()
    }

    /// The word fetched by the latest cycle, 0 before the first.
    pub closed spec fn inst_value(&self) -> u32 {
        self.inst
    }

    pub closed spec fn wf(&self) -> bool {
        self.regs.wf()
    }

    /// A hart over `memory`, every register zero, about to fetch from `pc`.
    pub fn new(memory: M, pc: u32) -> (r: Hart<M>)
        ensures
            r.wf(),
            r.reg_values() == Seq::new(32, |i: int| 0i32),
            r.pc_value() == pc,
            r.mem_bytes() == memory.bytes(),
            r.inst_value() == 0,
    {
        Hart { memory, regs: RegisterFile::new(), pc, inst: 0 }
    }

    pub fn pc(&self) -> (r: u32)
        ensures
            r == self.pc_value(),
    {
        self.pc
    }

    /// The word fetched by the latest cycle.
    pub fn inst(&self) -> (r: u32)
        ensures
            r == self.inst_value(),
    {
        self.inst
    }

    pub fn reg(&self, i: usize) -> (r: i32)
        requires
            self.wf(),
            i < NUM_REGS,
        ensures
            r == self.reg_values()[i as int],
            i == 0 ==> r == 0,
    {
        self.regs.read(i)
    }

    /// Sets register `i` to `v`; a write to register 0 is discarded.
    pub fn set_reg(&mut self, i: usize, v: i32)
        requires
            old(self).wf(),
            i < NUM_REGS,
        ensures
            final(self).wf(),
            final(self).reg_values() == written(old(self).reg_values(), i as int, v),
            final(self).pc_value() == old(self).pc_value(),
            final(self).mem_bytes() == old(self).mem_bytes(),
            final(self).inst_value() == old(self).inst_value(),
    {
        self.regs.write(i, v);
    }

    pub fn memory(&self) -> (r: &M)
        ensures
            r.bytes() == self.mem_bytes(),
    {
        &self.memory
    }

    /// Reads the instruction word at the program counter.
    pub fn fetch(&mut self) -> (r: Result<u32, Fault>)
        requires
            old(self).wf(),
        ensures
            final(self).wf(),
            r == (if backed(old(self).mem_bytes(), old(self).pc_value(), 4) {
                Ok(word_at(old(self).mem_bytes(), old(self).pc_value()) as u32)
            } else {
                Err(Fault::Fetch { pc: old(self).pc_value() })
            }),
            final(self).reg_values() == old(self).reg_values(),
            final(self).pc_value() == old(self).pc_value(),
            final(self).mem_bytes() == old(self).mem_bytes(),
            final(self).inst_value() == (if backed(old(self).mem_bytes(), old(self).pc_value(), 4) {
                word_at(old(self).mem_bytes(), old(self).pc_value()) as u32
            } else {
                old(self).inst_value()
            }),
    {
        if !is_backed(&self.memory, self.pc, 4) {
            return Err(Fault::Fetch { pc: self.pc });
        }
        let w = self.memory.read_32(self.pc);
        self.inst = w;
        Ok(w)
    }

    fn load(&mut self, width: LoadKind, a: u32) -> (r: i32)
        requires
            backed(old(self).memory.bytes(), a, load_size(width)),
        ensures
            r == loaded(width, old(self).memory.bytes(), a),
            final(self).memory.bytes() == old(self).memory.bytes(),
            final(self).regs == old(self).regs,
            final(self).pc == old(self).pc,
            final(self).inst == old(self).inst,
    {
        proof {
            assert(self.memory.bytes().dom().contains((a + 0) as u32));
        }
        match width {
            LoadKind::Byte => {
                let b = self.memory.read_8(a);
                if b < 0x80 {
                    b as i32
                } else {
                    b as i32 - 0x100
                }
            },
            LoadKind::ByteUnsigned => self.memory.read_8(a) as i32,
            LoadKind::Half => {
                let h = self.memory.read_16(a);
                if h < 0x8000 {
                    h as i32
                } else {
                    h as i32 - 0x1_0000
                }
            },
            LoadKind::HalfUnsigned => self.memory.read_16(a) as i32,
            LoadKind::Word => #[verifier::truncate] (self.memory.read_32(a) as i32),
        }
    }

    fn store(&mut self, size: StoreKind, a: u32, v: i32)
        requires
            backed(old(self).memory.bytes(), a, store_size(size)),
        ensures
            final(self).memory.bytes() == stored(size, old(self).memory.bytes(), a, v),
            final(self).regs == old(self).regs,
            final(self).pc == old(self).pc,
            final(self).inst == old(self).inst,
    {
        proof {
            assert(self.memory.bytes().dom().contains((a + 0) as u32));
        }
        match size {
            StoreKind::Byte => self.memory.write_8(a, #[verifier::truncate] (v as u8)),
            StoreKind::Half => self.memory.write_16(a, #[verifier::truncate] (v as u16)),
            StoreKind::Word => self.memory.write_32(a, #[verifier::truncate] (v as u32)),
        }
    }

    /// Whether `new` and `r` are what applying `ins` to `old` gives.
    spec fn applied(old: &Self, new: &Self, ins: Instr, r: Result<(), u32>) -> bool {
        &&& new.wf()
        &&& new.inst == old.inst
        &&& match effect(ins, old.regs@, old.pc, old.memory.bytes()) {
            Ok(s) => {
                &&& r is Ok
                &&& new.regs@ == s.0
                &&& new.pc == s.1
                &&& new.memory.bytes() == s.2
            },
            Err(a) => {
                &&& r == Err::<(), u32>(a)
                &&& new.regs@ == old.regs@
                &&& new.pc == old.pc
                &&& new.memory.bytes() == old.memory.bytes()
            },
        }
    }

    fn apply_alu(&mut self, ins: Instr) -> (r: Result<(), u32>)
        requires
            old(self).wf(),
            in_range(ins),
            ins is Op || ins is OpImm || ins is Lui || ins is Auipc,
        ensures
            Self::applied(old(self), final(self), ins, r),
    {
        let pc = self.pc;
        let next = #[verifier::truncate] (((pc as u64) + 4) as u32);
        match ins {
            Instr::Op { op, rd, rs1, rs2 } => {
                let v = alu(op, self.regs.read(rs1), self.regs.read(rs2));
                self.regs.write(rd, v);
            },
            Instr::OpImm { op, rd, rs1, imm } => {
                let v = alu(op, self.regs.read(rs1), imm);
                self.regs.write(rd, v);
            },
            Instr::Lui { rd, imm } => {
                self.regs.write(rd, imm);
            },
            Instr::Auipc { rd, imm } => {
                self.regs.write(rd, #[verifier::truncate] (((pc as i64) + (imm as i64)) as i32));
            },
            _ => {},
        }
        self.pc = next;
        Ok(())
    }

    fn apply_jump(&mut self, ins: Instr) -> (r: Result<(), u32>)
        requires
            old(self).wf(),
            in_range(ins),
            ins is Jal || ins is Jalr || ins is Branch || ins is Fence,
        ensures
            Self::applied(old(self), final(self), ins, r),
    {
        let pc = self.pc;
        let next = #[verifier::truncate] (((pc as u64) + 4) as u32);
        let link = #[verifier::truncate] (((pc as i64) + 4) as i32);
        match ins {
            Instr::Jal { rd, imm } => {
                self.regs.write(rd, link);
                self.pc = offset(pc, imm);
            },
            Instr::Jalr { rd, rs1, imm } => {
                let t = address(self.regs.read(rs1), imm);
                let target = t & 0xFFFF_FFFE;
                assert(target == (t / 2 * 2) as u32) by (bit_vector)
                    requires
                        target == t & 0xFFFF_FFFE,
                ;
                self.regs.write(rd, link);
                self.pc = target;
            },
            Instr::Branch { cond, rs1, rs2, imm } => {
                if is_taken(cond, self.regs.read(rs1), self.regs.read(rs2)) {
                    self.pc = offset(pc, imm);
                } else {
                    self.pc = next;
                }
            },
            _ => {
                self.pc = next;
            },
        }
        Ok(())
    }

    fn apply_memory(&mut self, ins: Instr) -> (r: Result<(), u32>)
        requires
            old(self).wf(),
            in_range(ins),
            ins is Load || ins is Store,
        ensures
            Self::applied(old(self), final(self), ins, r),
    {
        let next = #[verifier::truncate] (((self.pc as u64) + 4) as u32);
        match ins {
            Instr::Load { width, rd, rs1, imm } => {
                let a = address(self.regs.read(rs1), imm);
                let n: u32 = match width {
                    LoadKind::Byte | LoadKind::ByteUnsigned => 1,
                    LoadKind::Half | LoadKind::HalfUnsigned => 2,
                    LoadKind::Word => 4,
                };
                if !is_backed(&self.memory, a, n) {
                    return Err(a);
                }
                let v = self.load(width, a);
                self.regs.write(rd, v);
            },
            Instr::Store { size, rs1, rs2, imm } => {
                let a = address(self.regs.read(rs1), imm);
                let n: u32 = match size {
                    StoreKind::Byte => 1,
                    StoreKind::Half => 2,
                    StoreKind::Word => 4,
                };
                if !is_backed(&self.memory, a, n) {
                    return Err(a);
                }
                let v = self.regs.read(rs2);
                self.store(size, a, v);
            },
            _ => {},
        }
        self.pc = next;
        Ok(())
    }

    /// Runs one cycle. On success the state is the one that `step` gives; on
    /// a fault nothing but the latest fetched word has changed.
    pub fn execute(&mut self) -> (r: Result<(), Fault>)
        requires
            old(self).wf(),
        ensures
            final(self).wf(),
            final(self).reg_values().len() == NUM_REGS,
            final(self).reg_values()[0] == 0,
            final(self).inst_value() == (if backed(old(self).mem_bytes(), old(self).pc_value(), 4) {
                word_at(old(self).mem_bytes(), old(self).pc_value()) as u32
            } else {
                old(self).inst_value()
            }),
            match step(old(self).reg_values(), old(self).pc_value(), old(self).mem_bytes()) {
                Ok(s) => {
                    &&& r is Ok
                    &&& final(self).reg_values() == s.0
                    &&& final(self).pc_value() == s.1
                    &&& final(self).mem_bytes() == s.2
                },
                Err(f) => {
                    &&& r == Err::<(), Fault>(f)
                    &&& final(self).reg_values() == old(self).reg_values()
                    &&& final(self).pc_value() == old(self).pc_value()
                    &&& final(self).mem_bytes() == old(self).mem_bytes()
                },
            },
    {
        let pc = self.pc;
        let inst = match self.fetch() {
            Ok(w) => w,
            Err(f) => return Err(f),
        };
        let ins = match decode(inst) {
            Some(i) => i,
            None => return Err(Fault::Unimplemented { pc, inst }),
        };
        let r = match ins {
            Instr::Op { .. } | Instr::OpImm { .. } | Instr::Lui { .. } | Instr::Auipc { .. } => {
                self.apply_alu(ins)
            },
            Instr::Load { .. } | Instr::Store { .. } => self.apply_memory(ins),
            _ => self.apply_jump(ins),
        };
        match r {
            Ok(()) => Ok(()),
            Err(a) => Err(Fault::Access { pc, inst, addr: a }),
        }
    }
}

} // verus!
