//! Base integer instructions (RV32I opcodes on 64-bit registers).
//!
//! Immediates arrive already decoded and sign-extended to 64 bits. All
//! arithmetic on register values and addresses is modulo 2^64.
//!
//! Jumps and branches return the next program counter and leave it to the
//! caller to store it. Each comes in two forms: one generic in the width of
//! the executing instruction (2 bytes for a compressed instruction, 4
//! otherwise), and one for width 4. Targets are not checked for alignment:
//! with compressed instructions around, any even address can hold an
//! instruction.
//!
//! The effect of each instruction is given by a spec function over the plain
//! values of the state; the laws that follow them say what these functions
//! amount to.

use crate::machine_state::bus::Address;
use crate::machine_state::registers::{XRegister, XRegisters, XValue};
use crate::machine_state::{HartState, HartView};
use crate::state_backend::{Manager, MemoryManager};
use vstd::prelude::*;

verus! {

/// The 64 bits of a signed value read as an unsigned one (two's complement).
pub open spec fn as_unsigned(value: i64) -> XValue {
    if value >= 0 {
        value as u64
    } else {
        (value + 0x1_0000_0000_0000_0000) as u64
    }
}

/// The 64 bits of an unsigned value read as a signed one (two's complement).
pub open spec fn as_signed(value: XValue) -> i64 {
    if value < 0x8000_0000_0000_0000 {
        value as i64
    } else {
        (value - 0x1_0000_0000_0000_0000) as i64
    }
}

/// `value + imm` modulo 2^64.
pub open spec fn add_imm(value: XValue, imm: i64) -> XValue {
    ((value + imm) % 0x1_0000_0000_0000_0000) as u64
}

/// `pc + width` modulo 2^64: the address of the instruction that follows one
/// of `width` bytes at `pc`.
pub open spec fn add_width(pc: Address, width: u64) -> Address {
    ((pc + width) % 0x1_0000_0000_0000_0000) as u64
}

/// `value` with its least significant bit set to zero.
pub open spec fn clear_lsb(value: XValue) -> XValue {
    (value - value % 2) as u64
}

/// Register file after `ADDI`: `rd` holds `rs1 + imm` modulo 2^64.
pub open spec fn addi(regs: Seq<XValue>, imm: i64, rs1: XRegister, rd: XRegister) -> Seq<XValue> {
    regs.update(rd.spec_index(), add_imm(regs[rs1.spec_index()], imm))
}

/// Register file after `LUI`: `rd` holds the bits of `imm`.
pub open spec fn lui(regs: Seq<XValue>, imm: i64, rd: XRegister) -> Seq<XValue> {
    regs.update(rd.spec_index(), as_unsigned(imm))
}

/// Register file after `ANDI`: `rd` holds `rs1 & imm`.
pub open spec fn andi(regs: Seq<XValue>, imm: i64, rs1: XRegister, rd: XRegister) -> Seq<XValue> {
    regs.update(rd.spec_index(), regs[rs1.spec_index()] & as_unsigned(imm))
}

/// Register file after `ORI`: `rd` holds `rs1 | imm`.
pub open spec fn ori(regs: Seq<XValue>, imm: i64, rs1: XRegister, rd: XRegister) -> Seq<XValue> {
    regs.update(rd.spec_index(), regs[rs1.spec_index()] | as_unsigned(imm))
}

/// Register file after `XORI`: `rd` holds `rs1 ^ imm`.
pub open spec fn xori(regs: Seq<XValue>, imm: i64, rs1: XRegister, rd: XRegister) -> Seq<XValue> {
    regs.update(rd.spec_index(), regs[rs1.spec_index()] ^ as_unsigned(imm))
}

/// Hart after `AUIPC`: `rd` holds `pc + imm` modulo 2^64.
pub open spec fn auipc(hart: HartView, imm: i64, rd: XRegister) -> HartView {
    HartView {
        xregisters: hart.xregisters.update(rd.spec_index(), add_imm(hart.pc, imm)),
        ..hart
    }
}

/// Hart after a jump that links: `rd` holds the address of the instruction
/// after the jump, which is `width` bytes long.
pub open spec fn link(hart: HartView, rd: XRegister, width: u64) -> HartView {
    HartView {
        xregisters: hart.xregisters.update(rd.spec_index(), add_width(hart.pc, width)),
        ..hart
    }
}

/// Where `JAL` jumps to: `pc + imm` modulo 2^64.
pub open spec fn jal_target(hart: HartView, imm: i64) -> Address {
    add_imm(hart.pc, imm)
}

/// Where `JALR` jumps to: `rs1 + imm` modulo 2^64 with the least significant
/// bit cleared, `rs1` being read before anything is written.
pub open spec fn jalr_target(hart: HartView, imm: i64, rs1: XRegister) -> Address {
    clear_lsb(add_imm(hart.xregisters[rs1.spec_index()], imm))
}

/// Next program counter of a conditional branch in an instruction of `width`
/// bytes: `pc + imm` if the branch is taken, else the following instruction.
pub open spec fn branch_target(hart: HartView, imm: i64, taken: bool, width: u64) -> Address {
    if taken {
        add_imm(hart.pc, imm)
    } else {
        add_width(hart.pc, width)
    }
}

/// `BEQ` is taken when the two registers hold the same bits.
pub open spec fn beq_taken(hart: HartView, rs1: XRegister, rs2: XRegister) -> bool {
    hart.xregisters[rs1.spec_index()] == hart.xregisters[rs2.spec_index()]
}

/// `BNE` is taken when the two registers differ.
pub open spec fn bne_taken(hart: HartView, rs1: XRegister, rs2: XRegister) -> bool {
    hart.xregisters[rs1.spec_index()] != hart.xregisters[rs2.spec_index()]
}

/// `BLT` is taken when `rs1 < rs2`, both read as signed.
pub open spec fn blt_taken(hart: HartView, rs1: XRegister, rs2: XRegister) -> bool {
    as_signed(hart.xregisters[rs1.spec_index()]) < as_signed(hart.xregisters[rs2.spec_index()])
}

/// `BGE` is taken when `rs1 >= rs2`, both read as signed.
pub open spec fn bge_taken(hart: HartView, rs1: XRegister, rs2: XRegister) -> bool {
    as_signed(hart.xregisters[rs1.spec_index()]) >= as_signed(hart.xregisters[rs2.spec_index()])
}

/// `BLTU` is taken when `rs1 < rs2`, both read as unsigned.
pub open spec fn bltu_taken(hart: HartView, rs1: XRegister, rs2: XRegister) -> bool {
    hart.xregisters[rs1.spec_index()] < hart.xregisters[rs2.spec_index()]
}

/// `BGEU` is taken when `rs1 >= rs2`, both read as unsigned.
pub open spec fn bgeu_taken(hart: HartView, rs1: XRegister, rs2: XRegister) -> bool {
    hart.xregisters[rs1.spec_index()] >= hart.xregisters[rs2.spec_index()]
}

/// Reading a signed value as unsigned and back changes nothing, and the same
/// the other way round: both readings name the same 64 bits.
pub proof fn lemma_signed_unsigned_inverse(signed_value: i64, unsigned_value: XValue)
    ensures
        as_signed(as_unsigned(signed_value)) == signed_value,
        as_unsigned(as_signed(unsigned_value)) == unsigned_value,
{
}

/// Clearing the least significant bit is masking with `!1`.
pub proof fn lemma_clear_lsb_is_mask(value: XValue)
    ensures
        clear_lsb(value) == value & !1u64,
        clear_lsb(value) % 2 == 0,
        value - 1 <= clear_lsb(value) <= value,
{
    assert(clear_lsb(value) == value & !1u64) by (bit_vector);
}

/// After `a` was written to `rs1`, `ADDI` leaves `(a + imm) mod 2^64` in
/// `rd`, also where `rd` is `rs1`.
pub proof fn lemma_addi_after_write(
    regs: Seq<XValue>,
    a: XValue,
    imm: i64,
    rs1: XRegister,
    rd: XRegister,
)
    requires
        regs.len() == 32,
    ensures
        addi(regs.update(rs1.spec_index(), a), imm, rs1, rd)[rd.spec_index()] == (a + imm)
            % 0x1_0000_0000_0000_0000,
{
}

/// After `a` was written to `rs1`, `ANDI`, `ORI` and `XORI` leave in `rd` the
/// bitwise combination of `a` with the 64 bits of the sign-extended `imm`.
pub proof fn lemma_bitwise_after_write(
    regs: Seq<XValue>,
    a: XValue,
    imm: i64,
    rs1: XRegister,
    rd: XRegister,
)
    requires
        regs.len() == 32,
    ensures
        andi(regs.update(rs1.spec_index(), a), imm, rs1, rd)[rd.spec_index()] == a & as_unsigned(
            imm,
        ),
        ori(regs.update(rs1.spec_index(), a), imm, rs1, rd)[rd.spec_index()] == a | as_unsigned(
            imm,
        ),
        xori(regs.update(rs1.spec_index(), a), imm, rs1, rd)[rd.spec_index()] == a ^ as_unsigned(
            imm,
        ),
{
}

/// Only `rd` changes in a register-immediate instruction.
pub proof fn lemma_other_registers_kept(
    regs: Seq<XValue>,
    imm: i64,
    rs1: XRegister,
    rd: XRegister,
    other: XRegister,
)
    requires
        regs.len() == 32,
        other != rd,
    ensures
        addi(regs, imm, rs1, rd)[other.spec_index()] == regs[other.spec_index()],
        andi(regs, imm, rs1, rd)[other.spec_index()] == regs[other.spec_index()],
        ori(regs, imm, rs1, rd)[other.spec_index()] == regs[other.spec_index()],
        xori(regs, imm, rs1, rd)[other.spec_index()] == regs[other.spec_index()],
        lui(regs, imm, rd)[other.spec_index()] == regs[other.spec_index()],
{
}

/// After `LUI`, `rd` holds `imm` bit for bit: read as signed it is `imm`.
pub proof fn lemma_lui_holds_imm(regs: Seq<XValue>, imm: i64, rd: XRegister)
    requires
        regs.len() == 32,
    ensures
        as_signed(lui(regs, imm, rd)[rd.spec_index()]) == imm,
{
}

/// After `AUIPC`, `rd` holds `(pc + imm) mod 2^64` and the program counter is
/// what it was.
pub proof fn lemma_auipc(hart: HartView, imm: i64, rd: XRegister)
    requires
        hart.xregisters.len() == 32,
    ensures
        auipc(hart, imm, rd).xregisters[rd.spec_index()] == (hart.pc + imm)
            % 0x1_0000_0000_0000_0000,
        auipc(hart, imm, rd).pc == hart.pc,
{
}

/// `JAL` jumps to `(pc + imm) mod 2^64` and leaves `pc + width` in `rd`.
pub proof fn lemma_jal(hart: HartView, imm: i64, rd: XRegister, width: u64)
    requires
        hart.xregisters.len() == 32,
    ensures
        jal_target(hart, imm) == (hart.pc + imm) % 0x1_0000_0000_0000_0000,
        link(hart, rd, width).xregisters[rd.spec_index()] == (hart.pc + width)
            % 0x1_0000_0000_0000_0000,
        link(hart, rd, width).pc == hart.pc,
{
}

/// `JALR` jumps to `((rs1 + imm) mod 2^64) & !1` and leaves `pc + width` in
/// `rd`. The target comes from the value that `rs1` held before the
/// instruction, also where `rd` is `rs1`.
pub proof fn lemma_jalr(hart: HartView, imm: i64, rs1: XRegister, rd: XRegister, width: u64)
    requires
        hart.xregisters.len() == 32,
    ensures
        jalr_target(hart, imm, rs1) == add_imm(hart.xregisters[rs1.spec_index()], imm) & !1u64,
        link(hart, rd, width).xregisters[rd.spec_index()] == (hart.pc + width)
            % 0x1_0000_0000_0000_0000,
        link(hart, rd, width).pc == hart.pc,
{
    lemma_clear_lsb_is_mask(add_imm(hart.xregisters[rs1.spec_index()], imm));
}

/// Where the two possible next program counters of a branch differ, the
/// branch goes to `pc + imm` if and only if it is taken.
///
/// They coincide exactly when `imm` is the instruction width modulo 2^64;
/// the next program counter is then the same whether or not the branch is
/// taken.
pub proof fn lemma_branch_target_iff_taken(hart: HartView, imm: i64, taken: bool, width: u64)
    requires
        add_imm(hart.pc, imm) != add_width(hart.pc, width),
    ensures
        branch_target(hart, imm, taken, width) == add_imm(hart.pc, imm) <==> taken,
        branch_target(hart, imm, taken, width) == add_width(hart.pc, width) <==> !taken,
{
}

/// The two possible next program counters of a branch coincide exactly when
/// `imm` is the instruction width modulo 2^64.
pub proof fn lemma_branch_targets_coincide(hart: HartView, imm: i64, width: u64)
    ensures
        add_imm(hart.pc, imm) == add_width(hart.pc, width) <==> as_unsigned(imm) == width,
{
}

/// A branch that compares a register with itself sees two equal values:
/// `BEQ`, `BGE` and `BGEU` are taken, `BNE`, `BLT` and `BLTU` are not.
pub proof fn lemma_same_register_branch(hart: HartView, rs: XRegister)
    ensures
        beq_taken(hart, rs, rs),
        bge_taken(hart, rs, rs),
        bgeu_taken(hart, rs, rs),
        !bne_taken(hart, rs, rs),
        !blt_taken(hart, rs, rs),
        !bltu_taken(hart, rs, rs),
{
}

/// A taken branch with a zero immediate stays at the current instruction.
pub proof fn lemma_branch_self_loop(hart: HartView, width: u64)
    ensures
        branch_target(hart, 0, true, width) == hart.pc,
{
}

/// Reinterpret a signed immediate as a register value.
fn immediate_bits(imm: i64) -> (bits: XValue)
    ensures
        bits == as_unsigned(imm),
{
    let bits: u64 = imm as u64;
    assert(imm as u64 == as_unsigned(imm)) by (bit_vector);
    bits
}

/// Add a signed immediate to a register value or address, wrapping.
fn offset_by(value: XValue, imm: i64) -> (sum: XValue)
    ensures
        sum == add_imm(value, imm),
{
    value.wrapping_add(immediate_bits(imm))
}

/// Reinterpret a register value as a signed number.
fn signed(value: XValue) -> (number: i64)
    ensures
        number == as_signed(value),
{
    let number: i64 = value as i64;
    assert(value as i64 == as_signed(value)) by (bit_vector);
    number
}

/// Set the least significant bit of an address to zero.
fn without_lsb(value: XValue) -> (even: XValue)
    ensures
        even == clear_lsb(value),
{
    assert(value & !1u64 == clear_lsb(value)) by (bit_vector);
    value & !1
}

impl<M: Manager> XRegisters<M> {
    /// `ADDI` I-type instruction
    ///
    /// Saves in `rd` the sum of the value in `rs1` and `imm`, modulo 2^64.
    pub fn run_addi(&mut self, imm: i64, rs1: XRegister, rd: XRegister)
        ensures
            final(self)@ == addi(old(self)@, imm, rs1, rd),
    {
        let rval: u64 = self.read(rs1);
        let result: u64 = offset_by(rval, imm);
        self.write(rd, result);
    }

    /// `LUI` U-type instruction
    ///
    /// Saves in `rd` the immediate `imm`, bit for bit.
    pub fn run_lui(&mut self, imm: i64, rd: XRegister)
        ensures
            final(self)@ == lui(old(self)@, imm, rd),
    {
        self.write(rd, immediate_bits(imm));
    }

    /// `ANDI` I-type instruction
    ///
    /// Saves in `rd` the bitwise AND between the value in `rs1` and `imm`
    pub fn run_andi(&mut self, imm: i64, rs1: XRegister, rd: XRegister)
        ensures
            final(self)@ == andi(old(self)@, imm, rs1, rd),
    {
        let result: u64 = self.read(rs1) & immediate_bits(imm);
        self.write(rd, result)
    }

    /// `ORI` I-type instruction
    ///
    /// Saves in `rd` the bitwise OR between the value in `rs1` and `imm`
    pub fn run_ori(&mut self, imm: i64, rs1: XRegister, rd: XRegister)
        ensures
            final(self)@ == ori(old(self)@, imm, rs1, rd),
    {
        let result: u64 = self.read(rs1) | immediate_bits(imm);
        self.write(rd, result)
    }

    /// `XORI` I-type instruction
    ///
    /// Saves in `rd` the bitwise XOR between the value in `rs1` and `imm`
    pub fn run_xori(&mut self, imm: i64, rs1: XRegister, rd: XRegister)
        ensures
            final(self)@ == xori(old(self)@, imm, rs1, rd),
    {
        let result: u64 = self.read(rs1) ^ immediate_bits(imm);
        self.write(rd, result)
    }
}

impl<const MEM_LEN: usize, M: MemoryManager<MEM_LEN>> HartState<MEM_LEN, M> {
    /// `AUIPC` U-type instruction
    ///
    /// Saves in `rd` the sum of the program counter and `imm`, modulo 2^64.
    /// The program counter itself stays as it is.
    pub fn run_auipc(&mut self, imm: i64, rd: XRegister)
        ensures
            final(self)@ == auipc(old(self)@, imm, rd),
    {
        // U-type immediates have bits [31:12] set and the lower 12 bits zeroed.
        let rval: u64 = offset_by(self.pc.read(), imm);
        self.xregisters.write(rd, rval);
    }

    /// Generic `JALR` w.r.t instruction width
    pub fn run_jalr_impl<const INSTR_WIDTH: u64>(
        &mut self,
        imm: i64,
        rs1: XRegister,
        rd: XRegister,
    ) -> (target: Address)
        ensures
            target == jalr_target(old(self)@, imm, rs1),
            final(self)@ == link(old(self)@, rd, INSTR_WIDTH),
    {
        // The return address to be saved in rd
        let return_address: u64 = self.pc.read().wrapping_add(INSTR_WIDTH);

        // The target address is obtained by adding the sign-extended
        // 12-bit I-immediate to the register rs1, then setting
        // the least-significant bit of the result to zero
        let target_address: u64 = without_lsb(offset_by(self.xregisters.read(rs1), imm));

        self.xregisters.write(rd, return_address);

        target_address
    }

    /// `JALR` I-type instruction (note: uncompressed variant)
    ///
    /// Instruction mis-aligned will never be thrown because we allow C extension
    ///
    /// Always returns the target address (val(rs1) + imm)
    pub fn run_jalr(&mut self, imm: i64, rs1: XRegister, rd: XRegister) -> (target: Address)
        ensures
            target == jalr_target(old(self)@, imm, rs1),
            final(self)@ == link(old(self)@, rd, 4),
    {
        self.run_jalr_impl::<4>(imm, rs1, rd)
    }

    /// Generic `JAL` w.r.t. instruction width
    pub fn run_jal_impl<const INSTR_WIDTH: u64>(&mut self, imm: i64, rd: XRegister) -> (target:
        Address)
        ensures
            target == jal_target(old(self)@, imm),
            final(self)@ == link(old(self)@, rd, INSTR_WIDTH),
    {
        let current_pc: u64 = self.pc.read();

        // Save the address after jump instruction into rd
        let return_address: u64 = current_pc.wrapping_add(INSTR_WIDTH);
        self.xregisters.write(rd, return_address);

        offset_by(current_pc, imm)
    }

    /// `JAL` J-type instruction (note: uncompressed variant)
    ///
    /// Instruction mis-aligned will never be thrown because we allow C extension
    ///
    /// Always returns the target address (current program counter + imm)
    pub fn run_jal(&mut self, imm: i64, rd: XRegister) -> (target: Address)
        ensures
            target == jal_target(old(self)@, imm),
            final(self)@ == link(old(self)@, rd, 4),
    {
        self.run_jal_impl::<4>(imm, rd)
    }

    /// Generic `BEQ` w.r.t. instruction width
    pub fn run_beq_impl<const INSTR_WIDTH: u64>(
        &mut self,
        imm: i64,
        rs1: XRegister,
        rs2: XRegister,
    ) -> (next_pc: Address)
        ensures
            next_pc == branch_target(old(self)@, imm, beq_taken(old(self)@, rs1, rs2), INSTR_WIDTH),
            *final(self) == *old(self),
    {
        let current_pc: u64 = self.pc.read();

        // Branch if `val(rs1) == val(rs2)`, jumping `imm` bytes ahead.
        // Otherwise, jump the width of current instruction
        if self.xregisters.read(rs1) == self.xregisters.read(rs2) {
            offset_by(current_pc, imm)
        } else {
            current_pc.wrapping_add(INSTR_WIDTH)
        }
    }

    /// `BEQ` B-type instruction
    ///
    /// Returns the target address if registers contain the same value,
    /// otherwise the next instruction address
    pub fn run_beq(&mut self, imm: i64, rs1: XRegister, rs2: XRegister) -> (next_pc: Address)
        ensures
            next_pc == branch_target(old(self)@, imm, beq_taken(old(self)@, rs1, rs2), 4),
            *final(self) == *old(self),
    {
        self.run_beq_impl::<4>(imm, rs1, rs2)
    }

    /// Generic `BNE` w.r.t. instruction width
    pub fn run_bne_impl<const INSTR_WIDTH: u64>(
        &mut self,
        imm: i64,
        rs1: XRegister,
        rs2: XRegister,
    ) -> (next_pc: Address)
        ensures
            next_pc == branch_target(old(self)@, imm, bne_taken(old(self)@, rs1, rs2), INSTR_WIDTH),
            *final(self) == *old(self),
    {
        let current_pc: u64 = self.pc.read();

        // Branch if `val(rs1) != val(rs2)`, jumping `imm` bytes ahead.
        // Otherwise, jump the width of current instruction
        if self.xregisters.read(rs1) != self.xregisters.read(rs2) {
            offset_by(current_pc, imm)
        } else {
            current_pc.wrapping_add(INSTR_WIDTH)
        }
    }

    /// `BNE` B-type instruction
    ///
    /// Returns the target address if registers contain different values,
    /// otherwise the next instruction address
    pub fn run_bne(&mut self, imm: i64, rs1: XRegister, rs2: XRegister) -> (next_pc: Address)
        ensures
            next_pc == branch_target(old(self)@, imm, bne_taken(old(self)@, rs1, rs2), 4),
            *final(self) == *old(self),
    {
        self.run_bne_impl::<4>(imm, rs1, rs2)
    }

    /// Generic `BGE` w.r.t. instruction width
    pub fn run_bge_impl<const INSTR_WIDTH: u64>(
        &mut self,
        imm: i64,
        rs1: XRegister,
        rs2: XRegister,
    ) -> (next_pc: Address)
        ensures
            next_pc == branch_target(old(self)@, imm, bge_taken(old(self)@, rs1, rs2), INSTR_WIDTH),
            *final(self) == *old(self),
    {
        let current_pc: u64 = self.pc.read();

        let lhs: i64 = signed(self.xregisters.read(rs1));
        let rhs: i64 = signed(self.xregisters.read(rs2));

        if lhs >= rhs {
            offset_by(current_pc, imm)
        } else {
            current_pc.wrapping_add(INSTR_WIDTH)
        }
    }

    /// `BGE` B-type instruction
    ///
    /// Returns branching address if rs1 is greater than or equal to rs2 in signed comparison,
    /// otherwise the next instruction address
    pub fn run_bge(&mut self, imm: i64, rs1: XRegister, rs2: XRegister) -> (next_pc: Address)
        ensures
            next_pc == branch_target(old(self)@, imm, bge_taken(old(self)@, rs1, rs2), 4),
            *final(self) == *old(self),
    {
        self.run_bge_impl::<4>(imm, rs1, rs2)
    }

    /// Generic `BGEU` w.r.t. instruction width
    pub fn run_bgeu_impl<const INSTR_WIDTH: u64>(
        &mut self,
        imm: i64,
        rs1: XRegister,
        rs2: XRegister,
    ) -> (next_pc: Address)
        ensures
            next_pc == branch_target(
                old(self)@,
                imm,
                bgeu_taken(old(self)@, rs1, rs2),
                INSTR_WIDTH,
            ),
            *final(self) == *old(self),
    {
        let current_pc: u64 = self.pc.read();

        let lhs: u64 = self.xregisters.read(rs1);
        let rhs: u64 = self.xregisters.read(rs2);

        if lhs >= rhs {
            offset_by(current_pc, imm)
        } else {
            current_pc.wrapping_add(INSTR_WIDTH)
        }
    }

    /// `BGEU` B-type instruction
    ///
    /// Returns branching address if rs1 is greater than or equal to rs2 in unsigned comparison,
    /// otherwise the next instruction address
    pub fn run_bgeu(&mut self, imm: i64, rs1: XRegister, rs2: XRegister) -> (next_pc: Address)
        ensures
            next_pc == branch_target(old(self)@, imm, bgeu_taken(old(self)@, rs1, rs2), 4),
            *final(self) == *old(self),
    {
        self.run_bgeu_impl::<4>(imm, rs1, rs2)
    }

    /// Generic `BLT` w.r.t. instruction width
    pub fn run_blt_impl<const INSTR_WIDTH: u64>(
        &mut self,
        imm: i64,
        rs1: XRegister,
        rs2: XRegister,
    ) -> (next_pc: Address)
        ensures
            next_pc == branch_target(old(self)@, imm, blt_taken(old(self)@, rs1, rs2), INSTR_WIDTH),
            *final(self) == *old(self),
    {
        let current_pc: u64 = self.pc.read();

        let lhs: i64 = signed(self.xregisters.read(rs1));
        let rhs: i64 = signed(self.xregisters.read(rs2));

        if lhs < rhs {
            offset_by(current_pc, imm)
        } else {
            current_pc.wrapping_add(INSTR_WIDTH)
        }
    }

    /// `BLT` B-type instruction
    ///
    /// Returns branching address if rs1 is lower than rs2 in signed comparison,
    /// otherwise the next instruction address
    pub fn run_blt(&mut self, imm: i64, rs1: XRegister, rs2: XRegister) -> (next_pc: Address)
        ensures
            next_pc == branch_target(old(self)@, imm, blt_taken(old(self)@, rs1, rs2), 4),
            *final(self) == *old(self),
    {
        self.run_blt_impl::<4>(imm, rs1, rs2)
    }

    /// Generic `BLTU` w.r.t. instruction width
    pub fn run_bltu_impl<const INSTR_WIDTH: u64>(
        &mut self,
        imm: i64,
        rs1: XRegister,
        rs2: XRegister,
    ) -> (next_pc: Address)
        ensures
            next_pc == branch_target(
                old(self)@,
                imm,
                bltu_taken(old(self)@, rs1, rs2),
                INSTR_WIDTH,
            ),
            *final(self) == *old(self),
    {
        let current_pc: u64 = self.pc.read();

        let lhs: u64 = self.xregisters.read(rs1);
        let rhs: u64 = self.xregisters.read(rs2);

        if lhs < rhs {
            offset_by(current_pc, imm)
        } else {
            current_pc.wrapping_add(INSTR_WIDTH)
        }
    }

    /// `BLTU` B-type instruction
    ///
    /// Returns branching address if rs1 is lower than rs2 in unsigned comparison,
    /// otherwise the next instruction address
    pub fn run_bltu(&mut self, imm: i64, rs1: XRegister, rs2: XRegister) -> (next_pc: Address)
        ensures
            next_pc == branch_target(old(self)@, imm, bltu_taken(old(self)@, rs1, rs2), 4),
            *final(self) == *old(self),
    {
        self.run_bltu_impl::<4>(imm, rs1, rs2)
    }
}

} // verus!
