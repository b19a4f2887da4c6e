//! Integer registers of a hart.

use crate::state_backend::{Manager, Region};
use vstd::prelude::*;

verus! {

/// Value held by an integer register: 64 bits, read as unsigned.
pub type XValue = u64;

/// Name of one of the 32 integer registers.
///
/// `x0` is an ordinary register here: keeping it at zero is left to whoever
/// decodes instructions.
#[allow(non_camel_case_types)]
#[derive(Clone, Copy, PartialEq, Eq, Debug)]
pub enum XRegister {
    x0,
    x1,
    x2,
    x3,
    x4,
    x5,
    x6,
    x7,
    x8,
    x9,
    x10,
    x11,
    x12,
    x13,
    x14,
    x15,
    x16,
    x17,
    x18,
    x19,
    x20,
    x21,
    x22,
    x23,
    x24,
    x25,
    x26,
    x27,
    x28,
    x29,
    x30,
    x31,
}

impl XRegister {
    /// Position of the register in the register file, in `[0, 31]`.
    pub open spec fn spec_index(self) -> int {
        match self {
            XRegister::x0 => 0,
            XRegister::x1 => 1,
            XRegister::x2 => 2,
            XRegister::x3 => 3,
            XRegister::x4 => 4,
            XRegister::x5 => 5,
            XRegister::x6 => 6,
            XRegister::x7 => 7,
            XRegister::x8 => 8,
            XRegister::x9 => 9,
            XRegister::x10 => 10,
            XRegister::x11 => 11,
            XRegister::x12 => 12,
            XRegister::x13 => 13,
            XRegister::x14 => 14,
            XRegister::x15 => 15,
            XRegister::x16 => 16,
            XRegister::x17 => 17,
            XRegister::x18 => 18,
            XRegister::x19 => 19,
            XRegister::x20 => 20,
            XRegister::x21 => 21,
            XRegister::x22 => 22,
            XRegister::x23 => 23,
            XRegister::x24 => 24,
            XRegister::x25 => 25,
            XRegister::x26 => 26,
            XRegister::x27 => 27,
            XRegister::x28 => 28,
            XRegister::x29 => 29,
            XRegister::x30 => 30,
            XRegister::x31 => 31,
        }
    }

    /// Position of the register in the register file.
    pub fn index(self) -> (i: usize)
        ensures
            i == self.spec_index(),
            i < 32,
    {
        match self {
            XRegister::x0 => 0,
            XRegister::x1 => 1,
            XRegister::x2 => 2,
            XRegister::x3 => 3,
            XRegister::x4 => 4,
            XRegister::x5 => 5,
            XRegister::x6 => 6,
            XRegister::x7 => 7,
            XRegister::x8 => 8,
            XRegister::x9 => 9,
            XRegister::x10 => 10,
            XRegister::x11 => 11,
            XRegister::x12 => 12,
            XRegister::x13 => 13,
            XRegister::x14 => 14,
            XRegister::x15 => 15,
            XRegister::x16 => 16,
            XRegister::x17 => 17,
            XRegister::x18 => 18,
            XRegister::x19 => 19,
            XRegister::x20 => 20,
            XRegister::x21 => 21,
            XRegister::x22 => 22,
            XRegister::x23 => 23,
            XRegister::x24 => 24,
            XRegister::x25 => 25,
            XRegister::x26 => 26,
            XRegister::x27 => 27,
            XRegister::x28 => 28,
            XRegister::x29 => 29,
            XRegister::x30 => 30,
            XRegister::x31 => 31,
        }
    }
}

#[allow(non_upper_case_globals)]
pub const zero: XRegister = XRegister::x0;

#[allow(non_upper_case_globals)]
pub const ra: XRegister = XRegister::x1;

#[allow(non_upper_case_globals)]
pub const sp: XRegister = XRegister::x2;

#[allow(non_upper_case_globals)]
pub const gp: XRegister = XRegister::x3;

#[allow(non_upper_case_globals)]
pub const tp: XRegister = XRegister::x4;

#[allow(non_upper_case_globals)]
pub const t0: XRegister = XRegister::x5;

#[allow(non_upper_case_globals)]
pub const t1: XRegister = XRegister::x6;

#[allow(non_upper_case_globals)]
pub const t2: XRegister = XRegister::x7;

#[allow(non_upper_case_globals)]
pub const s0: XRegister = XRegister::x8;

#[allow(non_upper_case_globals)]
pub const fp: XRegister = XRegister::x8;

#[allow(non_upper_case_globals)]
pub const s1: XRegister = XRegister::x9;

#[allow(non_upper_case_globals)]
pub const a0: XRegister = XRegister::x10;

#[allow(non_upper_case_globals)]
pub const a1: XRegister = XRegister::x11;

#[allow(non_upper_case_globals)]
pub const a2: XRegister = XRegister::x12;

#[allow(non_upper_case_globals)]
pub const a3: XRegister = XRegister::x13;

#[allow(non_upper_case_globals)]
pub const a4: XRegister = XRegister::x14;

#[allow(non_upper_case_globals)]
pub const a5: XRegister = XRegister::x15;

#[allow(non_upper_case_globals)]
pub const a6: XRegister = XRegister::x16;

#[allow(non_upper_case_globals)]
pub const a7: XRegister = XRegister::x17;

#[allow(non_upper_case_globals)]
pub const s2: XRegister = XRegister::x18;

#[allow(non_upper_case_globals)]
pub const s3: XRegister = XRegister::x19;

#[allow(non_upper_case_globals)]
pub const s4: XRegister = XRegister::x20;

#[allow(non_upper_case_globals)]
pub const s5: XRegister = XRegister::x21;

#[allow(non_upper_case_globals)]
pub const s6: XRegister = XRegister::x22;

#[allow(non_upper_case_globals)]
pub const s7: XRegister = XRegister::x23;

#[allow(non_upper_case_globals)]
pub const s8: XRegister = XRegister::x24;

#[allow(non_upper_case_globals)]
pub const s9: XRegister = XRegister::x25;

#[allow(non_upper_case_globals)]
pub const s10: XRegister = XRegister::x26;

#[allow(non_upper_case_globals)]
pub const s11: XRegister = XRegister::x27;

#[allow(non_upper_case_globals)]
pub const t3: XRegister = XRegister::x28;

#[allow(non_upper_case_globals)]
pub const t4: XRegister = XRegister::x29;

#[allow(non_upper_case_globals)]
pub const t5: XRegister = XRegister::x30;

#[allow(non_upper_case_globals)]
pub const t6: XRegister = XRegister::x31;

/// The integer register file: 32 cells of 64 bits.
///
/// The view is the sequence of the 32 register values, indexed by
/// [`XRegister::spec_index`].
pub struct XRegisters<M: Manager> {
    registers: M::XRegisters,
}

impl<M: Manager> XRegisters<M> {
    /// Value of the register at position `index`.
    pub closed spec fn value_at(&self, index: int) -> XValue {
        self.registers@[index]
    }

    pub open spec fn view(&self) -> Seq<XValue> {
        Seq::new(32, |index: int| self.value_at(index))
    }

    /// Allocate the storage that a register file is laid out on.
    pub fn allocate(backend: &mut M) -> (space: M::XRegisters)
        ensures
            space@.len() == 32,
    {
        backend.allocate_xregisters()
    }

    /// Bind the register file to its allocated space.
    pub fn new_in(space: M::XRegisters) -> (registers: Self)
        ensures
            registers@ == space@,
    {
        proof {
            space.lemma_len();
        }
        let registers = XRegisters { registers: space };
        assert(registers@ =~= space@);
        registers
    }

    /// Value of register `reg`.
    pub fn read(&self, reg: XRegister) -> (value: XValue)
        ensures
            value == self@[reg.spec_index()],
    {
        self.registers.read(reg.index())
    }

    /// Set register `reg` to `value`; the other registers keep their values.
    pub fn write(&mut self, reg: XRegister, value: XValue)
        ensures
            final(self)@ == old(self)@.update(reg.spec_index(), value),
    {
        proof {
            self.registers.lemma_len();
        }
        self.registers.write(reg.index(), value);
        assert(self@ =~= old(self)@.update(reg.spec_index(), value));
    }
}

} // verus!
