//! State of a hart: program counter, integer registers and bus.

pub mod bus;
pub mod registers;

use crate::state_backend::{Cell, Manager, MemoryManager, Region};
use bus::devices::DEVICES_ADDRESS_SPACE_LENGTH;
use bus::{Address, Bus};
use registers::{XRegisters, XValue};
use vstd::prelude::*;

verus! {

/// The hart state as plain values.
pub struct HartView {
    /// Program counter.
    pub pc: Address,
    /// The 32 integer registers.
    pub xregisters: Seq<XValue>,
    /// The bytes of the bus address space.
    pub bus: Seq<u8>,
}

/// RISC-V hart state
pub struct HartState<const MEM_LEN: usize, M: MemoryManager<MEM_LEN>> {
    /// Integer registers
    pub xregisters: XRegisters<M>,
    /// Program counter
    pub pc: Cell<M>,
    /// Devices and main memory
    pub bus: Bus<MEM_LEN, M>,
}

impl<const MEM_LEN: usize, M: MemoryManager<MEM_LEN>> HartState<MEM_LEN, M> {
    pub open spec fn view(&self) -> HartView {
        HartView { pc: self.pc@, xregisters: self.xregisters@, bus: self.bus@ }
    }

    /// Allocate the storage that a hart is laid out on.
    pub fn allocate(backend: &mut M) -> (space: (
        M::XRegisters,
        M::Cell,
        (M::Devices, M::Memory),
    ))
        ensures
            space.0@.len() == 32,
            space.1@.len() == 1,
            space.2.0@.len() == DEVICES_ADDRESS_SPACE_LENGTH,
            space.2.1@.len() == MEM_LEN,
    {
        let xregisters = XRegisters::<M>::allocate(backend);
        let pc = Cell::<M>::allocate(backend);
        let bus = Bus::<MEM_LEN, M>::allocate(backend);
        (xregisters, pc, bus)
    }

    /// Bind the hart state to the allocated space.
    pub fn new_in(space: (M::XRegisters, M::Cell, (M::Devices, M::Memory))) -> (hart: Self)
        ensures
            hart.xregisters@ == space.0@,
            hart.pc@ == space.1@[0],
            hart.bus.devices_space() == space.2.0@,
            hart.bus.memory_space() == space.2.1@,
    {
        Self {
            xregisters: XRegisters::new_in(space.0),
            pc: Cell::new_in(space.1),
            bus: Bus::new_in(space.2),
        }
    }
}

} // verus!
