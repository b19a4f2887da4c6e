//! Storage backends.
//!
//! All machine state lives in regions handed out by a [`Manager`]. A region is
//! a fixed-length array of cells; the state types built on top of regions are
//! generic over the manager, so the same instruction semantics run unchanged
//! whether the cells live in ordinary memory or in some other store.

pub mod elem;

use vstd::prelude::*;

verus! {

/// Number of bytes in the devices address space.
pub const DEVICES_REGION_LEN: usize = 4096;

/// Number of integer registers.
pub const XREGISTERS_LEN: usize = 32;

/// A region of exactly `LEN` cells of type `E`.
///
/// The view is the sequence of cell values, in index order.
pub trait Region<E, const LEN: usize>: Sized {
    spec fn view(&self) -> Seq<E>;

    /// Every region holds exactly `LEN` cells.
    proof fn lemma_len(&self)
        ensures
            self@.len() == LEN,
    ;

    /// Read the cell at `index`.
    fn read(&self, index: usize) -> (value: E)
        requires
            index < LEN,
        ensures
            value == self@[index as int],
    ;

    /// Overwrite the cell at `index`; all other cells keep their values.
    fn write(&mut self, index: usize, value: E)
        requires
            index < LEN,
        ensures
            final(self)@ == old(self)@.update(index as int, value),
    ;
}

/// Provider of the regions that the hart state is laid out on.
///
/// The initial contents of an allocated region are chosen by the backend.
pub trait Manager {
    /// Storage for a single 64-bit cell.
    type Cell: Region<u64, 1>;

    /// Storage for the integer register file.
    type XRegisters: Region<u64, XREGISTERS_LEN>;

    /// Storage for the devices address space.
    type Devices: Region<u8, DEVICES_REGION_LEN>;

    fn allocate_cell(&mut self) -> (region: Self::Cell)
        ensures
            region@.len() == 1,
    ;

    fn allocate_xregisters(&mut self) -> (region: Self::XRegisters)
        ensures
            region@.len() == XREGISTERS_LEN,
    ;

    fn allocate_devices(&mut self) -> (region: Self::Devices)
        ensures
            region@.len() == DEVICES_REGION_LEN,
    ;
}

/// A manager that can also provide a main memory of `LEN` bytes.
pub trait MemoryManager<const LEN: usize>: Manager {
    /// Storage for the main memory.
    type Memory: Region<u8, LEN>;

    fn allocate_memory(&mut self) -> (region: Self::Memory)
        ensures
            region@.len() == LEN,
    ;
}

/// A single 64-bit cell, such as the program counter. The view is its value.
pub struct Cell<M: Manager> {
    region: M::Cell,
}

impl<M: Manager> Cell<M> {
    pub closed spec fn view(&self) -> u64 {
        self.region@[0]
    }

    /// Allocate the storage that a cell is laid out on.
    pub fn allocate(backend: &mut M) -> (space: M::Cell)
        ensures
            space@.len() == 1,
    {
        backend.allocate_cell()
    }

    /// Bind the cell to its allocated space.
    pub fn new_in(space: M::Cell) -> (cell: Self)
        ensures
            cell@ == space@[0],
    {
        Cell { region: space }
    }

    /// Current value of the cell.
    pub fn read(&self) -> (value: u64)
        ensures
            value == self@,
    {
        self.region.read(0)
    }

    /// Replace the value of the cell.
    pub fn write(&mut self, value: u64)
        ensures
            final(self)@ == value,
    {
        proof {
            self.region.lemma_len();
        }
        self.region.write(0, value);
    }
}

/// A region whose cells are held in process memory.
pub struct Owned<E, const LEN: usize> {
    cells: Vec<E>,
}

impl<E, const LEN: usize> Owned<E, LEN> {
    #[verifier::type_invariant]
    spec fn well_formed(self) -> bool {
        self.cells@.len() == LEN
    }

    /// The cell values, in index order.
    pub closed spec fn view(&self) -> Seq<E> {
        Seq::new(LEN as nat, |i: int| self.cells@[i])
    }

    /// A region with every cell set to `init`.
    pub fn filled(init: E) -> (region: Self) where E: Copy
        ensures
            region@ == Seq::new(LEN as nat, |i: int| init),
    {
        let mut cells: Vec<E> = Vec::new();
        let mut count: usize = 0;
        while count < LEN
            invariant
                count <= LEN,
                cells@ == Seq::new(count as nat, |i: int| init),
            decreases LEN - count,
        {
            cells.push(init);
            count = count + 1;
        }
        let region = Owned { cells };
        assert(region@ =~= Seq::new(LEN as nat, |i: int| init));
        region
    }
}

impl<E: Copy, const LEN: usize> Region<E, LEN> for Owned<E, LEN> {
    open spec fn view(&self) -> Seq<E> {
        Owned::view(self)
    }

    proof fn lemma_len(&self) {
    }

    fn read(&self, index: usize) -> (value: E) {
        proof {
            use_type_invariant(self);
        }
        self.cells[index]
    }

    fn write(&mut self, index: usize, value: E) {
        proof {
            use_type_invariant(&*self);
        }
        self.cells[index] = value;
        assert(self@ =~= old(self)@.update(index as int, value));
    }
}

/// The backend for live execution: every region is an [`Owned`] array,
/// zero-filled when allocated.
pub struct InMemory;

impl Manager for InMemory {
    type Cell = Owned<u64, 1>;

    type XRegisters = Owned<u64, XREGISTERS_LEN>;

    type Devices = Owned<u8, DEVICES_REGION_LEN>;

    fn allocate_cell(&mut self) -> (region: Owned<u64, 1>)
        ensures
            region@ == Seq::new(1, |i: int| 0u64),
    {
        Owned::filled(0)
    }

    fn allocate_xregisters(&mut self) -> (region: Owned<u64, XREGISTERS_LEN>)
        ensures
            region@ == Seq::new(XREGISTERS_LEN as nat, |i: int| 0u64),
    {
        Owned::filled(0)
    }

    fn allocate_devices(&mut self) -> (region: Owned<u8, DEVICES_REGION_LEN>)
        ensures
            region@ == Seq::new(DEVICES_REGION_LEN as nat, |i: int| 0u8),
    {
        Owned::filled(0)
    }
}

impl<const LEN: usize> MemoryManager<LEN> for InMemory {
    type Memory = Owned<u8, LEN>;

    fn allocate_memory(&mut self) -> (region: Owned<u8, LEN>)
        ensures
            Owned::<u8, LEN>::view(&region) == Seq::new(LEN as nat, |i: int| 0u8),
    {
        Owned::filled(0)
    }
}

} // verus!
