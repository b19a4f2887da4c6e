//! Main memory.

use crate::machine_state::bus::{fits, spec_fits, Address, Addressable, OutOfBounds};
use crate::state_backend::elem::{read_elem, write_elem, Elem};
use crate::state_backend::{MemoryManager, Region};
use vstd::prelude::*;

verus! {

/// 1 KiB of main memory.
pub const M1K: usize = 1024;

/// 1 MiB of main memory.
pub const M1M: usize = 1024 * 1024;

/// 1 GiB of main memory.
pub const M1G: usize = 1024 * 1024 * 1024;

/// A main memory of `LEN` bytes. The view is its bytes, one per address.
pub struct MainMemory<const LEN: usize, M: MemoryManager<LEN>> {
    data: M::Memory,
}

impl<const LEN: usize, M: MemoryManager<LEN>> MainMemory<LEN, M> {
    /// The byte at `addr`.
    pub closed spec fn byte(&self, addr: int) -> u8 {
        self.data@[addr]
    }

    pub open spec fn view(&self) -> Seq<u8> {
        Seq::new(LEN as nat, |addr: int| self.byte(addr))
    }

    /// Allocate the storage that the memory is laid out on.
    pub fn allocate(backend: &mut M) -> (space: M::Memory)
        ensures
            space@.len() == LEN,
    {
        backend.allocate_memory()
    }

    /// Bind the main memory state to the allocated space.
    pub fn new_in(space: M::Memory) -> (memory: Self)
        ensures
            memory@ == space@,
    {
        proof {
            space.lemma_len();
        }
        let memory = MainMemory { data: space };
        assert(memory@ =~= space@);
        memory
    }
}

impl<E: Elem, const LEN: usize, M: MemoryManager<LEN>> Addressable<E> for MainMemory<LEN, M> {
    open spec fn space(&self) -> Seq<u8> {
        self@
    }

    open spec fn in_bounds(&self, addr: Address) -> bool {
        spec_fits(addr, E::spec_width(), LEN as nat)
    }

    fn read(&self, addr: Address) -> (result: Result<E, OutOfBounds>) {
        proof {
            self.data.lemma_len();
            assert(self@ =~= self.data@);
        }
        if fits(addr, E::width(), LEN) {
            Ok(read_elem(&self.data, addr as usize))
        } else {
            Err(OutOfBounds)
        }
    }

    fn write(&mut self, addr: Address, value: E) -> (result: Result<(), OutOfBounds>) {
        proof {
            self.data.lemma_len();
            assert(self@ =~= self.data@);
        }
        if fits(addr, E::width(), LEN) {
            write_elem(&mut self.data, addr as usize, value);
            proof {
                self.data.lemma_len();
                assert(self@ =~= self.data@);
            }
            Ok(())
        } else {
            Err(OutOfBounds)
        }
    }
}

} // verus!
