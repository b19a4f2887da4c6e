//! The bus: one flat address space over the devices and the main memory.
//!
//! Addresses `[0, DEVICES_ADDRESS_SPACE_LENGTH)` belong to the devices, the
//! next `MEM_LEN` addresses to the main memory, and every address above that
//! is out of bounds.

pub mod devices;
pub mod main_memory;

use crate::machine_state::registers::XValue;
use crate::state_backend::elem::{lemma_load_after_store, load, store, Elem};
use crate::state_backend::{MemoryManager, Region};
use devices::{Devices, DEVICES_ADDRESS_SPACE_LENGTH};
use main_memory::MainMemory;
use vstd::prelude::*;

verus! {

/// Bus address
pub type Address = XValue;

/// An address is out of bounds.
#[derive(Clone, Copy, PartialEq, Eq, PartialOrd, Ord, Debug)]
pub struct OutOfBounds;

/// Addressable space
///
/// The space is a sequence of bytes indexed by address. An element of type
/// `E` occupies `E::spec_width()` consecutive bytes, least significant first.
pub trait Addressable<E: Elem>: Sized {
    /// The bytes of the space, one per address.
    spec fn space(&self) -> Seq<u8>;

    /// Whether an element of type `E` at `addr` lies inside the space without
    /// running over the end of a region.
    spec fn in_bounds(&self, addr: Address) -> bool;

    /// Read an element of type `E` from the given address.
    fn read(&self, addr: Address) -> (result: Result<E, OutOfBounds>)
        ensures
            self.in_bounds(addr) ==> result == Ok::<E, OutOfBounds>(
                load::<E>(self.space(), addr as int),
            ),
            !self.in_bounds(addr) ==> result == Err::<E, OutOfBounds>(OutOfBounds),
    ;

    /// Write an element of type `E` to the given address.
    fn write(&mut self, addr: Address, value: E) -> (result: Result<(), OutOfBounds>)
        ensures
            old(self).in_bounds(addr) ==> result == Ok::<(), OutOfBounds>(())
                && final(self).space() == store(old(self).space(), addr as int, value),
            !old(self).in_bounds(addr) ==> result == Err::<(), OutOfBounds>(OutOfBounds)
                && final(self).space() == old(self).space(),
    ;
}

/// Whether `width` bytes starting at `addr` end within the first `len`
/// addresses.
pub open spec fn spec_fits(addr: Address, width: nat, len: nat) -> bool {
    addr + width <= len
}

/// Decide [`spec_fits`] without overflowing.
pub fn fits(addr: Address, width: usize, len: usize) -> (inside: bool)
    ensures
        inside == spec_fits(addr, width as nat, len as nat),
{
    width <= len && addr <= (len - width) as u64
}

/// Address space identifier
#[derive(Clone, Copy, PartialEq, Eq, Debug)]
pub enum AddressSpace {
    Devices,
    MainMemory,
    OutOfBounds,
}

/// Where the bus sends an access to `addr` when the main memory has
/// `mem_len` bytes: the region, and the address inside that region. An
/// address outside both regions is handed back unchanged.
pub open spec fn route(addr: Address, mem_len: nat) -> (AddressSpace, Address) {
    if addr < DEVICES_ADDRESS_SPACE_LENGTH {
        (AddressSpace::Devices, addr)
    } else if addr < DEVICES_ADDRESS_SPACE_LENGTH + mem_len {
        (AddressSpace::MainMemory, (addr - DEVICES_ADDRESS_SPACE_LENGTH) as Address)
    } else {
        (AddressSpace::OutOfBounds, addr)
    }
}

/// Routing splits the addresses into three ranges: the devices come first
/// and keep their addresses, the main memory follows and is addressed from
/// zero, and everything above is out of bounds.
pub proof fn lemma_route(addr: Address, mem_len: nat)
    ensures
        addr < DEVICES_ADDRESS_SPACE_LENGTH ==> route(addr, mem_len) == (
            AddressSpace::Devices,
            addr,
        ),
        DEVICES_ADDRESS_SPACE_LENGTH <= addr < DEVICES_ADDRESS_SPACE_LENGTH + mem_len ==> route(
            addr,
            mem_len,
        ) == (AddressSpace::MainMemory, (addr - DEVICES_ADDRESS_SPACE_LENGTH) as Address),
        addr >= DEVICES_ADDRESS_SPACE_LENGTH + mem_len ==> route(addr, mem_len) == (
            AddressSpace::OutOfBounds,
            addr,
        ),
        route(addr, mem_len).0 == AddressSpace::MainMemory ==> route(addr, mem_len).1 < mem_len,
{
}

impl AddressSpace {
    /// Determine which address space the address belongs to.
    #[inline(always)]
    pub fn locate<const MEM_LEN: usize>(addr: Address) -> (target: (Self, Address))
        ensures
            target == route(addr, MEM_LEN as nat),
    {
        // Is the address within the devices address space?
        if addr < DEVICES_ADDRESS_SPACE_LENGTH {
            return (AddressSpace::Devices, addr);
        }
        let mem_addr: u64 = addr.saturating_sub(DEVICES_ADDRESS_SPACE_LENGTH);
        let mem_size: u64 = MEM_LEN as u64;

        // Is the address within the main memory address space?
        if mem_addr < mem_size {
            return (AddressSpace::MainMemory, mem_addr);
        }
        // Address is entirely out of bounds.
        (AddressSpace::OutOfBounds, addr)
    }
}

/// Bus connects to the main memory and other devices.
///
/// The view is the whole address space: the bytes of the devices followed by
/// those of the main memory.
pub struct Bus<const MEM_LEN: usize, M: MemoryManager<MEM_LEN>> {
    devices: Devices<M>,
    memory: MainMemory<MEM_LEN, M>,
}

impl<const MEM_LEN: usize, M: MemoryManager<MEM_LEN>> Bus<MEM_LEN, M> {
    /// The byte of the devices region at local address `addr`.
    pub closed spec fn devices_byte(&self, addr: int) -> u8 {
        self.devices@[addr]
    }

    /// The byte of the main memory region at local address `addr`.
    pub closed spec fn memory_byte(&self, addr: int) -> u8 {
        self.memory@[addr]
    }

    /// The bytes of the devices region.
    pub open spec fn devices_space(&self) -> Seq<u8> {
        Seq::new(DEVICES_ADDRESS_SPACE_LENGTH as nat, |addr: int| self.devices_byte(addr))
    }

    /// The bytes of the main memory region.
    pub open spec fn memory_space(&self) -> Seq<u8> {
        Seq::new(MEM_LEN as nat, |addr: int| self.memory_byte(addr))
    }

    pub open spec fn view(&self) -> Seq<u8> {
        self.devices_space() + self.memory_space()
    }

    /// The region views are those of the two parts.
    proof fn lemma_parts(&self)
        ensures
            self.devices_space() == self.devices@,
            self.memory_space() == self.memory@,
    {
        assert(self.devices_space() =~= self.devices@);
        assert(self.memory_space() =~= self.memory@);
    }

    /// Allocate the storage that the bus is laid out on.
    pub fn allocate(backend: &mut M) -> (space: (M::Devices, M::Memory))
        ensures
            space.0@.len() == DEVICES_ADDRESS_SPACE_LENGTH,
            space.1@.len() == MEM_LEN,
    {
        let devices = backend.allocate_devices();
        let memory = backend.allocate_memory();
        (devices, memory)
    }

    /// Bind the Bus state to the allocated space.
    pub fn new_in(space: (M::Devices, M::Memory)) -> (bus: Self)
        ensures
            bus.devices_space() == space.0@,
            bus.memory_space() == space.1@,
    {
        let bus = Self { devices: Devices::new_in(space.0), memory: MainMemory::new_in(space.1) };
        proof {
            bus.lemma_parts();
        }
        bus
    }

    /// What a read of an `E` at `addr` gives: the access goes to the region
    /// that `route` names, at the local address it names, and is out of
    /// bounds if the element would run over that region's end.
    pub open spec fn routed_read<E: Elem>(&self, addr: Address) -> Result<E, OutOfBounds> {
        let (target, local) = route(addr, MEM_LEN as nat);
        match target {
            AddressSpace::Devices => if spec_fits(
                local,
                E::spec_width(),
                DEVICES_ADDRESS_SPACE_LENGTH as nat,
            ) {
                Ok(load::<E>(self.devices_space(), local as int))
            } else {
                Err(OutOfBounds)
            },
            AddressSpace::MainMemory => if spec_fits(local, E::spec_width(), MEM_LEN as nat) {
                Ok(load::<E>(self.memory_space(), local as int))
            } else {
                Err(OutOfBounds)
            },
            AddressSpace::OutOfBounds => Err(OutOfBounds),
        }
    }

    /// The devices and the main memory after a write of `value` at `addr`:
    /// the region that `route` names takes the element at the local address,
    /// unless it would run over the region's end; the other region, and both
    /// where the write is out of bounds, stay as they are.
    pub open spec fn routed_write<E: Elem>(&self, addr: Address, value: E) -> (
        Seq<u8>,
        Seq<u8>,
    ) {
        let (target, local) = route(addr, MEM_LEN as nat);
        match target {
            AddressSpace::Devices => if spec_fits(
                local,
                E::spec_width(),
                DEVICES_ADDRESS_SPACE_LENGTH as nat,
            ) {
                (store(self.devices_space(), local as int, value), self.memory_space())
            } else {
                (self.devices_space(), self.memory_space())
            },
            AddressSpace::MainMemory => if spec_fits(local, E::spec_width(), MEM_LEN as nat) {
                (self.devices_space(), store(self.memory_space(), local as int, value))
            } else {
                (self.devices_space(), self.memory_space())
            },
            AddressSpace::OutOfBounds => (self.devices_space(), self.memory_space()),
        }
    }
}

/// An access that the bus accepts lies within its address space, and what
/// was written by it is what a read at the same address gives.
pub proof fn lemma_bus_read_after_write<E: Elem, const MEM_LEN: usize, M: MemoryManager<MEM_LEN>>(
    bus: Bus<MEM_LEN, M>,
    addr: Address,
    value: E,
)
    requires
        Addressable::<E>::in_bounds(&bus, addr),
    ensures
        addr + E::spec_width() <= bus@.len(),
        load::<E>(store(bus@, addr as int, value), addr as int) == value,
{
    lemma_load_after_store(bus@, addr as int, value);
}

impl<E: Elem, const MEM_LEN: usize, M: MemoryManager<MEM_LEN>> Addressable<E> for Bus<
    MEM_LEN,
    M,
> {
    open spec fn space(&self) -> Seq<u8> {
        self@
    }

    open spec fn in_bounds(&self, addr: Address) -> bool {
        let (target, local) = route(addr, MEM_LEN as nat);
        match target {
            AddressSpace::Devices => spec_fits(
                local,
                E::spec_width(),
                DEVICES_ADDRESS_SPACE_LENGTH as nat,
            ),
            AddressSpace::MainMemory => spec_fits(local, E::spec_width(), MEM_LEN as nat),
            AddressSpace::OutOfBounds => false,
        }
    }

    #[inline(always)]
    fn read(&self, addr: Address) -> (result: Result<E, OutOfBounds>)
        returns
            self.routed_read::<E>(addr),
    {
        let (addr_space, local_address) = AddressSpace::locate::<MEM_LEN>(addr);
        proof {
            self.lemma_parts();
            let width = E::spec_width() as int;
            if addr_space == AddressSpace::Devices && addr + width <= self.devices_space().len() {
                assert(self@.subrange(addr as int, addr + width)
                    =~= self.devices_space().subrange(addr as int, addr + width));
            }
            if addr_space == AddressSpace::MainMemory && local_address + width <= MEM_LEN {
                assert(self@.subrange(addr as int, addr + width)
                    =~= self.memory_space().subrange(
                    local_address as int,
                    local_address + width,
                ));
            }
        }
        match addr_space {
            AddressSpace::Devices => self.devices.read(local_address),
            AddressSpace::MainMemory => self.memory.read(local_address),
            AddressSpace::OutOfBounds => Err(OutOfBounds),
        }
    }

    #[inline(always)]
    fn write(&mut self, addr: Address, value: E) -> (result: Result<(), OutOfBounds>)
        ensures
            (final(self).devices_space(), final(self).memory_space()) == old(self).routed_write(
                addr,
                value,
            ),
    {
        let (addr_space, local_address) = AddressSpace::locate::<MEM_LEN>(addr);
        proof {
            self.lemma_parts();
        }
        let result = match addr_space {
            AddressSpace::Devices => self.devices.write(local_address, value),
            AddressSpace::MainMemory => self.memory.write(local_address, value),
            AddressSpace::OutOfBounds => Err(OutOfBounds),
        };
        proof {
            self.lemma_parts();
            if result.is_ok() {
                assert(self@ =~= store(old(self)@, addr as int, value));
            }
        }
        result
    }
}

} // verus!
