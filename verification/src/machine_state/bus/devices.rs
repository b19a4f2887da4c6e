//! Memory-mapped devices.
//!
//! The devices occupy a fixed range at the bottom of the bus. What the bytes
//! mean is up to each device; to the interpreter they are plain storage.

use crate::machine_state::bus::{fits, spec_fits, Address, Addressable, OutOfBounds};
use crate::state_backend::elem::{read_elem, write_elem, Elem};
use crate::state_backend::{Manager, Region, DEVICES_REGION_LEN};
use vstd::prelude::*;

verus! {

/// Length of the devices address space
pub const DEVICES_ADDRESS_SPACE_LENGTH: Address = DEVICES_REGION_LEN as Address;

/// The devices address space. The view is its bytes, one per address.
pub struct Devices<M: Manager> {
    data: M::Devices,
}

impl<M: Manager> Devices<M> {
    /// The byte at `addr`.
    pub closed spec fn byte(&self, addr: int) -> u8 {
        self.data@[addr]
    }

    pub open spec fn view(&self) -> Seq<u8> {
        Seq::new(DEVICES_ADDRESS_SPACE_LENGTH as nat, |addr: int| self.byte(addr))
    }

    /// Allocate the storage that the devices are laid out on.
    pub fn allocate(backend: &mut M) -> (space: M::Devices)
        ensures
            space@.len() == DEVICES_ADDRESS_SPACE_LENGTH,
    {
        backend.allocate_devices()
    }

    /// Bind the devices state to the allocated space.
    pub fn new_in(space: M::Devices) -> (devices: Self)
        ensures
            devices@ == space@,
    {
        proof {
            space.lemma_len();
        }
        let devices = Devices { data: space };
        assert(devices@ =~= space@);
        devices
    }
}

impl<E: Elem, M: Manager> Addressable<E> for Devices<M> {
    open spec fn space(&self) -> Seq<u8> {
        self@
    }

    open spec fn in_bounds(&self, addr: Address) -> bool {
        spec_fits(addr, E::spec_width(), DEVICES_ADDRESS_SPACE_LENGTH as nat)
    }

    fn read(&self, addr: Address) -> (result: Result<E, OutOfBounds>) {
        proof {
            self.data.lemma_len();
            assert(self@ =~= self.data@);
        }
        if fits(addr, E::width(), DEVICES_REGION_LEN) {
            Ok(read_elem(&self.data, addr as usize))
        } else {
            Err(OutOfBounds)
        }
    }

    fn write(&mut self, addr: Address, value: E) -> (result: Result<(), OutOfBounds>) {
        proof {
            self.data.lemma_len();
            assert(self@ =~= self.data@);
        }
        if fits(addr, E::width(), DEVICES_REGION_LEN) {
            write_elem(&mut self.data, addr as usize, value);
            proof {
                self.data.lemma_len();
                assert(self@ =~= self.data@);
            }
            Ok(())
        } else {
            Err(OutOfBounds)
        }
    }
}

} // verus!
