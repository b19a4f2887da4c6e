use risc_v_interpreter::machine_state::bus::devices::{Devices, DEVICES_ADDRESS_SPACE_LENGTH};
use risc_v_interpreter::machine_state::bus::main_memory::{MainMemory, M1K, M1M};
use risc_v_interpreter::machine_state::bus::{fits, Addressable, AddressSpace, Bus, OutOfBounds};
use risc_v_interpreter::state_backend::{InMemory, Manager, MemoryManager};

const DEVICES_LEN: u64 = DEVICES_ADDRESS_SPACE_LENGTH;
const MEM_LEN: u64 = M1K as u64;

fn new_bus() -> Bus<M1K, InMemory> {
    let mut backend = InMemory;
    let space = Bus::<M1K, InMemory>::allocate(&mut backend);
    Bus::new_in(space)
}

#[test]
fn test_devices_length() {
    assert_eq!(DEVICES_ADDRESS_SPACE_LENGTH, 4096);
}

#[test]
fn test_locate_devices() {
    assert_eq!(AddressSpace::locate::<M1K>(0), (AddressSpace::Devices, 0));
    assert_eq!(AddressSpace::locate::<M1K>(17), (AddressSpace::Devices, 17));
    assert_eq!(
        AddressSpace::locate::<M1K>(DEVICES_LEN - 1),
        (AddressSpace::Devices, DEVICES_LEN - 1)
    );
}

#[test]
fn test_locate_main_memory() {
    assert_eq!(AddressSpace::locate::<M1K>(DEVICES_LEN), (AddressSpace::MainMemory, 0));
    assert_eq!(AddressSpace::locate::<M1K>(DEVICES_LEN + 5), (AddressSpace::MainMemory, 5));
    assert_eq!(
        AddressSpace::locate::<M1K>(DEVICES_LEN + MEM_LEN - 1),
        (AddressSpace::MainMemory, MEM_LEN - 1)
    );
}

#[test]
fn test_locate_out_of_bounds() {
    assert_eq!(
        AddressSpace::locate::<M1K>(DEVICES_LEN + MEM_LEN),
        (AddressSpace::OutOfBounds, DEVICES_LEN + MEM_LEN)
    );
    assert_eq!(AddressSpace::locate::<M1K>(u64::MAX), (AddressSpace::OutOfBounds, u64::MAX));
}

#[test]
fn test_locate_follows_memory_length() {
    let addr = DEVICES_LEN + MEM_LEN;
    assert_eq!(AddressSpace::locate::<M1M>(addr), (AddressSpace::MainMemory, MEM_LEN));
    assert_eq!(AddressSpace::locate::<0>(DEVICES_LEN), (AddressSpace::OutOfBounds, DEVICES_LEN));
}

#[test]
fn test_bus_read_at_region_boundaries() {
    let mut bus = new_bus();
    assert_eq!(bus.write(DEVICES_LEN - 1, 0xD1_u8), Ok(()));
    assert_eq!(bus.write(DEVICES_LEN, 0xA7_u8), Ok(()));

    let last_device: Result<u8, OutOfBounds> = bus.read(DEVICES_LEN - 1);
    assert_eq!(last_device, Ok(0xD1));
    let first_memory: Result<u8, OutOfBounds> = bus.read(DEVICES_LEN);
    assert_eq!(first_memory, Ok(0xA7));
    let beyond: Result<u8, OutOfBounds> = bus.read(DEVICES_LEN + MEM_LEN);
    assert_eq!(beyond, Err(OutOfBounds));
}

#[test]
fn test_bus_access_may_not_straddle_regions() {
    let mut bus = new_bus();
    let read: Result<u16, OutOfBounds> = bus.read(DEVICES_LEN - 1);
    assert_eq!(read, Err(OutOfBounds));
    assert_eq!(bus.write(DEVICES_LEN - 7, 1_u64), Err(OutOfBounds));
    assert_eq!(bus.write(DEVICES_LEN - 8, 1_u64), Ok(()));

    let read: Result<u64, OutOfBounds> = bus.read(DEVICES_LEN + MEM_LEN - 7);
    assert_eq!(read, Err(OutOfBounds));
    let read: Result<u64, OutOfBounds> = bus.read(DEVICES_LEN + MEM_LEN - 8);
    assert_eq!(read, Ok(0));
}

#[test]
fn test_bus_rejected_write_changes_nothing() {
    let mut bus = new_bus();
    assert_eq!(bus.write(DEVICES_LEN - 2, 0x1122_u16), Ok(()));
    assert_eq!(bus.write(DEVICES_LEN - 1, 0xFFFF_FFFF_u32), Err(OutOfBounds));
    let kept: Result<u16, OutOfBounds> = bus.read(DEVICES_LEN - 2);
    assert_eq!(kept, Ok(0x1122));
    let memory: Result<u32, OutOfBounds> = bus.read(DEVICES_LEN);
    assert_eq!(memory, Ok(0));
}

#[test]
fn test_bus_address_near_the_top_is_out_of_bounds() {
    let mut bus = new_bus();
    let read: Result<u64, OutOfBounds> = bus.read(u64::MAX);
    assert_eq!(read, Err(OutOfBounds));
    let read: Result<u8, OutOfBounds> = bus.read(u64::MAX - 7);
    assert_eq!(read, Err(OutOfBounds));
    assert_eq!(bus.write(u64::MAX - 3, 0_u32), Err(OutOfBounds));
}

#[test]
fn test_bus_is_little_endian() {
    let mut bus = new_bus();
    let addr = DEVICES_LEN + 16;
    assert_eq!(bus.write(addr, 0x1122_3344_5566_7788_u64), Ok(()));

    let expected_bytes = [0x88_u8, 0x77, 0x66, 0x55, 0x44, 0x33, 0x22, 0x11];
    for (offset, expected) in expected_bytes.into_iter().enumerate() {
        let byte: Result<u8, OutOfBounds> = bus.read(addr + offset as u64);
        assert_eq!(byte, Ok(expected));
    }
    let half: Result<u16, OutOfBounds> = bus.read(addr);
    assert_eq!(half, Ok(0x7788));
    let word: Result<u32, OutOfBounds> = bus.read(addr + 4);
    assert_eq!(word, Ok(0x1122_3344));
    let unaligned: Result<u32, OutOfBounds> = bus.read(addr + 1);
    assert_eq!(unaligned, Ok(0x4455_6677));
}

#[test]
fn test_bus_write_touches_only_the_element() {
    let mut bus = new_bus();
    let addr = DEVICES_LEN + 32;
    assert_eq!(bus.write(addr, u64::MAX), Ok(()));
    assert_eq!(bus.write(addr + 2, 0_u16), Ok(()));
    let all: Result<u64, OutOfBounds> = bus.read(addr);
    assert_eq!(all, Ok(0xFFFF_FFFF_0000_FFFF));
}

#[test]
fn test_signed_reads_reinterpret_the_bits() {
    let mut bus = new_bus();
    assert_eq!(bus.write(8, 0xFF_u8), Ok(()));
    let value: Result<i8, OutOfBounds> = bus.read(8);
    assert_eq!(value, Ok(-1));

    assert_eq!(bus.write(16, 0x8000_u16), Ok(()));
    let value: Result<i16, OutOfBounds> = bus.read(16);
    assert_eq!(value, Ok(i16::MIN));

    assert_eq!(bus.write(24, -2_i32), Ok(()));
    let value: Result<u32, OutOfBounds> = bus.read(24);
    assert_eq!(value, Ok(0xFFFF_FFFE));

    assert_eq!(bus.write(32, i64::MIN + 5), Ok(()));
    let value: Result<u64, OutOfBounds> = bus.read(32);
    assert_eq!(value, Ok(0x8000_0000_0000_0005));
    let value: Result<i64, OutOfBounds> = bus.read(32);
    assert_eq!(value, Ok(i64::MIN + 5));
}

#[test]
fn test_devices_bounds() {
    let mut backend = InMemory;
    let mut devices = Devices::<InMemory>::new_in(backend.allocate_devices());
    assert_eq!(devices.write(DEVICES_LEN - 4, 0xCAFE_F00D_u32), Ok(()));
    let value: Result<u32, OutOfBounds> = devices.read(DEVICES_LEN - 4);
    assert_eq!(value, Ok(0xCAFE_F00D));
    let value: Result<u32, OutOfBounds> = devices.read(DEVICES_LEN - 3);
    assert_eq!(value, Err(OutOfBounds));
    assert_eq!(devices.write(DEVICES_LEN, 0_u8), Err(OutOfBounds));
}

#[test]
fn test_main_memory_bounds() {
    let mut backend = InMemory;
    let space = <InMemory as MemoryManager<M1K>>::allocate_memory(&mut backend);
    let mut memory = MainMemory::<M1K, InMemory>::new_in(space);
    assert_eq!(memory.write(MEM_LEN - 2, -3_i16), Ok(()));
    let value: Result<i16, OutOfBounds> = memory.read(MEM_LEN - 2);
    assert_eq!(value, Ok(-3));
    let value: Result<i16, OutOfBounds> = memory.read(MEM_LEN - 1);
    assert_eq!(value, Err(OutOfBounds));
    assert_eq!(memory.write(MEM_LEN, 0_u8), Err(OutOfBounds));
}

#[test]
fn test_memory_shorter_than_an_element() {
    let mut backend = InMemory;
    let space = <InMemory as MemoryManager<4>>::allocate_memory(&mut backend);
    let mut memory = MainMemory::<4, InMemory>::new_in(space);
    let value: Result<u64, OutOfBounds> = memory.read(0);
    assert_eq!(value, Err(OutOfBounds));
    assert_eq!(memory.write(0, 0x0102_0304_u32), Ok(()));
    let value: Result<u8, OutOfBounds> = memory.read(3);
    assert_eq!(value, Ok(1));
}

#[test]
fn test_fits() {
    assert!(fits(0, 8, 8));
    assert!(!fits(1, 8, 8));
    assert!(!fits(0, 8, 4));
    assert!(fits(4, 0, 4));
    assert!(!fits(u64::MAX, 1, 4096));
}

#[test]
fn test_out_of_bounds_is_comparable() {
    assert_eq!(OutOfBounds, OutOfBounds);
    assert!(OutOfBounds <= OutOfBounds);
    let copy = OutOfBounds;
    assert_eq!(format!("{:?}", copy), "OutOfBounds");
}
