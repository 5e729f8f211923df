use emu6502::bus::Bus;
use emu6502::bus::BusDevice;
use emu6502::bus::SimpleBus;
use emu6502::memory::Memory;

/// Round-trip: over the whole covered range, a write followed by a read
/// of the same address returns the written byte.
#[test]
fn memory_round_trip_over_range() {
    let mut memory = Memory::new(0x0010, 0x0040);
    let mut address: u16 = 0x0010;
    while address <= 0x0040 {
        let value = (address as u8) ^ 0x5a;
        memory.do_write(address, value);
        assert_eq!(memory.do_read(address), value);
        address += 1;
    }
    // Earlier writes survive later ones at other addresses.
    let mut check: u16 = 0x0010;
    while check <= 0x0040 {
        assert_eq!(memory.do_read(check), (check as u8) ^ 0x5a);
        check += 1;
    }
}

/// An offset never written reads as 0.
#[test]
fn memory_unwritten_reads_zero() {
    let memory = Memory::new(0x0100, 0x01ff);
    assert_eq!(memory.do_read(0x0100), 0);
    assert_eq!(memory.do_read(0x01ff), 0);
}

/// Range membership is the inclusive interval, for reading and writing.
#[test]
fn memory_range_membership() {
    let memory = Memory::new(0x0100, 0x01ff);
    assert!(memory.is_readable_for(0x0100));
    assert!(memory.is_readable_for(0x01ff));
    assert!(!memory.is_readable_for(0x00ff));
    assert!(!memory.is_readable_for(0x0200));
    assert!(memory.is_writable_for(0x0180));
    assert!(!memory.is_writable_for(0x0000));
}

/// Bus miss: an address no registered device covers reads as 0 and a
/// write there is silently dropped, with no device touched.
#[test]
fn bus_miss_reads_zero_and_write_is_dropped() {
    let mut bus: SimpleBus<Memory> = SimpleBus { registered: vec![] };
    // A miss on an empty bus.
    assert_eq!(bus.read(0x1234), 0);

    let mut covered = Memory::new(0x0100, 0x01ff);
    covered.do_write(0x0150, 0x77);
    bus.register_device(covered);

    // A miss beside the device.
    assert_eq!(bus.read(0x0050), 0);
    bus.write(0x0050, 0x99);
    assert_eq!(bus.read(0x0050), 0);
    // The registered device was not touched by the dropped write.
    assert_eq!(bus.read(0x0150), 0x77);
}

/// Write fan-out against read first-match: a write in the overlap of
/// two devices reaches both; a read there answers only from the device
/// registered first.
#[test]
fn bus_write_fans_out_and_read_takes_first_match() {
    let mut first = Memory::new(0x0000, 0x00ff);
    let mut second = Memory::new(0x0080, 0x017f);
    first.do_write(0x0090, 1);
    second.do_write(0x0090, 2);

    let mut bus: SimpleBus<Memory> = SimpleBus { registered: vec![] };
    bus.register_device(first);
    bus.register_device(second);

    // First match: the overlap reads from the first device.
    assert_eq!(bus.read(0x0090), 1);

    // Fan-out: a write in the overlap reaches both devices.
    bus.write(0x0090, 7);
    assert_eq!(bus.read(0x0090), 7);
    assert_eq!(bus.registered[0].do_read(0x0090), 7);
    assert_eq!(bus.registered[1].do_read(0x0090), 7);

    // Outside the overlap each device answers alone.
    bus.write(0x0120, 9);
    assert_eq!(bus.registered[0].do_read(0x0020), 0);
    assert_eq!(bus.read(0x0120), 9);
    assert_eq!(bus.registered[1].do_read(0x0120), 9);
}

/// Bulk load writes consecutive addresses, auto-incrementing.
#[test]
fn memory_bulk_write_is_sequential() {
    let mut memory = Memory::new(0x0000, 0xffff);
    memory.write(0x0200, vec![0xde, 0xad, 0xbe, 0xef]);
    assert_eq!(memory.do_read(0x0200), 0xde);
    assert_eq!(memory.do_read(0x0201), 0xad);
    assert_eq!(memory.do_read(0x0202), 0xbe);
    assert_eq!(memory.do_read(0x0203), 0xef);
    assert_eq!(memory.do_read(0x0204), 0);
}

/// The diagnostic dump returns exactly the stored bytes, with no side
/// effect on the store.
#[test]
fn memory_dump_returns_exact_bytes() {
    let mut memory = Memory::new(0x0000, 0xffff);
    memory.write(0x0004, vec![0x0a, 0x0b, 0x0c]);
    let bytes = memory.dump(0x0000, 0x0008);
    assert_eq!(bytes, vec![0, 0, 0, 0, 0x0a, 0x0b, 0x0c, 0, 0]);
    // No side effects: a second dump answers the same.
    assert_eq!(memory.dump(0x0004, 0x0006), vec![0x0a, 0x0b, 0x0c]);
}

/// A cloned device carries the same bounds and the same bytes.
#[test]
fn memory_clone_matches_original() {
    let mut memory = Memory::new(0x0100, 0x01ff);
    memory.write(0x0110, vec![1, 2, 3]);
    let clone = memory.as_cloned_bus_device();
    assert_eq!(clone.lower_bound, 0x0100);
    assert_eq!(clone.upper_bound, 0x01ff);
    assert_eq!(clone.do_read(0x0110), 1);
    assert_eq!(clone.do_read(0x0112), 3);
    assert_eq!(clone.do_read(0x0113), 0);
}
