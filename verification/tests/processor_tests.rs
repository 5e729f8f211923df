use emu6502::bus::Address;
use emu6502::bus::Bus;
use emu6502::bus::Data;
use emu6502::bus::SimpleBus;
use emu6502::memory::Memory;
use emu6502::processor::create6502;

pub fn char_to_hex_byte(c: char) -> u8 {
    if ('0'..='9').contains(&c) {
        (c as u8) - b'0'
    } else if ('a'..='f').contains(&c) {
        (c as u8) - b'a' + 0x0a
    } else {
        panic!("{} not in hex byte range", c);
    }
}

pub fn str_to_byte(s: &str) -> Data {
    let x: Vec<u8> = s.to_ascii_lowercase().chars().map(char_to_hex_byte).collect();
    let high = (x[0] << 4) as u8;
    let low = x[1];
    high | low
}

fn write_program_to_memory(mem: &mut Memory, start: Address, obj_code: String) {
    let x: Vec<Data> = obj_code
        .lines()
        .filter(|s| !s.is_empty())
        .flat_map(|s| s.split_whitespace())
        .filter(|s| !s.ends_with(':'))
        .map(str_to_byte)
        .collect();

    mem.write(start, x);
}

fn make_eprom_for_program(object_code_hex_dump: &str, start: Address) -> Memory {
    let mut memory = Memory::new(0x0000, 0xffff);
    // The reset vector, little endian, at its fixed home.
    let start_low = (start & 0x00ff) as u8;
    let start_high = ((start & 0xff00) >> 8) as u8;
    memory.write(0xfffc, vec![start_low, start_high]);
    write_program_to_memory(&mut memory, start, object_code_hex_dump.to_string());
    memory
}

struct TestCase {
    hex_dump: &'static str,
    test_loc: Address,
    expected: Data,
    expected_cycles: usize,
}

fn test_the_case(test_case: TestCase) {
    let mut bus: SimpleBus<Memory> = SimpleBus { registered: vec![] };
    let mut processor = create6502();
    let memory = make_eprom_for_program(test_case.hex_dump, 0x0200);
    bus.register_device(memory.as_cloned_bus_device());

    let mut guard: u32 = 0;
    loop {
        let (_, at_break) = processor.tick(&mut bus).unwrap();
        if at_break {
            break;
        }
        guard += 1;
        assert!(guard < 10_000, "program did not halt");
    }
    assert_eq!(bus.read(test_case.test_loc), test_case.expected);
    assert_eq!(processor.get_user_cycles(), test_case.expected_cycles);
}

// Test zero page x indexed
//    nop
//    ldx #0x05
//    lda #0xaa
//    sta 0x01,X
//    nop
//    brk
//    nop
//    nop
fn sta_zp_x_case() -> TestCase {
    TestCase {
        hex_dump: "
        0200: EA A2 05 A9 AA 95 01 EA
        0208: 00 EA EA",
        test_loc: 0x0006,
        expected: 0xaa,
        expected_cycles: 16,
    }
}

fn nop_cycle_case() -> TestCase {
    TestCase { hex_dump: "0200: EA 00", test_loc: 0x0200, expected: 0xEA, expected_cycles: 4 }
}

#[test]
fn test_addressing_modes() {
    test_the_case(sta_zp_x_case());
    test_the_case(nop_cycle_case());
}
