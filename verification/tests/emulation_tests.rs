use emu6502::bus::Address;
use emu6502::bus::Bus;
use emu6502::bus::BusDevice;
use emu6502::bus::SimpleBus;
use emu6502::memory::Memory;
use emu6502::processor::create6502;
use emu6502::processor::create_instruction_for_mode;
use emu6502::processor::fetch_operations_for_mode;
use emu6502::processor::AddressingMode;
use emu6502::processor::DataRegister;
use emu6502::processor::InternalOperations;
use emu6502::processor::Proc6502;

/// A bus holding one memory device that covers the whole space, with
/// the reset vector pointing at `start` and `program` loaded there.
fn machine_with_program(start: Address, program: Vec<u8>) -> SimpleBus<Memory> {
    let mut memory = Memory::new(0x0000, 0xffff);
    memory.write(0xfffc, vec![(start & 0x00ff) as u8, (start >> 8) as u8]);
    memory.write(start, program);
    let mut bus: SimpleBus<Memory> = SimpleBus { registered: vec![] };
    bus.register_device(memory);
    bus
}

fn run_to_halt(processor: &mut Proc6502, bus: &mut SimpleBus<Memory>) {
    let mut guard: u32 = 0;
    loop {
        let (_, at_break) = processor.tick(bus).unwrap();
        if at_break {
            break;
        }
        guard += 1;
        assert!(guard < 10_000, "program did not halt");
    }
}

/// Cycle baseline: 0 immediately after construction, and still 0 after
/// exactly the three boot ticks (the subtraction saturates meanwhile);
/// the first program tick is the first counted one.
#[test]
fn user_cycles_baseline() {
    let mut bus = machine_with_program(0x0200, vec![0xea, 0x00]);
    let mut processor = create6502();
    assert_eq!(processor.get_user_cycles(), 0);

    processor.tick(&mut bus).unwrap();
    assert_eq!(processor.get_user_cycles(), 0);
    processor.tick(&mut bus).unwrap();
    assert_eq!(processor.get_user_cycles(), 0);
    processor.tick(&mut bus).unwrap();
    assert_eq!(processor.get_user_cycles(), 0);

    processor.tick(&mut bus).unwrap();
    assert_eq!(processor.get_user_cycles(), 1);
}

/// Reset scenario: with the vector holding [0x00, 0x02], the third tick
/// leaves PC at 0x0200.
#[test]
fn boot_sequence_jumps_to_reset_vector() {
    let mut bus = machine_with_program(0x0200, vec![0xea, 0x00]);
    let mut processor = create6502();
    processor.tick(&mut bus).unwrap();
    processor.tick(&mut bus).unwrap();
    let (pc, halted) = processor.tick(&mut bus).unwrap();
    assert_eq!(pc, 0x0200);
    assert!(!halted);
}

/// Address assembly: the Absolute fetch prefix rebuilds InternalAddress
/// from the two operand bytes alone. The first store leaves stale
/// address contents behind; the second lands exactly at 0x1234, and
/// nothing lands where an OR-merge of the two addresses would point.
#[test]
fn absolute_address_is_overwritten_not_merged() {
    // LDA #$77; STA $0102; LDA #$AA; STA $1234; BRK
    let program = vec![0xa9, 0x77, 0x8d, 0x02, 0x01, 0xa9, 0xaa, 0x8d, 0x34, 0x12, 0x00];
    let mut bus = machine_with_program(0x0200, program);
    let mut processor = create6502();
    run_to_halt(&mut processor, &mut bus);
    assert_eq!(bus.read(0x0102), 0x77);
    assert_eq!(bus.read(0x1234), 0xaa);
    // 0x0102 | 0x1234 == 0x1336: the merge address stays untouched.
    assert_eq!(bus.read(0x1336), 0);
}

/// End-to-end: NOP; LDX #$05; LDA #$AA; STA $01,X; NOP; BRK leaves
/// 0xAA at 0x0006 (zero-page 0x01 indexed by X = 5).
#[test]
fn zero_page_indexed_store_lands_at_indexed_address() {
    let program = vec![0xea, 0xa2, 0x05, 0xa9, 0xaa, 0x95, 0x01, 0xea, 0x00];
    let mut bus = machine_with_program(0x0200, program);
    let mut processor = create6502();
    run_to_halt(&mut processor, &mut bus);
    assert_eq!(bus.read(0x0006), 0xaa);
}

/// End-to-end: NOP; BRK takes a pinned baseline of 4 user cycles (two
/// two-cycle instructions: fetch + execute each).
#[test]
fn nop_brk_cycle_baseline() {
    let mut bus = machine_with_program(0x0200, vec![0xea, 0x00]);
    let mut processor = create6502();
    run_to_halt(&mut processor, &mut bus);
    assert_eq!(processor.get_user_cycles(), 4);
}

/// An opcode absent from the table is a fatal decode error carrying the
/// offending byte, never a silent no-op.
#[test]
fn unknown_opcode_is_a_decode_error() {
    let mut bus = machine_with_program(0x0200, vec![0x02]);
    let mut processor = create6502();
    processor.tick(&mut bus).unwrap();
    processor.tick(&mut bus).unwrap();
    processor.tick(&mut bus).unwrap();
    let result = processor.tick(&mut bus);
    assert!(result.is_err());
    assert_eq!(result.unwrap_err().opcode, 0x02);
}

/// Reset re-primes the boot sequence and rewinds the registers while
/// the monotonic cycle counter keeps counting.
#[test]
fn reset_reruns_the_boot_sequence() {
    let mut bus = machine_with_program(0x0200, vec![0xea, 0x00]);
    let mut processor = create6502();
    run_to_halt(&mut processor, &mut bus);
    assert_eq!(processor.get_user_cycles(), 4);

    processor.reset();
    let mut ticks = 0;
    let mut pc = 0;
    while ticks < 3 {
        let (new_pc, halted) = processor.tick(&mut bus).unwrap();
        assert!(!halted);
        pc = new_pc;
        ticks += 1;
    }
    assert_eq!(pc, 0x0200);
    // Seven ticks in all have happened; the boot allowance is taken
    // out once.
    assert_eq!(processor.get_user_cycles(), 7);
}

/// ADC adds with carry-in, reports unsigned carry-out and signed
/// overflow; 0x50 + 0x50 overflows the signed byte into 0xA0.
#[test]
fn add_with_carry_computes_sum_and_flags() {
    // LDA #$50; ADC #$50; STA $0300; BRK
    let program = vec![0xa9, 0x50, 0x69, 0x50, 0x8d, 0x00, 0x03, 0x00];
    let mut bus = machine_with_program(0x0200, program);
    let mut processor = create6502();
    run_to_halt(&mut processor, &mut bus);
    assert_eq!(bus.read(0x0300), 0xa0);
}

/// The logical accumulator functions combine with the fetched operand.
#[test]
fn logical_functions_combine_accumulator_and_operand() {
    // LDA #$F0; AND #$3C; STA $0300;
    // LDA #$F0; ORA #$3C; STA $0301;
    // LDA #$F0; EOR #$3C; STA $0302; BRK
    let program = vec![
        0xa9, 0xf0, 0x29, 0x3c, 0x8d, 0x00, 0x03, 0xa9, 0xf0, 0x09, 0x3c, 0x8d, 0x01, 0x03, 0xa9,
        0xf0, 0x49, 0x3c, 0x8d, 0x02, 0x03, 0x00,
    ];
    let mut bus = machine_with_program(0x0200, program);
    let mut processor = create6502();
    run_to_halt(&mut processor, &mut bus);
    assert_eq!(bus.read(0x0300), 0xf0 & 0x3c);
    assert_eq!(bus.read(0x0301), 0xf0 | 0x3c);
    assert_eq!(bus.read(0x0302), 0xf0 ^ 0x3c);
}

/// SBC with carry set subtracts exactly: 0x50 - 0x20 = 0x30.
#[test]
fn subtract_with_borrow_computes_difference() {
    // CMP #$00 sets carry (A >= 0), then LDA #$50; SBC #$20; STA $0300; BRK
    let program = vec![0xc9, 0x00, 0xa9, 0x50, 0xe9, 0x20, 0x8d, 0x00, 0x03, 0x00];
    let mut bus = machine_with_program(0x0200, program);
    let mut processor = create6502();
    run_to_halt(&mut processor, &mut bus);
    assert_eq!(bus.read(0x0300), 0x30);
}

/// CPX is a flags-only subtraction: it sets carry when X is at least
/// the operand, feeding the borrow of a following SBC, and leaves X
/// itself alone.
#[test]
fn compare_index_register_sets_carry_only() {
    // LDX #$05; CPX #$03; LDA #$50; SBC #$20; STA $10,X; BRK
    let program = vec![0xa2, 0x05, 0xe0, 0x03, 0xa9, 0x50, 0xe9, 0x20, 0x95, 0x10, 0x00];
    let mut bus = machine_with_program(0x0200, program);
    let mut processor = create6502();
    run_to_halt(&mut processor, &mut bus);
    // Carry was set by the compare, so the subtraction borrows nothing;
    // the store lands at 0x10 + X = 0x15, so X was not consumed.
    assert_eq!(bus.read(0x0015), 0x30);
}

/// LDY then STY moves a value through the Y register into memory.
#[test]
fn load_and_store_y_register() {
    // LDY #$42; STY $10; BRK
    let program = vec![0xa0, 0x42, 0x84, 0x10, 0x00];
    let mut bus = machine_with_program(0x0200, program);
    let mut processor = create6502();
    run_to_halt(&mut processor, &mut bus);
    assert_eq!(bus.read(0x0010), 0x42);
}

/// The fetch prefix of each addressing mode, and the rejection of the
/// two unsupported indirection modes.
#[test]
fn fetch_prefixes_match_the_mode_table() {
    assert_eq!(fetch_operations_for_mode(&AddressingMode::Implied), Some(vec![]));
    assert_eq!(
        fetch_operations_for_mode(&AddressingMode::Immediate),
        Some(vec![InternalOperations::FetchImmediateOperand])
    );
    assert_eq!(
        fetch_operations_for_mode(&AddressingMode::Absolute),
        Some(vec![InternalOperations::FetchAddrLo, InternalOperations::FetchAddrHi])
    );
    assert_eq!(
        fetch_operations_for_mode(&AddressingMode::ZeroPageIndexed { reg: DataRegister::X }),
        Some(vec![
            InternalOperations::FetchZeroPageAddr,
            InternalOperations::IncrementAddressByReg { reg: DataRegister::X, with_carry: false },
        ])
    );
    assert_eq!(
        fetch_operations_for_mode(&AddressingMode::AbsIndexed { reg: DataRegister::Y }),
        Some(vec![
            InternalOperations::FetchAddrLo,
            InternalOperations::FetchAddrHi,
            InternalOperations::IncrementAddressByReg { reg: DataRegister::Y, with_carry: true },
        ])
    );
    assert_eq!(fetch_operations_for_mode(&AddressingMode::IndexedIndirect), None);
    assert_eq!(fetch_operations_for_mode(&AddressingMode::IndirectIndexed), None);
}

/// A processor registered as a bus device covers no address at all: a
/// bus holding only processors answers every read with the open-bus 0
/// and drops every write.
#[test]
fn processor_is_an_inert_bus_device() {
    let processor = create6502();
    assert!(!processor.is_readable_for(0x0000));
    assert!(!processor.is_writable_for(0xfffc));

    let mut bus: SimpleBus<Proc6502> = SimpleBus { registered: vec![] };
    bus.register_device(create6502());
    assert_eq!(bus.read(0x1234), 0);
    bus.write(0x1234, 0x55);
    assert_eq!(bus.read(0x1234), 0);
}

/// A built table entry carries the opcode, the mnemonic, the mode and
/// the prefix-plus-semantics micro-operation list; a rejected mode
/// yields no entry.
#[test]
fn instruction_entries_chain_prefix_and_semantics() {
    let semantics = vec![InternalOperations::StoreToRegister {
        src: DataRegister::InternalOperand,
        dst: DataRegister::A,
    }];
    let built = create_instruction_for_mode(0xa9, "LDA", AddressingMode::Immediate, &semantics);
    let (opcode, instruction) = built.expect("a supported mode builds an entry");
    assert_eq!(opcode, 0xa9);
    assert_eq!(instruction.mnemonic, "LDA");
    assert_eq!(instruction.addressing, AddressingMode::Immediate);
    assert_eq!(
        instruction.operations,
        vec![
            InternalOperations::FetchImmediateOperand,
            InternalOperations::StoreToRegister {
                src: DataRegister::InternalOperand,
                dst: DataRegister::A,
            },
        ]
    );

    let rejected =
        create_instruction_for_mode(0x01, "ORA", AddressingMode::IndirectIndexed, &semantics);
    assert!(rejected.is_none());
}
