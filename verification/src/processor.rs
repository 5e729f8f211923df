//! The processor core: register file, instruction table and the
//! micro-operation state machine.
//!
//! Every instruction is decomposed, once, at table-build time, into an
//! ordered list of atomic micro-operations: a fetch prefix decided by the
//! addressing mode, followed by the instruction's own semantic
//! micro-operations. Execution consumes exactly one micro-operation per
//! clock tick, so addressing-mode computation and instruction semantics
//! compose orthogonally and the machine is resumable mid-instruction.
//!
//! The whole step relation is a spec function, [`spec_tick_step`]: one
//! tick maps the processor view and the byte read from the bus (when the
//! pending micro-operation reads) to the next view, or to a decode error
//! for an opcode absent from the table.

use vstd::prelude::*;
use vstd::string::StringExecFns;
use crate::bus::Address;
use crate::bus::Bus;
use crate::bus::BusDevice;
use crate::bus::Data;
use crate::bus::SimpleBus;
use crate::bus::bus_write_rel;
use crate::bus::spec_bus_read;
use crate::processor::AddressingMode as Mode;
use crate::processor::DataRegister as Reg;
use crate::processor::InternalOperations as Op;

verus! {

/// A data register: the three program-visible byte registers and the
/// internal operand scratch register that stages a fetched byte.
#[derive(PartialEq, Debug, Copy, Clone)]
pub enum DataRegister {
    X,
    Y,
    A,
    InternalOperand,
}

/// An address register: the program counter and the internal scratch
/// register that stages a multi-byte effective address.
#[derive(PartialEq, Debug, Copy, Clone)]
pub enum AddressRegister {
    PC,
    InternalAddress,
}

/// An ALU function combining a register with the internal operand.
#[derive(PartialEq, Debug, Copy, Clone)]
pub enum Function {
    OR,
    AND,
    EOR,
    AddWithCarry,
    COMPARE,
    SubtractWithBorrow,
}

/// One atomic unit of processor work, executed in a single tick.
#[derive(PartialEq, Debug, Copy, Clone)]
pub enum InternalOperations {
    /// Does nothing for one cycle.
    NOP,
    /// Raises the halted flag.
    BRK,
    /// Reads the byte at InternalAddress into the low byte of a fresh
    /// InternalAddress, staging it in InternalOperand.
    ReadAddressLo,
    /// Reads the byte after InternalAddress as the high byte and joins
    /// it with the staged low byte: the double-indirection dereference.
    ReadAddressHi,
    /// Adds the signed InternalOperand to PC: a branch displacement.
    IncrementPCBySignedOperand,
    /// Adds a register to InternalAddress: with carry across the full
    /// sixteen bits (page crossing), or wrapping inside the low byte
    /// alone (zero-page indexing).
    IncrementAddressByReg { reg: DataRegister, with_carry: bool },
    /// Reads the byte at PC, looks it up in the instruction table and
    /// enqueues that instruction's micro-operations; advances PC.
    FetchOpcode,
    /// Reads the byte at InternalAddress into InternalOperand.
    FetchOperand,
    /// Reads the byte at PC as the low byte of a fresh InternalAddress
    /// (the high byte is forced to 0); advances PC.
    FetchAddrLo,
    /// Reads the byte at PC, shifts it left eight and joins it with the
    /// kept low byte of InternalAddress; advances PC.
    FetchAddrHi,
    /// Reads the byte at PC into InternalOperand; advances PC.
    FetchImmediateOperand,
    /// Reads the byte at PC as a zero-page address: the high byte of
    /// InternalAddress is forced to 0; advances PC.
    FetchZeroPageAddr,
    /// Flags-only subtraction: carry is set when `reg2` is at least `src`.
    CompareToRegister { src: DataRegister, reg2: DataRegister },
    /// Copies a value between data registers.
    StoreToRegister { src: DataRegister, dst: DataRegister },
    /// Writes a data register to the bus at an address register's value.
    WriteToAddress { src: DataRegister, addr: AddressRegister },
    /// Applies an ALU function to `left` and InternalOperand, updates
    /// the flags and, for value-producing functions, stores the result.
    ComputeAndStore { left: DataRegister, dst: DataRegister, func: Function },
    /// Sets PC to InternalAddress.
    JumpToAddress,
}

/// A rule for computing an operand's effective address or value from
/// the bytes after the opcode.
#[derive(PartialEq, Debug, Copy, Clone)]
pub enum AddressingMode {
    Accumulator,
    Absolute,
    AbsIndexed { reg: DataRegister },
    Immediate,
    Implied,
    Indirect,
    IndexedIndirect,
    IndirectIndexed,
    Relative,
    ZeroPage,
    ZeroPageIndexed { reg: DataRegister },
}

/// One table entry: an instruction with its addressing mode and its
/// pre-expanded micro-operation list, fetch prefix included.
pub struct Instruction {
    pub mnemonic: String,
    pub operations: Vec<InternalOperations>,
    pub addressing: AddressingMode,
}

/// The fatal decode error: the byte fetched as an opcode has no entry
/// in the instruction table, so the instruction is unemulated or
/// illegal. Never recovered silently.
#[derive(PartialEq, Eq, Debug, Copy, Clone)]
pub struct DecodeError {
    pub opcode: u8,
}

/// The mathematical state of the processor: every register, both flags,
/// the pending micro-operation queue, the instruction table reduced to
/// its micro-operation lists, and the cycle counters.
#[verifier::ext_equal]
pub ghost struct ProcView {
    pub pc: Address,
    pub x: Data,
    pub y: Data,
    pub a: Data,
    pub internal_address: Address,
    pub internal_operand: Data,
    pub at_break: bool,
    pub overflow: bool,
    pub carry: bool,
    pub ops: Seq<InternalOperations>,
    pub table: Seq<Option<Seq<InternalOperations>>>,
    pub total_cycles: nat,
    pub boot_cycles: nat,
}

/// The micro-operation list of a table entry, mnemonic and mode erased.
pub open spec fn instr_ops(entry: Option<Instruction>) -> Option<Seq<InternalOperations>> {
    match entry {
        Some(ins) => Some(ins.operations@),
        None => None,
    }
}

/// The fetch prefix of an addressing mode: the micro-operations that
/// compute the operand's effective address or value, appended before
/// each instruction's semantic micro-operations. `None` for the two
/// modes this core rejects as unsupported (their zero-page indirection
/// is not defined here): an opcode using them never enters the table.
pub open spec fn spec_fetch_ops(mode: AddressingMode) -> Option<Seq<InternalOperations>> {
    match mode {
        Mode::Accumulator => Some(Seq::empty()),
        Mode::Absolute => Some(seq![Op::FetchAddrLo, Op::FetchAddrHi]),
        Mode::AbsIndexed { reg } => Some(
            seq![
                Op::FetchAddrLo,
                Op::FetchAddrHi,
                Op::IncrementAddressByReg { reg, with_carry: true },
            ],
        ),
        Mode::Immediate => Some(seq![Op::FetchImmediateOperand]),
        Mode::Implied => Some(Seq::empty()),
        Mode::Indirect => Some(
            seq![Op::FetchAddrLo, Op::FetchAddrHi, Op::ReadAddressLo, Op::ReadAddressHi],
        ),
        Mode::IndexedIndirect => None,
        Mode::IndirectIndexed => None,
        Mode::Relative => Some(seq![Op::FetchOperand, Op::IncrementPCBySignedOperand]),
        Mode::ZeroPage => Some(seq![Op::FetchZeroPageAddr]),
        Mode::ZeroPageIndexed { reg } => Some(
            seq![Op::FetchZeroPageAddr, Op::IncrementAddressByReg { reg, with_carry: false }],
        ),
    }
}

/// The semantic micro-operations of a load: the fetched operand moves
/// into `dst`.
pub open spec fn load_ops(dst: DataRegister) -> Seq<InternalOperations> {
    seq![Op::StoreToRegister { src: Reg::InternalOperand, dst }]
}

/// The semantic micro-operations of a store: `src` is written to the
/// computed effective address.
pub open spec fn store_ops(src: DataRegister) -> Seq<InternalOperations> {
    seq![Op::WriteToAddress { src, addr: AddressRegister::InternalAddress }]
}

/// The semantic micro-operations of an index-register compare.
pub open spec fn compare_ops(reg2: DataRegister) -> Seq<InternalOperations> {
    seq![Op::CompareToRegister { src: Reg::InternalOperand, reg2 }]
}

/// The semantic micro-operations of an accumulator ALU instruction:
/// the right operand is implicitly InternalOperand.
pub open spec fn alu_ops(func: Function) -> Seq<InternalOperations> {
    seq![Op::ComputeAndStore { left: Reg::A, dst: Reg::A, func }]
}

/// The instruction table as a mapping: the addressing mode and semantic
/// micro-operations of each populated opcode, `None` elsewhere. The
/// populated opcodes follow the 6502 `aaabbbcc` encoding: four column
/// families (immediate, zero page, absolute, zero page indexed) for the
/// index-register rows, five for the accumulator rows, plus BRK and NOP.
pub open spec fn spec_decode_entry(opcode: u8) -> Option<(AddressingMode, Seq<InternalOperations>)> {
    if opcode == 0x00 { Some((Mode::Implied, seq![Op::BRK])) }
    else if opcode == 0xEA { Some((Mode::Implied, seq![Op::NOP])) }
    // STY: store Y.
    else if opcode == 0x80 { Some((Mode::Immediate, store_ops(Reg::Y))) }
    else if opcode == 0x84 { Some((Mode::ZeroPage, store_ops(Reg::Y))) }
    else if opcode == 0x8C { Some((Mode::Absolute, store_ops(Reg::Y))) }
    else if opcode == 0x94 { Some((Mode::ZeroPageIndexed { reg: Reg::X }, store_ops(Reg::Y))) }
    // LDY: load Y.
    else if opcode == 0xA0 { Some((Mode::Immediate, load_ops(Reg::Y))) }
    else if opcode == 0xA4 { Some((Mode::ZeroPage, load_ops(Reg::Y))) }
    else if opcode == 0xAC { Some((Mode::Absolute, load_ops(Reg::Y))) }
    else if opcode == 0xB4 { Some((Mode::ZeroPageIndexed { reg: Reg::X }, load_ops(Reg::Y))) }
    // CPY: compare Y.
    else if opcode == 0xC0 { Some((Mode::Immediate, compare_ops(Reg::Y))) }
    else if opcode == 0xC4 { Some((Mode::ZeroPage, compare_ops(Reg::Y))) }
    else if opcode == 0xCC { Some((Mode::Absolute, compare_ops(Reg::Y))) }
    else if opcode == 0xD4 { Some((Mode::ZeroPageIndexed { reg: Reg::X }, compare_ops(Reg::Y))) }
    // CPX: compare X.
    else if opcode == 0xE0 { Some((Mode::Immediate, compare_ops(Reg::X))) }
    else if opcode == 0xE4 { Some((Mode::ZeroPage, compare_ops(Reg::X))) }
    else if opcode == 0xEC { Some((Mode::Absolute, compare_ops(Reg::X))) }
    else if opcode == 0xF4 { Some((Mode::ZeroPageIndexed { reg: Reg::X }, compare_ops(Reg::X))) }
    // ORA: accumulator OR.
    else if opcode == 0x09 { Some((Mode::Immediate, alu_ops(Function::OR))) }
    else if opcode == 0x05 { Some((Mode::ZeroPage, alu_ops(Function::OR))) }
    else if opcode == 0x0D { Some((Mode::Absolute, alu_ops(Function::OR))) }
    else if opcode == 0x15 { Some((Mode::ZeroPageIndexed { reg: Reg::X }, alu_ops(Function::OR))) }
    // AND: accumulator AND.
    else if opcode == 0x29 { Some((Mode::Immediate, alu_ops(Function::AND))) }
    else if opcode == 0x25 { Some((Mode::ZeroPage, alu_ops(Function::AND))) }
    else if opcode == 0x2D { Some((Mode::Absolute, alu_ops(Function::AND))) }
    else if opcode == 0x35 { Some((Mode::ZeroPageIndexed { reg: Reg::X }, alu_ops(Function::AND))) }
    // EOR: accumulator exclusive OR.
    else if opcode == 0x49 { Some((Mode::Immediate, alu_ops(Function::EOR))) }
    else if opcode == 0x45 { Some((Mode::ZeroPage, alu_ops(Function::EOR))) }
    else if opcode == 0x4D { Some((Mode::Absolute, alu_ops(Function::EOR))) }
    else if opcode == 0x55 { Some((Mode::ZeroPageIndexed { reg: Reg::X }, alu_ops(Function::EOR))) }
    // ADC: add with carry.
    else if opcode == 0x69 { Some((Mode::Immediate, alu_ops(Function::AddWithCarry))) }
    else if opcode == 0x65 { Some((Mode::ZeroPage, alu_ops(Function::AddWithCarry))) }
    else if opcode == 0x6D { Some((Mode::Absolute, alu_ops(Function::AddWithCarry))) }
    else if opcode == 0x75 {
        Some((Mode::ZeroPageIndexed { reg: Reg::X }, alu_ops(Function::AddWithCarry)))
    }
    // STA: store A.
    else if opcode == 0x89 { Some((Mode::Immediate, store_ops(Reg::A))) }
    else if opcode == 0x85 { Some((Mode::ZeroPage, store_ops(Reg::A))) }
    else if opcode == 0x8D { Some((Mode::Absolute, store_ops(Reg::A))) }
    else if opcode == 0x95 { Some((Mode::ZeroPageIndexed { reg: Reg::X }, store_ops(Reg::A))) }
    // LDA: load A.
    else if opcode == 0xA9 { Some((Mode::Immediate, load_ops(Reg::A))) }
    else if opcode == 0xA5 { Some((Mode::ZeroPage, load_ops(Reg::A))) }
    else if opcode == 0xAD { Some((Mode::Absolute, load_ops(Reg::A))) }
    else if opcode == 0xB5 { Some((Mode::ZeroPageIndexed { reg: Reg::X }, load_ops(Reg::A))) }
    // CMP: compare A.
    else if opcode == 0xC9 { Some((Mode::Immediate, alu_ops(Function::COMPARE))) }
    else if opcode == 0xC5 { Some((Mode::ZeroPage, alu_ops(Function::COMPARE))) }
    else if opcode == 0xCD { Some((Mode::Absolute, alu_ops(Function::COMPARE))) }
    else if opcode == 0xD5 {
        Some((Mode::ZeroPageIndexed { reg: Reg::X }, alu_ops(Function::COMPARE)))
    }
    // SBC: subtract with borrow.
    else if opcode == 0xE9 { Some((Mode::Immediate, alu_ops(Function::SubtractWithBorrow))) }
    else if opcode == 0xE5 { Some((Mode::ZeroPage, alu_ops(Function::SubtractWithBorrow))) }
    else if opcode == 0xED { Some((Mode::Absolute, alu_ops(Function::SubtractWithBorrow))) }
    else if opcode == 0xF5 {
        Some((Mode::ZeroPageIndexed { reg: Reg::X }, alu_ops(Function::SubtractWithBorrow)))
    }
    // LDX: load X, indexed by Y.
    else if opcode == 0xA2 { Some((Mode::Immediate, load_ops(Reg::X))) }
    else if opcode == 0xA6 { Some((Mode::ZeroPage, load_ops(Reg::X))) }
    else if opcode == 0xAE { Some((Mode::Absolute, load_ops(Reg::X))) }
    else if opcode == 0xB6 { Some((Mode::ZeroPageIndexed { reg: Reg::Y }, load_ops(Reg::X))) }
    else { None }
}

/// The full micro-operation list of an opcode: the addressing mode's
/// fetch prefix followed by the instruction's semantic micro-operations;
/// `None` for an opcode the table does not populate.
pub open spec fn spec_decode(opcode: u8) -> Option<Seq<InternalOperations>> {
    match spec_decode_entry(opcode) {
        Some(entry) => Some(spec_fetch_ops(entry.0)->0 + entry.1),
        None => None,
    }
}

/// The boot micro-sequence: over three ticks it reads the little-endian
/// reset vector at 0xFFFC and jumps PC to it.
pub open spec fn boot_sequence() -> Seq<InternalOperations> {
    seq![Op::FetchAddrLo, Op::FetchAddrHi, Op::JumpToAddress]
}

/// The address the reset vector occupies (its low byte; the high byte
/// follows at the next address).
pub const RESET_VECTOR: Address = 0xFFFC;

/// The value of a data register in a view.
pub open spec fn spec_get_reg(p: ProcView, reg: DataRegister) -> Data {
    match reg {
        Reg::X => p.x,
        Reg::Y => p.y,
        Reg::A => p.a,
        Reg::InternalOperand => p.internal_operand,
    }
}

/// The view with one data register replaced.
pub open spec fn spec_set_reg(p: ProcView, reg: DataRegister, value: Data) -> ProcView {
    match reg {
        Reg::X => ProcView { x: value, ..p },
        Reg::Y => ProcView { y: value, ..p },
        Reg::A => ProcView { a: value, ..p },
        Reg::InternalOperand => ProcView { internal_operand: value, ..p },
    }
}

/// The value of an address register in a view.
pub open spec fn spec_get_addr_reg(p: ProcView, reg: AddressRegister) -> Address {
    match reg {
        AddressRegister::PC => p.pc,
        AddressRegister::InternalAddress => p.internal_address,
    }
}

/// A sixteen-bit value one larger, wrapping at the top of the space.
pub open spec fn inc16(a: Address) -> Address {
    if a == 0xFFFF {
        0
    } else {
        (a + 1) as Address
    }
}

/// A non-negative value reduced to sixteen bits.
pub open spec fn wrap16(x: int) -> Address {
    (x % 0x10000) as Address
}

/// Zero-page indexing: the index is added into the low byte alone,
/// wrapping there, with no carry into the high byte.
pub open spec fn zp_index(a: Address, v: Data) -> Address {
    ((a / 0x100) * 0x100 + ((a % 0x100) + v) % 0x100) as Address
}

/// What an ALU function does: the value produced, whether it is stored,
/// and the flags after. The logical functions and the flags-only
/// compare leave carry and overflow as they were except where stated;
/// the adding functions set carry to the unsigned carry-out and
/// overflow to the signed-overflow test on the operands actually added.
#[verifier::ext_equal]
pub ghost struct AluEffect {
    pub value: Data,
    pub store: bool,
    pub carry: bool,
    pub overflow: bool,
}

/// The effect of `func` on `left` and `right` with the incoming flags.
pub open spec fn spec_alu(
    func: Function,
    left: Data,
    right: Data,
    carry_in: bool,
    overflow_in: bool,
) -> AluEffect {
    match func {
        Function::OR => AluEffect {
            value: left | right,
            store: true,
            carry: carry_in,
            overflow: overflow_in,
        },
        Function::AND => AluEffect {
            value: left & right,
            store: true,
            carry: carry_in,
            overflow: overflow_in,
        },
        Function::EOR => AluEffect {
            value: left ^ right,
            store: true,
            carry: carry_in,
            overflow: overflow_in,
        },
        Function::AddWithCarry => {
            let sum = left + right + (if carry_in { 1int } else { 0int });
            let value = (sum % 0x100) as Data;
            AluEffect {
                value,
                store: true,
                carry: sum > 0xFF,
                overflow: ((left ^ value) & (right ^ value) & 0x80) != 0,
            }
        },
        Function::COMPARE => AluEffect {
            value: 0,
            store: false,
            carry: left >= right,
            overflow: overflow_in,
        },
        Function::SubtractWithBorrow => {
            let ones = (0xFF - right) as Data;
            let sum = left + ones + (if carry_in { 1int } else { 0int });
            let value = (sum % 0x100) as Data;
            AluEffect {
                value,
                store: true,
                carry: sum > 0xFF,
                overflow: ((left ^ value) & (ones ^ value) & 0x80) != 0,
            }
        },
    }
}

/// The micro-operation a tick executes: the head of the queue, or the
/// FetchOpcode a tick enqueues when it finds the queue empty.
pub open spec fn pending_op(p: ProcView) -> InternalOperations {
    if p.ops.len() == 0 {
        Op::FetchOpcode
    } else {
        p.ops[0]
    }
}

/// The queue after the pending micro-operation is dequeued.
pub open spec fn rest_ops(p: ProcView) -> Seq<InternalOperations> {
    if p.ops.len() == 0 {
        Seq::empty()
    } else {
        p.ops.drop_first()
    }
}

/// The bus address the pending micro-operation reads, if it reads.
pub open spec fn tick_read_address(p: ProcView) -> Option<Address> {
    match pending_op(p) {
        Op::FetchOpcode => Some(p.pc),
        Op::FetchOperand => Some(p.internal_address),
        Op::FetchAddrLo => Some(p.pc),
        Op::FetchAddrHi => Some(p.pc),
        Op::FetchImmediateOperand => Some(p.pc),
        Op::FetchZeroPageAddr => Some(p.pc),
        Op::ReadAddressLo => Some(p.internal_address),
        Op::ReadAddressHi => Some(inc16(p.internal_address)),
        _ => None,
    }
}

/// The bus write the pending micro-operation issues, if it writes:
/// the address register's value and the source register's value.
pub open spec fn tick_write_effect(p: ProcView) -> Option<(Address, Data)> {
    match pending_op(p) {
        Op::WriteToAddress { src, addr } => Some(
            (spec_get_addr_reg(p, addr), spec_get_reg(p, src)),
        ),
        _ => None,
    }
}

/// One tick of the state machine: `b` is the byte the tick's bus read
/// returned (ignored by micro-operations that do not read). The cycle
/// counter always advances and the pending micro-operation is always
/// consumed; FetchOpcode of a byte absent from the table is the fatal
/// decode error.
pub open spec fn spec_tick_step(p: ProcView, b: Data) -> Result<ProcView, DecodeError> {
    let q = ProcView { ops: rest_ops(p), total_cycles: p.total_cycles + 1, ..p };
    match pending_op(p) {
        Op::NOP => Ok(q),
        Op::BRK => Ok(ProcView { at_break: true, ..q }),
        Op::FetchOpcode => {
            if (b as int) < p.table.len() && p.table[b as int] is Some {
                Ok(ProcView { pc: inc16(p.pc), ops: rest_ops(p) + p.table[b as int]->0, ..q })
            } else {
                Err(DecodeError { opcode: b })
            }
        },
        Op::FetchOperand => Ok(ProcView { internal_operand: b, ..q }),
        Op::FetchAddrLo => Ok(ProcView { internal_address: b as Address, pc: inc16(p.pc), ..q }),
        Op::FetchAddrHi => Ok(
            ProcView {
                internal_address: ((p.internal_address % 0x100) + (b as Address) * 0x100) as Address,
                pc: inc16(p.pc),
                ..q
            },
        ),
        Op::FetchImmediateOperand => Ok(ProcView { internal_operand: b, pc: inc16(p.pc), ..q }),
        Op::FetchZeroPageAddr => Ok(
            ProcView { internal_address: b as Address, pc: inc16(p.pc), ..q },
        ),
        Op::ReadAddressLo => Ok(ProcView { internal_operand: b, ..q }),
        Op::ReadAddressHi => Ok(
            ProcView {
                internal_address: ((p.internal_operand as Address) + (b as Address)
                    * 0x100) as Address,
                ..q
            },
        ),
        Op::IncrementPCBySignedOperand => Ok(
            ProcView {
                pc: wrap16(
                    p.pc + p.internal_operand + (if p.internal_operand >= 0x80 {
                        0xFF00int
                    } else {
                        0int
                    }),
                ),
                ..q
            },
        ),
        Op::IncrementAddressByReg { reg, with_carry } => Ok(
            ProcView {
                internal_address: if with_carry {
                    wrap16(p.internal_address + spec_get_reg(p, reg))
                } else {
                    zp_index(p.internal_address, spec_get_reg(p, reg))
                },
                ..q
            },
        ),
        Op::CompareToRegister { src, reg2 } => Ok(
            ProcView { carry: spec_get_reg(p, reg2) >= spec_get_reg(p, src), ..q },
        ),
        Op::StoreToRegister { src, dst } => Ok(spec_set_reg(q, dst, spec_get_reg(p, src))),
        Op::WriteToAddress { .. } => Ok(q),
        Op::ComputeAndStore { left, dst, func } => {
            let alu = spec_alu(func, spec_get_reg(p, left), p.internal_operand, p.carry, p.overflow);
            let flagged = ProcView { carry: alu.carry, overflow: alu.overflow, ..q };
            Ok(
                if alu.store {
                    spec_set_reg(flagged, dst, alu.value)
                } else {
                    flagged
                },
            )
        },
        Op::JumpToAddress => Ok(ProcView { pc: p.internal_address, ..q }),
    }
}

/// The byte the tick's bus read returns over `devices`, 0 when the
/// pending micro-operation does not read.
pub open spec fn tick_byte_read<D: BusDevice>(p: ProcView, devices: Seq<D>) -> Data {
    match tick_read_address(p) {
        Some(a) => spec_bus_read(devices, a),
        None => 0,
    }
}

/// Everything one call of `tick` does, relating the processor views and
/// the bus device lists before and after to the returned value: the
/// step relation [`spec_tick_step`] on the processor, the fan-out write
/// relation on the bus for a writing micro-operation, and an untouched
/// bus for every other one. On a decode error the queue head is
/// consumed, the cycle counter advances, everything else stays.
pub open spec fn tick_post<D: BusDevice>(
    p: ProcView,
    p_post: ProcView,
    devices: Seq<D>,
    devices_post: Seq<D>,
    r: Result<(Address, bool), DecodeError>,
) -> bool {
    let b = tick_byte_read(p, devices);
    match spec_tick_step(p, b) {
        Ok(p2) => {
            &&& p_post == p2
            &&& r == Ok::<(Address, bool), DecodeError>((p2.pc, p2.at_break))
            &&& match tick_write_effect(p) {
                Some(w) => bus_write_rel(devices, devices_post, w.0, w.1),
                None => devices_post == devices,
            }
        },
        Err(e) => {
            &&& p_post == ProcView { ops: rest_ops(p), total_cycles: p.total_cycles + 1, ..p }
            &&& r == Err::<(Address, bool), DecodeError>(e)
            &&& devices_post == devices
        },
    }
}

/// The processor: register file, flags, pending micro-operation queue,
/// instruction table and cycle counters. State mutates only through
/// `tick` and `reset`.
pub struct Proc6502 {
    pc: Address,
    x: Data,
    y: Data,
    a: Data,
    internal_address: Address,
    internal_operand: Data,
    at_break: bool,
    overflow: bool,
    carry: bool,
    operation_stream: Vec<InternalOperations>,
    instructions: Vec<Option<Instruction>>,
    total_cycles: usize,
    boot_cycles: usize,
}

impl View for Proc6502 {
    type V = ProcView;

    closed spec fn view(&self) -> ProcView {
        ProcView {
            pc: self.pc,
            x: self.x,
            y: self.y,
            a: self.a,
            internal_address: self.internal_address,
            internal_operand: self.internal_operand,
            at_break: self.at_break,
            overflow: self.overflow,
            carry: self.carry,
            ops: self.operation_stream@,
            table: Seq::new(self.instructions@.len(), |i: int| instr_ops(self.instructions@[i])),
            total_cycles: self.total_cycles as nat,
            boot_cycles: self.boot_cycles as nat,
        }
    }
}

impl Proc6502 {
    /// Well-formedness: the table covers every possible opcode byte and
    /// the boot sequence length is fixed. Construction establishes it;
    /// `tick` and `reset` preserve it.
    pub closed spec fn wf(self) -> bool {
        &&& self.instructions@.len() == 256
        &&& self.boot_cycles == 3
    }
}

/// Appends a copy of every micro-operation of `src` to `dst`.
#[verifier::loop_isolation(false)]
fn append_ops(dst: &mut Vec<InternalOperations>, src: &Vec<InternalOperations>)
    ensures
        final(dst)@ == old(dst)@ + src@,
{
    let n = src.len();
    let mut i: usize = 0;
    proof {
        assert(old(dst)@ + src@.subrange(0, 0) =~= old(dst)@);
    }
    while i < n
        invariant
            0 <= i <= n,
            dst@ == old(dst)@ + src@.subrange(0, i as int),
        decreases n - i,
    {
        dst.push(src[i]);
        proof {
            assert(dst@ =~= old(dst)@ + src@.subrange(0, i + 1));
        }
        i += 1;
    }
    proof {
        assert(src@.subrange(0, n as int) =~= src@);
    }
}

/// A one-element micro-operation list.
fn single_operation(op: InternalOperations) -> (r: Vec<InternalOperations>)
    ensures
        r@ == seq![op],
{
    let mut r: Vec<InternalOperations> = Vec::new();
    r.push(op);
    proof {
        assert(r@ =~= seq![op]);
    }
    r
}

/// The semantic micro-operations of an accumulator ALU instruction.
fn make(func: Function) -> (r: Vec<InternalOperations>)
    ensures
        r@ == alu_ops(func),
{
    single_operation(Op::ComputeAndStore { left: Reg::A, dst: Reg::A, func })
}

/// The semantic micro-operations of a load into `dst`.
fn load_operations(dst: DataRegister) -> (r: Vec<InternalOperations>)
    ensures
        r@ == load_ops(dst),
{
    single_operation(Op::StoreToRegister { src: Reg::InternalOperand, dst })
}

/// The semantic micro-operations of a store of `src`.
fn store_operations(src: DataRegister) -> (r: Vec<InternalOperations>)
    ensures
        r@ == store_ops(src),
{
    single_operation(Op::WriteToAddress { src, addr: AddressRegister::InternalAddress })
}

/// The semantic micro-operations of an index-register compare.
fn compare_operations(reg2: DataRegister) -> (r: Vec<InternalOperations>)
    ensures
        r@ == compare_ops(reg2),
{
    single_operation(Op::CompareToRegister { src: Reg::InternalOperand, reg2 })
}

/// The fetch prefix of `mode` as executable data: the micro-operations
/// of [`spec_fetch_ops`], or `None` for the two rejected modes.
pub fn fetch_operations_for_mode(mode: &AddressingMode) -> (r: Option<Vec<InternalOperations>>)
    ensures
        r matches Some(v) ==> spec_fetch_ops(*mode) == Some(v@),
        r is None ==> spec_fetch_ops(*mode) is None,
{
    let mut v: Vec<InternalOperations> = Vec::new();
    match *mode {
        Mode::Accumulator => {},
        Mode::Absolute => {
            v.push(Op::FetchAddrLo);
            v.push(Op::FetchAddrHi);
        },
        Mode::AbsIndexed { reg } => {
            v.push(Op::FetchAddrLo);
            v.push(Op::FetchAddrHi);
            v.push(Op::IncrementAddressByReg { reg, with_carry: true });
        },
        Mode::Immediate => {
            v.push(Op::FetchImmediateOperand);
        },
        Mode::Implied => {},
        Mode::Indirect => {
            v.push(Op::FetchAddrLo);
            v.push(Op::FetchAddrHi);
            v.push(Op::ReadAddressLo);
            v.push(Op::ReadAddressHi);
        },
        Mode::IndexedIndirect => {
            return None;
        },
        Mode::IndirectIndexed => {
            return None;
        },
        Mode::Relative => {
            v.push(Op::FetchOperand);
            v.push(Op::IncrementPCBySignedOperand);
        },
        Mode::ZeroPage => {
            v.push(Op::FetchZeroPageAddr);
        },
        Mode::ZeroPageIndexed { reg } => {
            v.push(Op::FetchZeroPageAddr);
            v.push(Op::IncrementAddressByReg { reg, with_carry: false });
        },
    }
    proof {
        assert(Some(v@) =~~= spec_fetch_ops(*mode));
    }
    Some(v)
}

/// One table entry for `opcode`: the mode's fetch prefix followed by
/// the given semantic micro-operations; `None` exactly when the mode is
/// one of the two this core rejects.
pub fn create_instruction_for_mode(
    opcode: u8,
    mnemonic: &str,
    mode: AddressingMode,
    operations: &Vec<InternalOperations>,
) -> (r: Option<(u8, Instruction)>)
    ensures
        spec_fetch_ops(mode) matches Some(prefix) ==> (r matches Some(pair) && pair.0 == opcode
            && pair.1.operations@ == prefix + operations@ && pair.1.addressing == mode
            && pair.1.mnemonic@ == mnemonic@),
        spec_fetch_ops(mode) is None ==> r is None,
{
    match fetch_operations_for_mode(&mode) {
        None => None,
        Some(mut ops) => {
            append_ops(&mut ops, operations);
            Some(
                (
                    opcode,
                    Instruction {
                        mnemonic: String::from_str(mnemonic),
                        operations: ops,
                        addressing: mode,
                    },
                ),
            )
        },
    }
}

/// Sets the table entry for `opcode`, leaving every other entry alone.
fn set_instruction(
    t: &mut Vec<Option<Instruction>>,
    opcode: u8,
    mnemonic: &str,
    mode: AddressingMode,
    sem: &Vec<InternalOperations>,
)
    requires
        old(t)@.len() == 256,
        spec_fetch_ops(mode) is Some,
    ensures
        final(t)@.len() == 256,
        instr_ops(final(t)@[opcode as int]) == Some(spec_fetch_ops(mode)->0 + sem@),
        forall|k: int| 0 <= k < 256 && k != opcode ==> final(t)@[k] == old(t)@[k],
{
    match create_instruction_for_mode(opcode, mnemonic, mode, sem) {
        Some(pair) => {
            t.set(opcode as usize, Some(pair.1));
        },
        None => {
            proof {
                assert(false);
            }
        },
    }
}

/// Populates one instruction row: the four addressing-mode columns the
/// table gives to a data instruction, all sharing one semantic
/// micro-operation list.
fn add_data_row(
    t: &mut Vec<Option<Instruction>>,
    imm: u8,
    zp: u8,
    abs: u8,
    zpi: u8,
    index_reg: DataRegister,
    mnemonic: &str,
    sem: &Vec<InternalOperations>,
)
    requires
        old(t)@.len() == 256,
        imm != zp && imm != abs && imm != zpi && zp != abs && zp != zpi && abs != zpi,
    ensures
        final(t)@.len() == 256,
        instr_ops(final(t)@[imm as int]) == Some(
            spec_fetch_ops(Mode::Immediate)->0 + sem@,
        ),
        instr_ops(final(t)@[zp as int]) == Some(spec_fetch_ops(Mode::ZeroPage)->0 + sem@),
        instr_ops(final(t)@[abs as int]) == Some(spec_fetch_ops(Mode::Absolute)->0 + sem@),
        instr_ops(final(t)@[zpi as int]) == Some(
            spec_fetch_ops(Mode::ZeroPageIndexed { reg: index_reg })->0 + sem@,
        ),
        forall|k: int|
            0 <= k < 256 && k != imm && k != zp && k != abs && k != zpi ==> final(t)@[k] == old(
                t,
            )@[k],
{
    set_instruction(t, imm, mnemonic, Mode::Immediate, sem);
    set_instruction(t, zp, mnemonic, Mode::ZeroPage, sem);
    set_instruction(t, abs, mnemonic, Mode::Absolute, sem);
    set_instruction(t, zpi, mnemonic, Mode::ZeroPageIndexed { reg: index_reg }, sem);
}

/// Builds the full instruction table: one entry per populated opcode,
/// exactly as [`spec_decode`] maps it, `None` everywhere else.
#[verifier::loop_isolation(false)]
#[verifier::rlimit(60)]
fn build_instruction_table() -> (t: Vec<Option<Instruction>>)
    ensures
        t@.len() == 256,
        forall|k: int| 0 <= k < 256 ==> #[trigger] instr_ops(t@[k]) == spec_decode(k as u8),
{
    let mut t: Vec<Option<Instruction>> = Vec::new();
    let mut i: usize = 0;
    while i < 256
        invariant
            0 <= i <= 256,
            t@.len() == i,
            forall|k: int| 0 <= k < i ==> t@[k] is None,
        decreases 256 - i,
    {
        t.push(None);
        i += 1;
    }

    set_instruction(&mut t, 0x00, "BRK", Mode::Implied, &single_operation(Op::BRK));
    set_instruction(&mut t, 0xEA, "NOP", Mode::Implied, &single_operation(Op::NOP));

    add_data_row(&mut t, 0x80, 0x84, 0x8C, 0x94, Reg::X, "STY", &store_operations(Reg::Y));
    add_data_row(&mut t, 0xA0, 0xA4, 0xAC, 0xB4, Reg::X, "LDY", &load_operations(Reg::Y));
    add_data_row(&mut t, 0xC0, 0xC4, 0xCC, 0xD4, Reg::X, "CPY", &compare_operations(Reg::Y));
    add_data_row(&mut t, 0xE0, 0xE4, 0xEC, 0xF4, Reg::X, "CPX", &compare_operations(Reg::X));

    add_data_row(&mut t, 0x09, 0x05, 0x0D, 0x15, Reg::X, "ORA", &make(Function::OR));
    add_data_row(&mut t, 0x29, 0x25, 0x2D, 0x35, Reg::X, "AND", &make(Function::AND));
    add_data_row(&mut t, 0x49, 0x45, 0x4D, 0x55, Reg::X, "EOR", &make(Function::EOR));
    add_data_row(&mut t, 0x69, 0x65, 0x6D, 0x75, Reg::X, "ADC", &make(Function::AddWithCarry));
    add_data_row(&mut t, 0x89, 0x85, 0x8D, 0x95, Reg::X, "STA", &store_operations(Reg::A));
    add_data_row(&mut t, 0xA9, 0xA5, 0xAD, 0xB5, Reg::X, "LDA", &load_operations(Reg::A));
    add_data_row(&mut t, 0xC9, 0xC5, 0xCD, 0xD5, Reg::X, "CMP", &make(Function::COMPARE));
    add_data_row(
        &mut t,
        0xE9,
        0xE5,
        0xED,
        0xF5,
        Reg::X,
        "SBC",
        &make(Function::SubtractWithBorrow),
    );

    add_data_row(&mut t, 0xA2, 0xA6, 0xAE, 0xB6, Reg::Y, "LDX", &load_operations(Reg::X));

    proof {
        assert forall|k: int| 0 <= k < 256 implies #[trigger] instr_ops(t@[k]) == spec_decode(
            k as u8,
        ) by {
        }
    }
    t
}

/// The boot micro-sequence as executable data.
fn boot_stream() -> (r: Vec<InternalOperations>)
    ensures
        r@ == boot_sequence(),
{
    let mut r: Vec<InternalOperations> = Vec::new();
    r.push(Op::FetchAddrLo);
    r.push(Op::FetchAddrHi);
    r.push(Op::JumpToAddress);
    proof {
        assert(r@ =~= boot_sequence());
    }
    r
}

/// A processor at power-on: registers and flags cleared, PC preset to
/// the reset vector, the queue primed with the boot micro-sequence, and
/// the instruction table built once, exactly as [`spec_decode`] maps
/// every opcode byte.
pub fn create6502() -> (r: Proc6502)
    ensures
        r.wf(),
        r@.pc == RESET_VECTOR,
        r@.x == 0,
        r@.y == 0,
        r@.a == 0,
        r@.internal_address == 0,
        r@.internal_operand == 0,
        !r@.at_break,
        !r@.overflow,
        !r@.carry,
        r@.ops == boot_sequence(),
        r@.total_cycles == 0,
        r@.boot_cycles == 3,
        r@.table.len() == 256,
        forall|k: int| 0 <= k < 256 ==> #[trigger] r@.table[k] == spec_decode(k as u8),
{
    let instructions = build_instruction_table();
    let r = Proc6502 {
        pc: RESET_VECTOR,
        x: 0,
        y: 0,
        a: 0,
        internal_address: 0,
        internal_operand: 0,
        at_break: false,
        overflow: false,
        carry: false,
        operation_stream: boot_stream(),
        instructions,
        total_cycles: 0,
        boot_cycles: 3,
    };
    proof {
        assert forall|k: int| 0 <= k < 256 implies #[trigger] r@.table[k] == spec_decode(
            k as u8,
        ) by {
            assert(r@.table[k] == instr_ops(r.instructions@[k]));
        }
    }
    r
}

impl Proc6502 {
    /// The value of a data register.
    fn get_reg(&self, reg: &DataRegister) -> (r: Data)
        ensures
            r == spec_get_reg(self@, *reg),
    {
        match reg {
            Reg::X => self.x,
            Reg::Y => self.y,
            Reg::A => self.a,
            Reg::InternalOperand => self.internal_operand,
        }
    }

    /// Replaces the value of a data register.
    fn set_reg(&mut self, reg: &DataRegister, value: Data)
        ensures
            final(self)@ == spec_set_reg(old(self)@, *reg, value),
    {
        match reg {
            Reg::X => {
                self.x = value;
            },
            Reg::Y => {
                self.y = value;
            },
            Reg::A => {
                self.a = value;
            },
            Reg::InternalOperand => {
                self.internal_operand = value;
            },
        }
        proof {
            assert(self@ =~= spec_set_reg(old(self)@, *reg, value));
        }
    }

    /// The value of an address register.
    fn get_addr_reg(&self, reg: &AddressRegister) -> (r: Address)
        ensures
            r == spec_get_addr_reg(self@, *reg),
    {
        match reg {
            AddressRegister::PC => self.pc,
            AddressRegister::InternalAddress => self.internal_address,
        }
    }

    /// The cycles the program itself has taken: the total cycle count
    /// less the fixed boot-sequence overhead, saturating at 0 while the
    /// boot sequence is still running.
    pub fn get_user_cycles(&self) -> (r: usize)
        ensures
            r == if self@.total_cycles < self@.boot_cycles {
                0
            } else {
                self@.total_cycles - self@.boot_cycles
            },
    {
        if self.total_cycles < self.boot_cycles {
            0
        } else {
            self.total_cycles - self.boot_cycles
        }
    }

    /// Re-primes the queue with the boot micro-sequence and clears the
    /// registers and flags, with PC back at the reset vector. The
    /// instruction table and the monotonic cycle counter stay; device
    /// memory is not touched.
    pub fn reset(&mut self)
        ensures
            old(self).wf() ==> final(self).wf(),
            final(self)@ == (ProcView {
                pc: RESET_VECTOR,
                x: 0,
                y: 0,
                a: 0,
                internal_address: 0,
                internal_operand: 0,
                at_break: false,
                overflow: false,
                carry: false,
                ops: boot_sequence(),
                table: old(self)@.table,
                total_cycles: old(self)@.total_cycles,
                boot_cycles: old(self)@.boot_cycles,
            }),
    {
        self.pc = RESET_VECTOR;
        self.x = 0;
        self.y = 0;
        self.a = 0;
        self.internal_address = 0;
        self.internal_operand = 0;
        self.at_break = false;
        self.overflow = false;
        self.carry = false;
        self.operation_stream = boot_stream();
        proof {
            assert(self@ =~= ProcView {
                pc: RESET_VECTOR,
                x: 0,
                y: 0,
                a: 0,
                internal_address: 0,
                internal_operand: 0,
                at_break: false,
                overflow: false,
                carry: false,
                ops: boot_sequence(),
                table: old(self)@.table,
                total_cycles: old(self)@.total_cycles,
                boot_cycles: old(self)@.boot_cycles,
            });
        }
    }

    /// One clock tick: advances the cycle counter, enqueues a
    /// FetchOpcode when the queue is empty, then dequeues and executes
    /// exactly one micro-operation against the bus. Returns the current
    /// PC and the halted flag, or the fatal decode error for an opcode
    /// absent from the table (the processor is then left as it was, but
    /// for the consumed fetch and the advanced cycle counter).
    pub fn tick<D: BusDevice>(&mut self, bus: &mut SimpleBus<D>) -> (r: Result<
        (Address, bool),
        DecodeError,
    >)
        requires
            old(self).wf(),
            old(self)@.total_cycles < usize::MAX,
        ensures
            final(self).wf(),
            tick_post(old(self)@, final(self)@, old(bus).devices(), final(bus).devices(), r),
    {
        let ghost p: ProcView = self@;
        self.total_cycles = self.total_cycles + 1;
        if self.operation_stream.len() == 0 {
            self.operation_stream.push(Op::FetchOpcode);
        }
        let op = self.operation_stream.remove(0);
        proof {
            assert(op == pending_op(p));
            assert(self.operation_stream@ =~= rest_ops(p));
            assert(self@ =~= (ProcView { ops: rest_ops(p), total_cycles: p.total_cycles + 1, ..p }));
        }
        match self.execute_op(op, bus, Ghost(p)) {
            Ok(()) => {
                proof {
                    assert(self.instructions@.len() == self@.table.len());
                    assert(self.boot_cycles as nat == self@.boot_cycles);
                }
                Ok((self.pc, self.at_break))
            },
            Err(e) => {
                proof {
                    assert(self.instructions@.len() == self@.table.len());
                    assert(self.boot_cycles as nat == self@.boot_cycles);
                }
                Err(e)
            },
        }
    }

    /// Executes one dequeued micro-operation against the bus: the whole
    /// of a tick after the queue handling. `p` is the processor view at
    /// the start of the tick, of which the current state differs only
    /// by the advanced cycle counter and the dequeued head.
    #[verifier::spinoff_prover]
    #[verifier::rlimit(100)]
    fn execute_op<D: BusDevice>(
        &mut self,
        op: InternalOperations,
        bus: &mut SimpleBus<D>,
        Ghost(p): Ghost<ProcView>,
    ) -> (r: Result<(), DecodeError>)
        requires
            old(self).wf(),
            op == pending_op(p),
            old(self)@ == (ProcView { ops: rest_ops(p), total_cycles: p.total_cycles + 1, ..p }),
        ensures
            ({
                let b = tick_byte_read(p, old(bus).devices());
                match spec_tick_step(p, b) {
                    Ok(p2) => {
                        &&& r is Ok
                        &&& final(self)@ == p2
                        &&& (match tick_write_effect(p) {
                            Some(w) => bus_write_rel(
                                old(bus).devices(),
                                final(bus).devices(),
                                w.0,
                                w.1,
                            ),
                            None => final(bus).devices() == old(bus).devices(),
                        })
                    },
                    Err(e) => {
                        &&& r == Err::<(), DecodeError>(e)
                        &&& final(self)@ == old(self)@
                        &&& final(bus).devices() == old(bus).devices()
                    },
                }
            }),
    {
        let ghost devices0: Seq<D> = bus.devices();
        let ghost b: Data = tick_byte_read(p, devices0);
        proof {
            assert(p.table.len() == 256);
        }

        match op {
            Op::NOP => {
                proof {
                    assert(self@ =~= spec_tick_step(p, b)->Ok_0);
                }
            },
            Op::BRK => {
                self.at_break = true;
                proof {
                    assert(self@ =~= spec_tick_step(p, b)->Ok_0);
                }
            },
            Op::FetchOpcode => {
                let opcode = bus.read(self.pc);
                let ops_copy: Vec<InternalOperations>;
                match &self.instructions[opcode as usize] {
                    Some(ins) => {
                        let mut copy: Vec<InternalOperations> = Vec::new();
                        append_ops(&mut copy, &ins.operations);
                        ops_copy = copy;
                    },
                    None => {
                        proof {
                            assert(p.table[b as int] is None);
                            assert(self@ =~= ProcView {
                                ops: rest_ops(p),
                                total_cycles: p.total_cycles + 1,
                                ..p
                            });
                        }
                        return Err(DecodeError { opcode });
                    },
                }
                append_ops(&mut self.operation_stream, &ops_copy);
                self.pc = if self.pc == 0xFFFF {
                    0
                } else {
                    self.pc + 1
                };
                proof {
                    assert(ops_copy@ == p.table[b as int]->0);
                    assert(self@ =~= spec_tick_step(p, b)->Ok_0);
                }
            },
            Op::FetchOperand => {
                self.internal_operand = bus.read(self.internal_address);
                proof {
                    assert(self@ =~= spec_tick_step(p, b)->Ok_0);
                }
            },
            Op::FetchAddrLo => {
                let byte = bus.read(self.pc);
                self.internal_address = byte as u16;
                self.pc = if self.pc == 0xFFFF {
                    0
                } else {
                    self.pc + 1
                };
                proof {
                    assert(self@ =~= spec_tick_step(p, b)->Ok_0);
                }
            },
            Op::FetchAddrHi => {
                let byte = bus.read(self.pc);
                self.internal_address = (self.internal_address % 0x100) + (byte as u16) * 0x100;
                self.pc = if self.pc == 0xFFFF {
                    0
                } else {
                    self.pc + 1
                };
                proof {
                    assert(self@ =~= spec_tick_step(p, b)->Ok_0);
                }
            },
            Op::FetchImmediateOperand => {
                self.internal_operand = bus.read(self.pc);
                self.pc = if self.pc == 0xFFFF {
                    0
                } else {
                    self.pc + 1
                };
                proof {
                    assert(self@ =~= spec_tick_step(p, b)->Ok_0);
                }
            },
            Op::FetchZeroPageAddr => {
                let byte = bus.read(self.pc);
                self.internal_address = byte as u16;
                self.pc = if self.pc == 0xFFFF {
                    0
                } else {
                    self.pc + 1
                };
                proof {
                    assert(self@ =~= spec_tick_step(p, b)->Ok_0);
                }
            },
            Op::ReadAddressLo => {
                self.internal_operand = bus.read(self.internal_address);
                proof {
                    assert(self@ =~= spec_tick_step(p, b)->Ok_0);
                }
            },
            Op::ReadAddressHi => {
                let address = if self.internal_address == 0xFFFF {
                    0
                } else {
                    self.internal_address + 1
                };
                let byte = bus.read(address);
                self.internal_address = (self.internal_operand as u16) + (byte as u16) * 0x100;
                proof {
                    assert(self@ =~= spec_tick_step(p, b)->Ok_0);
                }
            },
            Op::IncrementPCBySignedOperand => {
                let extension: u32 = if self.internal_operand >= 0x80 {
                    0xFF00
                } else {
                    0
                };
                let sum: u32 = (self.pc as u32) + (self.internal_operand as u32) + extension;
                self.pc = (sum % 0x10000) as u16;
                proof {
                    assert(self@ =~= spec_tick_step(p, b)->Ok_0);
                }
            },
            Op::IncrementAddressByReg { reg, with_carry } => {
                let v = self.get_reg(&reg);
                if with_carry {
                    let sum: u32 = (self.internal_address as u32) + (v as u32);
                    self.internal_address = (sum % 0x10000) as u16;
                } else {
                    let low: u16 = (self.internal_address % 0x100) + (v as u16);
                    self.internal_address = (self.internal_address / 0x100) * 0x100 + (low % 0x100);
                }
                proof {
                    assert(self@ =~= spec_tick_step(p, b)->Ok_0);
                }
            },
            Op::CompareToRegister { src, reg2 } => {
                let right = self.get_reg(&src);
                let left = self.get_reg(&reg2);
                self.carry = left >= right;
                proof {
                    assert(self@ =~= spec_tick_step(p, b)->Ok_0);
                }
            },
            Op::StoreToRegister { src, dst } => {
                let v = self.get_reg(&src);
                self.set_reg(&dst, v);
                proof {
                    assert(self@ =~= spec_tick_step(p, b)->Ok_0);
                }
            },
            Op::WriteToAddress { src, addr } => {
                let address = self.get_addr_reg(&addr);
                let v = self.get_reg(&src);
                bus.write(address, v);
                proof {
                    assert(tick_write_effect(p) == Some((address, v)));
                    assert(self@ =~= spec_tick_step(p, b)->Ok_0);
                }
            },
            Op::ComputeAndStore { left, dst, func } => {
                let l = self.get_reg(&left);
                let operand = self.internal_operand;
                match func {
                    Function::OR => {
                        self.set_reg(&dst, l | operand);
                    },
                    Function::AND => {
                        self.set_reg(&dst, l & operand);
                    },
                    Function::EOR => {
                        self.set_reg(&dst, l ^ operand);
                    },
                    Function::AddWithCarry => {
                        let carry_in: u16 = if self.carry {
                            1
                        } else {
                            0
                        };
                        let sum: u16 = (l as u16) + (operand as u16) + carry_in;
                        let value: u8 = (sum % 0x100) as u8;
                        self.carry = sum > 0xFF;
                        self.overflow = ((l ^ value) & (operand ^ value) & 0x80) != 0;
                        self.set_reg(&dst, value);
                    },
                    Function::COMPARE => {
                        self.carry = l >= operand;
                    },
                    Function::SubtractWithBorrow => {
                        let ones: u8 = 0xFF - operand;
                        let carry_in: u16 = if self.carry {
                            1
                        } else {
                            0
                        };
                        let sum: u16 = (l as u16) + (ones as u16) + carry_in;
                        let value: u8 = (sum % 0x100) as u8;
                        self.carry = sum > 0xFF;
                        self.overflow = ((l ^ value) & (ones ^ value) & 0x80) != 0;
                        self.set_reg(&dst, value);
                    },
                }
                proof {
                    assert(self@ =~= spec_tick_step(p, b)->Ok_0);
                }
            },
            Op::JumpToAddress => {
                self.pc = self.internal_address;
                proof {
                    assert(self@ =~= spec_tick_step(p, b)->Ok_0);
                }
            },
        }
        Ok(())
    }
}

/// Address assembly: two ticks that run the Absolute fetch prefix —
/// FetchAddrLo on byte `lo` at PC, then FetchAddrHi on byte `hi` at the
/// next address — leave `InternalAddress == lo + hi * 0x100`, whatever
/// InternalAddress held before. The two bytes overwrite the address
/// afresh; they are never merged with stale contents.
pub proof fn lemma_absolute_address_assembly(p: ProcView, lo: Data, hi: Data)
    requires
        p.ops.len() >= 2,
        p.ops[0] == Op::FetchAddrLo,
        p.ops[1] == Op::FetchAddrHi,
    ensures
        tick_read_address(p) == Some(p.pc),
        spec_tick_step(p, lo) is Ok,
        ({
            let p1 = spec_tick_step(p, lo)->Ok_0;
            &&& p1.pc == inc16(p.pc)
            &&& tick_read_address(p1) == Some(p1.pc)
            &&& spec_tick_step(p1, hi) is Ok
            &&& spec_tick_step(p1, hi)->Ok_0.internal_address == lo + hi * 0x100
        }),
{
    let p1 = spec_tick_step(p, lo)->Ok_0;
    assert(p1.ops[0] == p.ops[1]);
    assert(p1.internal_address == lo);
}

/// The boot law: three ticks from a queue primed with the boot
/// micro-sequence read the little-endian reset vector — `lo` at PC,
/// `hi` at the following address — and leave PC at `lo + hi * 0x100`
/// with the queue empty, ready to fetch the first instruction there.
/// The third tick reads nothing, so its byte argument is immaterial.
pub proof fn lemma_boot_sequence_jumps(p: ProcView, lo: Data, hi: Data)
    requires
        p.ops == boot_sequence(),
    ensures
        tick_read_address(p) == Some(p.pc),
        spec_tick_step(p, lo) is Ok,
        ({
            let p1 = spec_tick_step(p, lo)->Ok_0;
            &&& tick_read_address(p1) == Some(inc16(p.pc))
            &&& spec_tick_step(p1, hi) is Ok
            &&& ({
                let p2 = spec_tick_step(p1, hi)->Ok_0;
                &&& tick_read_address(p2) is None
                &&& spec_tick_step(p2, 0) is Ok
                &&& spec_tick_step(p2, 0)->Ok_0.pc == lo + hi * 0x100
                &&& spec_tick_step(p2, 0)->Ok_0.ops.len() == 0
            })
        }),
{
    assert(p.ops[0] == Op::FetchAddrLo);
    let p1 = spec_tick_step(p, lo)->Ok_0;
    assert(p1.ops[0] == p.ops[1]);
    let p2 = spec_tick_step(p1, hi)->Ok_0;
    assert(p2.ops[0] == p.ops[2]);
    assert(p2.internal_address == lo + hi * 0x100);
    let p3 = spec_tick_step(p2, 0)->Ok_0;
    assert(p3.ops.len() == 0);
}

/// The processor on the bus: it is a device in name only, covering no
/// address at all, so registering it is harmless and reading or writing
/// it through the bus never happens.
impl BusDevice for Proc6502 {
    open spec fn readable_for(&self, _address: Address) -> bool {
        false
    }

    open spec fn writable_for(&self, _address: Address) -> bool {
        false
    }

    open spec fn value_at(&self, _address: Address) -> Data {
        0
    }

    fn is_readable_for(&self, _address: Address) -> (r: bool) {
        false
    }

    fn is_writable_for(&self, _address: Address) -> (r: bool) {
        false
    }

    fn do_read(&self, _address: Address) -> (r: Data) {
        0
    }

    fn do_write(&mut self, _address: Address, _data: Data) {
    }
}

} // verus!
