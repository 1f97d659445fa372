use vstd::prelude::*;
use crate::bus::{bus_read, bus_tick, bus_write, BusView};
use crate::flags::{
    has_flag, with_flag, BREAK, BREAK2, CARRY, INTERRUPT_DISABLE, NEGATIVE, OVERFLOW, ZERO,
};
use crate::opcodes::{opcode_table, AddressingMode, Mnemonic, Opcode};

verus! {

/// Base address of the stack page.
pub const STACK: u16 = 0x0100;
/// Stack pointer after reset.
pub const STACK_RESET: u8 = 0xfd;
/// Status byte after reset: interrupts disabled, second break bit set.
pub const STATUS_RESET: u8 = 0b0010_0100;
/// Where the reset vector is stored.
pub const RESET_VECTOR: u16 = 0xfffc;
/// Where the NMI vector is stored.
pub const NMI_VECTOR: u16 = 0xfffa;
/// Where `load` places a program.
pub const PROGRAM_START: u16 = 0x8600;

/// Why the engine stopped without reaching the halt instruction.
#[derive(Clone, Copy, Debug, PartialEq, Eq, Structural)]
pub enum CpuError {
    /// The byte fetched is not in the instruction table.
    UnknownOpcode(u8),
    /// The table pairs an instruction that needs a memory operand with no addressing mode.
    UnsupportedMode(u8),
}

/// The whole machine as plain values: registers, status byte and bus.
pub ghost struct CpuView {
    pub a: u8,
    pub x: u8,
    pub y: u8,
    pub status: u8,
    pub pc: u16,
    pub sp: u8,
    pub bus: BusView,
}

impl CpuView {
    pub open spec fn wf(self) -> bool {
        self.bus.wf()
    }
}

/// The status byte after a result `v`: Zero iff `v` is 0, Negative iff bit 7 of `v` is set.
pub open spec fn zn_spec(status: u8, v: u8) -> u8 {
    with_flag(with_flag(status, ZERO, v == 0), NEGATIVE, v >= 0x80)
}

/// A read of one byte through the bus.
pub open spec fn cpu_read(c: CpuView, addr: u16) -> (CpuView, u8) {
    let (b, v) = bus_read(c.bus, addr);
    (CpuView { bus: b, ..c }, v)
}

/// A write of one byte through the bus.
pub open spec fn cpu_write(c: CpuView, addr: u16, v: u8) -> CpuView {
    CpuView { bus: bus_write(c.bus, addr, v), ..c }
}

/// A little-endian read of two bytes at `addr` and `addr + 1` (wrapping).
pub open spec fn cpu_read_u16(c: CpuView, addr: u16) -> (CpuView, u16) {
    let (c1, lo) = cpu_read(c, addr);
    let (c2, hi) = cpu_read(c1, addr.wrapping_add(1));
    (c2, (hi as int * 0x100 + lo) as u16)
}

/// A little-endian write of two bytes at `addr` and `addr + 1` (wrapping).
pub open spec fn cpu_write_u16(c: CpuView, addr: u16, v: u16) -> CpuView {
    cpu_write(cpu_write(c, addr, (v % 0x100) as u8), addr.wrapping_add(1), (v / 0x100) as u8)
}

/// A push: the byte goes to the stack page at the stack pointer, which then decrements.
pub open spec fn push_spec(c: CpuView, v: u8) -> CpuView {
    let c1 = cpu_write(c, (STACK + c.sp) as u16, v);
    CpuView { sp: c.sp.wrapping_sub(1), ..c1 }
}

/// A pop: the stack pointer increments, then the byte there is read.
pub open spec fn pop_spec(c: CpuView) -> (CpuView, u8) {
    let sp = c.sp.wrapping_add(1);
    cpu_read(CpuView { sp, ..c }, (STACK + sp) as u16)
}

/// A 16-bit push: high byte first, so the low byte ends on top.
pub open spec fn push_u16_spec(c: CpuView, v: u16) -> CpuView {
    push_spec(push_spec(c, (v / 0x100) as u8), (v % 0x100) as u8)
}

/// A 16-bit pop: low byte first.
pub open spec fn pop_u16_spec(c: CpuView) -> (CpuView, u16) {
    let (c1, lo) = pop_spec(c);
    let (c2, hi) = pop_spec(c1);
    (c2, (hi as int * 0x100 + lo) as u16)
}

/// Addressing modes that name a location in memory from the operand bytes.
pub open spec fn is_memory_mode(mode: AddressingMode) -> bool {
    mode != AddressingMode::Immediate && mode != AddressingMode::NoneAddressing
}

/// The effective address of a memory mode whose operand bytes start at `addr`.
/// Zero-page indexing and the zero-page pointers of the indirect modes wrap within
/// page zero; the post-indexed sum of the indirect-Y mode wraps at 16 bits.
pub open spec fn absolute_address_spec(c: CpuView, mode: AddressingMode, addr: u16) -> (CpuView, u16) {
    match mode {
        AddressingMode::ZeroPage => {
            let (c1, pos) = cpu_read(c, addr);
            (c1, pos as u16)
        },
        AddressingMode::Absolute => cpu_read_u16(c, addr),
        AddressingMode::ZeroPage_X => {
            let (c1, pos) = cpu_read(c, addr);
            (c1, pos.wrapping_add(c.x) as u16)
        },
        AddressingMode::ZeroPage_Y => {
            let (c1, pos) = cpu_read(c, addr);
            (c1, pos.wrapping_add(c.y) as u16)
        },
        AddressingMode::Absolute_X => {
            let (c1, base) = cpu_read_u16(c, addr);
            (c1, base.wrapping_add(c.x as u16))
        },
        AddressingMode::Absolute_Y => {
            let (c1, base) = cpu_read_u16(c, addr);
            (c1, base.wrapping_add(c.y as u16))
        },
        AddressingMode::Indirect_X => {
            let (c1, base) = cpu_read(c, addr);
            let ptr = base.wrapping_add(c.x);
            let (c2, lo) = cpu_read(c1, ptr as u16);
            let (c3, hi) = cpu_read(c2, ptr.wrapping_add(1) as u16);
            (c3, (hi as int * 0x100 + lo) as u16)
        },
        AddressingMode::Indirect_Y => {
            let (c1, base) = cpu_read(c, addr);
            let (c2, lo) = cpu_read(c1, base as u16);
            let (c3, hi) = cpu_read(c2, base.wrapping_add(1) as u16);
            (c3, ((hi as int * 0x100 + lo) as u16).wrapping_add(c.y as u16))
        },
        _ => (c, 0),
    }
}

/// The operand's address: the program counter itself for an immediate operand.
pub open spec fn operand_address_spec(c: CpuView, mode: AddressingMode) -> (CpuView, u16) {
    if mode == AddressingMode::Immediate {
        (c, c.pc)
    } else {
        absolute_address_spec(c, mode, c.pc)
    }
}

/// The operand's address and the byte read there.
pub open spec fn operand_spec(c: CpuView, mode: AddressingMode) -> (CpuView, u16, u8) {
    let (c1, addr) = operand_address_spec(c, mode);
    let (c2, v) = cpu_read(c1, addr);
    (c2, addr, v)
}

/// The 8-bit sum of `a`, `d` and the carry.
pub open spec fn adc_value(a: u8, d: u8, carry: bool) -> u8 {
    ((a + d + if carry { 1int } else { 0int }) % 0x100) as u8
}

/// Whether that sum needs a ninth bit.
pub open spec fn adc_carry(a: u8, d: u8, carry: bool) -> bool {
    a + d + if carry { 1int } else { 0int } > 0xff
}

/// The operand that subtraction adds in place of `d`: its ones' complement.
pub open spec fn sbc_operand(d: u8) -> u8 {
    (0xff - d) as u8
}

/// Addition to the accumulator with carry in; sets Carry, Overflow, Zero and Negative.
pub open spec fn add_spec(c: CpuView, d: u8) -> CpuView {
    let r = adc_value(c.a, d, has_flag(c.status, CARRY));
    let s1 = with_flag(c.status, CARRY, adc_carry(c.a, d, has_flag(c.status, CARRY)));
    let s2 = with_flag(s1, OVERFLOW, (d ^ r) & (r ^ c.a) & 0x80 != 0);
    CpuView { a: r, status: zn_spec(s2, r), ..c }
}

/// The accumulator set to `v`, with Zero and Negative from it.
pub open spec fn set_a_spec(c: CpuView, v: u8) -> CpuView {
    CpuView { a: v, status: zn_spec(c.status, v), ..c }
}

/// A comparison of `reg` against `v`: Carry iff `v <= reg`, Zero and Negative from `reg - v`.
pub open spec fn compare_spec(c: CpuView, reg: u8, v: u8) -> CpuView {
    CpuView { status: zn_spec(with_flag(c.status, CARRY, v <= reg), reg.wrapping_sub(v)), ..c }
}

/// The four shifts and rotates.
#[derive(Clone, Copy, Debug, PartialEq, Eq, Structural)]
pub enum Shift {
    Asl,
    Lsr,
    Rol,
    Ror,
}

/// The result of shifting `v`, with the carry flag `cin` fed into a rotate.
pub open spec fn shifted(kind: Shift, v: u8, cin: bool) -> u8 {
    match kind {
        Shift::Asl => (v * 2 % 0x100) as u8,
        Shift::Lsr => v / 2,
        Shift::Rol => (v * 2 % 0x100 + if cin { 1int } else { 0int }) as u8,
        Shift::Ror => (v / 2 + if cin { 0x80int } else { 0int }) as u8,
    }
}

/// The bit that a shift moves out, which becomes the carry.
pub open spec fn shifted_out(kind: Shift, v: u8) -> bool {
    match kind {
        Shift::Asl | Shift::Rol => v >= 0x80,
        Shift::Lsr | Shift::Ror => v % 2 == 1,
    }
}

/// A shift of the accumulator (no addressing mode) or of a byte in memory; the
/// carry takes the bit moved out, Zero and Negative come from the result.
pub open spec fn shift_spec(c: CpuView, mode: AddressingMode, kind: Shift) -> (CpuView, u8) {
    let cin = has_flag(c.status, CARRY);
    if mode == AddressingMode::NoneAddressing {
        let r = shifted(kind, c.a, cin);
        let s = zn_spec(with_flag(c.status, CARRY, shifted_out(kind, c.a)), r);
        (CpuView { a: r, status: s, ..c }, r)
    } else {
        let (c1, addr, v) = operand_spec(c, mode);
        let r = shifted(kind, v, cin);
        let c2 = cpu_write(c1, addr, r);
        let s = zn_spec(with_flag(c2.status, CARRY, shifted_out(kind, v)), r);
        (CpuView { status: s, ..c2 }, r)
    }
}

/// Increment (`up`) or decrement of a byte in memory; Zero and Negative from the result.
pub open spec fn step_memory_spec(c: CpuView, mode: AddressingMode, up: bool) -> (CpuView, u8) {
    let (c1, addr, v) = operand_spec(c, mode);
    let r = if up { v.wrapping_add(1) } else { v.wrapping_sub(1) };
    let c2 = cpu_write(c1, addr, r);
    (CpuView { status: zn_spec(c2.status, r), ..c2 }, r)
}

/// The relative target of a taken branch whose offset byte sits at `pc`.
pub open spec fn branch_target(pc: u16, off: u8) -> u16 {
    let ext: u16 = if off < 0x80 { off as u16 } else { (off + 0xff00) as u16 };
    pc.wrapping_add(1).wrapping_add(ext)
}

/// A conditional branch: when taken, the program counter moves by the signed offset.
pub open spec fn branch_spec(c: CpuView, cond: bool) -> CpuView {
    if cond {
        let (c1, off) = cpu_read(c, c.pc);
        CpuView { pc: branch_target(c.pc, off), ..c1 }
    } else {
        c
    }
}

/// The target of an indirect jump through `ptr`. When `ptr` ends a page, the high byte
/// comes from the start of that same page, as on the hardware.
pub open spec fn indirect_target(c: CpuView, ptr: u16) -> (CpuView, u16) {
    if ptr % 0x100 == 0xff {
        let (c1, lo) = cpu_read(c, ptr);
        let (c2, hi) = cpu_read(c1, (ptr - 0xff) as u16);
        (c2, (hi as int * 0x100 + lo) as u16)
    } else {
        cpu_read_u16(c, ptr)
    }
}

/// JMP: absolute, or indirect (no addressing mode in the table).
pub open spec fn jmp_spec(c: CpuView, mode: AddressingMode) -> CpuView {
    if mode == AddressingMode::Absolute {
        let (c1, t) = cpu_read_u16(c, c.pc);
        CpuView { pc: t, ..c1 }
    } else if mode == AddressingMode::NoneAddressing {
        let (c1, ptr) = cpu_read_u16(c, c.pc);
        let (c2, t) = indirect_target(c1, ptr);
        CpuView { pc: t, ..c2 }
    } else {
        c
    }
}

/// The status byte as a push saves it: Break and Break2 both set.
pub open spec fn pushed_status(s: u8) -> u8 {
    with_flag(with_flag(s, BREAK, true), BREAK2, true)
}

/// The status byte as a pull restores it: Break cleared, Break2 set.
pub open spec fn pulled_status(s: u8) -> u8 {
    with_flag(with_flag(s, BREAK, false), BREAK2, true)
}

pub open spec fn php_spec(c: CpuView) -> CpuView {
    push_spec(c, pushed_status(c.status))
}

pub open spec fn plp_spec(c: CpuView) -> CpuView {
    let (c1, s) = pop_spec(c);
    CpuView { status: pulled_status(s), ..c1 }
}

pub open spec fn jsr_spec(c: CpuView) -> CpuView {
    let c1 = push_u16_spec(c, c.pc.wrapping_add(1));
    let (c2, t) = cpu_read_u16(c1, c.pc);
    CpuView { pc: t, ..c2 }
}

pub open spec fn rts_spec(c: CpuView) -> CpuView {
    let (c1, v) = pop_u16_spec(c);
    CpuView { pc: v.wrapping_add(1), ..c1 }
}

pub open spec fn rti_spec(c: CpuView) -> CpuView {
    let (c1, s) = pop_spec(c);
    let (c2, pc) = pop_u16_spec(c1);
    CpuView { status: pulled_status(s), pc, ..c2 }
}

/// BIT: Zero from `a & v`, Negative and Overflow from bits 7 and 6 of `v`.
pub open spec fn bit_spec(c: CpuView, mode: AddressingMode) -> CpuView {
    let (c1, addr, v) = operand_spec(c, mode);
    let s1 = with_flag(c1.status, ZERO, c1.a & v == 0);
    let s2 = with_flag(s1, NEGATIVE, v >= 0x80);
    let s3 = with_flag(s2, OVERFLOW, v / 0x40 % 2 == 1);
    CpuView { status: s3, ..c1 }
}

/// Instructions that read or write a memory operand, and so need an addressing mode.
pub open spec fn needs_operand(m: Mnemonic) -> bool {
    match m {
        Mnemonic::Adc | Mnemonic::And | Mnemonic::Bit | Mnemonic::Cmp | Mnemonic::Cpx
        | Mnemonic::Cpy | Mnemonic::Dcp | Mnemonic::Dec | Mnemonic::Eor | Mnemonic::Inc
        | Mnemonic::Isb | Mnemonic::Lax | Mnemonic::Lda | Mnemonic::Ldx | Mnemonic::Ldy
        | Mnemonic::Ora | Mnemonic::Rla | Mnemonic::Rra | Mnemonic::Sbc | Mnemonic::Slo
        | Mnemonic::Sre | Mnemonic::Sta | Mnemonic::Stx | Mnemonic::Sty | Mnemonic::Aax => true,
        _ => false,
    }
}

/// What one instruction other than BRK does, with the program counter at its operand.
#[verifier::opaque]
pub open spec fn execute_spec(c: CpuView, op: Opcode) -> CpuView {
    let mode = op.mode;
    let s = c.status;
    match op.mnemonic {
        Mnemonic::Adc => { let (c1, _a, v) = operand_spec(c, mode); add_spec(c1, v) },
        Mnemonic::Sbc => { let (c1, _a, v) = operand_spec(c, mode); add_spec(c1, sbc_operand(v)) },
        Mnemonic::And => { let (c1, _a, v) = operand_spec(c, mode); set_a_spec(c1, v & c1.a) },
        Mnemonic::Eor => { let (c1, _a, v) = operand_spec(c, mode); set_a_spec(c1, v ^ c1.a) },
        Mnemonic::Ora => { let (c1, _a, v) = operand_spec(c, mode); set_a_spec(c1, v | c1.a) },
        Mnemonic::Asl => shift_spec(c, mode, Shift::Asl).0,
        Mnemonic::Lsr => shift_spec(c, mode, Shift::Lsr).0,
        Mnemonic::Rol => shift_spec(c, mode, Shift::Rol).0,
        Mnemonic::Ror => shift_spec(c, mode, Shift::Ror).0,
        Mnemonic::Bcc => branch_spec(c, !has_flag(s, CARRY)),
        Mnemonic::Bcs => branch_spec(c, has_flag(s, CARRY)),
        Mnemonic::Beq => branch_spec(c, has_flag(s, ZERO)),
        Mnemonic::Bmi => branch_spec(c, has_flag(s, NEGATIVE)),
        Mnemonic::Bne => branch_spec(c, !has_flag(s, ZERO)),
        Mnemonic::Bpl => branch_spec(c, !has_flag(s, NEGATIVE)),
        Mnemonic::Bvc => branch_spec(c, !has_flag(s, OVERFLOW)),
        Mnemonic::Bvs => branch_spec(c, has_flag(s, OVERFLOW)),
        Mnemonic::Clc => CpuView { status: with_flag(s, CARRY, false), ..c },
        Mnemonic::Cld => CpuView { status: with_flag(s, crate::flags::DECIMAL_MODE, false), ..c },
        Mnemonic::Cli => CpuView { status: with_flag(s, INTERRUPT_DISABLE, false), ..c },
        Mnemonic::Clv => CpuView { status: with_flag(s, OVERFLOW, false), ..c },
        Mnemonic::Sec => CpuView { status: with_flag(s, CARRY, true), ..c },
        Mnemonic::Sed => CpuView { status: with_flag(s, crate::flags::DECIMAL_MODE, true), ..c },
        Mnemonic::Sei => CpuView { status: with_flag(s, INTERRUPT_DISABLE, true), ..c },
        Mnemonic::Cmp => { let (c1, _a, v) = operand_spec(c, mode); compare_spec(c1, c1.a, v) },
        Mnemonic::Cpx => { let (c1, _a, v) = operand_spec(c, mode); compare_spec(c1, c1.x, v) },
        Mnemonic::Cpy => { let (c1, _a, v) = operand_spec(c, mode); compare_spec(c1, c1.y, v) },
        Mnemonic::Dex => CpuView { x: c.x.wrapping_sub(1), status: zn_spec(s, c.x.wrapping_sub(1)), ..c },
        Mnemonic::Dey => CpuView { y: c.y.wrapping_sub(1), status: zn_spec(s, c.y.wrapping_sub(1)), ..c },
        Mnemonic::Inx => CpuView { x: c.x.wrapping_add(1), status: zn_spec(s, c.x.wrapping_add(1)), ..c },
        Mnemonic::Iny => CpuView { y: c.y.wrapping_add(1), status: zn_spec(s, c.y.wrapping_add(1)), ..c },
        Mnemonic::Inc => step_memory_spec(c, mode, true).0,
        Mnemonic::Dec => step_memory_spec(c, mode, false).0,
        Mnemonic::Jsr => jsr_spec(c),
        Mnemonic::Rts => rts_spec(c),
        Mnemonic::Rti => rti_spec(c),
        Mnemonic::Jmp => jmp_spec(c, mode),
        Mnemonic::Lda => { let (c1, _a, v) = operand_spec(c, mode); set_a_spec(c1, v) },
        Mnemonic::Ldx => { let (c1, _a, v) = operand_spec(c, mode); CpuView { x: v, status: zn_spec(c1.status, v), ..c1 } },
        Mnemonic::Ldy => { let (c1, _a, v) = operand_spec(c, mode); CpuView { y: v, status: zn_spec(c1.status, v), ..c1 } },
        Mnemonic::Lax => { let (c1, _a, v) = operand_spec(c, mode); CpuView { x: v, ..set_a_spec(c1, v) } },
        Mnemonic::Sta => { let (c1, addr) = operand_address_spec(c, mode); cpu_write(c1, addr, c1.a) },
        Mnemonic::Stx => { let (c1, addr) = operand_address_spec(c, mode); cpu_write(c1, addr, c1.x) },
        Mnemonic::Sty => { let (c1, addr) = operand_address_spec(c, mode); cpu_write(c1, addr, c1.y) },
        Mnemonic::Aax => { let (c1, addr) = operand_address_spec(c, mode); cpu_write(c1, addr, c1.x & c1.a) },
        Mnemonic::Pha => push_spec(c, c.a),
        Mnemonic::Php => php_spec(c),
        Mnemonic::Pla => { let (c1, v) = pop_spec(c); set_a_spec(c1, v) },
        Mnemonic::Plp => plp_spec(c),
        Mnemonic::Tax => CpuView { x: c.a, status: zn_spec(s, c.a), ..c },
        Mnemonic::Tay => CpuView { y: c.a, status: zn_spec(s, c.a), ..c },
        Mnemonic::Txa => CpuView { a: c.x, status: zn_spec(s, c.x), ..c },
        Mnemonic::Tya => CpuView { a: c.y, status: zn_spec(s, c.y), ..c },
        Mnemonic::Tsx => CpuView { x: c.sp, status: zn_spec(s, c.sp), ..c },
        Mnemonic::Txs => CpuView { sp: c.x, ..c },
        Mnemonic::Bit => bit_spec(c, mode),
        Mnemonic::Isb => { let (c1, r) = step_memory_spec(c, mode, true); add_spec(c1, sbc_operand(r)) },
        Mnemonic::Dcp => { let (c1, r) = step_memory_spec(c, mode, false); compare_spec(c1, c1.a, r) },
        Mnemonic::Slo => { let (c1, r) = shift_spec(c, mode, Shift::Asl); set_a_spec(c1, r | c1.a) },
        Mnemonic::Rla => { let (c1, r) = shift_spec(c, mode, Shift::Rol); set_a_spec(c1, r & c1.a) },
        Mnemonic::Sre => { let (c1, r) = shift_spec(c, mode, Shift::Lsr); set_a_spec(c1, r ^ c1.a) },
        Mnemonic::Rra => { let (c1, r) = shift_spec(c, mode, Shift::Ror); add_spec(c1, r) },
        _ => c,
    }
}

/// Fetch, decode and execute one instruction. The result says whether BRK halted the
/// engine, or which error stopped it: an opcode missing from the table, or an
/// instruction that needs a memory operand paired with no addressing mode. After an
/// instruction that left the program counter where the fetch put it, the counter
/// moves past the operand bytes.
#[verifier::opaque]
pub open spec fn execute_next_spec(c: CpuView) -> (CpuView, Result<bool, CpuError>) {
    let (c1, code) = cpu_read(c, c.pc);
    let c2 = CpuView { pc: c.pc.wrapping_add(1), ..c1 };
    match opcode_table(code) {
        None => (c2, Err(CpuError::UnknownOpcode(code))),
        Some(op) => if needs_operand(op.mnemonic) && op.mode == AddressingMode::NoneAddressing {
            (c2, Err(CpuError::UnsupportedMode(code)))
        } else {
            let c3 = CpuView { bus: bus_tick(c2.bus, op.cycles), ..c2 };
            if op.mnemonic == Mnemonic::Brk {
                (c3, Ok(true))
            } else {
                let c4 = execute_spec(c3, op);
                if c4.pc == c2.pc {
                    (CpuView { pc: c4.pc.wrapping_add(op.len as u16).wrapping_sub(1), ..c4 }, Ok(false))
                } else {
                    (c4, Ok(false))
                }
            }
        },
    }
}

/// Servicing a non-maskable interrupt: the program counter and the status (Break
/// cleared, Break2 set) are pushed, interrupts are disabled, two cycles pass, and
/// the program counter is loaded from the NMI vector.
pub open spec fn interrupt_nmi_spec(c: CpuView) -> CpuView {
    let c1 = push_u16_spec(c, c.pc);
    let c2 = push_spec(c1, pulled_status(c.status));
    let c3 = CpuView { status: with_flag(c2.status, INTERRUPT_DISABLE, true), bus: bus_tick(c2.bus, 2), ..c2 };
    let (c4, t) = cpu_read_u16(c3, NMI_VECTOR);
    CpuView { pc: t, ..c4 }
}

/// The check made before each fetch: a pending NMI is cleared and serviced.
pub open spec fn service_nmi_spec(c: CpuView) -> CpuView {
    if c.bus.ppu.nmi {
        let c1 = CpuView { bus: BusView { ppu: crate::ppu::PpuView { nmi: false, ..c.bus.ppu }, ..c.bus }, ..c };
        interrupt_nmi_spec(c1)
    } else {
        c
    }
}

/// One iteration of the run loop: the NMI check, then one instruction.
pub open spec fn step_spec(c: CpuView) -> (CpuView, Result<bool, CpuError>) {
    execute_next_spec(service_nmi_spec(c))
}

/// Steps until BRK halts the engine, an error stops it, or `fuel` steps have run;
/// `Ok(false)` means the fuel ran out.
pub open spec fn run_spec(c: CpuView, fuel: nat) -> (CpuView, Result<bool, CpuError>)
    decreases fuel,
{
    if fuel == 0 {
        (c, Ok(false))
    } else {
        let (c1, r) = step_spec(c);
        if r == Ok::<bool, CpuError>(false) {
            run_spec(c1, (fuel - 1) as nat)
        } else {
            (c1, r)
        }
    }
}

/// Reset: registers cleared, stack pointer and status at their power-on values, the
/// program counter loaded from the reset vector.
pub open spec fn reset_spec(c: CpuView) -> CpuView {
    let (c1, pc) = cpu_read_u16(c, RESET_VECTOR);
    CpuView { a: 0, x: 0, y: 0, sp: STACK_RESET, status: STATUS_RESET, pc, ..c1 }
}

/// The first `k` bytes of `program` written from `PROGRAM_START` on.
pub open spec fn write_program_spec(c: CpuView, program: Seq<u8>, k: nat) -> CpuView
    decreases k,
{
    if k == 0 {
        c
    } else {
        let prev = write_program_spec(c, program, (k - 1) as nat);
        cpu_write(prev, (PROGRAM_START + k - 1) as u16, program[k - 1])
    }
}

/// Loading: the program is written from `PROGRAM_START` on and the reset vector points there.
pub open spec fn load_spec(c: CpuView, program: Seq<u8>) -> CpuView {
    cpu_write_u16(write_program_spec(c, program, program.len()), RESET_VECTOR, PROGRAM_START)
}

/// How many steps `run` allows before it gives up: 2^64 - 1.
pub open spec fn run_fuel() -> nat {
    0xffff_ffff_ffff_ffff
}

/// Zero and Negative are decided by the result alone: Zero iff it is 0, Negative iff
/// its bit 7 is set; the other six flags keep their values.
pub proof fn lemma_zero_and_negative(status: u8, v: u8)
    ensures
        has_flag(zn_spec(status, v), ZERO) == (v == 0),
        has_flag(zn_spec(status, v), NEGATIVE) == (v & 0x80 != 0),
        zn_spec(status, v) & 0x7d == status & 0x7d,
{
    let z = v == 0;
    let n = v >= 0x80;
    assert(has_flag(with_flag(with_flag(status, 2, z), 0x80, n), 2) == z) by (bit_vector);
    assert(has_flag(with_flag(with_flag(status, 2, z), 0x80, n), 0x80) == n) by (bit_vector);
    assert(with_flag(with_flag(status, 2, z), 0x80, n) & 0x7d == status & 0x7d) by (bit_vector);
    assert((v & 0x80 != 0) == (v >= 0x80)) by (bit_vector);
}

/// Subtracting `d` with the complementary carry undoes adding `d` with carry `carry`.
pub proof fn lemma_adc_sbc_values(a: u8, d: u8, carry: bool)
    ensures
        adc_value(adc_value(a, d, carry), sbc_operand(d), !carry) == a,
{
}

/// On the machine: after ADC of `d`, an SBC of `d` with the carry flag set to the
/// complement of the carry that went into the ADC restores the accumulator, whatever
/// it and the other flags were.
pub proof fn lemma_adc_sbc_round_trip(c: CpuView, d: u8)
    ensures
        ({
            let c1 = add_spec(c, d);
            let c2 = CpuView { status: with_flag(c1.status, CARRY, !has_flag(c.status, CARRY)), ..c1 };
            add_spec(c2, sbc_operand(d)).a == c.a
        }),
{
    let c1 = add_spec(c, d);
    let cin = has_flag(c.status, CARRY);
    assert(CARRY & 0 == 0) by (bit_vector);
    crate::flags::lemma_with_flag(c1.status, CARRY, !cin, 0);
    lemma_adc_sbc_values(c.a, d, cin);
}

/// With the carry flag left as ADC set it, SBC of the same operand restores the
/// accumulator exactly when the ADC's carry out is the complement of its carry in
/// (for instance not for 0 + 0 with no carry, where SBC then borrows and gives 0xFF).
pub proof fn lemma_adc_sbc_with_flags(c: CpuView, d: u8)
    requires
        adc_carry(c.a, d, has_flag(c.status, CARRY)) == !has_flag(c.status, CARRY),
    ensures
        add_spec(add_spec(c, d), sbc_operand(d)).a == c.a,
{
    let cin = has_flag(c.status, CARRY);
    let k = adc_carry(c.a, d, cin);
    let r = adc_value(c.a, d, cin);
    let v = (d ^ r) & (r ^ c.a) & 0x80 != 0;
    let st = c.status;
    let z = r == 0;
    let n = r >= 0x80;
    assert(has_flag(with_flag(with_flag(with_flag(with_flag(st, 1, k), 0x40, v), 2, z), 0x80, n), 1) == k)
        by (bit_vector);
    lemma_adc_sbc_values(c.a, d, cin);
}

/// Indirect-Y addressing with a pointer byte of 0xFF reads the pointer's two bytes at
/// 0x00FF and 0x0000 (the zero page wraps), then adds Y with 16-bit wraparound.
pub proof fn lemma_indirect_y_wraps(c: CpuView, addr: u16)
    requires
        c.wf(),
        cpu_read(c, addr).1 == 0xff,
    ensures
        ({
            let c1 = cpu_read(c, addr).0;
            absolute_address_spec(c, AddressingMode::Indirect_Y, addr) == (c1,
                ((c1.bus.ram[0] as int * 0x100 + c1.bus.ram[0xff]) as u16).wrapping_add(c.y as u16))
        }),
{
}

/// The indirect-jump defect: when the pointer ends a page, the target's high byte
/// comes from the first byte of that same page, not of the next one.
pub proof fn lemma_indirect_jump_page_bug(c: CpuView, ptr: u16)
    requires
        c.wf(),
        ptr < 0x2000,
        ptr % 0x100 == 0xff,
    ensures
        indirect_target(c, ptr) == (c,
            (c.bus.ram[((ptr / 0x100 * 0x100) % 0x800) as int] as int * 0x100 + c.bus.ram[(ptr % 0x800) as int]) as u16),
{
}

/// Pushing a byte and popping it gives the byte back, with the stack pointer where it was.
pub proof fn lemma_stack_round_trip(c: CpuView, v: u8)
    requires
        c.wf(),
    ensures
        pop_spec(push_spec(c, v)).1 == v,
        pop_spec(push_spec(c, v)).0.sp == c.sp,
{
}

/// Pushing a 16-bit value and popping it gives the value back, with the stack pointer
/// where it was.
pub proof fn lemma_stack_round_trip_u16(c: CpuView, v: u16)
    requires
        c.wf(),
    ensures
        pop_u16_spec(push_u16_spec(c, v)).1 == v,
        pop_u16_spec(push_u16_spec(c, v)).0.sp == c.sp,
{
    let c1 = push_spec(c, (v / 0x100) as u8);
    let c2 = push_spec(c1, (v % 0x100) as u8);
    lemma_stack_round_trip(c1, (v % 0x100) as u8);
    let (c3, lo) = pop_spec(c2);
    assert(c3.bus.ram == c2.bus.ram);
    assert(c3.sp == c1.sp);
}

/// PHP then PLP keeps every flag but the two break bits, which come back cleared
/// (Break) and set (Break2) whatever was pushed.
pub proof fn lemma_php_plp(c: CpuView)
    requires
        c.wf(),
    ensures
        plp_spec(php_spec(c)).status == pulled_status(c.status),
        plp_spec(php_spec(c)).status & 0xcf == c.status & 0xcf,
        !has_flag(plp_spec(php_spec(c)).status, BREAK),
        has_flag(plp_spec(php_spec(c)).status, BREAK2),
        plp_spec(php_spec(c)).sp == c.sp,
{
    let s = c.status;
    lemma_stack_round_trip(c, pushed_status(s));
    assert(with_flag(with_flag(with_flag(with_flag(s, 0x10, true), 0x20, true), 0x10, false), 0x20, true)
        == with_flag(with_flag(s, 0x10, false), 0x20, true)) by (bit_vector);
    assert(with_flag(with_flag(s, 0x10, false), 0x20, true) & 0xcf == s & 0xcf) by (bit_vector);
    assert(!has_flag(with_flag(with_flag(s, 0x10, false), 0x20, true), 0x10)) by (bit_vector);
    assert(has_flag(with_flag(with_flag(s, 0x10, false), 0x20, true), 0x20)) by (bit_vector);
}

} // verus!
