use vstd::prelude::*;
use crate::bus::Bus;
use crate::cpu_spec::{
    CpuError, CpuView, NMI_VECTOR, PROGRAM_START, RESET_VECTOR, STACK, STACK_RESET,
    STATUS_RESET, Shift, absolute_address_spec, add_spec, branch_spec, compare_spec, cpu_read,
    cpu_read_u16, cpu_write, cpu_write_u16, execute_next_spec, execute_spec, interrupt_nmi_spec,
    is_memory_mode, jmp_spec, load_spec, needs_operand, operand_address_spec, operand_spec,
    pop_spec, pop_u16_spec, push_spec, push_u16_spec, reset_spec, run_fuel, run_spec,
    sbc_operand, service_nmi_spec, set_a_spec, shift_spec, shifted, shifted_out,
    step_memory_spec, step_spec, write_program_spec, zn_spec,
};
use crate::flags::{
    CpuFlags, BREAK, BREAK2, CARRY, DECIMAL_MODE, INTERRUPT_DISABLE, NEGATIVE, OVERFLOW, ZERO,
};
use crate::opcodes::{lookup, AddressingMode, Mnemonic, Opcode};

verus! {

/// The 6502-compatible processor, owning the bus and through it the PPU.
pub struct Cpu {
    pub register_a: u8,
    pub register_x: u8,
    pub register_y: u8,
    pub status: CpuFlags,
    pub program_counter: u16,
    pub stack_pointer: u8,
    bus: Bus,
}

impl View for Cpu {
    type V = CpuView;

    closed spec fn view(&self) -> CpuView {
        CpuView {
            a: self.register_a,
            x: self.register_x,
            y: self.register_y,
            status: self.status.bits,
            pc: self.program_counter,
            sp: self.stack_pointer,
            bus: self.bus@,
        }
    }
}

impl Cpu {
    pub fn new(bus: Bus) -> (r: Cpu)
        requires
            bus@.wf(),
        ensures
            r@ == (CpuView { a: 0, x: 0, y: 0, status: STATUS_RESET, pc: 0, sp: STACK_RESET, bus: bus@ }),
            r@.wf(),
    {
        Cpu {
            register_a: 0,
            register_x: 0,
            register_y: 0,
            stack_pointer: STACK_RESET,
            program_counter: 0,
            status: CpuFlags::from_bits_truncate(STATUS_RESET),
            bus,
        }
    }

    /// Read access to the bus, for the renderer and for tracing.
    pub fn bus(&self) -> (r: &Bus)
        ensures
            r@ == self@.bus,
    {
        &self.bus
    }

    pub fn mem_read(&mut self, addr: u16) -> (r: u8)
        requires
            old(self)@.wf(),
        ensures
            (final(self)@, r) == cpu_read(old(self)@, addr),
            final(self)@.wf(),
    {
        self.bus.mem_read(addr)
    }

    pub fn mem_write(&mut self, addr: u16, data: u8)
        requires
            old(self)@.wf(),
        ensures
            final(self)@ == cpu_write(old(self)@, addr, data),
            final(self)@.wf(),
    {
        self.bus.mem_write(addr, data)
    }

    pub fn mem_read_u16(&mut self, pos: u16) -> (r: u16)
        requires
            old(self)@.wf(),
        ensures
            (final(self)@, r) == cpu_read_u16(old(self)@, pos),
            final(self)@.wf(),
    {
        let lo = self.mem_read(pos) as u16;
        let hi = self.mem_read(pos.wrapping_add(1)) as u16;
        hi * 0x100 + lo
    }

    pub fn mem_write_u16(&mut self, pos: u16, data: u16)
        requires
            old(self)@.wf(),
        ensures
            final(self)@ == cpu_write_u16(old(self)@, pos, data),
            final(self)@.wf(),
    {
        let hi = (data / 0x100) as u8;
        let lo = (data % 0x100) as u8;
        self.mem_write(pos, lo);
        self.mem_write(pos.wrapping_add(1), hi);
    }

    /// Sets Zero iff `value` is 0 and Negative iff its bit 7 is set; nothing else changes.
    pub fn update_zero_and_negative_flag(&mut self, value: u8)
        ensures
            final(self)@ == (CpuView { status: zn_spec(old(self)@.status, value), ..old(self)@ }),
    {
        self.status.set(ZERO, value == 0);
        self.status.set(NEGATIVE, value >= 0x80);
    }

    fn stack_push(&mut self, data: u8)
        requires
            old(self)@.wf(),
        ensures
            final(self)@ == push_spec(old(self)@, data),
            final(self)@.wf(),
    {
        self.mem_write(STACK + self.stack_pointer as u16, data);
        self.stack_pointer = self.stack_pointer.wrapping_sub(1);
    }

    fn stack_pop(&mut self) -> (r: u8)
        requires
            old(self)@.wf(),
        ensures
            (final(self)@, r) == pop_spec(old(self)@),
            final(self)@.wf(),
    {
        self.stack_pointer = self.stack_pointer.wrapping_add(1);
        self.mem_read(STACK + self.stack_pointer as u16)
    }

    fn stack_push_u16(&mut self, data: u16)
        requires
            old(self)@.wf(),
        ensures
            final(self)@ == push_u16_spec(old(self)@, data),
            final(self)@.wf(),
    {
        let hi = (data / 0x100) as u8;
        let lo = (data % 0x100) as u8;
        self.stack_push(hi);
        self.stack_push(lo);
    }

    fn stack_pop_u16(&mut self) -> (r: u16)
        requires
            old(self)@.wf(),
        ensures
            (final(self)@, r) == pop_u16_spec(old(self)@),
            final(self)@.wf(),
    {
        let lo = self.stack_pop() as u16;
        let hi = self.stack_pop() as u16;
        hi * 0x100 + lo
    }

    /// The effective address of a memory addressing mode whose operand bytes start at `addr`.
    pub fn get_absolute_address(&mut self, mode: &AddressingMode, addr: u16) -> (r: u16)
        requires
            old(self)@.wf(),
            is_memory_mode(*mode),
        ensures
            (final(self)@, r) == absolute_address_spec(old(self)@, *mode, addr),
            final(self)@.wf(),
    {
        match mode {
            AddressingMode::ZeroPage => self.mem_read(addr) as u16,
            AddressingMode::Absolute => self.mem_read_u16(addr),
            AddressingMode::ZeroPage_X => {
                let pos = self.mem_read(addr);
                pos.wrapping_add(self.register_x) as u16
            },
            AddressingMode::ZeroPage_Y => {
                let pos = self.mem_read(addr);
                pos.wrapping_add(self.register_y) as u16
            },
            AddressingMode::Absolute_X => {
                let base = self.mem_read_u16(addr);
                base.wrapping_add(self.register_x as u16)
            },
            AddressingMode::Absolute_Y => {
                let base = self.mem_read_u16(addr);
                base.wrapping_add(self.register_y as u16)
            },
            AddressingMode::Indirect_X => {
                let base = self.mem_read(addr);
                let ptr: u8 = base.wrapping_add(self.register_x);
                let lo = self.mem_read(ptr as u16);
                let hi = self.mem_read(ptr.wrapping_add(1) as u16);
                (hi as u16) * 0x100 + (lo as u16)
            },
            AddressingMode::Indirect_Y => {
                let base = self.mem_read(addr);
                let lo = self.mem_read(base as u16);
                let hi = self.mem_read(base.wrapping_add(1) as u16);
                let deref_base = (hi as u16) * 0x100 + (lo as u16);
                deref_base.wrapping_add(self.register_y as u16)
            },
            _ => 0,
        }
    }

    fn get_operand_address(&mut self, mode: &AddressingMode) -> (r: u16)
        requires
            old(self)@.wf(),
            *mode != AddressingMode::NoneAddressing,
        ensures
            (final(self)@, r) == operand_address_spec(old(self)@, *mode),
            final(self)@.wf(),
    {
        match mode {
            AddressingMode::Immediate => self.program_counter,
            _ => self.get_absolute_address(mode, self.program_counter),
        }
    }

    fn read_operand(&mut self, mode: &AddressingMode) -> (r: (u16, u8))
        requires
            old(self)@.wf(),
            *mode != AddressingMode::NoneAddressing,
        ensures
            (final(self)@, r.0, r.1) == operand_spec(old(self)@, *mode),
            final(self)@.wf(),
    {
        let addr = self.get_operand_address(mode);
        let value = self.mem_read(addr);
        (addr, value)
    }
    fn set_register_a(&mut self, value: u8)
        ensures
            final(self)@ == set_a_spec(old(self)@, value),
    {
        self.register_a = value;
        self.update_zero_and_negative_flag(value);
    }

    /// Adds `data` and the carry to the accumulator, setting Carry, Overflow, Zero and Negative.
    fn add_to_register_a(&mut self, data: u8)
        ensures
            final(self)@ == add_spec(old(self)@, data),
    {
        let carry_in: u16 = if self.status.contains(CARRY) { 1 } else { 0 };
        let sum = self.register_a as u16 + data as u16 + carry_in;
        self.status.set(CARRY, sum > 0xff);
        let result = (sum % 0x100) as u8;
        self.status.set(OVERFLOW, (data ^ result) & (result ^ self.register_a) & 0x80 != 0);
        self.set_register_a(result);
    }

    /// Subtraction with borrow: the addition of the operand's ones' complement.
    fn sub_from_register_a(&mut self, data: u8)
        ensures
            final(self)@ == add_spec(old(self)@, sbc_operand(data)),
    {
        self.add_to_register_a(0xff - data);
    }

    fn and_with_register_a(&mut self, data: u8)
        ensures
            final(self)@ == set_a_spec(old(self)@, data & old(self)@.a),
    {
        self.set_register_a(data & self.register_a);
    }

    fn xor_with_register_a(&mut self, data: u8)
        ensures
            final(self)@ == set_a_spec(old(self)@, data ^ old(self)@.a),
    {
        self.set_register_a(data ^ self.register_a);
    }

    fn or_with_register_a(&mut self, data: u8)
        ensures
            final(self)@ == set_a_spec(old(self)@, data | old(self)@.a),
    {
        self.set_register_a(data | self.register_a);
    }

    fn compare_with(&mut self, reg: u8, data: u8)
        ensures
            final(self)@ == compare_spec(old(self)@, reg, data),
    {
        self.status.set(CARRY, data <= reg);
        self.update_zero_and_negative_flag(reg.wrapping_sub(data));
    }

    fn compare(&mut self, mode: &AddressingMode, reg: u8)
        requires
            old(self)@.wf(),
            *mode != AddressingMode::NoneAddressing,
        ensures
            final(self)@ == compare_spec(operand_spec(old(self)@, *mode).0, reg, operand_spec(old(self)@, *mode).2),
            final(self)@.wf(),
    {
        let (_addr, data) = self.read_operand(mode);
        self.compare_with(reg, data);
    }

    /// Shifts or rotates the accumulator (no addressing mode) or a byte in memory, and
    /// returns the result.
    fn shift(&mut self, mode: &AddressingMode, kind: Shift) -> (r: u8)
        requires
            old(self)@.wf(),
        ensures
            (final(self)@, r) == shift_spec(old(self)@, *mode, kind),
            final(self)@.wf(),
    {
        let cin = self.status.contains(CARRY);
        let compute = |v: u8| -> (o: (u8, bool))
            ensures
                o == (shifted(kind, v, cin), shifted_out(kind, v)),
        {
            match kind {
                Shift::Asl => (((v as u16 * 2) % 0x100) as u8, v >= 0x80),
                Shift::Lsr => (v / 2, v % 2 == 1),
                Shift::Rol => (((v as u16 * 2) % 0x100 + if cin { 1 } else { 0 }) as u8, v >= 0x80),
                Shift::Ror => ((v / 2 + if cin { 0x80 } else { 0 }) as u8, v % 2 == 1),
            }
        };
        match mode {
            AddressingMode::NoneAddressing => {
                let (result, out) = compute(self.register_a);
                self.status.set(CARRY, out);
                self.set_register_a(result);
                result
            },
            _ => {
                let (addr, data) = self.read_operand(mode);
                let (result, out) = compute(data);
                self.mem_write(addr, result);
                self.status.set(CARRY, out);
                self.update_zero_and_negative_flag(result);
                result
            },
        }
    }

    /// Increments (`up`) or decrements a byte in memory and returns the result.
    fn step_memory(&mut self, mode: &AddressingMode, up: bool) -> (r: u8)
        requires
            old(self)@.wf(),
            *mode != AddressingMode::NoneAddressing,
        ensures
            (final(self)@, r) == step_memory_spec(old(self)@, *mode, up),
            final(self)@.wf(),
    {
        let (addr, data) = self.read_operand(mode);
        let result = if up { data.wrapping_add(1) } else { data.wrapping_sub(1) };
        self.mem_write(addr, result);
        self.update_zero_and_negative_flag(result);
        result
    }

    fn branch(&mut self, condition: bool)
        requires
            old(self)@.wf(),
        ensures
            final(self)@ == branch_spec(old(self)@, condition),
            final(self)@.wf(),
    {
        if condition {
            let off = self.mem_read(self.program_counter);
            let ext: u16 = if off < 0x80 { off as u16 } else { off as u16 + 0xff00 };
            self.program_counter = self.program_counter.wrapping_add(1).wrapping_add(ext);
        }
    }

    fn jmp(&mut self, mode: &AddressingMode)
        requires
            old(self)@.wf(),
        ensures
            final(self)@ == jmp_spec(old(self)@, *mode),
            final(self)@.wf(),
    {
        match mode {
            AddressingMode::NoneAddressing => {
                let ptr = self.mem_read_u16(self.program_counter);
                let target = if ptr % 0x100 == 0xff {
                    let lo = self.mem_read(ptr);
                    let hi = self.mem_read(ptr - 0xff);
                    (hi as u16) * 0x100 + (lo as u16)
                } else {
                    self.mem_read_u16(ptr)
                };
                self.program_counter = target;
            },
            AddressingMode::Absolute => {
                let target = self.mem_read_u16(self.program_counter);
                self.program_counter = target;
            },
            _ => {},
        }
    }

    fn lda(&mut self, op: &Opcode)
        requires
            old(self)@.wf(),
            op.mnemonic == Mnemonic::Lda,
            op.mode != AddressingMode::NoneAddressing,
        ensures
            final(self)@ == execute_spec(old(self)@, *op),
            final(self)@.wf(),
    {
        reveal(execute_spec);
        let (_addr, value) = self.read_operand(&op.mode);
        self.set_register_a(value);
    }

    fn ldx(&mut self, op: &Opcode)
        requires
            old(self)@.wf(),
            op.mnemonic == Mnemonic::Ldx,
            op.mode != AddressingMode::NoneAddressing,
        ensures
            final(self)@ == execute_spec(old(self)@, *op),
            final(self)@.wf(),
    {
        reveal(execute_spec);
        let (_addr, value) = self.read_operand(&op.mode);
        self.register_x = value;
        self.update_zero_and_negative_flag(value);
    }

    fn ldy(&mut self, op: &Opcode)
        requires
            old(self)@.wf(),
            op.mnemonic == Mnemonic::Ldy,
            op.mode != AddressingMode::NoneAddressing,
        ensures
            final(self)@ == execute_spec(old(self)@, *op),
            final(self)@.wf(),
    {
        reveal(execute_spec);
        let (_addr, value) = self.read_operand(&op.mode);
        self.register_y = value;
        self.update_zero_and_negative_flag(value);
    }

    fn sta(&mut self, op: &Opcode)
        requires
            old(self)@.wf(),
            op.mnemonic == Mnemonic::Sta,
            op.mode != AddressingMode::NoneAddressing,
        ensures
            final(self)@ == execute_spec(old(self)@, *op),
            final(self)@.wf(),
    {
        reveal(execute_spec);
        let addr = self.get_operand_address(&op.mode);
        self.mem_write(addr, self.register_a);
    }

    fn stx(&mut self, op: &Opcode)
        requires
            old(self)@.wf(),
            op.mnemonic == Mnemonic::Stx,
            op.mode != AddressingMode::NoneAddressing,
        ensures
            final(self)@ == execute_spec(old(self)@, *op),
            final(self)@.wf(),
    {
        reveal(execute_spec);
        let addr = self.get_operand_address(&op.mode);
        self.mem_write(addr, self.register_x);
    }

    fn sty(&mut self, op: &Opcode)
        requires
            old(self)@.wf(),
            op.mnemonic == Mnemonic::Sty,
            op.mode != AddressingMode::NoneAddressing,
        ensures
            final(self)@ == execute_spec(old(self)@, *op),
            final(self)@.wf(),
    {
        reveal(execute_spec);
        let addr = self.get_operand_address(&op.mode);
        self.mem_write(addr, self.register_y);
    }

    fn aax(&mut self, op: &Opcode)
        requires
            old(self)@.wf(),
            op.mnemonic == Mnemonic::Aax,
            op.mode != AddressingMode::NoneAddressing,
        ensures
            final(self)@ == execute_spec(old(self)@, *op),
            final(self)@.wf(),
    {
        reveal(execute_spec);
        let addr = self.get_operand_address(&op.mode);
        self.mem_write(addr, self.register_x & self.register_a);
    }

    fn tax(&mut self, op: &Opcode)
        requires
            old(self)@.wf(),
            op.mnemonic == Mnemonic::Tax,
        ensures
            final(self)@ == execute_spec(old(self)@, *op),
            final(self)@.wf(),
    {
        reveal(execute_spec);
        self.register_x = self.register_a;
        self.update_zero_and_negative_flag(self.register_x);
    }

    fn tay(&mut self, op: &Opcode)
        requires
            old(self)@.wf(),
            op.mnemonic == Mnemonic::Tay,
        ensures
            final(self)@ == execute_spec(old(self)@, *op),
            final(self)@.wf(),
    {
        reveal(execute_spec);
        self.register_y = self.register_a;
        self.update_zero_and_negative_flag(self.register_y);
    }

    fn txa(&mut self, op: &Opcode)
        requires
            old(self)@.wf(),
            op.mnemonic == Mnemonic::Txa,
        ensures
            final(self)@ == execute_spec(old(self)@, *op),
            final(self)@.wf(),
    {
        reveal(execute_spec);
        self.register_a = self.register_x;
        self.update_zero_and_negative_flag(self.register_a);
    }

    fn tya(&mut self, op: &Opcode)
        requires
            old(self)@.wf(),
            op.mnemonic == Mnemonic::Tya,
        ensures
            final(self)@ == execute_spec(old(self)@, *op),
            final(self)@.wf(),
    {
        reveal(execute_spec);
        self.register_a = self.register_y;
        self.update_zero_and_negative_flag(self.register_a);
    }

    fn tsx(&mut self, op: &Opcode)
        requires
            old(self)@.wf(),
            op.mnemonic == Mnemonic::Tsx,
        ensures
            final(self)@ == execute_spec(old(self)@, *op),
            final(self)@.wf(),
    {
        reveal(execute_spec);
        self.register_x = self.stack_pointer;
        self.update_zero_and_negative_flag(self.register_x);
    }

    fn txs(&mut self, op: &Opcode)
        requires
            old(self)@.wf(),
            op.mnemonic == Mnemonic::Txs,
        ensures
            final(self)@ == execute_spec(old(self)@, *op),
            final(self)@.wf(),
    {
        reveal(execute_spec);
        self.stack_pointer = self.register_x;
    }

    fn inx(&mut self, op: &Opcode)
        requires
            old(self)@.wf(),
            op.mnemonic == Mnemonic::Inx,
        ensures
            final(self)@ == execute_spec(old(self)@, *op),
            final(self)@.wf(),
    {
        reveal(execute_spec);
        self.register_x = self.register_x.wrapping_add(1);
        self.update_zero_and_negative_flag(self.register_x);
    }

    fn iny(&mut self, op: &Opcode)
        requires
            old(self)@.wf(),
            op.mnemonic == Mnemonic::Iny,
        ensures
            final(self)@ == execute_spec(old(self)@, *op),
            final(self)@.wf(),
    {
        reveal(execute_spec);
        self.register_y = self.register_y.wrapping_add(1);
        self.update_zero_and_negative_flag(self.register_y);
    }

    fn dex(&mut self, op: &Opcode)
        requires
            old(self)@.wf(),
            op.mnemonic == Mnemonic::Dex,
        ensures
            final(self)@ == execute_spec(old(self)@, *op),
            final(self)@.wf(),
    {
        reveal(execute_spec);
        self.register_x = self.register_x.wrapping_sub(1);
        self.update_zero_and_negative_flag(self.register_x);
    }

    fn dey(&mut self, op: &Opcode)
        requires
            old(self)@.wf(),
            op.mnemonic == Mnemonic::Dey,
        ensures
            final(self)@ == execute_spec(old(self)@, *op),
            final(self)@.wf(),
    {
        reveal(execute_spec);
        self.register_y = self.register_y.wrapping_sub(1);
        self.update_zero_and_negative_flag(self.register_y);
    }

    fn adc(&mut self, op: &Opcode)
        requires
            old(self)@.wf(),
            op.mnemonic == Mnemonic::Adc,
            op.mode != AddressingMode::NoneAddressing,
        ensures
            final(self)@ == execute_spec(old(self)@, *op),
            final(self)@.wf(),
    {
        reveal(execute_spec);
        let (_addr, value) = self.read_operand(&op.mode);
        self.add_to_register_a(value);
    }

    fn sbc(&mut self, op: &Opcode)
        requires
            old(self)@.wf(),
            op.mnemonic == Mnemonic::Sbc,
            op.mode != AddressingMode::NoneAddressing,
        ensures
            final(self)@ == execute_spec(old(self)@, *op),
            final(self)@.wf(),
    {
        reveal(execute_spec);
        let (_addr, value) = self.read_operand(&op.mode);
        self.sub_from_register_a(value);
    }

    fn and(&mut self, op: &Opcode)
        requires
            old(self)@.wf(),
            op.mnemonic == Mnemonic::And,
            op.mode != AddressingMode::NoneAddressing,
        ensures
            final(self)@ == execute_spec(old(self)@, *op),
            final(self)@.wf(),
    {
        reveal(execute_spec);
        let (_addr, value) = self.read_operand(&op.mode);
        self.and_with_register_a(value);
    }

    fn eor(&mut self, op: &Opcode)
        requires
            old(self)@.wf(),
            op.mnemonic == Mnemonic::Eor,
            op.mode != AddressingMode::NoneAddressing,
        ensures
            final(self)@ == execute_spec(old(self)@, *op),
            final(self)@.wf(),
    {
        reveal(execute_spec);
        let (_addr, value) = self.read_operand(&op.mode);
        self.xor_with_register_a(value);
    }

    fn ora(&mut self, op: &Opcode)
        requires
            old(self)@.wf(),
            op.mnemonic == Mnemonic::Ora,
            op.mode != AddressingMode::NoneAddressing,
        ensures
            final(self)@ == execute_spec(old(self)@, *op),
            final(self)@.wf(),
    {
        reveal(execute_spec);
        let (_addr, value) = self.read_operand(&op.mode);
        self.or_with_register_a(value);
    }

    fn lax(&mut self, op: &Opcode)
        requires
            old(self)@.wf(),
            op.mnemonic == Mnemonic::Lax,
            op.mode != AddressingMode::NoneAddressing,
        ensures
            final(self)@ == execute_spec(old(self)@, *op),
            final(self)@.wf(),
    {
        reveal(execute_spec);
        let (_addr, value) = self.read_operand(&op.mode);
        self.set_register_a(value);
        self.register_x = self.register_a;
    }

    fn asl(&mut self, op: &Opcode)
        requires
            old(self)@.wf(),
            op.mnemonic == Mnemonic::Asl,
        ensures
            final(self)@ == execute_spec(old(self)@, *op),
            final(self)@.wf(),
    {
        reveal(execute_spec);
        self.shift(&op.mode, Shift::Asl);
    }

    fn lsr(&mut self, op: &Opcode)
        requires
            old(self)@.wf(),
            op.mnemonic == Mnemonic::Lsr,
        ensures
            final(self)@ == execute_spec(old(self)@, *op),
            final(self)@.wf(),
    {
        reveal(execute_spec);
        self.shift(&op.mode, Shift::Lsr);
    }

    fn rol(&mut self, op: &Opcode)
        requires
            old(self)@.wf(),
            op.mnemonic == Mnemonic::Rol,
        ensures
            final(self)@ == execute_spec(old(self)@, *op),
            final(self)@.wf(),
    {
        reveal(execute_spec);
        self.shift(&op.mode, Shift::Rol);
    }

    fn ror(&mut self, op: &Opcode)
        requires
            old(self)@.wf(),
            op.mnemonic == Mnemonic::Ror,
        ensures
            final(self)@ == execute_spec(old(self)@, *op),
            final(self)@.wf(),
    {
        reveal(execute_spec);
        self.shift(&op.mode, Shift::Ror);
    }

    fn slo(&mut self, op: &Opcode)
        requires
            old(self)@.wf(),
            op.mnemonic == Mnemonic::Slo,
            op.mode != AddressingMode::NoneAddressing,
        ensures
            final(self)@ == execute_spec(old(self)@, *op),
            final(self)@.wf(),
    {
        reveal(execute_spec);
        let data = self.shift(&op.mode, Shift::Asl);
        self.or_with_register_a(data);
    }

    fn rla(&mut self, op: &Opcode)
        requires
            old(self)@.wf(),
            op.mnemonic == Mnemonic::Rla,
            op.mode != AddressingMode::NoneAddressing,
        ensures
            final(self)@ == execute_spec(old(self)@, *op),
            final(self)@.wf(),
    {
        reveal(execute_spec);
        let data = self.shift(&op.mode, Shift::Rol);
        self.and_with_register_a(data);
    }

    fn sre(&mut self, op: &Opcode)
        requires
            old(self)@.wf(),
            op.mnemonic == Mnemonic::Sre,
            op.mode != AddressingMode::NoneAddressing,
        ensures
            final(self)@ == execute_spec(old(self)@, *op),
            final(self)@.wf(),
    {
        reveal(execute_spec);
        let data = self.shift(&op.mode, Shift::Lsr);
        self.xor_with_register_a(data);
    }

    fn rra(&mut self, op: &Opcode)
        requires
            old(self)@.wf(),
            op.mnemonic == Mnemonic::Rra,
            op.mode != AddressingMode::NoneAddressing,
        ensures
            final(self)@ == execute_spec(old(self)@, *op),
            final(self)@.wf(),
    {
        reveal(execute_spec);
        let data = self.shift(&op.mode, Shift::Ror);
        self.add_to_register_a(data);
    }

    fn inc(&mut self, op: &Opcode)
        requires
            old(self)@.wf(),
            op.mnemonic == Mnemonic::Inc,
            op.mode != AddressingMode::NoneAddressing,
        ensures
            final(self)@ == execute_spec(old(self)@, *op),
            final(self)@.wf(),
    {
        reveal(execute_spec);
        self.step_memory(&op.mode, true);
    }

    fn dec(&mut self, op: &Opcode)
        requires
            old(self)@.wf(),
            op.mnemonic == Mnemonic::Dec,
            op.mode != AddressingMode::NoneAddressing,
        ensures
            final(self)@ == execute_spec(old(self)@, *op),
            final(self)@.wf(),
    {
        reveal(execute_spec);
        self.step_memory(&op.mode, false);
    }

    fn isb(&mut self, op: &Opcode)
        requires
            old(self)@.wf(),
            op.mnemonic == Mnemonic::Isb,
            op.mode != AddressingMode::NoneAddressing,
        ensures
            final(self)@ == execute_spec(old(self)@, *op),
            final(self)@.wf(),
    {
        reveal(execute_spec);
        let data = self.step_memory(&op.mode, true);
        self.sub_from_register_a(data);
    }

    fn dcp(&mut self, op: &Opcode)
        requires
            old(self)@.wf(),
            op.mnemonic == Mnemonic::Dcp,
            op.mode != AddressingMode::NoneAddressing,
        ensures
            final(self)@ == execute_spec(old(self)@, *op),
            final(self)@.wf(),
    {
        reveal(execute_spec);
        let data = self.step_memory(&op.mode, false);
        self.compare_with(self.register_a, data);
    }

    fn cmp(&mut self, op: &Opcode)
        requires
            old(self)@.wf(),
            op.mnemonic == Mnemonic::Cmp,
            op.mode != AddressingMode::NoneAddressing,
        ensures
            final(self)@ == execute_spec(old(self)@, *op),
            final(self)@.wf(),
    {
        reveal(execute_spec);
        self.compare(&op.mode, self.register_a);
    }

    fn cpx(&mut self, op: &Opcode)
        requires
            old(self)@.wf(),
            op.mnemonic == Mnemonic::Cpx,
            op.mode != AddressingMode::NoneAddressing,
        ensures
            final(self)@ == execute_spec(old(self)@, *op),
            final(self)@.wf(),
    {
        reveal(execute_spec);
        self.compare(&op.mode, self.register_x);
    }

    fn cpy(&mut self, op: &Opcode)
        requires
            old(self)@.wf(),
            op.mnemonic == Mnemonic::Cpy,
            op.mode != AddressingMode::NoneAddressing,
        ensures
            final(self)@ == execute_spec(old(self)@, *op),
            final(self)@.wf(),
    {
        reveal(execute_spec);
        self.compare(&op.mode, self.register_y);
    }

    fn bit(&mut self, op: &Opcode)
        requires
            old(self)@.wf(),
            op.mnemonic == Mnemonic::Bit,
            op.mode != AddressingMode::NoneAddressing,
        ensures
            final(self)@ == execute_spec(old(self)@, *op),
            final(self)@.wf(),
    {
        reveal(execute_spec);
        let (_addr, data) = self.read_operand(&op.mode);
        let zero = self.register_a & data == 0;
        self.status.set(ZERO, zero);
        self.status.set(NEGATIVE, data >= 0x80);
        self.status.set(OVERFLOW, data / 0x40 % 2 == 1);
    }

    fn pha(&mut self, op: &Opcode)
        requires
            old(self)@.wf(),
            op.mnemonic == Mnemonic::Pha,
        ensures
            final(self)@ == execute_spec(old(self)@, *op),
            final(self)@.wf(),
    {
        reveal(execute_spec);
        self.stack_push(self.register_a);
    }

    fn php(&mut self, op: &Opcode)
        requires
            old(self)@.wf(),
            op.mnemonic == Mnemonic::Php,
        ensures
            final(self)@ == execute_spec(old(self)@, *op),
            final(self)@.wf(),
    {
        reveal(execute_spec);
        let mut flags = self.status;
        flags.insert(BREAK);
        flags.insert(BREAK2);
        self.stack_push(flags.bits());
    }

    fn pla(&mut self, op: &Opcode)
        requires
            old(self)@.wf(),
            op.mnemonic == Mnemonic::Pla,
        ensures
            final(self)@ == execute_spec(old(self)@, *op),
            final(self)@.wf(),
    {
        reveal(execute_spec);
        let data = self.stack_pop();
        self.set_register_a(data);
    }

    fn plp(&mut self, op: &Opcode)
        requires
            old(self)@.wf(),
            op.mnemonic == Mnemonic::Plp,
        ensures
            final(self)@ == execute_spec(old(self)@, *op),
            final(self)@.wf(),
    {
        reveal(execute_spec);
        let data = self.stack_pop();
        self.status = CpuFlags::from_bits_truncate(data);
        self.status.remove(BREAK);
        self.status.insert(BREAK2);
    }

    fn jsr(&mut self, op: &Opcode)
        requires
            old(self)@.wf(),
            op.mnemonic == Mnemonic::Jsr,
        ensures
            final(self)@ == execute_spec(old(self)@, *op),
            final(self)@.wf(),
    {
        reveal(execute_spec);
        self.stack_push_u16(self.program_counter.wrapping_add(1));
        let target = self.mem_read_u16(self.program_counter);
        self.program_counter = target;
    }

    fn rts(&mut self, op: &Opcode)
        requires
            old(self)@.wf(),
            op.mnemonic == Mnemonic::Rts,
        ensures
            final(self)@ == execute_spec(old(self)@, *op),
            final(self)@.wf(),
    {
        reveal(execute_spec);
        let ret = self.stack_pop_u16();
        self.program_counter = ret.wrapping_add(1);
    }

    fn rti(&mut self, op: &Opcode)
        requires
            old(self)@.wf(),
            op.mnemonic == Mnemonic::Rti,
        ensures
            final(self)@ == execute_spec(old(self)@, *op),
            final(self)@.wf(),
    {
        reveal(execute_spec);
        let data = self.stack_pop();
        self.status = CpuFlags::from_bits_truncate(data);
        self.program_counter = self.stack_pop_u16();
        self.status.remove(BREAK);
        self.status.insert(BREAK2);
    }

    fn needs_operand_mode(m: Mnemonic) -> (r: bool)
        ensures
            r == needs_operand(m),
    {
        match m {
            Mnemonic::Adc | Mnemonic::And | Mnemonic::Bit | Mnemonic::Cmp | Mnemonic::Cpx
            | Mnemonic::Cpy | Mnemonic::Dcp | Mnemonic::Dec | Mnemonic::Eor | Mnemonic::Inc
            | Mnemonic::Isb | Mnemonic::Lax | Mnemonic::Lda | Mnemonic::Ldx | Mnemonic::Ldy
            | Mnemonic::Ora | Mnemonic::Rla | Mnemonic::Rra | Mnemonic::Sbc | Mnemonic::Slo
            | Mnemonic::Sre | Mnemonic::Sta | Mnemonic::Stx | Mnemonic::Sty | Mnemonic::Aax => true,
            _ => false,
        }
    }

    /// Runs the handler of one instruction other than BRK.
    fn execute(&mut self, op: &Opcode)
        requires
            old(self)@.wf(),
            op.mnemonic != Mnemonic::Brk,
            needs_operand(op.mnemonic) ==> op.mode != AddressingMode::NoneAddressing,
        ensures
            final(self)@ == execute_spec(old(self)@, *op),
            final(self)@.wf(),
    {
        reveal(execute_spec);
        match op.mnemonic {
            Mnemonic::Adc => self.adc(op),
            Mnemonic::And => self.and(op),
            Mnemonic::Asl => self.asl(op),
            Mnemonic::Bcc => self.branch(!self.status.contains(CARRY)),
            Mnemonic::Bcs => self.branch(self.status.contains(CARRY)),
            Mnemonic::Beq => self.branch(self.status.contains(ZERO)),
            Mnemonic::Bmi => self.branch(self.status.contains(NEGATIVE)),
            Mnemonic::Bne => self.branch(!self.status.contains(ZERO)),
            Mnemonic::Bpl => self.branch(!self.status.contains(NEGATIVE)),
            Mnemonic::Bvc => self.branch(!self.status.contains(OVERFLOW)),
            Mnemonic::Bvs => self.branch(self.status.contains(OVERFLOW)),
            Mnemonic::Clc => self.status.remove(CARRY),
            Mnemonic::Cld => self.status.remove(DECIMAL_MODE),
            Mnemonic::Cli => self.status.remove(INTERRUPT_DISABLE),
            Mnemonic::Clv => self.status.remove(OVERFLOW),
            Mnemonic::Cmp => self.cmp(op),
            Mnemonic::Cpx => self.cpx(op),
            Mnemonic::Cpy => self.cpy(op),
            Mnemonic::Dex => self.dex(op),
            Mnemonic::Dey => self.dey(op),
            Mnemonic::Inx => self.inx(op),
            Mnemonic::Iny => self.iny(op),
            Mnemonic::Jsr => self.jsr(op),
            Mnemonic::Lda => self.lda(op),
            Mnemonic::Ldx => self.ldx(op),
            Mnemonic::Ldy => self.ldy(op),
            Mnemonic::Pha => self.pha(op),
            Mnemonic::Php => self.php(op),
            Mnemonic::Pla => self.pla(op),
            Mnemonic::Plp => self.plp(op),
            Mnemonic::Rol => self.rol(op),
            Mnemonic::Ror => self.ror(op),
            Mnemonic::Rts => self.rts(op),
            Mnemonic::Rti => self.rti(op),
            Mnemonic::Sbc => self.sbc(op),
            Mnemonic::Sec => self.status.insert(CARRY),
            Mnemonic::Sed => self.status.insert(DECIMAL_MODE),
            Mnemonic::Sei => self.status.insert(INTERRUPT_DISABLE),
            Mnemonic::Sta => self.sta(op),
            Mnemonic::Stx => self.stx(op),
            Mnemonic::Sty => self.sty(op),
            Mnemonic::Tax => self.tax(op),
            Mnemonic::Tay => self.tay(op),
            Mnemonic::Txa => self.txa(op),
            Mnemonic::Tya => self.tya(op),
            Mnemonic::Tsx => self.tsx(op),
            Mnemonic::Txs => self.txs(op),
            Mnemonic::Lsr => self.lsr(op),
            Mnemonic::Inc => self.inc(op),
            Mnemonic::Dec => self.dec(op),
            Mnemonic::Bit => self.bit(op),
            Mnemonic::Eor => self.eor(op),
            Mnemonic::Ora => self.ora(op),
            Mnemonic::Jmp => self.jmp(&op.mode),
            Mnemonic::Lax => self.lax(op),
            Mnemonic::Aax => self.aax(op),
            Mnemonic::Dcp => self.dcp(op),
            Mnemonic::Isb => self.isb(op),
            Mnemonic::Slo => self.slo(op),
            Mnemonic::Rla => self.rla(op),
            Mnemonic::Sre => self.sre(op),
            Mnemonic::Rra => self.rra(op),
            Mnemonic::Nop | Mnemonic::Dop | Mnemonic::Top | Mnemonic::Brk => {},
        }
    }

    /// Fetches, decodes and executes one instruction; `Ok(true)` when it was BRK.
    pub fn execute_next(&mut self) -> (r: Result<bool, CpuError>)
        requires
            old(self)@.wf(),
        ensures
            (final(self)@, r) == execute_next_spec(old(self)@),
            final(self)@.wf(),
    {
        reveal(execute_next_spec);
        let code = self.mem_read(self.program_counter);
        self.program_counter = self.program_counter.wrapping_add(1);
        let program_counter_state = self.program_counter;
        match lookup(code) {
            None => Err(CpuError::UnknownOpcode(code)),
            Some(op) => {
                if Cpu::needs_operand_mode(op.mnemonic) && op.mode == AddressingMode::NoneAddressing {
                    return Err(CpuError::UnsupportedMode(code));
                }
                self.bus.tick(op.cycles);
                if op.mnemonic == Mnemonic::Brk {
                    return Ok(true);
                }
                self.execute(&op);
                if program_counter_state == self.program_counter {
                    self.program_counter = self.program_counter.wrapping_add(op.len as u16).wrapping_sub(1);
                }
                Ok(false)
            },
        }
    }

    fn interrupt_nmi(&mut self)
        requires
            old(self)@.wf(),
        ensures
            final(self)@ == interrupt_nmi_spec(old(self)@),
            final(self)@.wf(),
    {
        self.stack_push_u16(self.program_counter);
        let mut flag = self.status;
        flag.set(BREAK, false);
        flag.set(BREAK2, true);
        self.stack_push(flag.bits());
        self.status.insert(INTERRUPT_DISABLE);
        self.bus.tick(2);
        self.program_counter = self.mem_read_u16(NMI_VECTOR);
    }

    /// Services a pending NMI, if the bus reports one.
    pub fn service_nmi(&mut self)
        requires
            old(self)@.wf(),
        ensures
            final(self)@ == service_nmi_spec(old(self)@),
            final(self)@.wf(),
    {
        if self.bus.poll_nmi_status() {
            self.interrupt_nmi();
        }
    }

    /// One iteration of the run loop: the NMI check, then one instruction.
    pub fn step(&mut self) -> (r: Result<bool, CpuError>)
        requires
            old(self)@.wf(),
        ensures
            (final(self)@, r) == step_spec(old(self)@),
            final(self)@.wf(),
    {
        self.service_nmi();
        self.execute_next()
    }

    /// Reinitialises the registers and loads the program counter from the reset vector.
    pub fn reset(&mut self)
        requires
            old(self)@.wf(),
        ensures
            final(self)@ == reset_spec(old(self)@),
            final(self)@.wf(),
    {
        self.register_a = 0;
        self.register_x = 0;
        self.register_y = 0;
        self.stack_pointer = STACK_RESET;
        self.status = CpuFlags::from_bits_truncate(STATUS_RESET);
        self.program_counter = self.mem_read_u16(RESET_VECTOR);
    }

    /// Copies `program` into program memory from `PROGRAM_START` on and points the
    /// reset vector there.
    pub fn load(&mut self, program: Vec<u8>)
        requires
            old(self)@.wf(),
            program@.len() <= 0x10000 - PROGRAM_START,
        ensures
            final(self)@ == load_spec(old(self)@, program@),
            final(self)@.wf(),
    {
        let mut i: usize = 0;
        while i < program.len()
            invariant
                i <= program@.len() <= 0x10000 - PROGRAM_START,
                self@ == write_program_spec(old(self)@, program@, i as nat),
                self@.wf(),
            decreases program.len() - i,
        {
            self.mem_write(PROGRAM_START + i as u16, program[i]);
            i = i + 1;
        }
        self.mem_write_u16(RESET_VECTOR, PROGRAM_START);
    }

    /// Loads `program`, resets, and runs until BRK.
    pub fn load_and_run(&mut self, program: Vec<u8>) -> (r: Result<bool, CpuError>)
        requires
            old(self)@.wf(),
            program@.len() <= 0x10000 - PROGRAM_START,
        ensures
            (final(self)@, r) == run_spec(reset_spec(load_spec(old(self)@, program@)), run_fuel()),
            final(self)@.wf(),
    {
        self.load(program);
        self.reset();
        self.run()
    }

    /// Runs until BRK (`Ok(true)`) or an error; gives up with `Ok(false)` after
    /// 2^64 - 1 instructions.
    pub fn run(&mut self) -> (r: Result<bool, CpuError>)
        requires
            old(self)@.wf(),
        ensures
            (final(self)@, r) == run_spec(old(self)@, run_fuel()),
            final(self)@.wf(),
    {
        self.run_with_callback(|_cpu: &Cpu| {})
    }

    /// As `run`, calling `callback` with the machine before each instruction is fetched.
    pub fn run_with_callback<F: Fn(&Cpu)>(&mut self, callback: F) -> (r: Result<bool, CpuError>)
        requires
            old(self)@.wf(),
            forall|c: &Cpu| #[trigger] callback.requires((c,)),
        ensures
            (final(self)@, r) == run_spec(old(self)@, run_fuel()),
            final(self)@.wf(),
    {
        let mut fuel: u64 = 0xffff_ffff_ffff_ffff;
        while fuel > 0
            invariant
                self@.wf(),
                forall|c: &Cpu| #[trigger] callback.requires((c,)),
                run_spec(old(self)@, run_fuel()) == run_spec(self@, fuel as nat),
            decreases fuel,
        {
            self.service_nmi();
            callback(&*self);
            let r = self.execute_next();
            match r {
                Ok(false) => {},
                _ => {
                    return r;
                },
            }
            fuel = fuel - 1;
        }
        Ok(false)
    }
}

} // verus!
