use vstd::prelude::*;

use crate::gb_alu::{
    relative_target, add16, add8_with_carry, and8, daa, decrement8, increment8, offset_sp, or8, rl, rlc, rr, rrc,
    sla, sra, srl, sub8_with_carry, swap, xor8, AluResult, Flags,
};
use crate::gb_hw_bus::HardwareBus;
use crate::gb_mem::{
    decrement_16, increment_16, pair_value, MemoryController, RamAddress, IE_ADDR, MEMORY_SIZE,
};
use crate::gb_opcodes::{
    decode_spec, AluOp, Cond, DecodeError, Indirect, Operand8, Operation, Reg16, SecondOpAction,
    SecondOpRegister, SecondOpType, StackPair,
};
use crate::machine::{
    apply_alu, apply_to_a, bus_tick, cb_step, cond_holds, fetch_byte, fetch_word,
    high_byte, hl, indirect_address, low_byte, power_on_registers, pop_word, push_word,
    read_byte, read_operand, reg16, reg8, set_reg16, set_reg8, set_stack_pair, shift_spec,
    stack_pair, step, with_flags, with_regs, word, wrap16, write_byte, write_operand,
    Machine, Registers,
};
use crate::tracelog::{records, TraceLog};

verus! {

/// The CPU core: its registers, the memory it owns, and the timing hook it reports to.
#[derive(Debug)]
pub struct DmgCpu {
    a: u8,
    b: u8,
    c: u8,
    d: u8,
    e: u8,
    h: u8,
    l: u8,
    flags: Flags,
    sp: RamAddress,
    pc: RamAddress,
    ime: bool,
    halt: bool,
    stop: bool,
    clock: u64,
    mc: MemoryController,
    bus: HardwareBus,
}

impl View for DmgCpu {
    type V = Machine;

    closed spec fn view(&self) -> Machine {
        Machine {
            regs: Registers {
                a: self.a,
                b: self.b,
                c: self.c,
                d: self.d,
                e: self.e,
                h: self.h,
                l: self.l,
                flags: self.flags,
                sp: self.sp@,
                pc: self.pc@,
                ime: self.ime,
                halt: self.halt,
                stop: self.stop,
            },
            mem: self.mc@,
            clock: self.clock,
            synced: self.bus@,
        }
    }
}

/// The bytes of a register pair after it was stepped by `delta` (+1 or -1) with wrapping.
proof fn lemma_pair_step(high: u8, low: u8, new_high: u8, new_low: u8, delta: int)
    requires
        delta == 1 || delta == -1,
        pair_value(new_high, new_low) == (pair_value(high, low) + delta + 0x10000) % 0x10000,
    ensures
        new_high == high_byte(wrap16(word(high, low) + delta)),
        new_low == low_byte(wrap16(word(high, low) + delta)),
{
    let v = wrap16(word(high, low) + delta);
    assert(word(high, low) == pair_value(high, low));
    assert(v == pair_value(new_high, new_low));
    assert(new_high == v / 256 && new_low == v % 256);
}

/// The state at an instruction boundary, where the cycle count is reported once more.
pub open spec fn at_boundary(m: Machine) -> Machine {
    Machine { synced: m.clock, ..m }
}

/// One tick from `m`, as the state it leads to and its outcome. Once stopped nothing changes.
/// Otherwise the byte at PC is read through the bus; a byte without an operation is a decode
/// error that leaves registers, PC and memory as they were, with only that read counted on the
/// clock; any other byte is consumed and its operation runs.
pub open spec fn tick_result(m: Machine) -> (Machine, Result<(), DecodeError>) {
    if m.regs.stop {
        (m, Ok(()))
    } else {
        let byte = m.mem[m.regs.pc as int];
        match decode_spec(byte) {
            None => (bus_tick(m), Err(DecodeError { opcode: byte, pc: m.regs.pc })),
            Some(op) => (at_boundary(step(fetch_byte(m).0, op)), Ok(())),
        }
    }
}

/// `new_log` is `old_log` with one record added at its end.
pub open spec fn one_record_added(old_log: Seq<TraceLog>, new_log: Seq<TraceLog>) -> bool {
    &&& new_log.len() == old_log.len() + 1
    &&& forall|i: int| 0 <= i < old_log.len() ==> new_log[i] == old_log[i]
}

/// What a trace record of a tick from `m` holds: opcode, operation, address and registers;
/// none when the tick runs no operation.
pub open spec fn tick_record(m: Machine) -> Option<(u8, Operation, u16, Registers)> {
    let byte = m.mem[m.regs.pc as int];
    if !m.regs.stop && decode_spec(byte) is Some {
        Some((byte, decode_spec(byte)->0, m.regs.pc, m.regs))
    } else {
        None
    }
}

/// What a tick from `m` does to the trace: the record `tick_record` gives, if any, is added.
pub open spec fn tick_trace(m: Machine, old_log: Seq<TraceLog>, new_log: Seq<TraceLog>) -> bool {
    match tick_record(m) {
        Some(rec) => {
            &&& one_record_added(old_log, new_log)
            &&& records(new_log.last(), rec.0, rec.1, rec.2, rec.3)
        },
        None => new_log == old_log,
    }
}

/// Loads and stack transfers.
spec fn is_load_op(op: Operation) -> bool {
    match op {
        Operation::Ld(..) => true,
        Operation::LdImm(..) => true,
        Operation::LdAFrom(..) => true,
        Operation::LdAInto(..) => true,
        Operation::Ld16Imm(..) => true,
        Operation::LdSpHl => true,
        Operation::Push(..) => true,
        Operation::Pop(..) => true,
        Operation::LdHlSpOffset => true,
        Operation::StoreSp => true,
        _ => false,
    }
}

/// Arithmetic, logic and rotate operations on registers and memory.
spec fn is_arith_op(op: Operation) -> bool {
    match op {
        Operation::Alu(..) => true,
        Operation::AluImm(..) => true,
        Operation::Inc(..) => true,
        Operation::Dec(..) => true,
        Operation::AddHl(..) => true,
        Operation::AddSpOffset => true,
        Operation::Inc16(..) => true,
        Operation::Dec16(..) => true,
        Operation::Rlca => true,
        Operation::Rla => true,
        Operation::Rrca => true,
        Operation::Rra => true,
        Operation::Daa => true,
        Operation::Cpl => true,
        _ => false,
    }
}

/// Control flow and the remaining operations.
spec fn is_control_op(op: Operation) -> bool {
    !is_load_op(op) && !is_arith_op(op)
}

/// A relative jump as PC arithmetic: forward by the displacement, or back by its complement.
proof fn lemma_relative_target(pc: u16, e: u8)
    ensures
        e < 128 ==> relative_target(pc, e) == (pc + e) % 0x10000,
        e >= 128 ==> relative_target(pc, e) == (pc - (256 - e) + 0x10000) % 0x10000,
{
}

/// A 16-bit value made of two bytes splits back into them.
proof fn lemma_word_split(high: u8, low: u8)
    ensures
        high_byte(word(high, low)) == high,
        low_byte(word(high, low)) == low,
{
}

impl DmgCpu {
    pub open spec fn wf(&self) -> bool {
        self@.mem.len() == MEMORY_SIZE
    }

    /// A core at power-on over the given memory and timing hook.
    pub fn new(bus: HardwareBus, mc: MemoryController) -> (r: Self)
        requires
            mc.wf(),
        ensures
            r.wf(),
            r@.regs == power_on_registers(),
            r@.mem == mc@,
            r@.clock == 0,
            r@.synced == bus@,
    {
        DmgCpu {
            a: 0u8,
            b: 0u8,
            c: 0u8,
            d: 0u8,
            e: 0u8,
            h: 0u8,
            l: 0u8,
            flags: Flags::cleared(),
            sp: RamAddress::new(0xFFFEu16),
            pc: RamAddress::new(0x0100u16),
            ime: true,
            halt: false,
            stop: false,
            clock: 0u64,
            mc,
            bus,
        }
    }

    pub fn get_memory_controller(&self) -> (r: &MemoryController)
        ensures
            r@ == self@.mem,
    {
        &self.mc
    }

    pub fn hardware_bus(&self) -> (r: &HardwareBus)
        ensures
            r@ == self@.synced,
    {
        &self.bus
    }

    /// A copy of the register file.
    pub fn registers(&self) -> (r: Registers)
        ensures
            r == self@.regs,
    {
        Registers {
            a: self.a,
            b: self.b,
            c: self.c,
            d: self.d,
            e: self.e,
            h: self.h,
            l: self.l,
            flags: self.flags,
            sp: self.sp.get(),
            pc: self.pc.get(),
            ime: self.ime,
            halt: self.halt,
            stop: self.stop,
        }
    }

    /// The cycle counter.
    pub fn clock(&self) -> (r: u64)
        ensures
            r == self@.clock,
    {
        self.clock
    }

    pub fn is_stopped(&self) -> (r: bool)
        ensures
            r == self@.regs.stop,
    {
        self.stop
    }

    /// Advances the cycle counter for one bus access and reports it to the timing hook.
    fn sync_hardware_bus(&mut self)
        ensures
            final(self)@ == bus_tick(old(self)@),
    {
        self.clock = self.clock.wrapping_add(4);
        self.bus.sync(self.clock);
    }

    fn read_mem(&mut self, addr: u16) -> (r: u8)
        requires
            old(self).wf(),
        ensures
            final(self).wf(),
            (final(self)@, r) == read_byte(old(self)@, addr),
    {
        let v = self.mc.read(RamAddress::new(addr));
        self.sync_hardware_bus();
        v
    }

    /// Writes through the memory map; a write it refuses is dropped and execution goes on.
    fn write_mem(&mut self, addr: u16, v: u8)
        requires
            old(self).wf(),
        ensures
            final(self).wf(),
            final(self)@ == write_byte(old(self)@, addr, v),
    {
        match self.mc.write(RamAddress::new(addr), v) {
            Ok(()) => {},
            Err(_) => {},
        }
        self.sync_hardware_bus();
    }

    fn read_pc_mem_and_increment(&mut self) -> (r: u8)
        requires
            old(self).wf(),
        ensures
            final(self).wf(),
            (final(self)@, r) == fetch_byte(old(self)@),
    {
        let at = self.pc.post_inc(1);
        let v = self.mc.read(at);
        self.sync_hardware_bus();
        v
    }

    /// Reads a 16-bit operand at PC, low byte first.
    fn read_pc_as_address(&mut self) -> (r: u16)
        requires
            old(self).wf(),
        ensures
            final(self).wf(),
            (final(self)@, r) == fetch_word(old(self)@),
    {
        let low = self.read_pc_mem_and_increment();
        let high = self.read_pc_mem_and_increment();
        high as u16 * 256 + low as u16
    }

    fn make_bc_address(&self) -> (r: u16)
        ensures
            r == word(self@.regs.b, self@.regs.c),
    {
        self.b as u16 * 256 + self.c as u16
    }

    fn make_de_address(&self) -> (r: u16)
        ensures
            r == word(self@.regs.d, self@.regs.e),
    {
        self.d as u16 * 256 + self.e as u16
    }

    fn make_hl_address(&self) -> (r: u16)
        ensures
            r == hl(self@.regs),
    {
        self.h as u16 * 256 + self.l as u16
    }

    fn make_ffc_address(&self) -> (r: u16)
        ensures
            r == (0xFF00 + self@.regs.c) as u16,
    {
        0xFF00u16 + self.c as u16
    }

    fn make_ffn_address(&mut self) -> (r: u16)
        requires
            old(self).wf(),
        ensures
            final(self).wf(),
            (final(self)@, r) == indirect_address(old(self)@, Indirect::HighImm),
    {
        let n = self.read_pc_mem_and_increment();
        0xFF00u16 + n as u16
    }

    /// The register that `o` names.
    fn reg(&self, o: Operand8) -> (r: u8)
        requires
            o != Operand8::AtHl,
        ensures
            r == reg8(self@.regs, o),
    {
        match o {
            Operand8::A => self.a,
            Operand8::B => self.b,
            Operand8::C => self.c,
            Operand8::D => self.d,
            Operand8::E => self.e,
            Operand8::H => self.h,
            Operand8::L => self.l,
            Operand8::AtHl => 0,
        }
    }

    fn set_reg(&mut self, o: Operand8, v: u8)
        requires
            o != Operand8::AtHl,
        ensures
            final(self)@ == with_regs(old(self)@, set_reg8(old(self)@.regs, o, v)),
    {
        match o {
            Operand8::A => self.a = v,
            Operand8::B => self.b = v,
            Operand8::C => self.c = v,
            Operand8::D => self.d = v,
            Operand8::E => self.e = v,
            Operand8::H => self.h = v,
            Operand8::L => self.l = v,
            Operand8::AtHl => {},
        }
    }

    /// Reads an operand: a register, or the byte at HL through the bus.
    fn read_operand(&mut self, o: Operand8) -> (r: u8)
        requires
            old(self).wf(),
        ensures
            final(self).wf(),
            (final(self)@, r) == read_operand(old(self)@, o),
    {
        if o == Operand8::AtHl {
            let addr = self.make_hl_address();
            self.read_mem(addr)
        } else {
            self.reg(o)
        }
    }

    /// Writes an operand: a register, or the byte at HL through the bus.
    fn write_operand(&mut self, o: Operand8, v: u8)
        requires
            old(self).wf(),
        ensures
            final(self).wf(),
            final(self)@ == write_operand(old(self)@, o, v),
    {
        if o == Operand8::AtHl {
            let addr = self.make_hl_address();
            self.write_mem(addr, v);
        } else {
            self.set_reg(o, v);
        }
    }

    fn reg16(&self, p: Reg16) -> (r: u16)
        ensures
            r == reg16(self@.regs, p),
    {
        match p {
            Reg16::Bc => self.make_bc_address(),
            Reg16::De => self.make_de_address(),
            Reg16::Hl => self.make_hl_address(),
            Reg16::Sp => self.sp.get(),
        }
    }

    fn set_reg16(&mut self, p: Reg16, v: u16)
        ensures
            final(self)@ == with_regs(old(self)@, set_reg16(old(self)@.regs, p, v)),
    {
        let high = (v / 256) as u8;
        let low = (v % 256) as u8;
        match p {
            Reg16::Bc => {
                self.b = high;
                self.c = low;
            },
            Reg16::De => {
                self.d = high;
                self.e = low;
            },
            Reg16::Hl => {
                self.h = high;
                self.l = low;
            },
            Reg16::Sp => self.sp.set(v),
        }
    }

    fn increment_pair(&mut self, p: Reg16)
        ensures
            final(self)@ == with_regs(
                old(self)@,
                set_reg16(old(self)@.regs, p, wrap16(reg16(old(self)@.regs, p) + 1)),
            ),
    {
        match p {
            Reg16::Bc => increment_16(&mut self.b, &mut self.c),
            Reg16::De => increment_16(&mut self.d, &mut self.e),
            Reg16::Hl => increment_16(&mut self.h, &mut self.l),
            Reg16::Sp => {
                self.sp.inc(1);
            },
        }
        proof {
            let o = old(self)@.regs;
            match p {
                Reg16::Bc => lemma_pair_step(o.b, o.c, self.b, self.c, 1),
                Reg16::De => lemma_pair_step(o.d, o.e, self.d, self.e, 1),
                Reg16::Hl => lemma_pair_step(o.h, o.l, self.h, self.l, 1),
                Reg16::Sp => {},
            }
        }
    }

    fn decrement_pair(&mut self, p: Reg16)
        ensures
            final(self)@ == with_regs(
                old(self)@,
                set_reg16(old(self)@.regs, p, wrap16(reg16(old(self)@.regs, p) - 1)),
            ),
    {
        match p {
            Reg16::Bc => decrement_16(&mut self.b, &mut self.c),
            Reg16::De => decrement_16(&mut self.d, &mut self.e),
            Reg16::Hl => decrement_16(&mut self.h, &mut self.l),
            Reg16::Sp => {
                self.sp.dec(1);
            },
        }
        proof {
            let o = old(self)@.regs;
            match p {
                Reg16::Bc => lemma_pair_step(o.b, o.c, self.b, self.c, -1),
                Reg16::De => lemma_pair_step(o.d, o.e, self.d, self.e, -1),
                Reg16::Hl => lemma_pair_step(o.h, o.l, self.h, self.l, -1),
                Reg16::Sp => {},
            }
        }
    }

    fn stack_pair(&self, p: StackPair) -> (r: u16)
        ensures
            r == stack_pair(self@.regs, p),
    {
        match p {
            StackPair::Bc => self.make_bc_address(),
            StackPair::De => self.make_de_address(),
            StackPair::Hl => self.make_hl_address(),
            StackPair::Af => self.a as u16 * 256 + self.flags.to_byte() as u16,
        }
    }

    fn set_stack_pair(&mut self, p: StackPair, v: u16)
        ensures
            final(self)@ == with_regs(old(self)@, set_stack_pair(old(self)@.regs, p, v)),
    {
        match p {
            StackPair::Bc => self.set_reg16(Reg16::Bc, v),
            StackPair::De => self.set_reg16(Reg16::De, v),
            StackPair::Hl => self.set_reg16(Reg16::Hl, v),
            StackPair::Af => {
                self.a = (v / 256) as u8;
                self.flags = Flags::from_byte((v % 256) as u8);
            },
        }
    }

    /// Pushes two bytes: SP is decremented before each write, high byte first.
    fn push_address_parts(&mut self, high: u8, low: u8)
        requires
            old(self).wf(),
        ensures
            final(self).wf(),
            final(self)@ == push_word(old(self)@, word(high, low)),
    {
        let at_high = self.sp.dec(1);
        self.write_mem(at_high.get(), high);
        let at_low = self.sp.dec(1);
        self.write_mem(at_low.get(), low);
        proof {
            lemma_word_split(high, low);
        }
    }

    /// Pushes `v` on the stack, high byte first.
    pub fn push_address_u16(&mut self, v: u16)
        requires
            old(self).wf(),
        ensures
            final(self).wf(),
            final(self)@ == push_word(old(self)@, v),
    {
        let high = (v / 256) as u8;
        let low = (v % 256) as u8;
        self.push_address_parts(high, low);
    }

    /// Pops two bytes: SP is incremented after each read, low byte first. Returns them as
    /// (high, low).
    fn pop_address_parts(&mut self) -> (r: (u8, u8))
        requires
            old(self).wf(),
        ensures
            final(self).wf(),
            (final(self)@, word(r.0, r.1)) == pop_word(old(self)@),
    {
        let at_low = self.sp.post_inc(1);
        let low = self.read_mem(at_low.get());
        let at_high = self.sp.post_inc(1);
        let high = self.read_mem(at_high.get());
        (high, low)
    }

    /// Pops a 16-bit value off the stack, low byte first.
    pub fn pop_address_u16(&mut self) -> (r: u16)
        requires
            old(self).wf(),
        ensures
            final(self).wf(),
            (final(self)@, r) == pop_word(old(self)@),
    {
        let (high, low) = self.pop_address_parts();
        high as u16 * 256 + low as u16
    }

    fn get_carry_value(&self) -> (r: u8)
        ensures
            r == (if self@.regs.flags.carry { 1u8 } else { 0u8 }),
    {
        if self.flags.carry {
            1
        } else {
            0
        }
    }

    fn condition_holds(&self, c: Cond) -> (r: bool)
        ensures
            r == cond_holds(self@.regs.flags, c),
    {
        match c {
            Cond::Always => true,
            Cond::NotZero => !self.flags.zero,
            Cond::Zero => self.flags.zero,
            Cond::NotCarry => !self.flags.carry,
            Cond::Carry => self.flags.carry,
        }
    }

    /// A with the operand `v`; the result goes to A (but for CP) and the flags to F.
    fn do_alu(&mut self, op: AluOp, v: u8)
        ensures
            final(self)@ == apply_alu(old(self)@, op, v),
    {
        let a = self.a;
        let carry = self.flags.carry;
        let r = match op {
            AluOp::Add => add8_with_carry(a, v, false),
            AluOp::Adc => add8_with_carry(a, v, carry),
            AluOp::Sub => sub8_with_carry(a, v, false),
            AluOp::Sbc => sub8_with_carry(a, v, carry),
            AluOp::And => and8(a, v),
            AluOp::Xor => xor8(a, v),
            AluOp::Or => or8(a, v),
            AluOp::Cp => sub8_with_carry(a, v, false),
        };
        if op != AluOp::Cp {
            self.a = r.value;
        }
        self.flags = r.flags;
    }

    fn set_a_and_flags(&mut self, r: AluResult)
        ensures
            final(self)@ == apply_to_a(old(self)@, r),
    {
        self.a = r.value;
        self.flags = r.flags;
    }

    /// Rotates or shifts `value`, leaving the flags in F; returns the result.
    fn hand_rotate_shift_op(&mut self, value: u8, op: SecondOpAction) -> (r: u8)
        ensures
            r == shift_spec(op, value, old(self)@.regs.flags.carry).value,
            final(self)@ == with_flags(
                old(self)@,
                shift_spec(op, value, old(self)@.regs.flags.carry).flags,
            ),
    {
        let carry = self.flags.carry;
        let res = match op {
            SecondOpAction::RLC => rlc(value),
            SecondOpAction::RRC => rrc(value),
            SecondOpAction::RL => rl(value, carry),
            SecondOpAction::RR => rr(value, carry),
            SecondOpAction::SLA => sla(value),
            SecondOpAction::SRA => sra(value),
            SecondOpAction::SWAP => swap(value),
            SecondOpAction::SRL => srl(value),
        };
        self.flags = res.flags;
        res.value
    }

    fn increment(&mut self, o: Operand8)
        requires
            old(self).wf(),
        ensures
            final(self).wf(),
            final(self)@ == step(old(self)@, Operation::Inc(o)),
    {
        let v = self.read_operand(o);
        let res = increment8(v, self.flags.carry);
        self.flags = res.flags;
        self.write_operand(o, res.value);
    }

    fn decrement(&mut self, o: Operand8)
        requires
            old(self).wf(),
        ensures
            final(self).wf(),
            final(self)@ == step(old(self)@, Operation::Dec(o)),
    {
        let v = self.read_operand(o);
        let res = decrement8(v, self.flags.carry);
        self.flags = res.flags;
        self.write_operand(o, res.value);
    }

    fn do_daa(&mut self)
        ensures
            final(self)@ == step(old(self)@, Operation::Daa),
    {
        let res = daa(self.a, self.flags);
        self.set_a_and_flags(res);
    }

    fn do_jump_conditional(&mut self, c: Cond)
        requires
            old(self).wf(),
        ensures
            final(self).wf(),
            final(self)@ == step(old(self)@, Operation::Jp(c)),
    {
        let dest = self.read_pc_as_address();
        if self.condition_holds(c) {
            self.pc.set(dest);
        }
    }

    fn do_jump_relative_conditional(&mut self, c: Cond)
        requires
            old(self).wf(),
        ensures
            final(self).wf(),
            final(self)@ == step(old(self)@, Operation::Jr(c)),
    {
        let offset = self.read_pc_mem_and_increment();
        proof {
            lemma_relative_target(self.pc@, offset);
        }
        if self.condition_holds(c) {
            if offset < 128 {
                self.pc.inc(offset as u16);
            } else {
                self.pc.dec(256 - offset as u16);
            }
        }
    }

    fn do_call_conditional(&mut self, c: Cond)
        requires
            old(self).wf(),
        ensures
            final(self).wf(),
            final(self)@ == step(old(self)@, Operation::Call(c)),
    {
        let dest = self.read_pc_as_address();
        if self.condition_holds(c) {
            let ret = self.pc.get();
            self.push_address_u16(ret);
            self.pc.set(dest);
        }
    }

    fn do_return_conditional(&mut self, c: Cond)
        requires
            old(self).wf(),
        ensures
            final(self).wf(),
            final(self)@ == step(old(self)@, Operation::Ret(c)),
    {
        if self.condition_holds(c) {
            let addr = self.pop_address_u16();
            self.pc.set(addr);
        }
    }

    fn do_reti(&mut self)
        requires
            old(self).wf(),
        ensures
            final(self).wf(),
            final(self)@ == step(old(self)@, Operation::Reti),
    {
        let addr = self.pop_address_u16();
        self.pc.set(addr);
        self.ime = true;
    }

    fn do_restart(&mut self, target: u8)
        requires
            old(self).wf(),
        ensures
            final(self).wf(),
            final(self)@ == step(old(self)@, Operation::Rst(target)),
    {
        let ret = self.pc.get();
        self.push_address_u16(ret);
        self.pc.set(target as u16);
    }

    /// Enters the stopped state, which also clears the interrupt-enable register.
    fn do_stop(&mut self)
        requires
            old(self).wf(),
        ensures
            final(self).wf(),
            final(self)@ == step(old(self)@, Operation::Stop),
    {
        self.stop = true;
        self.write_mem(IE_ADDR, 0);
    }

    /// The address of a load between A and memory, consuming its operand bytes and stepping HL
    /// for the post-increment and post-decrement forms.
    fn indirect_address(&mut self, ind: Indirect) -> (r: u16)
        requires
            old(self).wf(),
        ensures
            final(self).wf(),
            (final(self)@, r) == indirect_address(old(self)@, ind),
    {
        match ind {
            Indirect::Bc => self.make_bc_address(),
            Indirect::De => self.make_de_address(),
            Indirect::HighC => self.make_ffc_address(),
            Indirect::HighImm => self.make_ffn_address(),
            Indirect::Absolute => self.read_pc_as_address(),
            Indirect::HlInc => {
                let addr = self.make_hl_address();
                self.increment_pair(Reg16::Hl);
                addr
            },
            Indirect::HlDec => {
                let addr = self.make_hl_address();
                self.decrement_pair(Reg16::Hl);
                addr
            },
        }
    }

    /// Runs the secondary operation `sop`: bits 7-6 pick rotate/shift, bit test, bit reset
    /// or bit set; bits 5-3 the rotate/shift or the bit index; bits 2-0 the target.
    fn decode_and_execute_cb_op(&mut self, sop: u8)
        requires
            old(self).wf(),
        ensures
            final(self).wf(),
            final(self)@ == cb_step(old(self)@, sop),
    {
        let op_type = SecondOpType::from_u8(sop);
        let action = SecondOpAction::from_u8(sop);
        let target = SecondOpRegister::from_u8(sop).operand();
        let bit: u8 = (sop / 8) % 8;
        let bit_mask: u8 = 1u8 << bit;
        let v = self.read_operand(target);
        match op_type {
            SecondOpType::BIT_CHECK => {
                self.flags = Flags {
                    zero: v & bit_mask == 0,
                    subtract: false,
                    half_carry: true,
                    carry: self.flags.carry,
                };
            },
            SecondOpType::SET => self.write_operand(target, v | bit_mask),
            SecondOpType::RESET => self.write_operand(target, v & !bit_mask),
            SecondOpType::ROTATE_SHIFT => {
                let r = self.hand_rotate_shift_op(v, action);
                self.write_operand(target, r);
            },
        }
    }

    /// Runs a load or stack transfer whose opcode byte has already been fetched.
    fn execute_load(&mut self, op: Operation)
        requires
            old(self).wf(),
            is_load_op(op),
        ensures
            final(self).wf(),
            final(self)@ == step(old(self)@, op),
    {
        match op {
            Operation::Ld(dst, src) => {
                let v = self.read_operand(src);
                self.write_operand(dst, v);
            },
            Operation::LdImm(dst) => {
                let v = self.read_pc_mem_and_increment();
                self.write_operand(dst, v);
            },
            Operation::LdAFrom(ind) => {
                let addr = self.indirect_address(ind);
                self.a = self.read_mem(addr);
            },
            Operation::LdAInto(ind) => {
                let addr = self.indirect_address(ind);
                let a = self.a;
                self.write_mem(addr, a);
            },
            Operation::Ld16Imm(p) => {
                let v = self.read_pc_as_address();
                self.set_reg16(p, v);
            },
            Operation::LdSpHl => {
                let v = self.make_hl_address();
                self.sp.set(v);
            },
            Operation::Push(p) => {
                let v = self.stack_pair(p);
                self.push_address_u16(v);
            },
            Operation::Pop(p) => {
                let v = self.pop_address_u16();
                self.set_stack_pair(p, v);
            },
            Operation::LdHlSpOffset => {
                let e = self.read_pc_mem_and_increment();
                let (v, f) = offset_sp(self.sp.get(), e);
                self.flags = f;
                self.set_reg16(Reg16::Hl, v);
            },
            Operation::StoreSp => {
                let addr = self.read_pc_as_address();
                let sp = self.sp.get();
                self.write_mem(addr, (sp % 256) as u8);
                self.write_mem(addr.wrapping_add(1), (sp / 256) as u8);
            },
            _ => {},
        }
    }

    /// Runs an arithmetic, logic or rotate operation whose opcode byte has already been fetched.
    fn execute_arith(&mut self, op: Operation)
        requires
            old(self).wf(),
            is_arith_op(op),
        ensures
            final(self).wf(),
            final(self)@ == step(old(self)@, op),
    {
        match op {
            Operation::Alu(op, src) => {
                let v = self.read_operand(src);
                self.do_alu(op, v);
            },
            Operation::AluImm(op) => {
                let v = self.read_pc_mem_and_increment();
                self.do_alu(op, v);
            },
            Operation::Inc(o) => self.increment(o),
            Operation::Dec(o) => self.decrement(o),
            Operation::AddHl(p) => {
                let v = self.reg16(p);
                let (sum, f) = add16(self.make_hl_address(), v, self.flags.zero);
                self.flags = f;
                self.set_reg16(Reg16::Hl, sum);
            },
            Operation::AddSpOffset => {
                let e = self.read_pc_mem_and_increment();
                let (v, f) = offset_sp(self.sp.get(), e);
                self.flags = f;
                self.sp.set(v);
            },
            Operation::Inc16(p) => self.increment_pair(p),
            Operation::Dec16(p) => self.decrement_pair(p),
            Operation::Rlca => {
                let res = rlc(self.a);
                self.set_a_and_flags(res);
            },
            Operation::Rla => {
                let res = rl(self.a, self.flags.carry);
                self.set_a_and_flags(res);
            },
            Operation::Rrca => {
                let res = rrc(self.a);
                self.set_a_and_flags(res);
            },
            Operation::Rra => {
                let res = rr(self.a, self.flags.carry);
                self.set_a_and_flags(res);
            },
            Operation::Daa => self.do_daa(),
            Operation::Cpl => {
                self.a = 255 - self.a;
                self.flags.subtract = true;
                self.flags.half_carry = true;
            },
            _ => {},
        }
    }

    /// Runs a control-flow or miscellaneous operation whose opcode byte has already been fetched.
    fn execute_control(&mut self, op: Operation)
        requires
            old(self).wf(),
            is_control_op(op),
        ensures
            final(self).wf(),
            final(self)@ == step(old(self)@, op),
    {
        match op {
            Operation::Prefix => {
                let next_op = self.read_pc_mem_and_increment();
                self.decode_and_execute_cb_op(next_op);
            },
            Operation::Jp(c) => self.do_jump_conditional(c),
            Operation::Jr(c) => self.do_jump_relative_conditional(c),
            Operation::JpHl => {
                let v = self.make_hl_address();
                self.pc.set(v);
            },
            Operation::Call(c) => self.do_call_conditional(c),
            Operation::Ret(c) => self.do_return_conditional(c),
            Operation::Reti => self.do_reti(),
            Operation::Rst(t) => self.do_restart(t),
            Operation::Nop => {},
            Operation::Halt => self.halt = true,
            Operation::Stop => self.do_stop(),
            Operation::Ei => self.ime = true,
            Operation::Di => self.ime = false,            _ => {},
        }
    }

    /// Runs `op`, whose opcode byte has already been fetched.
    fn execute(&mut self, op: Operation)
        requires
            old(self).wf(),
        ensures
            final(self).wf(),
            final(self)@ == step(old(self)@, op),
    {
        match op {
            Operation::Ld(..)
            | Operation::LdImm(..)
            | Operation::LdAFrom(..)
            | Operation::LdAInto(..)
            | Operation::Ld16Imm(..)
            | Operation::LdSpHl
            | Operation::Push(..)
            | Operation::Pop(..)
            | Operation::LdHlSpOffset
            | Operation::StoreSp => self.execute_load(op),
            Operation::Alu(..)
            | Operation::AluImm(..)
            | Operation::Inc(..)
            | Operation::Dec(..)
            | Operation::AddHl(..)
            | Operation::AddSpOffset
            | Operation::Inc16(..)
            | Operation::Dec16(..)
            | Operation::Rlca
            | Operation::Rla
            | Operation::Rrca
            | Operation::Rra
            | Operation::Daa
            | Operation::Cpl => self.execute_arith(op),
            _ => self.execute_control(op),
        }
    }

    /// Records and runs `op`, decoded from `op_val` at `pc` and already fetched, then reports
    /// the cycle count at the instruction boundary.
    fn run_operation(&mut self, op_val: u8, op: Operation, pc: u16, log: &mut Vec<TraceLog>)
        requires
            old(self).wf(),
        ensures
            final(self).wf(),
            final(self)@ == at_boundary(step(old(self)@, op)),
            one_record_added(old(log)@, final(log)@),
            records(final(log)@.last(), op_val, op, pc, old(self)@.regs),
    {
        log.push(TraceLog::new(op_val, op, pc, self.registers()));
        self.execute(op);
        self.bus.sync(self.clock);
    }

    /// Runs the opcode byte `op_val`, taken as already fetched from the address before PC. A
    /// byte without an operation is a decode error and changes nothing.
    pub fn do_op(&mut self, op_val: u8, log: &mut Vec<TraceLog>) -> (r: Result<(), DecodeError>)
        requires
            old(self).wf(),
        ensures
            final(self).wf(),
            match decode_spec(op_val) {
                None => {
                    &&& r == Err::<(), DecodeError>(
                        DecodeError { opcode: op_val, pc: wrap16(old(self)@.regs.pc - 1) },
                    )
                    &&& final(self)@ == old(self)@
                    &&& final(log)@ == old(log)@
                },
                Some(op) => {
                    &&& r == Ok::<(), DecodeError>(())
                    &&& final(self)@ == at_boundary(step(old(self)@, op))
                    &&& one_record_added(old(log)@, final(log)@)
                    &&& records(
                        final(log)@.last(),
                        op_val,
                        op,
                        wrap16(old(self)@.regs.pc - 1),
                        old(self)@.regs,
                    )
                },
            },
    {
        let mut at = self.pc;
        at.dec(1);
        let pc = at.get();
        match Operation::from_u8(op_val) {
            None => Err(DecodeError { opcode: op_val, pc }),
            Some(op) => {
                self.run_operation(op_val, op, pc, log);
                Ok(())
            },
        }
    }

    /// One step of the engine. Once stopped it does nothing. Otherwise it reads the byte at PC
    /// through the bus and runs its operation, adding one record to `log`; a byte without an
    /// operation is a decode error that leaves registers, PC, memory and `log` as they were,
    /// the read being counted on the clock. HALT only records the halted state: with no
    /// interrupt to leave it, ticks go on as before.
    pub fn tick(&mut self, log: &mut Vec<TraceLog>) -> (r: Result<(), DecodeError>)
        requires
            old(self).wf(),
        ensures
            final(self).wf(),
            (final(self)@, r) == tick_result(old(self)@),
            tick_trace(old(self)@, old(log)@, final(log)@),
    {
        if self.stop {
            return Ok(());
        }
        let pc = self.pc.get();
        let op_val = self.read_mem(pc);
        match Operation::from_u8(op_val) {
            None => Err(DecodeError { opcode: op_val, pc }),
            Some(op) => {
                self.pc.inc(1);
                self.run_operation(op_val, op, pc, log);
                Ok(())
            },
        }
    }
}

} // verus!
