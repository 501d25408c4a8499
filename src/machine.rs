use vstd::prelude::*;

use crate::gb_alu::{
    add16_spec, add_spec, daa_spec, decrement_spec, flags_byte, flags_of_byte, increment_spec,
    logic_spec, offset_sp_spec, relative_target, rl_spec, rlc_spec, rr_spec, rrc_spec, sla_spec,
    sra_spec, srl_spec, sub_spec, swap_spec, AluResult, Flags,
};
use crate::gb_mem::{is_writable, write_effect, IE_ADDR, MEMORY_SIZE};
use crate::gb_opcodes::{
    middle_field, second_op_action_spec, second_op_register_spec, second_op_type_spec,
    target_operand, AluOp, Cond, Indirect, Operand8, Operation, Reg16, SecondOpAction,
    SecondOpType, StackPair,
};

verus! {

/// The register file: eight 8-bit registers (F as four flags), the stack pointer, the program
/// counter, the interrupt master enable and the two run-state flags.
#[derive(Debug, Clone, Copy, PartialEq, Eq, Structural)]
pub struct Registers {
    pub a: u8,
    pub b: u8,
    pub c: u8,
    pub d: u8,
    pub e: u8,
    pub h: u8,
    pub l: u8,
    pub flags: Flags,
    pub sp: u16,
    pub pc: u16,
    pub ime: bool,
    pub halt: bool,
    pub stop: bool,
}

/// The whole state the engine works on: registers, the 64KB memory, the cycle counter, and
/// the cycle count last reported to the timing hook.
pub struct Machine {
    pub regs: Registers,
    pub mem: Seq<u8>,
    pub clock: u64,
    pub synced: u64,
}

/// The registers at power-on.
pub open spec fn power_on_registers() -> Registers {
    Registers {
        a: 0,
        b: 0,
        c: 0,
        d: 0,
        e: 0,
        h: 0,
        l: 0,
        flags: Flags { zero: false, subtract: false, half_carry: false, carry: false },
        sp: 0xFFFE,
        pc: 0x0100,
        ime: true,
        halt: false,
        stop: false,
    }
}

pub open spec fn word(high: u8, low: u8) -> u16 {
    (high * 256 + low) as u16
}

pub open spec fn high_byte(v: u16) -> u8 {
    (v / 256) as u8
}

pub open spec fn low_byte(v: u16) -> u8 {
    (v % 256) as u8
}

pub open spec fn wrap16(v: int) -> u16 {
    ((v + 0x10000) % 0x10000) as u16
}

pub open spec fn hl(r: Registers) -> u16 {
    word(r.h, r.l)
}

pub open spec fn with_regs(m: Machine, regs: Registers) -> Machine {
    Machine { regs, ..m }
}

pub open spec fn with_flags(m: Machine, flags: Flags) -> Machine {
    with_regs(m, Registers { flags, ..m.regs })
}

pub open spec fn with_pc(m: Machine, pc: u16) -> Machine {
    with_regs(m, Registers { pc, ..m.regs })
}

/// One bus access: the cycle counter advances by four and is reported to the timing hook.
pub open spec fn bus_tick(m: Machine) -> Machine {
    Machine { clock: m.clock.wrapping_add(4), synced: m.clock.wrapping_add(4), ..m }
}

pub open spec fn read_byte(m: Machine, addr: u16) -> (Machine, u8) {
    (bus_tick(m), m.mem[addr as int])
}

pub open spec fn write_byte(m: Machine, addr: u16, v: u8) -> Machine {
    bus_tick(Machine { mem: write_effect(m.mem, addr as int, v), ..m })
}

/// Reads the byte at PC and moves PC past it.
pub open spec fn fetch_byte(m: Machine) -> (Machine, u8) {
    (bus_tick(with_pc(m, wrap16(m.regs.pc + 1))), m.mem[m.regs.pc as int])
}

/// Reads a 16-bit operand at PC, low byte first.
pub open spec fn fetch_word(m: Machine) -> (Machine, u16) {
    let (m1, low) = fetch_byte(m);
    let (m2, high) = fetch_byte(m1);
    (m2, word(high, low))
}

/// The register that `o` names; `AtHl` is not a register and is read through the bus.
pub open spec fn reg8(r: Registers, o: Operand8) -> u8 {
    match o {
        Operand8::A => r.a,
        Operand8::B => r.b,
        Operand8::C => r.c,
        Operand8::D => r.d,
        Operand8::E => r.e,
        Operand8::H => r.h,
        Operand8::L => r.l,
        Operand8::AtHl => 0,
    }
}

pub open spec fn set_reg8(r: Registers, o: Operand8, v: u8) -> Registers {
    match o {
        Operand8::A => Registers { a: v, ..r },
        Operand8::B => Registers { b: v, ..r },
        Operand8::C => Registers { c: v, ..r },
        Operand8::D => Registers { d: v, ..r },
        Operand8::E => Registers { e: v, ..r },
        Operand8::H => Registers { h: v, ..r },
        Operand8::L => Registers { l: v, ..r },
        Operand8::AtHl => r,
    }
}

pub open spec fn read_operand(m: Machine, o: Operand8) -> (Machine, u8) {
    if o == Operand8::AtHl {
        read_byte(m, hl(m.regs))
    } else {
        (m, reg8(m.regs, o))
    }
}

pub open spec fn write_operand(m: Machine, o: Operand8, v: u8) -> Machine {
    if o == Operand8::AtHl {
        write_byte(m, hl(m.regs), v)
    } else {
        with_regs(m, set_reg8(m.regs, o, v))
    }
}

pub open spec fn reg16(r: Registers, p: Reg16) -> u16 {
    match p {
        Reg16::Bc => word(r.b, r.c),
        Reg16::De => word(r.d, r.e),
        Reg16::Hl => word(r.h, r.l),
        Reg16::Sp => r.sp,
    }
}

pub open spec fn set_reg16(r: Registers, p: Reg16, v: u16) -> Registers {
    match p {
        Reg16::Bc => Registers { b: high_byte(v), c: low_byte(v), ..r },
        Reg16::De => Registers { d: high_byte(v), e: low_byte(v), ..r },
        Reg16::Hl => Registers { h: high_byte(v), l: low_byte(v), ..r },
        Reg16::Sp => Registers { sp: v, ..r },
    }
}

pub open spec fn stack_pair(r: Registers, p: StackPair) -> u16 {
    match p {
        StackPair::Bc => word(r.b, r.c),
        StackPair::De => word(r.d, r.e),
        StackPair::Hl => word(r.h, r.l),
        StackPair::Af => word(r.a, flags_byte(r.flags)),
    }
}

pub open spec fn set_stack_pair(r: Registers, p: StackPair, v: u16) -> Registers {
    match p {
        StackPair::Bc => Registers { b: high_byte(v), c: low_byte(v), ..r },
        StackPair::De => Registers { d: high_byte(v), e: low_byte(v), ..r },
        StackPair::Hl => Registers { h: high_byte(v), l: low_byte(v), ..r },
        StackPair::Af => Registers { a: high_byte(v), flags: flags_of_byte(low_byte(v)), ..r },
    }
}

/// Pushes `v`: SP is decremented before each of the two writes, high byte first.
pub open spec fn push_word(m: Machine, v: u16) -> Machine {
    let sp1 = wrap16(m.regs.sp - 1);
    let m1 = write_byte(with_regs(m, Registers { sp: sp1, ..m.regs }), sp1, high_byte(v));
    let sp2 = wrap16(sp1 - 1);
    write_byte(with_regs(m1, Registers { sp: sp2, ..m1.regs }), sp2, low_byte(v))
}

/// Pops a 16-bit value: SP is incremented after each of the two reads, low byte first.
pub open spec fn pop_word(m: Machine) -> (Machine, u16) {
    let (m1, low) = read_byte(m, m.regs.sp);
    let m2 = with_regs(m1, Registers { sp: wrap16(m1.regs.sp + 1), ..m1.regs });
    let (m3, high) = read_byte(m2, m2.regs.sp);
    (with_regs(m3, Registers { sp: wrap16(m3.regs.sp + 1), ..m3.regs }), word(high, low))
}

pub open spec fn cond_holds(f: Flags, c: Cond) -> bool {
    match c {
        Cond::Always => true,
        Cond::NotZero => !f.zero,
        Cond::Zero => f.zero,
        Cond::NotCarry => !f.carry,
        Cond::Carry => f.carry,
    }
}

pub open spec fn alu_spec(op: AluOp, a: u8, v: u8, carry: bool) -> AluResult {
    match op {
        AluOp::Add => add_spec(a, v, false),
        AluOp::Adc => add_spec(a, v, carry),
        AluOp::Sub => sub_spec(a, v, false),
        AluOp::Sbc => sub_spec(a, v, carry),
        AluOp::And => logic_spec(a & v, true),
        AluOp::Xor => logic_spec(a ^ v, false),
        AluOp::Or => logic_spec(a | v, false),
        AluOp::Cp => sub_spec(a, v, false),
    }
}

/// A with the operand `v`: the result goes to A (CP keeps A) and the flags to F.
pub open spec fn apply_alu(m: Machine, op: AluOp, v: u8) -> Machine {
    let r = alu_spec(op, m.regs.a, v, m.regs.flags.carry);
    let a = if op == AluOp::Cp {
        m.regs.a
    } else {
        r.value
    };
    with_regs(m, Registers { a, flags: r.flags, ..m.regs })
}

/// Puts a result in A and its flags in F.
pub open spec fn apply_to_a(m: Machine, r: AluResult) -> Machine {
    with_regs(m, Registers { a: r.value, flags: r.flags, ..m.regs })
}

/// The address a load between A and memory goes through, after any operand bytes it
/// consumes and with HL stepped for the post-increment and post-decrement forms.
pub open spec fn indirect_address(m: Machine, ind: Indirect) -> (Machine, u16) {
    match ind {
        Indirect::Bc => (m, word(m.regs.b, m.regs.c)),
        Indirect::De => (m, word(m.regs.d, m.regs.e)),
        Indirect::HighC => (m, (0xFF00 + m.regs.c) as u16),
        Indirect::HighImm => {
            let (m1, n) = fetch_byte(m);
            (m1, (0xFF00 + n) as u16)
        },
        Indirect::Absolute => fetch_word(m),
        Indirect::HlInc => (
            with_regs(m, set_reg16(m.regs, Reg16::Hl, wrap16(hl(m.regs) + 1))),
            hl(m.regs),
        ),
        Indirect::HlDec => (
            with_regs(m, set_reg16(m.regs, Reg16::Hl, wrap16(hl(m.regs) - 1))),
            hl(m.regs),
        ),
    }
}

pub open spec fn shift_spec(action: SecondOpAction, v: u8, carry: bool) -> AluResult {
    match action {
        SecondOpAction::RLC => rlc_spec(v),
        SecondOpAction::RRC => rrc_spec(v),
        SecondOpAction::RL => rl_spec(v, carry),
        SecondOpAction::RR => rr_spec(v, carry),
        SecondOpAction::SLA => sla_spec(v),
        SecondOpAction::SRA => sra_spec(v),
        SecondOpAction::SWAP => swap_spec(v),
        SecondOpAction::SRL => srl_spec(v),
    }
}

/// The effect of the secondary operation `sop`, once its byte has been fetched.
pub open spec fn cb_step(m: Machine, sop: u8) -> Machine {
    let target = target_operand(second_op_register_spec(sop));
    let mask: u8 = 1u8 << middle_field(sop);
    let (m1, v) = read_operand(m, target);
    match second_op_type_spec(sop) {
        SecondOpType::BIT_CHECK => with_flags(
            m1,
            Flags {
                zero: v & mask == 0,
                subtract: false,
                half_carry: true,
                carry: m1.regs.flags.carry,
            },
        ),
        SecondOpType::SET => write_operand(m1, target, v | mask),
        SecondOpType::RESET => write_operand(m1, target, v & !mask),
        SecondOpType::ROTATE_SHIFT => {
            let r = shift_spec(second_op_action_spec(sop), v, m1.regs.flags.carry);
            write_operand(with_flags(m1, r.flags), target, r.value)
        },
    }
}

/// The effect of the primary operation `op`, once its opcode byte has been fetched.
pub open spec fn step(m: Machine, op: Operation) -> Machine {
    let r = m.regs;
    match op {
        Operation::Ld(dst, src) => {
            let (m1, v) = read_operand(m, src);
            write_operand(m1, dst, v)
        },
        Operation::LdImm(dst) => {
            let (m1, v) = fetch_byte(m);
            write_operand(m1, dst, v)
        },
        Operation::LdAFrom(ind) => {
            let (m1, addr) = indirect_address(m, ind);
            let (m2, v) = read_byte(m1, addr);
            with_regs(m2, Registers { a: v, ..m2.regs })
        },
        Operation::LdAInto(ind) => {
            let (m1, addr) = indirect_address(m, ind);
            write_byte(m1, addr, m1.regs.a)
        },
        Operation::Ld16Imm(p) => {
            let (m1, v) = fetch_word(m);
            with_regs(m1, set_reg16(m1.regs, p, v))
        },
        Operation::LdSpHl => with_regs(m, Registers { sp: hl(r), ..r }),
        Operation::Push(p) => push_word(m, stack_pair(r, p)),
        Operation::Pop(p) => {
            let (m1, v) = pop_word(m);
            with_regs(m1, set_stack_pair(m1.regs, p, v))
        },
        Operation::LdHlSpOffset => {
            let (m1, e) = fetch_byte(m);
            let (v, f) = offset_sp_spec(m1.regs.sp, e);
            with_regs(m1, set_reg16(Registers { flags: f, ..m1.regs }, Reg16::Hl, v))
        },
        Operation::StoreSp => {
            let (m1, addr) = fetch_word(m);
            let m2 = write_byte(m1, addr, low_byte(m1.regs.sp));
            write_byte(m2, wrap16(addr + 1), high_byte(m2.regs.sp))
        },
        Operation::Alu(op, src) => {
            let (m1, v) = read_operand(m, src);
            apply_alu(m1, op, v)
        },
        Operation::AluImm(op) => {
            let (m1, v) = fetch_byte(m);
            apply_alu(m1, op, v)
        },
        Operation::Inc(o) => {
            let (m1, v) = read_operand(m, o);
            let res = increment_spec(v, m1.regs.flags.carry);
            write_operand(with_flags(m1, res.flags), o, res.value)
        },
        Operation::Dec(o) => {
            let (m1, v) = read_operand(m, o);
            let res = decrement_spec(v, m1.regs.flags.carry);
            write_operand(with_flags(m1, res.flags), o, res.value)
        },
        Operation::AddHl(p) => {
            let (v, f) = add16_spec(hl(r), reg16(r, p), r.flags.zero);
            with_regs(m, set_reg16(Registers { flags: f, ..r }, Reg16::Hl, v))
        },
        Operation::AddSpOffset => {
            let (m1, e) = fetch_byte(m);
            let (v, f) = offset_sp_spec(m1.regs.sp, e);
            with_regs(m1, Registers { sp: v, flags: f, ..m1.regs })
        },
        Operation::Inc16(p) => with_regs(m, set_reg16(r, p, wrap16(reg16(r, p) + 1))),
        Operation::Dec16(p) => with_regs(m, set_reg16(r, p, wrap16(reg16(r, p) - 1))),
        Operation::Rlca => apply_to_a(m, rlc_spec(r.a)),
        Operation::Rla => apply_to_a(m, rl_spec(r.a, r.flags.carry)),
        Operation::Rrca => apply_to_a(m, rrc_spec(r.a)),
        Operation::Rra => apply_to_a(m, rr_spec(r.a, r.flags.carry)),
        Operation::Prefix => {
            let (m1, sop) = fetch_byte(m);
            cb_step(m1, sop)
        },
        Operation::Jp(c) => {
            let (m1, addr) = fetch_word(m);
            if cond_holds(m1.regs.flags, c) {
                with_pc(m1, addr)
            } else {
                m1
            }
        },
        Operation::Jr(c) => {
            let (m1, e) = fetch_byte(m);
            if cond_holds(m1.regs.flags, c) {
                with_pc(m1, relative_target(m1.regs.pc, e))
            } else {
                m1
            }
        },
        Operation::JpHl => with_pc(m, hl(r)),
        Operation::Call(c) => {
            let (m1, addr) = fetch_word(m);
            if cond_holds(m1.regs.flags, c) {
                with_pc(push_word(m1, m1.regs.pc), addr)
            } else {
                m1
            }
        },
        Operation::Ret(c) => {
            if cond_holds(r.flags, c) {
                let (m1, addr) = pop_word(m);
                with_pc(m1, addr)
            } else {
                m
            }
        },
        Operation::Reti => {
            let (m1, addr) = pop_word(m);
            with_regs(m1, Registers { pc: addr, ime: true, ..m1.regs })
        },
        Operation::Rst(t) => with_pc(push_word(m, r.pc), t as u16),
        Operation::Daa => apply_to_a(m, daa_spec(r.a, r.flags)),
        Operation::Cpl => with_regs(
            m,
            Registers {
                a: (255 - r.a) as u8,
                flags: Flags { subtract: true, half_carry: true, ..r.flags },
                ..r
            },
        ),
        Operation::Nop => m,
        Operation::Halt => with_regs(m, Registers { halt: true, ..r }),
        Operation::Stop => write_byte(with_regs(m, Registers { stop: true, ..r }), IE_ADDR, 0),
        Operation::Ei => with_regs(m, Registers { ime: true, ..r }),
        Operation::Di => with_regs(m, Registers { ime: false, ..r }),
    }
}

/// Pushing a 16-bit value and popping right away gives the value back and leaves SP, and every
/// other register, as before the push, provided both stack bytes land in writable memory.
pub proof fn lemma_push_then_pop(m: Machine, v: u16)
    requires
        m.mem.len() == MEMORY_SIZE,
        is_writable(wrap16(m.regs.sp - 1) as int),
        is_writable(wrap16(m.regs.sp - 2) as int),
    ensures
        pop_word(push_word(m, v)).1 == v,
        pop_word(push_word(m, v)).0.regs.sp == m.regs.sp,
        pop_word(push_word(m, v)).0.regs == m.regs,
{
    let sp1 = wrap16(m.regs.sp - 1);
    let sp2 = wrap16(sp1 - 1);
    assert(sp2 == wrap16(m.regs.sp - 2));
    assert(wrap16(sp2 + 1) == sp1);
    assert(wrap16(sp1 + 1) == m.regs.sp);
    assert(word(high_byte(v), low_byte(v)) == v);
}

} // verus!
