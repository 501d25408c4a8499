use vstd::prelude::*;

use crate::gb_alu::flags_byte;
use crate::gb_opcodes::Operation;
use crate::machine::Registers;

verus! {

/// Where a traced byte lives: a register or a memory address.
#[derive(Debug, Clone, Copy, PartialEq, Eq, Structural)]
pub enum MemChangeDest {
    RegA,
    RegB,
    RegC,
    RegD,
    RegE,
    RegF,
    RegH,
    RegL,
    Mem(u16),
}

/// A byte and where it lives.
#[derive(Debug, Clone, Copy, PartialEq, Eq, Structural)]
pub struct MemChange {
    pub dest: MemChangeDest,
    pub value: u8,
}

/// One executed operation: its opcode byte, what it decoded to, where it was fetched, and the
/// eight 8-bit registers as they were before it ran.
#[derive(Debug)]
pub struct TraceLog {
    pub opcode: u8,
    pub operation: Operation,
    pub pc: u16,
    pub registers: Vec<MemChange>,
}

/// The eight 8-bit registers in the order A, B, C, D, E, F, H, L.
pub open spec fn register_snapshot(r: Registers) -> Seq<MemChange> {
    seq![
        MemChange { dest: MemChangeDest::RegA, value: r.a },
        MemChange { dest: MemChangeDest::RegB, value: r.b },
        MemChange { dest: MemChangeDest::RegC, value: r.c },
        MemChange { dest: MemChangeDest::RegD, value: r.d },
        MemChange { dest: MemChangeDest::RegE, value: r.e },
        MemChange { dest: MemChangeDest::RegF, value: flags_byte(r.flags) },
        MemChange { dest: MemChangeDest::RegH, value: r.h },
        MemChange { dest: MemChangeDest::RegL, value: r.l },
    ]
}

/// Whether `t` records `operation`, decoded from `opcode` at `pc`, over the registers `regs`.
pub open spec fn records(t: TraceLog, opcode: u8, operation: Operation, pc: u16, regs: Registers) -> bool {
    &&& t.opcode == opcode
    &&& t.operation == operation
    &&& t.pc == pc
    &&& t.registers@ == register_snapshot(regs)
}

impl TraceLog {
    pub fn new(opcode: u8, operation: Operation, pc: u16, regs: Registers) -> (r: Self)
        ensures
            records(r, opcode, operation, pc, regs),
    {
        let mut registers: Vec<MemChange> = Vec::new();
        registers.push(MemChange { dest: MemChangeDest::RegA, value: regs.a });
        registers.push(MemChange { dest: MemChangeDest::RegB, value: regs.b });
        registers.push(MemChange { dest: MemChangeDest::RegC, value: regs.c });
        registers.push(MemChange { dest: MemChangeDest::RegD, value: regs.d });
        registers.push(MemChange { dest: MemChangeDest::RegE, value: regs.e });
        registers.push(MemChange { dest: MemChangeDest::RegF, value: regs.flags.to_byte() });
        registers.push(MemChange { dest: MemChangeDest::RegH, value: regs.h });
        registers.push(MemChange { dest: MemChangeDest::RegL, value: regs.l });
        assert(registers@ =~= register_snapshot(regs));
        TraceLog { opcode, operation, pc, registers }
    }
}

} // verus!
