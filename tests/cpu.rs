use bugboy::gb_alu::Flags;
use bugboy::gb_cpu::DmgCpu;
use bugboy::gb_hw_bus::HardwareBus;
use bugboy::gb_mem::{MemoryController, RamAddress};
use bugboy::gb_opcodes::{DecodeError, Operand8, Operation};
use bugboy::gb_rom::GbRom;
use bugboy::session::{DmgBoy, RunEnd};
use bugboy::tracelog::{MemChange, MemChangeDest, TraceLog};

/// A cartridge of 32KB whose program starts at 0x0100.
fn cartridge(program: &[u8]) -> GbRom {
    let mut data = vec![0u8; 0x8000];
    data[0x0100..0x0100 + program.len()].copy_from_slice(program);
    GbRom::new(data, String::from("TEST"))
}

fn cpu_with(program: &[u8]) -> DmgCpu {
    DmgCpu::new(HardwareBus::new(), MemoryController::new(cartridge(program)))
}

fn ticks(cpu: &mut DmgCpu, n: usize) -> Vec<TraceLog> {
    let mut log = Vec::new();
    for _ in 0..n {
        assert_eq!(cpu.tick(&mut log), Ok(()));
    }
    log
}

fn mem(cpu: &DmgCpu, addr: u16) -> u8 {
    cpu.get_memory_controller().read(RamAddress::new(addr))
}

fn hl(cpu: &DmgCpu) -> u16 {
    let r = cpu.registers();
    (r.h as u16) << 8 | r.l as u16
}

#[test]
fn power_on_state() {
    let cpu = cpu_with(&[]);
    let r = cpu.registers();
    assert_eq!(r.a, 0);
    assert_eq!(r.flags.to_byte(), 0);
    assert_eq!(r.sp, 0xFFFE);
    assert_eq!(r.pc, 0x0100);
    assert!(r.ime);
    assert!(!r.halt);
    assert!(!r.stop);
    assert!(!cpu.is_stopped());
    assert_eq!(cpu.clock(), 0);
}

#[test]
fn nop_moves_pc_only() {
    let mut cpu = cpu_with(&[0x00]);
    let before = cpu.registers();
    ticks(&mut cpu, 1);
    let after = cpu.registers();
    assert_eq!(after.pc, 0x0101);
    assert_eq!(after.a, before.a);
    assert_eq!(after.b, before.b);
    assert_eq!(after.c, before.c);
    assert_eq!(after.d, before.d);
    assert_eq!(after.e, before.e);
    assert_eq!(after.h, before.h);
    assert_eq!(after.l, before.l);
    assert_eq!(after.flags, before.flags);
    assert_eq!(after.sp, before.sp);
    assert_eq!(after.ime, before.ime);
}

#[test]
fn load_immediate_into_a() {
    let mut cpu = cpu_with(&[0x3E, 0x42]);
    ticks(&mut cpu, 1);
    assert_eq!(cpu.registers().a, 0x42);
    assert_eq!(cpu.registers().pc, 0x0102);
}

#[test]
fn absolute_jump() {
    let mut cpu = cpu_with(&[0xC3, 0x00, 0x02]);
    ticks(&mut cpu, 1);
    assert_eq!(cpu.registers().pc, 0x0200);
}

#[test]
fn unmapped_opcode_is_a_decode_error() {
    let mut cpu = cpu_with(&[0xD3]);
    let regs = cpu.registers();
    let mut log = Vec::new();
    assert_eq!(cpu.tick(&mut log), Err(DecodeError { opcode: 0xD3, pc: 0x0100 }));
    assert_eq!(cpu.registers(), regs);
    assert_eq!(cpu.clock(), 4);
    assert_eq!(cpu.hardware_bus().cycles(), 4);
    assert!(log.is_empty());
    assert_eq!(mem(&cpu, 0x0100), 0xD3);
    for a in [0x0000u16, 0x8000, 0xC000, 0xFFFF] {
        assert_eq!(mem(&cpu, a), 0);
    }
}

#[test]
fn run_loop_halts_on_decode_error() {
    let mut boy = DmgBoy::new(cartridge(&[0x00, 0x00, 0xD3, 0x00]));
    let mut log = Vec::new();
    let end = boy.run(100, &mut log);
    assert_eq!(end, RunEnd::DecodeFailed(DecodeError { opcode: 0xD3, pc: 0x0102 }));
    assert_eq!(boy.cpu().registers().pc, 0x0102);
    assert_eq!(boy.cpu().clock(), 12);
    assert_eq!(log.len(), 2);
    assert_eq!((log[0].pc, log[1].pc), (0x0100, 0x0101));
    assert_eq!(log[1].operation, Operation::Nop);
}

#[test]
fn run_loop_spends_its_budget() {
    let mut boy = DmgBoy::new(cartridge(&[0x00; 16]));
    let mut log = Vec::new();
    assert_eq!(boy.run(5, &mut log), RunEnd::BudgetSpent);
    assert_eq!(boy.cpu().registers().pc, 0x0105);
    assert_eq!(log.len(), 5);
    assert_eq!(boy.run(0, &mut log), RunEnd::BudgetSpent);
    assert_eq!(boy.cpu().registers().pc, 0x0105);
}

#[test]
fn run_loop_ends_on_stop() {
    let mut boy = DmgBoy::new(cartridge(&[0x00, 0x10, 0x00]));
    let mut log = Vec::new();
    assert_eq!(boy.run(100, &mut log), RunEnd::Stopped);
    assert!(boy.cpu().is_stopped());
    assert_eq!(boy.cpu().registers().pc, 0x0102);
}

#[test]
fn stop_clears_interrupt_enable_and_freezes() {
    // LD A,0x5A; LD (0xFFFF),A; STOP
    let mut cpu = cpu_with(&[0x3E, 0x5A, 0xEA, 0xFF, 0xFF, 0x10, 0x00]);
    ticks(&mut cpu, 2);
    assert_eq!(mem(&cpu, 0xFFFF), 0x5A);
    ticks(&mut cpu, 1);
    assert!(cpu.is_stopped());
    assert_eq!(mem(&cpu, 0xFFFF), 0x00);
    let regs = cpu.registers();
    let clock = cpu.clock();
    let log = ticks(&mut cpu, 3);
    assert!(log.is_empty());
    assert_eq!(cpu.registers(), regs);
    assert_eq!(cpu.clock(), clock);
}

#[test]
fn halt_is_recorded_and_ticks_go_on() {
    let mut cpu = cpu_with(&[0x76, 0x00]);
    ticks(&mut cpu, 1);
    assert!(cpu.registers().halt);
    ticks(&mut cpu, 1);
    assert_eq!(cpu.registers().pc, 0x0102);
}

#[test]
fn push_then_pop_returns_the_value() {
    // LD BC,0x1234; PUSH BC; POP DE
    let mut cpu = cpu_with(&[0x01, 0x34, 0x12, 0xC5, 0xD1]);
    ticks(&mut cpu, 2);
    assert_eq!(cpu.registers().sp, 0xFFFC);
    assert_eq!(mem(&cpu, 0xFFFD), 0x12);
    assert_eq!(mem(&cpu, 0xFFFC), 0x34);
    ticks(&mut cpu, 1);
    let r = cpu.registers();
    assert_eq!((r.d, r.e), (0x12, 0x34));
    assert_eq!(r.sp, 0xFFFE);
}

#[test]
fn pop_goes_to_the_named_pair() {
    // LD SP,0xC100; LD HL,0xBEEF; PUSH HL; POP BC; PUSH HL; POP HL
    let mut cpu = cpu_with(&[0x31, 0x00, 0xC1, 0x21, 0xEF, 0xBE, 0xE5, 0xC1]);
    ticks(&mut cpu, 4);
    let r = cpu.registers();
    assert_eq!((r.b, r.c), (0xBE, 0xEF));
    assert_eq!(r.sp, 0xC100);
    assert_eq!(mem(&cpu, 0xE0FF), 0xBE);
}

#[test]
fn pop_af_drops_the_low_nibble() {
    // LD BC,0x12FF; PUSH BC; POP AF
    let mut cpu = cpu_with(&[0x01, 0xFF, 0x12, 0xC5, 0xF1]);
    ticks(&mut cpu, 3);
    let r = cpu.registers();
    assert_eq!(r.a, 0x12);
    assert_eq!(r.flags.to_byte(), 0xF0);
}

#[test]
fn untaken_jump_still_consumes_its_operand() {
    // XOR A; JP NZ,0x0200
    let mut cpu = cpu_with(&[0xAF, 0xC2, 0x00, 0x02]);
    ticks(&mut cpu, 2);
    assert!(cpu.registers().flags.zero);
    assert_eq!(cpu.registers().pc, 0x0104);
}

#[test]
fn untaken_relative_jump_still_consumes_its_operand() {
    // XOR A; JR NZ,+5; JR Z,-2
    let mut cpu = cpu_with(&[0xAF, 0x20, 0x05, 0x28, 0xFE]);
    ticks(&mut cpu, 2);
    assert_eq!(cpu.registers().pc, 0x0103);
    ticks(&mut cpu, 1);
    assert_eq!(cpu.registers().pc, 0x0103);
}

#[test]
fn relative_jump_goes_back() {
    let mut cpu = cpu_with(&[0x18, 0xFE]);
    ticks(&mut cpu, 1);
    assert_eq!(cpu.registers().pc, 0x0100);
}

#[test]
fn call_then_return() {
    let mut program = vec![0u8; 0x101];
    program[0] = 0xCD; // CALL 0x0200
    program[1] = 0x00;
    program[2] = 0x02;
    program[0x100] = 0xC9; // RET at 0x0200
    let mut cpu = cpu_with(&program);
    ticks(&mut cpu, 1);
    let r = cpu.registers();
    assert_eq!(r.pc, 0x0200);
    assert_eq!(r.sp, 0xFFFC);
    assert_eq!((mem(&cpu, 0xFFFD), mem(&cpu, 0xFFFC)), (0x01, 0x03));
    ticks(&mut cpu, 1);
    assert_eq!(cpu.registers().pc, 0x0103);
    assert_eq!(cpu.registers().sp, 0xFFFE);
}

#[test]
fn restart_pushes_the_return_address() {
    let mut cpu = cpu_with(&[0xFF]);
    ticks(&mut cpu, 1);
    assert_eq!(cpu.registers().pc, 0x0038);
    assert_eq!((mem(&cpu, 0xFFFD), mem(&cpu, 0xFFFC)), (0x01, 0x01));
}

#[test]
fn interrupt_enable_flag() {
    // DI (0xFB here); EI (0xF3 here)
    let mut cpu = cpu_with(&[0xFB, 0xF3]);
    ticks(&mut cpu, 1);
    assert!(!cpu.registers().ime);
    ticks(&mut cpu, 1);
    assert!(cpu.registers().ime);
}

#[test]
fn add_immediate_sets_all_carries() {
    // LD A,0x3A; ADD A,0xC6
    let mut cpu = cpu_with(&[0x3E, 0x3A, 0xC6, 0xC6]);
    ticks(&mut cpu, 2);
    let r = cpu.registers();
    assert_eq!(r.a, 0x00);
    assert_eq!(r.flags, Flags { zero: true, subtract: false, half_carry: true, carry: true });
}

#[test]
fn compare_keeps_a() {
    // LD A,0x10; CP 0x20
    let mut cpu = cpu_with(&[0x3E, 0x10, 0xFE, 0x20]);
    ticks(&mut cpu, 2);
    let r = cpu.registers();
    assert_eq!(r.a, 0x10);
    assert!(r.flags.carry && r.flags.subtract && !r.flags.zero);
}

#[test]
fn decimal_adjust_after_add() {
    // LD A,0x15; ADD A,0x27; DAA
    let mut cpu = cpu_with(&[0x3E, 0x15, 0xC6, 0x27, 0x27]);
    ticks(&mut cpu, 3);
    assert_eq!(cpu.registers().a, 0x42);
}

#[test]
fn complement_a() {
    let mut cpu = cpu_with(&[0x3E, 0x35, 0x2F]);
    ticks(&mut cpu, 2);
    let r = cpu.registers();
    assert_eq!(r.a, 0xCA);
    assert!(r.flags.subtract && r.flags.half_carry);
}

#[test]
fn increment_keeps_carry() {
    // SCF is not in the table: set carry with ADD; LD A,0xFF; ADD A,0x01 -> carry; INC B
    let mut cpu = cpu_with(&[0x3E, 0xFF, 0xC6, 0x01, 0x04]);
    ticks(&mut cpu, 3);
    let r = cpu.registers();
    assert_eq!(r.b, 1);
    assert!(r.flags.carry && !r.flags.zero && !r.flags.subtract);
}

#[test]
fn sixteen_bit_loads_and_steps() {
    // LD HL,0x00FF; INC HL; LD DE,0x0000; DEC DE; LD SP,HL
    let mut cpu = cpu_with(&[0x21, 0xFF, 0x00, 0x23, 0x11, 0x00, 0x00, 0x1B, 0xF9]);
    ticks(&mut cpu, 5);
    let r = cpu.registers();
    assert_eq!(hl(&cpu), 0x0100);
    assert_eq!((r.d, r.e), (0xFF, 0xFF));
    assert_eq!(r.sp, 0x0100);
}

#[test]
fn add_hl_pair() {
    // LD HL,0x0FFF; LD BC,0x0001; ADD HL,BC
    let mut cpu = cpu_with(&[0x21, 0xFF, 0x0F, 0x01, 0x01, 0x00, 0x09]);
    ticks(&mut cpu, 3);
    assert_eq!(hl(&cpu), 0x1000);
    let f = cpu.registers().flags;
    assert!(f.half_carry && !f.carry && !f.subtract);
}

#[test]
fn stack_pointer_offsets() {
    // LD SP,0xFFF8; LD HL,SP+8; ADD SP,-8
    let mut cpu = cpu_with(&[0x31, 0xF8, 0xFF, 0xF8, 0x08, 0xE8, 0xF8]);
    ticks(&mut cpu, 2);
    assert_eq!(hl(&cpu), 0x0000);
    assert!(cpu.registers().flags.carry);
    ticks(&mut cpu, 1);
    assert_eq!(cpu.registers().sp, 0xFFF0);
}

#[test]
fn store_stack_pointer() {
    // LD (0xC000),SP
    let mut cpu = cpu_with(&[0x08, 0x00, 0xC0]);
    ticks(&mut cpu, 1);
    assert_eq!(mem(&cpu, 0xC000), 0xFE);
    assert_eq!(mem(&cpu, 0xC001), 0xFF);
}

#[test]
fn load_through_hl_with_increment_and_decrement() {
    // LD HL,0xC000; LD A,0x55; LD (HL+),A; LD (HL-),A; LD A,(HL+)
    let mut cpu = cpu_with(&[0x21, 0x00, 0xC0, 0x3E, 0x55, 0x22, 0x32, 0x2A]);
    ticks(&mut cpu, 3);
    assert_eq!(mem(&cpu, 0xC000), 0x55);
    assert_eq!(mem(&cpu, 0xE000), 0x55);
    assert_eq!(hl(&cpu), 0xC001);
    ticks(&mut cpu, 1);
    assert_eq!(mem(&cpu, 0xC001), 0x55);
    assert_eq!(hl(&cpu), 0xC000);
    ticks(&mut cpu, 1);
    assert_eq!(cpu.registers().a, 0x55);
    assert_eq!(hl(&cpu), 0xC001);
}

#[test]
fn high_page_loads() {
    // LD A,0x77; LDH (0x80),A; LD C,0x81; LD (C),A; LD A,0; LDH A,(0x80)
    let mut cpu = cpu_with(&[0x3E, 0x77, 0xE0, 0x80, 0x0E, 0x81, 0xE2, 0x3E, 0x00, 0xF0, 0x80]);
    ticks(&mut cpu, 6);
    assert_eq!(mem(&cpu, 0xFF80), 0x77);
    assert_eq!(mem(&cpu, 0xFF81), 0x77);
    assert_eq!(cpu.registers().a, 0x77);
}

#[test]
fn rom_write_is_dropped_and_execution_goes_on() {
    // LD HL,0x0150; LD (HL),0x99; NOP
    let mut cpu = cpu_with(&[0x21, 0x50, 0x01, 0x36, 0x99, 0x00]);
    ticks(&mut cpu, 3);
    assert_eq!(mem(&cpu, 0x0150), 0x00);
    assert_eq!(cpu.registers().pc, 0x0106);
}

#[test]
fn secondary_rotate_bit_set_reset_swap() {
    // LD A,0x80; RLC A; BIT 0,A; SET 7,A; RES 0,A; SWAP A
    let mut cpu = cpu_with(&[0x3E, 0x80, 0xCB, 0x07, 0xCB, 0x47, 0xCB, 0xFF, 0xCB, 0x87, 0xCB, 0x37]);
    ticks(&mut cpu, 2);
    assert_eq!(cpu.registers().a, 0x01);
    assert!(cpu.registers().flags.carry);
    ticks(&mut cpu, 1);
    assert!(!cpu.registers().flags.zero);
    assert!(cpu.registers().flags.half_carry);
    ticks(&mut cpu, 1);
    assert_eq!(cpu.registers().a, 0x81);
    ticks(&mut cpu, 1);
    assert_eq!(cpu.registers().a, 0x80);
    ticks(&mut cpu, 1);
    assert_eq!(cpu.registers().a, 0x08);
    assert!(!cpu.registers().flags.carry);
}

#[test]
fn secondary_operations_reach_every_register() {
    // LD B,0x01; SRL B; LD E,0x40; SLA E
    let mut cpu = cpu_with(&[0x06, 0x01, 0xCB, 0x38, 0x1E, 0x40, 0xCB, 0x23]);
    ticks(&mut cpu, 4);
    let r = cpu.registers();
    assert_eq!(r.b, 0x00);
    assert_eq!(r.e, 0x80);
}

#[test]
fn secondary_operation_on_memory() {
    // LD HL,0xC000; LD (HL),0x0F; SWAP (HL); BIT 7,(HL)
    let mut cpu = cpu_with(&[0x21, 0x00, 0xC0, 0x36, 0x0F, 0xCB, 0x36, 0xCB, 0x7E]);
    ticks(&mut cpu, 3);
    assert_eq!(mem(&cpu, 0xC000), 0xF0);
    assert_eq!(mem(&cpu, 0xE000), 0xF0);
    ticks(&mut cpu, 1);
    assert!(!cpu.registers().flags.zero);
}

#[test]
fn every_bus_access_advances_the_clock() {
    let mut cpu = cpu_with(&[0x00, 0x3E, 0x01, 0xC3, 0x00, 0x02]);
    ticks(&mut cpu, 1);
    assert_eq!(cpu.clock(), 4);
    assert_eq!(cpu.hardware_bus().cycles(), 4);
    ticks(&mut cpu, 1);
    assert_eq!(cpu.clock(), 12);
    ticks(&mut cpu, 1);
    assert_eq!(cpu.clock(), 24);
    assert_eq!(cpu.hardware_bus().cycles(), 24);
}

#[test]
fn trace_records_operation_and_registers() {
    let mut cpu = cpu_with(&[0x3E, 0x42, 0x47]);
    let log = ticks(&mut cpu, 2);
    assert_eq!(log.len(), 2);
    assert_eq!(log[0].opcode, 0x3E);
    assert_eq!(log[0].operation, Operation::LdImm(Operand8::A));
    assert_eq!(log[0].pc, 0x0100);
    assert_eq!(log[0].registers[0], MemChange { dest: MemChangeDest::RegA, value: 0x00 });
    assert_eq!(log[1].pc, 0x0102);
    assert_eq!(log[1].registers.len(), 8);
    assert_eq!(log[1].registers[0], MemChange { dest: MemChangeDest::RegA, value: 0x42 });
    assert_eq!(log[1].registers[5].dest, MemChangeDest::RegF);
}

#[test]
fn do_op_runs_a_given_byte() {
    let mut cpu = cpu_with(&[0x42]);
    let mut log = Vec::new();
    assert_eq!(cpu.do_op(0x3C, &mut log), Ok(()));
    assert_eq!(cpu.registers().a, 1);
    assert_eq!(log[0].pc, 0x00FF);
    assert_eq!(cpu.do_op(0xFD, &mut log), Err(DecodeError { opcode: 0xFD, pc: 0x00FF }));
    assert_eq!(log.len(), 1);
}

#[test]
fn public_push_then_pop_round_trip() {
    for (sp, value) in [(0xFFFEu16, 0x1234u16), (0xC002, 0xBEEF), (0xE001, 0x00FF), (0x8002, 0xA55A)] {
        // LD SP,nn
        let mut cpu = cpu_with(&[0x31, (sp & 0xFF) as u8, (sp >> 8) as u8]);
        ticks(&mut cpu, 1);
        let before = cpu.registers();
        cpu.push_address_u16(value);
        assert_eq!(cpu.registers().sp, sp.wrapping_sub(2));
        assert_eq!(cpu.pop_address_u16(), value);
        assert_eq!(cpu.registers(), before);
    }
}

#[test]
fn run_log_has_one_record_per_operation() {
    // LD A,7; INC A; STOP
    let mut boy = DmgBoy::new(cartridge(&[0x3E, 0x07, 0x3C, 0x10, 0x00]));
    let mut log = Vec::new();
    assert_eq!(boy.run(100, &mut log), RunEnd::Stopped);
    assert_eq!(log.len(), 3);
    assert_eq!(log[0].opcode, 0x3E);
    assert_eq!(log[1].opcode, 0x3C);
    assert_eq!(log[1].registers[0].value, 0x07);
    assert_eq!(log[2].operation, Operation::Stop);
    assert_eq!(log[2].pc, 0x0103);
}
