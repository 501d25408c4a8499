use vstd::prelude::*;

use crate::gb_cpu::{tick_record, tick_result, tick_trace, DmgCpu};
use crate::gb_hw_bus::HardwareBus;
use crate::gb_mem::{initial_memory, MemoryController};
use crate::gb_opcodes::{DecodeError, Operation};
use crate::gb_rom::GbRom;
use crate::machine::{power_on_registers, Machine, Registers};
use crate::tracelog::{records, TraceLog};

verus! {

/// Why a run ended.
#[derive(Debug, Clone, Copy, PartialEq, Eq, Structural)]
pub enum RunEnd {
    /// The core executed STOP.
    Stopped,
    /// A byte without an operation was met; registers, PC and memory are as they were before
    /// that tick, which only counted its read on the clock.
    DecodeFailed(DecodeError),
    /// The tick budget was used up.
    BudgetSpent,
}

/// Up to `budget` ticks from `m`: the state they lead to and why they ended.
pub open spec fn run_spec(m: Machine, budget: nat) -> (Machine, RunEnd)
    decreases budget,
{
    if budget == 0 {
        (m, RunEnd::BudgetSpent)
    } else {
        let (next, outcome) = tick_result(m);
        match outcome {
            Err(e) => (next, RunEnd::DecodeFailed(e)),
            Ok(()) => if next.regs.stop {
                (next, RunEnd::Stopped)
            } else {
                run_spec(next, (budget - 1) as nat)
            },
        }
    }
}

/// The trace record of one tick from `m`, as a sequence of zero or one entries.
pub open spec fn tick_records(m: Machine) -> Seq<(u8, Operation, u16, Registers)> {
    match tick_record(m) {
        Some(rec) => seq![rec],
        None => Seq::empty(),
    }
}

/// The trace records of up to `budget` ticks from `m`, one for each tick that ran an
/// operation, in order.
pub open spec fn run_records(m: Machine, budget: nat) -> Seq<(u8, Operation, u16, Registers)>
    decreases budget,
{
    if budget == 0 {
        Seq::empty()
    } else {
        let (next, outcome) = tick_result(m);
        if outcome is Ok && !next.regs.stop {
            tick_records(m) + run_records(next, (budget - 1) as nat)
        } else {
            tick_records(m)
        }
    }
}

/// `new_log` is `old_log` followed by one trace record for each entry of `recs`.
pub open spec fn log_extended(
    old_log: Seq<TraceLog>,
    new_log: Seq<TraceLog>,
    recs: Seq<(u8, Operation, u16, Registers)>,
) -> bool {
    &&& new_log.len() == old_log.len() + recs.len()
    &&& forall|i: int| 0 <= i < old_log.len() ==> new_log[i] == old_log[i]
    &&& forall|i: int|
        0 <= i < recs.len() ==> records(
            #[trigger] new_log[old_log.len() + i],
            recs[i].0,
            recs[i].1,
            recs[i].2,
            recs[i].3,
        )
}

/// A run halts at the first decode error: once a tick fails to decode, the run ends there,
/// with the state that tick left and no further tick.
pub proof fn lemma_run_halts_on_decode_error(m: Machine, budget: nat)
    requires
        budget > 0,
        tick_result(m).1 is Err,
    ensures
        run_spec(m, budget) == (tick_result(m).0, RunEnd::DecodeFailed(tick_result(m).1->Err_0)),
        run_records(m, budget) == tick_records(m),
{
}

/// Adding the records of one tick to a log that holds the records of the ticks before it.
proof fn lemma_log_step(
    start_log: Seq<TraceLog>,
    before_log: Seq<TraceLog>,
    after_log: Seq<TraceLog>,
    done: Seq<(u8, Operation, u16, Registers)>,
    m: Machine,
)
    requires
        log_extended(start_log, before_log, done),
        tick_trace(m, before_log, after_log),
    ensures
        log_extended(start_log, after_log, done + tick_records(m)),
{
    let all = done + tick_records(m);
    assert forall|i: int| 0 <= i < all.len() implies records(
        #[trigger] after_log[start_log.len() + i],
        all[i].0,
        all[i].1,
        all[i].2,
        all[i].3,
    ) by {
        if i < done.len() {
            assert(after_log[start_log.len() + i] == before_log[start_log.len() + i]);
        }
    }
}

/// A session: the one owner of the core, its memory and its timing hook.
#[derive(Debug)]
pub struct DmgBoy {
    cpu: DmgCpu,
}

impl DmgBoy {
    pub closed spec fn engine(&self) -> &DmgCpu {
        &self.cpu
    }

    pub open spec fn wf(&self) -> bool {
        self.engine().wf()
    }

    /// A session at power-on, with the cartridge loaded into memory.
    pub fn new(rom: GbRom) -> (r: Self)
        ensures
            r.wf(),
            r.engine()@.regs == power_on_registers(),
            r.engine()@.mem == initial_memory(rom.image()),
            r.engine()@.clock == 0,
            r.engine()@.synced == 0,
    {
        let bus = HardwareBus::new();
        let mc = MemoryController::new(rom);
        DmgBoy { cpu: DmgCpu::new(bus, mc) }
    }

    pub fn cpu(&self) -> (r: &DmgCpu)
        ensures
            r == self.engine(),
    {
        &self.cpu
    }

    /// Ticks the core until it stops, meets a decode error, or has ticked `max_ticks` times.
    pub fn run(&mut self, max_ticks: u64, log: &mut Vec<TraceLog>) -> (r: RunEnd)
        requires
            old(self).wf(),
        ensures
            final(self).wf(),
            (final(self).engine()@, r) == run_spec(old(self).engine()@, max_ticks as nat),
            log_extended(old(log)@, final(log)@, run_records(old(self).engine()@, max_ticks as nat)),
    {
        let ghost start = self.cpu@;
        let ghost start_log = log@;
        let ghost mut done: Seq<(u8, Operation, u16, Registers)> = Seq::empty();
        let mut left: u64 = max_ticks;
        while left > 0
            invariant
                self.wf(),
                start == old(self).engine()@,
                start_log == old(log)@,
                left <= max_ticks,
                run_spec(self.cpu@, left as nat) == run_spec(start, max_ticks as nat),
                run_records(start, max_ticks as nat) == done + run_records(self.cpu@, left as nat),
                log_extended(start_log, log@, done),
            decreases left,
        {
            let ghost before = self.cpu@;
            let ghost before_log = log@;
            let outcome = self.cpu.tick(log);
            proof {
                let here = tick_records(before);
                lemma_log_step(start_log, before_log, log@, done, before);
                if outcome is Ok && !self.cpu@.regs.stop {
                    assert(run_records(before, left as nat) == here + run_records(
                        self.cpu@,
                        (left - 1) as nat,
                    ));
                    assert(done + (here + run_records(self.cpu@, (left - 1) as nat)) =~= (done
                        + here) + run_records(self.cpu@, (left - 1) as nat));
                } else {
                    assert(run_records(before, left as nat) == here);
                }
                done = done + here;
            }
            match outcome {
                Ok(()) => {},
                Err(e) => {
                    return RunEnd::DecodeFailed(e);
                },
            }
            if self.cpu.is_stopped() {
                return RunEnd::Stopped;
            }
            left = left - 1;
        }
        RunEnd::BudgetSpent
    }
}

} // verus!
