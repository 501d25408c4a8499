use vstd::prelude::*;

verus! {

/// The timing hook: the engine reports its cycle count here after every bus access, for the
/// peripherals that would observe it.
#[derive(Debug)]
pub struct HardwareBus {
    cycles: u64,
}

impl View for HardwareBus {
    type V = u64;

    /// The cycle count last reported.
    closed spec fn view(&self) -> u64 {
        self.cycles
    }
}

impl HardwareBus {
    pub fn new() -> (r: Self)
        ensures
            r@ == 0,
    {
        HardwareBus { cycles: 0u64 }
    }

    /// Records the engine's cycle count.
    pub fn sync(&mut self, count: u64)
        ensures
            final(self)@ == count,
    {
        self.cycles = count;
    }

    /// The cycle count last reported.
    pub fn cycles(&self) -> (r: u64)
        ensures
            r == self@,
    {
        self.cycles
    }
}

} // verus!
