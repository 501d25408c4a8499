use vstd::prelude::*;

use crate::gb_rom::GbRom;

verus! {

/// Size of the address space.
pub const MEMORY_SIZE: usize = 0x10000;

/// First address past the two cartridge ROM banks.
pub const ROM_END: u16 = 0x8000;

/// Distance between a working-RAM address and its echo.
pub const ECHO_OFFSET: u16 = 0x2000;

/// Address of the interrupt-enable register.
pub const IE_ADDR: u16 = 0xFFFF;

/// The 16-bit value of a register pair, high byte first.
pub open spec fn pair_value(high: u8, low: u8) -> int {
    high as int * 256 + low as int
}

/// Adds one to the register pair `high:low`, wrapping at 0xFFFF; no flag is involved.
pub fn increment_16(high: &mut u8, low: &mut u8)
    ensures
        pair_value(*final(high), *final(low)) == (pair_value(*old(high), *old(low)) + 1) % 0x10000,
{
    if *low == 255 {
        *low = 0;
        *high = high.wrapping_add(1);
    } else {
        *low = *low + 1;
    }
}

/// Subtracts one from the register pair `high:low`, wrapping at 0x0000; no flag is involved.
pub fn decrement_16(high: &mut u8, low: &mut u8)
    ensures
        pair_value(*final(high), *final(low)) == (pair_value(*old(high), *old(low)) + 0xFFFF)
            % 0x10000,
{
    if *low == 0 {
        *low = 255;
        *high = high.wrapping_sub(1);
    } else {
        *low = *low - 1;
    }
}

/// An address in the 64KB space; arithmetic on it wraps modulo 0x10000.
#[derive(Debug, Clone, Copy)]
pub struct RamAddress {
    val: u16,
}

impl View for RamAddress {
    type V = u16;

    closed spec fn view(&self) -> u16 {
        self.val
    }
}

impl RamAddress {
    pub fn new(init: u16) -> (r: Self)
        ensures
            r@ == init,
    {
        RamAddress { val: init }
    }

    pub fn get(&self) -> (r: u16)
        ensures
            r == self@,
    {
        self.val
    }

    pub fn set(&mut self, val: u16)
        ensures
            final(self)@ == val,
    {
        self.val = val;
    }

    /// Moves the address forward by `amt`, wrapping; returns the new address.
    pub fn inc(&mut self, amt: u16) -> (r: Self)
        ensures
            final(self)@ == (old(self)@ + amt) % 0x10000,
            r@ == final(self)@,
    {
        self.val = self.val.wrapping_add(amt);
        *self
    }

    /// Moves the address forward by `amt`, wrapping; returns the address as it was.
    pub fn post_inc(&mut self, amt: u16) -> (r: Self)
        ensures
            final(self)@ == (old(self)@ + amt) % 0x10000,
            r@ == old(self)@,
    {
        let copy = *self;
        self.inc(amt);
        copy
    }

    /// Moves the address back by `amt`, wrapping; returns the new address.
    pub fn dec(&mut self, amt: u16) -> (r: Self)
        ensures
            final(self)@ == (old(self)@ - amt + 0x10000) % 0x10000,
            r@ == final(self)@,
    {
        self.val = self.val.wrapping_sub(amt);
        *self
    }

    /// Moves the address back by `amt`, wrapping; returns the address as it was.
    pub fn post_dec(&mut self, amt: u16) -> (r: Self)
        ensures
            final(self)@ == (old(self)@ - amt + 0x10000) % 0x10000,
            r@ == old(self)@,
    {
        let copy = *self;
        self.dec(amt);
        copy
    }
}

/// Both cartridge ROM banks, fixed (0x0000-0x3FFF) and switchable (0x4000-0x7FFF).
pub open spec fn is_rom(addr: int) -> bool {
    0 <= addr < ROM_END
}

/// The unusable block 0xFEA0-0xFEFF.
pub open spec fn is_unusable(addr: int) -> bool {
    0xFEA0 <= addr <= 0xFEFF
}

/// Addresses whose storage a CPU write changes.
pub open spec fn is_writable(addr: int) -> bool {
    0 <= addr < 0x10000 && !is_rom(addr) && !is_unusable(addr)
}

/// The address that mirrors `addr`: working RAM 0xC000-0xDDFF and echo RAM 0xE000-0xFDFF
/// mirror each other; any other address mirrors only itself.
pub open spec fn echo_partner(addr: int) -> int {
    if 0xC000 <= addr < 0xDE00 {
        addr + ECHO_OFFSET
    } else if 0xE000 <= addr < 0xFE00 {
        addr - ECHO_OFFSET
    } else {
        addr
    }
}

/// The memory after a CPU write of `val` at `addr`.
pub open spec fn write_effect(mem: Seq<u8>, addr: int, val: u8) -> Seq<u8> {
    if is_writable(addr) {
        mem.update(addr, val).update(echo_partner(addr), val)
    } else {
        mem
    }
}

/// The memory at power-on: the first 32KB of the cartridge in the ROM banks, zero elsewhere.
pub open spec fn initial_memory(image: Seq<u8>) -> Seq<u8> {
    Seq::new(
        MEMORY_SIZE as nat,
        |i: int|
            if i < ROM_END && i < image.len() {
                image[i]
            } else {
                0u8
            },
    )
}

/// A write that the memory map refused; the write was dropped.
#[derive(Debug, Clone, Copy, PartialEq, Eq, Structural)]
pub enum MemoryAccessFault {
    /// A write into one of the cartridge ROM banks.
    RomWrite(u16),
    /// A write into the unusable block.
    UnusableWrite(u16),
}

/// The fault that a write to `addr` reports, if any.
pub open spec fn write_fault(addr: u16) -> Option<MemoryAccessFault> {
    if is_rom(addr as int) {
        Some(MemoryAccessFault::RomWrite(addr))
    } else if is_unusable(addr as int) {
        Some(MemoryAccessFault::UnusableWrite(addr))
    } else {
        None
    }
}

/// The 64KB address space, with the cartridge it was loaded from.
#[derive(Debug)]
pub struct MemoryController {
    rom: GbRom,
    ram: Vec<u8>,
}

impl View for MemoryController {
    type V = Seq<u8>;

    closed spec fn view(&self) -> Seq<u8> {
        self.ram@
    }
}

impl MemoryController {
    pub open spec fn wf(&self) -> bool {
        self@.len() == MEMORY_SIZE
    }

    /// The cartridge this memory was loaded from.
    pub closed spec fn cartridge(&self) -> &GbRom {
        &self.rom
    }

    /// Copies the first 32KB of the cartridge into the ROM banks; all other bytes start at zero.
    pub fn new(rom: GbRom) -> (r: Self)
        ensures
            r.wf(),
            r@ == initial_memory(rom.image()),
            r.cartridge() == rom,
    {
        let mut ram: Vec<u8> = Vec::new();
        let n = rom.len();
        let mut i: usize = 0;
        while i < MEMORY_SIZE
            invariant
                i <= MEMORY_SIZE,
                n == rom.image().len(),
                ram@.len() == i,
                forall|j: int| 0 <= j < i ==> ram@[j] == #[trigger] initial_memory(rom.image())[j],
            decreases MEMORY_SIZE - i,
        {
            if i < ROM_END as usize && i < n {
                ram.push(rom.byte_at(i));
            } else {
                ram.push(0u8);
            }
            i = i + 1;
        }
        assert(ram@ =~= initial_memory(rom.image()));
        MemoryController { rom, ram }
    }

    /// The cartridge this memory was loaded from.
    pub fn rom(&self) -> (r: &GbRom)
        ensures
            r == self.cartridge(),
    {
        &self.rom
    }

    /// The byte at `addr`, taken literally: reads never follow the echo mirror.
    pub fn read(&self, addr: RamAddress) -> (r: u8)
        requires
            self.wf(),
        ensures
            r == self@[addr@ as int],
    {
        self.ram[addr.get() as usize]
    }

    /// Writes `val` at `addr` as the memory map allows: a write to working RAM or to its echo
    /// lands at both addresses; a write to ROM or to the unusable block changes nothing and
    /// reports a fault.
    pub fn write(&mut self, addr: RamAddress, val: u8) -> (r: Result<(), MemoryAccessFault>)
        requires
            old(self).wf(),
        ensures
            final(self).wf(),
            final(self)@ == write_effect(old(self)@, addr@ as int, val),
            final(self).cartridge() == old(self).cartridge(),
            r == match write_fault(addr@) {
                Some(fault) => Err(fault),
                None => Ok::<(), MemoryAccessFault>(()),
            },
    {
        let idx = addr.get();
        if idx < ROM_END {
            return Err(MemoryAccessFault::RomWrite(idx));
        }
        if 0xFEA0 <= idx && idx <= 0xFEFF {
            return Err(MemoryAccessFault::UnusableWrite(idx));
        }
        self.ram.set(idx as usize, val);
        if 0xC000 <= idx && idx < 0xDE00 {
            self.ram.set((idx + ECHO_OFFSET) as usize, val);
        } else if 0xE000 <= idx && idx < 0xFE00 {
            self.ram.set((idx - ECHO_OFFSET) as usize, val);
        }
        proof {
            assert(self.ram@ =~= write_effect(old(self)@, addr@ as int, val));
        }
        Ok(())
    }
}

/// A write to working RAM 0xC000-0xDDFF is seen at its echo address 0x2000 higher, and a
/// write to the echo address is seen in working RAM.
pub proof fn lemma_echo_mirrors_working_ram(mem: Seq<u8>, w: int, x: u8)
    requires
        mem.len() == MEMORY_SIZE,
        0xC000 <= w < 0xDE00,
    ensures
        write_effect(mem, w, x)[w + 0x2000] == x,
        write_effect(mem, w + 0x2000, x)[w] == x,
{
}

/// A write into either ROM bank leaves the whole memory, and so the byte written to,
/// unchanged.
pub proof fn lemma_rom_write_is_dropped(mem: Seq<u8>, r: int, x: u8)
    requires
        mem.len() == MEMORY_SIZE,
        is_rom(r),
    ensures
        write_effect(mem, r, x) == mem,
        write_effect(mem, r, x)[r] == mem[r],
{
}

} // verus!
