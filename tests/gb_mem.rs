use bugboy::gb_mem::{decrement_16, increment_16, MemoryAccessFault, MemoryController, RamAddress};
use bugboy::gb_rom::GbRom;

fn memory_with(data: Vec<u8>) -> MemoryController {
    MemoryController::new(GbRom::new(data, String::from("TEST")))
}

#[test]
fn post_inc_test() {
    let mut ra = RamAddress::new(10);

    assert!(ra.get() == 10);
    let ra2 = ra.post_inc(1);
    assert!(ra2.get() == 10);
    assert!(ra.get() == 11);
}

#[test]
fn post_dec_test() {
    let mut ra = RamAddress::new(10);

    assert!(ra.get() == 10);
    let ra2 = ra.post_dec(1);
    assert!(ra2.get() == 10);
    assert!(ra.get() == 9)
}

#[test]
fn ram_address_wraps_both_ways() {
    let mut top = RamAddress::new(0xFFFF);
    assert_eq!(top.inc(1).get(), 0x0000);
    let mut bottom = RamAddress::new(0x0000);
    assert_eq!(bottom.dec(1).get(), 0xFFFF);
    let mut x = RamAddress::new(0x1234);
    x.set(0xBEEF);
    assert_eq!(x.get(), 0xBEEF);
    assert_eq!(x.inc(0x0011).get(), 0xBF00);
    assert_eq!(x.dec(0x0100).get(), 0xBE00);
}

#[test]
fn pair_increment_carries_into_high_byte() {
    let (mut h, mut l) = (0x00u8, 0xFFu8);
    increment_16(&mut h, &mut l);
    assert_eq!((h, l), (0x01, 0x00));
    let (mut h, mut l) = (0x12u8, 0x34u8);
    increment_16(&mut h, &mut l);
    assert_eq!((h, l), (0x12, 0x35));
    let (mut h, mut l) = (0xFFu8, 0xFFu8);
    increment_16(&mut h, &mut l);
    assert_eq!((h, l), (0x00, 0x00));
}

#[test]
fn pair_decrement_borrows_from_high_byte() {
    let (mut h, mut l) = (0x01u8, 0x00u8);
    decrement_16(&mut h, &mut l);
    assert_eq!((h, l), (0x00, 0xFF));
    let (mut h, mut l) = (0x00u8, 0x00u8);
    decrement_16(&mut h, &mut l);
    assert_eq!((h, l), (0xFF, 0xFF));
}

#[test]
fn memory_starts_with_rom_window() {
    let data: Vec<u8> = (0..0x9000u32).map(|i| (i % 251) as u8 + 1).collect();
    let mc = memory_with(data.clone());
    assert_eq!(mc.read(RamAddress::new(0x0000)), data[0]);
    assert_eq!(mc.read(RamAddress::new(0x0134)), data[0x134]);
    assert_eq!(mc.read(RamAddress::new(0x7FFF)), data[0x7FFF]);
    assert_eq!(mc.read(RamAddress::new(0x8000)), 0);
    assert_eq!(mc.read(RamAddress::new(0xFFFF)), 0);
    assert_eq!(mc.rom().len(), 0x9000);
}

#[test]
fn short_cartridge_leaves_rest_zero() {
    let mc = memory_with(vec![0xAB, 0xCD]);
    assert_eq!(mc.read(RamAddress::new(0x0000)), 0xAB);
    assert_eq!(mc.read(RamAddress::new(0x0001)), 0xCD);
    assert_eq!(mc.read(RamAddress::new(0x0002)), 0x00);
}

#[test]
fn working_ram_write_shows_in_echo() {
    let mut mc = memory_with(vec![]);
    for w in [0xC000u16, 0xC123, 0xDDFF] {
        assert_eq!(mc.write(RamAddress::new(w), 0x5A), Ok(()));
        assert_eq!(mc.read(RamAddress::new(w + 0x2000)), 0x5A);
        assert_eq!(mc.read(RamAddress::new(w)), 0x5A);
    }
}

#[test]
fn echo_write_shows_in_working_ram() {
    let mut mc = memory_with(vec![]);
    for e in [0xE000u16, 0xE456, 0xFDFF] {
        assert_eq!(mc.write(RamAddress::new(e), 0xA5), Ok(()));
        assert_eq!(mc.read(RamAddress::new(e - 0x2000)), 0xA5);
    }
}

#[test]
fn top_of_working_ram_has_no_echo() {
    let mut mc = memory_with(vec![]);
    assert_eq!(mc.write(RamAddress::new(0xDE00), 0x77), Ok(()));
    assert_eq!(mc.read(RamAddress::new(0xDE00)), 0x77);
    assert_eq!(mc.read(RamAddress::new(0xFE00)), 0x00);
}

#[test]
fn rom_write_is_refused() {
    let mut mc = memory_with(vec![0x11; 0x8000]);
    for r in [0x0000u16, 0x0150, 0x3FFF, 0x4000, 0x7FFF] {
        assert_eq!(mc.write(RamAddress::new(r), 0x99), Err(MemoryAccessFault::RomWrite(r)));
        assert_eq!(mc.read(RamAddress::new(r)), 0x11);
    }
}

#[test]
fn unusable_write_is_refused() {
    let mut mc = memory_with(vec![]);
    assert_eq!(
        mc.write(RamAddress::new(0xFEA0), 0x99),
        Err(MemoryAccessFault::UnusableWrite(0xFEA0))
    );
    assert_eq!(
        mc.write(RamAddress::new(0xFEFF), 0x99),
        Err(MemoryAccessFault::UnusableWrite(0xFEFF))
    );
    assert_eq!(mc.read(RamAddress::new(0xFEA0)), 0);
    assert_eq!(mc.read(RamAddress::new(0xFEFF)), 0);
}

#[test]
fn other_regions_take_plain_writes() {
    let mut mc = memory_with(vec![]);
    for a in [0x8000u16, 0x9FFF, 0xA000, 0xBFFF, 0xFE00, 0xFE9F, 0xFF00, 0xFF80, 0xFFFE, 0xFFFF] {
        assert_eq!(mc.write(RamAddress::new(a), 0x3C), Ok(()));
        assert_eq!(mc.read(RamAddress::new(a)), 0x3C);
    }
    assert_eq!(mc.read(RamAddress::new(0xDE00)), 0);
}

#[test]
fn rom_keeps_its_title() {
    let rom = GbRom::new(vec![1, 2, 3], String::from("TETRIS"));
    assert_eq!(rom.title(), "TETRIS");
    assert_eq!(rom.len(), 3);
    assert_eq!(rom.byte_at(2), 3);
}
