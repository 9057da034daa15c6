use gbcore::cartridge::mbc0::MBC0;
use gbcore::cartridge::mbc1::MBC1;
use gbcore::cartridge::mbc2::MBC2;
use gbcore::cartridge::mbc3::{RTCRegister, MBC3};
use gbcore::cartridge::{get_mbc, get_ram_size, logo_bytes, title, LoadError, MBC};
use gbcore::cpu::{Mem, CPU};
use gbcore::mmu::MMU;
use gbcore::timer::Timer;

fn image(kind: u8, ram_code: u8, banks: usize) -> Vec<u8> {
    let mut data = vec![0u8; banks * 0x4000];
    for (i, b) in logo_bytes().iter().enumerate() {
        data[0x104 + i] = *b;
    }
    data[0x147] = kind;
    data[0x149] = ram_code;
    for bank in 0..banks {
        data[bank * 0x4000] = bank as u8;
    }
    data
}

#[test]
fn ram_size_codes() {
    assert_eq!(get_ram_size(0x00), 0);
    assert_eq!(get_ram_size(0x01), 0);
    assert_eq!(get_ram_size(0x02), 0x2000);
    assert_eq!(get_ram_size(0x03), 0x8000);
    assert_eq!(get_ram_size(0x04), 0x20000);
    assert_eq!(get_ram_size(0x05), 0x4000);
}

#[test]
fn load_errors() {
    assert!(matches!(get_mbc(vec![0; 0x147]), Err(LoadError::TooSmall)));
    assert!(matches!(get_mbc(vec![0; 0x8000]), Err(LoadError::BadLogo)));
    assert!(matches!(get_mbc(image(0x0f, 0, 2)), Err(LoadError::Unsupported(0x0f))));
    assert!(matches!(get_mbc(image(0x04, 0, 2)), Err(LoadError::Unsupported(0x04))));
    assert!(matches!(CPU::new(vec![1, 2, 3]), Err(LoadError::TooSmall)));
}

#[test]
fn load_picks_the_controller() {
    assert!(matches!(get_mbc(image(0x00, 0, 2)), Ok(MBC::Plain(_))));
    assert!(matches!(get_mbc(image(0x01, 0, 2)), Ok(MBC::Combo(_))));
    assert!(matches!(get_mbc(image(0x03, 2, 2)), Ok(MBC::Combo(_))));
    assert!(matches!(get_mbc(image(0x05, 0, 2)), Ok(MBC::RamOnly(_))));
    assert!(MMU::new(image(0x00, 0, 2)).is_ok());
    let cpu = CPU::new(image(0x01, 0, 4)).ok().unwrap();
    assert_eq!(cpu.mem_read_u8(0x4000), Ok(1));
}

#[test]
fn plain_rom_reads() {
    let m = MBC0::new(vec![7, 8, 9]).ok().unwrap();
    assert_eq!(m.read_rom(1), 8);
    assert_eq!(m.read_rom(0x7fff), 0);
    assert_eq!(m.read_ram(0xa000), 0);
}

#[test]
fn combo_bank_select() {
    let mut m = MBC1::new(image(0x01, 0, 8)).ok().unwrap();
    assert_eq!(m.read_rom(0x4000), 1);
    m.write_rom(0x2000, 0x00);
    assert_eq!(m.rom_bank_idx, 1);
    assert_eq!(m.read_rom(0x4000), 1);
    m.write_rom(0x3fff, 0x05);
    assert_eq!(m.rom_bank_idx, 5);
    assert_eq!(m.read_rom(0x4000), 5);
    assert_eq!(m.read_rom(0x0000), 0);
    m.write_rom(0x2000, 0x20);
    assert_eq!(m.rom_bank_idx, 1);
}

#[test]
fn combo_upper_bits_and_out_of_range() {
    let mut m = MBC1::new(image(0x01, 0, 4)).ok().unwrap();
    m.write_rom(0x4000, 0x01);
    assert_eq!(m.rom_bank_idx, 0x21);
    // bank 0x21 lies past a four-bank image: reads give 0
    assert_eq!(m.read_rom(0x4000), 0);
}

#[test]
fn combo_ram_gate() {
    let mut m = MBC1::new(image(0x03, 0x04, 2)).ok().unwrap();
    assert!(m.battery);
    assert_eq!(m.ram.len(), 0x20000);
    m.write_ram(0xa000, 0x42);
    assert_eq!(m.read_ram(0xa000), 0);
    m.write_rom(0x0000, 0x0b);
    m.write_ram(0xa000, 0x42);
    assert_eq!(m.read_ram(0xa000), 0);
    assert!(m.ram.iter().all(|b| *b == 0));
    m.write_rom(0x1fff, 0x0a);
    m.write_ram(0xa000, 0x42);
    assert_eq!(m.read_ram(0xa000), 0x42);
    // offset = bank * 0x2000 + (addr - 0x2000)
    assert_eq!(m.ram[0x8000], 0x42);
    m.write_rom(0x0000, 0x00);
    assert_eq!(m.read_ram(0xa000), 0);
}

#[test]
fn combo_ram_offset_past_end_is_dropped() {
    let mut m = MBC1::new(image(0x03, 0x03, 2)).ok().unwrap();
    assert_eq!(m.ram.len(), 0x8000);
    m.write_rom(0x0000, 0x0a);
    m.write_ram(0xa000, 0x42);
    assert!(m.ram.iter().all(|b| *b == 0));
    assert_eq!(m.read_ram(0xa000), 0);
}

#[test]
fn combo_ram_banks_follow_mode() {
    let mut m = MBC1::new(image(0x03, 0x04, 2)).ok().unwrap();
    m.write_rom(0x0000, 0x0a);
    m.write_rom(0x6000, 0x01);
    m.write_rom(0x4000, 0x02);
    m.write_ram(0xa001, 0x77);
    assert_eq!(m.ram[2 * 0x2000 + 0x8001], 0x77);
    assert_eq!(m.read_ram(0xa001), 0x77);
    m.write_rom(0x6000, 0x00);
    assert_eq!(m.read_ram(0xa001), 0);
}

#[test]
fn ram_only_controller() {
    let mut m = MBC2::new(image(0x06, 0, 4)).ok().unwrap();
    assert!(m.battery);
    m.write_rom(0x0100, 0x03);
    assert_eq!(m.rom_bank_idx, 3);
    assert_eq!(m.read_rom(0x4000), 3);
    m.write_rom(0x0100, 0x00);
    assert_eq!(m.rom_bank_idx, 1);
    m.write_ram(0xa000, 0xff);
    assert_eq!(m.read_ram(0xa000), 0);
    m.write_rom(0x0000, 0x1a);
    m.write_ram(0xa005, 0xab);
    assert_eq!(m.read_ram(0xa005), 0x0b);
    assert_eq!(m.read_ram(0xa205), 0x0b);
}

#[test]
fn clock_controller_latches() {
    let mut m = MBC3::new(image(0x10, 0x02, 2)).ok().unwrap();
    assert!(m.battery);
    m.write_rom(0x0000, 0x0a);
    m.write_rom(0x4000, 0x08);
    m.write_ram(0xa000, 30);
    assert_eq!(m.rtc_reg.sec, 30);
    assert_eq!(m.read_ram(0xa000), 0);
    m.write_rom(0x6000, 0x01);
    assert_eq!(m.read_ram(0xa000), 30);
    m.write_rom(0x4000, 0x00);
    m.write_ram(0xa010, 5);
    assert_eq!(m.read_ram(0xa010), 5);
    m.write_rom(0x2000, 0x00);
    assert_eq!(m.rom_bank_idx, 1);
}

#[test]
fn clock_register_copy() {
    let mut a = RTCRegister::new();
    let b = RTCRegister { sec: 1, min: 2, hour: 3, day_low: 4, day_high: 5 };
    a.copy_from(&b);
    assert_eq!(a, b);
}

#[test]
fn save_ram_round_trip() {
    let mut mbc = get_mbc(image(0x03, 0x02, 2)).ok().unwrap();
    assert!(mbc.has_battery());
    mbc.load_ram(&vec![1, 2, 3]);
    let saved = mbc.ram_bytes();
    assert_eq!(saved.len(), 0x2000);
    assert_eq!(&saved[..4], &[1, 2, 3, 0]);
}

#[test]
fn timer_counts() {
    let mut t = Timer::new();
    t.execute_cycle(255);
    assert_eq!(t.divider, 0);
    t.execute_cycle(1);
    assert_eq!(t.divider, 1);
    t.mem_write_u8(0xff06, 0xf0);
    t.mem_write_u8(0xff05, 0xfe);
    t.mem_write_u8(0xff07, 0b101);
    assert_eq!(t.mem_read_u8(0xff07), 0b101);
    t.execute_cycle(16);
    assert_eq!(t.mem_read_u8(0xff05), 0xff);
    assert_eq!(t.interrupt, 0);
    t.execute_cycle(20);
    assert_eq!(t.mem_read_u8(0xff05), 0xf0);
    assert_eq!(t.interrupt, 0b100);
    t.mem_write_u8(0xff07, 0);
    t.execute_cycle(5000);
    assert_eq!(t.mem_read_u8(0xff05), 0xf0);
}

#[test]
fn memory_map_regions() {
    let mut mmu = MMU::new(image(0x00, 0, 2)).ok().unwrap();
    mmu.mem_write_u8(0x8000, 1);
    mmu.mem_write_u8(0xc000, 2);
    mmu.mem_write_u8(0xd000, 3);
    mmu.mem_write_u8(0xfe00, 4);
    mmu.mem_write_u8(0xff80, 5);
    mmu.mem_write_u8(0xffff, 6);
    assert_eq!(mmu.mem_read_u8(0x8000), 1);
    assert_eq!(mmu.mem_read_u8(0xc000), 2);
    assert_eq!(mmu.mem_read_u8(0xd000), 3);
    assert_eq!(mmu.mem_read_u8(0xfe00), 4);
    assert_eq!(mmu.mem_read_u8(0xff80), 5);
    assert_eq!(mmu.mem_read_u8(0xffff), 6);
    mmu.mem_write_u8(0xff70, 2);
    assert_eq!(mmu.mem_read_u8(0xff70), 2);
    assert_eq!(mmu.mem_read_u8(0xd000), 0);
    mmu.mem_write_u8(0xff70, 0);
    assert_eq!(mmu.mem_read_u8(0xff70), 1);
    assert_eq!(mmu.mem_read_u8(0xd000), 3);
    mmu.mem_write_u8(0xff04, 9);
    assert_eq!(mmu.mem_read_u8(0xff04), 9);
}

#[test]
fn memory_words_through_the_map() {
    let mut mmu = MMU::new(image(0x00, 0, 2)).ok().unwrap();
    mmu.mem_write_u16(0xff90, 0x1234);
    assert_eq!(mmu.mem_read_u8(0xff90), 0x34);
    assert_eq!(mmu.mem_read_u8(0xff91), 0x12);
    assert_eq!(mmu.mem_read_u16(0xff90), 0x1234);
}

#[test]
fn header_title() {
    let mut data = image(0x00, 0, 2);
    for (i, b) in b"TETRIS".iter().enumerate() {
        data[0x134 + i] = *b;
    }
    let t = title(&data);
    assert_eq!(t.len(), 15);
    assert_eq!(&t[..6], b"TETRIS");
    assert_eq!(t[6], 0);
    assert!(title(&vec![0; 0x140]).is_empty());
}

#[test]
fn flush_only_battery_ram() {
    assert!(get_mbc(image(0x01, 0x02, 2)).ok().unwrap().flush().is_none());
    let saved = get_mbc(image(0x03, 0x02, 2)).ok().unwrap().flush().unwrap();
    assert_eq!(saved.len(), 0x2000);
}

#[test]
fn fresh_memory_map_reads_zero() {
    let mmu = MMU::new(image(0x00, 0, 2)).ok().unwrap();
    for a in [0xc000u16, 0xcfff, 0xd000, 0xdfff, 0xff80, 0xfffe, 0xff04, 0xff05, 0xff06, 0xff07, 0xffff] {
        assert_eq!(mmu.mem_read_u8(a), 0);
    }
    assert_eq!(mmu.mem_read_u8(0xff70), 1);
}
