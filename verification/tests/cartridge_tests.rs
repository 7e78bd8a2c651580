use gbemu::cartridge::mbc::{Mbc, MbcKind};
use gbemu::cartridge::rtc::{adjust_reg, Mbc3Rtc};
use gbemu::cartridge::{cart_ram_banks, cart_rom_banks, Cartidge};
use gbemu::EmulatorErr;

fn rom_image(kind: u8, rom_code: u8, ram_code: u8) -> Vec<u8> {
    let banks = 2usize << rom_code;
    let mut rom = vec![0u8; banks * 0x4000];
    for bank in 0..banks {
        for i in 0..0x4000 {
            rom[bank * 0x4000 + i] = byte_at(bank, i);
        }
    }
    rom[0x143] = 0;
    rom[0x147] = kind;
    rom[0x148] = rom_code;
    rom[0x149] = ram_code;
    let title = b"TEST ROM\x00\x01\xC3\xA9";
    for (i, b) in title.iter().enumerate() {
        rom[0x134 + i] = *b;
    }
    for i in title.len()..15 {
        rom[0x134 + i] = 0;
    }
    rom
}

fn byte_at(bank: usize, offset: usize) -> u8 {
    ((bank * 7 + (bank >> 8) * 3 + offset) & 0xFF) as u8
}

fn load_err(rom: Vec<u8>) -> EmulatorErr {
    match Cartidge::new(rom) {
        Ok(_) => panic!("the image was accepted"),
        Err(e) => e,
    }
}

#[test]
fn rom_size_codes() {
    assert_eq!(cart_rom_banks(0), Ok(2));
    assert_eq!(cart_rom_banks(1), Ok(4));
    assert_eq!(cart_rom_banks(5), Ok(64));
    assert_eq!(cart_rom_banks(8), Ok(512));
    assert_eq!(cart_rom_banks(9), Err(EmulatorErr::UnknownRomSize));
    assert_eq!(cart_rom_banks(0x52), Err(EmulatorErr::UnknownRomSize));
}

#[test]
fn ram_size_codes() {
    assert_eq!(cart_ram_banks(0), Ok(0));
    assert_eq!(cart_ram_banks(1), Err(EmulatorErr::UnknownRamSize));
    assert_eq!(cart_ram_banks(2), Ok(1));
    assert_eq!(cart_ram_banks(3), Ok(4));
    assert_eq!(cart_ram_banks(4), Ok(16));
    assert_eq!(cart_ram_banks(5), Ok(8));
    assert_eq!(cart_ram_banks(6), Err(EmulatorErr::UnknownRamSize));
}

#[test]
fn images_are_refused_for_the_documented_reasons() {
    assert_eq!(load_err(Vec::new()), EmulatorErr::InvalidRomSize);
    assert_eq!(load_err(vec![0u8; 0x4001]), EmulatorErr::InvalidRomSize);
    assert_eq!(load_err(rom_image(0x04, 0, 0)), EmulatorErr::UnknownMBC);
    assert_eq!(load_err(rom_image(0x20, 0, 0)), EmulatorErr::NotImplemented);
    assert_eq!(load_err(rom_image(0x0B, 0, 0)), EmulatorErr::NotImplemented);
    assert_eq!(load_err(rom_image(0xFF, 0, 0)), EmulatorErr::NotImplemented);
    let mut bad_rom_code = rom_image(0, 0, 0);
    bad_rom_code[0x148] = 9;
    assert_eq!(load_err(bad_rom_code), EmulatorErr::UnknownRomSize);
    assert_eq!(load_err(rom_image(0, 0, 1)), EmulatorErr::UnknownRamSize);
    let mut colour_only = rom_image(0, 0, 0);
    colour_only[0x143] = 0xC0;
    assert_eq!(load_err(colour_only), EmulatorErr::NotImplemented);
    let mut mismatch = rom_image(0, 0, 0);
    mismatch[0x148] = 1;
    assert_eq!(load_err(mismatch), EmulatorErr::RomSizeMismatch);
}

#[test]
fn unknown_controller_is_reported_before_the_sizes() {
    let mut rom = rom_image(0x04, 0, 0);
    rom[0x148] = 9;
    rom[0x149] = 1;
    assert_eq!(load_err(rom), EmulatorErr::UnknownMBC);
}

#[test]
fn title_keeps_the_printable_characters() {
    let cart = Cartidge::new(rom_image(0, 0, 0)).unwrap();
    assert_eq!(cart.title, b"TEST ROM".to_vec());
    assert!(!cart.is_cgb);
    assert!(cart.check());
}

#[test]
fn colour_compatible_image_runs_as_monochrome() {
    let mut rom = rom_image(0, 0, 0);
    rom[0x143] = 0x80;
    let cart = Cartidge::new(rom).unwrap();
    assert!(!cart.is_cgb);
}

#[test]
fn plain_cartridge_maps_both_banks_and_ignores_writes() {
    let mut cart = Cartidge::new(rom_image(0, 0, 0)).unwrap();
    assert_eq!(cart.mbc.kind.name(), "None");
    assert_eq!(cart.read(0x0000), byte_at(0, 0));
    assert_eq!(cart.read(0x0150), byte_at(0, 0x150));
    assert_eq!(cart.read(0x4000), byte_at(1, 0));
    assert_eq!(cart.read(0x7FFF), byte_at(1, 0x3FFF));
    cart.write(0x2000, 0);
    cart.write(0x0000, 0x0A);
    assert_eq!(cart.read(0x4000), byte_at(1, 0));
    assert_eq!(cart.read(0xA000), 0xFF);
    assert_eq!(cart.read(0x8000), 0xFF);
}

#[test]
fn mbc1_without_ram_reads_ff() {
    let mut cart = Cartidge::new(rom_image(0x01, 1, 0)).unwrap();
    assert_eq!(cart.mbc.kind.name(), "MBC1");
    assert_eq!(cart.rom.len(), 4 * 0x4000);
    assert_eq!(cart.ram.len(), 0);
    cart.write(0x1000, 0x0A);
    assert!(cart.mbc.ram_enabled);
    assert_eq!(cart.read(0xA000), 0xFF);
    cart.write(0xA000, 0x55);
    assert_eq!(cart.read(0xA000), 0xFF);
    assert_eq!(cart.read(0xBFFF), 0xFF);
}

#[test]
fn mbc1_selects_rom_banks() {
    let mut cart = Cartidge::new(rom_image(0x01, 5, 0)).unwrap();
    assert_eq!(cart.read(0x4000), byte_at(1, 0));
    cart.write(0x2000, 0x05);
    assert_eq!(cart.read(0x4000), byte_at(5, 0));
    assert_eq!(cart.read(0x4123), byte_at(5, 0x123));
    cart.write(0x2000, 0x00);
    assert_eq!(cart.read(0x4000), byte_at(1, 0));
    cart.write(0x2000, 0xE7);
    assert_eq!(cart.read(0x4000), byte_at(7, 0));
    cart.write(0x4000, 0x01);
    assert_eq!(cart.read(0x4000), byte_at(0x27, 0));
    assert_eq!(cart.read(0x0000), byte_at(0, 0));
    cart.write(0x6000, 0x01);
    assert_eq!(cart.read(0x0000), byte_at(0x20, 0));
    assert_eq!(cart.read(0x3FFF), byte_at(0x20, 0x3FFF));
    cart.write(0x6000, 0x00);
    assert_eq!(cart.read(0x0000), byte_at(0, 0));
}

#[test]
fn mbc1_bank_numbers_wrap_around_the_rom() {
    let mut cart = Cartidge::new(rom_image(0x01, 1, 0)).unwrap();
    cart.write(0x2000, 0x06);
    assert_eq!(cart.read(0x4000), byte_at(2, 0));
    cart.write(0x4000, 0x03);
    assert_eq!(cart.read(0x4000), byte_at((6 + 0x60) % 4, 0));
    cart.write(0x6000, 1);
    assert_eq!(cart.read(0x0000), 0xFF);
}

#[test]
fn mbc1_ram_needs_enabling_and_banks_in_mode_one() {
    let mut cart = Cartidge::new(rom_image(0x03, 0, 3)).unwrap();
    assert_eq!(cart.ram.len(), 4 * 0x2000);
    cart.write(0xA000, 0x11);
    assert_eq!(cart.read(0xA000), 0);
    cart.write(0x0000, 0x0A);
    cart.write(0xA000, 0x11);
    assert_eq!(cart.read(0xA000), 0x11);
    cart.write(0x4000, 2);
    assert_eq!(cart.read(0xA000), 0x11);
    cart.write(0x6000, 1);
    assert_eq!(cart.read(0xA000), 0);
    cart.write(0xA000, 0x22);
    assert_eq!(cart.ram[2 * 0x2000], 0x22);
    cart.write(0x6000, 0);
    assert_eq!(cart.read(0xA000), 0x11);
    cart.write(0x0000, 0x1B);
    cart.write(0xA000, 0x33);
    assert_eq!(cart.read(0xA000), 0x11);
}

#[test]
fn mbc2_decodes_address_bit_eight_and_keeps_nibbles() {
    let mut cart = Cartidge::new(rom_image(0x05, 2, 0)).unwrap();
    assert_eq!(cart.mbc.kind.name(), "MBC2");
    assert_eq!(cart.ram.len(), 512);
    cart.write(0x0100, 0x03);
    assert_eq!(cart.read(0x4000), byte_at(3, 0));
    assert!(!cart.mbc.ram_enabled);
    cart.write(0x0000, 0x0A);
    assert!(cart.mbc.ram_enabled);
    assert_eq!(cart.read(0x4000), byte_at(3, 0));
    cart.write(0x2100, 0x00);
    assert_eq!(cart.read(0x4000), byte_at(1, 0));
    cart.write(0x0200, 0x00);
    assert!(!cart.mbc.ram_enabled);
    cart.write(0x3E00, 0x0A);
    assert!(cart.mbc.ram_enabled);
    cart.write(0x4100, 0x05);
    assert_eq!(cart.read(0x4000), byte_at(1, 0));
    cart.write(0xA005, 0xAB);
    assert_eq!(cart.read(0xA005), 0xFB);
    assert_eq!(cart.read(0xA205), 0xFB);
    assert_eq!(cart.read(0xA006), 0xF0);
}

#[test]
fn mbc3_switches_banks_and_maps_the_clock() {
    let mut cart = Cartidge::new(rom_image(0x10, 3, 3)).unwrap();
    assert_eq!(cart.mbc.kind.name(), "MBC3");
    cart.write(0x2000, 0x00);
    assert_eq!(cart.read(0x4000), byte_at(1, 0));
    cart.write(0x2000, 0x0F);
    assert_eq!(cart.read(0x4000), byte_at(15, 0));
    cart.write(0x0000, 0x0A);
    cart.write(0x4000, 0x01);
    cart.write(0xA010, 0x77);
    assert_eq!(cart.ram[0x2010], 0x77);
    cart.write(0x4000, 0x08);
    cart.write(0xA000, 0x3B);
    assert_eq!(cart.read(0xA000), 0x3B);
    assert_eq!(cart.read(0xBFFF), 0x3B);
    assert_eq!(cart.mbc.rtc.sec, 0x3B);
    cart.write(0x4000, 0x0A);
    cart.write(0xA000, 0xFF);
    assert_eq!(cart.read(0xA000), 0x1F);
    cart.write(0x4000, 0x05);
    assert_eq!(cart.read(0xA000), 0xFF);
    cart.write(0x4000, 0x01);
    assert_eq!(cart.read(0xA010), 0x77);
}

#[test]
fn mbc3_latch_freezes_what_is_read() {
    let mut cart = Cartidge::new(rom_image(0x0F, 0, 0)).unwrap();
    cart.write(0x0000, 0x0A);
    cart.write(0x4000, 0x08);
    cart.write(0xA000, 10);
    cart.write(0x6000, 0);
    cart.write(0x6000, 1);
    cart.tick(4194304 * 3);
    assert_eq!(cart.mbc.rtc.sec, 13);
    assert_eq!(cart.read(0xA000), 10);
    cart.write(0x6000, 2);
    assert_eq!(cart.read(0xA000), 10);
    cart.write(0x6000, 0);
    assert_eq!(cart.read(0xA000), 13);
}

#[test]
fn mbc5_accepts_bank_zero_and_nine_bit_banks() {
    let mut cart = Cartidge::new(rom_image(0x19, 8, 2)).unwrap();
    assert_eq!(cart.mbc.kind.name(), "MBC5");
    assert_eq!(cart.read(0x4000), byte_at(1, 0));
    cart.write(0x2000, 0x00);
    assert_eq!(cart.read(0x4000), byte_at(0, 0));
    cart.write(0x2000, 0x34);
    assert_eq!(cart.read(0x4001), byte_at(0x34, 1));
    cart.write(0x3000, 0x01);
    assert_eq!(cart.read(0x4001), byte_at(0x134, 1));
    cart.write(0x3000, 0xFE);
    assert_eq!(cart.read(0x4001), byte_at(0x34, 1));
    cart.write(0x0000, 0x0A);
    cart.write(0xA123, 0x5A);
    assert_eq!(cart.read(0xA123), 0x5A);
    cart.write(0x4000, 0x01);
    assert_eq!(cart.read(0xA123), 0xFF);
}

#[test]
fn mbc5_with_rumble_has_three_ram_bank_bits() {
    let mut plain = Mbc::new(0x19, 2).unwrap();
    plain.write(0x4000, 0x0F);
    assert_eq!(plain.ram_addr(0xA000), 15 * 0x2000);
    let mut rumble = Mbc::new(0x1C, 2).unwrap();
    rumble.write(0x4000, 0x0F);
    assert_eq!(rumble.ram_addr(0xA000), 7 * 0x2000);
    assert!(rumble.check());
}

#[test]
fn controller_types_by_header_byte() {
    assert_eq!(Mbc::new(0x00, 2).unwrap().kind, MbcKind::NoMbc);
    assert_eq!(Mbc::new(0x08, 2).unwrap().kind, MbcKind::NoMbc);
    assert_eq!(
        Mbc::new(0x02, 2).unwrap().kind,
        MbcKind::Mbc1 { rom_bank_lo: 1, rom_bank_hi: 0, bank_mode: false }
    );
    assert_eq!(Mbc::new(0x06, 2).unwrap().kind, MbcKind::Mbc2 { rom_bank: 1 });
    assert_eq!(Mbc::new(0x13, 2).unwrap().kind, MbcKind::Mbc3 { rom_bank: 1, ram_rtc_bank: 0 });
    assert_eq!(Mbc::new(0x22, 2).err(), Some(EmulatorErr::NotImplemented));
    assert_eq!(Mbc::new(0xFE, 2).err(), Some(EmulatorErr::NotImplemented));
    assert_eq!(Mbc::new(0x14, 2).err(), Some(EmulatorErr::UnknownMBC));
    assert_eq!(Mbc::new(0x0E, 2).err(), Some(EmulatorErr::UnknownMBC));
}

#[test]
fn mbc1_offsets_follow_the_formula() {
    for banks in [2usize, 4, 64, 128] {
        let mut mbc = Mbc::new(0x01, banks).unwrap();
        for hi in 0..4u8 {
            for lo in 0..32u8 {
                for mode in 0..2u8 {
                    mbc.write(0x2000, lo);
                    mbc.write(0x4000, hi);
                    mbc.write(0x6000, mode);
                    let lo_eff = if lo == 0 { 1 } else { lo as usize };
                    let bank = (lo_eff | ((hi as usize) << 5)) % banks;
                    assert_eq!(mbc.rom1_addr(0x4000), bank * 0x4000);
                    assert_eq!(mbc.rom1_addr(0x7FFF), bank * 0x4000 + 0x3FFF);
                    let rom0 = if mode == 0 { 0 } else { ((hi as usize) << 5) * 0x4000 };
                    assert_eq!(mbc.rom0_addr(0x0000), rom0);
                    let ram = if mode == 0 { 0 } else { hi as usize * 0x2000 };
                    assert_eq!(mbc.ram_addr(0xA000), ram);
                }
            }
        }
    }
}

#[test]
fn rtc_rolls_over_seconds_minutes_and_hours() {
    let mut rtc = Mbc3Rtc::new();
    rtc.write(0x8, 59);
    rtc.write(0x9, 59);
    rtc.write(0xA, 23);
    rtc.write(0xB, 255);
    rtc.tick(4194304);
    assert_eq!((rtc.sec, rtc.min, rtc.hr, rtc.day), (0, 0, 0, 0));
    assert!(rtc.ctrl.day);
    assert!(!rtc.ctrl.overflow);
    assert_eq!(rtc.read(0xC), 0x01);
}

#[test]
fn rtc_counts_real_seconds_from_dots() {
    let mut rtc = Mbc3Rtc::new();
    rtc.tick(4194303);
    assert_eq!(rtc.sec, 0);
    rtc.tick(1);
    assert_eq!(rtc.sec, 1);
    rtc.tick(4194304 * 61);
    assert_eq!((rtc.sec, rtc.min), (2, 1));
}

#[test]
fn rtc_days_stop_at_511_and_flag_the_overflow() {
    let mut rtc = Mbc3Rtc::new();
    rtc.write(0x8, 59);
    rtc.write(0x9, 59);
    rtc.write(0xA, 23);
    rtc.write(0xB, 255);
    rtc.write(0xC, 0x01);
    rtc.tick(4194304);
    assert_eq!((rtc.sec, rtc.min, rtc.hr, rtc.day), (0, 0, 0, 255));
    assert!(rtc.ctrl.day);
    assert!(rtc.ctrl.overflow);
    assert_eq!(rtc.read(0xC), 0x81);
    rtc.write(0xC, 0x01);
    assert!(!rtc.ctrl.overflow);
}

#[test]
fn rtc_halt_stops_the_clock() {
    let mut rtc = Mbc3Rtc::new();
    rtc.write(0xC, 0x40);
    rtc.tick(4194304 * 5);
    assert_eq!(rtc.sec, 0);
    rtc.write(0xC, 0x00);
    rtc.tick(4194304 * 5);
    assert_eq!(rtc.sec, 5);
}

#[test]
fn rtc_writes_are_masked_to_the_register_widths() {
    let mut rtc = Mbc3Rtc::new();
    rtc.write(0x8, 0xFF);
    rtc.write(0x9, 0xC1);
    rtc.write(0xA, 0xF0);
    rtc.write(0xC, 0xFF);
    assert_eq!((rtc.sec, rtc.min, rtc.hr), (63, 1, 16));
    assert_eq!(rtc.read(0xC), 0xC1);
    assert_eq!(rtc.read(0x7), 0xFF);
    assert_eq!(rtc.read(0xD), 0xFF);
    rtc.write(0xD, 3);
    assert_eq!(rtc.read(0x8), 63);
}

#[test]
fn rtc_register_beyond_its_range_counts_up_without_carry() {
    assert_eq!(adjust_reg(59, 59, 64, true), (0, true));
    assert_eq!(adjust_reg(58, 59, 64, true), (59, false));
    assert_eq!(adjust_reg(61, 59, 64, true), (62, false));
    assert_eq!(adjust_reg(63, 59, 64, true), (0, false));
    assert_eq!(adjust_reg(0xFF, 59, 64, false), (63, false));
    assert_eq!(adjust_reg(23, 23, 32, true), (0, true));
    assert_eq!(adjust_reg(31, 23, 32, true), (0, false));
}
