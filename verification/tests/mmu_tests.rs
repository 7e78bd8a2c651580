use gbemu::cartridge::Cartidge;
use gbemu::mmu::{get_echo_ram_addr, is_cart_addr, Mmu};
use gbemu::msg::ButtonState;
use gbemu::regs::TimerCtrl;

fn rom_image(kind: u8, rom_code: u8, ram_code: u8) -> Vec<u8> {
    let banks = 2usize << rom_code;
    let mut rom = vec![0u8; banks * 0x4000];
    for (i, b) in rom.iter_mut().enumerate() {
        *b = (i % 251) as u8;
    }
    rom[0x143] = 0;
    rom[0x147] = kind;
    rom[0x148] = rom_code;
    rom[0x149] = ram_code;
    rom
}

fn mmu() -> Mmu {
    Mmu::new(Cartidge::new(rom_image(0x03, 0, 2)).unwrap())
}

#[test]
fn address_ranges() {
    assert!(is_cart_addr(0x0000));
    assert!(is_cart_addr(0x7FFF));
    assert!(!is_cart_addr(0x8000));
    assert!(!is_cart_addr(0x9FFF));
    assert!(is_cart_addr(0xA000));
    assert!(is_cart_addr(0xBFFF));
    assert!(!is_cart_addr(0xC000));
    assert_eq!(get_echo_ram_addr(0x0000), 0xC000);
    assert_eq!(get_echo_ram_addr(0x1DFF), 0xDDFF);
}

#[test]
fn memory_regions_hold_what_is_written() {
    let mut m = mmu();
    assert!(m.check());
    m.write(0x8000, 0x11);
    m.write(0x9FFF, 0x12);
    m.write(0xC000, 0x21);
    m.write(0xCFFF, 0x22);
    m.write(0xD000, 0x31);
    m.write(0xDFFF, 0x32);
    m.write(0xFE00, 0x41);
    m.write(0xFE9F, 0x42);
    m.write(0xFF80, 0x51);
    m.write(0xFFFE, 0x52);
    m.write(0xFF30, 0x61);
    m.write(0xFF3F, 0x62);
    let read: Vec<u8> = [
        0x8000u16, 0x9FFF, 0xC000, 0xCFFF, 0xD000, 0xDFFF, 0xFE00, 0xFE9F, 0xFF80, 0xFFFE, 0xFF30,
        0xFF3F,
    ]
    .iter()
    .map(|a| m.read(*a))
    .collect();
    assert_eq!(
        read,
        vec![0x11, 0x12, 0x21, 0x22, 0x31, 0x32, 0x41, 0x42, 0x51, 0x52, 0x61, 0x62]
    );
    assert_eq!(m.wram[0], 0x21);
    assert_eq!(m.wram[0x1000], 0x31);
    assert_eq!(m.hram[0x7E], 0x52);
    assert_eq!(m.ppu.fetcher.vram[0x1FFF], 0x12);
    assert!(m.check());
}

#[test]
fn rom_is_read_only() {
    let mut m = mmu();
    assert_eq!(m.read(0x0150), (0x150 % 251) as u8);
    m.write(0x0150, 0xEE);
    assert_eq!(m.read(0x0150), (0x150 % 251) as u8);
    assert_eq!(m.read(0x4000), (0x4000 % 251) as u8);
}

#[test]
fn echo_ram_mirrors_work_ram() {
    let mut m = mmu();
    m.write(0xC123, 0x77);
    assert_eq!(m.read(0xE123), 0x77);
    m.write(0xF000, 0x88);
    assert_eq!(m.read(0xD000), 0x88);
    m.write(0xFDFF, 0x99);
    assert_eq!(m.read(0xDDFF), 0x99);
}

#[test]
fn unusable_range_reads_zero() {
    let mut m = mmu();
    m.write(0xFEA0, 0x55);
    m.write(0xFEFF, 0x55);
    assert_eq!(m.read(0xFEA0), 0);
    assert_eq!(m.read(0xFEFF), 0);
}

#[test]
fn interrupt_registers_have_five_bits() {
    let mut m = mmu();
    m.write(0xFF0F, 0xFF);
    m.write(0xFFFF, 0xF5);
    assert_eq!(m.read(0xFF0F), 0x1F);
    assert_eq!(m.read(0xFFFF), 0x15);
    m.write(0xFF0F, 0x00);
    assert_eq!(m.read(0xFF0F), 0x00);
}

#[test]
fn writing_div_clears_it_and_takes_the_edges() {
    let mut m = mmu();
    m.timer.tac = TimerCtrl::new(0x04);
    m.tick(0x07FF);
    assert_eq!(m.read(0xFF04), 0x1F);
    let tima = m.read(0xFF05);
    m.write(0xFF04, 0xAB);
    assert_eq!(m.read(0xFF04), 0);
    m.tick(1);
    assert_eq!(m.read(0xFF04), 0);
    assert_eq!(m.read(0xFF05), tima + 1);
    assert_eq!(m.timer.apu_ticks, 1);
}

#[test]
fn timer_overflow_requests_the_interrupt() {
    let mut m = mmu();
    m.write(0xFF06, 0xF0);
    m.write(0xFF05, 0xFF);
    m.write(0xFF07, 0x05);
    m.tick(4);
    assert_eq!(m.read(0xFF0F) & 0x04, 0);
    m.tick(1);
    assert_eq!(m.read(0xFF0F) & 0x04, 0x04);
    assert_eq!(m.read(0xFF05), 0xF0);
    assert_eq!(m.read(0xFF07), 0x05);
}

#[test]
fn serial_transfer_requests_the_interrupt() {
    let mut m = mmu();
    m.serial.debug_serial = true;
    m.write(0xFF01, b'Z');
    m.write(0xFF02, 0x81);
    m.tick(1);
    m.tick(8 * 128 - 1);
    assert_eq!(m.read(0xFF0F) & 0x08, 0);
    assert_eq!(m.read(0xFF02), 0x81);
    m.tick(1);
    assert_eq!(m.read(0xFF0F) & 0x08, 0x08);
    assert_eq!(m.read(0xFF01), 0xFF);
    assert_eq!(m.read(0xFF02), 0x01);
    assert_eq!(m.take_serial_output(), vec![b'Z']);
    assert!(m.take_serial_output().is_empty());
}

#[test]
fn joypad_shows_the_selected_group() {
    let mut m = mmu();
    let (dpad, btns) = ButtonState { a: true, down: true, ..ButtonState::default() }.to_internal_repr();
    m.write(0xFF00, 0x30);
    m.update_joypad(dpad, btns);
    assert_eq!(m.read(0xFF00), 0x3F);
    assert_eq!(m.read(0xFF0F) & 0x10, 0);
    m.write(0xFF00, 0x20);
    assert_eq!(m.read(0xFF00), 0x20 | 0x07);
    assert_eq!(m.read(0xFF0F) & 0x10, 0x10);
    m.write(0xFF0F, 0);
    m.write(0xFF00, 0x10);
    assert_eq!(m.read(0xFF00), 0x10 | 0x0E);
    assert_eq!(m.read(0xFF0F) & 0x10, 0x10);
    m.write(0xFF0F, 0);
    m.write(0xFF00, 0x0F);
    assert_eq!(m.read(0xFF00), 0x06);
    assert_eq!(m.read(0xFF0F) & 0x10, 0x10);
    m.write(0xFF0F, 0);
    m.write(0xFF00, 0x0F);
    assert_eq!(m.read(0xFF00), 0x06);
    assert_eq!(m.read(0xFF0F) & 0x10, 0);
}

#[test]
fn joypad_interrupt_needs_a_falling_line() {
    let mut m = mmu();
    m.write(0xFF00, 0x10);
    let released = ButtonState::default().to_internal_repr();
    m.update_joypad(released.0, released.1);
    m.write(0xFF0F, 0);
    let (dpad, btns) = ButtonState { start: true, ..ButtonState::default() }.to_internal_repr();
    m.update_joypad(dpad, btns);
    assert_eq!(m.read(0xFF00) & 0x0F, 0x07);
    assert_eq!(m.read(0xFF0F) & 0x10, 0x10);
    m.write(0xFF0F, 0);
    m.update_joypad(dpad, btns);
    assert_eq!(m.read(0xFF0F) & 0x10, 0);
    m.update_joypad(released.0, released.1);
    assert_eq!(m.read(0xFF00) & 0x0F, 0x0F);
    assert_eq!(m.read(0xFF0F) & 0x10, 0);
}

#[test]
fn oam_dma_copies_160_bytes() {
    let mut m = mmu();
    for i in 0..160u16 {
        m.write(0xC100 + i, (i as u8) ^ 0x5A);
    }
    m.write(0xFF46, 0xC1);
    for i in 0..160u16 {
        assert_eq!(m.read(0xFE00 + i), (i as u8) ^ 0x5A);
    }
    assert_eq!(m.read(0xFF46), 0xC1);
    m.write(0xFF46, 0xE0);
    for i in 0..160u16 {
        assert_eq!(m.read(0xFE00 + i), (i as usize % 251) as u8);
    }
    assert_eq!(m.read(0xFF46), 0xE0);
}

#[test]
fn palette_memory_is_written_through_the_index() {
    let mut m = mmu();
    m.write(0xFF68, 0x80 | 0x3E);
    m.write(0xFF69, 0x11);
    m.write(0xFF69, 0x22);
    m.write(0xFF69, 0x33);
    assert_eq!(m.ppu.bg_palette[0x3E], 0x11);
    assert_eq!(m.ppu.bg_palette[0x3F], 0x22);
    assert_eq!(m.ppu.bg_palette[0x00], 0x33);
    assert_eq!(m.read(0xFF68), 0x80 | 0x01);
    m.write(0xFF6A, 0x05);
    m.write(0xFF6B, 0x44);
    m.write(0xFF6B, 0x55);
    assert_eq!(m.ppu.obj_palette[5], 0x55);
    assert_eq!(m.read(0xFF6B), 0x55);
    assert_eq!(m.read(0xFF6A), 0x05);
    m.ppu.regs.stat.ppu_mode = 3;
    m.write(0xFF6B, 0x66);
    assert_eq!(m.ppu.obj_palette[5], 0x55);
}

#[test]
fn bank_registers_belong_to_the_colour_machine() {
    let mut m = mmu();
    m.write(0xFF70, 0x03);
    m.write(0xFF4F, 0x01);
    assert_eq!(m.read(0xFF70), 1);
    assert_eq!(m.read(0xFF4F), 0);
    m.cart.is_cgb = true;
    m.write(0xFF70, 0x03);
    assert_eq!(m.read(0xFF70), 3);
    m.write(0xD000, 0xAB);
    assert_eq!(m.wram[3 * 0x1000], 0xAB);
    m.write(0xFF70, 0x08);
    assert_eq!(m.read(0xFF70), 1);
    m.write(0xFF70, 0x00);
    assert_eq!(m.read(0xFF70), 1);
    m.write(0xFF4F, 0xFF);
    assert_eq!(m.read(0xFF4F), 1);
    m.write(0x8000, 0xCD);
    assert_eq!(m.ppu.fetcher.vram[0x2000], 0xCD);
}

#[test]
fn other_registers_keep_their_read_only_bits() {
    let mut m = mmu();
    m.write(0xFF4D, 0xFF);
    assert_eq!(m.read(0xFF4D), 0x01);
    m.write(0xFF56, 0xFF);
    assert_eq!(m.read(0xFF56), 0xFF);
    m.write(0xFF56, 0x00);
    assert_eq!(m.read(0xFF56), 0x02);
    m.write(0xFF6C, 0xFF);
    assert_eq!(m.read(0xFF6C), 0x01);
    m.write(0xFF02, 0x7E);
    assert_eq!(m.read(0xFF02), 0x02);
    m.write(0xFF03, 0xFF);
    assert_eq!(m.read(0xFF03), 0);
    assert_eq!(m.read(0xFF7F), 0);
}

#[test]
fn tick_feeds_every_component() {
    let mut m = mmu();
    m.write(0xFF40, 0x91);
    m.write(0xFFFF, 0x1F);
    m.apu.start_new_sampling(95);
    let mut mcycles = 0u32;
    while m.read(0xFF0F) & 0x01 == 0 {
        m.tick(2);
        mcycles += 2;
        assert!(mcycles <= 144 * 114);
    }
    assert_eq!(mcycles, 144 * 114);
    assert_eq!(m.read(0xFF44), 144);
    assert_eq!(m.read(0xFF04), ((mcycles / 64) % 256) as u8);
    assert_eq!(m.apu.start_new_sampling(0).len() as u32, mcycles * 4 / 95);
    assert!(m.check());
}
