use gbemu::cpu::CpuState;
use gbemu::emulator::{frequency_of, nanos_of, Emulator};
use gbemu::msg::{ButtonState, Color, Reply, Request};
use gbemu::EmulatorErr;

fn rom_image() -> Vec<u8> {
    let mut rom = vec![0u8; 0x8000];
    for (i, b) in b"HELLO WORLD".iter().enumerate() {
        rom[0x134 + i] = *b;
    }
    rom[0x100] = 0x3C;
    rom[0x101] = 0x18;
    rom[0x102] = 0xFD;
    rom
}

fn started() -> Emulator {
    let mut emu = Emulator::from_rom(rom_image()).unwrap_or_else(|_| panic!("the image was refused"));
    emu.start();
    emu
}

#[test]
fn from_rom_reports_bad_images() {
    assert_eq!(Emulator::from_rom(vec![0u8; 100]).err(), Some(EmulatorErr::InvalidRomSize));
    let mut rom = rom_image();
    rom[0x147] = 0x55;
    assert_eq!(Emulator::from_rom(rom).err(), Some(EmulatorErr::UnknownMBC));
    let mut rom = rom_image();
    rom[0x148] = 0x02;
    assert_eq!(Emulator::from_rom(rom).err(), Some(EmulatorErr::RomSizeMismatch));
    let mut rom = rom_image();
    rom[0x149] = 0x09;
    assert_eq!(Emulator::from_rom(rom).err(), Some(EmulatorErr::UnknownRamSize));
    let mut rom = rom_image();
    rom[0x143] = 0xC0;
    assert_eq!(Emulator::from_rom(rom).err(), Some(EmulatorErr::NotImplemented));
}

#[test]
fn start_runs_the_power_up_sequence() {
    let fresh = Emulator::from_rom(rom_image()).unwrap_or_else(|_| panic!("refused"));
    assert!(fresh.init_required && !fresh.is_running);
    assert_eq!(fresh.cpu.regs.pc, 0);
    let emu = started();
    assert!(emu.is_running);
    assert_eq!(emu.cpu.regs.pc, 0x0100);
    assert_eq!(emu.cpu.regs.sp, 0xFFFE);
    assert_eq!(emu.cpu.mmu.read(0xFF00), 0x0F);
    assert_eq!(emu.cpu.mmu.read(0xFF47), 0xFC);
    assert_eq!(emu.cpu.mmu.read(0xFF40), 0x91);
    assert_eq!(emu.cpu.mmu.read(0xFF41), 0x05);
    assert_eq!(emu.cpu.mmu.read(0xFF70), 1);
    assert_eq!(emu.tcycles, 0);
    assert_eq!(emu.cpu.regs.state, CpuState::Running);
    assert!(emu.cpu.check());
}

#[test]
fn steps_count_four_tcycles_per_mcycle() {
    let mut emu = started();
    assert_eq!(emu.step(), 1);
    assert_eq!(emu.tcycles, 4);
    assert_eq!(emu.step(), 3);
    assert_eq!(emu.tcycles, 16);
    emu.run_burst(128);
    assert_eq!(emu.tcycles, 16 + 64 * 16);
    assert_eq!(emu.cpu.regs.a, 65);
    emu.tcycles = u64::MAX - 3;
    emu.step();
    assert_eq!(emu.tcycles, u64::MAX);
}

#[test]
fn requests_are_answered() {
    let mut emu = started();
    match emu.handle_msgs(Request::GetTitle) {
        Some(Reply::Title(t)) => assert_eq!(t, b"HELLO WORLD".to_vec()),
        _ => panic!("no title"),
    }
    emu.real_frequency = 4_190_000;
    match emu.handle_msgs(Request::GetFrequency) {
        Some(Reply::Frequency(hz)) => assert_eq!(hz, 4_190_000),
        _ => panic!("no frequency"),
    }
    match emu.handle_msgs(Request::GetVideoFrame) {
        Some(Reply::VideoFrame(f)) => {
            assert_eq!(f.pixels.len(), 160 * 144);
            assert_eq!(f.get(0, 0), Color { r: 0, g: 0, b: 0 });
        }
        _ => panic!("no frame"),
    }
    assert!(emu.is_running);
}

#[test]
fn a_finished_frame_is_handed_out() {
    let mut emu = started();
    for _ in 0..(70224 / 4 / 2) {
        emu.run_burst(1);
    }
    while emu.cpu.mmu.read(0xFF44) != 144 {
        emu.run_burst(1);
    }
    match emu.handle_msgs(Request::GetVideoFrame) {
        Some(Reply::VideoFrame(f)) => {
            for y in 0..144 {
                for x in 0..160 {
                    assert_eq!(f.get(x, y), Color::from_hexcode(0xFFFFFF));
                }
            }
        }
        _ => panic!("no frame"),
    }
}

#[test]
fn button_requests_reach_the_joypad() {
    let mut emu = started();
    emu.cpu.mmu.write(0xFF00, 0x20);
    emu.cpu.mmu.write(0xFF0F, 0);
    let pressed = ButtonState { left: true, ..ButtonState::default() };
    assert!(emu.handle_msgs(Request::UpdateButtonState(pressed)).is_none());
    assert_eq!(emu.cpu.mmu.read(0xFF00), 0x20 | 0x0D);
    assert_eq!(emu.cpu.mmu.read(0xFF0F) & 0x10, 0x10);
}

#[test]
fn palette_request_cycles_the_scheme() {
    let mut emu = started();
    assert!(emu.handle_msgs(Request::CyclePalette).is_none());
    assert_eq!(emu.cpu.mmu.ppu.regs.dmg_palette_id, 1);
    for _ in 0..3 {
        emu.handle_msgs(Request::CyclePalette);
    }
    assert_eq!(emu.cpu.mmu.ppu.regs.dmg_palette_id, 0);
}

#[test]
fn shutdown_stops_and_may_save() {
    let mut emu = started();
    emu.run_burst(10);
    assert!(emu.handle_msgs(Request::Shutdown { save_state: false }).is_none());
    assert!(!emu.is_running);
    assert!(emu.into_saved().is_none());
    let mut emu = started();
    emu.handle_audio_flow(95);
    emu.run_burst(5000);
    emu.handle_msgs(Request::Shutdown { save_state: true });
    let a = emu.cpu.regs.a;
    let saved = emu.into_saved().unwrap_or_else(|| panic!("nothing saved"));
    assert_eq!(saved.regs.a, a);
    assert!(saved.mmu.apu.stereo_samples.is_empty());
    assert_eq!(saved.mmu.apu.state.sampling_counter.get_period(), 0);
    assert!(saved.mmu.ppu.front.pixels.iter().all(|c| *c == Color { r: 0, g: 0, b: 0 }));
    assert!(saved.mmu.ppu.back.pixels.iter().all(|c| *c == Color { r: 0, g: 0, b: 0 }));
    let resumed = Emulator::from_saved(saved).unwrap_or_else(|_| panic!("refused"));
    assert!(!resumed.init_required);
    assert_eq!(resumed.cpu.regs.a, a);
}

#[test]
fn resumed_machine_continues_where_it_stopped() {
    let mut emu = started();
    emu.run_burst(100);
    emu.handle_msgs(Request::Shutdown { save_state: true });
    let mut reference = started();
    reference.run_burst(200);
    let saved = emu.into_saved().unwrap_or_else(|| panic!("nothing saved"));
    let mut resumed = Emulator::from_saved(saved).unwrap_or_else(|_| panic!("refused"));
    resumed.start();
    resumed.run_burst(100);
    assert_eq!(resumed.cpu.regs, reference.cpu.regs);
    assert_eq!(resumed.cpu.mmu.timer, reference.cpu.mmu.timer);
    assert_eq!(resumed.cpu.mmu.ppu.regs, reference.cpu.mmu.ppu.regs);
}

#[test]
fn corrupted_states_are_refused() {
    let mut emu = started();
    emu.handle_msgs(Request::Shutdown { save_state: true });
    let mut saved = emu.into_saved().unwrap_or_else(|| panic!("nothing saved"));
    saved.mmu.wram.pop();
    assert_eq!(Emulator::from_saved(saved).err(), Some(EmulatorErr::SaveFileCorrupted));
    let mut emu = started();
    emu.handle_msgs(Request::Shutdown { save_state: true });
    let mut saved = emu.into_saved().unwrap_or_else(|| panic!("nothing saved"));
    saved.mmu.ppu.regs.ly = 200;
    assert_eq!(Emulator::rom_from_saved(saved).err(), Some(EmulatorErr::SaveFileCorrupted));
}

#[test]
fn rom_comes_back_out_of_a_saved_state() {
    let mut emu = started();
    emu.handle_msgs(Request::Shutdown { save_state: true });
    let saved = emu.into_saved().unwrap_or_else(|| panic!("nothing saved"));
    assert_eq!(Emulator::rom_from_saved(saved), Ok(rom_image()));
}

#[test]
fn audio_flow_hands_out_the_samples() {
    let mut emu = started();
    assert!(emu.handle_audio_flow(95).is_empty());
    emu.run_burst(64);
    let dots = emu.tcycles;
    let samples = emu.handle_audio_flow(95);
    assert_eq!(samples.len() as u64, dots / 95);
    assert!(emu.handle_audio_flow(0).is_empty());
    emu.run_burst(64);
    assert!(emu.handle_audio_flow(0).is_empty());
}

#[test]
fn simulated_time_follows_the_cycle_count() {
    assert_eq!(nanos_of(4194304, 4194304), 1_000_000_000);
    assert_eq!(nanos_of(1, 4194304), 238);
    assert_eq!(nanos_of(8388608, 8388608), 1_000_000_000);
    assert_eq!(nanos_of(5, 0), 0);
    assert_eq!(nanos_of(u64::MAX, 1), u64::MAX);
    assert_eq!(frequency_of(4194304, 1_000_000_000), 4194304);
    assert_eq!(frequency_of(4194304, 2_000_000_000), 2097152);
    assert_eq!(frequency_of(100, 0), 0);
    assert_eq!(frequency_of(u64::MAX, 1), u32::MAX);
    let mut emu = started();
    emu.run_burst(128);
    assert_eq!(emu.simulated_nanos(), emu.tcycles * 1_000_000_000 / 4194304);
    let sim = emu.simulated_nanos();
    assert_eq!(emu.manage_sleep_timer(sim - 1000), 1000);
    assert_eq!(emu.manage_sleep_timer(sim + 1000), 0);
    assert_eq!(emu.real_frequency as u64, emu.tcycles * 1_000_000_000 / (sim + 1000));
    emu.reset_timers();
    assert_eq!(emu.simulated_nanos(), 0);
}
