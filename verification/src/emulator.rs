//! The emulator as the host drives it: it runs the machine in bursts of
//! steps, keeps count of the clock cycles, and answers the host's requests.
use vstd::prelude::*;
use crate::apu::StereoSample;
use crate::cartridge::{CartView, Cartidge};
use crate::cpu::{Cpu, CpuRegs, CpuView};
use crate::mmu::{Mmu, MmuView};
use crate::msg::{Reply, Request};
use crate::EmulatorErr;

verus! {

/// Steps that the host should run between two looks at its channels: few
/// enough that a burst stays well below the length of a vertical blank.
pub const BURST_STEPS: u32 = 128;

/// T-cycles of one m-cycle.
pub const TCYCLES_PER_MCYCLE: u64 = 4;

pub const NANOS_PER_SECOND: u64 = 1_000_000_000;

pub struct Emulator {
    pub cpu: Cpu,
    /// T-cycles run since the emulator was started; it stops counting at
    /// the largest value.
    pub tcycles: u64,
    /// The clock rate that the host measured last, in Hz.
    pub real_frequency: u32,
    /// The machine still has to go through its power-up sequence.
    pub init_required: bool,
    pub is_running: bool,
    /// The host asked for the state to be saved at shutdown.
    pub save_state: bool,
}

pub struct EmulatorView {
    pub cpu: CpuView,
    pub tcycles: u64,
    pub real_frequency: u32,
    pub init_required: bool,
    pub is_running: bool,
    pub save_state: bool,
}

/// The sum of a cycle count and a step, stopping at the largest value.
pub open spec fn counted(tcycles: u64, mcycles: u32) -> u64 {
    if tcycles + mcycles * TCYCLES_PER_MCYCLE > u64::MAX {
        u64::MAX
    } else {
        (tcycles + mcycles * TCYCLES_PER_MCYCLE) as u64
    }
}

/// Nanoseconds that `tcycles` T-cycles take at `frequency` Hz, rounded
/// down, stopping at the largest value. A frequency of zero gives zero.
pub open spec fn spec_nanos_of(tcycles: u64, frequency: u32) -> u64 {
    if frequency == 0 {
        0
    } else if tcycles * NANOS_PER_SECOND / (frequency as int) > u64::MAX {
        u64::MAX
    } else {
        (tcycles * NANOS_PER_SECOND / (frequency as int)) as u64
    }
}

pub fn nanos_of(tcycles: u64, frequency: u32) -> (ns: u64)
    ensures
        ns == spec_nanos_of(tcycles, frequency),
{
    if frequency == 0 {
        return 0;
    }
    assert(tcycles * NANOS_PER_SECOND <= u64::MAX * NANOS_PER_SECOND) by (nonlinear_arith);
    let total: u128 = tcycles as u128 * NANOS_PER_SECOND as u128;
    let ns = total / frequency as u128;
    if ns > u64::MAX as u128 {
        u64::MAX
    } else {
        ns as u64
    }
}

/// The clock rate in Hz at which `tcycles` T-cycles take `elapsed_nanos`
/// nanoseconds, rounded down and stopping at the largest value. No time
/// elapsed gives zero.
pub open spec fn spec_frequency_of(tcycles: u64, elapsed_nanos: u64) -> u32 {
    if elapsed_nanos == 0 {
        0
    } else if tcycles * NANOS_PER_SECOND / (elapsed_nanos as int) > u32::MAX {
        u32::MAX
    } else {
        (tcycles * NANOS_PER_SECOND / (elapsed_nanos as int)) as u32
    }
}

pub fn frequency_of(tcycles: u64, elapsed_nanos: u64) -> (hz: u32)
    ensures
        hz == spec_frequency_of(tcycles, elapsed_nanos),
{
    if elapsed_nanos == 0 {
        return 0;
    }
    assert(tcycles * NANOS_PER_SECOND <= u64::MAX * NANOS_PER_SECOND) by (nonlinear_arith);
    let total: u128 = tcycles as u128 * NANOS_PER_SECOND as u128;
    let hz = total / elapsed_nanos as u128;
    if hz > u32::MAX as u128 {
        u32::MAX
    } else {
        hz as u32
    }
}

impl EmulatorView {
    /// The emulator around a machine that was just switched on.
    pub open spec fn fresh(cart: CartView) -> EmulatorView {
        EmulatorView {
            cpu: CpuView { regs: CpuRegs::initial(), mmu: MmuView::initial(cart) },
            tcycles: 0,
            real_frequency: 0,
            init_required: true,
            is_running: false,
            save_state: false,
        }
    }

    /// The emulator around a machine that was saved earlier.
    pub open spec fn resumed(cpu: CpuView) -> EmulatorView {
        EmulatorView {
            cpu,
            tcycles: 0,
            real_frequency: 0,
            init_required: false,
            is_running: false,
            save_state: false,
        }
    }

    /// The machine after its power-up sequence: execution starts at
    /// 0x0100 with the stack below 0xFFFE.
    pub open spec fn powered_up(cpu: CpuView) -> CpuView {
        CpuView {
            regs: CpuRegs { pc: 0x0100, sp: 0xFFFE, ..cpu.regs },
            mmu: cpu.mmu.after_power_up(),
        }
    }

    /// The emulator after the host's start request: a fresh machine goes
    /// through power-up, and the cycle count restarts.
    pub open spec fn after_start(self) -> EmulatorView {
        EmulatorView {
            cpu: if self.init_required {
                Self::powered_up(self.cpu)
            } else {
                self.cpu
            },
            tcycles: 0,
            is_running: true,
            ..self
        }
    }

    /// The emulator after one step of the machine.
    pub open spec fn after_step(self) -> EmulatorView {
        let (cpu, mcycles) = self.cpu.after_step();
        EmulatorView { cpu, tcycles: counted(self.tcycles, mcycles), ..self }
    }

    /// The emulator after `n` steps of the machine.
    pub open spec fn after_steps(self, n: nat) -> EmulatorView
        decreases n,
    {
        if n == 0 {
            self
        } else {
            self.after_step().after_steps((n - 1) as nat)
        }
    }

    /// The emulator after a request is handled.
    pub open spec fn after_request(self, req: Request) -> EmulatorView {
        match req {
            Request::Shutdown { save_state } => EmulatorView {
                save_state,
                is_running: false,
                ..self
            },
            _ => EmulatorView {
                cpu: CpuView { mmu: self.cpu.mmu.after_input(req), ..self.cpu },
                ..self
            },
        }
    }

    /// Whether a request is answered. The video frame, the title and the
    /// frequency are; the rest is carried out in silence.
    pub open spec fn answers(req: Request) -> bool {
        req == Request::GetVideoFrame || req == Request::GetTitle || req == Request::GetFrequency
    }

    /// The answer to a request matches it: the last complete frame, the
    /// title of the cartridge, or the frequency measured last.
    pub open spec fn answered_by(self, req: Request, reply: Reply) -> bool {
        match (req, reply) {
            (Request::GetVideoFrame, Reply::VideoFrame(f)) => f@ == self.cpu.mmu.ppu.front && f.wf(),
            (Request::GetTitle, Reply::Title(t)) => t@ == self.cpu.mmu.cart.title,
            (Request::GetFrequency, Reply::Frequency(hz)) => hz == self.real_frequency,
            _ => false,
        }
    }
}

impl View for Emulator {
    type V = EmulatorView;

    open spec fn view(&self) -> EmulatorView {
        EmulatorView {
            cpu: self.cpu@,
            tcycles: self.tcycles,
            real_frequency: self.real_frequency,
            init_required: self.init_required,
            is_running: self.is_running,
            save_state: self.save_state,
        }
    }
}

fn copy_bytes(src: &Vec<u8>) -> (out: Vec<u8>)
    ensures
        out@ == src@,
{
    let mut out: Vec<u8> = Vec::new();
    let mut i: usize = 0;
    while i < src.len()
        invariant
            i <= src.len(),
            out@ == src@.subrange(0, i as int),
        decreases src.len() - i,
    {
        out.push(src[i]);
        i = i + 1;
        assert(out@ =~= src@.subrange(0, i as int));
    }
    assert(out@ =~= src@);
    out
}

impl Emulator {
    pub open spec fn wf(&self) -> bool {
        self.cpu.wf()
    }

    /// Builds an emulator around the given ROM image.
    pub fn from_rom(rom: Vec<u8>) -> (r: Result<Emulator, EmulatorErr>)
        ensures
            match r {
                Ok(e) => CartView::load(rom@) is Ok && e@ == EmulatorView::fresh(
                    CartView::load(rom@)->Ok_0,
                ) && e.wf(),
                Err(err) => CartView::load(rom@) == Err::<CartView, EmulatorErr>(err),
            },
    {
        let cartidge = match Cartidge::new(rom) {
            Ok(c) => c,
            Err(e) => { return Err(e); },
        };
        let mmu = Mmu::new(cartidge);
        let cpu = Cpu::new(mmu);
        Ok(
            Emulator {
                cpu,
                tcycles: 0,
                real_frequency: 0,
                init_required: true,
                is_running: false,
                save_state: false,
            },
        )
    }

    /// Builds an emulator around a machine that was saved earlier. A
    /// machine that is not well-formed is refused as corrupted.
    pub fn from_saved(cpu: Cpu) -> (r: Result<Emulator, EmulatorErr>)
        ensures
            match r {
                Ok(e) => cpu.wf() && e@ == EmulatorView::resumed(cpu@) && e.wf(),
                Err(err) => !cpu.wf() && err == EmulatorErr::SaveFileCorrupted,
            },
    {
        if !cpu.check() {
            return Err(EmulatorErr::SaveFileCorrupted);
        }
        Ok(
            Emulator {
                cpu,
                tcycles: 0,
                real_frequency: 0,
                init_required: false,
                is_running: false,
                save_state: false,
            },
        )
    }

    /// The ROM image of the cartridge in a saved machine.
    pub fn rom_from_saved(cpu: Cpu) -> (r: Result<Vec<u8>, EmulatorErr>)
        ensures
            match r {
                Ok(rom) => cpu.wf() && rom@ == cpu@.mmu.cart.rom,
                Err(err) => !cpu.wf() && err == EmulatorErr::SaveFileCorrupted,
            },
    {
        if !cpu.check() {
            return Err(EmulatorErr::SaveFileCorrupted);
        }
        Ok(copy_bytes(&cpu.mmu.cart.rom))
    }

    /// Carries out the host's start request.
    pub fn start(&mut self)
        requires
            old(self).wf(),
        ensures
            final(self)@ == old(self)@.after_start(),
            final(self).wf(),
    {
        if self.init_required {
            self.init();
        }
        self.reset_timers();
        self.is_running = true;
    }

    /// Runs one step of the machine and counts its cycles.
    pub fn step(&mut self) -> (mcycles: u32)
        requires
            old(self).wf(),
        ensures
            final(self)@ == old(self)@.after_step(),
            mcycles == old(self)@.cpu.after_step().1,
            1 <= mcycles <= 6,
            final(self).wf(),
    {
        let mcycles = self.cpu.step();
        let add: u64 = mcycles as u64 * TCYCLES_PER_MCYCLE;
        self.tcycles = if self.tcycles > u64::MAX - add {
            u64::MAX
        } else {
            self.tcycles + add
        };
        mcycles
    }

    /// Runs `steps` steps of the machine.
    pub fn run_burst(&mut self, steps: u32)
        requires
            old(self).wf(),
        ensures
            final(self)@ == old(self)@.after_steps(steps as nat),
            final(self).wf(),
    {
        let mut i: u32 = 0;
        while i < steps
            invariant
                i <= steps,
                self.wf(),
                self@.after_steps((steps - i) as nat) == old(self)@.after_steps(steps as nat),
            decreases steps - i,
        {
            let _ = self.step();
            i = i + 1;
        }
    }

    /// Carries out a request of the host and returns the answer if the
    /// request has one. The start request belongs before the first step
    /// and is not handled here.
    pub fn handle_msgs(&mut self, req: Request) -> (reply: Option<Reply>)
        requires
            old(self).wf(),
            req != Request::Start,
        ensures
            final(self)@ == old(self)@.after_request(req),
            final(self).wf(),
            reply is Some <==> EmulatorView::answers(req),
            reply is Some ==> old(self)@.answered_by(req, reply->Some_0),
    {
        match req {
            Request::GetVideoFrame | Request::GetTitle | Request::GetFrequency => {
                return Some(self.answer(req));
            },
            _ => {},
        }
        self.carry_out(req);
        None
    }

    /// The answer to a request that has one.
    fn answer(&self, req: Request) -> (reply: Reply)
        requires
            self.wf(),
            EmulatorView::answers(req),
        ensures
            self@.answered_by(req, reply),
    {
        match req {
            Request::GetVideoFrame => Reply::VideoFrame(Box::new(self.cpu.mmu.video_frame())),
            Request::GetTitle => Reply::Title(copy_bytes(&self.cpu.mmu.cart.title)),
            _ => Reply::Frequency(self.real_frequency),
        }
    }

    /// Carries out a request that has no answer.
    fn carry_out(&mut self, req: Request)
        requires
            old(self).wf(),
            !EmulatorView::answers(req),
            req != Request::Start,
        ensures
            final(self)@ == old(self)@.after_request(req),
            final(self).wf(),
    {
        if let Request::Shutdown { save_state } = req {
            self.save_state = save_state;
            self.is_running = false;
            return ;
        }
        self.cpu.mmu.handle_input(req);
    }

    /// Starts a new audio sampling with the given period in dots, zero to
    /// stop sampling, and returns the samples taken since the last call.
    pub fn handle_audio_flow(&mut self, period: u32) -> (samples: Vec<StereoSample>)
        requires
            old(self).wf(),
        ensures
            samples@ == old(self)@.cpu.mmu.apu.samples,
            final(self)@ == (EmulatorView {
                cpu: CpuView {
                    mmu: MmuView {
                        apu: old(self)@.cpu.mmu.apu.after_start_new_sampling(period),
                        ..old(self)@.cpu.mmu
                    },
                    ..old(self)@.cpu
                },
                ..old(self)@
            }),
            final(self).wf(),
    {
        self.cpu.mmu.start_new_sampling(period)
    }

    /// Sets the registers as the power-up sequence of the monochrome machine leaves them.
    pub fn init(&mut self)
        requires
            old(self).wf(),
        ensures
            final(self)@ == (EmulatorView {
                cpu: EmulatorView::powered_up(old(self)@.cpu),
                ..old(self)@
            }),
            final(self).wf(),
    {
        self.cpu.regs.pc = 0x0100;
        self.cpu.regs.sp = 0xFFFE;
        self.cpu.mmu.power_up();
    }

    /// Nanoseconds of simulated time since the start, for the host to
    /// hold against the time that really passed.
    pub fn simulated_nanos(&self) -> (ns: u64)
        ensures
            ns == spec_nanos_of(self.tcycles, self.cpu.regs.frequency),
    {
        nanos_of(self.tcycles, self.cpu.regs.frequency)
    }

    /// Takes the time that really passed since the start and derives the
    /// clock rate reached.
    pub fn manage_sleep_timer(&mut self, elapsed_nanos: u64) -> (ahead_nanos: u64)
        ensures
            final(self)@ == (EmulatorView {
                real_frequency: spec_frequency_of(old(self).tcycles, elapsed_nanos),
                ..old(self)@
            }),
            ahead_nanos == if spec_nanos_of(old(self).tcycles, old(self).cpu.regs.frequency)
                > elapsed_nanos {
                spec_nanos_of(old(self).tcycles, old(self).cpu.regs.frequency) - elapsed_nanos
            } else {
                0
            },
            old(self).wf() ==> final(self).wf(),
    {
        self.real_frequency = frequency_of(self.tcycles, elapsed_nanos);
        let executed = self.simulated_nanos();
        if executed > elapsed_nanos {
            executed - elapsed_nanos
        } else {
            0
        }
    }

    pub fn reset_timers(&mut self)
        ensures
            final(self)@ == (EmulatorView { tcycles: 0, ..old(self)@ }),
            old(self).wf() ==> final(self).wf(),
    {
        self.tcycles = 0;
    }

    /// Ends the emulator. Where the host asked for the state to be saved,
    /// the machine is handed out with nothing left in it that only serves
    /// presentation.
    pub fn into_saved(self) -> (saved: Option<Cpu>)
        requires
            self.wf(),
        ensures
            saved is Some <==> self.save_state,
            saved is Some ==> saved->Some_0.wf() && saved->Some_0@ == (CpuView {
                mmu: self@.cpu.mmu.without_presentation(),
                ..self@.cpu
            }),
    {
        if !self.save_state {
            return None;
        }
        let mut cpu = self.cpu;
        cpu.mmu.drop_presentation();
        Some(cpu)
    }
}

} // verus!
