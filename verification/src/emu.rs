//! The whole machine and the driver that advances it.

use crate::bios::{Bios, BIOS_SIZE};
use crate::bus::{is_ram_base, write_fault, BusView, MainBus};
use crate::cdrom::{CDDrive, Disc, DriveState, MotorState};
use crate::controller::{controller_execute_cycle, ButtonState, Controllers};
use crate::cpu::alu::{add_wrapping, wrap};
use crate::cpu::interrupt::InterruptController;
use crate::cpu::laws::lemma_step_keeps_invariant;
use crate::cpu::semantics::step;
use crate::cpu::state::{CpuView, Machine};
use crate::cpu::{InterruptSource, R3000};
use crate::dma::{execute_dma_cycle, DMAState};
use crate::fault::{Fault, Width};
use crate::gpu::{lemma_tick_approaches_frame_end, Gpu, GpuState, GpuView, Resolution, VRAM_SIZE};
use crate::memory::{Memory, RAM_SIZE};
use crate::timer::{Clock, Timer, TimerState};
use vstd::prelude::*;

verus! {

/// The mask that takes an address to its physical address.
pub const PHYSICAL_MASK: u32 = 0x1FFF_FFFF;

/// The mathematical view of the whole machine.
pub struct EmuView {
    /// The processor with its bus, and the timers.
    pub machine: Machine,
    pub cd_drive: CDDrive,
    pub controllers: Controllers,
    pub dma: DMAState,
    /// The processor cycles that have run, modulo 2^32.
    pub cycle_count: u32,
    pub halt_requested: bool,
    /// The video chip completed a picture during the last step.
    pub frame_ready: bool,
    /// The addresses at which execution halts.
    pub sw_breakpoints: Set<u32>,
    /// The physical addresses whose access halts execution.
    pub watchpoints: Set<u32>,
}

/// A machine together with the fault, if any, that stopped it.
pub struct EmuStepped {
    pub emu: EmuView,
    pub fault: Option<Fault>,
}

impl EmuView {
    /// The invariant of the processor holds.
    pub open spec fn wf(self) -> bool {
        self.machine.cpu.wf()
    }

    /// Whether the processor stands at a breakpoint or has just touched a
    /// watched address.
    pub open spec fn hit(self) -> bool {
        self.sw_breakpoints.contains(self.machine.cpu.pc) || self.watchpoints.contains(
            self.machine.cpu.last_addr & PHYSICAL_MASK,
        )
    }

    /// The machine after a processor cycle was counted: the system clock
    /// ticks the timers, and on every eighth cycle its eighth ticks them
    /// too.
    pub open spec fn counted(self) -> EmuView {
        let count = wrap(self.cycle_count + 1);
        let ticked = self.machine.clocked(Clock::System);
        EmuView {
            machine: if count % 8 == 0 {
                ticked.clocked(Clock::SystemDiv8)
            } else {
                ticked
            },
            cycle_count: count,
            ..self
        }
    }

    /// The machine with `irq` in place of its interrupt controller.
    pub open spec fn with_irq(self, irq: InterruptController) -> EmuView {
        self.with_cpu(CpuView { irq, ..self.machine.cpu })
    }

    /// The interrupt controller after `source` posted where `requested`
    /// holds.
    pub open spec fn delivered(self, requested: bool, source: InterruptSource) -> InterruptController {
        if requested {
            self.machine.cpu.irq.posted(source)
        } else {
            self.machine.cpu.irq
        }
    }

    /// The machine after the cycle of the controllers: an interrupt that
    /// they ask for is posted.
    pub open spec fn controllers_ticked(self) -> EmuView {
        EmuView {
            controllers: Controllers { interrupt_requested: false, ..self.controllers },
            ..self.with_irq(
                self.delivered(self.controllers.interrupt_requested, InterruptSource::Controller),
            )
        }
    }

    /// The machine after the cycle of the drive: an interrupt that it asks
    /// for is posted.
    pub open spec fn drive_ticked(self) -> EmuView {
        EmuView {
            cd_drive: CDDrive { interrupt_requested: false, ..self.cd_drive },
            ..self.with_irq(self.delivered(self.cd_drive.interrupt_requested, InterruptSource::CDROM))
        }
    }

    /// The machine after the cycle of the DMA controller: an interrupt that
    /// it asks for is posted.
    pub open spec fn dma_ticked(self) -> EmuView {
        EmuView {
            dma: DMAState { interrupt_requested: false },
            ..self.with_irq(self.delivered(self.dma.interrupt_requested, InterruptSource::DMA))
        }
    }

    /// The processor half of a step. At a breakpoint or watchpoint a halt is
    /// requested and nothing else happens. Otherwise, in this order: the
    /// controllers get their cycle; the drive gets its cycle; the processor
    /// runs one step, which sees what the two posted; the DMA controller
    /// gets its cycle; the processor cycle is counted. A fault of the
    /// processor ends the half where it occurs.
    #[verifier::opaque]
    pub open spec fn cpu_cycle(self) -> EmuStepped {
        if self.hit() {
            EmuStepped { emu: EmuView { halt_requested: true, ..self }, fault: None }
        } else {
            let ticked = self.controllers_ticked().drive_ticked();
            let s = step(ticked.machine);
            let stepped = EmuView { machine: s.machine, ..ticked };
            if s.fault is Some {
                EmuStepped { emu: stepped, fault: s.fault }
            } else {
                EmuStepped { emu: stepped.dma_ticked().counted(), fault: None }
            }
        }
    }

    /// The machine with `state` in place of the state of the video chip.
    pub open spec fn with_gpu_state(self, state: GpuState) -> EmuView {
        let cpu = self.machine.cpu;
        EmuView {
            machine: self.machine.with_cpu(
                CpuView {
                    bus: BusView { gpu: GpuView { state, ..cpu.bus.gpu }, ..cpu.bus },
                    ..cpu
                },
            ),
            ..self
        }
    }

    /// The state of the video chip.
    pub open spec fn gpu_state(self) -> GpuState {
        self.machine.cpu.bus.gpu.state
    }

    /// The video half of a step: the video chip runs one cycle, and a
    /// picture that it completes is noted; the dot clock ticks the timers;
    /// where a scanline ended, the event is consumed and horizontal
    /// blanking ticks the timers too.
    #[verifier::opaque]
    pub open spec fn gpu_cycle(self) -> EmuView {
        let g = self.gpu_state().ticked();
        let drawn = EmuView { frame_ready: self.frame_ready || g.frame_done, ..self.with_gpu_state(g) };
        let dotted = EmuView { machine: drawn.machine.clocked(Clock::Dot), ..drawn };
        if g.hblank {
            let consumed = dotted.with_gpu_state(GpuState { hblank: false, ..g });
            EmuView { machine: consumed.machine.clocked(Clock::HBlank), ..consumed }
        } else {
            dotted
        }
    }

    /// One step of the whole machine: twice the processor half followed by
    /// the video half, then two more video halves. `frame_ready` tells
    /// whether one of the video cycles completed a picture. A fault of the
    /// processor ends the step where it occurs.
    #[verifier::opaque]
    pub open spec fn step_cycle(self) -> EmuStepped {
        let first = (EmuView { frame_ready: false, ..self }).cpu_cycle();
        if first.fault is Some {
            first
        } else {
            let second = first.emu.gpu_cycle().cpu_cycle();
            if second.fault is Some {
                second
            } else {
                EmuStepped { emu: second.emu.gpu_cycle().gpu_cycle().gpu_cycle(), fault: None }
            }
        }
    }
}

impl EmuView {
    /// The machine with `bus` in place of its bus.
    pub open spec fn with_bus(self, bus: BusView) -> EmuView {
        EmuView { machine: self.machine.with_cpu(CpuView { bus, ..self.machine.cpu }), ..self }
    }

    /// The machine with `cpu` in place of its processor.
    pub open spec fn with_cpu(self, cpu: CpuView) -> EmuView {
        EmuView { machine: self.machine.with_cpu(cpu), ..self }
    }

    /// The machine as it is built over the ROM image `bios`: every register
    /// and every byte of RAM and video memory zero, the video chip in its
    /// reset state, nothing pending, nothing requested, no disc, no
    /// breakpoints.
    pub open spec fn power_on(bios: Seq<u8>) -> EmuView {
        EmuView {
            machine: Machine {
                cpu: CpuView {
                    regs: Seq::new(32, |i: int| 0u32),
                    pc: 0,
                    hi: 0,
                    lo: 0,
                    delay_slot: 0,
                    load_delay: None,
                    cop0: Seq::new(32, |i: int| 0u32),
                    irq: InterruptController { stat: 0, mask: 0 },
                    bus: BusView {
                        ram: Seq::new(RAM_SIZE as nat, |i: int| 0u8),
                        bios,
                        gpu: GpuView {
                            vram: Seq::new(VRAM_SIZE as nat, |i: int| 0u16),
                            state: GpuState::initial(),
                        },
                    },
                    last_addr: 0,
                    load_exe: false,
                },
                timers: TimerState {
                    t0: Timer { counter: 0, mode: 0, target: 0 },
                    t1: Timer { counter: 0, mode: 0, target: 0 },
                    t2: Timer { counter: 0, mode: 0, target: 0 },
                },
            },
            cd_drive: CDDrive {
                drive_state: DriveState::Read,
                motor_state: MotorState::Off,
                disc: None,
                interrupt_requested: false,
            },
            controllers: Controllers {
                buttons: ButtonState { bits: 0 },
                interrupt_requested: false,
            },
            dma: DMAState { interrupt_requested: false },
            cycle_count: 0,
            halt_requested: false,
            frame_ready: false,
            sw_breakpoints: Set::empty(),
            watchpoints: Set::empty(),
        }
    }

    /// The machine after a reset: the processor and the video chip are
    /// reset, everything else stays.
    pub open spec fn reset(self) -> EmuView {
        self.with_cpu(self.machine.cpu.reset()).with_gpu_state(GpuState::initial())
    }

    /// Running until a picture is complete: steps are taken until one of
    /// them completes a picture, then the video chip runs one more cycle. A
    /// fault of the processor ends the run where it occurs.
    pub open spec fn run_frame(self) -> EmuStepped
        decreases self.gpu_state().cycles_to_frame_end(),
        when self.wf()
        via Self::run_frame_terminates
    {
        let s = self.step_cycle();
        if s.fault is Some {
            s
        } else if s.emu.frame_ready {
            EmuStepped { emu: s.emu.with_gpu_state(s.emu.gpu_state().ticked()), fault: None }
        } else {
            s.emu.run_frame()
        }
    }

    #[via_fn]
    proof fn run_frame_terminates(self) {
        lemma_step_cycle_progress(self);
    }
}

/// The bus after the first `n` bytes of `data` were stored at `start` and
/// the addresses that follow it, modulo 2^32.
pub open spec fn image_stored(bus: BusView, start: u32, data: Seq<u8>, n: int) -> BusView
    decreases n,
{
    if n <= 0 {
        bus
    } else {
        image_stored(bus, start, data, n - 1).stored(
            wrap(start + (n - 1)),
            Width::Byte,
            data[n - 1] as u32,
        )
    }
}

/// Whether a byte store is accepted at each of the `n` addresses from
/// `start`.
pub open spec fn image_accepted(start: u32, n: int) -> bool {
    forall|i: int| 0 <= i < n ==> (#[trigger] write_fault(wrap(start + i), Width::Byte)) is None
}

/// An image that lies inside RAM is accepted whole, and storing it leaves
/// its bytes in RAM from `start` on and changes nothing else: not the rest
/// of RAM, not the ROM, not the video chip. The same holds through either
/// mirror of RAM.
pub proof fn lemma_image_in_ram(bus: BusView, base: u32, start: u32, data: Seq<u8>, n: int)
    requires
        bus.ram.len() == RAM_SIZE,
        is_ram_base(base),
        0 <= n <= data.len(),
        start + n <= RAM_SIZE,
    ensures
        image_accepted((base + start) as u32, n),
        image_stored(bus, (base + start) as u32, data, n).ram.len() == RAM_SIZE,
        forall|i: int|
            0 <= i < RAM_SIZE ==> #[trigger] image_stored(bus, (base + start) as u32, data, n).ram[i]
                == (if start <= i < start + n {
                data[i - start]
            } else {
                bus.ram[i]
            }),
        image_stored(bus, (base + start) as u32, data, n).bios == bus.bios,
        image_stored(bus, (base + start) as u32, data, n).gpu == bus.gpu,
    decreases n,
{
    if n > 0 {
        lemma_image_in_ram(bus, base, start, data, n - 1);
    }
}

proof fn lemma_cpu_cycle_keeps(e: EmuView)
    requires
        e.wf(),
    ensures
        e.cpu_cycle().emu.wf(),
        e.cpu_cycle().emu.gpu_state().dot == e.gpu_state().dot,
        e.cpu_cycle().emu.gpu_state().line == e.gpu_state().line,
        e.cpu_cycle().emu.frame_ready == e.frame_ready,
{
    reveal(EmuView::cpu_cycle);
    lemma_step_keeps_invariant(e.controllers_ticked().drive_ticked().machine);
}

proof fn lemma_gpu_cycle_progress(e: EmuView)
    requires
        e.wf(),
    ensures
        e.gpu_cycle().wf(),
        e.gpu_cycle().frame_ready || (!e.frame_ready && e.gpu_cycle().gpu_state().cycles_to_frame_end()
            == e.gpu_state().cycles_to_frame_end() - 1),
{
    reveal(EmuView::gpu_cycle);
    lemma_tick_approaches_frame_end(e.gpu_state());
}

/// A step keeps the invariant, and it either completes a picture or brings
/// the end of the picture nearer.
pub proof fn lemma_step_cycle_progress(e: EmuView)
    requires
        e.wf(),
    ensures
        e.step_cycle().emu.wf(),
        e.step_cycle().fault is None ==> e.step_cycle().emu.frame_ready
            || e.step_cycle().emu.gpu_state().cycles_to_frame_end()
            < e.gpu_state().cycles_to_frame_end(),
{
    reveal(EmuView::step_cycle);
    let start = EmuView { frame_ready: false, ..e };
    lemma_cpu_cycle_keeps(start);
    let first = start.cpu_cycle();
    if first.fault is None {
        lemma_gpu_cycle_progress(first.emu);
        let a = first.emu.gpu_cycle();
        lemma_cpu_cycle_keeps(a);
        let second = a.cpu_cycle();
        if second.fault is None {
            lemma_gpu_cycle_progress(second.emu);
            let b = second.emu.gpu_cycle();
            lemma_gpu_cycle_progress(b);
            let c = b.gpu_cycle();
            lemma_gpu_cycle_progress(c);
        }
    }
}

/// Whether `v` holds `x`.
fn holds(v: &Vec<u32>, x: u32) -> (r: bool)
    ensures
        r == v@.contains(x),
{
    let mut i: usize = 0;
    while i < v.len()
        invariant
            i <= v.len(),
            forall|j: int| 0 <= j < i ==> v@[j] != x,
        decreases v.len() - i,
    {
        if v[i] == x {
            return true;
        }
        i = i + 1;
    }
    false
}

/// `v` without any occurrence of `x`.
fn without(v: &Vec<u32>, x: u32) -> (r: Vec<u32>)
    ensures
        r@.to_set() == v@.to_set().remove(x),
{
    let mut out: Vec<u32> = Vec::new();
    let mut i: usize = 0;
    while i < v.len()
        invariant
            i <= v.len(),
            forall|y: u32| out@.contains(y) <==> (y != x && exists|j: int| 0 <= j < i && v@[j] == y),
        decreases v.len() - i,
    {
        let ghost before = out@;
        if v[i] != x {
            out.push(v[i]);
            assert forall|y: u32| out@.contains(y) <==> (y != x && exists|j: int|
                0 <= j < i + 1 && v@[j] == y) by {
                if out@.contains(y) {
                    let k = choose|k: int| 0 <= k < out@.len() && out@[k] == y;
                    if k < before.len() {
                        assert(before[k] == y);
                        assert(before.contains(y));
                    } else {
                        assert(v@[i as int] == y);
                    }
                }
                if y != x && exists|j: int| 0 <= j < i + 1 && v@[j] == y {
                    let j = choose|j: int| 0 <= j < i + 1 && v@[j] == y;
                    if j < i {
                        assert(before.contains(y));
                        let k = choose|k: int| 0 <= k < before.len() && before[k] == y;
                        assert(out@[k] == y);
                    } else {
                        assert(out@[before.len() as int] == y);
                    }
                }
            }
        }
        i = i + 1;
    }
    assert(out@.to_set() =~= v@.to_set().remove(x)) by {
        assert forall|y: u32| out@.to_set().contains(y) <==> v@.to_set().remove(x).contains(y) by {
            if v@.contains(y) {
                let j = choose|j: int| 0 <= j < v@.len() && v@[j] == y;
                assert(v@[j] == y);
            }
        }
    }
    out
}

/// The whole machine.
pub struct PSXEmu {
    pub r3000: R3000,
    pub timers: TimerState,
    pub cd_drive: CDDrive,
    pub controllers: Controllers,
    pub dma: DMAState,
    pub cycle_count: u32,
    pub halt_requested: bool,
    pub frame_ready: bool,
    pub sw_breakpoints: Vec<u32>,
    pub watchpoints: Vec<u32>,
}

impl View for PSXEmu {
    type V = EmuView;

    open spec fn view(&self) -> EmuView {
        EmuView {
            machine: self.r3000.machine(self.timers),
            cd_drive: self.cd_drive,
            controllers: self.controllers,
            dma: self.dma,
            cycle_count: self.cycle_count,
            halt_requested: self.halt_requested,
            frame_ready: self.frame_ready,
            sw_breakpoints: self.sw_breakpoints@.to_set(),
            watchpoints: self.watchpoints@.to_set(),
        }
    }
}

impl PSXEmu {
    /// The invariant of the processor holds.
    pub open spec fn wf(&self) -> bool {
        self@.wf()
    }

    /// Whether the processor stands at a breakpoint or has just touched a
    /// watched address.
    fn at_breakpoint(&self) -> (r: bool)
        ensures
            r == self@.hit(),
    {
        holds(&self.sw_breakpoints, self.r3000.pc) || holds(
            &self.watchpoints,
            self.r3000.last_addr & PHYSICAL_MASK,
        )
    }

    /// Counts a processor cycle and ticks the timers that follow the
    /// system clock.
    fn count_cycle(&mut self)
        requires
            old(self).wf(),
        ensures
            final(self).wf(),
            final(self)@ == old(self)@.counted(),
    {
        self.cycle_count = add_wrapping(self.cycle_count, 1);
        self.timers.update_sys_clock(&mut self.r3000.irq);
        if self.cycle_count % 8 == 0 {
            self.timers.update_sys_div_8(&mut self.r3000.irq);
        }
    }

    /// The cycles of the controllers and the drive.
    fn tick_inputs(&mut self)
        requires
            old(self).wf(),
        ensures
            final(self).wf(),
            final(self)@ == old(self)@.controllers_ticked().drive_ticked(),
    {
        controller_execute_cycle(&mut self.controllers, &mut self.r3000.irq);
        self.cd_drive.execute_cycle(&mut self.r3000.irq);
    }

    /// The cycle of the DMA controller.
    fn tick_dma(&mut self)
        requires
            old(self).wf(),
        ensures
            final(self).wf(),
            final(self)@ == old(self)@.dma_ticked(),
    {
        execute_dma_cycle(&mut self.dma, &mut self.r3000.irq);
    }

    /// The processor half of a step.
    fn run_cpu_cycle(&mut self) -> (r: Result<(), Fault>)
        requires
            old(self).wf(),
        ensures
            final(self).wf(),
            final(self)@ == old(self)@.cpu_cycle().emu,
            r == (match old(self)@.cpu_cycle().fault {
                Some(f) => Err::<(), Fault>(f),
                None => Ok(()),
            }),
    {
        proof {
            reveal(EmuView::cpu_cycle);
        }
        if self.at_breakpoint() {
            self.halt_requested = true;
            return Ok(());
        }
        self.tick_inputs();
        match self.r3000.step_instruction(&mut self.timers) {
            Ok(_) => {},
            Err(f) => {
                return Err(f);
            },
        }
        self.tick_dma();
        self.count_cycle();
        Ok(())
    }

    /// The video half of a step.
    fn run_gpu_cycle(&mut self)
        requires
            old(self).wf(),
        ensures
            final(self).wf(),
            final(self)@ == old(self)@.gpu_cycle(),
    {
        proof {
            reveal(EmuView::gpu_cycle);
        }
        self.r3000.main_bus.gpu.execute_cycle();
        if self.r3000.main_bus.gpu.end_of_frame() {
            self.frame_ready = true;
        }
        self.timers.update_dot_clock(&mut self.r3000.irq);
        if self.r3000.main_bus.gpu.consume_hblank() {
            self.timers.update_h_blank(&mut self.r3000.irq);
        }
    }

    /// Advances the machine by one step.
    pub fn step_cycle(&mut self) -> (r: Result<(), Fault>)
        requires
            old(self).wf(),
        ensures
            final(self).wf(),
            final(self)@ == old(self)@.step_cycle().emu,
            r == (match old(self)@.step_cycle().fault {
                Some(f) => Err::<(), Fault>(f),
                None => Ok(()),
            }),
    {
        proof {
            reveal(EmuView::step_cycle);
        }
        self.frame_ready = false;
        match self.run_cpu_cycle() {
            Ok(_) => {},
            Err(f) => {
                return Err(f);
            },
        }
        self.run_gpu_cycle();
        match self.run_cpu_cycle() {
            Ok(_) => {},
            Err(f) => {
                return Err(f);
            },
        }
        self.run_gpu_cycle();
        self.run_gpu_cycle();
        self.run_gpu_cycle();
        Ok(())
    }

    /// Builds the machine over a BIOS image of exactly `BIOS_SIZE` bytes.
    /// The machine is valid but not started: `reset` puts the processor at
    /// the BIOS entry.
    pub fn new(bios: Vec<u8>) -> (emu: PSXEmu)
        requires
            bios@.len() == BIOS_SIZE,
        ensures
            emu.wf(),
            emu@ == EmuView::power_on(bios@),
    {
        let bios = Bios::new(bios);
        let memory = Memory::new();
        let gpu = Gpu::new();
        let bus = MainBus::new(bios, memory, gpu);
        let r3000 = R3000::new(bus);
        let emu = PSXEmu {
            r3000,
            timers: TimerState::new(),
            cd_drive: CDDrive::new(),
            controllers: Controllers::new(),
            dma: DMAState::new(),
            cycle_count: 0,
            halt_requested: false,
            frame_ready: false,
            sw_breakpoints: Vec::new(),
            watchpoints: Vec::new(),
        };
        proof {
            let expected = EmuView::power_on(bios@);
            assert(emu@.machine.cpu.bus.ram =~= expected.machine.cpu.bus.ram);
            assert(emu@.machine.cpu.bus.gpu.vram =~= expected.machine.cpu.bus.gpu.vram);
            assert(emu@.sw_breakpoints =~= expected.sw_breakpoints);
            assert(emu@.watchpoints =~= expected.watchpoints);
        }
        emu
    }

    /// Resets the processor and the video chip.
    pub fn reset(&mut self)
        requires
            old(self).wf(),
        ensures
            final(self).wf(),
            final(self)@ == old(self)@.reset(),
    {
        self.r3000.reset();
        self.r3000.main_bus.gpu.reset();
    }

    /// Runs the machine until the video chip has completed a picture.
    pub fn run_frame(&mut self) -> (r: Result<(), Fault>)
        requires
            old(self).wf(),
        ensures
            final(self).wf(),
            final(self)@ == old(self)@.run_frame().emu,
            r == (match old(self)@.run_frame().fault {
                Some(f) => Err::<(), Fault>(f),
                None => Ok(()),
            }),
    {
        loop
            invariant_except_break
                self.wf(),
                self@.run_frame() == old(self)@.run_frame(),
            ensures
                self.wf(),
                old(self)@.run_frame() == (EmuStepped {
                    emu: self@.with_gpu_state(self@.gpu_state().ticked()),
                    fault: None,
                }),
            decreases self@.gpu_state().cycles_to_frame_end(),
        {
            proof {
                lemma_step_cycle_progress(self@);
            }
            match self.step_cycle() {
                Ok(_) => {},
                Err(f) => {
                    return Err(f);
                },
            }
            if self.frame_ready {
                break ;
            }
        }
        self.r3000.main_bus.gpu.execute_cycle();
        Ok(())
    }

    /// Copies `data` into memory, byte by byte through the bus, from
    /// `start_addr` on, and notes that an executable waits for the
    /// hand-over. The copy stops at the first address that refuses a byte;
    /// what was copied before it stays.
    pub fn load_executable(&mut self, start_addr: u32, _entrypoint: u32, _sp: u32, data: &Vec<u8>) -> (r:
        Result<(), Fault>)
        requires
            old(self).wf(),
            data@.len() <= u32::MAX,
        ensures
            final(self).wf(),
            match r {
                Ok(_) => image_accepted(start_addr, data@.len() as int) && final(self)@ == old(
                    self,
                )@.with_cpu(
                    CpuView {
                        bus: image_stored(
                            old(self)@.machine.cpu.bus,
                            start_addr,
                            data@,
                            data@.len() as int,
                        ),
                        load_exe: true,
                        ..old(self)@.machine.cpu
                    },
                ),
                Err(f) => exists|k: int|
                    0 <= k < data@.len() && image_accepted(start_addr, k) && #[trigger] write_fault(
                        wrap(start_addr + k),
                        Width::Byte,
                    ) == Some(f) && final(self)@ == old(self)@.with_bus(
                        image_stored(old(self)@.machine.cpu.bus, start_addr, data@, k),
                    ),
            },
    {
        let mut index: usize = 0;
        while index < data.len()
            invariant
                index <= data@.len() <= u32::MAX,
                self.wf(),
                image_accepted(start_addr, index as int),
                self@ == old(self)@.with_bus(
                    image_stored(old(self)@.machine.cpu.bus, start_addr, data@, index as int),
                ),
            decreases data@.len() - index,
        {
            let addr = add_wrapping(start_addr, index as u32);
            match MainBus::store_fault(addr, Width::Byte) {
                Some(f) => {
                    return Err(f);
                },
                None => {
                    self.r3000.main_bus.write_byte(addr, data[index]);
                },
            }
            index = index + 1;
        }
        self.r3000.load_exe = true;
        Ok(())
    }

    /// Whether an executable was copied and waits for the hand-over.
    pub fn executable_pending(&self) -> (r: bool)
        ensures
            r == self@.machine.cpu.load_exe,
    {
        self.r3000.load_exe
    }

    /// Puts `disc` in the tray of the drive.
    pub fn load_disc(&mut self, disc: Disc)
        ensures
            final(self)@ == (EmuView {
                cd_drive: CDDrive { disc: Some(disc), ..old(self)@.cd_drive },
                ..old(self)@
            }),
    {
        self.cd_drive.load_disc(disc);
    }

    /// The disc in the tray of the drive, if any.
    pub fn loaded_disc(&self) -> (r: &Option<Disc>)
        ensures
            *r == self.cd_drive.disc,
    {
        self.cd_drive.disc()
    }

    /// Empties the tray of the drive.
    pub fn remove_disc(&mut self)
        ensures
            final(self)@ == (EmuView {
                cd_drive: CDDrive { disc: None, ..old(self)@.cd_drive },
                ..old(self)@
            }),
    {
        self.cd_drive.remove_disc();
    }

    /// Video memory, row by row.
    pub fn get_vram(&self) -> (r: &Vec<u16>)
        ensures
            r@ == self@.machine.cpu.bus.gpu.vram,
    {
        self.r3000.main_bus.gpu.get_vram()
    }

    /// The BIOS image.
    pub fn get_bios(&self) -> (r: &Vec<u8>)
        ensures
            r@ == self@.machine.cpu.bus.bios,
    {
        self.r3000.main_bus.bios.get_data()
    }

    /// Posts an interrupt from `source`, as a device would.
    pub fn manually_fire_interrupt(&mut self, source: InterruptSource)
        requires
            old(self).wf(),
        ensures
            final(self).wf(),
            final(self)@ == old(self)@.with_cpu(
                CpuView {
                    irq: old(self)@.machine.cpu.irq.posted(source),
                    ..old(self)@.machine.cpu
                },
            ),
    {
        self.r3000.fire_external_interrupt(source);
    }

    /// The value of general register `reg_num`.
    pub fn read_gen_reg(&self, reg_num: usize) -> (r: u32)
        requires
            reg_num < 32,
        ensures
            r == self@.machine.cpu.reg(reg_num as u8),
    {
        self.r3000.read_reg(reg_num as u8)
    }

    /// Writes general register `reg_num`. Register 0 stays zero.
    pub fn set_gen_reg(&mut self, reg_num: usize, value: u32)
        requires
            old(self).wf(),
            reg_num < 32,
        ensures
            final(self).wf(),
            final(self)@ == old(self)@.with_cpu(
                old(self)@.machine.cpu.with_reg(reg_num as u8, value),
            ),
    {
        self.r3000.write_reg(reg_num as u8, value);
    }

    /// Whether a breakpoint or watchpoint asked for a halt.
    pub fn halt_requested(&self) -> (r: bool)
        ensures
            r == self@.halt_requested,
    {
        self.halt_requested
    }

    /// Withdraws the request for a halt.
    pub fn clear_halt(&mut self)
        ensures
            final(self)@ == (EmuView { halt_requested: false, ..old(self)@ }),
    {
        self.halt_requested = false;
    }

    /// Whether the video chip completed a picture during the last step.
    pub fn frame_ready(&self) -> (r: bool)
        ensures
            r == self@.frame_ready,
    {
        self.frame_ready
    }

    /// Adds a breakpoint at `addr`.
    pub fn add_sw_breakpoint(&mut self, addr: u32)
        ensures
            final(self)@ == (EmuView {
                sw_breakpoints: old(self)@.sw_breakpoints.insert(addr),
                ..old(self)@
            }),
    {
        self.sw_breakpoints.push(addr);
        assert(self.sw_breakpoints@.to_set() =~= old(self).sw_breakpoints@.to_set().insert(addr)) by {
            lemma_push_to_set(old(self).sw_breakpoints@, addr);
        }
    }

    /// Removes the breakpoint at `addr`.
    pub fn remove_sw_breakpoint(&mut self, addr: u32)
        ensures
            final(self)@ == (EmuView {
                sw_breakpoints: old(self)@.sw_breakpoints.remove(addr),
                ..old(self)@
            }),
    {
        self.sw_breakpoints = without(&self.sw_breakpoints, addr);
    }

    /// Adds a watchpoint on the physical address `addr`.
    pub fn add_watchpoint(&mut self, addr: u32)
        ensures
            final(self)@ == (EmuView {
                watchpoints: old(self)@.watchpoints.insert(addr),
                ..old(self)@
            }),
    {
        self.watchpoints.push(addr);
        assert(self.watchpoints@.to_set() =~= old(self).watchpoints@.to_set().insert(addr)) by {
            lemma_push_to_set(old(self).watchpoints@, addr);
        }
    }

    /// Removes the watchpoint on the physical address `addr`.
    pub fn remove_watchpoint(&mut self, addr: u32)
        ensures
            final(self)@ == (EmuView {
                watchpoints: old(self)@.watchpoints.remove(addr),
                ..old(self)@
            }),
    {
        self.watchpoints = without(&self.watchpoints, addr);
    }

    /// The size of the displayed picture.
    pub fn display_resolution(&self) -> (r: Resolution)
        ensures
            r == self@.gpu_state().resolution,
    {
        self.r3000.main_bus.gpu.resolution()
    }

    /// Takes the buttons that the host reports.
    pub fn update_controller_state(&mut self, state: ButtonState)
        ensures
            final(self)@ == (EmuView {
                controllers: Controllers { buttons: state, ..old(self)@.controllers },
                ..old(self)@
            }),
    {
        self.controllers.update_button_state(state);
    }
}

proof fn lemma_push_to_set(s: Seq<u32>, x: u32)
    ensures
        s.push(x).to_set() =~= s.to_set().insert(x),
{
    assert forall|y: u32| s.push(x).to_set().contains(y) <==> s.to_set().insert(x).contains(y) by {
        if s.push(x).contains(y) {
            let k = choose|k: int| 0 <= k < s.push(x).len() && s.push(x)[k] == y;
            if k < s.len() {
                assert(s[k] == y);
            }
        }
        if s.contains(y) {
            let k = choose|k: int| 0 <= k < s.len() && s[k] == y;
            assert(s.push(x)[k] == y);
        }
        if y == x {
            assert(s.push(x)[s.len() as int] == x);
        }
    }
}

} // verus!
