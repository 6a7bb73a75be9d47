//! The mathematical view of the processor and the steps that every
//! instruction is made of.

use crate::bios::BIOS_SIZE;
use crate::bits::{bit_of, with_bit};
use crate::bus::{readable, write_fault, BusView};
use crate::cpu::alu::wrap;
use crate::cpu::cop0::{
    cause_with_code, status_pushed, CAUSE, EPC, STATUS, STATUS_BEV, STATUS_IEC, STATUS_ISC,
};
use crate::cpu::interrupt::InterruptController;
use crate::cpu::{Exception, InterruptSource};
use crate::fault::{Fault, Width};
use crate::gpu::{GpuState, GpuView, VRAM_SIZE};
use crate::memory::RAM_SIZE;
use crate::timer::{in_timer_window, Clock, TimerState};
use vstd::prelude::*;

verus! {

/// Where the processor starts after a reset: the entry of the BIOS.
pub const RESET_VECTOR: u32 = 0xBFC0_0000;

/// Where exceptions go while BEV is set.
pub const ROM_EXCEPTION_VECTOR: u32 = 0xBFC0_0180;

/// Where exceptions go while BEV is clear.
pub const RAM_EXCEPTION_VECTOR: u32 = 0x8000_0080;

/// The address of I_STAT.
pub const I_STAT: u32 = 0x1F80_1070;

/// The address of I_MASK.
pub const I_MASK: u32 = 0x1F80_1074;

/// A loaded value on its way to a register: it arrives when the next step
/// begins.
#[derive(Clone, Copy, Debug, PartialEq, Eq)]
pub struct LoadDelay {
    pub register: u8,
    pub value: u32,
}

/// The mathematical view of the processor with its bus.
pub struct CpuView {
    /// The thirty-two general registers.
    pub regs: Seq<u32>,
    /// The address of the next instruction to fetch.
    pub pc: u32,
    pub hi: u32,
    pub lo: u32,
    /// The address of the armed branch delay slot, or zero where none is
    /// armed.
    pub delay_slot: u32,
    pub load_delay: Option<LoadDelay>,
    /// The thirty-two registers of the system coprocessor.
    pub cop0: Seq<u32>,
    pub irq: InterruptController,
    pub bus: BusView,
    /// The address of the last load or store that reached the bus or a
    /// register of the processor.
    pub last_addr: u32,
    /// An executable was copied into RAM and waits for the hand-over.
    pub load_exe: bool,
}

/// The processor together with the timers, which it reaches through loads
/// and stores.
pub struct Machine {
    pub cpu: CpuView,
    pub timers: TimerState,
}

/// Whether an operation did what `expected` says: on `Ok` the state after it
/// is the expected one, on `Err` the fault is the expected one and the state
/// is the one before.
pub open spec fn agrees<S>(before: S, after: S, r: Result<(), Fault>, expected: Result<S, Fault>) -> bool {
    match expected {
        Ok(s) => r is Ok && after == s,
        Err(f) => r == Err::<(), Fault>(f) && after == before,
    }
}

impl CpuView {
    /// The invariant of the processor: register 0 is zero, the program
    /// counter and the delay slot are multiples of 4, a pending load names a
    /// register, and every memory has its size.
    pub open spec fn wf(self) -> bool {
        &&& self.regs.len() == 32
        &&& self.regs[0] == 0
        &&& self.pc % 4 == 0
        &&& self.delay_slot % 4 == 0
        &&& (self.load_delay matches Some(d) ==> d.register < 32)
        &&& self.cop0.len() == 32
        &&& self.bus.ram.len() == RAM_SIZE
        &&& self.bus.bios.len() == BIOS_SIZE
        &&& self.bus.gpu.vram.len() == VRAM_SIZE
        &&& self.bus.gpu.state.wf()
    }

    /// The value of general register `index`.
    pub open spec fn reg(self, index: u8) -> u32 {
        self.regs[index as int]
    }

    /// The processor after a write of `value` to general register `index`.
    /// Register 0 is not writable.
    pub open spec fn with_reg(self, index: u8, value: u32) -> CpuView {
        if index == 0 {
            self
        } else {
            CpuView { regs: self.regs.update(index as int, value), ..self }
        }
    }

    /// The Status register.
    pub open spec fn status(self) -> u32 {
        self.cop0[STATUS as int]
    }

    /// The processor after a taken jump or branch to `target`: the
    /// instruction at the old program counter becomes the delay slot.
    pub open spec fn jumped(self, target: u32) -> CpuView {
        CpuView { delay_slot: self.pc, pc: target, ..self }
    }

    /// As `jumped`, for a target taken from a register: one that is not a
    /// multiple of 4 stops the machine.
    pub open spec fn jumped_checked(self, target: u32) -> Result<CpuView, Fault> {
        if target % 4 == 0 {
            Ok(self.jumped(target))
        } else {
            Err(Fault::MisalignedPc { target })
        }
    }

    /// Exception entry. With a delay slot armed there is no way to come
    /// back, and the machine stops. Otherwise Cause takes the code, EPC
    /// takes the program counter, the mode stack of Status is pushed, and
    /// the program counter moves to the vector that BEV selects.
    pub open spec fn entered(self, exception: Exception) -> Result<CpuView, Fault> {
        if self.delay_slot != 0 {
            Err(Fault::ExceptionInDelaySlot { slot: self.delay_slot })
        } else {
            Ok(
                CpuView {
                    cop0: self.cop0.update(
                        CAUSE as int,
                        cause_with_code(self.cop0[CAUSE as int], exception.spec_code()),
                    ).update(EPC as int, self.pc).update(STATUS as int, status_pushed(self.status())),
                    pc: if bit_of(self.status(), STATUS_BEV) {
                        ROM_EXCEPTION_VECTOR
                    } else {
                        RAM_EXCEPTION_VECTOR
                    },
                    ..self
                },
            )
        }
    }

    /// An exception caused by the instruction in execution. The program
    /// counter has moved past that instruction already; it is moved back so
    /// that EPC names the instruction itself.
    pub open spec fn raised(self, exception: Exception) -> Result<CpuView, Fault> {
        CpuView { pc: wrap(self.pc - 4), ..self }.entered(exception)
    }

    /// The processor after a pending load, if there is one, has arrived in
    /// its register.
    pub open spec fn committed(self) -> CpuView {
        match self.load_delay {
            Some(d) => CpuView { load_delay: None, ..self.with_reg(d.register, d.value) },
            None => self,
        }
    }

    /// The processor after `value` was loaded for `register`: the value is
    /// pending. A load that was pending before arrives first.
    pub open spec fn loaded(self, register: u8, value: u32) -> CpuView {
        CpuView { load_delay: Some(LoadDelay { register, value }), ..self.committed() }
    }

    /// The processor after it looked for the vertical blanking event: the
    /// event, where there was one, is consumed and posted as an interrupt.
    pub open spec fn polled(self) -> CpuView {
        if self.bus.gpu.state.vblank {
            CpuView {
                irq: self.irq.posted(InterruptSource::VBLANK),
                bus: BusView {
                    gpu: GpuView {
                        state: GpuState { vblank: false, ..self.bus.gpu.state },
                        ..self.bus.gpu
                    },
                    ..self.bus
                },
                ..self
            }
        } else {
            self
        }
    }

    /// Whether an interrupt is due: interrupts are enabled in Status and a
    /// source that I_MASK enables has its bit set in I_STAT.
    pub open spec fn interrupt_due(self) -> bool {
        bit_of(self.status(), STATUS_IEC) && self.irq.pending()
    }

    /// The processor after the interrupt check at the head of a step: where
    /// an interrupt is due, the Int exception is entered with EPC at the
    /// instruction that would have run.
    pub open spec fn dispatched(self) -> Result<CpuView, Fault> {
        if self.interrupt_due() {
            self.entered(Exception::Int)
        } else {
            Ok(self)
        }
    }

    /// The processor after a reset: general registers, HI and LO are zero,
    /// the program counter is at the BIOS entry, BEV is set, no delay slot
    /// is armed and no load is pending.
    pub open spec fn reset(self) -> CpuView {
        CpuView {
            regs: Seq::new(32, |i: int| 0u32),
            pc: RESET_VECTOR,
            hi: 0,
            lo: 0,
            delay_slot: 0,
            load_delay: None,
            cop0: self.cop0.update(STATUS as int, with_bit(self.status(), STATUS_BEV, true)),
            ..self
        }
    }

    /// The processor after a load or store at `addr`.
    pub open spec fn touched(self, addr: u32) -> CpuView {
        CpuView { last_addr: addr, ..self }
    }

    /// What a load of `width` at `addr` returns where the timers are not
    /// concerned. Halfwords and words at I_STAT and I_MASK are answered by
    /// the processor; everything else goes to the bus.
    pub open spec fn read(self, addr: u32, width: Width) -> Result<u32, Fault> {
        if width !is Byte && addr == I_STAT {
            Ok(
                if width is Half {
                    self.irq.stat % 0x1_0000
                } else {
                    self.irq.stat
                },
            )
        } else if width !is Byte && addr == I_MASK {
            Ok(
                if width is Half {
                    self.irq.mask % 0x1_0000
                } else {
                    self.irq.mask
                },
            )
        } else if readable(addr, width) {
            Ok(self.bus.value_at(addr, width))
        } else {
            Err(Fault::UnmappedRead { addr, width })
        }
    }

    /// The processor after a store of the low `width` of `value` at `addr`
    /// was delivered, where the timers are not concerned. Halfwords and
    /// words at I_STAT acknowledge, at I_MASK they replace the mask;
    /// everything else goes to the bus.
    pub open spec fn delivered(self, addr: u32, width: Width, value: u32) -> Result<CpuView, Fault> {
        if width !is Byte && addr == I_STAT {
            Ok(
                CpuView {
                    irq: if width is Half {
                        self.irq.acknowledged_half((value % 0x1_0000) as u16)
                    } else {
                        self.irq.acknowledged(value)
                    },
                    ..self
                },
            )
        } else if width !is Byte && addr == I_MASK {
            Ok(
                CpuView {
                    irq: if width is Half {
                        self.irq.masked_half((value % 0x1_0000) as u16)
                    } else {
                        self.irq.masked(value)
                    },
                    ..self
                },
            )
        } else {
            match write_fault(addr, width) {
                None => Ok(CpuView { bus: self.bus.stored(addr, width, value), ..self }),
                Some(f) => Err(f),
            }
        }
    }

    /// Whether the cache is isolated: stores go nowhere.
    pub open spec fn isolated(self) -> bool {
        bit_of(self.status(), STATUS_ISC)
    }

    /// The processor after a store where the timers are not concerned.
    /// While the cache is isolated nothing changes and nothing can fault.
    pub open spec fn written(self, addr: u32, width: Width, value: u32) -> Result<CpuView, Fault> {
        if self.isolated() {
            Ok(self)
        } else {
            match self.delivered(addr, width, value) {
                Ok(c) => Ok(c.touched(addr)),
                Err(f) => Err(f),
            }
        }
    }

    /// The instruction word at `addr`, or the fault where nothing answers a
    /// word load there.
    pub open spec fn instruction_at(self, addr: u32) -> Result<u32, Fault> {
        if readable(addr, Width::Word) {
            Ok(self.bus.value_at(addr, Width::Word))
        } else {
            Err(Fault::UnmappedRead { addr, width: Width::Word })
        }
    }
}

impl Machine {
    /// The machine with `cpu` in place of its processor.
    pub open spec fn with_cpu(self, cpu: CpuView) -> Machine {
        Machine { cpu, ..self }
    }

    /// The machine that results where the processor alone is concerned.
    pub open spec fn lift(self, r: Result<CpuView, Fault>) -> Result<Machine, Fault> {
        match r {
            Ok(cpu) => Ok(self.with_cpu(cpu)),
            Err(f) => Err(f),
        }
    }

    /// The machine after a load or store at `addr`.
    pub open spec fn touched(self, addr: u32) -> Machine {
        self.with_cpu(self.cpu.touched(addr))
    }

    /// The machine after one cycle of `clock`: the timers that follow the
    /// clock count, and those that fire post their interrupt.
    pub open spec fn clocked(self, clock: Clock) -> Machine {
        Machine {
            cpu: CpuView { irq: self.timers.interrupts(self.cpu.irq, clock), ..self.cpu },
            timers: self.timers.clocked(clock),
        }
    }

    /// What a load of `width` at `addr` by the processor returns. Halfwords
    /// and words in the timer window are answered by the timers.
    pub open spec fn read(self, addr: u32, width: Width) -> Result<u32, Fault> {
        if width !is Byte && in_timer_window(addr) {
            Ok(self.timers.register(addr) as u32)
        } else {
            self.cpu.read(addr, width)
        }
    }

    /// The machine after a store by the processor. Halfwords and words in
    /// the timer window go to the timers, unless the cache is isolated.
    pub open spec fn written(self, addr: u32, width: Width, value: u32) -> Result<Machine, Fault> {
        if !self.cpu.isolated() && width !is Byte && in_timer_window(addr) {
            Ok(
                Machine {
                    cpu: self.cpu.touched(addr),
                    timers: self.timers.with_register(addr, (value % 0x1_0000) as u16),
                },
            )
        } else {
            self.lift(self.cpu.written(addr, width, value))
        }
    }
}

} // verus!
