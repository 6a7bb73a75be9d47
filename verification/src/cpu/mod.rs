//! The R3000A processor.

pub mod cop0;
pub mod instruction;
pub mod interrupt;
pub mod laws;
pub mod alu;
pub mod semantics;
pub mod state;

use crate::bus::MainBus;
use crate::cpu::alu::{
    add_trapping, add_wrapping, branch_address, divide_signed, divide_unsigned, jump_address,
    less_signed, merge_lwl, merge_lwr, merge_swl, merge_swr, multiply_unsigned, shift_amount,
    shift_right_arithmetic, sub_wrapping,
};
use crate::cpu::cop0::{Cop0, EPC};
use crate::cpu::instruction::{
    address, funct, immediate, immediate_sign_extended, opcode, opcode_of, rd, rs, rt, shamt,
    sign_extended_byte, sign_extended_half,
};
use crate::cpu::interrupt::InterruptController;
use crate::cpu::semantics::{
    branched, coprocessor0, execute, immediate_op, jump_or_branch, load, regimm, run_delay_slot,
    special, step, store, store_merged,
};
use crate::cpu::state::{
    agrees, CpuView, LoadDelay, Machine, RAM_EXCEPTION_VECTOR, RESET_VECTOR,
    ROM_EXCEPTION_VECTOR,
};
use crate::fault::{Fault, Width};
use crate::timer::TimerState;
use vstd::prelude::*;

verus! {

/// The sources wired to the interrupt controller. Each owns one bit of
/// I_STAT and I_MASK.
#[derive(Clone, Copy, Debug, PartialEq, Eq)]
pub enum InterruptSource {
    VBLANK,
    GPU,
    CDROM,
    DMA,
    TMR0,
    TMR1,
    TMR2,
    Controller,
    SIO,
    SPU,
    Lightpen,
}

impl InterruptSource {
    /// The index of the source's bit in I_STAT and I_MASK.
    pub open spec fn spec_bit(self) -> u32 {
        match self {
            InterruptSource::VBLANK => 0,
            InterruptSource::GPU => 1,
            InterruptSource::CDROM => 2,
            InterruptSource::DMA => 3,
            InterruptSource::TMR0 => 4,
            InterruptSource::TMR1 => 5,
            InterruptSource::TMR2 => 6,
            InterruptSource::Controller => 7,
            InterruptSource::SIO => 8,
            InterruptSource::SPU => 9,
            InterruptSource::Lightpen => 10,
        }
    }

    /// The index of the source's bit in I_STAT and I_MASK.
    #[verifier::when_used_as_spec(spec_bit)]
    pub fn bit(self) -> (r: u32)
        ensures
            r == self.spec_bit(),
            r <= 10,
    {
        match self {
            InterruptSource::VBLANK => 0,
            InterruptSource::GPU => 1,
            InterruptSource::CDROM => 2,
            InterruptSource::DMA => 3,
            InterruptSource::TMR0 => 4,
            InterruptSource::TMR1 => 5,
            InterruptSource::TMR2 => 6,
            InterruptSource::Controller => 7,
            InterruptSource::SIO => 8,
            InterruptSource::SPU => 9,
            InterruptSource::Lightpen => 10,
        }
    }
}

/// The guest-visible exceptions of the processor.
#[derive(Clone, Copy, Debug, PartialEq, Eq)]
pub enum Exception {
    /// Interrupt.
    Int,
    /// TLB modified.
    Mod,
    /// TLB miss on a load.
    TLBL,
    /// TLB miss on a store.
    TLBS,
    /// Address error on a load or an instruction fetch.
    AdEL,
    /// Address error on a store.
    AdES,
    /// Bus error on an instruction fetch.
    IBE,
    /// Bus error on a data access.
    DBE,
    /// System call.
    Sys,
    /// Breakpoint.
    Bp,
    /// Reserved instruction.
    RI,
    /// Coprocessor unusable.
    CpU,
    /// Arithmetic overflow.
    Ovf,
}

impl Exception {
    /// The value that the exception leaves in the ExcCode field of Cause.
    pub open spec fn spec_code(self) -> u32 {
        match self {
            Exception::Int => 0,
            Exception::Mod => 1,
            Exception::TLBL => 2,
            Exception::TLBS => 3,
            Exception::AdEL => 4,
            Exception::AdES => 5,
            Exception::IBE => 6,
            Exception::DBE => 7,
            Exception::Sys => 8,
            Exception::Bp => 9,
            Exception::RI => 10,
            Exception::CpU => 11,
            Exception::Ovf => 12,
        }
    }

    /// The value that the exception leaves in the ExcCode field of Cause.
    #[verifier::when_used_as_spec(spec_code)]
    pub fn code(self) -> (r: u32)
        ensures
            r == self.spec_code(),
            r <= 12,
    {
        match self {
            Exception::Int => 0,
            Exception::Mod => 1,
            Exception::TLBL => 2,
            Exception::TLBS => 3,
            Exception::AdEL => 4,
            Exception::AdES => 5,
            Exception::IBE => 6,
            Exception::DBE => 7,
            Exception::Sys => 8,
            Exception::Bp => 9,
            Exception::RI => 10,
            Exception::CpU => 11,
            Exception::Ovf => 12,
        }
    }
}

/// The processor with its bus.
pub struct R3000 {
    pub gen_registers: [u32; 32],
    /// The address of the next instruction to fetch.
    pub pc: u32,
    pub hi: u32,
    pub lo: u32,
    pub main_bus: MainBus,
    /// The address of the armed branch delay slot, or zero.
    pub delay_slot: u32,
    pub cop0: Cop0,
    pub load_delay: Option<LoadDelay>,
    /// I_STAT and I_MASK.
    pub irq: InterruptController,
    /// The address of the last load or store that was delivered.
    pub last_addr: u32,
    /// An executable was copied into RAM and waits for the hand-over.
    pub load_exe: bool,
}

impl View for R3000 {
    type V = CpuView;

    open spec fn view(&self) -> CpuView {
        CpuView {
            regs: self.gen_registers@,
            pc: self.pc,
            hi: self.hi,
            lo: self.lo,
            delay_slot: self.delay_slot,
            load_delay: self.load_delay,
            cop0: self.cop0@,
            irq: self.irq,
            bus: self.main_bus@,
            last_addr: self.last_addr,
            load_exe: self.load_exe,
        }
    }
}

impl R3000 {
    /// The invariant of the processor holds.
    pub open spec fn wf(&self) -> bool {
        self@.wf()
    }

    /// The processor together with `timers`.
    pub open spec fn machine(&self, timers: TimerState) -> Machine {
        Machine { cpu: self@, timers }
    }

    /// A processor over `bus` with every register zero. It is valid but
    /// not started: `reset` puts it at the BIOS entry.
    pub fn new(bus: MainBus) -> (cpu: R3000)
        requires
            bus.wf(),
        ensures
            cpu.wf(),
            cpu@ == (CpuView {
                regs: Seq::new(32, |i: int| 0u32),
                pc: 0,
                hi: 0,
                lo: 0,
                delay_slot: 0,
                load_delay: None,
                cop0: Seq::new(32, |i: int| 0u32),
                irq: InterruptController { stat: 0, mask: 0 },
                bus: bus@,
                last_addr: 0,
                load_exe: false,
            }),
    {
        let cpu = R3000 {
            gen_registers: [0u32; 32],
            pc: 0,
            hi: 0,
            lo: 0,
            main_bus: bus,
            delay_slot: 0,
            cop0: Cop0::new(),
            load_delay: None,
            irq: InterruptController::new(),
            last_addr: 0,
            load_exe: false,
        };
        assert(cpu@.regs =~= Seq::new(32, |i: int| 0u32));
        assert(cpu@.cop0 =~= Seq::new(32, |i: int| 0u32));
        cpu
    }

    /// Puts the processor at the BIOS entry: general registers, HI and LO
    /// zero, BEV set, no delay slot armed, no load pending.
    pub fn reset(&mut self)
        requires
            old(self).wf(),
        ensures
            final(self).wf(),
            final(self)@ == old(self)@.reset(),
    {
        self.gen_registers = [0u32; 32];
        self.hi = 0;
        self.lo = 0;
        self.pc = RESET_VECTOR;
        self.delay_slot = 0;
        self.load_delay = None;
        self.cop0.set_boot_vectors(true);
        assert(self@.regs =~= Seq::new(32, |i: int| 0u32));
    }

    /// The value of general register `register_number`.
    pub fn read_reg(&self, register_number: u8) -> (r: u32)
        requires
            register_number < 32,
        ensures
            r == self@.reg(register_number),
    {
        self.gen_registers[register_number as usize]
    }

    /// Writes general register `register_number`. Register 0 stays zero.
    pub fn write_reg(&mut self, register_number: u8, value: u32)
        requires
            old(self).wf(),
            register_number < 32,
        ensures
            final(self).wf(),
            final(self)@ == old(self)@.with_reg(register_number, value),
    {
        if register_number != 0 {
            self.gen_registers[register_number as usize] = value;
        }
    }

    /// Enters `exception` with EPC at the program counter. No delay slot
    /// may be armed: from there no way leads back, and whoever may meet one
    /// tests for it first.
    pub fn fire_exception(&mut self, exception: Exception)
        requires
            old(self).wf(),
            old(self)@.delay_slot == 0,
        ensures
            final(self).wf(),
            old(self)@.entered(exception) == Ok::<CpuView, Fault>(final(self)@),
    {
        let rom = self.cop0.boot_vectors();
        self.cop0.set_cause_execode(exception);
        self.cop0.write_reg(EPC, self.pc);
        self.cop0.push_mode();
        self.pc = if rom {
            ROM_EXCEPTION_VECTOR
        } else {
            RAM_EXCEPTION_VECTOR
        };
    }

    /// Enters an exception that the instruction in execution caused: the
    /// program counter goes back to that instruction first.
    fn raise(&mut self, exception: Exception) -> (r: Result<(), Fault>)
        requires
            old(self).wf(),
        ensures
            final(self).wf(),
            agrees(old(self)@, final(self)@, r, old(self)@.raised(exception)),
    {
        if self.delay_slot != 0 {
            return Err(Fault::ExceptionInDelaySlot { slot: self.delay_slot });
        }
        self.pc = sub_wrapping(self.pc, 4);
        self.fire_exception(exception);
        Ok(())
    }

    /// Posts an interrupt from `source`. It is delivered at the head of a
    /// later step, once the source is enabled in I_MASK and interrupts are
    /// enabled in Status.
    pub fn fire_external_interrupt(&mut self, source: InterruptSource)
        requires
            old(self).wf(),
        ensures
            final(self).wf(),
            final(self)@ == (CpuView { irq: old(self)@.irq.posted(source), ..old(self)@ }),
    {
        self.irq.post(source);
    }

    /// The value that general register `register_number` has once a
    /// pending load has arrived.
    fn read_reg_committed(&self, register_number: u8) -> (r: u32)
        requires
            self.wf(),
            register_number < 32,
        ensures
            r == self@.committed().reg(register_number),
    {
        match self.load_delay {
            Some(d) => if d.register == register_number && register_number != 0 {
                d.value
            } else {
                self.read_reg(register_number)
            },
            None => self.read_reg(register_number),
        }
    }

    /// A pending load arrives in its register.
    fn commit_load(&mut self)
        requires
            old(self).wf(),
        ensures
            final(self).wf(),
            final(self)@ == old(self)@.committed(),
    {
        match self.load_delay {
            Some(d) => {
                self.write_reg(d.register, d.value);
                self.load_delay = None;
            },
            None => {},
        }
    }

    /// Puts a loaded value on its way to `register`.
    fn load_into(&mut self, register: u8, value: u32)
        requires
            old(self).wf(),
            register < 32,
        ensures
            final(self).wf(),
            final(self)@ == old(self)@.loaded(register, value),
    {
        self.commit_load();
        self.load_delay = Some(LoadDelay { register, value });
    }

    /// The instruction word at `addr`, or the fault where nothing answers
    /// a word load there.
    pub fn fetch(&self, addr: u32) -> (r: Result<u32, Fault>)
        requires
            self.wf(),
        ensures
            r == self@.instruction_at(addr),
    {
        if MainBus::is_readable(addr, Width::Word) {
            Ok(self.main_bus.read_word(addr))
        } else {
            Err(Fault::UnmappedRead { addr, width: Width::Word })
        }
    }

    /// A byte load by the processor.
    pub fn read_bus_byte(&mut self, addr: u32) -> (r: Result<u8, Fault>)
        requires
            old(self).wf(),
        ensures
            final(self).wf(),
            match r {
                Ok(v) => old(self)@.read(addr, Width::Byte) == Ok::<u32, Fault>(v as u32)
                    && final(self)@ == old(self)@.touched(addr),
                Err(f) => old(self)@.read(addr, Width::Byte) == Err::<u32, Fault>(f)
                    && final(self)@ == old(self)@,
            },
    {
        if !MainBus::is_readable(addr, Width::Byte) {
            return Err(Fault::UnmappedRead { addr, width: Width::Byte });
        }
        let value = self.main_bus.read_byte(addr);
        self.last_addr = addr;
        Ok(value)
    }

    /// A halfword load by the processor.
    pub fn read_bus_half_word(&mut self, addr: u32, timers: &TimerState) -> (r: Result<u16, Fault>)
        requires
            old(self).wf(),
        ensures
            final(self).wf(),
            match r {
                Ok(v) => old(self).machine(*timers).read(addr, Width::Half) == Ok::<u32, Fault>(
                    v as u32,
                ) && final(self)@ == old(self)@.touched(addr),
                Err(f) => old(self).machine(*timers).read(addr, Width::Half) == Err::<u32, Fault>(f)
                    && final(self)@ == old(self)@,
            },
    {
        let value = match addr {
            0x1F80_1070 => (self.irq.stat % 0x1_0000) as u16,
            0x1F80_1074 => (self.irq.mask % 0x1_0000) as u16,
            0x1F80_1100..=0x1F80_1128 => timers.read_half_word(addr),
            _ => {
                if !MainBus::is_readable(addr, Width::Half) {
                    return Err(Fault::UnmappedRead { addr, width: Width::Half });
                }
                self.main_bus.read_half_word(addr)
            },
        };
        self.last_addr = addr;
        Ok(value)
    }

    /// A word load by the processor.
    pub fn read_bus_word(&mut self, addr: u32, timers: &TimerState) -> (r: Result<u32, Fault>)
        requires
            old(self).wf(),
        ensures
            final(self).wf(),
            match r {
                Ok(v) => old(self).machine(*timers).read(addr, Width::Word) == Ok::<u32, Fault>(v)
                    && final(self)@ == old(self)@.touched(addr),
                Err(f) => old(self).machine(*timers).read(addr, Width::Word) == Err::<u32, Fault>(f)
                    && final(self)@ == old(self)@,
            },
    {
        let value = match addr {
            0x1F80_1070 => self.irq.stat,
            0x1F80_1074 => self.irq.mask,
            0x1F80_1100..=0x1F80_1128 => timers.read_word(addr),
            _ => {
                if !MainBus::is_readable(addr, Width::Word) {
                    return Err(Fault::UnmappedRead { addr, width: Width::Word });
                }
                self.main_bus.read_word(addr)
            },
        };
        self.last_addr = addr;
        Ok(value)
    }

    /// A byte store by the processor. It is dropped while the cache is
    /// isolated.
    pub fn write_bus_byte(&mut self, addr: u32, val: u8) -> (r: Result<(), Fault>)
        requires
            old(self).wf(),
        ensures
            final(self).wf(),
            agrees(old(self)@, final(self)@, r, old(self)@.written(addr, Width::Byte, val as u32)),
    {
        if self.cop0.cache_isolated() {
            return Ok(());
        }
        match MainBus::store_fault(addr, Width::Byte) {
            Some(f) => Err(f),
            None => {
                self.main_bus.write_byte(addr, val);
                self.last_addr = addr;
                Ok(())
            },
        }
    }

    /// A halfword store by the processor. It is dropped while the cache is
    /// isolated.
    pub fn write_bus_half_word(&mut self, addr: u32, val: u16, timers: &mut TimerState) -> (r:
        Result<(), Fault>)
        requires
            old(self).wf(),
        ensures
            final(self).wf(),
            agrees(
                old(self).machine(*old(timers)),
                final(self).machine(*final(timers)),
                r,
                old(self).machine(*old(timers)).written(addr, Width::Half, val as u32),
            ),
    {
        if self.cop0.cache_isolated() {
            return Ok(());
        }
        match addr {
            0x1F80_1070 => {
                self.irq.acknowledge_half(val);
            },
            0x1F80_1074 => {
                self.irq.set_mask_half(val);
            },
            0x1F80_1100..=0x1F80_1128 => {
                timers.write_half_word(addr, val);
            },
            _ => match MainBus::store_fault(addr, Width::Half) {
                Some(f) => {
                    return Err(f);
                },
                None => {
                    self.main_bus.write_half_word(addr, val);
                },
            },
        }
        self.last_addr = addr;
        Ok(())
    }

    /// A word store by the processor. It is dropped while the cache is
    /// isolated.
    pub fn write_bus_word(&mut self, addr: u32, val: u32, timers: &mut TimerState) -> (r: Result<
        (),
        Fault,
    >)
        requires
            old(self).wf(),
        ensures
            final(self).wf(),
            agrees(
                old(self).machine(*old(timers)),
                final(self).machine(*final(timers)),
                r,
                old(self).machine(*old(timers)).written(addr, Width::Word, val),
            ),
    {
        if self.cop0.cache_isolated() {
            return Ok(());
        }
        match addr {
            0x1F80_1070 => {
                self.irq.acknowledge(val);
            },
            0x1F80_1074 => {
                self.irq.set_mask(val);
            },
            0x1F80_1100..=0x1F80_1128 => {
                timers.write_word(addr, val);
            },
            _ => match MainBus::store_fault(addr, Width::Word) {
                Some(f) => {
                    return Err(f);
                },
                None => {
                    self.main_bus.write_word(addr, val);
                },
            },
        }
        self.last_addr = addr;
        Ok(())
    }

    /// A taken jump or branch to `target`.
    fn jump(&mut self, target: u32)
        requires
            old(self).wf(),
            target % 4 == 0,
        ensures
            final(self).wf(),
            final(self)@ == old(self)@.jumped(target),
    {
        self.delay_slot = self.pc;
        self.pc = target;
    }

    /// A jump to an address taken from a register.
    fn jump_register(&mut self, target: u32) -> (r: Result<(), Fault>)
        requires
            old(self).wf(),
        ensures
            final(self).wf(),
            agrees(old(self)@, final(self)@, r, old(self)@.jumped_checked(target)),
    {
        if target % 4 != 0 {
            return Err(Fault::MisalignedPc { target });
        }
        self.jump(target);
        Ok(())
    }

    /// A conditional branch.
    fn branch(&mut self, instruction: u32, taken: bool)
        requires
            old(self).wf(),
        ensures
            final(self).wf(),
            final(self)@ == branched(old(self)@, instruction, taken),
    {
        if taken {
            let target = branch_address(self.pc, immediate(instruction));
            self.jump(target);
        }
    }

    /// The instructions under primary opcode 0.
    fn execute_special(&mut self, instruction: u32) -> (r: Result<(), Fault>)
        requires
            old(self).wf(),
        ensures
            final(self).wf(),
            agrees(old(self)@, final(self)@, r, special(old(self)@, instruction)),
    {
        let s = self.read_reg(rs(instruction));
        let t = self.read_reg(rt(instruction));
        let d = rd(instruction);
        let amount = shamt(instruction) as u32;
        match funct(instruction) {
            0x00 => {
                self.write_reg(d, t << amount);
                Ok(())
            },
            0x02 => {
                self.write_reg(d, t >> amount);
                Ok(())
            },
            0x03 => {
                self.write_reg(d, shift_right_arithmetic(t, amount));
                Ok(())
            },
            0x04 => {
                self.write_reg(d, t << shift_amount(s));
                Ok(())
            },
            0x06 => {
                self.write_reg(d, t >> shift_amount(s));
                Ok(())
            },
            0x07 => {
                self.write_reg(d, shift_right_arithmetic(t, shift_amount(s)));
                Ok(())
            },
            0x08 => self.jump_register(s),
            0x09 => {
                let link = add_wrapping(self.pc, 4);
                match self.jump_register(s) {
                    Ok(_) => {
                        self.write_reg(d, link);
                        Ok(())
                    },
                    Err(f) => Err(f),
                }
            },
            0x0C => self.raise(Exception::Sys),
            0x10 => {
                self.write_reg(d, self.hi);
                Ok(())
            },
            0x11 => {
                self.hi = s;
                Ok(())
            },
            0x12 => {
                self.write_reg(d, self.lo);
                Ok(())
            },
            0x13 => {
                self.lo = s;
                Ok(())
            },
            0x19 => {
                let (hi, lo) = multiply_unsigned(s, t);
                self.hi = hi;
                self.lo = lo;
                Ok(())
            },
            0x1A => {
                let (hi, lo) = divide_signed(s, t);
                self.hi = hi;
                self.lo = lo;
                Ok(())
            },
            0x1B => {
                let (hi, lo) = divide_unsigned(s, t);
                self.hi = hi;
                self.lo = lo;
                Ok(())
            },
            0x20 => match add_trapping(s, t) {
                Some(sum) => {
                    self.write_reg(d, sum);
                    Ok(())
                },
                None => self.raise(Exception::Ovf),
            },
            0x21 => {
                self.write_reg(d, add_wrapping(s, t));
                Ok(())
            },
            0x23 => {
                self.write_reg(d, sub_wrapping(s, t));
                Ok(())
            },
            0x24 => {
                self.write_reg(d, s & t);
                Ok(())
            },
            0x25 => {
                self.write_reg(d, s | t);
                Ok(())
            },
            0x26 => {
                self.write_reg(d, s ^ t);
                Ok(())
            },
            0x27 => {
                self.write_reg(d, !(s | t));
                Ok(())
            },
            0x2A => {
                self.write_reg(d, if less_signed(s, t) {
                    1
                } else {
                    0
                });
                Ok(())
            },
            0x2B => {
                self.write_reg(d, if s < t {
                    1
                } else {
                    0
                });
                Ok(())
            },
            _ => self.raise(Exception::RI),
        }
    }

    /// The branches under primary opcode 1.
    fn execute_regimm(&mut self, instruction: u32) -> (r: Result<(), Fault>)
        requires
            old(self).wf(),
        ensures
            final(self).wf(),
            agrees(old(self)@, final(self)@, r, regimm(old(self)@, instruction)),
    {
        let s = self.read_reg(rs(instruction));
        match rt(instruction) {
            0x00 => {
                self.branch(instruction, less_signed(s, 0));
                Ok(())
            },
            0x01 => {
                self.branch(instruction, !less_signed(s, 0));
                Ok(())
            },
            _ => self.raise(Exception::RI),
        }
    }

    /// Jumps and the branches with an opcode of their own.
    fn execute_jump_or_branch(&mut self, instruction: u32)
        requires
            old(self).wf(),
            0x02 <= opcode_of(instruction) <= 0x07,
        ensures
            final(self).wf(),
            final(self)@ == jump_or_branch(old(self)@, instruction),
    {
        let s = self.read_reg(rs(instruction));
        let t = self.read_reg(rt(instruction));
        match opcode(instruction) {
            0x02 => {
                let target = jump_address(self.pc, address(instruction));
                self.jump(target);
            },
            0x03 => {
                let target = jump_address(self.pc, address(instruction));
                let link = add_wrapping(self.pc, 4);
                self.jump(target);
                self.write_reg(31, link);
            },
            0x04 => {
                self.branch(instruction, s == t);
            },
            0x05 => {
                self.branch(instruction, s != t);
            },
            0x06 => {
                self.branch(instruction, !less_signed(0, s));
            },
            _ => {
                self.branch(instruction, less_signed(0, s));
            },
        }
    }

    /// Arithmetic and logic with an immediate operand.
    fn execute_immediate(&mut self, instruction: u32) -> (r: Result<(), Fault>)
        requires
            old(self).wf(),
        ensures
            final(self).wf(),
            agrees(old(self)@, final(self)@, r, immediate_op(old(self)@, instruction)),
    {
        let s = self.read_reg(rs(instruction));
        let t = rt(instruction);
        let extended = immediate_sign_extended(instruction);
        let plain = immediate(instruction) as u32;
        match opcode(instruction) {
            0x08 => match add_trapping(s, extended) {
                Some(sum) => {
                    self.write_reg(t, sum);
                    Ok(())
                },
                None => self.raise(Exception::Ovf),
            },
            0x09 => {
                self.write_reg(t, add_wrapping(s, extended));
                Ok(())
            },
            0x0A => {
                self.write_reg(t, if less_signed(s, extended) {
                    1
                } else {
                    0
                });
                Ok(())
            },
            0x0B => {
                self.write_reg(t, if s < extended {
                    1
                } else {
                    0
                });
                Ok(())
            },
            0x0C => {
                self.write_reg(t, s & plain);
                Ok(())
            },
            0x0D => {
                self.write_reg(t, s | plain);
                Ok(())
            },
            0x0F => {
                self.write_reg(t, plain << 16);
                Ok(())
            },
            _ => self.raise(Exception::RI),
        }
    }

    /// The system coprocessor instructions.
    fn execute_coprocessor0(&mut self, instruction: u32) -> (r: Result<(), Fault>)
        requires
            old(self).wf(),
        ensures
            final(self).wf(),
            agrees(old(self)@, final(self)@, r, coprocessor0(old(self)@, instruction)),
    {
        let d = rd(instruction);
        match rs(instruction) {
            0x00 => {
                self.write_reg(rt(instruction), self.cop0.read_reg(d));
                Ok(())
            },
            0x04 => {
                self.cop0.write_reg(d, self.read_reg(rt(instruction)));
                Ok(())
            },
            0x10 => {
                let target = self.cop0.read_reg(EPC);
                if target % 4 != 0 {
                    return Err(Fault::MisalignedPc { target });
                }
                self.cop0.pop_mode();
                self.pc = target;
                Ok(())
            },
            _ => self.raise(Exception::RI),
        }
    }

    /// The loads.
    fn execute_load(&mut self, instruction: u32, timers: &TimerState) -> (r: Result<(), Fault>)
        requires
            old(self).wf(),
            0x20 <= opcode_of(instruction) <= 0x26,
        ensures
            final(self).wf(),
            agrees(
                old(self).machine(*timers),
                final(self).machine(*timers),
                r,
                load(old(self).machine(*timers), instruction),
            ),
    {
        let addr = add_wrapping(self.read_reg(rs(instruction)), immediate_sign_extended(instruction));
        let t = rt(instruction);
        let held = self.read_reg_committed(t);
        match opcode(instruction) {
            0x20 => match self.read_bus_byte(addr) {
                Ok(v) => {
                    self.load_into(t, sign_extended_byte(v));
                    Ok(())
                },
                Err(f) => Err(f),
            },
            0x24 => match self.read_bus_byte(addr) {
                Ok(v) => {
                    self.load_into(t, v as u32);
                    Ok(())
                },
                Err(f) => Err(f),
            },
            0x21 => {
                if addr % 2 != 0 {
                    return self.raise(Exception::AdEL);
                }
                match self.read_bus_half_word(addr, timers) {
                    Ok(v) => {
                        self.load_into(t, sign_extended_half(v));
                        Ok(())
                    },
                    Err(f) => Err(f),
                }
            },
            0x25 => {
                if addr % 2 != 0 {
                    return self.raise(Exception::AdEL);
                }
                match self.read_bus_half_word(addr, timers) {
                    Ok(v) => {
                        self.load_into(t, v as u32);
                        Ok(())
                    },
                    Err(f) => Err(f),
                }
            },
            0x23 => {
                if addr % 4 != 0 {
                    return self.raise(Exception::AdEL);
                }
                match self.read_bus_word(addr, timers) {
                    Ok(v) => {
                        self.load_into(t, v);
                        Ok(())
                    },
                    Err(f) => Err(f),
                }
            },
            0x22 => match self.read_bus_word(addr - addr % 4, timers) {
                Ok(v) => {
                    self.load_into(t, merge_lwl(held, v, addr % 4));
                    Ok(())
                },
                Err(f) => Err(f),
            },
            _ => match self.read_bus_word(addr - addr % 4, timers) {
                Ok(v) => {
                    self.load_into(t, merge_lwr(held, v, addr % 4));
                    Ok(())
                },
                Err(f) => Err(f),
            },
        }
    }

    /// The stores.
    fn execute_store(&mut self, instruction: u32, timers: &mut TimerState) -> (r: Result<(), Fault>)
        requires
            old(self).wf(),
            ({
                let op = opcode_of(instruction);
                op == 0x28 || op == 0x29 || op == 0x2A || op == 0x2B || op == 0x2E
            }),
        ensures
            final(self).wf(),
            agrees(
                old(self).machine(*old(timers)),
                final(self).machine(*final(timers)),
                r,
                store(old(self).machine(*old(timers)), instruction),
            ),
    {
        let addr = add_wrapping(self.read_reg(rs(instruction)), immediate_sign_extended(instruction));
        let t = self.read_reg(rt(instruction));
        match opcode(instruction) {
            0x28 => self.write_bus_byte(addr, (t % 0x100) as u8),
            0x29 => {
                if addr % 2 != 0 {
                    return self.raise(Exception::AdES);
                }
                self.write_bus_half_word(addr, (t % 0x1_0000) as u16, timers)
            },
            0x2B => {
                if addr % 4 != 0 {
                    return self.raise(Exception::AdES);
                }
                self.write_bus_word(addr, t, timers)
            },
            0x2A => self.store_unaligned(addr, t, true, timers),
            _ => self.store_unaligned(addr, t, false, timers),
        }
    }

    /// SWL, where `left` holds, or SWR.
    fn store_unaligned(&mut self, addr: u32, reg: u32, left: bool, timers: &mut TimerState) -> (r:
        Result<(), Fault>)
        requires
            old(self).wf(),
        ensures
            final(self).wf(),
            agrees(
                old(self).machine(*old(timers)),
                final(self).machine(*final(timers)),
                r,
                store_merged(old(self).machine(*old(timers)), addr, reg, left),
            ),
    {
        let base = addr - addr % 4;
        let previous = self.last_addr;
        let word = match self.read_bus_word(base, timers) {
            Ok(v) => v,
            Err(f) => {
                return Err(f);
            },
        };
        let merged = if left {
            merge_swl(word, reg, addr % 4)
        } else {
            merge_swr(word, reg, addr % 4)
        };
        match self.write_bus_word(base, merged, timers) {
            Ok(_) => Ok(()),
            Err(f) => {
                // The load went through and the store did not: the word is
                // in the ROM. The instruction leaves no trace.
                self.last_addr = previous;
                Err(f)
            },
        }
    }

    /// Executes one instruction. The program counter is expected to be past
    /// the instruction, as `step_instruction` leaves it. On a fault nothing
    /// has changed.
    pub fn execute_instruction(&mut self, instruction: u32, timers: &mut TimerState) -> (r: Result<
        (),
        Fault,
    >)
        requires
            old(self).wf(),
        ensures
            final(self).wf(),
            agrees(
                old(self).machine(*old(timers)),
                final(self).machine(*final(timers)),
                r,
                execute(old(self).machine(*old(timers)), instruction),
            ),
    {
        proof {
            reveal(execute);
        }
        match opcode(instruction) {
            0x00 => self.execute_special(instruction),
            0x01 => self.execute_regimm(instruction),
            0x02..=0x07 => {
                self.execute_jump_or_branch(instruction);
                Ok(())
            },
            0x08..=0x0F => self.execute_immediate(instruction),
            0x10 => self.execute_coprocessor0(instruction),
            0x12 => self.raise(Exception::CpU),
            0x20..=0x26 => self.execute_load(instruction, timers),
            0x28 | 0x29 | 0x2A | 0x2B | 0x2E => self.execute_store(instruction, timers),
            _ => self.raise(Exception::RI),
        }
    }

    /// The second half of a step: the instruction in an armed delay slot
    /// executes and the slot is disarmed.
    fn step_delay_slot(&mut self, timers: &mut TimerState) -> (r: Result<(), Fault>)
        requires
            old(self).wf(),
        ensures
            final(self).wf(),
            final(self).machine(*final(timers)) == run_delay_slot(
                old(self).machine(*old(timers)),
            ).machine,
            r == (match run_delay_slot(old(self).machine(*old(timers))).fault {
                Some(f) => Err::<(), Fault>(f),
                None => Ok(()),
            }),
    {
        if self.delay_slot != 0 {
            let delayed = match self.fetch(self.delay_slot) {
                Ok(word) => word,
                Err(f) => {
                    return Err(f);
                },
            };
            match self.execute_instruction(delayed, timers) {
                Ok(_) => {},
                Err(f) => {
                    return Err(f);
                },
            }
            self.delay_slot = 0;
        }
        Ok(())
    }

    /// The head of a step: the vertical blanking event is polled, an
    /// interrupt that is due is entered, and a pending load arrives.
    fn step_head(&mut self) -> (r: Result<(), Fault>)
        requires
            old(self).wf(),
        ensures
            final(self).wf(),
            match old(self)@.polled().dispatched() {
                Ok(entered) => r is Ok && final(self)@ == entered.committed(),
                Err(f) => r == Err::<(), Fault>(f) && final(self)@ == old(self)@.polled(),
            },
    {
        if self.main_bus.gpu.consume_vblank() {
            self.irq.post(InterruptSource::VBLANK);
        }
        if self.cop0.interrupt_enabled() && self.irq.is_pending() {
            if self.delay_slot != 0 {
                return Err(Fault::ExceptionInDelaySlot { slot: self.delay_slot });
            }
            self.fire_exception(Exception::Int);
        }
        self.commit_load();
        Ok(())
    }

    /// Runs one step: the interrupt check, the instruction at the program
    /// counter and, where that instruction armed one, its delay slot.
    pub fn step_instruction(&mut self, timers: &mut TimerState) -> (r: Result<(), Fault>)
        requires
            old(self).wf(),
        ensures
            final(self).wf(),
            final(self).machine(*final(timers)) == step(old(self).machine(*old(timers))).machine,
            r == (match step(old(self).machine(*old(timers))).fault {
                Some(f) => Err::<(), Fault>(f),
                None => Ok(()),
            }),
    {
        proof {
            reveal(step);
        }
        match self.step_head() {
            Ok(_) => {},
            Err(f) => {
                return Err(f);
            },
        }
        let instruction = match self.fetch(self.pc) {
            Ok(word) => word,
            Err(f) => {
                return Err(f);
            },
        };
        self.pc = add_wrapping(self.pc, 4);
        match self.execute_instruction(instruction, timers) {
            Ok(_) => self.step_delay_slot(timers),
            Err(f) => Err(f),
        }
    }
}

} // verus!
