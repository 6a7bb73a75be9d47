//! The three root counters.
//!
//! Each is a 16-bit counter with a mode and a target register. The mode picks
//! the clock that the counter follows and what happens at the target and at
//! the wrap from 0xFFFF.

use crate::cpu::interrupt::InterruptController;
use crate::cpu::InterruptSource;
use vstd::prelude::*;

verus! {

/// The first address of the timer window.
pub const TIMER_BASE: u32 = 0x1F80_1100;

/// The last address of the timer window.
pub const TIMER_LAST: u32 = 0x1F80_1128;

/// Mode bit 3: the counter returns to zero when it reaches the target.
pub const MODE_RESET_ON_TARGET: u16 = 0x0008;

/// Mode bit 4: reaching the target raises the timer's interrupt.
pub const MODE_IRQ_ON_TARGET: u16 = 0x0010;

/// Mode bit 5: wrapping from 0xFFFF to zero raises the timer's interrupt.
pub const MODE_IRQ_ON_WRAP: u16 = 0x0020;

/// Mode bit 8: timers 0 and 1 follow their own clock, the dot clock and
/// horizontal blanking, instead of the system clock.
pub const MODE_SOURCE_OWN: u16 = 0x0100;

/// Mode bit 9: timer 2 follows an eighth of the system clock instead of the
/// system clock.
pub const MODE_SOURCE_DIV8: u16 = 0x0200;

/// The clocks that drive the timers.
#[derive(Clone, Copy, Debug, PartialEq, Eq)]
pub enum Clock {
    /// The system clock.
    System,
    /// One eighth of the system clock.
    SystemDiv8,
    /// The video dot clock.
    Dot,
    /// Horizontal blanking.
    HBlank,
}

/// One root counter.
#[derive(Clone, Copy, Debug, PartialEq, Eq)]
pub struct Timer {
    pub counter: u16,
    pub mode: u16,
    pub target: u16,
}

impl Timer {
    /// Whether timer number `index` with this mode follows `clock`.
    pub open spec fn follows(self, index: int, clock: Clock) -> bool {
        match clock {
            Clock::System => if index == 2 {
                self.mode & MODE_SOURCE_DIV8 == 0
            } else {
                self.mode & MODE_SOURCE_OWN == 0
            },
            Clock::SystemDiv8 => index == 2 && self.mode & MODE_SOURCE_DIV8 != 0,
            Clock::Dot => index == 0 && self.mode & MODE_SOURCE_OWN != 0,
            Clock::HBlank => index == 1 && self.mode & MODE_SOURCE_OWN != 0,
        }
    }

    /// The counter value that follows the current one: one more, zero after
    /// 0xFFFF.
    pub open spec fn successor(self) -> u16 {
        if self.counter == 0xFFFF {
            0
        } else {
            (self.counter + 1) as u16
        }
    }

    /// The timer after one count.
    pub open spec fn counted(self) -> Timer {
        if self.successor() == self.target && self.mode & MODE_RESET_ON_TARGET != 0 {
            Timer { counter: 0, ..self }
        } else {
            Timer { counter: self.successor(), ..self }
        }
    }

    /// Whether one count raises the timer's interrupt.
    pub open spec fn fires(self) -> bool {
        ||| self.successor() == self.target && self.mode & MODE_IRQ_ON_TARGET != 0
        ||| self.counter == 0xFFFF && self.mode & MODE_IRQ_ON_WRAP != 0
    }

    /// Timer number `index` after one cycle of `clock`.
    pub open spec fn clocked(self, index: int, clock: Clock) -> Timer {
        if self.follows(index, clock) {
            self.counted()
        } else {
            self
        }
    }

    /// Whether one cycle of `clock` makes timer number `index` raise its
    /// interrupt.
    pub open spec fn raises(self, index: int, clock: Clock) -> bool {
        self.follows(index, clock) && self.fires()
    }

    /// The value of the register at byte offset `reg` in the timer's block:
    /// counter at 0, mode at 4, target at 8, zero elsewhere.
    pub open spec fn register(self, reg: u32) -> u16 {
        if reg == 0 {
            self.counter
        } else if reg == 4 {
            self.mode
        } else if reg == 8 {
            self.target
        } else {
            0
        }
    }

    /// The timer after `value` was written at byte offset `reg` in its
    /// block; a write elsewhere than to the three registers is dropped.
    pub open spec fn with_register(self, reg: u32, value: u16) -> Timer {
        if reg == 0 {
            Timer { counter: value, ..self }
        } else if reg == 4 {
            Timer { mode: value, ..self }
        } else if reg == 8 {
            Timer { target: value, ..self }
        } else {
            self
        }
    }

    fn follows_clock(&self, index: u8, clock: Clock) -> (r: bool)
        ensures
            r == self.follows(index as int, clock),
    {
        match clock {
            Clock::System => if index == 2 {
                self.mode & MODE_SOURCE_DIV8 == 0
            } else {
                self.mode & MODE_SOURCE_OWN == 0
            },
            Clock::SystemDiv8 => index == 2 && self.mode & MODE_SOURCE_DIV8 != 0,
            Clock::Dot => index == 0 && self.mode & MODE_SOURCE_OWN != 0,
            Clock::HBlank => index == 1 && self.mode & MODE_SOURCE_OWN != 0,
        }
    }

    /// Applies one cycle of `clock` to timer number `index` and tells whether
    /// the timer raises its interrupt.
    fn clock(&mut self, index: u8, clock: Clock) -> (r: bool)
        ensures
            *final(self) == old(self).clocked(index as int, clock),
            r == old(self).raises(index as int, clock),
    {
        if !self.follows_clock(index, clock) {
            return false;
        }
        let wrapped = self.counter == 0xFFFF;
        let next: u16 = if wrapped {
            0
        } else {
            self.counter + 1
        };
        let hit = next == self.target;
        let fired = (hit && self.mode & MODE_IRQ_ON_TARGET != 0) || (wrapped && self.mode
            & MODE_IRQ_ON_WRAP != 0);
        if hit && self.mode & MODE_RESET_ON_TARGET != 0 {
            self.counter = 0;
        } else {
            self.counter = next;
        }
        fired
    }

    fn read(&self, reg: u32) -> (r: u16)
        ensures
            r == self.register(reg),
    {
        if reg == 0 {
            self.counter
        } else if reg == 4 {
            self.mode
        } else if reg == 8 {
            self.target
        } else {
            0
        }
    }

    fn write(&mut self, reg: u32, value: u16)
        ensures
            *final(self) == old(self).with_register(reg, value),
    {
        if reg == 0 {
            self.counter = value;
        } else if reg == 4 {
            self.mode = value;
        } else if reg == 8 {
            self.target = value;
        }
    }
}

/// The three root counters.
#[derive(Clone, Copy, Debug, PartialEq, Eq)]
pub struct TimerState {
    pub t0: Timer,
    pub t1: Timer,
    pub t2: Timer,
}

/// Whether `addr` lies in the timer window.
pub open spec fn in_timer_window(addr: u32) -> bool {
    TIMER_BASE <= addr <= TIMER_LAST
}

impl TimerState {
    /// The timer whose block holds `addr`: sixteen bytes each from
    /// `TIMER_BASE`.
    pub open spec fn selected(self, addr: u32) -> Timer {
        let index = (addr - TIMER_BASE) / 0x10;
        if index == 0 {
            self.t0
        } else if index == 1 {
            self.t1
        } else {
            self.t2
        }
    }

    /// The value read at `addr`, an address in the timer window.
    pub open spec fn register(self, addr: u32) -> u16 {
        self.selected(addr).register(((addr - TIMER_BASE) % 0x10) as u32)
    }

    /// The timers after `value` was written at `addr`, an address in the
    /// timer window.
    pub open spec fn with_register(self, addr: u32, value: u16) -> TimerState {
        let index = (addr - TIMER_BASE) / 0x10;
        let timer = self.selected(addr).with_register(((addr - TIMER_BASE) % 0x10) as u32, value);
        if index == 0 {
            TimerState { t0: timer, ..self }
        } else if index == 1 {
            TimerState { t1: timer, ..self }
        } else {
            TimerState { t2: timer, ..self }
        }
    }

    /// The timers after one cycle of `clock`.
    pub open spec fn clocked(self, clock: Clock) -> TimerState {
        TimerState {
            t0: self.t0.clocked(0, clock),
            t1: self.t1.clocked(1, clock),
            t2: self.t2.clocked(2, clock),
        }
    }

    /// The interrupt controller after one cycle of `clock` on these timers:
    /// each timer that fires posts its source.
    pub open spec fn interrupts(self, irq: InterruptController, clock: Clock) -> InterruptController {
        let a = if self.t0.raises(0, clock) {
            irq.posted(InterruptSource::TMR0)
        } else {
            irq
        };
        let b = if self.t1.raises(1, clock) {
            a.posted(InterruptSource::TMR1)
        } else {
            a
        };
        if self.t2.raises(2, clock) {
            b.posted(InterruptSource::TMR2)
        } else {
            b
        }
    }

    /// Three timers with every register zero.
    pub fn new() -> (t: TimerState)
        ensures
            t == (TimerState {
                t0: Timer { counter: 0, mode: 0, target: 0 },
                t1: Timer { counter: 0, mode: 0, target: 0 },
                t2: Timer { counter: 0, mode: 0, target: 0 },
            }),
    {
        TimerState {
            t0: Timer { counter: 0, mode: 0, target: 0 },
            t1: Timer { counter: 0, mode: 0, target: 0 },
            t2: Timer { counter: 0, mode: 0, target: 0 },
        }
    }

    /// A halfword read at `addr` in the timer window.
    pub fn read_half_word(&self, addr: u32) -> (r: u16)
        requires
            in_timer_window(addr),
        ensures
            r == self.register(addr),
    {
        let offset = addr - TIMER_BASE;
        let index = offset / 0x10;
        let reg = offset % 0x10;
        if index == 0 {
            self.t0.read(reg)
        } else if index == 1 {
            self.t1.read(reg)
        } else {
            self.t2.read(reg)
        }
    }

    /// A word read at `addr` in the timer window: the register in the low
    /// half, zero above.
    pub fn read_word(&self, addr: u32) -> (r: u32)
        requires
            in_timer_window(addr),
        ensures
            r == self.register(addr),
    {
        self.read_half_word(addr) as u32
    }

    /// A halfword write at `addr` in the timer window.
    pub fn write_half_word(&mut self, addr: u32, value: u16)
        requires
            in_timer_window(addr),
        ensures
            *final(self) == old(self).with_register(addr, value),
    {
        let offset = addr - TIMER_BASE;
        let index = offset / 0x10;
        let reg = offset % 0x10;
        if index == 0 {
            self.t0.write(reg, value);
        } else if index == 1 {
            self.t1.write(reg, value);
        } else {
            self.t2.write(reg, value);
        }
    }

    /// A word write at `addr` in the timer window: the low half of `value`
    /// is stored.
    pub fn write_word(&mut self, addr: u32, value: u32)
        requires
            in_timer_window(addr),
        ensures
            *final(self) == old(self).with_register(addr, (value % 0x1_0000) as u16),
    {
        self.write_half_word(addr, (value % 0x1_0000) as u16);
    }

    fn advance(&mut self, irq: &mut InterruptController, clock: Clock)
        ensures
            *final(self) == old(self).clocked(clock),
            *final(irq) == old(self).interrupts(*old(irq), clock),
    {
        if self.t0.clock(0, clock) {
            irq.post(InterruptSource::TMR0);
        }
        if self.t1.clock(1, clock) {
            irq.post(InterruptSource::TMR1);
        }
        if self.t2.clock(2, clock) {
            irq.post(InterruptSource::TMR2);
        }
    }

    /// One cycle of the system clock.
    pub fn update_sys_clock(&mut self, irq: &mut InterruptController)
        ensures
            *final(self) == old(self).clocked(Clock::System),
            *final(irq) == old(self).interrupts(*old(irq), Clock::System),
    {
        self.advance(irq, Clock::System);
    }

    /// One cycle of the eighth of the system clock.
    pub fn update_sys_div_8(&mut self, irq: &mut InterruptController)
        ensures
            *final(self) == old(self).clocked(Clock::SystemDiv8),
            *final(irq) == old(self).interrupts(*old(irq), Clock::SystemDiv8),
    {
        self.advance(irq, Clock::SystemDiv8);
    }

    /// One cycle of the dot clock.
    pub fn update_dot_clock(&mut self, irq: &mut InterruptController)
        ensures
            *final(self) == old(self).clocked(Clock::Dot),
            *final(irq) == old(self).interrupts(*old(irq), Clock::Dot),
    {
        self.advance(irq, Clock::Dot);
    }

    /// One horizontal blanking.
    pub fn update_h_blank(&mut self, irq: &mut InterruptController)
        ensures
            *final(self) == old(self).clocked(Clock::HBlank),
            *final(irq) == old(self).interrupts(*old(irq), Clock::HBlank),
    {
        self.advance(irq, Clock::HBlank);
    }
}

} // verus!
