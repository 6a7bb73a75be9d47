//! What holds of the processor in every state that it can reach, and what
//! holds of its arithmetic.

use crate::bits::bit_of;
use crate::bytes::{byte_of, le_word, put_word};
use crate::cpu::alu::{
    lemma_branch_target_aligned, lemma_jump_target_aligned, lemma_neighbours_aligned, lwl_value,
    lwr_value, shifted_right_arithmetic, signed, sum_overflows, swl_value, swr_value, wrap,
};
use crate::cpu::instruction::{
    address_of, funct_of, immediate_of, opcode_of, rd_of, rs_of, rt_of, sign_extend_half,
};
use crate::cpu::cop0::{
    cause_code, lemma_cause_code, lemma_mode_stack, CAUSE, EPC, STATUS, STATUS_BEV, STATUS_IEC,
};
use crate::cpu::interrupt::{lemma_acknowledge_sets_nothing, lemma_post_bit};
use crate::cpu::InterruptSource;
use crate::cpu::semantics::{effective_address, flag, word_base};
use crate::cpu::state::{RAM_EXCEPTION_VECTOR, ROM_EXCEPTION_VECTOR};
use crate::cpu::semantics::{
    branched, coprocessor0, execute, immediate_op, jump_or_branch, load, regimm, run_delay_slot,
    special, step, store,
};
use crate::cpu::state::{CpuView, LoadDelay, Machine};
use crate::cpu::Exception;
use crate::fault::{Fault, Width};
use crate::memory::RAM_SIZE;
use vstd::prelude::*;

verus! {

/// What no instruction and no step of the processor changes: the invariant
/// holds after as before, the ROM and video memory keep their contents, the
/// raster stays where it is, and the note of a loaded executable stays.
pub open spec fn kept(before: CpuView, after: CpuView) -> bool {
    &&& after.wf()
    &&& after.bus.bios == before.bus.bios
    &&& after.bus.gpu.vram == before.bus.gpu.vram
    &&& after.bus.gpu.state.dot == before.bus.gpu.state.dot
    &&& after.bus.gpu.state.line == before.bus.gpu.state.line
    &&& after.load_exe == before.load_exe
}

/// `kept` of a result, where there is one.
pub open spec fn kept_if_ok(before: CpuView, r: Result<CpuView, Fault>) -> bool {
    r matches Ok(after) ==> kept(before, after)
}

proof fn lemma_entered(c: CpuView, exception: Exception)
    requires
        c.wf(),
    ensures
        kept_if_ok(c, c.entered(exception)),
        kept_if_ok(c, c.raised(exception)),
{
    lemma_neighbours_aligned(c.pc);
}

proof fn lemma_special(c: CpuView, i: u32)
    requires
        c.wf(),
    ensures
        kept_if_ok(c, special(c, i)),
{
    lemma_entered(c, Exception::Sys);
    lemma_entered(c, Exception::Ovf);
    lemma_entered(c, Exception::RI);
}

proof fn lemma_branched(c: CpuView, i: u32, taken: bool)
    requires
        c.wf(),
    ensures
        kept(c, branched(c, i, taken)),
{
    lemma_branch_target_aligned(c.pc, immediate_of(i));
}

proof fn lemma_regimm(c: CpuView, i: u32)
    requires
        c.wf(),
    ensures
        kept_if_ok(c, regimm(c, i)),
{
    lemma_entered(c, Exception::RI);
    lemma_branched(c, i, true);
    lemma_branched(c, i, false);
}

proof fn lemma_jump_or_branch(c: CpuView, i: u32)
    requires
        c.wf(),
    ensures
        kept(c, jump_or_branch(c, i)),
{
    lemma_jump_target_aligned(c.pc, address_of(i));
    lemma_branched(c, i, true);
    lemma_branched(c, i, false);
}

proof fn lemma_immediate_op(c: CpuView, i: u32)
    requires
        c.wf(),
    ensures
        kept_if_ok(c, immediate_op(c, i)),
{
    lemma_entered(c, Exception::Ovf);
    lemma_entered(c, Exception::RI);
}

proof fn lemma_coprocessor0(c: CpuView, i: u32)
    requires
        c.wf(),
    ensures
        kept_if_ok(c, coprocessor0(c, i)),
{
    lemma_entered(c, Exception::RI);
}

proof fn lemma_written(m: Machine, addr: u32, width: Width, value: u32)
    requires
        m.cpu.wf(),
    ensures
        m.written(addr, width, value) matches Ok(after) ==> kept(m.cpu, after.cpu),
{
}

proof fn lemma_load(m: Machine, i: u32)
    requires
        m.cpu.wf(),
    ensures
        load(m, i) matches Ok(after) ==> kept(m.cpu, after.cpu),
{
    lemma_entered(m.cpu, Exception::AdEL);
}

proof fn lemma_store(m: Machine, i: u32)
    requires
        m.cpu.wf(),
    ensures
        store(m, i) matches Ok(after) ==> kept(m.cpu, after.cpu),
{
    lemma_entered(m.cpu, Exception::AdES);
    let addr = effective_address(m.cpu, i);
    let rt = m.cpu.reg(rt_of(i));
    let base = word_base(addr);
    lemma_written(m, addr, Width::Byte, rt % 0x100);
    lemma_written(m, addr, Width::Half, rt % 0x1_0000);
    lemma_written(m, addr, Width::Word, rt);
    if let Ok(v) = m.read(base, Width::Word) {
        lemma_written(m.touched(base), base, Width::Word, swl_value(v, rt, addr % 4));
        lemma_written(m.touched(base), base, Width::Word, swr_value(v, rt, addr % 4));
    }
}

/// Every instruction keeps the invariant of the processor: after it
/// register 0 is still zero, the program counter and an armed delay slot
/// are still multiples of 4, and at most one load is pending. It leaves the
/// ROM, video memory and the raster alone.
pub proof fn lemma_execute_keeps_invariant(m: Machine, instruction: u32)
    requires
        m.cpu.wf(),
    ensures
        execute(m, instruction) matches Ok(after) ==> kept(m.cpu, after.cpu),
{
    reveal(execute);
    lemma_special(m.cpu, instruction);
    lemma_regimm(m.cpu, instruction);
    lemma_jump_or_branch(m.cpu, instruction);
    lemma_immediate_op(m.cpu, instruction);
    lemma_coprocessor0(m.cpu, instruction);
    lemma_entered(m.cpu, Exception::CpU);
    lemma_entered(m.cpu, Exception::RI);
    lemma_load(m, instruction);
    lemma_store(m, instruction);
}

proof fn lemma_run_delay_slot(m: Machine)
    requires
        m.cpu.wf(),
    ensures
        kept(m.cpu, run_delay_slot(m).machine.cpu),
{
    if m.cpu.delay_slot != 0 {
        if let Ok(instruction) = m.cpu.instruction_at(m.cpu.delay_slot) {
            lemma_execute_keeps_invariant(m, instruction);
        }
    }
}

/// Every step keeps the invariant of the processor, whether it ends in a
/// fault or not, and leaves the ROM, video memory and the raster alone.
pub proof fn lemma_step_keeps_invariant(m: Machine)
    requires
        m.cpu.wf(),
    ensures
        kept(m.cpu, step(m).machine.cpu),
{
    reveal(step);
    let polled = m.with_cpu(m.cpu.polled());
    lemma_entered(polled.cpu, Exception::Int);
    if let Ok(entered) = polled.cpu.dispatched() {
        let ready = polled.with_cpu(entered.committed());
        if let Ok(instruction) = ready.cpu.instruction_at(ready.cpu.pc) {
            lemma_neighbours_aligned(ready.cpu.pc);
            let advanced = ready.with_cpu(
                CpuView { pc: wrap(ready.cpu.pc + 4), ..ready.cpu },
            );
            lemma_execute_keeps_invariant(advanced, instruction);
            if let Ok(after) = execute(advanced, instruction) {
                lemma_run_delay_slot(after);
            }
        }
    }
}

/// A store by the processor never sets a bit of I_STAT, whatever its
/// address, width and value: every bit that is set afterwards was set
/// before.
pub proof fn lemma_store_sets_no_interrupt(m: Machine, addr: u32, width: Width, value: u32, i: u32)
    requires
        i < 32,
    ensures
        m.written(addr, width, value) matches Ok(after) ==> (bit_of(after.cpu.irq.stat, i) ==> bit_of(
            m.cpu.irq.stat,
            i,
        )),
{
    lemma_acknowledge_sets_nothing(m.cpu.irq, value, (value % 0x1_0000) as u16, i);
}

/// Whether `i` is one of the store instructions.
pub open spec fn is_store(i: u32) -> bool {
    let op = opcode_of(i);
    op == 0x28 || op == 0x29 || op == 0x2A || op == 0x2B || op == 0x2E
}

/// What every instruction leaves alone in the interrupt controller and the
/// video chip: the events of the video chip stay as they are, and I_STAT
/// and I_MASK stay as they are unless `touches` holds.
pub open spec fn quiet(before: CpuView, after: CpuView, touches: bool) -> bool {
    &&& touches || after.irq == before.irq
    &&& after.bus.gpu.state.vblank == before.bus.gpu.state.vblank
    &&& after.bus.gpu.state.hblank == before.bus.gpu.state.hblank
    &&& after.bus.gpu.state.frame_done == before.bus.gpu.state.frame_done
}

proof fn lemma_quiet_special(c: CpuView, i: u32)
    ensures
        special(c, i) matches Ok(after) ==> quiet(c, after, false),
{
}

proof fn lemma_quiet_regimm(c: CpuView, i: u32)
    ensures
        regimm(c, i) matches Ok(after) ==> quiet(c, after, false),
        quiet(c, jump_or_branch(c, i), false),
{
}

proof fn lemma_quiet_immediate(c: CpuView, i: u32)
    ensures
        immediate_op(c, i) matches Ok(after) ==> quiet(c, after, false),
        coprocessor0(c, i) matches Ok(after) ==> quiet(c, after, false),
        c.raised(Exception::CpU) matches Ok(after) ==> quiet(c, after, false),
        c.raised(Exception::RI) matches Ok(after) ==> quiet(c, after, false),
{
}

proof fn lemma_quiet_load(m: Machine, i: u32)
    ensures
        load(m, i) matches Ok(after) ==> quiet(m.cpu, after.cpu, false),
{
}

proof fn lemma_quiet_written(m: Machine, addr: u32, width: Width, value: u32)
    ensures
        m.written(addr, width, value) matches Ok(after) ==> quiet(m.cpu, after.cpu, true),
{
}

proof fn lemma_quiet_store(m: Machine, i: u32)
    ensures
        store(m, i) matches Ok(after) ==> quiet(m.cpu, after.cpu, true),
{
    let addr = effective_address(m.cpu, i);
    let rt = m.cpu.reg(rt_of(i));
    let base = word_base(addr);
    lemma_quiet_written(m, addr, Width::Byte, rt % 0x100);
    lemma_quiet_written(m, addr, Width::Half, rt % 0x1_0000);
    lemma_quiet_written(m, addr, Width::Word, rt);
    if let Ok(v) = m.read(base, Width::Word) {
        lemma_quiet_written(m.touched(base), base, Width::Word, swl_value(v, rt, addr % 4));
        lemma_quiet_written(m.touched(base), base, Width::Word, swr_value(v, rt, addr % 4));
    }
}

/// Only stores reach the interrupt controller: every other instruction
/// leaves I_STAT and I_MASK as they were. No instruction touches the events
/// of the video chip.
pub proof fn lemma_only_stores_reach_interrupts(m: Machine, instruction: u32)
    ensures
        execute(m, instruction) matches Ok(after) ==> quiet(
            m.cpu,
            after.cpu,
            is_store(instruction),
        ),
{
    reveal(execute);
    lemma_quiet_special(m.cpu, instruction);
    lemma_quiet_regimm(m.cpu, instruction);
    lemma_quiet_immediate(m.cpu, instruction);
    lemma_quiet_load(m, instruction);
    lemma_quiet_store(m, instruction);
}

/// No instruction sets a bit of I_STAT: every bit that is set after it was
/// set before it.
pub proof fn lemma_execute_sets_no_interrupt(m: Machine, instruction: u32, i: u32)
    requires
        i < 32,
    ensures
        execute(m, instruction) matches Ok(after) ==> (bit_of(after.cpu.irq.stat, i) ==> bit_of(
            m.cpu.irq.stat,
            i,
        )),
{
    lemma_only_stores_reach_interrupts(m, instruction);
    if is_store(instruction) {
        assert(execute(m, instruction) == store(m, instruction)) by {
            reveal(execute);
        }
        let addr = effective_address(m.cpu, instruction);
        let rt = m.cpu.reg(rt_of(instruction));
        let base = word_base(addr);
        lemma_entered_keeps_interrupts(m.cpu, Exception::AdES);
        lemma_store_sets_no_interrupt(m, addr, Width::Byte, rt % 0x100, i);
        lemma_store_sets_no_interrupt(m, addr, Width::Half, rt % 0x1_0000, i);
        lemma_store_sets_no_interrupt(m, addr, Width::Word, rt, i);
        if let Ok(v) = m.read(base, Width::Word) {
            lemma_store_sets_no_interrupt(
                m.touched(base),
                base,
                Width::Word,
                swl_value(v, rt, addr % 4),
                i,
            );
            lemma_store_sets_no_interrupt(
                m.touched(base),
                base,
                Width::Word,
                swr_value(v, rt, addr % 4),
                i,
            );
        }
    }
}

proof fn lemma_entered_keeps_interrupts(c: CpuView, exception: Exception)
    ensures
        c.entered(exception) matches Ok(after) ==> quiet(c, after, false),
        c.raised(exception) matches Ok(after) ==> quiet(c, after, false),
{
}

/// The poll for vertical blanking: the event is consumed, bit 0 of I_STAT
/// is set where there was one, and no other bit of I_STAT and nothing of
/// I_MASK changes.
pub proof fn lemma_poll_posts_vblank(c: CpuView, i: u32)
    requires
        i < 32,
    ensures
        !c.polled().bus.gpu.state.vblank,
        bit_of(c.polled().irq.stat, i) == (bit_of(c.irq.stat, i) || (i == 0
            && c.bus.gpu.state.vblank)),
        c.polled().irq.mask == c.irq.mask,
{
    lemma_post_bit(c.irq, InterruptSource::VBLANK, i);
}

proof fn lemma_delay_slot_interrupts(m: Machine, i: u32)
    requires
        i < 32,
    ensures
        bit_of(run_delay_slot(m).machine.cpu.irq.stat, i) ==> bit_of(m.cpu.irq.stat, i),
        run_delay_slot(m).machine.cpu.bus.gpu.state.vblank == m.cpu.bus.gpu.state.vblank,
{
    if m.cpu.delay_slot != 0 {
        if let Ok(instruction) = m.cpu.instruction_at(m.cpu.delay_slot) {
            lemma_execute_sets_no_interrupt(m, instruction, i);
            lemma_only_stores_reach_interrupts(m, instruction);
        }
    }
}

/// A step consumes the vertical blanking event, and in a step nothing but
/// the poll for that event sets a bit of I_STAT: a bit that is set after the
/// step was set before it, or it is bit 0 and vertical blanking had begun.
pub proof fn lemma_step_interrupts(m: Machine, i: u32)
    requires
        i < 32,
    ensures
        !step(m).machine.cpu.bus.gpu.state.vblank,
        bit_of(step(m).machine.cpu.irq.stat, i) ==> bit_of(m.cpu.irq.stat, i) || (i == 0
            && m.cpu.bus.gpu.state.vblank),
{
    reveal(step);
    lemma_poll_posts_vblank(m.cpu, i);
    let polled = m.with_cpu(m.cpu.polled());
    lemma_entered_keeps_interrupts(polled.cpu, Exception::Int);
    if let Ok(entered) = polled.cpu.dispatched() {
        let ready = polled.with_cpu(entered.committed());
        if let Ok(instruction) = ready.cpu.instruction_at(ready.cpu.pc) {
            let advanced = ready.with_cpu(CpuView { pc: wrap(ready.cpu.pc + 4), ..ready.cpu });
            lemma_execute_sets_no_interrupt(advanced, instruction, i);
            lemma_only_stores_reach_interrupts(advanced, instruction);
            if let Ok(after) = execute(advanced, instruction) {
                lemma_delay_slot_interrupts(after, i);
            }
        }
    }
}

/// Adding `b` to `a` with ADD and taking `b` away again with SUBU gives `a`
/// back, where the addition does not overflow.
pub proof fn lemma_add_then_subtract(a: u32, b: u32)
    requires
        !sum_overflows(a, b),
    ensures
        wrap(wrap(signed(a) + signed(b)) - b) == a,
{
}

/// MULTU by one puts the other operand in LO and zero in HI.
pub proof fn lemma_multu_by_one(c: CpuView, i: u32)
    requires
        funct_of(i) == 0x19,
        c.reg(rt_of(i)) == 1,
    ensures
        special(c, i) == Ok::<CpuView, Fault>(CpuView { hi: 0, lo: c.reg(rs_of(i)), ..c }),
{
}

/// ADD raises Ovf exactly where the signed sum leaves the 32-bit range, and
/// ADDU never raises anything: it gives the sum modulo 2^32.
pub proof fn lemma_add_traps_addu_wraps(c: CpuView, i: u32)
    requires
        funct_of(i) == 0x20 || funct_of(i) == 0x21,
    ensures
        funct_of(i) == 0x20 && sum_overflows(c.reg(rs_of(i)), c.reg(rt_of(i))) ==> special(c, i)
            == c.raised(Exception::Ovf),
        funct_of(i) == 0x21 ==> special(c, i) == Ok::<CpuView, Fault>(
            c.with_reg(rd_of(i), wrap(c.reg(rs_of(i)) + c.reg(rt_of(i)))),
        ),
        sum_overflows(0x8000_0000, 0xFFFF_FFFF),
        wrap(0x8000_0000u32 + 0xFFFF_FFFFu32) == 0x7FFF_FFFF,
{
}

/// SLTIU compares, unsigned, against the immediate extended with its sign:
/// an immediate of 0xFFFF stands for 0xFFFF_FFFF, so that the result is one
/// for every value but 0xFFFF_FFFF itself.
pub proof fn lemma_sltiu_sign_extends(c: CpuView, i: u32)
    requires
        opcode_of(i) == 0x0B,
    ensures
        immediate_op(c, i) == Ok::<CpuView, Fault>(
            c.with_reg(rt_of(i), flag(c.reg(rs_of(i)) < sign_extend_half(immediate_of(i)))),
        ),
        immediate_of(i) == 0xFFFF ==> immediate_op(c, i) == Ok::<CpuView, Fault>(
            c.with_reg(rt_of(i), flag(c.reg(rs_of(i)) != 0xFFFF_FFFF)),
        ),
{
}

/// An arithmetic shift right of 0x8000_0000 by one gives 0xC000_0000; in
/// general the result of an arithmetic shift has the sign of its operand.
pub proof fn lemma_sra_keeps_sign(a: u32, s: u32)
    requires
        s < 32,
    ensures
        shifted_right_arithmetic(0x8000_0000, 1) == 0xC000_0000,
        (shifted_right_arithmetic(a, s) >= 0x8000_0000) == (a >= 0x8000_0000),
{
    assert(!((!0x8000_0000u32) >> 1u32) == 0xC000_0000u32) by (bit_vector);
    assert(s < 32 ==> (a < 0x8000_0000u32 ==> (a >> s) < 0x8000_0000u32) && (a >= 0x8000_0000u32
        ==> !((!a) >> s) >= 0x8000_0000u32)) by (bit_vector);
}

proof fn lemma_merge_lanes(
    reg: u32,
    lane: u32,
    b0: u8,
    b1: u8,
    b2: u8,
    b3: u8,
    h0: u8,
    h1: u8,
    h2: u8,
    h3: u8,
)
    by (bit_vector)
    requires
        lane < 4,
    ensures
        ({
            let low = (b0 + 0x100 * b1 + 0x1_0000 * b2 + 0x100_0000 * b3) as u32;
            let high = if lane == 0 {
                low
            } else {
                (h0 + 0x100 * h1 + 0x1_0000 * h2 + 0x100_0000 * h3) as u32
            };
            let word = if lane == 0 {
                (b0 + 0x100 * b1 + 0x1_0000 * b2 + 0x100_0000 * b3) as u32
            } else if lane == 1 {
                (b1 + 0x100 * b2 + 0x1_0000 * b3 + 0x100_0000 * h0) as u32
            } else if lane == 2 {
                (b2 + 0x100 * b3 + 0x1_0000 * h0 + 0x100_0000 * h1) as u32
            } else {
                (b3 + 0x100 * h0 + 0x1_0000 * h1 + 0x100_0000 * h2) as u32
            };
            &&& lwr_value(lwl_value(reg, high, ((lane + 3) % 4) as u32), low, lane) == word
            &&& lwl_value(lwr_value(reg, low, lane), high, ((lane + 3) % 4) as u32) == word
        }),
{
}

/// LWL at the last byte of an unaligned word and LWR at its first byte, one
/// after the other in either order, put the whole word in the register,
/// whatever the register held: for a word at `addr` in `memory`, merging the
/// aligned word around `addr + 3` from the left and the aligned word around
/// `addr` from the right gives the word at `addr`.
pub proof fn lemma_lwl_lwr_reconstruct(memory: Seq<u8>, addr: u32, reg: u32)
    requires
        addr + 3 < memory.len(),
        addr + 3 <= u32::MAX,
    ensures
        lwr_value(
            lwl_value(
                reg,
                le_word(memory, word_base((addr + 3) as u32) as int),
                ((addr + 3) % 4) as u32,
            ),
            le_word(memory, word_base(addr) as int),
            addr % 4,
        ) == le_word(memory, addr as int),
        lwl_value(
            lwr_value(reg, le_word(memory, word_base(addr) as int), addr % 4),
            le_word(memory, word_base((addr + 3) as u32) as int),
            ((addr + 3) % 4) as u32,
        ) == le_word(memory, addr as int),
{
    let low = word_base(addr) as int;
    let high = word_base((addr + 3) as u32) as int;
    lemma_merge_lanes(
        reg,
        addr % 4,
        memory[low],
        memory[low + 1],
        memory[low + 2],
        memory[low + 3],
        memory[high],
        memory[high + 1],
        memory[high + 2],
        memory[high + 3],
    );
}

/// The value that a load instruction has put on its way, if it has.
pub open spec fn arriving(r: Result<Machine, Fault>) -> Option<u32> {
    match r {
        Ok(m) => match m.cpu.load_delay {
            Some(d) => Some(d.value),
            None => None,
        },
        Err(_) => None,
    }
}

/// One of LWL and LWR on a word that lies in RAM: the instruction does not
/// fault, it changes no register and nothing on the bus, and what it puts
/// on its way to register `rt` is the merge of the aligned word around its
/// address into the register as it stands once an earlier load has arrived.
pub proof fn lemma_unaligned_load(m: Machine, i: u32)
    requires
        m.cpu.wf(),
        opcode_of(i) == 0x22 || opcode_of(i) == 0x26,
        effective_address(m.cpu, i) < RAM_SIZE,
    ensures
        load(m, i) is Ok,
        ({
            let after = load(m, i)->Ok_0;
            let addr = effective_address(m.cpu, i);
            let word = le_word(m.cpu.bus.ram, word_base(addr) as int);
            let held = m.cpu.committed().reg(rt_of(i));
            &&& after.cpu.wf()
            &&& after.cpu.regs == m.cpu.committed().regs
            &&& after.cpu.bus == m.cpu.bus
            &&& after.timers == m.timers
            &&& after.cpu.load_delay == Some(
                LoadDelay {
                    register: rt_of(i),
                    value: if opcode_of(i) == 0x22 {
                        lwl_value(held, word, addr % 4)
                    } else {
                        lwr_value(held, word, addr % 4)
                    },
                },
            )
        }),
{
    lemma_load(m, i);
}

/// LWR at the first byte of an unaligned word in RAM and LWL at its last
/// byte, executed one after the other in either order on one register,
/// leave the word on its way to that register: once the load has arrived
/// the register holds the word and no bit of what it held before. Nothing on
/// the bus has changed. `addr` is the address of the word, `first` and
/// `second` are the two instructions.
pub proof fn lemma_unaligned_load_pair(m: Machine, first: u32, second: u32, addr: u32)
    requires
        m.cpu.wf(),
        addr + 3 < RAM_SIZE,
        rt_of(first) == rt_of(second),
        rt_of(first) != 0,
        ({
            ||| opcode_of(first) == 0x26 && opcode_of(second) == 0x22 && effective_address(
                m.cpu,
                first,
            ) == addr && effective_address(m.cpu.committed(), second) == addr + 3
            ||| opcode_of(first) == 0x22 && opcode_of(second) == 0x26 && effective_address(
                m.cpu,
                first,
            ) == addr + 3 && effective_address(m.cpu.committed(), second) == addr
        }),
    ensures
        load(m, first) is Ok,
        load(load(m, first)->Ok_0, second) is Ok,
        ({
            let after = load(load(m, first)->Ok_0, second)->Ok_0;
            &&& after.cpu.committed().reg(rt_of(first)) == le_word(m.cpu.bus.ram, addr as int)
            &&& after.cpu.bus == m.cpu.bus
        }),
{
    let rt = rt_of(first);
    lemma_unaligned_load(m, first);
    let middle = load(m, first)->Ok_0;
    assert(effective_address(middle.cpu, second) == effective_address(m.cpu.committed(), second));
    lemma_unaligned_load(middle, second);
    lemma_lwl_lwr_reconstruct(m.cpu.bus.ram, addr, m.cpu.committed().reg(rt));
}

/// The same of the two instructions as `execute` runs them: executed one
/// after the other, with no step between them, LWR and LWL on one register
/// leave the word at `addr` on its way to that register, and nothing on the
/// bus has changed.
pub proof fn lemma_unaligned_load_pair_executed(m: Machine, first: u32, second: u32, addr: u32)
    requires
        m.cpu.wf(),
        addr + 3 < RAM_SIZE,
        rt_of(first) == rt_of(second),
        rt_of(first) != 0,
        ({
            ||| opcode_of(first) == 0x26 && opcode_of(second) == 0x22 && effective_address(
                m.cpu,
                first,
            ) == addr && effective_address(m.cpu.committed(), second) == addr + 3
            ||| opcode_of(first) == 0x22 && opcode_of(second) == 0x26 && effective_address(
                m.cpu,
                first,
            ) == addr + 3 && effective_address(m.cpu.committed(), second) == addr
        }),
    ensures
        execute(m, first) is Ok,
        execute(execute(m, first)->Ok_0, second) is Ok,
        ({
            let after = execute(execute(m, first)->Ok_0, second)->Ok_0;
            &&& after.cpu.load_delay == Some(
                LoadDelay { register: rt_of(first), value: le_word(m.cpu.bus.ram, addr as int) },
            )
            &&& after.cpu.committed().reg(rt_of(first)) == le_word(m.cpu.bus.ram, addr as int)
            &&& after.cpu.bus == m.cpu.bus
        }),
{
    lemma_unaligned_load_pair(m, first, second, addr);
    assert(execute(m, first) == load(m, first)) by {
        reveal(execute);
    }
    let middle = load(m, first)->Ok_0;
    assert(execute(middle, second) == load(middle, second)) by {
        reveal(execute);
    }
    lemma_unaligned_load(m, first);
    lemma_unaligned_load(middle, second);
}

proof fn lemma_bytes_of_word(b0: u8, b1: u8, b2: u8, b3: u8)
    by (bit_vector)
    ensures
        ({
            let w = (b0 + 0x100 * b1 + 0x1_0000 * b2 + 0x100_0000 * b3) as u32;
            &&& (w % 0x100) as u8 == b0
            &&& (w / 0x100 % 0x100) as u8 == b1
            &&& (w / 0x1_0000 % 0x100) as u8 == b2
            &&& (w / 0x100_0000 % 0x100) as u8 == b3
        }),
{
}

proof fn lemma_merged_bytes(word: u32, reg: u32, lane: u32)
    by (bit_vector)
    requires
        lane < 4,
    ensures
        ({
            let w0 = (word % 0x100) as u8;
            let w1 = (word / 0x100 % 0x100) as u8;
            let w2 = (word / 0x1_0000 % 0x100) as u8;
            let w3 = (word / 0x100_0000 % 0x100) as u8;
            let r0 = (reg % 0x100) as u8;
            let r1 = (reg / 0x100 % 0x100) as u8;
            let r2 = (reg / 0x1_0000 % 0x100) as u8;
            let r3 = (reg / 0x100_0000 % 0x100) as u8;
            let left = swl_value(word, reg, lane);
            let right = swr_value(word, reg, lane);
            &&& (left % 0x100) as u8 == (if lane == 0 {
                r3
            } else if lane == 1 {
                r2
            } else if lane == 2 {
                r1
            } else {
                r0
            })
            &&& (left / 0x100 % 0x100) as u8 == (if lane == 0 {
                w1
            } else if lane == 1 {
                r3
            } else if lane == 2 {
                r2
            } else {
                r1
            })
            &&& (left / 0x1_0000 % 0x100) as u8 == (if lane == 0 {
                w2
            } else if lane == 1 {
                w2
            } else if lane == 2 {
                r3
            } else {
                r2
            })
            &&& (left / 0x100_0000 % 0x100) as u8 == (if lane == 3 {
                r3
            } else {
                w3
            })
            &&& (right % 0x100) as u8 == (if lane == 0 {
                r0
            } else {
                w0
            })
            &&& (right / 0x100 % 0x100) as u8 == (if lane == 0 {
                r1
            } else if lane == 1 {
                r0
            } else {
                w1
            })
            &&& (right / 0x1_0000 % 0x100) as u8 == (if lane == 0 {
                r2
            } else if lane == 1 {
                r1
            } else if lane == 2 {
                r0
            } else {
                w2
            })
            &&& (right / 0x100_0000 % 0x100) as u8 == (if lane == 0 {
                r3
            } else if lane == 1 {
                r2
            } else if lane == 2 {
                r1
            } else {
                r0
            })
        }),
{
}

/// The four bytes that a store of `word` makes.
pub open spec fn bytes_of(word: u32) -> Seq<u8> {
    seq![byte_of(word, 0), byte_of(word, 1), byte_of(word, 2), byte_of(word, 3)]
}

proof fn lemma_left_store(memory: Seq<u8>, high: int, reg: u32, lane: u32)
    requires
        lane < 4,
        0 <= high,
        high + 3 < memory.len(),
    ensures
        ({
            let merged = swl_value(le_word(memory, high), reg, lane);
            bytes_of(merged) == (if lane == 0 {
                seq![byte_of(reg, 3), memory[high + 1], memory[high + 2], memory[high + 3]]
            } else if lane == 1 {
                seq![byte_of(reg, 2), byte_of(reg, 3), memory[high + 2], memory[high + 3]]
            } else if lane == 2 {
                seq![byte_of(reg, 1), byte_of(reg, 2), byte_of(reg, 3), memory[high + 3]]
            } else {
                bytes_of(reg)
            })
        }),
{
    lemma_bytes_of_word(memory[high], memory[high + 1], memory[high + 2], memory[high + 3]);
    lemma_merged_bytes(le_word(memory, high), reg, lane);
}

proof fn lemma_right_store(memory: Seq<u8>, low: int, reg: u32, lane: u32)
    requires
        lane < 4,
        0 <= low,
        low + 3 < memory.len(),
    ensures
        ({
            let merged = swr_value(le_word(memory, low), reg, lane);
            bytes_of(merged) == (if lane == 0 {
                bytes_of(reg)
            } else if lane == 1 {
                seq![memory[low], byte_of(reg, 0), byte_of(reg, 1), byte_of(reg, 2)]
            } else if lane == 2 {
                seq![memory[low], memory[low + 1], byte_of(reg, 0), byte_of(reg, 1)]
            } else {
                seq![memory[low], memory[low + 1], memory[low + 2], byte_of(reg, 0)]
            })
        }),
{
    lemma_bytes_of_word(memory[low], memory[low + 1], memory[low + 2], memory[low + 3]);
    lemma_merged_bytes(le_word(memory, low), reg, lane);
}

/// SWL at the last byte of an unaligned word followed by SWR at its first
/// byte stores the whole register there and touches no other byte: merging
/// the register into the aligned word around `addr + 3` from the left and
/// then into the aligned word around `addr` from the right leaves memory as
/// a plain store of the word at `addr` would.
#[verifier::rlimit(40)]
pub proof fn lemma_swl_swr_store(memory: Seq<u8>, addr: u32, reg: u32)
    requires
        addr + 3 <= u32::MAX,
        word_base((addr + 3) as u32) + 3 < memory.len(),
    ensures
        ({
            let high = word_base((addr + 3) as u32) as int;
            let low = word_base(addr) as int;
            let first = put_word(
                memory,
                high,
                swl_value(le_word(memory, high), reg, ((addr + 3) % 4) as u32),
            );
            put_word(first, low, swr_value(le_word(first, low), reg, addr % 4))
        }) == put_word(memory, addr as int, reg),
{
    let high = word_base((addr + 3) as u32) as int;
    let low = word_base(addr) as int;
    let from_left = swl_value(le_word(memory, high), reg, ((addr + 3) % 4) as u32);
    let first = put_word(memory, high, from_left);
    let from_right = swr_value(le_word(first, low), reg, addr % 4);
    let second = put_word(first, low, from_right);
    lemma_left_store(memory, high, reg, ((addr + 3) % 4) as u32);
    lemma_right_store(first, low, reg, addr % 4);
    let left = bytes_of(from_left);
    let right = bytes_of(from_right);
    let whole = bytes_of(reg);
    assert(first == memory.update(high, left[0]).update(high + 1, left[1]).update(
        high + 2,
        left[2],
    ).update(high + 3, left[3]));
    assert(second == first.update(low, right[0]).update(low + 1, right[1]).update(
        low + 2,
        right[2],
    ).update(low + 3, right[3]));
    assert(put_word(memory, addr as int, reg) == memory.update(addr as int, whole[0]).update(
        addr + 1,
        whole[1],
    ).update(addr + 2, whole[2]).update(addr + 3, whole[3]));
    assert(second =~= put_word(memory, addr as int, reg));
}

/// Exception entry without an armed delay slot: afterwards EPC holds the
/// program counter, the ExcCode field of Cause holds the code of the
/// exception, the six low bits of Status are the four low bits that were
/// there, moved up by two, with interrupts disabled, and the program counter is
/// at the vector that BEV selects. No other coprocessor register and no
/// other bit of Cause or Status changes.
pub proof fn lemma_exception_entry(c: CpuView, exception: Exception)
    requires
        c.wf(),
        c.delay_slot == 0,
    ensures
        c.entered(exception) is Ok,
        ({
            let after = c.entered(exception)->Ok_0;
            &&& after.cop0[EPC as int] == c.pc
            &&& cause_code(after.cop0[CAUSE as int]) == exception.spec_code()
            &&& after.cop0[CAUSE as int] & !0x7Cu32 == c.cop0[CAUSE as int] & !0x7Cu32
            &&& after.status() & 0x3F == (c.status() & 0xF) << 2
            &&& after.status() & !0x3Fu32 == c.status() & !0x3Fu32
            &&& !bit_of(after.status(), STATUS_IEC)
            &&& after.pc == (if bit_of(c.status(), STATUS_BEV) {
                ROM_EXCEPTION_VECTOR
            } else {
                RAM_EXCEPTION_VECTOR
            })
            &&& forall|i: int|
                0 <= i < 32 && i != CAUSE && i != EPC && i != STATUS ==> after.cop0[i] == c.cop0[i]
            &&& after.regs == c.regs
            &&& after.bus == c.bus
            &&& after.irq == c.irq
        }),
{
    lemma_mode_stack(c.status());
    lemma_cause_code(c.cop0[CAUSE as int], exception.spec_code());
}

/// An interrupt that is posted while its source is enabled in I_MASK and
/// interrupts are enabled in Status is due: the next step enters the Int
/// exception, with EPC at the instruction that would have run.
pub proof fn lemma_posted_interrupt_is_due(c: CpuView, source: InterruptSource)
    requires
        c.wf(),
        c.delay_slot == 0,
        bit_of(c.status(), STATUS_IEC),
        bit_of(c.irq.mask, source.spec_bit()),
    ensures
        ({
            let posted = CpuView { irq: c.irq.posted(source), ..c };
            &&& posted.interrupt_due()
            &&& posted.dispatched() == posted.entered(Exception::Int)
            &&& posted.dispatched() is Ok
            &&& posted.dispatched()->Ok_0.cop0[EPC as int] == c.pc
        }),
{
    lemma_post_bit(c.irq, source, source.spec_bit());
    let posted = CpuView { irq: c.irq.posted(source), ..c };
    assert(bit_of(posted.irq.stat, source.spec_bit()) && bit_of(posted.irq.mask, source.spec_bit()));
    lemma_exception_entry(posted, Exception::Int);
}

/// While the cache is isolated a store by the processor changes nothing,
/// whatever its address, width and value, and a load gives what it gives
/// otherwise.
pub proof fn lemma_isolated_store_is_dropped(m: Machine, addr: u32, width: Width, value: u32)
    requires
        m.cpu.isolated(),
    ensures
        m.written(addr, width, value) == Ok::<Machine, Fault>(m),
        forall|a: u32, w: Width|
            m.read(a, w) == m.with_cpu(
                CpuView { cop0: m.cpu.cop0.update(STATUS as int, 0), ..m.cpu },
            ).read(a, w),
{
}

} // verus!
