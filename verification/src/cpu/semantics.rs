//! What each instruction does, as a function from the machine before it to
//! the machine after it or to the fault that stops the machine.
//!
//! An instruction executes with the program counter already past it, at the
//! address of the instruction that follows.

use crate::cpu::alu::{
    branch_target, jump_target, lwl_value, lwr_value, quotient_signed, quotient_unsigned,
    remainder_signed, remainder_unsigned, shifted_right_arithmetic, signed, sum_overflows,
    swl_value, swr_value, wrap,
};
use crate::cpu::cop0::{status_popped, EPC, STATUS};
use crate::cpu::instruction::{
    address_of, funct_of, immediate_of, opcode_of, rd_of, rs_of, rt_of, shamt_of,
    sign_extend_byte, sign_extend_half,
};
use crate::cpu::state::{CpuView, Machine};
use crate::cpu::Exception;
use crate::fault::{Fault, Width};
use vstd::prelude::*;

verus! {

/// One as a word where `b` holds, zero where it does not.
pub open spec fn flag(b: bool) -> u32 {
    if b {
        1
    } else {
        0
    }
}

/// The instructions under primary opcode 0, selected by the secondary
/// opcode. One that is not listed is a reserved instruction.
pub open spec fn special(c: CpuView, i: u32) -> Result<CpuView, Fault> {
    let rs = c.reg(rs_of(i));
    let rt = c.reg(rt_of(i));
    let rd = rd_of(i);
    let shamt = shamt_of(i) as u32;
    let funct = funct_of(i);
    if funct == 0x00 {
        // SLL
        Ok(c.with_reg(rd, rt << shamt))
    } else if funct == 0x02 {
        // SRL
        Ok(c.with_reg(rd, rt >> shamt))
    } else if funct == 0x03 {
        // SRA
        Ok(c.with_reg(rd, shifted_right_arithmetic(rt, shamt)))
    } else if funct == 0x04 {
        // SLLV
        Ok(c.with_reg(rd, rt << (rs % 32)))
    } else if funct == 0x06 {
        // SRLV
        Ok(c.with_reg(rd, rt >> (rs % 32)))
    } else if funct == 0x07 {
        // SRAV
        Ok(c.with_reg(rd, shifted_right_arithmetic(rt, rs % 32)))
    } else if funct == 0x08 {
        // JR
        c.jumped_checked(rs)
    } else if funct == 0x09 {
        // JALR
        match c.jumped_checked(rs) {
            Ok(j) => Ok(j.with_reg(rd, wrap(c.pc + 4))),
            Err(f) => Err(f),
        }
    } else if funct == 0x0C {
        // SYSCALL
        c.raised(Exception::Sys)
    } else if funct == 0x10 {
        // MFHI
        Ok(c.with_reg(rd, c.hi))
    } else if funct == 0x11 {
        // MTHI
        Ok(CpuView { hi: rs, ..c })
    } else if funct == 0x12 {
        // MFLO
        Ok(c.with_reg(rd, c.lo))
    } else if funct == 0x13 {
        // MTLO
        Ok(CpuView { lo: rs, ..c })
    } else if funct == 0x19 {
        // MULTU
        Ok(
            CpuView {
                hi: ((rs * rt) / 0x1_0000_0000) as u32,
                lo: ((rs * rt) % 0x1_0000_0000) as u32,
                ..c
            },
        )
    } else if funct == 0x1A {
        // DIV
        Ok(CpuView { hi: remainder_signed(rs, rt), lo: quotient_signed(rs, rt), ..c })
    } else if funct == 0x1B {
        // DIVU
        Ok(CpuView { hi: remainder_unsigned(rs, rt), lo: quotient_unsigned(rs, rt), ..c })
    } else if funct == 0x20 {
        // ADD
        if sum_overflows(rs, rt) {
            c.raised(Exception::Ovf)
        } else {
            Ok(c.with_reg(rd, wrap(signed(rs) + signed(rt))))
        }
    } else if funct == 0x21 {
        // ADDU
        Ok(c.with_reg(rd, wrap(rs + rt)))
    } else if funct == 0x23 {
        // SUBU
        Ok(c.with_reg(rd, wrap(rs - rt)))
    } else if funct == 0x24 {
        // AND
        Ok(c.with_reg(rd, rs & rt))
    } else if funct == 0x25 {
        // OR
        Ok(c.with_reg(rd, rs | rt))
    } else if funct == 0x26 {
        // XOR
        Ok(c.with_reg(rd, rs ^ rt))
    } else if funct == 0x27 {
        // NOR
        Ok(c.with_reg(rd, !(rs | rt)))
    } else if funct == 0x2A {
        // SLT
        Ok(c.with_reg(rd, flag(signed(rs) < signed(rt))))
    } else if funct == 0x2B {
        // SLTU
        Ok(c.with_reg(rd, flag(rs < rt)))
    } else {
        c.raised(Exception::RI)
    }
}

/// The processor after a conditional branch: where `taken`, it jumps to the
/// branch target.
pub open spec fn branched(c: CpuView, i: u32, taken: bool) -> CpuView {
    if taken {
        c.jumped(branch_target(c.pc, immediate_of(i)))
    } else {
        c
    }
}

/// The branches under primary opcode 1, selected by the `rt` field.
pub open spec fn regimm(c: CpuView, i: u32) -> Result<CpuView, Fault> {
    let rs = c.reg(rs_of(i));
    if rt_of(i) == 0 {
        // BLTZ
        Ok(branched(c, i, signed(rs) < 0))
    } else if rt_of(i) == 1 {
        // BGEZ
        Ok(branched(c, i, signed(rs) >= 0))
    } else {
        c.raised(Exception::RI)
    }
}

/// Jumps and the branches with an opcode of their own: primary opcodes 2
/// to 7.
pub open spec fn jump_or_branch(c: CpuView, i: u32) -> CpuView {
    let rs = c.reg(rs_of(i));
    let rt = c.reg(rt_of(i));
    let op = opcode_of(i);
    if op == 0x02 {
        // J
        c.jumped(jump_target(c.pc, address_of(i)))
    } else if op == 0x03 {
        // JAL
        c.jumped(jump_target(c.pc, address_of(i))).with_reg(31, wrap(c.pc + 4))
    } else if op == 0x04 {
        // BEQ
        branched(c, i, rs == rt)
    } else if op == 0x05 {
        // BNE
        branched(c, i, rs != rt)
    } else if op == 0x06 {
        // BLEZ
        branched(c, i, signed(rs) <= 0)
    } else {
        // BGTZ
        branched(c, i, signed(rs) > 0)
    }
}

/// Arithmetic and logic with an immediate operand: primary opcodes 8 to 15.
/// The arithmetic and the comparisons take the immediate with its sign, the
/// logic takes it with zeros above.
pub open spec fn immediate_op(c: CpuView, i: u32) -> Result<CpuView, Fault> {
    let rs = c.reg(rs_of(i));
    let rt = rt_of(i);
    let extended = sign_extend_half(immediate_of(i));
    let plain = immediate_of(i) as u32;
    let op = opcode_of(i);
    if op == 0x08 {
        // ADDI
        if sum_overflows(rs, extended) {
            c.raised(Exception::Ovf)
        } else {
            Ok(c.with_reg(rt, wrap(signed(rs) + signed(extended))))
        }
    } else if op == 0x09 {
        // ADDIU
        Ok(c.with_reg(rt, wrap(rs + extended)))
    } else if op == 0x0A {
        // SLTI
        Ok(c.with_reg(rt, flag(signed(rs) < signed(extended))))
    } else if op == 0x0B {
        // SLTIU
        Ok(c.with_reg(rt, flag(rs < extended)))
    } else if op == 0x0C {
        // ANDI
        Ok(c.with_reg(rt, rs & plain))
    } else if op == 0x0D {
        // ORI
        Ok(c.with_reg(rt, rs | plain))
    } else if op == 0x0F {
        // LUI
        Ok(c.with_reg(rt, plain << 16))
    } else {
        c.raised(Exception::RI)
    }
}

/// The system coprocessor instructions under primary opcode 16, selected by
/// the `rs` field.
pub open spec fn coprocessor0(c: CpuView, i: u32) -> Result<CpuView, Fault> {
    let rd = rd_of(i) as int;
    if rs_of(i) == 0x00 {
        // MFC0
        Ok(c.with_reg(rt_of(i), c.cop0[rd]))
    } else if rs_of(i) == 0x04 {
        // MTC0
        Ok(CpuView { cop0: c.cop0.update(rd, c.reg(rt_of(i))), ..c })
    } else if rs_of(i) == 0x10 {
        // RFE
        if c.cop0[EPC as int] % 4 == 0 {
            Ok(
                CpuView {
                    cop0: c.cop0.update(STATUS as int, status_popped(c.status())),
                    pc: c.cop0[EPC as int],
                    ..c
                },
            )
        } else {
            Err(Fault::MisalignedPc { target: c.cop0[EPC as int] })
        }
    } else {
        c.raised(Exception::RI)
    }
}

/// The address of a load or a store: the base register plus the immediate
/// with its sign.
pub open spec fn effective_address(c: CpuView, i: u32) -> u32 {
    wrap(c.reg(rs_of(i)) + sign_extend_half(immediate_of(i)))
}

/// The address of the aligned word that holds the byte at `addr`.
pub open spec fn word_base(addr: u32) -> u32 {
    (addr - addr % 4) as u32
}

/// The machine after a load of `width` at `addr` whose result, made from
/// the value read by `extend`, is on its way to register `rt`.
pub open spec fn load_from(
    m: Machine,
    addr: u32,
    width: Width,
    rt: u8,
    extend: spec_fn(u32) -> u32,
) -> Result<Machine, Fault> {
    match m.read(addr, width) {
        Ok(v) => Ok(m.with_cpu(m.cpu.touched(addr).loaded(rt, extend(v)))),
        Err(f) => Err(f),
    }
}

/// The loads: primary opcodes 0x20 to 0x26. A halfword at an odd address or
/// a word at an address that is not a multiple of 4 raises AdEL. LWL and LWR
/// merge into the register as it stands once a load that is still on its
/// way has arrived, so that one of them can follow the other at once.
pub open spec fn load(m: Machine, i: u32) -> Result<Machine, Fault> {
    let c = m.cpu;
    let addr = effective_address(c, i);
    let rt = rt_of(i);
    let op = opcode_of(i);
    if op == 0x20 {
        // LB
        load_from(m, addr, Width::Byte, rt, |v: u32| sign_extend_byte(v as u8))
    } else if op == 0x24 {
        // LBU
        load_from(m, addr, Width::Byte, rt, |v: u32| v)
    } else if op == 0x21 {
        // LH
        if addr % 2 != 0 {
            m.lift(c.raised(Exception::AdEL))
        } else {
            load_from(m, addr, Width::Half, rt, |v: u32| sign_extend_half(v as u16))
        }
    } else if op == 0x25 {
        // LHU
        if addr % 2 != 0 {
            m.lift(c.raised(Exception::AdEL))
        } else {
            load_from(m, addr, Width::Half, rt, |v: u32| v)
        }
    } else if op == 0x23 {
        // LW
        if addr % 4 != 0 {
            m.lift(c.raised(Exception::AdEL))
        } else {
            load_from(m, addr, Width::Word, rt, |v: u32| v)
        }
    } else if op == 0x22 {
        // LWL
        load_from(
            m,
            word_base(addr),
            Width::Word,
            rt,
            |v: u32| lwl_value(c.committed().reg(rt), v, addr % 4),
        )
    } else {
        // LWR
        load_from(
            m,
            word_base(addr),
            Width::Word,
            rt,
            |v: u32| lwr_value(c.committed().reg(rt), v, addr % 4),
        )
    }
}

/// The machine after SWL, where `left` holds, or SWR: the aligned word that
/// holds the byte at `addr` is read, merged with `reg` and written back.
pub open spec fn store_merged(m: Machine, addr: u32, reg: u32, left: bool) -> Result<
    Machine,
    Fault,
> {
    match m.read(word_base(addr), Width::Word) {
        Ok(v) => m.touched(word_base(addr)).written(
            word_base(addr),
            Width::Word,
            if left {
                swl_value(v, reg, addr % 4)
            } else {
                swr_value(v, reg, addr % 4)
            },
        ),
        Err(f) => Err(f),
    }
}

/// The stores: primary opcodes 0x28 to 0x2E. A halfword at an odd address
/// or a word at an address that is not a multiple of 4 raises AdES.
pub open spec fn store(m: Machine, i: u32) -> Result<Machine, Fault> {
    let c = m.cpu;
    let addr = effective_address(c, i);
    let rt = c.reg(rt_of(i));
    let op = opcode_of(i);
    if op == 0x28 {
        // SB
        m.written(addr, Width::Byte, rt % 0x100)
    } else if op == 0x29 {
        // SH
        if addr % 2 != 0 {
            m.lift(c.raised(Exception::AdES))
        } else {
            m.written(addr, Width::Half, rt % 0x1_0000)
        }
    } else if op == 0x2B {
        // SW
        if addr % 4 != 0 {
            m.lift(c.raised(Exception::AdES))
        } else {
            m.written(addr, Width::Word, rt)
        }
    } else if op == 0x2A {
        // SWL
        store_merged(m, addr, rt, true)
    } else {
        // SWR
        store_merged(m, addr, rt, false)
    }
}

/// The machine after `instruction`, or the fault that stops it. Dispatch is
/// on the primary opcode. The geometry coprocessor is not there: its
/// instructions raise CpU. An opcode that is not listed is a reserved
/// instruction.
#[verifier::opaque]
pub open spec fn execute(m: Machine, instruction: u32) -> Result<Machine, Fault> {
    let op = opcode_of(instruction);
    if op == 0x00 {
        m.lift(special(m.cpu, instruction))
    } else if op == 0x01 {
        m.lift(regimm(m.cpu, instruction))
    } else if 0x02 <= op <= 0x07 {
        Ok(m.with_cpu(jump_or_branch(m.cpu, instruction)))
    } else if 0x08 <= op <= 0x0F {
        m.lift(immediate_op(m.cpu, instruction))
    } else if op == 0x10 {
        m.lift(coprocessor0(m.cpu, instruction))
    } else if op == 0x12 {
        m.lift(m.cpu.raised(Exception::CpU))
    } else if 0x20 <= op <= 0x26 {
        load(m, instruction)
    } else if op == 0x28 || op == 0x29 || op == 0x2A || op == 0x2B || op == 0x2E {
        store(m, instruction)
    } else {
        m.lift(m.cpu.raised(Exception::RI))
    }
}

/// A machine together with the fault, if any, that stopped it.
pub struct Stepped {
    pub machine: Machine,
    pub fault: Option<Fault>,
}

/// The second half of a step: where the instruction armed a delay slot, the
/// instruction in the slot executes too and the slot is disarmed.
pub open spec fn run_delay_slot(m: Machine) -> Stepped {
    if m.cpu.delay_slot == 0 {
        Stepped { machine: m, fault: None }
    } else {
        match m.cpu.instruction_at(m.cpu.delay_slot) {
            Err(f) => Stepped { machine: m, fault: Some(f) },
            Ok(instruction) => match execute(m, instruction) {
                Err(f) => Stepped { machine: m, fault: Some(f) },
                Ok(after) => Stepped {
                    machine: after.with_cpu(CpuView { delay_slot: 0, ..after.cpu }),
                    fault: None,
                },
            },
        }
    }
}

/// One step of the processor. In this order: the vertical blanking event is
/// polled; an interrupt that is due is entered; a pending load arrives; the
/// instruction at the program counter is fetched; the program counter moves
/// on by 4; the instruction executes; its delay slot, if it armed one,
/// executes. A fault ends the step where it occurs and leaves what was done
/// before it.
#[verifier::opaque]
pub open spec fn step(m: Machine) -> Stepped {
    let polled = m.with_cpu(m.cpu.polled());
    match polled.cpu.dispatched() {
        Err(f) => Stepped { machine: polled, fault: Some(f) },
        Ok(entered) => {
            let ready = polled.with_cpu(entered.committed());
            match ready.cpu.instruction_at(ready.cpu.pc) {
                Err(f) => Stepped { machine: ready, fault: Some(f) },
                Ok(instruction) => {
                    let advanced = ready.with_cpu(
                        CpuView { pc: wrap(ready.cpu.pc + 4), ..ready.cpu },
                    );
                    match execute(advanced, instruction) {
                        Err(f) => Stepped { machine: advanced, fault: Some(f) },
                        Ok(after) => run_delay_slot(after),
                    }
                },
            }
        },
    }
}

} // verus!
