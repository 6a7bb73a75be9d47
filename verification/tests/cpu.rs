use psx_emu::bios::BIOS_SIZE;
use psx_emu::cpu::cop0::{CAUSE, EPC, STATUS};
use psx_emu::cpu::state::{I_MASK, I_STAT};
use psx_emu::cpu::{Exception, InterruptSource, R3000};
use psx_emu::fault::{Fault, Width};
use psx_emu::timer::TimerState;
use psx_emu::PSXEmu;

fn machine() -> PSXEmu {
    PSXEmu::new(vec![0u8; BIOS_SIZE])
}

/// A machine whose processor stands at `pc` in RAM, with BEV clear.
fn machine_at(pc: u32) -> PSXEmu {
    let mut emu = machine();
    emu.r3000.pc = pc;
    emu
}

fn r_type(funct: u32, rs: u32, rt: u32, rd: u32, shamt: u32) -> u32 {
    (rs << 21) | (rt << 16) | (rd << 11) | (shamt << 6) | funct
}

fn i_type(op: u32, rs: u32, rt: u32, imm: u32) -> u32 {
    (op << 26) | (rs << 21) | (rt << 16) | (imm & 0xFFFF)
}

fn j_type(op: u32, target: u32) -> u32 {
    (op << 26) | ((target >> 2) & 0x03FF_FFFF)
}

fn program(emu: &mut PSXEmu, at: u32, words: &[u32]) {
    for (i, w) in words.iter().enumerate() {
        emu.r3000.main_bus.write_word(at + 4 * i as u32, *w);
    }
}

fn step(emu: &mut PSXEmu) -> Result<(), Fault> {
    emu.r3000.step_instruction(&mut emu.timers)
}

fn exec(cpu: &mut R3000, instruction: u32) -> Result<(), Fault> {
    let mut timers = TimerState::new();
    cpu.execute_instruction(instruction, &mut timers)
}

fn cause_code(cpu: &R3000) -> u32 {
    (cpu.cop0.read_reg(CAUSE) >> 2) & 0x1F
}

const ADDIU: u32 = 0x09;
const SYSCALL: u32 = 0x0000_000C;

#[test]
fn reset_puts_the_processor_at_the_bios_entry() {
    let mut emu = machine();
    emu.set_gen_reg(5, 77);
    emu.r3000.hi = 1;
    emu.r3000.lo = 2;
    emu.r3000.delay_slot = 0x40;
    emu.reset();
    assert_eq!(emu.r3000.pc, 0xBFC0_0000);
    for i in 0..32 {
        assert_eq!(emu.read_gen_reg(i), 0);
    }
    assert_eq!(emu.r3000.hi, 0);
    assert_eq!(emu.r3000.lo, 0);
    assert_eq!(emu.r3000.delay_slot, 0);
    assert_eq!(emu.r3000.cop0.read_reg(STATUS), 1 << 22);
    assert!(emu.r3000.cop0.boot_vectors());
    assert!(emu.r3000.load_delay.is_none());
}

#[test]
fn reset_keeps_the_other_status_bits() {
    let mut emu = machine();
    emu.r3000.cop0.write_reg(STATUS, 0x0001_0001);
    emu.reset();
    assert_eq!(emu.r3000.cop0.read_reg(STATUS), 0x0041_0001);
}

#[test]
fn register_zero_reads_as_zero() {
    let mut emu = machine_at(0x100);
    assert_eq!(exec(&mut emu.r3000, i_type(ADDIU, 0, 0, 5)), Ok(()));
    assert_eq!(emu.r3000.read_reg(0), 0);
    emu.set_gen_reg(0, 7);
    assert_eq!(emu.read_gen_reg(0), 0);
    emu.r3000.write_reg(0, 9);
    assert_eq!(emu.r3000.read_reg(0), 0);
    // A load into register 0 is dropped when it arrives.
    program(&mut emu, 0x100, &[i_type(0x23, 0, 0, 0x100), 0]);
    step(&mut emu).unwrap();
    step(&mut emu).unwrap();
    assert_eq!(emu.read_gen_reg(0), 0);
}

#[test]
fn branch_delay_slot_runs_before_the_target() {
    let mut emu = machine_at(0);
    program(
        &mut emu,
        0,
        &[i_type(ADDIU, 0, 1, 1), j_type(0x02, 0x20), i_type(ADDIU, 1, 1, 1)],
    );
    program(&mut emu, 0x20, &[i_type(ADDIU, 1, 1, 10)]);
    step(&mut emu).unwrap();
    assert_eq!(emu.read_gen_reg(1), 1);
    step(&mut emu).unwrap();
    assert_eq!(emu.read_gen_reg(1), 2);
    assert_eq!(emu.r3000.pc, 0x20);
    assert_eq!(emu.r3000.delay_slot, 0);
    step(&mut emu).unwrap();
    assert_eq!(emu.read_gen_reg(1), 12);
    step(&mut emu).unwrap();
    assert_eq!(emu.read_gen_reg(1), 12);
    assert_eq!(emu.r3000.pc, 0x28);
}

#[test]
fn syscall_enters_the_exception_handler() {
    let mut emu = machine_at(0x100);
    emu.r3000.cop0.write_reg(STATUS, 0b00_0011);
    program(&mut emu, 0x100, &[SYSCALL]);
    assert_eq!(step(&mut emu), Ok(()));
    assert_eq!(emu.r3000.cop0.read_reg(EPC), 0x100);
    assert_eq!(cause_code(&emu.r3000), 8);
    assert_eq!(emu.r3000.pc, 0x8000_0080);
    assert_eq!(emu.r3000.cop0.read_reg(STATUS), 0b00_1100);
}

#[test]
fn exception_vectors_into_rom_while_bev_is_set() {
    let mut emu = machine_at(0x100);
    emu.r3000.cop0.write_reg(STATUS, (1 << 22) | 0b11_0111);
    program(&mut emu, 0x100, &[SYSCALL]);
    assert_eq!(step(&mut emu), Ok(()));
    assert_eq!(emu.r3000.pc, 0xBFC0_0180);
    // The oldest pair of the mode stack is lost, the current one is zero.
    assert_eq!(emu.r3000.cop0.read_reg(STATUS), (1 << 22) | 0b01_1100);
}

#[test]
fn exception_keeps_the_other_cause_bits() {
    let mut emu = machine_at(0x100);
    emu.r3000.cop0.write_reg(CAUSE, 0xFFFF_FFFF);
    emu.r3000.fire_exception(Exception::Sys);
    assert_eq!(emu.r3000.cop0.read_reg(CAUSE), 0xFFFF_FFA3);
    assert_eq!(emu.r3000.cop0.read_reg(EPC), 0x100);
}

#[test]
fn exception_codes() {
    let all = [
        (Exception::Int, 0),
        (Exception::Mod, 1),
        (Exception::TLBL, 2),
        (Exception::TLBS, 3),
        (Exception::AdEL, 4),
        (Exception::AdES, 5),
        (Exception::IBE, 6),
        (Exception::DBE, 7),
        (Exception::Sys, 8),
        (Exception::Bp, 9),
        (Exception::RI, 10),
        (Exception::CpU, 11),
        (Exception::Ovf, 12),
    ];
    for (e, code) in all {
        assert_eq!(e.code(), code);
        let mut emu = machine_at(0x40);
        emu.r3000.fire_exception(e);
        assert_eq!(cause_code(&emu.r3000), code);
    }
}

#[test]
fn interrupt_source_bits() {
    let all = [
        (InterruptSource::VBLANK, 0),
        (InterruptSource::GPU, 1),
        (InterruptSource::CDROM, 2),
        (InterruptSource::DMA, 3),
        (InterruptSource::TMR0, 4),
        (InterruptSource::TMR1, 5),
        (InterruptSource::TMR2, 6),
        (InterruptSource::Controller, 7),
        (InterruptSource::SIO, 8),
        (InterruptSource::SPU, 9),
        (InterruptSource::Lightpen, 10),
    ];
    for (s, bit) in all {
        assert_eq!(s.bit(), bit);
        let mut emu = machine();
        emu.manually_fire_interrupt(s);
        assert_eq!(emu.r3000.irq.stat, 1 << bit);
    }
}

#[test]
fn posted_interrupt_is_dispatched_at_the_next_step() {
    let mut emu = machine_at(0x100);
    program(&mut emu, 0x100, &[i_type(ADDIU, 0, 1, 1)]);
    emu.r3000.write_bus_word(I_MASK, 1, &mut emu.timers).unwrap();
    emu.r3000.cop0.write_reg(STATUS, 1);
    emu.manually_fire_interrupt(InterruptSource::VBLANK);
    // Posting alone changes nothing but I_STAT.
    assert_eq!(emu.r3000.pc, 0x100);
    assert_eq!(emu.r3000.irq.stat, 1);
    assert_eq!(step(&mut emu), Ok(()));
    assert_eq!(emu.r3000.cop0.read_reg(EPC), 0x100);
    assert_eq!(cause_code(&emu.r3000), 0);
    assert_eq!(emu.r3000.cop0.read_reg(STATUS), 0b100);
    // The step went on with the first instruction of the handler, a NOP.
    assert_eq!(emu.r3000.pc, 0x8000_0084);
    assert_eq!(emu.read_gen_reg(1), 0);
    // Interrupts are disabled now: the next step does not enter again.
    assert_eq!(step(&mut emu), Ok(()));
    assert_eq!(emu.r3000.cop0.read_reg(EPC), 0x100);
    assert_eq!(emu.r3000.pc, 0x8000_0088);
}

#[test]
fn masked_or_disabled_interrupt_is_not_dispatched() {
    let mut emu = machine_at(0x100);
    emu.r3000.cop0.write_reg(STATUS, 1);
    emu.manually_fire_interrupt(InterruptSource::VBLANK);
    step(&mut emu).unwrap();
    assert_eq!(emu.r3000.pc, 0x104);

    let mut emu = machine_at(0x100);
    emu.r3000.irq.set_mask(0x7FF);
    emu.manually_fire_interrupt(InterruptSource::Lightpen);
    assert!(emu.r3000.irq.is_pending());
    step(&mut emu).unwrap();
    assert_eq!(emu.r3000.pc, 0x104);

    // A bit above the last source does not count.
    let mut emu = machine_at(0x100);
    emu.r3000.cop0.write_reg(STATUS, 1);
    emu.r3000.irq.stat = 1 << 11;
    emu.r3000.irq.set_mask(1 << 11);
    assert!(!emu.r3000.irq.is_pending());
    step(&mut emu).unwrap();
    assert_eq!(emu.r3000.pc, 0x104);
}

#[test]
fn writing_i_stat_acknowledges() {
    let mut emu = machine();
    emu.manually_fire_interrupt(InterruptSource::VBLANK);
    emu.manually_fire_interrupt(InterruptSource::GPU);
    assert_eq!(emu.r3000.irq.stat, 0x3);
    emu.r3000.write_bus_word(I_STAT, 0x1, &mut emu.timers).unwrap();
    assert_eq!(emu.r3000.irq.stat, 0x1);
    // Writing ones where nothing is pending sets nothing.
    emu.r3000.write_bus_word(I_STAT, 0xFFFF_FFFF, &mut emu.timers).unwrap();
    assert_eq!(emu.r3000.irq.stat, 0x1);
    emu.r3000.write_bus_word(I_STAT, 0x0, &mut emu.timers).unwrap();
    assert_eq!(emu.r3000.irq.stat, 0x0);
}

#[test]
fn halfword_writes_to_the_interrupt_registers_touch_the_low_half() {
    let mut emu = machine();
    emu.r3000.irq.stat = 0x0003_0003;
    emu.r3000.write_bus_half_word(I_STAT, 0x0001, &mut emu.timers).unwrap();
    assert_eq!(emu.r3000.irq.stat, 0x0003_0001);
    emu.r3000.irq.mask = 0xABCD_0000;
    emu.r3000.write_bus_half_word(I_MASK, 0x1234, &mut emu.timers).unwrap();
    assert_eq!(emu.r3000.irq.mask, 0xABCD_1234);
    assert_eq!(emu.r3000.read_bus_half_word(I_MASK, &emu.timers), Ok(0x1234));
    assert_eq!(emu.r3000.read_bus_word(I_MASK, &emu.timers), Ok(0xABCD_1234));
    assert_eq!(emu.r3000.read_bus_half_word(I_STAT, &emu.timers), Ok(0x0001));
    assert_eq!(emu.r3000.read_bus_word(I_STAT, &emu.timers), Ok(0x0003_0001));
    // A byte at I_STAT belongs to the I/O window.
    assert_eq!(emu.r3000.read_bus_byte(I_STAT), Ok(0));
    emu.r3000.write_bus_byte(I_STAT, 0).unwrap();
    assert_eq!(emu.r3000.irq.stat, 0x0003_0001);
}

#[test]
fn cache_isolation_suppresses_writes() {
    let mut emu = machine_at(0x100);
    emu.r3000.main_bus.write_word(0x40, 0xDEAD_BEEF);
    emu.set_gen_reg(1, 0x1234_5678);
    emu.r3000.cop0.write_reg(STATUS, 1 << 16);
    assert!(emu.r3000.cop0.cache_isolated());
    // sw r1, 0x40(r0); sh r1, 0x40(r0); sb r1, 0x40(r0)
    assert_eq!(exec(&mut emu.r3000, i_type(0x2B, 0, 1, 0x40)), Ok(()));
    assert_eq!(exec(&mut emu.r3000, i_type(0x29, 0, 1, 0x40)), Ok(()));
    assert_eq!(exec(&mut emu.r3000, i_type(0x28, 0, 1, 0x40)), Ok(()));
    // Reads go on as before.
    assert_eq!(emu.r3000.read_bus_word(0x40, &emu.timers), Ok(0xDEAD_BEEF));
    // Not even the interrupt registers or an unmapped address take the store.
    emu.r3000.irq.stat = 3;
    assert_eq!(emu.r3000.write_bus_word(I_STAT, 0, &mut emu.timers), Ok(()));
    assert_eq!(emu.r3000.irq.stat, 3);
    assert_eq!(emu.r3000.write_bus_word(0x0FFF_0000, 0, &mut emu.timers), Ok(()));
    emu.r3000.cop0.write_reg(STATUS, 0);
    assert_eq!(emu.r3000.main_bus.read_word(0x40), 0xDEAD_BEEF);
    assert_eq!(exec(&mut emu.r3000, i_type(0x2B, 0, 1, 0x40)), Ok(()));
    assert_eq!(emu.r3000.main_bus.read_word(0x40), 0x1234_5678);
}

#[test]
fn add_traps_on_overflow_and_addu_wraps() {
    let mut emu = machine_at(0x104);
    emu.set_gen_reg(1, 0x8000_0000);
    emu.set_gen_reg(2, 0xFFFF_FFFF);
    emu.set_gen_reg(3, 42);
    assert_eq!(exec(&mut emu.r3000, r_type(0x20, 1, 2, 3, 0)), Ok(()));
    assert_eq!(cause_code(&emu.r3000), 12);
    assert_eq!(emu.r3000.cop0.read_reg(EPC), 0x100);
    assert_eq!(emu.r3000.pc, 0x8000_0080);
    assert_eq!(emu.read_gen_reg(3), 42);

    let mut emu = machine_at(0x104);
    emu.set_gen_reg(1, 0x8000_0000);
    emu.set_gen_reg(2, 0xFFFF_FFFF);
    assert_eq!(exec(&mut emu.r3000, r_type(0x21, 1, 2, 3, 0)), Ok(()));
    assert_eq!(emu.read_gen_reg(3), 0x7FFF_FFFF);
    assert_eq!(emu.r3000.pc, 0x104);
    assert_eq!(cause_code(&emu.r3000), 0);
}

#[test]
fn add_on_the_edge_of_the_range() {
    let mut emu = machine_at(0x104);
    emu.set_gen_reg(1, 0x7FFF_FFFE);
    emu.set_gen_reg(2, 1);
    exec(&mut emu.r3000, r_type(0x20, 1, 2, 3, 0)).unwrap();
    assert_eq!(emu.read_gen_reg(3), 0x7FFF_FFFF);
    assert_eq!(emu.r3000.pc, 0x104);
    emu.set_gen_reg(1, 0x7FFF_FFFF);
    exec(&mut emu.r3000, r_type(0x20, 1, 2, 4, 0)).unwrap();
    assert_eq!(emu.read_gen_reg(4), 0);
    assert_eq!(cause_code(&emu.r3000), 12);
}

#[test]
fn addi_sign_extends_and_traps() {
    let mut emu = machine_at(0x104);
    emu.set_gen_reg(1, 10);
    exec(&mut emu.r3000, i_type(0x08, 1, 2, 0xFFFF)).unwrap();
    assert_eq!(emu.read_gen_reg(2), 9);
    emu.set_gen_reg(1, 0x8000_0000);
    exec(&mut emu.r3000, i_type(0x08, 1, 3, 0xFFFF)).unwrap();
    assert_eq!(emu.read_gen_reg(3), 0);
    assert_eq!(cause_code(&emu.r3000), 12);
    assert_eq!(emu.r3000.cop0.read_reg(EPC), 0x100);
}

#[test]
fn addiu_wraps() {
    let mut emu = machine_at(0x104);
    emu.set_gen_reg(1, 0xFFFF_FFFF);
    exec(&mut emu.r3000, i_type(ADDIU, 1, 2, 2)).unwrap();
    assert_eq!(emu.read_gen_reg(2), 1);
    emu.set_gen_reg(1, 0);
    exec(&mut emu.r3000, i_type(ADDIU, 1, 2, 0x8000)).unwrap();
    assert_eq!(emu.read_gen_reg(2), 0xFFFF_8000);
}

#[test]
fn add_then_subu_is_identity() {
    for (a, b) in [(5u32, 7u32), (0xFFFF_FFFB, 3), (0x7FFF_0000, 0xFFFF), (0, 0x8000_0000)] {
        let mut emu = machine_at(0x104);
        emu.set_gen_reg(1, a);
        emu.set_gen_reg(2, b);
        exec(&mut emu.r3000, r_type(0x20, 1, 2, 3, 0)).unwrap();
        assert_eq!(emu.read_gen_reg(3), a.wrapping_add(b));
        exec(&mut emu.r3000, r_type(0x23, 3, 2, 3, 0)).unwrap();
        assert_eq!(emu.read_gen_reg(3), a);
        assert_eq!(emu.r3000.pc, 0x104);
    }
}

#[test]
fn multu_by_one_and_at_the_top() {
    let mut emu = machine_at(0x104);
    emu.set_gen_reg(1, 0x1234_5678);
    emu.set_gen_reg(2, 1);
    emu.r3000.hi = 99;
    exec(&mut emu.r3000, r_type(0x19, 1, 2, 0, 0)).unwrap();
    assert_eq!(emu.r3000.lo, 0x1234_5678);
    assert_eq!(emu.r3000.hi, 0);
    emu.set_gen_reg(1, 0xFFFF_FFFF);
    emu.set_gen_reg(2, 0xFFFF_FFFF);
    exec(&mut emu.r3000, r_type(0x19, 1, 2, 0, 0)).unwrap();
    assert_eq!(emu.r3000.hi, 0xFFFF_FFFE);
    assert_eq!(emu.r3000.lo, 0x0000_0001);
    // mfhi r3; mflo r4; mthi r1; mtlo r2
    exec(&mut emu.r3000, r_type(0x10, 0, 0, 3, 0)).unwrap();
    exec(&mut emu.r3000, r_type(0x12, 0, 0, 4, 0)).unwrap();
    assert_eq!(emu.read_gen_reg(3), 0xFFFF_FFFE);
    assert_eq!(emu.read_gen_reg(4), 1);
    emu.set_gen_reg(1, 11);
    emu.set_gen_reg(2, 22);
    exec(&mut emu.r3000, r_type(0x11, 1, 0, 0, 0)).unwrap();
    exec(&mut emu.r3000, r_type(0x13, 2, 0, 0, 0)).unwrap();
    assert_eq!(emu.r3000.hi, 11);
    assert_eq!(emu.r3000.lo, 22);
}

fn divide(funct: u32, a: u32, b: u32) -> (u32, u32) {
    let mut emu = machine_at(0x104);
    emu.set_gen_reg(1, a);
    emu.set_gen_reg(2, b);
    assert_eq!(exec(&mut emu.r3000, r_type(funct, 1, 2, 0, 0)), Ok(()));
    assert_eq!(emu.r3000.pc, 0x104);
    (emu.r3000.hi, emu.r3000.lo)
}

#[test]
fn signed_division_rounds_towards_zero() {
    assert_eq!(divide(0x1A, 7, 2), (1, 3));
    assert_eq!(divide(0x1A, 7, (-2i32) as u32), (1, (-3i32) as u32));
    assert_eq!(divide(0x1A, (-7i32) as u32, 2), ((-1i32) as u32, (-3i32) as u32));
    assert_eq!(divide(0x1A, (-7i32) as u32, (-2i32) as u32), ((-1i32) as u32, 3));
    assert_eq!(divide(0x1A, 0, 5), (0, 0));
}

#[test]
fn division_by_zero_does_not_stop_the_machine() {
    assert_eq!(divide(0x1A, 5, 0), (5, 0xFFFF_FFFF));
    assert_eq!(divide(0x1A, 0, 0), (0, 0xFFFF_FFFF));
    assert_eq!(divide(0x1A, (-5i32) as u32, 0), ((-5i32) as u32, 1));
    assert_eq!(divide(0x1B, 5, 0), (5, 0xFFFF_FFFF));
    assert_eq!(divide(0x1B, 0xFFFF_FFFB, 0), (0xFFFF_FFFB, 0xFFFF_FFFF));
    assert_eq!(divide(0x1A, 0x8000_0000, 0xFFFF_FFFF), (0, 0x8000_0000));
}

#[test]
fn unsigned_division() {
    assert_eq!(divide(0x1B, 7, 2), (1, 3));
    assert_eq!(divide(0x1B, 0xFFFF_FFFF, 2), (1, 0x7FFF_FFFF));
    assert_eq!(divide(0x1B, 0xFFFF_FFFF, 0xFFFF_FFFF), (0, 1));
}

#[test]
fn sltiu_compares_against_the_sign_extended_immediate() {
    let mut emu = machine_at(0x104);
    emu.set_gen_reg(1, 5);
    exec(&mut emu.r3000, i_type(0x0B, 1, 2, 0xFFFF)).unwrap();
    assert_eq!(emu.read_gen_reg(2), 1);
    emu.set_gen_reg(1, 0xFFFF_FFFE);
    exec(&mut emu.r3000, i_type(0x0B, 1, 2, 0xFFFF)).unwrap();
    assert_eq!(emu.read_gen_reg(2), 1);
    emu.set_gen_reg(1, 0xFFFF_FFFF);
    exec(&mut emu.r3000, i_type(0x0B, 1, 2, 0xFFFF)).unwrap();
    assert_eq!(emu.read_gen_reg(2), 0);
    emu.set_gen_reg(1, 5);
    exec(&mut emu.r3000, i_type(0x0B, 1, 2, 6)).unwrap();
    assert_eq!(emu.read_gen_reg(2), 1);
    exec(&mut emu.r3000, i_type(0x0B, 1, 2, 5)).unwrap();
    assert_eq!(emu.read_gen_reg(2), 0);
}

#[test]
fn slti_compares_signed_against_the_sign_extended_immediate() {
    let mut emu = machine_at(0x104);
    emu.set_gen_reg(1, 0xFFFF_FFFE);
    exec(&mut emu.r3000, i_type(0x0A, 1, 2, 0xFFFF)).unwrap();
    assert_eq!(emu.read_gen_reg(2), 1);
    emu.set_gen_reg(1, 5);
    exec(&mut emu.r3000, i_type(0x0A, 1, 2, 0xFFFF)).unwrap();
    assert_eq!(emu.read_gen_reg(2), 0);
    emu.set_gen_reg(1, 0xFFFF_FFFF);
    exec(&mut emu.r3000, i_type(0x0A, 1, 2, 0)).unwrap();
    assert_eq!(emu.read_gen_reg(2), 1);
}

#[test]
fn slt_and_sltu() {
    let mut emu = machine_at(0x104);
    emu.set_gen_reg(1, 0xFFFF_FFFF);
    emu.set_gen_reg(2, 1);
    exec(&mut emu.r3000, r_type(0x2A, 1, 2, 3, 0)).unwrap();
    assert_eq!(emu.read_gen_reg(3), 1);
    exec(&mut emu.r3000, r_type(0x2B, 1, 2, 3, 0)).unwrap();
    assert_eq!(emu.read_gen_reg(3), 0);
    exec(&mut emu.r3000, r_type(0x2A, 2, 1, 3, 0)).unwrap();
    assert_eq!(emu.read_gen_reg(3), 0);
    exec(&mut emu.r3000, r_type(0x2B, 2, 1, 3, 0)).unwrap();
    assert_eq!(emu.read_gen_reg(3), 1);
}

#[test]
fn sra_copies_the_sign_bit() {
    let mut emu = machine_at(0x104);
    emu.set_gen_reg(1, 0x8000_0000);
    exec(&mut emu.r3000, r_type(0x03, 0, 1, 2, 1)).unwrap();
    assert_eq!(emu.read_gen_reg(2), 0xC000_0000);
    exec(&mut emu.r3000, r_type(0x03, 0, 1, 2, 31)).unwrap();
    assert_eq!(emu.read_gen_reg(2), 0xFFFF_FFFF);
    exec(&mut emu.r3000, r_type(0x02, 0, 1, 2, 1)).unwrap();
    assert_eq!(emu.read_gen_reg(2), 0x4000_0000);
    emu.set_gen_reg(1, 0x4000_0000);
    exec(&mut emu.r3000, r_type(0x03, 0, 1, 2, 4)).unwrap();
    assert_eq!(emu.read_gen_reg(2), 0x0400_0000);
    exec(&mut emu.r3000, r_type(0x00, 0, 1, 2, 1)).unwrap();
    assert_eq!(emu.read_gen_reg(2), 0x8000_0000);
    exec(&mut emu.r3000, r_type(0x00, 0, 1, 2, 2)).unwrap();
    assert_eq!(emu.read_gen_reg(2), 0);
}

#[test]
fn shifts_by_register_use_the_low_five_bits() {
    let mut emu = machine_at(0x104);
    emu.set_gen_reg(1, 0x8000_0001);
    emu.set_gen_reg(3, 0xFFFF_FFE4);
    exec(&mut emu.r3000, r_type(0x04, 3, 1, 2, 0)).unwrap();
    assert_eq!(emu.read_gen_reg(2), 0x0000_0010);
    exec(&mut emu.r3000, r_type(0x06, 3, 1, 2, 0)).unwrap();
    assert_eq!(emu.read_gen_reg(2), 0x0800_0000);
    exec(&mut emu.r3000, r_type(0x07, 3, 1, 2, 0)).unwrap();
    assert_eq!(emu.read_gen_reg(2), 0xF800_0000);
}

#[test]
fn logic() {
    let mut emu = machine_at(0x104);
    emu.set_gen_reg(1, 0xF0F0_1234);
    emu.set_gen_reg(2, 0x0FF0_00FF);
    exec(&mut emu.r3000, r_type(0x24, 1, 2, 3, 0)).unwrap();
    assert_eq!(emu.read_gen_reg(3), 0x00F0_0034);
    exec(&mut emu.r3000, r_type(0x25, 1, 2, 3, 0)).unwrap();
    assert_eq!(emu.read_gen_reg(3), 0xFFF0_12FF);
    exec(&mut emu.r3000, r_type(0x26, 1, 2, 3, 0)).unwrap();
    assert_eq!(emu.read_gen_reg(3), 0xFF00_12CB);
    exec(&mut emu.r3000, r_type(0x27, 1, 2, 3, 0)).unwrap();
    assert_eq!(emu.read_gen_reg(3), 0x000F_ED00);
    // andi, ori take the immediate with zeros above; lui shifts it up.
    exec(&mut emu.r3000, i_type(0x0C, 1, 3, 0xFF00)).unwrap();
    assert_eq!(emu.read_gen_reg(3), 0x0000_1200);
    exec(&mut emu.r3000, i_type(0x0D, 1, 3, 0x8001)).unwrap();
    assert_eq!(emu.read_gen_reg(3), 0xF0F0_9235);
    exec(&mut emu.r3000, i_type(0x0F, 0, 3, 0x8001)).unwrap();
    assert_eq!(emu.read_gen_reg(3), 0x8001_0000);
}

#[test]
fn lwl_and_lwr_reconstruct_an_unaligned_word() {
    for lane in 0..4u32 {
        let mut emu = machine_at(0x100);
        for i in 0..8u32 {
            emu.r3000.main_bus.write_byte(0x10 + i, (0x11 * (i + 1)) as u8);
        }
        let addr = 0x10 + lane;
        emu.set_gen_reg(1, 0xAAAA_AAAA);
        // lwl r1, addr+3(r0); lwr r1, addr(r0); nop
        program(&mut emu, 0x100, &[i_type(0x22, 0, 1, addr + 3), i_type(0x26, 0, 1, addr), 0]);
        step(&mut emu).unwrap();
        step(&mut emu).unwrap();
        step(&mut emu).unwrap();
        let b = |i: u32| 0x11 * (lane + i + 1);
        assert_eq!(emu.read_gen_reg(1), b(0) | b(1) << 8 | b(2) << 16 | b(3) << 24);
    }
}

#[test]
fn lwr_and_lwl_back_to_back_reconstruct_the_word() {
    // Two instructions in a row, no step between them: the second merges
    // into what the first has on its way.
    for lane in 0..4u32 {
        for right_first in [true, false] {
            for (fill, held) in [(0xFFu8, 0u32), (0x00, 0xFFFF_FFFF), (0x5A, 0x1234_5678)] {
                let mut emu = machine_at(0x100);
                let addr = 0x10 + lane;
                for i in 0..8u32 {
                    emu.r3000.main_bus.write_byte(0x10 + i, fill.wrapping_add(i as u8));
                }
                emu.set_gen_reg(1, addr);
                emu.set_gen_reg(2, held);
                let lwr = i_type(0x26, 1, 2, 0);
                let lwl = i_type(0x22, 1, 2, 3);
                let (first, second) = if right_first { (lwr, lwl) } else { (lwl, lwr) };
                assert_eq!(exec(&mut emu.r3000, first), Ok(()));
                assert_eq!(exec(&mut emu.r3000, second), Ok(()));
                let b = |i: u32| fill.wrapping_add((lane + i) as u8) as u32;
                let word = b(0) | b(1) << 8 | b(2) << 16 | b(3) << 24;
                assert_eq!(emu.r3000.load_delay.map(|d| (d.register, d.value)), Some((2, word)));
                // The load arrives when the next step begins.
                step(&mut emu).unwrap();
                assert_eq!(emu.read_gen_reg(2), word);
                assert_eq!(emu.read_gen_reg(1), addr);
            }
        }
    }
}

#[test]
fn lwl_merges_into_a_load_that_is_on_its_way() {
    let mut emu = machine_at(0x100);
    for i in 0..4u32 {
        emu.r3000.main_bus.write_byte(0x11 + i, 0xFF);
    }
    emu.set_gen_reg(1, 0x11);
    assert_eq!(exec(&mut emu.r3000, 0x9822_0000), Ok(()));
    assert_eq!(emu.r3000.load_delay.map(|d| (d.register, d.value)), Some((2, 0x00FF_FFFF)));
    assert_eq!(exec(&mut emu.r3000, 0x8822_0003), Ok(()));
    assert_eq!(emu.read_gen_reg(2), 0x00FF_FFFF);
    assert_eq!(emu.r3000.load_delay.map(|d| (d.register, d.value)), Some((2, 0xFFFF_FFFF)));
    // A load on its way to another register is no concern of the merge.
    let mut emu = machine_at(0x100);
    emu.r3000.main_bus.write_word(0x10, 0x4433_2211);
    emu.set_gen_reg(2, 0xAABB_CCDD);
    exec(&mut emu.r3000, i_type(0x23, 0, 3, 0x10)).unwrap();
    exec(&mut emu.r3000, i_type(0x22, 0, 2, 0x11)).unwrap();
    assert_eq!(emu.read_gen_reg(3), 0x4433_2211);
    assert_eq!(emu.r3000.load_delay.map(|d| (d.register, d.value)), Some((2, 0x2211_CCDD)));
}

#[test]
fn lwl_and_lwr_keep_the_rest_of_the_register() {
    let mut emu = machine_at(0x100);
    emu.r3000.main_bus.write_word(0x10, 0x4433_2211);
    emu.set_gen_reg(1, 0xAABB_CCDD);
    exec(&mut emu.r3000, i_type(0x22, 0, 1, 0x11)).unwrap();
    assert_eq!(emu.r3000.load_delay.map(|d| (d.register, d.value)), Some((1, 0x2211_CCDD)));
    emu.r3000.load_delay = None;
    exec(&mut emu.r3000, i_type(0x26, 0, 1, 0x11)).unwrap();
    assert_eq!(emu.r3000.load_delay.map(|d| (d.register, d.value)), Some((1, 0xAA44_3322)));
}

#[test]
fn swl_and_swr_store_an_unaligned_word() {
    for lane in 0..4u32 {
        let mut emu = machine_at(0x100);
        let addr = 0x20 + lane;
        emu.set_gen_reg(1, 0x4433_2211);
        exec(&mut emu.r3000, i_type(0x2A, 0, 1, addr + 3)).unwrap();
        exec(&mut emu.r3000, i_type(0x2E, 0, 1, addr)).unwrap();
        for i in 0..4u32 {
            assert_eq!(emu.r3000.main_bus.read_byte(addr + i), (0x11 * (i + 1)) as u8);
        }
        assert_eq!(emu.r3000.main_bus.read_byte(addr + 4), 0);
        if lane > 0 {
            assert_eq!(emu.r3000.main_bus.read_byte(addr - 1), 0);
        }
    }
}

#[test]
fn swl_into_rom_is_a_fault_and_leaves_no_trace() {
    let mut emu = machine_at(0x100);
    emu.r3000.last_addr = 0x55;
    emu.set_gen_reg(1, 0xBFC0_0000);
    assert_eq!(
        exec(&mut emu.r3000, i_type(0x2A, 1, 2, 1)),
        Err(Fault::RomWrite { addr: 0xBFC0_0000 })
    );
    assert_eq!(emu.r3000.last_addr, 0x55);
}

#[test]
fn loads_extend_bytes_and_halfwords() {
    let mut emu = machine_at(0x100);
    emu.r3000.main_bus.write_word(0x40, 0x8001_80FF);
    let cases = [
        (0x20u32, 0x40u32, 0xFFFF_FFFFu32),
        (0x24, 0x40, 0x0000_00FF),
        (0x20, 0x41, 0xFFFF_FF80),
        (0x20, 0x42, 0x0000_0001),
        (0x21, 0x40, 0xFFFF_80FF),
        (0x25, 0x40, 0x0000_80FF),
        (0x21, 0x42, 0xFFFF_8001),
        (0x25, 0x42, 0x0000_8001),
        (0x23, 0x40, 0x8001_80FF),
    ];
    for (op, addr, expected) in cases {
        emu.r3000.load_delay = None;
        assert_eq!(exec(&mut emu.r3000, i_type(op, 0, 1, addr)), Ok(()));
        assert_eq!(emu.r3000.load_delay.map(|d| (d.register, d.value)), Some((1, expected)));
        assert_eq!(emu.r3000.last_addr, addr);
    }
}

#[test]
fn load_address_is_base_plus_signed_offset() {
    let mut emu = machine_at(0x100);
    emu.r3000.main_bus.write_word(0x3C, 0xCAFE_F00D);
    emu.set_gen_reg(2, 0x40);
    exec(&mut emu.r3000, i_type(0x23, 2, 1, 0xFFFC)).unwrap();
    assert_eq!(emu.r3000.load_delay.map(|d| d.value), Some(0xCAFE_F00D));
}

#[test]
fn loaded_value_arrives_when_the_next_step_begins() {
    let mut emu = machine_at(0x100);
    emu.r3000.main_bus.write_word(0x40, 0x1111_2222);
    // lw r1, 0x40(r0); addu r2, r1, r0
    program(&mut emu, 0x100, &[i_type(0x23, 0, 1, 0x40), r_type(0x21, 1, 0, 2, 0)]);
    step(&mut emu).unwrap();
    assert_eq!(emu.read_gen_reg(1), 0);
    assert!(emu.r3000.load_delay.is_some());
    step(&mut emu).unwrap();
    assert_eq!(emu.read_gen_reg(1), 0x1111_2222);
    assert_eq!(emu.read_gen_reg(2), 0x1111_2222);
    assert!(emu.r3000.load_delay.is_none());
}

#[test]
fn a_second_load_lets_the_first_arrive() {
    let mut emu = machine_at(0x100);
    emu.r3000.main_bus.write_word(0x40, 7);
    emu.r3000.main_bus.write_word(0x44, 8);
    exec(&mut emu.r3000, i_type(0x23, 0, 1, 0x40)).unwrap();
    exec(&mut emu.r3000, i_type(0x23, 0, 2, 0x44)).unwrap();
    assert_eq!(emu.read_gen_reg(1), 7);
    assert_eq!(emu.r3000.load_delay.map(|d| (d.register, d.value)), Some((2, 8)));
}

#[test]
fn stores_write_the_low_bytes() {
    let mut emu = machine_at(0x100);
    emu.set_gen_reg(1, 0xA1B2_C3D4);
    emu.set_gen_reg(2, 0x50);
    exec(&mut emu.r3000, i_type(0x28, 2, 1, 3)).unwrap();
    assert_eq!(emu.r3000.main_bus.read_word(0x50), 0xD400_0000);
    exec(&mut emu.r3000, i_type(0x29, 2, 1, 0)).unwrap();
    assert_eq!(emu.r3000.main_bus.read_word(0x50), 0xD400_C3D4);
    exec(&mut emu.r3000, i_type(0x2B, 2, 1, 0xFFFC)).unwrap();
    assert_eq!(emu.r3000.main_bus.read_word(0x4C), 0xA1B2_C3D4);
    assert_eq!(emu.r3000.last_addr, 0x4C);
}

#[test]
fn unaligned_loads_and_stores_raise_address_errors() {
    for (op, addr, code) in
        [(0x23u32, 0x42u32, 4u32), (0x21, 0x41, 4), (0x25, 0x43, 4), (0x2B, 0x41, 5), (0x29, 0x41, 5)]
    {
        let mut emu = machine_at(0x104);
        emu.r3000.main_bus.write_word(0x40, 0x0102_0304);
        assert_eq!(exec(&mut emu.r3000, i_type(op, 0, 1, addr)), Ok(()));
        assert_eq!(cause_code(&emu.r3000), code);
        assert_eq!(emu.r3000.cop0.read_reg(EPC), 0x100);
        assert_eq!(emu.r3000.pc, 0x8000_0080);
        assert!(emu.r3000.load_delay.is_none());
        assert_eq!(emu.r3000.main_bus.read_word(0x40), 0x0102_0304);
    }
}

#[test]
fn unknown_instructions_raise_reserved_instruction() {
    let unknown = [
        0xFC00_0000u32,          // opcode 0x3F
        i_type(0x0E, 1, 2, 3),   // opcode 0x0E
        r_type(0x0D, 0, 0, 0, 0), // funct 0x0D
        r_type(0x22, 1, 2, 3, 0), // funct 0x22
        r_type(0x18, 1, 2, 0, 0), // funct 0x18
        i_type(0x01, 1, 2, 0),   // regimm with rt 2
        i_type(0x10, 2, 1, 0),   // coprocessor 0 with rs 2
        i_type(0x11, 0, 0, 0),   // coprocessor 1
        i_type(0x27, 0, 1, 0),   // opcode 0x27
        i_type(0x2C, 0, 1, 0),   // opcode 0x2C
    ];
    for instruction in unknown {
        let mut emu = machine_at(0x104);
        assert_eq!(exec(&mut emu.r3000, instruction), Ok(()));
        assert_eq!(cause_code(&emu.r3000), 10);
        assert_eq!(emu.r3000.cop0.read_reg(EPC), 0x100);
        assert_eq!(emu.r3000.pc, 0x8000_0080);
    }
}

#[test]
fn geometry_coprocessor_is_unusable() {
    let mut emu = machine_at(0x104);
    assert_eq!(exec(&mut emu.r3000, i_type(0x12, 0, 1, 0)), Ok(()));
    assert_eq!(cause_code(&emu.r3000), 11);
    assert_eq!(emu.r3000.cop0.read_reg(EPC), 0x100);
}

#[test]
fn nop_changes_nothing_but_the_program_counter() {
    let mut emu = machine_at(0x100);
    emu.set_gen_reg(1, 5);
    step(&mut emu).unwrap();
    assert_eq!(emu.r3000.pc, 0x104);
    assert_eq!(emu.read_gen_reg(1), 5);
    assert_eq!(emu.r3000.delay_slot, 0);
}

#[test]
fn jal_and_jalr_link_past_the_delay_slot() {
    let mut emu = machine_at(0x1000_0100);
    // The program counter is past the jump: the jump is at 0x1000_00FC.
    assert_eq!(exec(&mut emu.r3000, j_type(0x03, 0x0000_0040)), Ok(()));
    assert_eq!(emu.r3000.pc, 0x1000_0040);
    assert_eq!(emu.r3000.delay_slot, 0x1000_0100);
    assert_eq!(emu.read_gen_reg(31), 0x1000_0104);

    let mut emu = machine_at(0x104);
    emu.set_gen_reg(4, 0x8000_0200);
    assert_eq!(exec(&mut emu.r3000, r_type(0x09, 4, 0, 5, 0)), Ok(()));
    assert_eq!(emu.r3000.pc, 0x8000_0200);
    assert_eq!(emu.r3000.delay_slot, 0x104);
    assert_eq!(emu.read_gen_reg(5), 0x108);

    let mut emu = machine_at(0x104);
    emu.set_gen_reg(4, 0x300);
    assert_eq!(exec(&mut emu.r3000, r_type(0x08, 4, 0, 0, 0)), Ok(()));
    assert_eq!(emu.r3000.pc, 0x300);
    assert_eq!(emu.r3000.delay_slot, 0x104);
}

#[test]
fn jump_keeps_the_top_four_bits() {
    let mut emu = machine_at(0xBFC0_0004);
    exec(&mut emu.r3000, j_type(0x02, 0x0FFF_FFFC)).unwrap();
    assert_eq!(emu.r3000.pc, 0xBFFF_FFFC);
}

#[test]
fn jump_to_a_misaligned_address_is_a_fault() {
    let mut emu = machine_at(0x104);
    emu.set_gen_reg(4, 0x302);
    assert_eq!(
        exec(&mut emu.r3000, r_type(0x08, 4, 0, 0, 0)),
        Err(Fault::MisalignedPc { target: 0x302 })
    );
    assert_eq!(emu.r3000.pc, 0x104);
    assert_eq!(emu.r3000.delay_slot, 0);
    assert_eq!(
        exec(&mut emu.r3000, r_type(0x09, 4, 0, 5, 0)),
        Err(Fault::MisalignedPc { target: 0x302 })
    );
    assert_eq!(emu.read_gen_reg(5), 0);
}

fn branch_outcome(instruction: u32, rs: u32, rt: u32) -> u32 {
    let mut emu = machine_at(0x104);
    emu.set_gen_reg(1, rs);
    emu.set_gen_reg(2, rt);
    assert_eq!(exec(&mut emu.r3000, instruction), Ok(()));
    if emu.r3000.pc != 0x104 {
        assert_eq!(emu.r3000.delay_slot, 0x104);
    } else {
        assert_eq!(emu.r3000.delay_slot, 0);
    }
    emu.r3000.pc
}

#[test]
fn branches() {
    let minus = 0xFFFF_FFFFu32;
    // Offsets count words from the delay slot: 0x104 + 4 * 3 and 0x104 - 4 * 2.
    assert_eq!(branch_outcome(i_type(0x04, 1, 2, 3), 7, 7), 0x110);
    assert_eq!(branch_outcome(i_type(0x04, 1, 2, 3), 7, 8), 0x104);
    assert_eq!(branch_outcome(i_type(0x05, 1, 2, 0xFFFE), 7, 8), 0x0FC);
    assert_eq!(branch_outcome(i_type(0x05, 1, 2, 0xFFFE), 7, 7), 0x104);
    assert_eq!(branch_outcome(i_type(0x06, 1, 0, 3), 0, 0), 0x110);
    assert_eq!(branch_outcome(i_type(0x06, 1, 0, 3), minus, 0), 0x110);
    assert_eq!(branch_outcome(i_type(0x06, 1, 0, 3), 1, 0), 0x104);
    assert_eq!(branch_outcome(i_type(0x07, 1, 0, 3), 1, 0), 0x110);
    assert_eq!(branch_outcome(i_type(0x07, 1, 0, 3), 0, 0), 0x104);
    assert_eq!(branch_outcome(i_type(0x07, 1, 0, 3), minus, 0), 0x104);
    assert_eq!(branch_outcome(i_type(0x01, 1, 0, 3), minus, 0), 0x110);
    assert_eq!(branch_outcome(i_type(0x01, 1, 0, 3), 0, 0), 0x104);
    assert_eq!(branch_outcome(i_type(0x01, 1, 1, 3), 0, 0), 0x110);
    assert_eq!(branch_outcome(i_type(0x01, 1, 1, 3), 0x8000_0000, 0), 0x104);
    assert_eq!(branch_outcome(i_type(0x04, 0, 0, 0x8000), 0, 0), 0x104u32.wrapping_sub(0x2_0000));
}

#[test]
fn exception_in_a_delay_slot_is_a_fault() {
    let mut emu = machine_at(0x100);
    program(&mut emu, 0x100, &[j_type(0x02, 0x200), SYSCALL]);
    assert_eq!(step(&mut emu), Err(Fault::ExceptionInDelaySlot { slot: 0x104 }));
    // An interrupt that is due while a delay slot is armed.
    let mut emu = machine_at(0x100);
    emu.r3000.delay_slot = 0x40;
    emu.r3000.cop0.write_reg(STATUS, 1);
    emu.r3000.irq.set_mask(1);
    emu.manually_fire_interrupt(InterruptSource::VBLANK);
    assert_eq!(step(&mut emu), Err(Fault::ExceptionInDelaySlot { slot: 0x40 }));
    assert_eq!(emu.r3000.pc, 0x100);
    assert_eq!(emu.r3000.cop0.read_reg(EPC), 0);
    assert_eq!(emu.r3000.cop0.read_reg(STATUS), 1);
}

#[test]
fn branch_in_a_delay_slot_does_not_stop_the_machine() {
    let mut emu = machine_at(0x100);
    program(&mut emu, 0x100, &[j_type(0x02, 0x200), j_type(0x02, 0x300)]);
    assert_eq!(step(&mut emu), Ok(()));
    assert_eq!(emu.r3000.delay_slot, 0);
    assert_eq!(emu.r3000.pc % 4, 0);
}

#[test]
fn coprocessor_moves() {
    let mut emu = machine_at(0x104);
    emu.set_gen_reg(1, 0x1234_5678);
    // mtc0 r1, $3 ; mfc0 r2, $3
    exec(&mut emu.r3000, (0x10 << 26) | (0x04 << 21) | (1 << 16) | (3 << 11)).unwrap();
    assert_eq!(emu.r3000.cop0.read_reg(3), 0x1234_5678);
    exec(&mut emu.r3000, (0x10 << 26) | (2 << 16) | (3 << 11)).unwrap();
    assert_eq!(emu.read_gen_reg(2), 0x1234_5678);
}

#[test]
fn rfe_pops_the_mode_stack_and_returns() {
    let mut emu = machine_at(0x8000_0084);
    emu.r3000.cop0.write_reg(STATUS, 0xFFFF_FFD4);
    emu.r3000.cop0.write_reg(EPC, 0x100);
    assert_eq!(exec(&mut emu.r3000, (0x10 << 26) | (0x10 << 21) | 0x10), Ok(()));
    assert_eq!(emu.r3000.cop0.read_reg(STATUS), 0xFFFF_FFD5);
    assert_eq!(emu.r3000.pc, 0x100);
    emu.r3000.cop0.write_reg(EPC, 0x102);
    assert_eq!(
        exec(&mut emu.r3000, (0x10 << 26) | (0x10 << 21) | 0x10),
        Err(Fault::MisalignedPc { target: 0x102 })
    );
    assert_eq!(emu.r3000.cop0.read_reg(STATUS), 0xFFFF_FFD5);
    assert_eq!(emu.r3000.pc, 0x100);
}

#[test]
fn exception_and_return_restore_the_mode() {
    let mut emu = machine_at(0x100);
    emu.r3000.cop0.write_reg(STATUS, 0b00_0001);
    program(&mut emu, 0x100, &[SYSCALL]);
    step(&mut emu).unwrap();
    assert!(!emu.r3000.cop0.interrupt_enabled());
    exec(&mut emu.r3000, (0x10 << 26) | (0x10 << 21) | 0x10).unwrap();
    assert!(emu.r3000.cop0.interrupt_enabled());
    assert_eq!(emu.r3000.cop0.read_reg(STATUS) & 0x3F, 0b00_0001);
    assert_eq!(emu.r3000.pc, 0x100);
}

#[test]
fn fetch_from_an_unmapped_address_is_a_fault() {
    let mut emu = machine_at(0x0020_0000);
    assert_eq!(
        step(&mut emu),
        Err(Fault::UnmappedRead { addr: 0x0020_0000, width: Width::Word })
    );
    assert_eq!(emu.r3000.pc, 0x0020_0000);
}

#[test]
fn loads_and_stores_outside_the_map_are_faults() {
    let mut emu = machine_at(0x104);
    emu.set_gen_reg(1, 0x0FFF_0000);
    assert_eq!(
        exec(&mut emu.r3000, i_type(0x23, 1, 2, 0)),
        Err(Fault::UnmappedRead { addr: 0x0FFF_0000, width: Width::Word })
    );
    assert_eq!(
        exec(&mut emu.r3000, i_type(0x21, 1, 2, 0)),
        Err(Fault::UnmappedRead { addr: 0x0FFF_0000, width: Width::Half })
    );
    assert_eq!(
        exec(&mut emu.r3000, i_type(0x20, 1, 2, 0)),
        Err(Fault::UnmappedRead { addr: 0x0FFF_0000, width: Width::Byte })
    );
    assert_eq!(
        exec(&mut emu.r3000, i_type(0x2B, 1, 2, 0)),
        Err(Fault::UnmappedWrite { addr: 0x0FFF_0000, width: Width::Word })
    );
    assert_eq!(
        exec(&mut emu.r3000, i_type(0x29, 1, 2, 0)),
        Err(Fault::UnmappedWrite { addr: 0x0FFF_0000, width: Width::Half })
    );
    assert_eq!(
        exec(&mut emu.r3000, i_type(0x28, 1, 2, 0)),
        Err(Fault::UnmappedWrite { addr: 0x0FFF_0000, width: Width::Byte })
    );
    emu.set_gen_reg(1, 0xBFC0_0010);
    assert_eq!(
        exec(&mut emu.r3000, i_type(0x2B, 1, 2, 0)),
        Err(Fault::RomWrite { addr: 0xBFC0_0010 })
    );
    assert_eq!(emu.r3000.pc, 0x104);
    assert_eq!(emu.r3000.last_addr, 0);
    assert!(emu.r3000.load_delay.is_none());
}

#[test]
fn timers_are_reached_through_loads_and_stores() {
    let mut emu = machine_at(0x104);
    emu.set_gen_reg(1, 0x1F80_1100);
    emu.set_gen_reg(2, 0xABCD_1234);
    let mut timers = TimerState::new();
    // sw r2, 0x18(r1): target of timer 1
    emu.r3000.execute_instruction(i_type(0x2B, 1, 2, 0x18), &mut timers).unwrap();
    assert_eq!(timers.t1.target, 0x1234);
    // sh r2, 0x24(r1): mode of timer 2
    emu.r3000.execute_instruction(i_type(0x29, 1, 2, 0x24), &mut timers).unwrap();
    assert_eq!(timers.t2.mode, 0x1234);
    // lw r3, 0x18(r1)
    emu.r3000.execute_instruction(i_type(0x23, 1, 3, 0x18), &mut timers).unwrap();
    assert_eq!(emu.r3000.load_delay.map(|d| (d.register, d.value)), Some((3, 0x1234)));
    assert_eq!(emu.r3000.last_addr, 0x1F80_1118);
    // A byte in the window belongs to the I/O window: zero, and dropped.
    assert_eq!(emu.r3000.read_bus_byte(0x1F80_1118), Ok(0));
}

#[test]
fn vertical_blanking_is_posted_at_the_head_of_a_step() {
    let mut emu = machine_at(0x100);
    emu.r3000.main_bus.gpu.state.vblank = true;
    step(&mut emu).unwrap();
    assert_eq!(emu.r3000.irq.stat, 1);
    assert!(!emu.r3000.main_bus.gpu.state.vblank);
    emu.r3000.irq.acknowledge(0);
    step(&mut emu).unwrap();
    assert_eq!(emu.r3000.irq.stat, 0);
}

#[test]
fn program_counter_stays_aligned() {
    let mut emu = machine_at(0x100);
    program(
        &mut emu,
        0x100,
        &[
            i_type(0x04, 0, 0, 0x10),
            0,
            SYSCALL,
        ],
    );
    for _ in 0..20 {
        assert_eq!(step(&mut emu), Ok(()));
        assert_eq!(emu.r3000.pc % 4, 0);
        assert_eq!(emu.r3000.delay_slot % 4, 0);
        assert_eq!(emu.read_gen_reg(0), 0);
    }
}
