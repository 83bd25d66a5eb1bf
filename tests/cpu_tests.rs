use rbgb::types::{DIVIDER_REGISTER, IE, IF, TIMA, TMA, TMC};
use rbgb::{CpuError, Memory, Register, Timer, CPU};

fn cpu_with_memory() -> (CPU, Memory) {
    let mut mem = Memory::new();
    let cpu = CPU::new(&mut mem);
    (cpu, mem)
}

#[test]
fn test_cpu_init() {
    let (cpu, _mem) = cpu_with_memory();
    assert_eq!(cpu.cycles, 0);
}

#[test]
fn test_cpu_interrupts() {
    let (mut cpu, mut mem) = cpu_with_memory();

    assert_eq!(cpu.cycles, 0);
    assert!(cpu.ime);

    mem.request_interrupt(1);
    mem.enable_interrupt(1);
    assert_eq!(mem.read_byte(IF), 0x2);
    cpu.handle_interrupts(&mut mem);

    assert_eq!(cpu.registers.reg_pc.value(), 0x48);
    assert!(!cpu.ime);

    let ret = cpu.pop_stack(&mem);
    assert_eq!(ret, 0x100);
}

#[test]
fn test_push_pop_stack() {
    let (mut cpu, mut mem) = cpu_with_memory();

    let af = cpu.registers.reg_af.value();
    cpu.push_stack(&mut mem, af);
    assert_eq!(cpu.registers.reg_sp.value(), 0xFFFC);

    let ret = cpu.pop_stack(&mem);
    assert_eq!(ret, 0x01B0);
    assert_eq!(cpu.registers.reg_sp.value(), 0xFFFE);
}

#[test]
fn test_timer_increment() {
    let mut m = Memory::new();
    m.write_byte(TMC, 0x5);
    m.set_clock_frequency();
    m.set_timer_counter(0);
    let mut timer = Timer::new();
    timer.update_timers(&mut m, 16);
    assert_eq!(m.read_byte(TIMA), 1);
    assert_eq!(m.read_byte(IF), 0);
}

#[test]
fn test_timer_overflow() {
    let mut m = Memory::new();
    m.write_byte(TMC, 0x5);
    m.write_byte(TIMA, 255);
    m.write_byte(TMA, 7);
    m.set_clock_frequency();
    m.set_timer_counter(0);
    let mut timer = Timer::new();
    timer.update_timers(&mut m, 16);
    assert_eq!(m.read_byte(TIMA), 7);
    assert_eq!(m.read_byte(IF) & 0x4, 0x4);
}

#[test]
fn test_divider_register_increment() {
    let mut m = Memory::new();
    let mut timer = Timer::new();
    timer.update_timers(&mut m, 255);
    assert_eq!(m.read_byte_forced(DIVIDER_REGISTER), 1);
}

#[test]
fn test_register_operations() {
    let mut reg = Register::new(0x1234);
    assert_eq!(reg.value(), 0x1234);
    assert_eq!(reg.high_value(), 0x12);
    assert_eq!(reg.low_value(), 0x34);

    reg.incriment();
    assert_eq!(reg.value(), 0x1235);

    reg.decriment();
    reg.decriment();
    assert_eq!(reg.value(), 0x1233);

    reg.set(0xABCD);
    assert_eq!(reg.value(), 0xABCD);
}

#[test]
fn test_cpu_reset() {
    let (mut cpu, mem) = cpu_with_memory();

    cpu.cycles = 42;
    cpu.ime = false;
    cpu.registers.reg_af.set(0xFFFF);

    cpu.reset();

    assert_eq!(cpu.cycles, 0);
    assert!(!cpu.ime);
    assert_eq!(cpu.registers.reg_af.value(), 0x01B0);
    assert_eq!(mem.read_byte(TIMA), 0);
}

#[test]
fn test_timer_disabled_no_increment() {
    let mut m = Memory::new();
    m.write_byte(TMC, 0x0);
    m.set_clock_frequency();
    m.set_timer_counter(0);
    let mut timer = Timer::new();
    timer.update_timers(&mut m, 16);
    assert_eq!(m.read_byte(TIMA), 0);
}

#[test]
fn test_serial_interrupt_vector() {
    let (mut cpu, mut mem) = cpu_with_memory();

    mem.request_interrupt(3);
    mem.enable_interrupt(3);
    assert_eq!(mem.read_byte(IF), 1 << 3);

    cpu.handle_interrupts(&mut mem);

    assert_eq!(mem.read_byte(IF), 0);
    assert_eq!(cpu.registers.reg_pc.value(), 0x58);
    let ret = cpu.pop_stack(&mem);
    assert_eq!(ret, 0x100);
    assert!(!cpu.ime);
}

#[test]
fn test_timer_update() {
    let mut m = Memory::new();
    let mut timer = Timer::new();

    m.ram_startup();
    m.write_byte(TMC, 0x04);
    m.write_byte(TIMA, 0x00);
    m.set_clock_frequency();

    timer.update_timers(&mut m, 1024);

    assert_eq!(m.read_byte(TIMA), 1);
    assert!(m.timer_counter() > 0);
}

#[test]
fn vblank_serviced_before_timer() {
    let (mut cpu, mut mem) = cpu_with_memory();
    mem.request_interrupt(0);
    mem.request_interrupt(2);
    mem.enable_interrupt(0);
    mem.enable_interrupt(2);
    cpu.handle_interrupts(&mut mem);
    assert_eq!(cpu.registers.reg_pc.value(), 0x40);
    assert_eq!(mem.read_byte(IF), 0x4);
    assert_eq!(mem.read_byte(IE), 0x5);
    assert!(!cpu.ime);
}

#[test]
fn no_interrupt_while_master_disabled() {
    let (mut cpu, mut mem) = cpu_with_memory();
    cpu.ime = false;
    mem.request_interrupt(0);
    mem.enable_interrupt(0);
    cpu.handle_interrupts(&mut mem);
    assert_eq!(cpu.registers.reg_pc.value(), 0x100);
    assert_eq!(mem.read_byte(IF), 0x1);
}

#[test]
fn divider_counts_across_calls() {
    let mut m = Memory::new();
    let mut timer = Timer::new();
    timer.update_timers(&mut m, 200);
    assert_eq!(m.read_byte_forced(DIVIDER_REGISTER), 0);
    timer.update_timers(&mut m, 55);
    assert_eq!(m.read_byte_forced(DIVIDER_REGISTER), 1);
}

#[test]
fn add8_sets_zero_and_carry() {
    let (mut cpu, _mem) = cpu_with_memory();
    cpu.registers.set_a(0xFF);
    cpu.add8(0x01);
    assert_eq!(cpu.registers.a(), 0x00);
    assert_eq!(cpu.registers.f(), 0x51);
    cpu.registers.set_a(0x12);
    cpu.add8(0x34);
    assert_eq!(cpu.registers.a(), 0x46);
    assert_eq!(cpu.registers.f() & 0x41, 0);
}

#[test]
fn sub8_borrow_and_cp_keeps_a() {
    let (mut cpu, _mem) = cpu_with_memory();
    cpu.registers.set_a(0x03);
    cpu.sub8(0x05);
    assert_eq!(cpu.registers.a(), 0xFE);
    assert_eq!(cpu.registers.f() & 0x03, 0x03);
    cpu.cp8(0xFE);
    assert_eq!(cpu.registers.a(), 0xFE);
    assert_eq!(cpu.registers.f() & 0x40, 0x40);
}

#[test]
fn daa_after_bcd_add() {
    let (mut cpu, _mem) = cpu_with_memory();
    cpu.registers.set_a(0x15);
    cpu.registers.set_f(0);
    cpu.add8(0x27);
    assert_eq!(cpu.registers.a(), 0x3C);
    cpu.daa();
    assert_eq!(cpu.registers.a(), 0x42);
}

#[test]
fn add16_sets_scratch_register() {
    let (mut cpu, _mem) = cpu_with_memory();
    cpu.registers.set_f(0);
    let r = cpu.add16(0xFFFF, 0x0001);
    assert_eq!(r, 0x0000);
    assert_eq!(cpu.registers.wz(), 0x0000);
    assert_eq!(cpu.registers.f() & 0x01, 0x01);
    let r = cpu.add16(0x1234, 0x0001);
    assert_eq!(r, 0x1235);
    assert_eq!(cpu.registers.wz(), 0x1235);
}

#[test]
fn rotates_move_bits_through_carry() {
    let (mut cpu, _mem) = cpu_with_memory();
    cpu.registers.set_f(0);
    assert_eq!(cpu.rlc8(0x81), 0x03);
    assert_eq!(cpu.registers.f() & 0x01, 0x01);
    assert_eq!(cpu.rr8(0x02), 0x81);
    assert_eq!(cpu.registers.f() & 0x01, 0x00);
    assert_eq!(cpu.sra8(0x80), 0xC0);
    assert_eq!(cpu.srl8(0x80), 0x40);
    assert_eq!(cpu.sll8(0x00), 0x01);
}

#[test]
fn executes_program_from_rom() {
    let mut mem = Memory::new();
    mem.load_rom_data(&[0x31, 0xFE, 0xFF, 0xAF]);
    mem.ram_startup();
    let mut cpu = CPU::new(&mut mem);
    cpu.registers.reg_pc.set(0);
    cpu.registers.reg_sp.set(0);
    assert_eq!(cpu.step(&mut mem), Ok(10));
    assert_eq!(cpu.registers.sp(), 0xFFFE);
    assert_eq!(cpu.step(&mut mem), Ok(4));
    assert_eq!(cpu.registers.a(), 0);
    assert_eq!(cpu.registers.f(), 0x44);
    assert_eq!(cpu.registers.pc(), 4);
}

#[test]
fn conditional_jump_cycles() {
    let mut mem = Memory::new();
    // JR NZ,+2 ; JR Z,+2
    mem.load_rom_data(&[0x20, 0x02, 0x28, 0x02]);
    let mut cpu = CPU::new(&mut mem);
    cpu.registers.reg_pc.set(0);
    cpu.registers.set_f(0x40);
    assert_eq!(cpu.step(&mut mem), Ok(7));
    assert_eq!(cpu.registers.pc(), 2);
    assert_eq!(cpu.step(&mut mem), Ok(12));
    assert_eq!(cpu.registers.pc(), 6);
}

#[test]
fn halt_steps_back() {
    let mut mem = Memory::new();
    mem.load_rom_data(&[0x76]);
    let mut cpu = CPU::new(&mut mem);
    cpu.registers.reg_pc.set(0);
    assert_eq!(cpu.step(&mut mem), Ok(4));
    assert!(cpu.halted);
    assert_eq!(cpu.registers.pc(), 0);
}

#[test]
fn ldir_repeats_until_bc_zero() {
    let mut mem = Memory::new();
    mem.load_rom_data(&[0xED, 0xB0]);
    let mut cpu = CPU::new(&mut mem);
    mem.write_byte(0xC000, 0x11);
    mem.write_byte(0xC001, 0x22);
    cpu.registers.reg_pc.set(0);
    cpu.registers.sethl(0xC000);
    cpu.registers.setde(0xD000);
    cpu.registers.setbc(2);
    assert_eq!(cpu.step(&mut mem), Ok(21));
    assert_eq!(cpu.registers.pc(), 0);
    assert_eq!(cpu.step(&mut mem), Ok(16));
    assert_eq!(cpu.registers.pc(), 2);
    assert_eq!(mem.read_byte(0xD000), 0x11);
    assert_eq!(mem.read_byte(0xD001), 0x22);
    assert_eq!(cpu.registers.bc(), 0);
}

#[test]
fn unsupported_and_invalid_prefixed_opcodes() {
    let mut mem = Memory::new();
    mem.load_rom_data(&[0xED, 0x4D, 0xED, 0x00]);
    let mut cpu = CPU::new(&mut mem);
    cpu.registers.reg_pc.set(0);
    assert_eq!(
        cpu.step(&mut mem),
        Err(CpuError::Unsupported { prefix: 0xED, opcode: 0x4D })
    );
    assert_eq!(
        cpu.step(&mut mem),
        Err(CpuError::InvalidInstruction { prefix: 0xED, opcode: 0x00 })
    );
}

#[test]
fn cb_prefixed_bit_and_set() {
    let mut mem = Memory::new();
    // SET 0,B ; BIT 0,B
    mem.load_rom_data(&[0xCB, 0xC0, 0xCB, 0x40]);
    let mut cpu = CPU::new(&mut mem);
    cpu.registers.reg_pc.set(0);
    cpu.registers.setbc(0);
    assert_eq!(cpu.step(&mut mem), Ok(8));
    assert_eq!(cpu.registers.b(), 1);
    assert_eq!(cpu.step(&mut mem), Ok(8));
    assert_eq!(cpu.registers.f() & 0x40, 0);
}

#[test]
fn call_and_ret_round_trip() {
    let mut mem = Memory::new();
    mem.load_rom_data(&[0xCD, 0x10, 0x00]);
    let mut cpu = CPU::new(&mut mem);
    cpu.registers.reg_pc.set(1);
    assert_eq!(cpu.call(&mut mem), 17);
    assert_eq!(cpu.registers.pc(), 0x0010);
    assert_eq!(cpu.registers.sp(), 0xFFFC);
    assert_eq!(cpu.ret(&mem), 10);
    assert_eq!(cpu.registers.pc(), 0x0003);
    assert_eq!(cpu.registers.sp(), 0xFFFE);
}
