use rbgb::types::{DMA_REG, IE, IF, INPUT_REGISTER, LCD_CONTROL, SPRITE_RAM, TMC};
use rbgb::{Color, CurrentRamBank, CurrentRomBank, Memory, RomBankingType};

#[test]
fn mem_test_mem_startup() {
    let mut mem: Memory = Memory::new();

    mem.ram_startup();

    assert_eq!(mem.read_byte(0xFF11), 0xBF);
    assert_eq!(mem.read_byte(0xFF19), 0xBF);
    assert_eq!(mem.read_byte(0xFF24), 0x77);
}

#[test]
fn mem_test_read_write_ram() {
    let mut mem: Memory = Memory::new();

    mem.write_byte(0xD000, 0x9);
    assert_eq!(0x9, mem.read_byte(0xD000));

    mem.write_byte(0xD010, 0x9);
    assert_eq!(0x9, mem.read_byte(0xD010));

    mem.write_byte(0xE000, 0x9);
    assert_eq!(0x9, mem.read_byte(0xE000));
    assert_eq!(0x9, mem.read_byte(0xE000 - 0x2000));
}

#[test]
fn test_read_word_wraps_at_end() {
    let mut mem: Memory = Memory::new();
    mem.write_byte_forced(0xFFFF, 0xAA);
    mem.write_byte_forced(0x0000, 0xBB);
    assert_eq!(mem.read_word(0xFFFF), 0xBBAA);
}

#[test]
fn test_write_word_high_region() {
    let mut mem: Memory = Memory::new();
    mem.write_word(0xFFFE, 0xBEEF);
    assert_eq!(mem.read_byte(0xFFFE), 0xEF);
    assert_eq!(mem.read_byte(0xFFFF), 0xBE);
}

#[test]
fn mem_test_invalid_write() {
    let mut mem: Memory = Memory::new();

    mem.write_byte(0x0, 0x9);
    assert_ne!(0x9, mem.read_byte(0x0));

    mem.write_byte(0x10, 0x9);
    assert_ne!(0x9, mem.read_byte(0x10));

    mem.write_byte(0xFEA0, 0x9);
    assert_ne!(0x9, mem.read_byte(0xFEA0));
}

#[test]
fn mem_test_echo_mem() {
    let mut mem: Memory = Memory::new();

    mem.write_byte(0xE000, 0x9);
    assert_eq!(0x9, mem.read_byte(0xE000));
    assert_eq!(0x9, mem.read_byte(0xE000 - 0x2000));

    mem.write_byte(0xF100, 0x8);
    assert_eq!(0x8, mem.read_byte(0xF100));
    assert_eq!(0x8, mem.read_byte(0xF100 - 0x2000));
}

#[test]
fn mem_test_enabling_ram() {
    let mut mem: Memory = Memory::new();
    mem.ram_startup();

    mem.write_byte_forced(0x147, 1);
    mem.refresh_rom_banking_type();
    assert_eq!(mem.rom_banking_type(), RomBankingType::MBC1);

    mem.write_byte(0x1, 0xA);
    assert!(mem.ram_write_enabled());

    mem.write_byte(0x1, 0x0);
    assert!(!mem.ram_write_enabled());
}

#[test]
fn mem_test_mbc1() {
    let mut mem: Memory = Memory::new();
    mem.ram_startup();

    mem.write_byte_forced(0x147, 1);
    mem.refresh_rom_banking_type();
    assert_eq!(mem.rom_banking_type(), RomBankingType::MBC1);

    mem.write_byte(0x1, 0xA);
    assert!(mem.ram_write_enabled());

    mem.write_byte(0x1, 0x0);
    assert!(!mem.ram_write_enabled());

    mem.write_byte(0x2001, 0x0);
    assert_eq!(mem.rom_bank(), CurrentRomBank::Bank(1));
    mem.write_byte(0x2001, 0x1);
    assert_eq!(mem.rom_bank(), CurrentRomBank::Bank(1));
    mem.write_byte(0x2001, 0x2);
    assert_eq!(mem.rom_bank(), CurrentRomBank::Bank(2));
    mem.write_byte(0x2001, 0x3);
    assert_eq!(mem.rom_bank(), CurrentRomBank::Bank(3));

    mem.write_byte(0x6000, 0);
    assert!(mem.rom_banking_mode());
    assert_eq!(mem.ram_bank(), CurrentRamBank::Bank0);
    mem.write_byte(0x4001, 0x20);
    assert_eq!(mem.rom_bank(), CurrentRomBank::Bank(35));

    mem.write_byte(0x2001, 0x40);
    assert_eq!(mem.rom_bank(), CurrentRomBank::Bank(32));

    mem.write_byte(0x6000, 1);
    assert!(!mem.rom_banking_mode());
    assert_eq!(mem.ram_bank(), CurrentRamBank::Bank0);
    mem.write_byte(0x4000, 0x2);
    assert_eq!(mem.ram_bank(), CurrentRamBank::Bank2);
}

#[test]
fn mem_test_mbc2() {
    let mut mem: Memory = Memory::new();
    mem.ram_startup();

    mem.write_byte_forced(0x147, 5);
    mem.refresh_rom_banking_type();
    assert_eq!(mem.rom_banking_type(), RomBankingType::MBC2);

    mem.write_byte(0x1, 0xA);
    assert!(mem.ram_write_enabled());

    mem.write_byte(0x1, 0x0);
    assert!(!mem.ram_write_enabled());

    mem.write_byte(0x11, 0xA);
    assert!(!mem.ram_write_enabled());
}

#[test]
fn mem_test_get_color() {
    let mut mem = Memory::new();
    mem.write_byte_forced(0xFF47, 0xE4);

    assert_eq!(mem.get_color(0, 0xFF47), Color::White);
    assert_eq!(mem.get_color(1, 0xFF47), Color::LightGrey);
    assert_eq!(mem.get_color(2, 0xFF47), Color::DarkGrey);
    assert_eq!(mem.get_color(3, 0xFF47), Color::Black);
}

#[test]
fn test_clock_frequency_values() {
    let mut mem = Memory::new();

    mem.write_byte_forced(TMC, 0);
    mem.set_clock_frequency();
    assert_eq!(mem.timer_counter(), 1024);

    mem.write_byte_forced(TMC, 1);
    mem.set_clock_frequency();
    assert_eq!(mem.timer_counter(), 16);

    mem.write_byte_forced(TMC, 2);
    mem.set_clock_frequency();
    assert_eq!(mem.timer_counter(), 64);

    mem.write_byte_forced(TMC, 3);
    mem.set_clock_frequency();
    assert_eq!(mem.timer_counter(), 256);
}

#[test]
fn test_dma_transfer() {
    let mut mem = Memory::new();

    for i in 0..0xA0u16 {
        mem.write_byte_forced(0xC000 + i, i as u8);
    }

    mem.write_byte(DMA_REG, 0xC0);

    for i in 0..0xA0u16 {
        assert_eq!(mem.read_byte(SPRITE_RAM + i), i as u8);
    }
}

#[test]
fn test_set_clock_frequency() {
    let mut mem = Memory::new();

    let tests = [(0x0u8, 1024), (0x1, 16), (0x2, 64), (0x3, 256)];

    for (val, expected) in tests {
        mem.write_byte_forced(TMC, val);
        mem.set_clock_frequency();
        assert_eq!(mem.timer_counter(), expected);
    }
}

#[test]
fn test_request_enable_interrupt() {
    let mut mem = Memory::new();
    mem.request_interrupt(1);
    assert_eq!(mem.read_byte(IF), 0x2);
    mem.request_interrupt(2);
    assert_eq!(mem.read_byte(IF), 0x6);

    let mut mem2 = Memory::new();
    mem2.enable_interrupt(1);
    assert_eq!(mem2.read_byte(IE), 0x2);
    mem2.request_interrupt(1);
    mem2.enable_interrupt(2);
    assert_eq!(mem2.read_byte(IE), 0x6);
}

#[test]
fn test_interrupt_bit_ops() {
    let mut mem = Memory::new();

    mem.request_interrupt(4);
    assert_eq!(mem.read_byte(IF), 1 << 4);

    mem.enable_interrupt(4);
    assert_eq!(mem.read_byte(IE), 1 << 4);
}

#[test]
fn test_joypad_write_preserves_select_and_recomputes() {
    let mut mem = Memory::new();
    mem.write_byte_forced(INPUT_REGISTER, 0xFF);
    mem.update_joypad_state(0x0E, 0x0F);

    mem.write_byte(INPUT_REGISTER, 0x10);
    assert_eq!(mem.read_byte(INPUT_REGISTER), 0xDE);
    assert_eq!(mem.read_byte(IF) & (1 << 4), 1 << 4);
}

#[test]
fn test_load_rom_data_small() {
    let mut mem = Memory::new();
    let mut data = vec![0u8; 0x200];
    for (i, b) in data.iter_mut().enumerate() {
        *b = i as u8;
    }
    data[0x147] = 2;

    mem.load_rom_data(&data);

    for (i, b) in data.iter().enumerate() {
        assert_eq!(mem.read_byte(i as u16), *b);
    }
    assert_eq!(mem.rom_banking_type(), RomBankingType::MBC1);
    assert_eq!(mem.read_byte(data.len() as u16), data[0]);
}

#[test]
fn test_load_rom_data_truncate() {
    let mut mem = Memory::new();
    let mut data = vec![0u8; 0x9000];
    for (i, b) in data.iter_mut().enumerate() {
        *b = (i & 0xFF) as u8;
    }
    data[0x147] = 1;

    mem.load_rom_data(&data);

    for i in 0..0x8000usize {
        assert_eq!(mem.read_byte(i as u16), data[i]);
    }
    assert_eq!(mem.read_byte(0x8000), 0);
}

#[test]
fn load_small_rom_reads_back_and_powers_on() {
    let mut mem = Memory::new();
    let data = [0x31u8, 0xFE, 0xFF, 0xAF];
    mem.load_rom_data(&data);
    mem.ram_startup();
    for (i, b) in data.iter().enumerate() {
        assert_eq!(mem.read_byte(i as u16), *b);
    }
    assert_eq!(mem.read_byte(LCD_CONTROL), 0x91);
    assert_eq!(mem.read_byte(0xFF47), 0xFC);
    assert_eq!(mem.read_byte(0xFF26), 0xF1);
}

#[test]
fn word_round_trip_in_working_ram() {
    let mut mem = Memory::new();
    mem.write_word(0xC123, 0xBEEF);
    assert_eq!(mem.read_word(0xC123), 0xBEEF);
    assert_eq!(mem.read_byte(0xC123), 0xEF);
    assert_eq!(mem.read_byte(0xC124), 0xBE);
}

#[test]
fn word_write_at_top_wraps_high_byte_to_zero() {
    let mut mem = Memory::new();
    mem.write_byte_forced(0x147, 1);
    mem.refresh_rom_banking_type();
    // the high byte lands on 0x0000, a RAM-enable control write
    mem.write_word(0xFFFF, 0x0A12);
    assert_eq!(mem.read_byte(0xFFFF), 0x12);
    assert!(mem.ram_write_enabled());
}

#[test]
fn special_registers_reset_on_write() {
    let mut mem = Memory::new();
    mem.write_byte(0xFF04, 0x55);
    assert_eq!(mem.read_byte(0xFF04), 0);
    mem.write_byte(0xFF44, 0x55);
    assert_eq!(mem.read_byte(0xFF44), 0);
}

#[test]
fn timer_control_write_reloads_countdown() {
    let mut mem = Memory::new();
    mem.set_timer_counter(5);
    mem.write_byte(TMC, 0x05);
    assert_eq!(mem.timer_counter(), 16);
    mem.set_timer_counter(5);
    mem.write_byte(TMC, 0x01);
    assert_eq!(mem.timer_counter(), 5);
}

#[test]
fn external_ram_banks_hold_writes_when_enabled() {
    let mut mem = Memory::new();
    mem.write_byte_forced(0x147, 1);
    mem.refresh_rom_banking_type();
    mem.write_byte(0xA000, 0x42);
    assert_eq!(mem.read_byte(0xA000), 0);
    mem.write_byte(0x0000, 0x0A);
    mem.write_byte(0xA000, 0x42);
    assert_eq!(mem.read_byte(0xA000), 0x42);
    mem.write_byte(0x6000, 1);
    mem.write_byte(0x4000, 3);
    assert_eq!(mem.read_byte(0xA000), 0);
    mem.write_byte(0xA000, 0x24);
    assert_eq!(mem.read_byte(0xA000), 0x24);
    mem.write_byte(0x4000, 0);
    assert_eq!(mem.read_byte(0xA000), 0x42);
}

#[test]
fn ram_mode_high_bits_leave_rom_bank() {
    let mut mem = Memory::new();
    mem.write_byte_forced(0x147, 1);
    mem.refresh_rom_banking_type();
    mem.write_byte(0x2000, 0x05);
    mem.write_byte(0x6000, 1);
    mem.write_byte(0x4000, 0x60);
    assert_eq!(mem.rom_bank(), CurrentRomBank::Bank(5));
}

#[test]
fn mbc2_bank_takes_low_nibble() {
    let mut mem = Memory::new();
    mem.write_byte_forced(0x147, 5);
    mem.refresh_rom_banking_type();
    mem.write_byte(0x2000, 0x37);
    assert_eq!(mem.rom_bank(), CurrentRomBank::Bank(7));
}

#[test]
fn switchable_window_reads_selected_bank() {
    let mut mem = Memory::new();
    let mut data = vec![0u8; 0x10000];
    for (i, b) in data.iter_mut().enumerate() {
        *b = (i / 0x4000) as u8;
    }
    data[0x147] = 1;
    mem.load_rom_data(&data);
    assert_eq!(mem.read_byte(0x4000), 1);
    mem.write_byte(0x2000, 3);
    assert_eq!(mem.read_byte(0x4000), 3);
    assert_eq!(mem.read_byte(0x0000), 0);
}
