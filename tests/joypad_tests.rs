use rbgb::types::{IF, INPUT_REGISTER};
use rbgb::{Emulator, GameInput, Joypad, KeyState, Memory};

fn setup_joypad(select_bits: u8) -> (Joypad, Memory) {
    let mut mem = Memory::new();
    mem.write_byte_forced(INPUT_REGISTER, 0xC0 | select_bits | 0x0F);
    (Joypad::new(), mem)
}

#[test]
fn buttons_selection_updates_lower_nibble_and_interrupts() {
    let (mut joypad, mut mem) = setup_joypad(0x10);
    joypad.log_input(&mut mem, GameInput::A, KeyState::Pressed);

    let value = mem.read_byte_forced(INPUT_REGISTER);
    assert_eq!(value, 0xDE);

    let if_val = mem.read_byte_forced(IF);
    assert_eq!(if_val & (1 << 4), 1 << 4);
}

#[test]
fn directions_selection_updates_lower_nibble() {
    let (mut joypad, mut mem) = setup_joypad(0x20);
    joypad.log_input(&mut mem, GameInput::Up, KeyState::Pressed);

    let value = mem.read_byte_forced(INPUT_REGISTER);
    assert_eq!(value, 0xEB);
}

#[test]
fn no_selection_keeps_low_nibble_high_and_no_interrupt() {
    let (mut joypad, mut mem) = setup_joypad(0x30);
    joypad.log_input(&mut mem, GameInput::A, KeyState::Pressed);

    let value = mem.read_byte_forced(INPUT_REGISTER);
    assert_eq!(value, 0xFF);

    let if_val = mem.read_byte_forced(IF);
    assert_eq!(if_val & (1 << 4), 0);
}

#[test]
fn release_does_not_request_interrupt() {
    let (mut joypad, mut mem) = setup_joypad(0x10);
    joypad.log_input(&mut mem, GameInput::A, KeyState::Pressed);
    mem.write_byte_forced(IF, 0x00);

    joypad.log_input(&mut mem, GameInput::A, KeyState::Released);
    let if_val = mem.read_byte_forced(IF);
    assert_eq!(if_val & (1 << 4), 0);
    assert_eq!(mem.read_byte_forced(INPUT_REGISTER) & 0x0F, 0x0F);
}

#[test]
fn unknown_input_changes_nothing() {
    let (mut joypad, mut mem) = setup_joypad(0x10);
    joypad.log_input(&mut mem, GameInput::Unknown, KeyState::Pressed);
    assert_eq!(joypad, Joypad::new());
    assert_eq!(mem.read_byte_forced(INPUT_REGISTER), 0xDF);
    assert_eq!(mem.read_byte_forced(IF), 0);
}

#[test]
fn emulator_starts_paused_and_runs_a_frame() {
    let mut emu = Emulator::new();
    assert!(emu.is_paused());
    assert_eq!(emu.update(), Ok(0));
    emu.load_rom_data(&vec![0u8; 0x8000]);
    assert!(!emu.is_paused());
    let ran = emu.update().unwrap();
    assert!(ran >= 69905 && ran < 69905 + 25);
    assert_eq!(emu.get_display_buffer().len(), 160 * 144 * 3);
    emu.toggle_pause();
    assert!(emu.is_paused());
}

#[test]
fn emulator_input_reaches_register() {
    let mut emu = Emulator::new();
    emu.game_input(GameInput::Start, KeyState::Pressed);
    assert_eq!(emu.memory().read_byte(INPUT_REGISTER) & 0x0F, 0x07);
}

#[test]
fn advance_runs_one_instruction_with_timers_and_video() {
    let mut emu = Emulator::new();
    emu.load_rom_data(&vec![0u8; 0x8000]);
    assert_eq!(emu.advance(), Ok(4));
    assert_eq!(emu.memory().read_byte(0xFF41) & 0x3, 2);
    for _ in 0..200 {
        assert_eq!(emu.advance(), Ok(4));
    }
    assert_eq!(emu.memory().read_byte(0xFF44), 1);
}
