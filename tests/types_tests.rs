use rbgb::{Color, CurrentRamBank, CurrentRomBank, KeyState, RomBankingType, Sound, SoundChannel};

#[test]
fn test_current_rom_bank_conversion() {
    let bank: CurrentRomBank = 5u8.into();
    assert_eq!(bank.value(), 5);
}

#[test]
fn header_byte_selects_banking_chip() {
    assert_eq!(RomBankingType::from_header(0), RomBankingType::NoBanking);
    assert_eq!(RomBankingType::from_header(3), RomBankingType::MBC1);
    assert_eq!(RomBankingType::from_header(6), RomBankingType::MBC2);
    assert_eq!(RomBankingType::from_header(4), RomBankingType::NoBanking);
}

#[test]
fn ram_bank_from_value() {
    assert_eq!(CurrentRamBank::from_value(2), CurrentRamBank::Bank2);
    assert_eq!(CurrentRamBank::from_value(9), CurrentRamBank::Bank0);
    assert_eq!(CurrentRamBank::Bank3.index(), 3);
}

#[test]
fn key_state_defaults_to_released() {
    assert_eq!(KeyState::default(), KeyState::Released);
    assert_eq!(KeyState::Pressed.bit(), 0);
    assert_eq!(Color::DarkGrey.level(), 0x77);
}

#[test]
fn sound_is_silent() {
    let mut sound = Sound::new();
    sound.step();
    sound.write_register(0xFF10, 3);
    assert_eq!(sound.read_register(0xFF10), 0);
    assert_eq!(sound.channels[0], SoundChannel::new());
}
