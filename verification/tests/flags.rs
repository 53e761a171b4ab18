use rustynes::byte::extract_bit;
use rustynes::error::DecodeError;
use rustynes::flag_6::{parse_flag_6, Flag6BitPosition, NesMapper, ScreenMode};
use rustynes::rom_data::{validate_nes_header, HeaderPosition};

#[test]
fn mmc1_nibble_defaults() {
    let flags = parse_flag_6(&0x10).unwrap();
    assert_eq!(flags.nes_mapper, NesMapper::MMC1);
    assert_eq!(flags.mirroring, ScreenMode::HORIZONTAL);
    assert!(!flags.battery_backed);
    assert!(!flags.trainer_present);
    assert!(!flags.four_screen_mode);
}

#[test]
fn unknown_mapper_nibble_six() {
    assert_eq!(parse_flag_6(&0x60), Err(DecodeError::UnknownMapper));
}

#[test]
fn unknown_mapper_high_nibbles() {
    assert_eq!(parse_flag_6(&0x80), Err(DecodeError::UnknownMapper));
    assert_eq!(parse_flag_6(&0xF0), Err(DecodeError::UnknownMapper));
}

#[test]
fn all_known_mapper_nibbles() {
    assert_eq!(parse_flag_6(&0x00).unwrap().nes_mapper, NesMapper::NROM);
    assert_eq!(parse_flag_6(&0x10).unwrap().nes_mapper, NesMapper::MMC1);
    assert_eq!(parse_flag_6(&0x20).unwrap().nes_mapper, NesMapper::UNROM);
    assert_eq!(parse_flag_6(&0x30).unwrap().nes_mapper, NesMapper::CNROM);
    assert_eq!(parse_flag_6(&0x40).unwrap().nes_mapper, NesMapper::MMC3);
    assert_eq!(parse_flag_6(&0x50).unwrap().nes_mapper, NesMapper::MMC5);
    assert_eq!(parse_flag_6(&0x70).unwrap().nes_mapper, NesMapper::AOROM);
}

#[test]
fn mapper_numbers() {
    assert_eq!(NesMapper::NROM.value(), 0);
    assert_eq!(NesMapper::MMC1.value(), 1);
    assert_eq!(NesMapper::UNROM.value(), 2);
    assert_eq!(NesMapper::CNROM.value(), 3);
    assert_eq!(NesMapper::MMC3.value(), 4);
    assert_eq!(NesMapper::MMC5.value(), 5);
    assert_eq!(NesMapper::AOROM.value(), 7);
}

#[test]
fn all_flag_bits_set() {
    let flags = parse_flag_6(&0x0F).unwrap();
    assert_eq!(flags.nes_mapper, NesMapper::NROM);
    assert_eq!(flags.mirroring, ScreenMode::VERTICAL);
    assert!(flags.battery_backed);
    assert!(flags.trainer_present);
    assert!(flags.four_screen_mode);
}

#[test]
fn mirroring_bit_selects_vertical() {
    let flags = parse_flag_6(&0x01).unwrap();
    assert_eq!(flags.mirroring, ScreenMode::VERTICAL);
    let flags = parse_flag_6(&0x00).unwrap();
    assert_eq!(flags.mirroring, ScreenMode::HORIZONTAL);
}

#[test]
fn extract_bit_reads_single_bits() {
    assert_eq!(extract_bit(&0b0000_1010, 0), 0);
    assert_eq!(extract_bit(&0b0000_1010, 1), 1);
    assert_eq!(extract_bit(&0b0000_1010, 2), 0);
    assert_eq!(extract_bit(&0b0000_1010, 3), 1);
    assert_eq!(extract_bit(&0x80, 7), 1);
    assert_eq!(extract_bit(&0x7F, 7), 0);
}

#[test]
fn flag_bit_positions() {
    assert_eq!(Flag6BitPosition::Mirroring.value(), 0);
    assert_eq!(Flag6BitPosition::SramBatteryBacked.value(), 1);
    assert_eq!(Flag6BitPosition::TrainerMode.value(), 2);
    assert_eq!(Flag6BitPosition::FourScreenMode.value(), 3);
}

#[test]
fn header_field_offsets() {
    assert_eq!(HeaderPosition::PrgRomSize.position(), 4);
    assert_eq!(HeaderPosition::ChrRomSize.position(), 5);
    assert_eq!(HeaderPosition::Flag6.position(), 6);
    assert_eq!(HeaderPosition::Flag7.position(), 7);
    assert_eq!(HeaderPosition::PrgRamSize.position(), 8);
    assert_eq!(HeaderPosition::Flag9.position(), 9);
    assert_eq!(HeaderPosition::Flag10.position(), 10);
}

#[test]
fn signature_accepted() {
    let bytes = [78u8, 69, 83, 26, 0];
    let magic = validate_nes_header(&bytes).unwrap();
    assert_eq!(magic, [78, 69, 83]);
}

#[test]
fn signature_rejected() {
    let bytes = [78u8, 69, 84];
    assert_eq!(
        validate_nes_header(&bytes),
        Err(DecodeError::InvalidSignature)
    );
}
