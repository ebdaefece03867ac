use ssd1327::command::Command;
use ssd1327::command::DisplayMode;
use ssd1327::command::FrontClockDivideRatio;
use ssd1327::command::HScrollDir;
use ssd1327::command::NFrames;
use ssd1327::command::PhaseLength;
use ssd1327::command::PreChargeVoltageLevel;
use ssd1327::command::VcomhLevel;
use ssd1327::command::generate_remap;
use ssd1327::interface::RecordingSink;

#[test]
fn column_address_encodes_opcode_and_raw_bounds() {
    // Column addresses are not pre-masked at this layer, even above the
    // chip's six-bit range.
    let (bytes, len) = Command::ColumnAddress(0, 63).encode();
    assert_eq!(bytes, [0x15, 0, 63, 0, 0, 0, 0]);
    assert_eq!(len, 3);

    let (bytes, len) = Command::ColumnAddress(200, 255).encode();
    assert_eq!(bytes, [0x15, 200, 255, 0, 0, 0, 0]);
    assert_eq!(len, 3);

    let (bytes, len) = Command::ColumnAddress(7, 120).encode();
    assert_eq!(bytes, [0x15, 7, 120, 0, 0, 0, 0]);
    assert_eq!(len, 3);
}

#[test]
fn row_address_encodes_opcode_and_raw_bounds() {
    let (bytes, len) = Command::RowAddress(1, 127).encode();
    assert_eq!(bytes, [0x75, 1, 127, 0, 0, 0, 0]);
    assert_eq!(len, 3);

    let (bytes, len) = Command::RowAddress(255, 254).encode();
    assert_eq!(bytes, [0x75, 255, 254, 0, 0, 0, 0]);
    assert_eq!(len, 3);
}

#[test]
fn simple_one_and_two_byte_commands_encode() {
    assert_eq!(Command::Contrast(0x7F).encode(), ([0x81, 0x7F, 0, 0, 0, 0, 0], 2));
    assert_eq!(Command::Noop.encode(), ([0xB2, 0, 0, 0, 0, 0, 0], 1));
    assert_eq!(Command::Remap(0x5C).encode(), ([0xA0, 0x5C, 0, 0, 0, 0, 0], 2));
    assert_eq!(Command::DisplayStartLine(0x78).encode(), ([0xA1, 0x78, 0, 0, 0, 0, 0], 2));
    assert_eq!(Command::DisplayOffset(0x3F).encode(), ([0xA2, 0x3F, 0, 0, 0, 0, 0], 2));
    assert_eq!(Command::MultiplexRatio(127).encode(), ([0xA8, 127, 0, 0, 0, 0, 0], 2));
    assert_eq!(Command::SetGPIO(3).encode(), ([0xB5, 3, 0, 0, 0, 0, 0], 2));
    assert_eq!(Command::SecondPreChargePeriod(4).encode(), ([0xB6, 4, 0, 0, 0, 0, 0], 2));
    assert_eq!(Command::DefaultLinearGrayScaleTable.encode(), ([0xB9, 0, 0, 0, 0, 0, 0], 1));
    assert_eq!(Command::FunctionSelectionB(0x62).encode(), ([0xD5, 0x62, 0, 0, 0, 0, 0], 2));
}

#[test]
fn boolean_commands_fold_the_flag_into_the_byte() {
    assert_eq!(Command::DisplayOn(true).encode(), ([0xAF, 0, 0, 0, 0, 0, 0], 1));
    assert_eq!(Command::DisplayOn(false).encode(), ([0xAE, 0, 0, 0, 0, 0, 0], 1));
    assert_eq!(Command::EnableScroll(true).encode(), ([0x2F, 0, 0, 0, 0, 0, 0], 1));
    assert_eq!(Command::EnableScroll(false).encode(), ([0x2E, 0, 0, 0, 0, 0, 0], 1));
    assert_eq!(Command::VoltageRegulator(true).encode(), ([0xAB, 1, 0, 0, 0, 0, 0], 2));
    assert_eq!(Command::VoltageRegulator(false).encode(), ([0xAB, 0, 0, 0, 0, 0, 0], 2));
    assert_eq!(Command::CommandLock(true).encode(), ([0xFD, 0x16, 0, 0, 0, 0, 0], 2));
    assert_eq!(Command::CommandLock(false).encode(), ([0xFD, 0x12, 0, 0, 0, 0, 0], 2));
}

#[test]
fn display_mode_uses_the_full_opcode_byte() {
    assert_eq!(Command::DisplayMode(DisplayMode::Normal).encode(), ([0xA4, 0, 0, 0, 0, 0, 0], 1));
    assert_eq!(Command::DisplayMode(DisplayMode::AllOn).encode(), ([0xA5, 0, 0, 0, 0, 0, 0], 1));
    assert_eq!(Command::DisplayMode(DisplayMode::AllOff).encode(), ([0xA6, 0, 0, 0, 0, 0, 0], 1));
    assert_eq!(Command::DisplayMode(DisplayMode::Invert).encode(), ([0xA7, 0, 0, 0, 0, 0, 0], 1));
}

#[test]
fn preset_enums_map_to_their_register_values() {
    assert_eq!(
        Command::FrontClockDivideRatio(FrontClockDivideRatio::Hz80).encode(),
        ([0xB3, 0xC1, 0, 0, 0, 0, 0], 2)
    );
    assert_eq!(
        Command::FrontClockDivideRatio(FrontClockDivideRatio::Hz100).encode(),
        ([0xB3, 0x00, 0, 0, 0, 0, 0], 2)
    );
    assert_eq!(
        Command::FrontClockDivideRatio(FrontClockDivideRatio::Hz130).encode(),
        ([0xB3, 0x70, 0, 0, 0, 0, 0], 2)
    );
    assert_eq!(
        Command::PhaseLength(PhaseLength::PhaseAuto).encode(),
        ([0xB1, 0xF1, 0, 0, 0, 0, 0], 2)
    );
    assert_eq!(
        Command::VcomhVoltage(VcomhLevel::V082).encode(),
        ([0xBE, 0b101, 0, 0, 0, 0, 0], 2)
    );
    assert_eq!(
        Command::PreChargeVoltage(PreChargeVoltageLevel::V050).encode(),
        ([0xBC, 0x05, 0, 0, 0, 0, 0], 2)
    );
}

#[test]
fn gray_scale_table_masks_to_four_bits() {
    assert_eq!(Command::GrayScaleTable(0xFF).encode(), ([0xB8, 0x0F, 0, 0, 0, 0, 0], 2));
    assert_eq!(Command::GrayScaleTable(0x05).encode(), ([0xB8, 0x05, 0, 0, 0, 0, 0], 2));
}

#[test]
fn horizontal_scroll_setup_masks_each_field_into_its_slot() {
    let (bytes, len) = Command::HorizontalScrollSetup(
        HScrollDir::LeftToRight,
        0,
        0x3F,
        0,
        0x7F,
        NFrames::F2,
    )
    .encode();
    assert_eq!(bytes, [0x26, 0, 0, 0b111, 0x7F, 0, 0x3F]);
    assert_eq!(len, 7);

    // Out-of-range columns and rows are masked, and the direction picks the
    // opcode.
    let (bytes, len) = Command::HorizontalScrollSetup(
        HScrollDir::RightToLeft,
        0xFF,
        0xFF,
        0xFF,
        0xFF,
        NFrames::F256,
    )
    .encode();
    assert_eq!(bytes, [0x27, 0, 0x7F, 0b011, 0x7F, 0x3F, 0x3F]);
    assert_eq!(len, 7);
}

#[test]
fn send_delivers_exactly_the_valid_prefix_as_one_command() {
    let mut sink = RecordingSink::new();
    Command::Contrast(0x42).send(&mut sink).unwrap();
    Command::DisplayOn(true).send(&mut sink).unwrap();
    Command::ColumnAddress(3, 60).send(&mut sink).unwrap();
    assert_eq!(
        sink.cmd_log,
        vec![vec![0x81, 0x42], vec![0xAF], vec![0x15, 3, 60]]
    );
    assert!(sink.data_log.is_empty());
}

#[test]
fn generate_remap_sets_one_bit_per_flag() {
    assert_eq!(generate_remap(false, false, false, false, false, false, false), 0x00);
    assert_eq!(generate_remap(true, false, false, false, false, false, false), 0x01);
    assert_eq!(generate_remap(false, true, false, false, false, false, false), 0x02);
    assert_eq!(generate_remap(false, false, true, false, false, false, false), 0x04);
    assert_eq!(generate_remap(false, false, false, true, false, false, false), 0x08);
    assert_eq!(generate_remap(false, false, false, false, true, false, false), 0x10);
    assert_eq!(generate_remap(false, false, false, false, false, true, false), 0x20);
    assert_eq!(generate_remap(false, false, false, false, false, false, true), 0x40);
    assert_eq!(generate_remap(true, true, true, true, true, true, true), 0x7F);
    // Bit 7 stays clear for every combination of seven flags.
    for mask in 0u8..128 {
        let r = generate_remap(
            mask & 0x01 != 0,
            mask & 0x02 != 0,
            mask & 0x04 != 0,
            mask & 0x08 != 0,
            mask & 0x10 != 0,
            mask & 0x20 != 0,
            mask & 0x40 != 0,
        );
        assert_eq!(r & 0x80, 0);
        assert_eq!(r, mask);
    }
}

#[test]
fn remap_byte_of_plain_rotation_zero_matches_its_flags() {
    // The driver's plain rotation-zero pattern 0x5C sets bits 2 to 4 and 6:
    // increment direction, vertical scale, COM remap and odd/even split.
    assert_eq!(generate_remap(false, false, true, true, true, false, true), 0x5C);
}
