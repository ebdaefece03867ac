use ssd1327::Ssd1327;
use ssd1327::brightness::Brightness;
use ssd1327::error::TransportError;
use ssd1327::interface::FailingSink;
use ssd1327::interface::RecordingSink;
use ssd1327::mode::DisplayConfig;
use ssd1327::rotation::DisplayRotation;
use ssd1327::rotation::RotationMapper;
use ssd1327::size::DisplaySize;

fn display_128x128(
) -> Ssd1327<RecordingSink, ssd1327::mode::BasicMode> {
    Ssd1327::new(
        RecordingSink::new(),
        DisplaySize::new_128x128(),
        DisplayRotation::Rotate0,
    )
}

#[test]
fn rotation_mapper_returns_the_four_fixed_pairs() {
    assert_eq!(RotationMapper::apply(DisplayRotation::Rotate0), (0x5C, 0x00));
    assert_eq!(RotationMapper::apply(DisplayRotation::Rotate90), (0x58, 0x00));
    assert_eq!(RotationMapper::apply(DisplayRotation::Rotate180), (0x15, 0x00));
    assert_eq!(RotationMapper::apply(DisplayRotation::Rotate270), (0x17, 0x78));
}

#[test]
fn rotation_mapper_transposes_dimensions_at_quarter_turns() {
    let native = (128, 64);
    assert_eq!(RotationMapper::dimensions(DisplayRotation::Rotate0, native), (128, 64));
    assert_eq!(RotationMapper::dimensions(DisplayRotation::Rotate90, native), (64, 128));
    assert_eq!(RotationMapper::dimensions(DisplayRotation::Rotate180, native), (128, 64));
    assert_eq!(RotationMapper::dimensions(DisplayRotation::Rotate270, native), (64, 128));
}

#[test]
fn mirrored_mapping_flips_the_column_remap_bit() {
    assert_eq!(RotationMapper::apply_mirrored(DisplayRotation::Rotate0), (0x5D, 0x00));
    assert_eq!(RotationMapper::apply_mirrored(DisplayRotation::Rotate90), (0x59, 0x00));
    assert_eq!(RotationMapper::apply_mirrored(DisplayRotation::Rotate180), (0x14, 0x00));
    assert_eq!(RotationMapper::apply_mirrored(DisplayRotation::Rotate270), (0x16, 0x78));
}

#[test]
fn dimensions_follow_the_stored_rotation() {
    let display = Ssd1327::new(
        RecordingSink::new(),
        DisplaySize::new_128x128(),
        DisplayRotation::Rotate0,
    )
    .into_terminal_mode();
    assert_eq!(display.dimensions(), (128, 128));

    let rotated = Ssd1327::new(
        RecordingSink::new(),
        DisplaySize::new_128x64(),
        DisplayRotation::Rotate90,
    )
    .into_terminal_mode();
    assert_eq!(rotated.dimensions(), (64, 128));
}

#[test]
fn set_rotation_stores_and_sends_the_register_pair() {
    let mut display = display_128x128();
    display.set_rotation(DisplayRotation::Rotate270).unwrap();
    assert_eq!(display.rotation(), DisplayRotation::Rotate270);
    assert_eq!(
        display.interface.cmd_log,
        vec![vec![0xA0, 0x17], vec![0xA1, 0x78]]
    );
    assert!(display.interface.data_log.is_empty());
}

#[test]
fn set_mirror_sends_the_mirrored_pair_and_keeps_the_rotation() {
    let mut display = display_128x128();
    display.set_mirror(true).unwrap();
    assert_eq!(display.rotation(), DisplayRotation::Rotate0);
    assert_eq!(
        display.interface.cmd_log,
        vec![vec![0xA0, 0x5D], vec![0xA1, 0x00]]
    );

    display.set_mirror(false).unwrap();
    assert_eq!(
        display.interface.cmd_log,
        vec![
            vec![0xA0, 0x5D],
            vec![0xA1, 0x00],
            vec![0xA0, 0x5C],
            vec![0xA1, 0x00],
        ]
    );
}

#[test]
fn set_brightness_sends_precharge_then_contrast() {
    let mut display = display_128x128();
    display.set_brightness(Brightness::default()).unwrap();
    assert_eq!(
        display.interface.cmd_log,
        vec![vec![0xB6, 0x04], vec![0x81, 0x7F]]
    );

    display.set_brightness(Brightness::custom(0xFF, 0x20)).unwrap();
    // The pre-charge period was masked to four bits at construction.
    assert_eq!(display.interface.cmd_log[2], vec![0xB6, 0x0F]);
    assert_eq!(display.interface.cmd_log[3], vec![0x81, 0x20]);
}

#[test]
fn set_display_on_sends_the_folded_opcode() {
    let mut display = display_128x128();
    display.set_display_on(true).unwrap();
    display.set_display_on(false).unwrap();
    assert_eq!(display.interface.cmd_log, vec![vec![0xAF], vec![0xAE]]);
}

#[test]
fn set_draw_area_translates_exclusive_ends_to_inclusive() {
    let mut display = display_128x128();
    display.set_draw_area((1, 1), (128, 128)).unwrap();
    assert_eq!(
        display.interface.cmd_log,
        vec![vec![0x15, 1, 127], vec![0x75, 1, 127]]
    );

    // A zero end saturates instead of wrapping.
    display.set_draw_area((0, 0), (0, 0)).unwrap();
    assert_eq!(display.interface.cmd_log[2], vec![0x15, 0, 0]);
    assert_eq!(display.interface.cmd_log[3], vec![0x75, 0, 0]);
}

#[test]
fn set_column_and_set_row_send_the_width_complement_bound() {
    let mut display = display_128x128();
    display.set_column(3).unwrap();
    display.set_row(8).unwrap();
    assert_eq!(
        display.interface.cmd_log,
        vec![vec![0x15, 3, 125], vec![0x75, 8, 120]]
    );
}

#[test]
fn draw_sends_the_raw_buffer_as_one_data_write() {
    let mut display = display_128x128();
    display.draw(&[1, 2, 3, 4]).unwrap();
    assert!(display.interface.cmd_log.is_empty());
    assert_eq!(display.interface.data_log, vec![vec![1, 2, 3, 4]]);
}

#[test]
fn clear_programs_the_full_window_then_writes_2048_zero_bytes() {
    let mut display = display_128x128();
    display.clear().unwrap();
    assert_eq!(
        display.interface.cmd_log,
        vec![vec![0x15, 1, 127], vec![0x75, 1, 127]]
    );
    assert_eq!(display.interface.data_log.len(), 1);
    assert_eq!(display.interface.data_log[0].len(), 2048);
    assert!(display.interface.data_log[0].iter().all(|&b| b == 0));
}

#[test]
fn init_sends_the_full_bring_up_sequence_in_order() {
    let mut display = display_128x128();
    display.init_basic().unwrap();
    let expected: Vec<Vec<u8>> = vec![
        vec![0xAE],
        vec![0xA8, 127],
        vec![0xA0, 0x5C],
        vec![0xA1, 0x00],
        vec![0xA2, 0x00],
        vec![0xA4],
        vec![0xB1, 0xF1],
        vec![0xB3, 0x00],
        vec![0xAB, 0x01],
        vec![0xB6, 0x04],
        vec![0x81, 0x7F],
        vec![0xBE, 0b101],
        vec![0xBC, 0x05],
        vec![0xD5, 0x62],
        vec![0xFD, 0x12],
        vec![0x26, 0, 0, 0b111, 0x7F, 0, 0x3F],
        vec![0x2E],
        vec![0xAF],
    ];
    assert_eq!(display.interface.cmd_log, expected);
    assert!(display.interface.data_log.is_empty());
}

#[test]
fn init_through_the_display_config_capability_matches_init_basic() {
    let mut direct = display_128x128();
    direct.init_basic().unwrap();

    let mut through_trait = display_128x128();
    DisplayConfig::init(&mut through_trait).unwrap();
    assert_eq!(direct.interface.cmd_log, through_trait.interface.cmd_log);

    let mut buffered = Ssd1327::new(
        RecordingSink::new(),
        DisplaySize::new_128x128(),
        DisplayRotation::Rotate0,
    )
    .into_buffered_graphics_mode();
    DisplayConfig::init(&mut buffered).unwrap();
    assert_eq!(buffered.interface.cmd_log, direct.interface.cmd_log);
}

#[test]
fn a_transport_failure_anywhere_in_init_aborts_and_surfaces_the_error() {
    // The bring-up sequence is 18 commands long. Whichever one fails, the
    // error comes back unchanged and no further command is attempted.
    for fail_at in 0..18u64 {
        let sink = FailingSink::new(fail_at);
        let mut display = Ssd1327::new(
            sink,
            DisplaySize::new_128x128(),
            DisplayRotation::Rotate0,
        );
        let result = display.init_basic();
        assert_eq!(result, Err(TransportError));
        // Exactly the failing attempt follows the accepted ones.
        assert_eq!(display.interface.attempts, fail_at + 1);
        assert_eq!(display.interface.cmd_log.len() as u64, fail_at);
    }

    // With all 18 commands accepted, init succeeds.
    let sink = FailingSink::new(18);
    let mut display = Ssd1327::new(
        sink,
        DisplaySize::new_128x128(),
        DisplayRotation::Rotate0,
    );
    assert_eq!(display.init_basic(), Ok(()));
    assert_eq!(display.interface.cmd_log.len(), 18);
    assert_eq!(display.interface.attempts, 18);
}
