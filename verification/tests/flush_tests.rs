use ssd1327::Ssd1327;
use ssd1327::error::TransportError;
use ssd1327::interface::FailingSink;
use ssd1327::interface::RecordingSink;
use ssd1327::rotation::DisplayRotation;
use ssd1327::size::DisplaySize;

fn basic_display(
    width: u8,
    height: u8,
) -> Ssd1327<RecordingSink, ssd1327::mode::BasicMode> {
    Ssd1327::new(
        RecordingSink::new(),
        DisplaySize::new(width, height),
        DisplayRotation::Rotate0,
    )
}

#[test]
fn one_page_buffer_yields_exactly_one_full_row_write() {
    // A 16-wide, 8-tall framebuffer is a single 16-byte page.
    let buffer: Vec<u8> = (0u8..16).collect();
    let mut display = basic_display(16, 8);
    display.bounded_draw(&buffer, 16, (0, 0), (16, 8)).unwrap();
    assert_eq!(display.interface.data_log.len(), 1);
    assert_eq!(display.interface.data_log[0], buffer);
    assert!(display.interface.cmd_log.is_empty());
}

#[test]
fn two_page_buffer_yields_two_writes_of_equal_width() {
    // Two full pages of stride 16.
    let buffer: Vec<u8> = (0u8..32).collect();
    let mut display = basic_display(16, 16);
    display.bounded_draw(&buffer, 16, (0, 0), (16, 16)).unwrap();
    assert_eq!(display.interface.data_log.len(), 2);
    assert_eq!(display.interface.data_log[0].len(), display.interface.data_log[1].len());
    assert_eq!(display.interface.data_log[0], buffer[0..16].to_vec());
    assert_eq!(display.interface.data_log[1], buffer[16..32].to_vec());
}

#[test]
fn a_narrow_rectangle_sends_only_its_column_range() {
    let buffer: Vec<u8> = (0u8..32).collect();
    let mut display = basic_display(16, 16);
    display.bounded_draw(&buffer, 16, (4, 0), (12, 15)).unwrap();
    assert_eq!(display.interface.data_log.len(), 2);
    assert_eq!(display.interface.data_log[0], buffer[4..12].to_vec());
    assert_eq!(display.interface.data_log[1], buffer[20..28].to_vec());
}

#[test]
fn a_rectangle_inside_one_page_still_writes_the_covering_page_row() {
    // Rows 0..5 lie inside page 0 only: one write.
    let buffer: Vec<u8> = (0u8..32).collect();
    let mut display = basic_display(16, 16);
    display.bounded_draw(&buffer, 16, (0, 0), (16, 5)).unwrap();
    assert_eq!(display.interface.data_log.len(), 1);
    assert_eq!(display.interface.data_log[0], buffer[0..16].to_vec());
}

#[test]
fn pages_past_the_end_of_the_buffer_are_not_written() {
    // The vertical extent asks for pages 0..=2, but the buffer only holds
    // two rows of stride 16.
    let buffer: Vec<u8> = (0u8..32).collect();
    let mut display = basic_display(16, 24);
    display.bounded_draw(&buffer, 16, (0, 0), (16, 16)).unwrap();
    assert_eq!(display.interface.data_log.len(), 2);
}

#[test]
fn a_failing_transport_aborts_the_page_stream() {
    let buffer: Vec<u8> = (0u8..48).collect();
    let mut display = Ssd1327::new(
        FailingSink::new(1),
        DisplaySize::new(16, 24),
        DisplayRotation::Rotate0,
    );
    let result = display.bounded_draw(&buffer, 16, (0, 0), (16, 23));
    assert_eq!(result, Err(TransportError));
    // The first page went through; the second failed and nothing followed.
    assert_eq!(display.interface.data_log.len(), 1);
    assert_eq!(display.interface.attempts, 2);
}

#[test]
fn buffered_graphics_mode_starts_with_a_zeroed_page_sized_framebuffer() {
    let display = Ssd1327::new(
        RecordingSink::new(),
        DisplaySize::new_128x128(),
        DisplayRotation::Rotate0,
    )
    .into_buffered_graphics_mode();
    assert_eq!(display.mode.buffer.len(), 2048);
    assert!(display.mode.buffer.iter().all(|&b| b == 0));

    // A height that is not a multiple of eight rounds up to whole pages.
    let odd = Ssd1327::new(
        RecordingSink::new(),
        DisplaySize::new(10, 12),
        DisplayRotation::Rotate0,
    )
    .into_buffered_graphics_mode();
    assert_eq!(odd.mode.buffer.len(), 20);
    assert!(odd.mode.buffer.iter().all(|&b| b == 0));
}

#[test]
fn terminal_mode_starts_with_a_zeroed_cursor() {
    let display = Ssd1327::new(
        RecordingSink::new(),
        DisplaySize::new_128x64(),
        DisplayRotation::Rotate180,
    )
    .into_terminal_mode();
    assert_eq!(display.mode.cursor, (0, 0));
    assert_eq!(display.rotation(), DisplayRotation::Rotate180);
}
