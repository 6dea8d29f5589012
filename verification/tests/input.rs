use sideblinder::input::{
    parse_input_report, InputParseError, InputState, PovDirection, SmoothingBuffer, MIN_REPORT_SIZE,
};

#[test]
fn default_state_is_centred() {
    let s = InputState::default();
    assert_eq!(s.axes, [0i16; 8]);
    assert_eq!(s.buttons, 0);
    assert_eq!(s.pov, PovDirection::Center);
}

#[test]
fn button_helper() {
    let s = InputState { buttons: 0b0000_0101, ..Default::default() };
    assert!(s.is_button_pressed(0));
    assert!(!s.is_button_pressed(1));
    assert!(s.is_button_pressed(2));
}

#[test]
fn pov_from_hid_value() {
    assert_eq!(PovDirection::from_hid_value(0), PovDirection::North);
    assert_eq!(PovDirection::from_hid_value(2), PovDirection::East);
    assert_eq!(PovDirection::from_hid_value(7), PovDirection::NorthWest);
    assert_eq!(PovDirection::from_hid_value(0xFF), PovDirection::Center);
    assert_eq!(PovDirection::from_hid_value(0x0F), PovDirection::Center);
}

#[test]
fn parse_centred_report() {
    let report = [0x00u8, 0x00, 0x00, 0x00, 0x00, 0x00, 0x00, 0x00, 0x00, 0x00, 0xFF];
    let s = parse_input_report(&report).expect("centred report should parse");
    assert_eq!(s.axes[0], 0);
    assert_eq!(s.axes[1], 0);
    assert_eq!(s.buttons, 0);
    assert_eq!(s.pov, PovDirection::Center);
}

#[test]
fn parse_full_deflection() {
    let report = [0xFF, 0x7F, 0x00, 0x80, 0x00, 0x00, 0x00, 0x00, 0x05, 0x00, 0x00];
    let s = parse_input_report(&report).expect("full-deflection report should parse");
    assert_eq!(s.axes[0], 32767);
    assert_eq!(s.axes[1], -32768);
    assert!(s.is_button_pressed(0));
    assert!(!s.is_button_pressed(1));
    assert!(s.is_button_pressed(2));
    assert_eq!(s.pov, PovDirection::North);
}

#[test]
fn parse_short_report_errors() {
    let err = parse_input_report(&[0x00, 0x80]).expect_err("2-byte report must be too short");
    assert_eq!(err, InputParseError::TooShort { expected: 11, got: 2 });
}

#[test]
fn parse_x_axis_only() {
    let mut report = [0u8; 11];
    report[0] = 0xFF;
    report[1] = 0x7F;
    report[10] = 0xFF;
    let s = parse_input_report(&report).expect("X-only report should parse");
    assert_eq!(s.axes[0], 32767, "X axis value");
    assert_eq!(s.axes[1], 0, "Y must be unaffected");
    assert_eq!(s.axes[2], 0, "Rz must be unaffected");
    assert_eq!(s.axes[3], 0, "Slider must be unaffected");
    assert_eq!(s.buttons, 0, "no spurious buttons from X axis");
    assert_eq!(s.pov, PovDirection::Center);
}

#[test]
fn parse_y_axis_only() {
    let mut report = [0u8; 11];
    report[2] = 0x00;
    report[3] = 0x80;
    report[10] = 0xFF;
    let s = parse_input_report(&report).expect("Y-only report should parse");
    assert_eq!(s.axes[1], -32768, "Y axis value");
    assert_eq!(s.axes[0], 0, "X must be unaffected");
    assert_eq!(s.buttons, 0, "no spurious buttons from Y axis");
}

#[test]
fn parse_rz_twist_axis_only() {
    let mut report = [0u8; 11];
    report[4] = 0x00;
    report[5] = 0x40;
    report[10] = 0xFF;
    let s = parse_input_report(&report).expect("Rz-only report should parse");
    assert_eq!(s.axes[2], 0x4000i16, "Rz/twist at index 2");
    assert_eq!(s.axes[0], 0);
    assert_eq!(s.axes[1], 0);
    assert_eq!(s.axes[3], 0);
    assert_eq!(s.buttons, 0, "no spurious buttons from Rz axis");
}

#[test]
fn parse_slider_throttle_axis_only() {
    let mut report = [0u8; 11];
    report[6] = 0x00;
    report[7] = 0x40;
    report[10] = 0xFF;
    let s = parse_input_report(&report).expect("Slider-only report should parse");
    assert_eq!(s.axes[3], 0x4000i16, "Slider/throttle at index 3");
    assert_eq!(s.axes[2], 0, "Rz must be unaffected");
    assert_eq!(s.buttons, 0, "no spurious buttons from Slider axis");
}

#[test]
fn parse_max_axis_values_no_button_bleed() {
    let report = [0xFF, 0x7F, 0x00, 0x80, 0xFF, 0x7F, 0x00, 0x80, 0x00, 0x00, 0xFF];
    let s = parse_input_report(&report).expect("max-axis report should parse");
    assert_eq!(s.buttons, 0, "all-axis max must not produce button events");
}

#[test]
fn parse_all_buttons_no_axis_corruption() {
    let report = [0x00, 0x00, 0x00, 0x00, 0x00, 0x00, 0x00, 0x00, 0xFF, 0x01, 0xFF];
    let s = parse_input_report(&report).expect("all-buttons report should parse");
    assert_eq!(s.axes[0], 0, "X must not be corrupted by buttons");
    assert_eq!(s.axes[1], 0, "Y must not be corrupted by buttons");
    assert_eq!(s.axes[2], 0, "Rz must not be corrupted by buttons");
    assert_eq!(s.axes[3], 0, "Slider must not be corrupted by buttons");
    assert_eq!(s.buttons, 0x01FF, "all 9 buttons");
}

#[test]
fn parse_12_byte_report_accepted() {
    let report = [0x00, 0x00, 0x00, 0x00, 0x00, 0x00, 0x00, 0x00, 0x00, 0x00, 0xFF, 0x00];
    assert!(parse_input_report(&report).is_ok());
}

#[test]
fn parse_10_byte_report_too_short() {
    let err = parse_input_report(&[0u8; 10]).expect_err("10-byte report must be too short");
    assert_eq!(err, InputParseError::TooShort { expected: 11, got: 10 });
}

#[test]
fn smoothing_window_1_passthrough() {
    let mut buf = SmoothingBuffer::new(1);
    for v in [-32768i16, 0, 100, 32767] {
        assert_eq!(buf.push(v), v, "window=1 must pass through every value");
    }
}

#[test]
fn smoothing_window_0_clamped_to_1() {
    let mut buf = SmoothingBuffer::new(0);
    assert_eq!(buf.push(42), 42);
}

#[test]
fn smoothing_rolling_average() {
    let mut buf = SmoothingBuffer::new(3);
    assert_eq!(buf.push(10), 10);
    assert_eq!(buf.push(20), 15);
    assert_eq!(buf.push(30), 20);
    assert_eq!(buf.push(40), 30);
}

#[test]
fn smoothing_constant_input() {
    let mut buf = SmoothingBuffer::new(5);
    for _ in 0..10 {
        assert_eq!(buf.push(1000), 1000);
    }
}

// ── Further cases ─────────────────────────────────────────────────────────────

#[test]
fn smoothing_negative_average_rounds_toward_zero() {
    let mut buf = SmoothingBuffer::new(2);
    assert_eq!(buf.push(-1), -1);
    // (-1 + -2) / 2 = -1.5, rounded toward zero.
    assert_eq!(buf.push(-2), -1);
    assert_eq!(buf.window(), 2);
}

#[test]
fn smoothing_extremes_stay_in_range() {
    let mut buf = SmoothingBuffer::new(30);
    for _ in 0..40 {
        assert_eq!(buf.push(i16::MIN), i16::MIN);
    }
    let mut up = SmoothingBuffer::new(30);
    for _ in 0..40 {
        assert_eq!(up.push(i16::MAX), i16::MAX);
    }
}

#[test]
fn trailing_bytes_do_not_change_the_state() {
    let base = [0x34, 0x12, 0xFE, 0xFF, 0x01, 0x00, 0x00, 0x80, 0x0F, 0x01, 0x03];
    let mut long = base.to_vec();
    long.extend_from_slice(&[0xAA; 20]);
    assert_eq!(parse_input_report(&base).unwrap(), parse_input_report(&long).unwrap());
}

#[test]
fn parse_decodes_every_field() {
    let report = [0x34, 0x12, 0xFE, 0xFF, 0x01, 0x00, 0x00, 0x80, 0x0F, 0x01, 0x03];
    let s = parse_input_report(&report).unwrap();
    assert_eq!(s.axes, [0x1234, -2, 1, -32768, 0, 0, 0, 0]);
    assert_eq!(s.buttons, 0x010F);
    assert_eq!(s.pov, PovDirection::SouthEast);
}

#[test]
fn pov_index_round_trips_every_direction() {
    for raw in 0u8..8 {
        assert_eq!(PovDirection::from_hid_value(raw).index(), raw);
    }
    assert_eq!(PovDirection::Center.index(), 0xFF);
    assert_eq!(PovDirection::from_hid_value(PovDirection::Center.index()), PovDirection::Center);
    assert_eq!(PovDirection::default(), PovDirection::Center);
}

#[test]
fn min_report_size_is_eleven() {
    assert_eq!(MIN_REPORT_SIZE, 11);
    assert!(parse_input_report(&[0u8; 11]).is_ok());
    assert!(parse_input_report(&[]).is_err());
}

#[test]
fn smoothing_averages_the_latest_window() {
    let mut buf = SmoothingBuffer::new(3);
    let outputs: Vec<i16> = [10, 20, 30, 40, 50, -70].iter().map(|&v| buf.push(v)).collect();
    assert_eq!(outputs, vec![10, 15, 20, 30, 40, 6]);
}
