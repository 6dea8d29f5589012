use std::collections::VecDeque;
use std::time::{SystemTime, UNIX_EPOCH};

use sideblinder::calibrate::{gauge_cells, value_to_bar, AxisRange, Wizard, WizardKey, WizardStage, BAR_WIDTH};
use sideblinder::capture::{
    capture_header, decode_capture, encode_record, replay_capture, CaptureError, HEADER_LEN, MAX_REPORT_LEN,
};
use sideblinder::diag::{
    axis_percent, build_diagnostic_report, build_status, button_changes, gain_percent, human_timestamp, pov_cells,
    pov_to_nibble, push_event, report_header, synthesize_demo_report, translate_win32_error, DiagState,
    EVENT_LOG_CAPACITY,
};
use sideblinder::dump::{hex_dump, raw_dump};
use sideblinder::input::{parse_input_report, InputState, PovDirection};
use sideblinder::text::{civil_from_days, is_leap};

fn now_secs() -> u64 {
    SystemTime::now().duration_since(UNIX_EPOCH).map(|d| d.as_secs()).unwrap_or(0)
}

fn centred_report() -> Vec<u8> {
    vec![0x00, 0x00, 0x00, 0x00, 0x00, 0x00, 0x00, 0x00, 0x00, 0x00, 0xFF]
}

fn max_x_report() -> Vec<u8> {
    vec![0xFF, 0x7F, 0x00, 0x00, 0x00, 0x00, 0x00, 0x00, 0x05, 0x00, 0x00]
}

/// A capture file image: the header, then each record in order.
fn capture_of(records: &[(u32, Vec<u8>)]) -> Vec<u8> {
    let mut bytes = capture_header();
    for (t, data) in records {
        bytes.extend(encode_record(*t, data).unwrap());
    }
    bytes
}

// ── Calibration ───────────────────────────────────────────────────────────────

#[test]
fn test_value_to_bar_bounds() {
    assert_eq!(value_to_bar(i16::MIN, 40), 0);
    assert_eq!(value_to_bar(i16::MAX, 40), 39);
    let mid = value_to_bar(0, 40);
    assert!((19..=20).contains(&mid), "centre should be near middle, got {mid}");
}

#[test]
fn test_value_to_bar_monotone() {
    let width = 40;
    let mut prev = 0;
    for v in (-32768i32..=32767).step_by(512) {
        let pos = value_to_bar(v as i16, width);
        assert!(pos >= prev, "bar should be monotone: {v} → {pos} < {prev}");
        prev = pos;
    }
}

#[test]
fn test_axis_range_update() {
    let mut r = AxisRange::new(0);
    r.update(1000);
    r.update(-500);
    r.update(200);
    assert_eq!(r.min, -500);
    assert_eq!(r.max, 1000);
}

#[test]
fn value_to_bar_exact_positions() {
    assert_eq!(value_to_bar(0, 40), 19);
    assert_eq!(value_to_bar(0, 1), 0);
    assert_eq!(value_to_bar(-1, 101), 49);
}

#[test]
fn gauge_marks_range_and_cursor() {
    let cells = gauge_cells(0, AxisRange { min: -32768, max: 0 });
    assert_eq!(cells.len(), BAR_WIDTH);
    assert_eq!(cells[19], '\u{2588}');
    assert!(cells[..19].iter().all(|&c| c == '\u{2500}'));
    assert!(cells[20..].iter().all(|&c| c == ' '));
}

// ── Diagnostic report ─────────────────────────────────────────────────────────

#[test]
fn test_human_timestamp_format() {
    let ts = human_timestamp(now_secs());
    assert!(ts.ends_with(" UTC"), "expected ' UTC' suffix, got: {ts}");
    let body: Vec<char> = ts.chars().take(19).collect();
    assert_eq!(body[4], '-', "year-month separator at index 4");
    assert_eq!(body[7], '-', "month-day separator at index 7");
    assert_eq!(body[10], ' ', "date-time space at index 10");
    assert_eq!(body[13], ':', "hour-minute separator at index 13");
    assert_eq!(body[16], ':', "minute-second separator at index 16");
}

#[test]
fn test_is_leap() {
    assert!(is_leap(2000), "2000 is a leap year (divisible by 400)");
    assert!(is_leap(2024), "2024 is a leap year");
    assert!(!is_leap(1900), "1900 is not a leap year (divisible by 100, not 400)");
    assert!(!is_leap(2023), "2023 is not a leap year");
}

#[test]
fn test_report_header_content() {
    let h = report_header();
    assert!(h.contains("Diagnostic Report"), "header must name the document");
    assert!(h.contains("bug report"), "header must mention bug report");
}

#[test]
fn test_non_windows_report_has_sections() {
    let report = build_diagnostic_report(now_secs(), "linux");
    assert!(report.contains("--- System Info ---"), "must have System Info section");
    assert!(report.contains("--- Device Detection ---"), "must have Device Detection section");
    assert!(report.contains("--- Driver Status ---"), "must have Driver Status section");
    assert!(report.contains("Timestamp:"), "must include a timestamp");
}

#[test]
fn timestamps_of_known_instants() {
    assert_eq!(human_timestamp(0), "1970-01-01 00:00:00 UTC");
    assert_eq!(human_timestamp(1_775_830_953), "2026-04-10 14:22:33 UTC");
    assert_eq!(human_timestamp(951_782_400), "2000-02-29 00:00:00 UTC");
    assert_eq!(human_timestamp(4_102_444_799), "2099-12-31 23:59:59 UTC");
    assert_eq!(civil_from_days(59), (1970, 3, 1));
}

#[test]
fn report_text_is_exact() {
    let r = build_diagnostic_report(0, "linux");
    let expected = format!(
        "{}\n--- System Info ---\nTimestamp: 1970-01-01 00:00:00 UTC\nPlatform:  linux\n\n\
         --- Device Detection ---\n\
         Device access requires Windows with the Sideblinder driver installed.\n\
         Run this tool on Windows to capture full hardware diagnostics.\n\n\
         --- Driver Status ---\nDriver detection requires Windows.\n",
        report_header()
    );
    assert_eq!(r, expected);
    assert!(report_header().starts_with("=== Sideblinder Diagnostic Report ===\nThis report"));
}

#[test]
fn win32_error_reasons() {
    assert_eq!(translate_win32_error(5), "access denied (try running as administrator)");
    assert_eq!(translate_win32_error(0x20), "sharing violation (device already open by another process)");
    assert_eq!(translate_win32_error(0xE8), "no data available (device not ready)");
    assert_eq!(translate_win32_error(1234), "unknown error");
}

// ── Status and event log ──────────────────────────────────────────────────────

#[test]
fn test_push_event_caps_at_capacity() {
    let mut log = VecDeque::new();
    for i in 0..=EVENT_LOG_CAPACITY + 5 {
        push_event(&mut log, i as u64, format!("event {i}"));
    }
    assert_eq!(log.len(), EVENT_LOG_CAPACITY, "log must not exceed capacity");
    assert!(
        log.back().map(|(_, m)| m.as_str()) == Some(&format!("event {}", EVENT_LOG_CAPACITY + 5)),
        "most recent event should be last"
    );
}

#[test]
fn test_build_status_with_device_info() {
    let s = DiagState { device_info: Some("[045E:001B] InputReportByteLength=12".to_string()), ..DiagState::default() };
    let status = build_status(&s, "Physical device mode");
    assert!(status.contains("[045E:001B]"), "status must include device info");
    assert!(status.contains("Physical device mode"), "status must include mode text");
}

#[test]
fn test_build_status_error_takes_priority() {
    let s = DiagState {
        error: Some("device not found".to_string()),
        device_info: Some("[045E:001B] InputReportByteLength=12".to_string()),
        ..DiagState::default()
    };
    let status = build_status(&s, "Physical device mode");
    assert!(status.contains("ERROR"), "error must show in status");
    assert!(status.contains("device not found"), "error message must appear");
}

#[test]
fn status_line_exact_forms() {
    let s = DiagState::default();
    assert_eq!(build_status(&s, "Raw HID byte dump"), " Raw HID byte dump   q/Esc = quit");
    let e = DiagState { error: Some("x".to_string()), ..DiagState::default() };
    assert_eq!(build_status(&e, "ignored"), " [ERROR: x]  q/Esc = quit");
    assert_eq!(s.ffb_gain, 255);
}

#[test]
fn oldest_event_leaves_first() {
    let mut log = VecDeque::new();
    for i in 0..EVENT_LOG_CAPACITY + 1 {
        push_event(&mut log, i as u64, String::new());
    }
    assert_eq!(log.front().map(|e| e.0), Some(1));
    assert_eq!(log.back().map(|e| e.0), Some(EVENT_LOG_CAPACITY as u64));
}

#[test]
fn button_changes_list_transitions() {
    assert_eq!(button_changes(0b0000_0001, 0b1_0000_0010), vec![(0, false), (1, true), (8, true)]);
    assert!(button_changes(0x1FF, 0x1FF).is_empty());
    // Bits past the ninth button are not watched.
    assert!(button_changes(0, 0xFE00).is_empty());
}

// ── Demo report ───────────────────────────────────────────────────────────────

#[test]
fn test_pov_to_nibble_all_variants() {
    let cases: &[(PovDirection, u8)] = &[
        (PovDirection::Center, 0x0F),
        (PovDirection::North, 0x00),
        (PovDirection::NorthEast, 0x01),
        (PovDirection::East, 0x02),
        (PovDirection::SouthEast, 0x03),
        (PovDirection::South, 0x04),
        (PovDirection::SouthWest, 0x05),
        (PovDirection::West, 0x06),
        (PovDirection::NorthWest, 0x07),
    ];
    for &(pov, expected_nibble) in cases {
        assert_eq!(pov_to_nibble(pov), expected_nibble, "pov_to_nibble({pov:?}) should be {expected_nibble:#04x}");
        let state = InputState { axes: [0; 8], buttons: 0, pov };
        let bytes = synthesize_demo_report(&state);
        let parsed = parse_input_report(&bytes).unwrap_or_else(|e| panic!("parse failed for {pov:?}: {e:?}"));
        assert_eq!(parsed.pov, pov, "round-trip failed for {pov:?}");
    }
}

#[test]
fn test_synthesize_demo_report_round_trip() {
    let state = InputState { axes: [1234, -5678, 9000, -3000, 0, 0, 0, 0], buttons: 0b0_0001_0101, pov: PovDirection::NorthEast };
    let bytes = synthesize_demo_report(&state);
    assert_eq!(bytes.len(), 11, "report must be 11 bytes");
    let parsed = parse_input_report(&bytes).expect("synthesis must produce valid report bytes");
    assert_eq!(parsed.axes[0], state.axes[0], "X round-trip");
    assert_eq!(parsed.axes[1], state.axes[1], "Y round-trip");
    assert_eq!(parsed.axes[2], state.axes[2], "Rz round-trip");
    assert_eq!(parsed.axes[3], state.axes[3], "Slider round-trip");
    assert_eq!(parsed.buttons, state.buttons, "buttons round-trip");
    assert_eq!(parsed.pov, state.pov, "POV round-trip");
}

#[test]
fn view_computations() {
    assert_eq!(gain_percent(255), 100);
    assert_eq!(gain_percent(128), 50);
    assert_eq!(gain_percent(1), 0);
    assert_eq!(gain_percent(2), 1);
    assert_eq!(axis_percent(i16::MIN), 0);
    assert_eq!(axis_percent(0), 50);
    assert_eq!(axis_percent(i16::MAX), 100);
    assert_eq!(pov_cells(PovDirection::Center), (false, false, false, false, true, false, false, false, false));
    assert_eq!(pov_cells(PovDirection::SouthEast), (false, false, false, false, false, false, false, false, true));
    assert_eq!(pov_cells(PovDirection::NorthWest), (true, false, false, false, false, false, false, false, false));
}

// ── Capture format ────────────────────────────────────────────────────────────

#[test]
fn test_round_trip_two_records() {
    let bytes = capture_of(&[(0, centred_report()), (16, max_x_report())]);
    let records = decode_capture(&bytes).unwrap();
    assert_eq!(records.len(), 2);
    assert_eq!(records[0].data, centred_report());
    assert_eq!(records[1].data, max_x_report());
    assert!(records[1].timestamp_ms >= records[0].timestamp_ms);
}

#[test]
fn test_empty_capture_round_trip() {
    let records = decode_capture(&capture_header()).unwrap();
    assert!(records.is_empty());
}

#[test]
fn test_bad_magic_rejected() {
    let err = decode_capture(&[0xFF; 16]).unwrap_err();
    assert!(matches!(err, CaptureError::BadMagic));
}

#[test]
fn test_unsupported_version_rejected() {
    let mut header = [0u8; 16];
    header[..4].copy_from_slice(b"SWCF");
    header[4] = 99;
    let err = decode_capture(&header).unwrap_err();
    assert!(matches!(err, CaptureError::UnsupportedVersion(99)));
}

#[test]
fn test_replay_round_trip_state_matches_parser() {
    let bytes = capture_of(&[(0, centred_report()), (5, max_x_report())]);
    let replayed = replay_capture(&bytes).unwrap();
    assert_eq!(replayed.len(), 2);
    for (i, (rec, state)) in replayed.iter().enumerate() {
        let expected = parse_input_report(&rec.data).unwrap();
        assert_eq!(*state, expected, "record {i}: decoded state mismatch");
    }
    assert_eq!(replayed[0].1.buttons, 0);
    assert_eq!(replayed[0].1.pov, PovDirection::Center);
    assert_eq!(replayed[1].1.axes[0], 32767);
    assert_eq!(replayed[1].1.buttons, 0x05);
    assert_eq!(replayed[1].1.pov, PovDirection::North);
}

#[test]
fn test_write_record_too_large_rejected() {
    let big = vec![0u8; 256];
    let err = encode_record(0, &big).unwrap_err();
    assert!(matches!(err, CaptureError::RecordTooLarge(256)));
}

#[test]
fn test_replay_skips_unparse_able_records() {
    let bytes = capture_of(&[(0, vec![0x00, 0x01]), (1, centred_report())]);
    let replayed = replay_capture(&bytes).unwrap();
    assert_eq!(replayed.len(), 1, "only the parseable record must be present");
}

#[test]
fn record_encoding_layout() {
    assert_eq!(encode_record(0x0102_0304, &[9, 8]).unwrap(), vec![0x04, 0x03, 0x02, 0x01, 2, 9, 8]);
    assert_eq!(capture_header(), b"SWCF\x01\0\0\0\0\0\0\0\0\0\0\0".to_vec());
    assert_eq!(capture_header().len(), HEADER_LEN);
    let max = vec![7u8; MAX_REPORT_LEN];
    let back = decode_capture(&capture_of(&[(3, max.clone())])).unwrap();
    assert_eq!(back[0].data, max);
    assert_eq!(back[0].timestamp_ms, 3);
}

#[test]
fn truncated_capture_is_an_error() {
    let mut bytes = capture_of(&[(0, centred_report())]);
    bytes.pop();
    let eof = Err(CaptureError::Io("unexpected end of file".to_string()));
    assert_eq!(decode_capture(&bytes), eof);
    assert_eq!(decode_capture(&[0x53, 0x57]), eof);
}

// ── Raw dump ──────────────────────────────────────────────────────────────────

#[test]
fn hex_dump_groups_bytes_in_pairs() {
    let bytes = [0x00, 0x00, 0x80, 0x00, 0xff, 0x7f, 0x00, 0x80, 0x05, 0x00, 0x0f];
    assert_eq!(hex_dump(&bytes), "00 00  80 00  ff 7f  00 80  05 00  0f");
    assert_eq!(hex_dump(&[]), "");
    assert_eq!(hex_dump(&[0xab]), "ab");
}

#[test]
fn raw_dump_of_full_report() {
    let bytes = [0x00, 0x00, 0x80, 0x00, 0xff, 0x7f, 0x00, 0x80, 0x05, 0x00, 0x0f];
    let dump = raw_dump(142, &bytes);
    assert_eq!(dump.header, "[   142ms] len=11  ");
    assert_eq!(dump.hex, "00 00  80 00  ff 7f  00 80  05 00  0f");
    assert_eq!(
        dump.labels,
        "                  \u{251c}\u{2500}X\u{2500}\u{2500}\u{2518} \u{251c}\u{2500}Y\u{2500}\u{2500}\u{2518} \u{251c}\u{2500}Rz\u{2500}\u{2518} \u{251c}\u{2500}Sl\u{2500}\u{2518} \u{251c}\u{2500}Btn\u{2518} \u{2514}POV"
    );
    assert_eq!(dump.summary, "  X=+0  Y=+128  Rz=+32767  Sl=-32768  Btn=0x005  POV=0x0f");
}

#[test]
fn raw_dump_of_short_report_has_no_summary() {
    let dump = raw_dump(5, &[1, 2, 3]);
    assert_eq!(dump.header, "[     5ms] len= 3  ");
    assert_eq!(dump.hex, "01 02  03");
    assert_eq!(dump.labels, "                  (unknown layout)");
    assert_eq!(dump.summary, "");
}

#[test]
fn raw_dump_keeps_wide_fields() {
    let mut bytes = vec![0u8; 12];
    bytes[8] = 0xff;
    bytes[9] = 0xff;
    bytes[10] = 0xff;
    let dump = raw_dump(12_345_678, &bytes);
    assert_eq!(dump.header, "[12345678ms] len=12  ");
    assert_eq!(dump.summary, "  X=+0  Y=+0  Rz=+0  Sl=+0  Btn=0xffff  POV=0xff");
}

// ── Calibration wizard ────────────────────────────────────────────────────────

fn reading(x: i16, y: i16, rz: i16, slider: i16) -> InputState {
    InputState { axes: [x, y, rz, slider, 0, 0, 0, 0], buttons: 0, pov: PovDirection::Center }
}

#[test]
fn wizard_measures_four_axes_then_saves() {
    let mut w = Wizard::new();
    assert_eq!(w.stage, WizardStage::Welcome);
    w.on_sample(&reading(5, 5, 5, 5));
    assert_eq!(w.stage, WizardStage::Welcome);
    w.on_key(WizardKey::Enter, &reading(10, 0, 0, 0));
    assert_eq!(w.stage, WizardStage::Measuring { axis: 0, range: AxisRange { min: 10, max: 10 } });
    w.on_sample(&reading(-300, 0, 0, 0));
    w.on_sample(&reading(900, 7, 7, 7));
    w.on_key(WizardKey::Other, &reading(0, 0, 0, 0));
    assert_eq!(w.stage, WizardStage::Measuring { axis: 0, range: AxisRange { min: -300, max: 900 } });
    w.on_key(WizardKey::Char(' '), &reading(0, -1, 0, 0));
    assert_eq!(w.ranges[0], AxisRange { min: -300, max: 900 });
    assert_eq!(w.stage, WizardStage::Measuring { axis: 1, range: AxisRange { min: -1, max: -1 } });
    w.on_sample(&reading(0, 40, 0, 0));
    w.on_key(WizardKey::Enter, &reading(0, 0, 3, 0));
    w.on_sample(&reading(0, 0, -3, 0));
    w.on_key(WizardKey::Enter, &reading(0, 0, 0, 100));
    w.on_sample(&reading(0, 0, 0, 200));
    w.on_key(WizardKey::Enter, &reading(0, 0, 0, 0));
    assert_eq!(w.stage, WizardStage::Summary);
    assert_eq!(
        w.ranges,
        [
            AxisRange { min: -300, max: 900 },
            AxisRange { min: -1, max: 40 },
            AxisRange { min: -3, max: 3 },
            AxisRange { min: 100, max: 200 },
        ]
    );
    assert!(!w.is_done());
    w.on_key(WizardKey::Char('q'), &reading(0, 0, 0, 0));
    assert_eq!(w.stage, WizardStage::Summary);
    w.on_key(WizardKey::Char('Y'), &reading(0, 0, 0, 0));
    assert_eq!(w.stage, WizardStage::Save);
    assert!(w.is_done());
    w.on_key(WizardKey::Char('n'), &reading(0, 0, 0, 0));
    assert_eq!(w.stage, WizardStage::Save);
}

#[test]
fn wizard_cancels_with_q_or_esc() {
    let mut w = Wizard::new();
    w.on_key(WizardKey::Char('Q'), &reading(0, 0, 0, 0));
    assert_eq!(w.stage, WizardStage::Welcome);
    w.on_key(WizardKey::Char('q'), &reading(0, 0, 0, 0));
    assert_eq!(w.stage, WizardStage::Cancel);

    let mut w = Wizard::new();
    w.on_key(WizardKey::Enter, &reading(0, 0, 0, 0));
    w.on_key(WizardKey::Esc, &reading(0, 0, 0, 0));
    assert_eq!(w.stage, WizardStage::Cancel);
    assert_eq!(w.ranges, [AxisRange::new(0); 4]);
}

#[test]
fn wizard_summary_can_discard() {
    for key in [WizardKey::Char('n'), WizardKey::Char('N'), WizardKey::Esc] {
        let mut w = Wizard::new();
        for _ in 0..5 {
            w.on_key(WizardKey::Enter, &reading(1, 2, 3, 4));
        }
        assert_eq!(w.stage, WizardStage::Summary);
        w.on_key(key, &reading(0, 0, 0, 0));
        assert_eq!(w.stage, WizardStage::Discard);
    }
}
