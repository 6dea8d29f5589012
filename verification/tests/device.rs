use sideblinder::device::{decode_read, DeviceError, SideblinderDevice};
use sideblinder::enumerate::{
    enumerate_hid_devices, find_sidewinder, select_sidewinder, HidDeviceInfo, SIDEWINDER_FF2_PID, SIDEWINDER_FF2_VID,
};
use sideblinder::ffb::{FfbEffect, FfbEffectParams, FfbOperation, Waveform};
use sideblinder::hid_transport::{HidTransport, MockTransport, TransportError};
use sideblinder::input::{InputParseError, PovDirection};

fn centred_report() -> Vec<u8> {
    vec![0x00, 0x00, 0x00, 0x00, 0x00, 0x00, 0x00, 0x00, 0x00, 0x00, 0xFF]
}

// ── Transport ─────────────────────────────────────────────────────────────────

#[test]
fn mock_read_returns_injected_data() {
    let mut t = MockTransport::new();
    t.set_input_data(vec![0x01, 0x02, 0x03]);
    assert_eq!(t.read_input_report().expect("mock read should succeed"), vec![0x01, 0x02, 0x03]);
}

#[test]
fn mock_output_report_is_captured() {
    let mut t = MockTransport::new();
    t.write_output_report(&[0x0A, 0x01, 0xFF]).expect("mock write should succeed");
    assert_eq!(t.last_output(), Some(vec![0x0A, 0x01, 0xFF]));
}

#[test]
fn mock_feature_report_is_captured() {
    let mut t = MockTransport::new();
    t.write_feature_report(&[0x0D, 0x64]).expect("mock feature write should succeed");
    assert_eq!(t.last_output(), Some(vec![0x0D, 0x64]));
}

#[test]
fn mock_last_output_none_initially() {
    let t = MockTransport::new();
    assert_eq!(t.last_output(), None);
}

#[test]
fn mock_keeps_only_the_last_write() {
    let mut t = MockTransport::default();
    t.write_output_report(&[1]).unwrap();
    t.write_feature_report(&[2, 3]).unwrap();
    assert_eq!(t.last_output(), Some(vec![2, 3]));
    assert_eq!(t.read_input_report().unwrap(), Vec::<u8>::new());
}

// ── Device ────────────────────────────────────────────────────────────────────

#[test]
fn poll_returns_centred_state() {
    let mut mock = MockTransport::new();
    mock.set_input_data(centred_report());
    let mut device = SideblinderDevice::from_transport(mock);
    let state = device.poll().expect("poll should succeed with valid report");
    assert_eq!(state.axes[0], 0);
    assert_eq!(state.buttons, 0);
    assert_eq!(state.pov, PovDirection::Center);
}

#[test]
fn poll_short_report_returns_parse_error() {
    let mut mock = MockTransport::new();
    mock.set_input_data(vec![0x00, 0x80]);
    let mut device = SideblinderDevice::from_transport(mock);
    let err = device.poll().expect_err("poll should fail on too-short report");
    assert!(matches!(err, DeviceError::Parse(_)));
}

#[test]
fn send_ffb_effect_writes_reports() {
    let mut device = SideblinderDevice::from_transport(MockTransport::new());
    let effect = FfbEffect {
        effect_block_index: 1,
        params: FfbEffectParams::Periodic {
            waveform: Waveform::Sine,
            magnitude: 10000,
            offset: 0,
            phase: 0,
            period_ms: 100,
        },
        duration_ms: 1000,
        trigger_button: None,
        direction: 9000,
        gain: 255,
        start_delay_ms: 0,
        trigger_repeat_ms: 0,
        envelope: None,
    };
    device.send_ffb_effect(&effect).expect("send_ffb_effect should succeed");
    assert!(device.transport().last_output().is_some());
}

#[test]
fn send_ffb_operation_writes_report() {
    let mut device = SideblinderDevice::from_transport(MockTransport::new());
    device.send_ffb_operation(FfbOperation::SetGain { gain: 200 }).expect("send_ffb_operation should succeed");
    let out = device.into_transport().last_output().expect("output should be captured after write");
    assert_eq!(out[0], 0x0D);
}

#[test]
fn poll_raw_returns_bytes_and_state() {
    let mut mock = MockTransport::new();
    let report = vec![0xFF, 0x7F, 0, 0, 0, 0, 0, 0, 0x01, 0x00, 0x02, 0x99];
    mock.set_input_data(report.clone());
    let mut device = SideblinderDevice::from_transport(mock);
    let (raw, state) = device.poll_raw().unwrap();
    assert_eq!(raw, report);
    assert_eq!(state.axes[0], 32767);
    assert_eq!(state.buttons, 1);
    assert_eq!(state.pov, PovDirection::East);
}

#[test]
fn last_effect_report_written_is_the_periodic_block() {
    let mut device = SideblinderDevice::from_transport(MockTransport::new());
    let effect = FfbEffect {
        effect_block_index: 2,
        params: FfbEffectParams::Periodic { waveform: Waveform::Square, magnitude: 1, offset: 2, phase: 3, period_ms: 4 },
        duration_ms: 0,
        trigger_button: None,
        direction: 0,
        gain: 0,
        start_delay_ms: 0,
        trigger_repeat_ms: 0,
        envelope: None,
    };
    device.send_ffb_effect(&effect).unwrap();
    assert_eq!(device.transport().last_output(), Some(vec![0x04, 2, 1, 0, 2, 0, 4, 0, 3, 0]));
}

#[test]
fn decode_read_maps_each_outcome() {
    assert_eq!(
        decode_read(Err(TransportError::ReadFailed("gone".to_string()))),
        Err(DeviceError::Transport(TransportError::ReadFailed("gone".to_string())))
    );
    assert_eq!(
        decode_read(Ok(vec![1, 2, 3])),
        Err(DeviceError::Parse(InputParseError::TooShort { expected: 11, got: 3 }))
    );
    assert_eq!(decode_read(Ok(centred_report())).unwrap().pov, PovDirection::Center);
}

// ── Enumeration ───────────────────────────────────────────────────────────────

#[test]
fn enumerate_returns_ok_on_non_windows() {
    let result = enumerate_hid_devices();
    assert!(result.is_ok());
}

#[test]
fn find_sidewinder_none_on_non_windows() {
    let result = find_sidewinder();
    assert!(result.is_ok());
    assert!(result.expect("find_sidewinder should succeed on non-Windows").is_none());
}

#[test]
fn is_sidewinder_ff2_positive() {
    let info = HidDeviceInfo { path: "\\\\?\\HID#VID_045E&PID_001B".to_string(), vendor_id: 0x045E, product_id: 0x001B };
    assert!(info.is_sidewinder_ff2());
}

#[test]
fn is_sidewinder_ff2_negative_wrong_pid() {
    let info = HidDeviceInfo { path: "\\\\?\\HID#VID_045E&PID_0001".to_string(), vendor_id: 0x045E, product_id: 0x0001 };
    assert!(!info.is_sidewinder_ff2());
}

#[test]
fn select_picks_the_first_sidewinder() {
    let dev = |path: &str, vid: u16, pid: u16| HidDeviceInfo { path: path.to_string(), vendor_id: vid, product_id: pid };
    let list = vec![
        dev("a", 0x045E, 0x0001),
        dev("b", SIDEWINDER_FF2_VID, SIDEWINDER_FF2_PID),
        dev("c", SIDEWINDER_FF2_VID, SIDEWINDER_FF2_PID),
    ];
    assert_eq!(select_sidewinder(list).map(|d| d.path), Some("b".to_string()));
    assert_eq!(select_sidewinder(vec![dev("x", 1, 2)]), None);
    assert_eq!(select_sidewinder(Vec::new()), None);
}

#[test]
fn open_fails_without_the_platform_stack() {
    let r = SideblinderDevice::<MockTransport>::open();
    assert!(matches!(r, Err(DeviceError::Transport(TransportError::NotOpen))));
}
