use sideblinder::bridge::{
    build_gui_frame, forward_ffb_report, gui_frame_from_input, map_buttons, scale_gain, ActuatorState, AxisSmoothing,
};
use sideblinder::config::{smoothing_window, ButtonMapConfig, CalibrationConfig, HatConfig, LayerConfig, ResponseCurve};
use sideblinder::driver_ipc::{
    DriverIpc, InputSnapshot, MockDriverIpc, IOCTL_SIDEBLINDER_GET_FFB, IOCTL_SIDEBLINDER_UPDATE_INPUT,
};
use sideblinder::input::{InputState, PovDirection};
use sideblinder::status::{status_label, ConnectionStatus, DriverStatus, StartupStatus};
use sideblinder::validate::{
    validate_buttons, validate_calibration, validate_hat, validate_layer, validate_smoothing, validation_report,
    AxisName, ConfigWarning,
};

fn make_state(x: i16, y: i16, buttons: u16, pov: PovDirection) -> InputState {
    let mut axes = [0i16; 8];
    axes[0] = x;
    axes[1] = y;
    InputState { axes, buttons, pov }
}

/// The button and hat part of the configuration applied to a state.
fn mapped(buttons: &ButtonMapConfig, layer: &LayerConfig, hat: &HatConfig, state: &InputState) -> (u32, u8) {
    map_buttons(buttons, layer, hat, state)
}

/// Every warning of a configuration, in the order the fields are checked.
fn all_warnings(
    smoothing: [u8; 4],
    buttons: &ButtonMapConfig,
    layer: &LayerConfig,
    hat: &HatConfig,
    cal: &CalibrationConfig,
) -> Vec<String> {
    let mut out = Vec::new();
    let axes = [AxisName::X, AxisName::Y, AxisName::Rz, AxisName::Slider];
    for (axis, s) in axes.into_iter().zip(smoothing) {
        if let Some(w) = validate_smoothing(axis, s) {
            out.push(w.message());
        }
    }
    for w in validate_buttons(buttons)
        .into_iter()
        .chain(validate_layer(layer))
        .chain(validate_hat(hat))
        .chain(validate_calibration(cal))
    {
        out.push(w.message());
    }
    out
}

// ── GUI frames ────────────────────────────────────────────────────────────────

#[test]
fn gui_frame_from_input_encodes_fields() {
    let state = InputState { axes: [1000, -2000, 500, -500, 0, 0, 0, 0], buttons: 0b10101, pov: PovDirection::SouthWest };
    let frame = gui_frame_from_input(&state, true, true, 200);
    assert_eq!(frame.axes, state.axes);
    assert_eq!(frame.buttons, state.buttons);
    assert_eq!(frame.pov, 5, "SouthWest = pov index 5");
    assert_eq!(frame.connected, 1);
    assert_eq!(frame.ffb_enabled, 1);
    assert_eq!(frame.ffb_gain, 200);
}

#[test]
fn gui_frame_from_input_disconnected() {
    let frame = gui_frame_from_input(&InputState::default(), false, false, 0);
    assert_eq!(frame.connected, 0);
    assert_eq!(frame.ffb_enabled, 0);
    assert_eq!(frame.pov, 0xFF, "Center = 0xFF");
}

#[test]
fn connected_status_sets_frame_connected() {
    let frame = build_gui_frame(&InputState::default(), true, 255, ConnectionStatus::Connected);
    assert_eq!(frame.connected, 1, "Connected status should produce connected=1");
}

#[test]
fn disconnected_status_sets_frame_connected_zero() {
    let frame = build_gui_frame(&InputState::default(), true, 255, ConnectionStatus::Disconnected);
    assert_eq!(frame.connected, 0, "Disconnected status should produce connected=0");
}

#[test]
fn ffb_gain_from_config_is_reflected_in_frame() {
    let frame = build_gui_frame(&InputState::default(), true, 128, ConnectionStatus::Connected);
    assert_eq!(frame.ffb_gain, 128);
}

#[test]
fn ffb_disabled_config_sets_frame_ffb_enabled_zero() {
    let frame = build_gui_frame(&InputState::default(), false, 255, ConnectionStatus::Connected);
    assert_eq!(frame.ffb_enabled, 0);
}

#[test]
fn axis_values_from_input_state_are_passed_through() {
    let mut state = InputState::default();
    state.axes[0] = 1000;
    state.axes[1] = -2000;
    let frame = build_gui_frame(&state, true, 255, ConnectionStatus::Connected);
    assert_eq!(frame.axes[0], 1000);
    assert_eq!(frame.axes[1], -2000);
}

// ── Gain scaling ──────────────────────────────────────────────────────────────

#[test]
fn scale_gain_config_zero_silences_all() {
    assert_eq!(scale_gain(0, 0), 0);
    assert_eq!(scale_gain(128, 0), 0);
    assert_eq!(scale_gain(255, 0), 0);
}

#[test]
fn scale_gain_config_full_is_identity() {
    assert_eq!(scale_gain(0, 255), 0);
    assert_eq!(scale_gain(128, 255), 128);
    assert_eq!(scale_gain(255, 255), 255);
}

#[test]
fn scale_gain_packet_zero_silences_all() {
    assert_eq!(scale_gain(0, 255), 0);
    assert_eq!(scale_gain(0, 128), 0);
}

#[test]
fn scale_gain_half_gain_halves_output() {
    assert_eq!(scale_gain(255, 128), 128);
    assert_eq!(scale_gain(128, 255), 128);
}

#[test]
fn scale_gain_never_exceeds_255() {
    assert_eq!(scale_gain(255, 255), 255);
}

#[test]
fn scale_gain_rounds_down() {
    assert_eq!(scale_gain(100, 100), 39);
    assert_eq!(scale_gain(1, 254), 0);
}

// ── FFB forwarding ────────────────────────────────────────────────────────────

#[test]
fn gain_report_is_scaled_and_others_pass() {
    assert_eq!(forward_ffb_report(vec![0x0D, 200], true, 128), Some(vec![0x0D, 100]));
    assert_eq!(forward_ffb_report(vec![0x0A, 1, 1, 1], true, 0), Some(vec![0x0A, 1, 1, 1]));
    assert_eq!(forward_ffb_report(vec![0x0D], true, 0), Some(vec![0x0D]));
    assert_eq!(forward_ffb_report(vec![0x0D, 200], false, 255), None);
}

#[test]
fn actuator_command_sent_once_per_change() {
    let mut a = ActuatorState::new();
    assert_eq!(a.pending_report(true), None);
    assert_eq!(a.pending_report(false), Some(vec![0x1A, 0x02]));
    a.confirm_sent(false);
    assert_eq!(a.pending_report(false), None);
    a.transport_changed();
    assert_eq!(a.pending_report(false), Some(vec![0x1A, 0x02]));
    a.confirm_sent(false);
    assert_eq!(a.pending_report(true), Some(vec![0x1A, 0x01]));
}

// ── Smoothing in the input loop ───────────────────────────────────────────────

#[test]
fn axis_smoothing_windows_follow_config() {
    assert_eq!(smoothing_window(0), 1);
    assert_eq!(smoothing_window(5), 5);
    assert_eq!(smoothing_window(200), 30);
    let mut s = AxisSmoothing::from_smoothing(1, 2, 1, 1);
    assert!(s.smoothing_matches(1, 2, 1, 1));
    assert!(!s.smoothing_matches(1, 3, 1, 1));
    let mut state = make_state(100, 10, 0, PovDirection::Center);
    state.axes[5] = 7;
    let out = s.smooth(state);
    assert_eq!(out.axes[0], 100);
    assert_eq!(out.axes[1], 10);
    assert_eq!(out.axes[5], 7);
    let out2 = s.smooth(make_state(300, 20, 0, PovDirection::Center));
    assert_eq!(out2.axes[0], 300);
    assert_eq!(out2.axes[1], 15);
}

// ── Button, layer and hat mapping ─────────────────────────────────────────────

#[test]
fn apply_config_pov_center() {
    let state = make_state(0, 0, 0, PovDirection::Center);
    let (_, pov) = mapped(&ButtonMapConfig::default(), &LayerConfig::default(), &HatConfig::default(), &state);
    assert_eq!(pov, 0xFF);
}

#[test]
fn apply_config_button_remap_swap() {
    let buttons = ButtonMapConfig::from_pairs(&[(0, 1), (1, 0)]);
    let state = make_state(0, 0, 0b01, PovDirection::Center);
    let (b, _) = mapped(&buttons, &LayerConfig::default(), &HatConfig::default(), &state);
    assert_eq!(b, 0b10, "button 0 maps to virtual 1");
}

#[test]
fn apply_config_button_remap_identity() {
    let state = make_state(0, 0, 0b1010_0101, PovDirection::Center);
    let (b, _) = mapped(&ButtonMapConfig::default(), &LayerConfig::default(), &HatConfig::default(), &state);
    assert_eq!(b, 0b1010_0101);
}

#[test]
fn apply_config_hat_as_buttons_north() {
    let hat = HatConfig { as_buttons: true, north: 9, ..Default::default() };
    let state = make_state(0, 0, 0, PovDirection::North);
    let (b, pov) = mapped(&ButtonMapConfig::default(), &LayerConfig::default(), &hat, &state);
    assert_eq!(pov, 0xFF, "pov must be centred when as_buttons=true");
    assert_eq!(b & (1 << 9), 1 << 9, "north fires button 9");
}

#[test]
fn apply_config_hat_as_buttons_center_fires_nothing() {
    let hat = HatConfig { as_buttons: true, ..Default::default() };
    let state = make_state(0, 0, 0, PovDirection::Center);
    let (b, pov) = mapped(&ButtonMapConfig::default(), &LayerConfig::default(), &hat, &state);
    assert_eq!(b, 0, "center hat fires no buttons");
    assert_eq!(pov, 0xFF);
}

#[test]
fn apply_config_hat_normal_mode_reports_pov() {
    let state = make_state(0, 0, 0, PovDirection::SouthWest);
    let (b, pov) = mapped(&ButtonMapConfig::default(), &LayerConfig::default(), &HatConfig::default(), &state);
    assert_eq!(pov, 5, "SouthWest = pov index 5");
    assert_eq!(b, 0, "no buttons from hat in pov mode");
}

#[test]
fn apply_config_layer_shift_not_held_uses_layer1() {
    let layer = LayerConfig { shift_button: 6, buttons: ButtonMapConfig::from_pairs(&[(0, 9)]) };
    let state = make_state(0, 0, 0b0000_0001, PovDirection::Center);
    let (b, _) = mapped(&ButtonMapConfig::default(), &layer, &HatConfig::default(), &state);
    assert_eq!(b, 0b0000_0001);
}

#[test]
fn apply_config_layer_shift_held_uses_layer2() {
    let layer = LayerConfig { shift_button: 6, buttons: ButtonMapConfig::from_pairs(&[(0, 9)]) };
    let state = make_state(0, 0, 0b0010_0001, PovDirection::Center);
    let (b, _) = mapped(&ButtonMapConfig::default(), &layer, &HatConfig::default(), &state);
    assert_eq!(b & (1 << 5), 0, "shift button not forwarded");
    assert_eq!(b & (1 << 9), 1 << 9, "button 0 → virtual 9");
}

#[test]
fn apply_config_layer_disabled_is_zero_overhead() {
    let state = make_state(0, 0, 0b1111, PovDirection::Center);
    let (b, _) = mapped(&ButtonMapConfig::default(), &LayerConfig::default(), &HatConfig::default(), &state);
    assert_eq!(b, 0b1111);
}

#[test]
fn mapping_past_virtual_range_is_dropped() {
    let buttons = ButtonMapConfig::from_pairs(&[(2, 40)]);
    let state = make_state(0, 0, 0b101, PovDirection::Center);
    let (b, _) = mapped(&buttons, &LayerConfig::default(), &HatConfig::default(), &state);
    assert_eq!(b, 0b001);
    let hat = HatConfig { as_buttons: true, east: 31, ..Default::default() };
    let (b2, _) = mapped(&ButtonMapConfig::default(), &LayerConfig::default(), &hat, &make_state(0, 0, 0, PovDirection::East));
    assert_eq!(b2, 1 << 31);
}

// ── Tray text ─────────────────────────────────────────────────────────────────

#[test]
fn status_label_connected_calibrated() {
    assert_eq!(
        status_label(ConnectionStatus::Connected, DriverStatus::Present, true),
        "Sidewinder FFB2 \u{2014} connected"
    );
}

#[test]
fn status_label_connected_no_calibration() {
    let label = status_label(ConnectionStatus::Connected, DriverStatus::Present, false);
    assert!(label.contains("calibration not set"), "expected calibration warning, got: {label}");
}

#[test]
fn status_label_connected_driver_missing() {
    let label = status_label(ConnectionStatus::Connected, DriverStatus::Missing, true);
    assert!(label.contains("Driver not installed"), "expected driver-missing message, got: {label}");
}

#[test]
fn status_label_disconnected_driver_present() {
    let label = status_label(ConnectionStatus::Disconnected, DriverStatus::Present, true);
    assert!(label.contains("Waiting for joystick"), "expected waiting message, got: {label}");
}

#[test]
fn status_label_disconnected_driver_missing() {
    let label = status_label(ConnectionStatus::Disconnected, DriverStatus::Missing, false);
    assert!(label.contains("No joystick or driver"), "expected no-device message, got: {label}");
}

#[test]
fn tooltip_buffer_is_truncated_and_terminated() {
    let mut tip = [0xFFFFu16; 128];
    sideblinder::status::fill_tip(&mut tip, "Ab\u{2014}\u{1F600}");
    assert_eq!(&tip[..5], &[0x41, 0x62, 0x2014, 0xD83D, 0xDE00]);
    assert!(tip[5..].iter().all(|&u| u == 0));
    let long: String = std::iter::repeat('x').take(300).collect();
    sideblinder::status::fill_tip(&mut tip, &long);
    assert!(tip[..127].iter().all(|&u| u == 'x' as u16));
    assert_eq!(tip[127], 0);
    let startup = StartupStatus { driver: DriverStatus::Present, calibration_set: true };
    assert_eq!(startup.driver, DriverStatus::Present);
}

// ── Driver IPC ────────────────────────────────────────────────────────────────

#[test]
fn mock_records_last_input() {
    let mut ipc = MockDriverIpc::default();
    let snap = InputSnapshot { axes: [100, -200, 0, 0], buttons: 0b101, pov: 0xFF };
    ipc.push_input(snap).expect("push_input must succeed");
    let recorded = ipc.last_input.expect("snapshot must have been recorded");
    assert_eq!(recorded.axes[0], 100);
    assert_eq!(recorded.buttons, 0b101);
}

#[test]
fn mock_get_ffb_returns_none() {
    let mut ipc = MockDriverIpc::default();
    assert!(ipc.get_ffb().expect("get_ffb must succeed").is_none());
}

#[test]
fn ioctl_codes_are_nonzero_and_distinct() {
    assert_ne!(IOCTL_SIDEBLINDER_UPDATE_INPUT, 0);
    assert_ne!(IOCTL_SIDEBLINDER_GET_FFB, 0);
    assert_ne!(IOCTL_SIDEBLINDER_UPDATE_INPUT, IOCTL_SIDEBLINDER_GET_FFB);
}

#[test]
fn snapshot_from_input_state_center() {
    let state = InputState { axes: [0, 0, 0, 0, 0, 0, 0, 0], buttons: 0, pov: PovDirection::Center };
    let snap = InputSnapshot::from_input_state(&state);
    assert_eq!(snap.pov, 0xFF);
    assert_eq!(snap.axes, [0, 0, 0, 0]);
}

#[test]
fn ioctl_codes_match_ctl_code_layout() {
    // CTL_CODE(0x22, 0x800, METHOD_BUFFERED, FILE_WRITE_ACCESS) and
    // CTL_CODE(0x22, 0x801, METHOD_BUFFERED, FILE_READ_ACCESS).
    assert_eq!(IOCTL_SIDEBLINDER_UPDATE_INPUT, (0x22 << 16) | (2 << 14) | (0x800 << 2));
    assert_eq!(IOCTL_SIDEBLINDER_GET_FFB, (0x22 << 16) | (1 << 14) | (0x801 << 2));
    let snap = InputSnapshot::from_input_state(&make_state(-5, 6, 0x1FF, PovDirection::West));
    assert_eq!(snap.axes, [-5, 6, 0, 0]);
    assert_eq!(snap.buttons, 0x1FF);
    assert_eq!(snap.pov, 6);
}

// ── Configuration rules ───────────────────────────────────────────────────────

#[test]
fn button_map_default_is_identity() {
    let map = ButtonMapConfig::default();
    for phys in 0..9u8 {
        assert_eq!(map.virtual_for(phys), phys);
    }
}

#[test]
fn hat_config_default_is_pov_mode() {
    assert!(!HatConfig::default().as_buttons);
}

#[test]
fn hat_button_for_all_directions() {
    let hat = HatConfig::default();
    assert_eq!(hat.button_for(PovDirection::North), Some(9));
    assert_eq!(hat.button_for(PovDirection::NorthEast), Some(10));
    assert_eq!(hat.button_for(PovDirection::East), Some(11));
    assert_eq!(hat.button_for(PovDirection::SouthEast), Some(12));
    assert_eq!(hat.button_for(PovDirection::South), Some(13));
    assert_eq!(hat.button_for(PovDirection::SouthWest), Some(14));
    assert_eq!(hat.button_for(PovDirection::West), Some(15));
    assert_eq!(hat.button_for(PovDirection::NorthWest), Some(16));
    assert_eq!(hat.button_for(PovDirection::Center), None);
}

#[test]
fn layer_config_default_disabled() {
    assert_eq!(LayerConfig::default().shift_button, 0);
}

#[test]
fn validate_clean_config_no_warnings() {
    let w = all_warnings(
        [1, 1, 1, 1],
        &ButtonMapConfig::default(),
        &LayerConfig::default(),
        &HatConfig::default(),
        &CalibrationConfig::default(),
    );
    assert!(w.is_empty());
}

#[test]
fn validate_smoothing_out_of_range() {
    let w = all_warnings(
        [99, 1, 1, 1],
        &ButtonMapConfig::default(),
        &LayerConfig::default(),
        &HatConfig::default(),
        &CalibrationConfig::default(),
    );
    assert_eq!(w.len(), 1);
    assert!(w[0].contains("smoothing"), "warning should mention 'smoothing': {}", w[0]);
    assert!(w[0].contains("99"), "warning should include the bad value: {}", w[0]);
}

#[test]
fn validate_button_map_duplicate_warns() {
    let w = all_warnings(
        [1, 1, 1, 1],
        &ButtonMapConfig::from_pairs(&[(0, 12), (1, 12)]),
        &LayerConfig::default(),
        &HatConfig::default(),
        &CalibrationConfig::default(),
    );
    assert_eq!(w.len(), 1, "expected exactly one duplicate warning");
    assert!(w[0].contains("shadow"), "warning should mention shadowing: {}", w[0]);
}

#[test]
fn validate_layer_button_map_duplicate_warns() {
    let layer = LayerConfig { shift_button: 6, buttons: ButtonMapConfig::from_pairs(&[(0, 12), (1, 12)]) };
    let w = all_warnings(
        [1, 1, 1, 1],
        &ButtonMapConfig::default(),
        &layer,
        &HatConfig::default(),
        &CalibrationConfig::default(),
    );
    assert_eq!(w.len(), 1);
    assert!(w[0].contains("layer.buttons"));
}

#[test]
fn validate_layer_button_map_no_warning_when_disabled() {
    let layer = LayerConfig { shift_button: 0, buttons: ButtonMapConfig::from_pairs(&[(0, 12), (1, 12)]) };
    let w = all_warnings(
        [1, 1, 1, 1],
        &ButtonMapConfig::default(),
        &layer,
        &HatConfig::default(),
        &CalibrationConfig::default(),
    );
    assert!(w.is_empty());
}

#[test]
fn validate_shift_button_out_of_range() {
    let layer = LayerConfig { shift_button: 10, buttons: ButtonMapConfig::default() };
    let w = all_warnings(
        [1, 1, 1, 1],
        &ButtonMapConfig::default(),
        &layer,
        &HatConfig::default(),
        &CalibrationConfig::default(),
    );
    assert_eq!(w.len(), 1);
    assert!(w[0].contains("shift_button"), "warning should mention shift_button: {}", w[0]);
    assert!(w[0].contains("10"), "warning should include the bad value: {}", w[0]);
}

#[test]
fn validate_hat_button_out_of_range() {
    let hat = HatConfig { as_buttons: true, north_west: 32, ..Default::default() };
    let w = all_warnings(
        [1, 1, 1, 1],
        &ButtonMapConfig::default(),
        &LayerConfig::default(),
        &hat,
        &CalibrationConfig::default(),
    );
    assert_eq!(w.len(), 1, "expected exactly one out-of-range warning");
    assert!(w[0].contains("north_west"));
    assert!(w[0].contains("32"));
}

#[test]
fn validate_hat_out_of_range_suppressed_in_pov_mode() {
    let hat = HatConfig { as_buttons: false, north_west: 32, ..Default::default() };
    let w = all_warnings(
        [1, 1, 1, 1],
        &ButtonMapConfig::default(),
        &LayerConfig::default(),
        &hat,
        &CalibrationConfig::default(),
    );
    assert!(w.is_empty());
}

#[test]
fn warning_messages_are_exact() {
    assert_eq!(
        ConfigWarning::SmoothingOutOfRange { axis: AxisName::Rz, value: 0 }.message(),
        "[axis_rz] smoothing must be between 1 and 30 (you set 0)"
    );
    assert_eq!(
        ConfigWarning::ButtonShadowed { first: 0, second: 1, virtual_button: 12 }.message(),
        "[buttons] physical buttons 0 and 1 both map to virtual button 12 \u{2014} one will shadow the other"
    );
    assert_eq!(
        ConfigWarning::CalibrationDegenerate { axis: AxisName::Slider, min: -5, max: -32768 }.message(),
        "[calibration.slider] min (-5) must be less than max (-32768) \u{2014} calibration range is degenerate; run sidewinder-diag calibrate"
    );
    assert_eq!(
        ConfigWarning::ButtonOutOfRange { physical: 3, virtual_button: 200 }.message(),
        "[buttons] physical button 3 maps to virtual button 200 which is out of range (max is 31) \u{2014} this mapping has no effect"
    );
}

#[test]
fn every_warning_kind_is_produced() {
    let w = validate_buttons(&ButtonMapConfig::from_pairs(&[(4, 33)]));
    assert_eq!(w, vec![ConfigWarning::ButtonOutOfRange { physical: 4, virtual_button: 33 }]);
    let layer = LayerConfig { shift_button: 1, buttons: ButtonMapConfig::from_pairs(&[(2, 1)]) };
    // Physical 0 is the shift button and is skipped; 2 → 1 shadows 1 → 1.
    assert_eq!(
        validate_layer(&layer),
        vec![ConfigWarning::LayerButtonShadowed { first: 1, second: 2, virtual_button: 1 }]
    );
    let cal = CalibrationConfig { x_min: 5, x_max: 5, ..Default::default() };
    assert_eq!(
        validate_calibration(&cal),
        vec![ConfigWarning::CalibrationDegenerate { axis: AxisName::X, min: 5, max: 5 }]
    );
    assert!(!CalibrationConfig::default().is_set());
    assert!(cal.is_set());
    assert_eq!(ResponseCurve::default(), ResponseCurve::Linear);
}

#[test]
fn last_pair_wins_in_button_map() {
    let map = ButtonMapConfig::from_pairs(&[(3, 7), (3, 8), (20, 1)]);
    assert_eq!(map.virtual_for(3), 8);
    assert!(map.is_explicit(3));
    assert!(!map.is_explicit(4));
    assert_eq!(map.virtual_for(20), 20);
}

#[test]
fn generate_toml_has_comments() {
    let toml = sideblinder::config::generate_toml();
    assert!(toml.contains("# Sidewinder"), "must have header comment");
    assert!(toml.contains("[calibration]"), "must have calibration section");
    assert!(toml.contains("[axis_x]"), "must have axis_x section");
    assert!(toml.contains("smoothing"), "must document smoothing");
    assert!(toml.contains("dead_zone"), "must document dead_zone");
}

#[test]
fn generated_config_is_toml_with_default_values() {
    let text = sideblinder::config::generate_toml();
    let doc: toml::Value = toml::from_str(&text).expect("generated TOML must parse");
    assert_eq!(doc["ffb_gain"].as_integer(), Some(255));
    assert_eq!(doc["log_level"].as_str(), Some("info"));
    assert_eq!(doc["calibration"]["x_min"].as_integer(), Some(-32768));
    assert_eq!(doc["axis_slider"]["smoothing"].as_integer(), Some(1));
    assert_eq!(doc["axis_rz"]["curve"].as_str(), Some("linear"));
    assert!(text.contains("(1\u{2013}30)"), "smoothing range is documented");
}

#[test]
fn remap_grid_lists_sources_of_each_slot() {
    let map = ButtonMapConfig::from_pairs(&[(0, 1), (1, 0), (4, 1)]);
    assert_eq!(map.mapped_sources(1), vec![0, 4]);
    assert_eq!(map.mapped_sources(0), vec![1]);
    assert_eq!(map.mapped_sources(4), Vec::<u8>::new());
    assert_eq!(map.mapped_sources(8), vec![8]);
}

fn generated() -> toml::Value {
    toml::from_str(&sideblinder::config::generate_toml()).expect("generated TOML must parse without errors")
}

fn int_at(v: &toml::Value, table: &str, key: &str) -> i64 {
    v[table][key].as_integer().expect("integer field")
}

#[test]
fn generate_toml_round_trips_to_default() {
    let v = generated();
    let cal = CalibrationConfig::default();
    let read = CalibrationConfig {
        x_min: int_at(&v, "calibration", "x_min") as i16,
        x_max: int_at(&v, "calibration", "x_max") as i16,
        y_min: int_at(&v, "calibration", "y_min") as i16,
        y_max: int_at(&v, "calibration", "y_max") as i16,
        rz_min: int_at(&v, "calibration", "rz_min") as i16,
        rz_max: int_at(&v, "calibration", "rz_max") as i16,
        slider_min: int_at(&v, "calibration", "slider_min") as i16,
        slider_max: int_at(&v, "calibration", "slider_max") as i16,
    };
    assert_eq!(read, cal);
    for axis in ["axis_x", "axis_y", "axis_rz", "axis_slider"] {
        assert_eq!(v[axis]["invert"].as_bool(), Some(false));
        assert_eq!(v[axis]["dead_zone"].as_float(), Some(0.0));
        assert_eq!(v[axis]["scale"].as_float(), Some(1.0));
        assert_eq!(v[axis]["curve"].as_str(), Some(sideblinder::gui::curve_toml_str(ResponseCurve::default())));
        assert_eq!(v[axis]["smoothing"].as_integer(), Some(1));
    }
    assert_eq!(v["ffb_gain"].as_integer(), Some(255));
}

#[test]
fn generate_toml_is_valid() {
    let v = generated();
    let axes = [("axis_x", AxisName::X), ("axis_y", AxisName::Y), ("axis_rz", AxisName::Rz), ("axis_slider", AxisName::Slider)];
    for (key, axis) in axes {
        let smoothing = v[key]["smoothing"].as_integer().unwrap() as u8;
        assert_eq!(validate_smoothing(axis, smoothing), None);
        let dead_zone = v[key]["dead_zone"].as_float().unwrap();
        let scale = v[key]["scale"].as_float().unwrap();
        assert!((0.0..=0.5).contains(&dead_zone) && (0.0..=4.0).contains(&scale));
    }
    let cal = CalibrationConfig {
        x_min: int_at(&v, "calibration", "x_min") as i16,
        x_max: int_at(&v, "calibration", "x_max") as i16,
        y_min: int_at(&v, "calibration", "y_min") as i16,
        y_max: int_at(&v, "calibration", "y_max") as i16,
        rz_min: int_at(&v, "calibration", "rz_min") as i16,
        rz_max: int_at(&v, "calibration", "rz_max") as i16,
        slider_min: int_at(&v, "calibration", "slider_min") as i16,
        slider_max: int_at(&v, "calibration", "slider_max") as i16,
    };
    assert!(validate_calibration(&cal).is_empty(), "generated config must have no validation warnings");
}

// ── Validation report ─────────────────────────────────────────────────────────

#[test]
fn validation_report_all_sections_ok() {
    let (lines, verdict) = validation_report(&Vec::new());
    assert_eq!(
        lines,
        vec![
            "  \u{2713} [axis_x] \u{2014} OK",
            "  \u{2713} [axis_y] \u{2014} OK",
            "  \u{2713} [axis_rz] \u{2014} OK",
            "  \u{2713} [axis_slider] \u{2014} OK",
            "  \u{2713} [calibration] \u{2014} OK",
            "  \u{2713} [buttons] \u{2014} OK",
            "  \u{2713} [layer] \u{2014} OK",
            "  \u{2713} [hat] \u{2014} OK",
        ]
    );
    assert_eq!(verdict, "No warnings. Config is valid.");
}

#[test]
fn validation_report_groups_warnings_by_section() {
    let warnings = vec![
        "[hat] north = 40 is out of range".to_string(),
        "[axis_x] smoothing must be between 1 and 30 (you set 0)".to_string(),
        "[layer.buttons] physical buttons 1 and 2 both map to virtual button 3".to_string(),
        "no section at all".to_string(),
        "[axis_x] dead_zone must be between 0.0 and 0.5 (you set 0.9)".to_string(),
    ];
    let (lines, verdict) = validation_report(&warnings);
    assert_eq!(
        lines,
        vec![
            "  ! [axis_x] smoothing must be between 1 and 30 (you set 0)",
            "  ! [axis_x] dead_zone must be between 0.0 and 0.5 (you set 0.9)",
            "  \u{2713} [axis_y] \u{2014} OK",
            "  \u{2713} [axis_rz] \u{2014} OK",
            "  \u{2713} [axis_slider] \u{2014} OK",
            "  \u{2713} [calibration] \u{2014} OK",
            "  \u{2713} [buttons] \u{2014} OK",
            "  ! [layer.buttons] physical buttons 1 and 2 both map to virtual button 3",
            "  ! [hat] north = 40 is out of range",
        ]
    );
    assert_eq!(verdict, "5 warnings. The app will use defaults for flagged fields.");
}

#[test]
fn validation_report_single_warning_is_singular() {
    let (_, verdict) = validation_report(&vec!["[buttons] x".to_string()]);
    assert_eq!(verdict, "1 warning. The app will use defaults for flagged fields.");
}

#[test]
fn keyed_pairs_match_exact_button_keys() {
    let pairs = vec![
        ("3".to_string(), 7u8),
        ("01".to_string(), 5u8),
        ("9".to_string(), 2u8),
        (" 4".to_string(), 1u8),
        ("8".to_string(), 0u8),
        ("x".to_string(), 6u8),
    ];
    let m = ButtonMapConfig::from_keyed_pairs(&pairs);
    assert_eq!(m.virtual_for(3), 7);
    assert_eq!(m.virtual_for(1), 1);
    assert_eq!(m.virtual_for(4), 4);
    assert_eq!(m.virtual_for(8), 0);
    assert!(m.is_explicit(3));
    assert!(!m.is_explicit(1));
    assert!(!m.is_explicit(0));
}
