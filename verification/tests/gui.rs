use sideblinder::config::ResponseCurve;
use sideblinder::gui::{curve_label, curve_toml_str, pov_label, BackendError, EmbeddedBackend, GuiBackend};
use sideblinder::gui_ipc::GuiFrame;

#[test]
fn embedded_backend_needs_windows() {
    let err = EmbeddedBackend::start("config.toml".to_string()).err().expect("start must fail here");
    assert_eq!(err, BackendError::DeviceOpen("Direct device access is only supported on Windows".to_string()));
}

#[test]
fn disconnected_backend_is_dead_and_empty() {
    let mut b = EmbeddedBackend::disconnected();
    assert!(!b.is_alive());
    assert_eq!(b.poll(), None);
}

#[test]
fn poll_returns_the_newest_frame_and_drains() {
    let mut b = EmbeddedBackend::streaming();
    assert!(b.is_alive());
    for gain in 1..=3u8 {
        assert!(b.push_frame(GuiFrame { ffb_gain: gain, ..Default::default() }));
    }
    assert_eq!(b.poll().map(|f| f.ffb_gain), Some(3));
    assert_eq!(b.poll(), None);
    for gain in 0..6u8 {
        let sent = b.push_frame(GuiFrame { ffb_gain: gain, ..Default::default() });
        assert_eq!(sent, gain < 4, "frames beyond the queue bound are dropped");
    }
    assert_eq!(b.poll().map(|f| f.ffb_gain), Some(3));
    b.mark_stopped();
    assert!(!b.is_alive());
}

#[test]
fn dashboard_and_curve_labels() {
    assert_eq!(pov_label(0), "N");
    assert_eq!(pov_label(5), "SW");
    assert_eq!(pov_label(7), "NW");
    assert_eq!(pov_label(0xFF), "\u{2014}");
    assert_eq!(curve_label(ResponseCurve::Quadratic), "Quadratic (x\u{b2})");
    assert_eq!(curve_label(ResponseCurve::SCurve), "S-Curve");
    assert_eq!(curve_toml_str(ResponseCurve::SCurve), "s-curve");
    assert_eq!(curve_toml_str(ResponseCurve::Linear), "linear");
}
