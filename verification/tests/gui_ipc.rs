use sideblinder::gui_ipc::{GuiFrame, ProtocolError, FRAME_PAYLOAD_LEN, FRAME_PREFIX_LEN, FRAME_TOTAL_LEN, PIPE_NAME};

fn sample_frame() -> GuiFrame {
    GuiFrame {
        axes: [1000, -2000, 500, -500, 0, 0, 0, 0],
        buttons: 0b1010_1010,
        pov: 3,
        connected: 1,
        ffb_enabled: 1,
        ffb_gain: 200,
    }
}

#[test]
fn payload_roundtrip() {
    let frame = sample_frame();
    let payload = frame.to_payload();
    let decoded = GuiFrame::from_payload(&payload).expect("decode must succeed");
    assert_eq!(decoded, frame);
}

#[test]
fn wire_roundtrip() {
    let frame = sample_frame();
    let wire = frame.encode();
    assert_eq!(wire.len(), FRAME_TOTAL_LEN);
    let decoded = GuiFrame::decode(&wire).expect("decode must succeed");
    assert_eq!(decoded, frame);
}

#[test]
fn decode_rejects_too_short_buffer() {
    let short = [0u8; FRAME_TOTAL_LEN - 1];
    let err = GuiFrame::decode(&short).expect_err("must fail on short buffer");
    assert!(matches!(err, ProtocolError::TooShort { .. }));
}

#[test]
fn decode_rejects_wrong_length_prefix() {
    let frame = sample_frame();
    let mut wire = frame.encode();
    wire[0] = 99;
    wire[1] = 0;
    wire[2] = 0;
    wire[3] = 0;
    let err = GuiFrame::decode(&wire).expect_err("must fail on length mismatch");
    assert!(matches!(err, ProtocolError::LengthMismatch { .. }));
}

#[test]
fn from_payload_rejects_empty_slice() {
    let err = GuiFrame::from_payload(&[]).expect_err("must fail on empty slice");
    assert!(matches!(err, ProtocolError::TooShort { .. }));
}

#[test]
fn axes_are_little_endian() {
    let frame = GuiFrame { axes: [0x0102, 0, 0, 0, 0, 0, 0, 0], ..Default::default() };
    let payload = frame.to_payload();
    assert_eq!(payload[0], 0x02, "low byte of axis 0");
    assert_eq!(payload[1], 0x01, "high byte of axis 0");
}

#[test]
fn pov_centre_preserved() {
    let frame = GuiFrame { pov: 0xFF, connected: 1, ..Default::default() };
    let decoded = GuiFrame::decode(&frame.encode()).expect("decode must succeed");
    assert_eq!(decoded.pov, 0xFF);
}

#[test]
fn frame_total_len_is_26() {
    assert_eq!(FRAME_TOTAL_LEN, 26);
}

// ── Further cases ─────────────────────────────────────────────────────────────

#[test]
fn wire_prefix_is_payload_length() {
    let wire = sample_frame().encode();
    assert_eq!(&wire[..FRAME_PREFIX_LEN], &[22, 0, 0, 0]);
    assert_eq!(FRAME_PREFIX_LEN + FRAME_PAYLOAD_LEN, FRAME_TOTAL_LEN);
    assert_eq!(&wire[FRAME_PREFIX_LEN..], &sample_frame().to_payload()[..]);
}

#[test]
fn payload_field_offsets() {
    let p = sample_frame().to_payload();
    // 1000 = 0x03E8, -2000 = 0xF830
    assert_eq!(&p[0..4], &[0xE8, 0x03, 0x30, 0xF8]);
    assert_eq!(&p[16..18], &[0xAA, 0x00]);
    assert_eq!(p[18], 3);
    assert_eq!(p[19], 1);
    assert_eq!(p[20], 1);
    assert_eq!(p[21], 200);
}

#[test]
fn short_error_reports_sizes() {
    assert_eq!(
        GuiFrame::decode(&[0u8; 5]),
        Err(ProtocolError::TooShort { need: FRAME_TOTAL_LEN, have: 5 })
    );
    assert_eq!(
        GuiFrame::from_payload(&[0u8; 21]),
        Err(ProtocolError::TooShort { need: FRAME_PAYLOAD_LEN, have: 21 })
    );
}

#[test]
fn length_mismatch_reports_prefix() {
    let mut wire = sample_frame().encode();
    wire[0] = 99;
    assert_eq!(
        GuiFrame::decode(&wire),
        Err(ProtocolError::LengthMismatch { expected: FRAME_PAYLOAD_LEN, got: 99 })
    );
}

#[test]
fn trailing_bytes_after_a_frame_are_ignored() {
    let mut wire = sample_frame().encode().to_vec();
    wire.extend_from_slice(&[1, 2, 3]);
    assert_eq!(GuiFrame::decode(&wire), Ok(sample_frame()));
}

#[test]
fn pipe_name_is_the_service_pipe() {
    assert_eq!(PIPE_NAME, "\\\\.\\pipe\\SidewinderGui");
}
