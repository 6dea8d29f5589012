use sideblinder::ffb_handler::{FfbQueue, FfbReport, FFB_QUEUE_CAPACITY, MAX_FFB_REPORT_BYTES};
use sideblinder::hid_descriptor::{
    report_descriptor, HidClassDescriptor, END_COLLECTION, HID_CLASS_DESCRIPTOR_LEN, REPORT_DESCRIPTOR_LEN,
    UP_GENERIC_DESKTOP, USAGE_PAGE,
};
use sideblinder::input_report::{pack_snapshot, unpack_snapshot, InputQueue, InputSnapshot, REPORT_LEN};

// ── FFB report queue ──────────────────────────────────────────────────────────

#[test]
fn from_bytes_and_round_trip() {
    let src = [0x05u8, 0x01, 0x00, 0xFF, 0x7F];
    let r = FfbReport::from_bytes(&src);
    assert_eq!(r.len, 5);
    assert_eq!(r.as_bytes(), &src);
    assert_eq!(r.report_id(), Some(0x05));
}

#[test]
fn empty_report_has_no_id() {
    let r = FfbReport::from_bytes(&[]);
    assert_eq!(r.len, 0);
    assert_eq!(r.report_id(), None);
}

#[test]
fn truncates_to_max() {
    let src = [0u8; MAX_FFB_REPORT_BYTES + 10];
    let r = FfbReport::from_bytes(&src);
    assert_eq!(r.len as usize, MAX_FFB_REPORT_BYTES);
}

#[test]
fn queue_push_pop_fifo() {
    let mut q = FfbQueue::new();
    assert!(!q.is_nonempty());
    let r1 = FfbReport::from_bytes(&[0x01, 0xAA]);
    let r2 = FfbReport::from_bytes(&[0x0A, 0xBB]);
    q.push(r1);
    q.push(r2);
    assert!(q.is_nonempty());
    assert_eq!(q.pop().unwrap().as_bytes(), &[0x01, 0xAA]);
    assert_eq!(q.pop().unwrap().as_bytes(), &[0x0A, 0xBB]);
    assert!(q.pop().is_none());
}

#[test]
fn truncated_report_keeps_the_prefix() {
    let src: Vec<u8> = (0..100u8).collect();
    let r = FfbReport::from_bytes(&src);
    assert_eq!(r.as_bytes(), &src[..MAX_FFB_REPORT_BYTES]);
    assert_eq!(r.report_id(), Some(0));
}

#[test]
fn full_queue_drops_the_oldest_report() {
    let mut q = FfbQueue::new();
    let total = FFB_QUEUE_CAPACITY as u8 + 2;
    for i in 0..total {
        q.push(FfbReport::from_bytes(&[i]));
    }
    let mut seen = Vec::new();
    while let Some(r) = q.pop() {
        seen.push(r.as_bytes()[0]);
    }
    let expected: Vec<u8> = ((total - FFB_QUEUE_CAPACITY as u8)..total).collect();
    assert_eq!(seen, expected);
    assert!(!q.is_nonempty());
}

#[test]
fn queue_holds_sixteen_reports() {
    let mut q = FfbQueue::new();
    for i in 0..16u8 {
        q.push(FfbReport::from_bytes(&[i]));
    }
    let mut seen = Vec::new();
    while let Some(r) = q.pop() {
        seen.push(r.as_bytes()[0]);
    }
    assert_eq!(seen, (0..16u8).collect::<Vec<u8>>());
}

// ── Input report ──────────────────────────────────────────────────────────────

#[test]
fn default_report_is_all_zeros_except_pov() {
    let snap = InputSnapshot::default();
    let report = snap.to_report();
    for b in &report[0..8] {
        assert_eq!(*b, 0x00);
    }
    assert_eq!(report[8], 0x00);
    assert_eq!(report[9], 0x00);
    assert_eq!(report[10], 0xFF);
}

#[test]
fn axis_values_are_little_endian() {
    let snap = InputSnapshot { axes: [0x1234, -1, 0, 0], ..Default::default() };
    let report = snap.to_report();
    assert_eq!(report[0], 0x34);
    assert_eq!(report[1], 0x12);
    assert_eq!(report[2], 0xFF);
    assert_eq!(report[3], 0xFF);
}

#[test]
fn buttons_packed_correctly() {
    let snap = InputSnapshot { buttons: 0b1_0000_0101, ..Default::default() };
    let report = snap.to_report();
    assert_eq!(report[8], 0x05);
    assert_eq!(report[9], 0x01);
}

#[test]
fn pov_nibble_encoding() {
    let snap_n = InputSnapshot { pov: 0, ..Default::default() };
    assert_eq!(snap_n.to_report()[10], 0x00);
    let snap_e = InputSnapshot { pov: 2, ..Default::default() };
    assert_eq!(snap_e.to_report()[10], 0x20);
    let snap_c = InputSnapshot { pov: 0xFF, ..Default::default() };
    assert_eq!(snap_c.to_report()[10], 0xFF);
}

#[test]
fn input_queue_push_and_take() {
    let mut q = InputQueue::new();
    assert!(q.take().is_none());
    let snap = InputSnapshot { axes: [100, -200, 300, -400], buttons: 0b101, pov: 3 };
    q.push(snap);
    let got = q.take().expect("should have a snapshot");
    assert_eq!(got.axes, [100, -200, 300, -400]);
    assert!(q.take().is_none());
}

#[test]
fn pack_unpack_round_trips_axes() {
    let snap = InputSnapshot { axes: [i16::MIN, -1, 0, i16::MAX], buttons: 7, pov: 1 };
    let packed = pack_snapshot(snap);
    assert_eq!(packed, 0x7FFF_0000_FFFF_8000);
    let back = unpack_snapshot(packed);
    assert_eq!(back.axes, snap.axes);
    assert_eq!(back.buttons, 0);
    assert_eq!(back.pov, 0xFF);
}

#[test]
fn input_queue_keeps_only_the_latest() {
    let mut q = InputQueue::new();
    q.push(InputSnapshot { axes: [1, 2, 3, 4], ..Default::default() });
    let v = q.push(InputSnapshot { axes: [5, 6, 7, 8], ..Default::default() });
    assert_eq!(v, pack_snapshot(InputSnapshot { axes: [5, 6, 7, 8], ..Default::default() }));
    assert_eq!(q.take().unwrap().axes, [5, 6, 7, 8]);
    assert!(q.take().is_none());
}

#[test]
fn report_len_and_hat_nibbles() {
    assert_eq!(REPORT_LEN, 11);
    let r = InputSnapshot { pov: 7, ..Default::default() }.to_report();
    assert_eq!(r.len(), REPORT_LEN);
    assert_eq!(r[10], 0x70);
}

// ── HID descriptor ────────────────────────────────────────────────────────────

#[test]
fn report_descriptor_is_nonempty() {
    assert!(!report_descriptor().is_empty());
}

#[test]
fn report_descriptor_starts_with_usage_page_generic_desktop() {
    let d = report_descriptor();
    assert_eq!(d[0], USAGE_PAGE);
    assert_eq!(d[1], UP_GENERIC_DESKTOP);
}

#[test]
fn report_descriptor_ends_with_end_collection() {
    assert_eq!(*report_descriptor().last().unwrap(), END_COLLECTION);
}

#[test]
fn hid_class_descriptor_size() {
    assert_eq!(HidClassDescriptor::new().to_bytes().len(), 9);
}

#[test]
fn hid_class_descriptor_fields() {
    let d = HidClassDescriptor::new();
    assert_eq!(d.length, 9);
    assert_eq!(d.descriptor_type, 0x21);
    assert_eq!(u16::from_le(d.hid_cd), 0x0111);
    assert_eq!(d.num_descriptors, 1);
    assert_eq!(d.report_descriptor_type, 0x22);
}

#[test]
fn class_descriptor_wire_form() {
    let d = HidClassDescriptor::default();
    assert_eq!(d, HidClassDescriptor::new());
    let len = REPORT_DESCRIPTOR_LEN as u16;
    assert_eq!(
        d.to_bytes(),
        [9, 0x21, 0x11, 0x01, 0, 1, 0x22, (len & 0xFF) as u8, (len >> 8) as u8]
    );
    assert_eq!(HID_CLASS_DESCRIPTOR_LEN, 9);
}

#[test]
fn descriptor_length_matches_constant_and_collections_balance() {
    let d = report_descriptor();
    assert_eq!(d.len(), REPORT_DESCRIPTOR_LEN);
    // Every item here is a one-byte tag followed by its data; walk the items
    // and count collection openings against closings.
    let mut i = 0;
    let mut depth: i32 = 0;
    while i < d.len() {
        let tag = d[i];
        let size = match tag & 0x03 {
            0 => 0,
            1 => 1,
            2 => 2,
            _ => 4,
        };
        if tag == 0xA1 {
            depth += 1;
        }
        if tag == END_COLLECTION {
            depth -= 1;
            assert!(depth >= 0);
        }
        i += 1 + size;
    }
    assert_eq!(i, d.len());
    assert_eq!(depth, 0);
}

// ── Request dispatch ──────────────────────────────────────────────────────────

use sideblinder::driver_ipc::{IOCTL_SIDEBLINDER_GET_FFB, IOCTL_SIDEBLINDER_UPDATE_INPUT};
use sideblinder::ioctl::{
    plan_ioctl, IoctlAction, IoctlStatus, IOCTL_HID_GET_DEVICE_ATTRIBUTES, IOCTL_HID_GET_DEVICE_DESCRIPTOR,
    IOCTL_HID_GET_FEATURE, IOCTL_HID_GET_REPORT_DESCRIPTOR, IOCTL_HID_READ_REPORT, IOCTL_HID_SET_FEATURE,
    IOCTL_HID_WRITE_REPORT,
};

#[test]
fn descriptor_requests_reply_with_their_bytes() {
    let desc = plan_ioctl(IOCTL_HID_GET_DEVICE_DESCRIPTOR, 9, 0);
    assert_eq!(desc, IoctlAction::Reply(HidClassDescriptor::new().to_bytes().to_vec()));
    assert_eq!(plan_ioctl(IOCTL_HID_GET_DEVICE_DESCRIPTOR, 8, 0), IoctlAction::Complete(IoctlStatus::BufferTooSmall));
    assert_eq!(plan_ioctl(IOCTL_HID_GET_REPORT_DESCRIPTOR, 4096, 0), IoctlAction::Reply(report_descriptor()));
    assert_eq!(
        plan_ioctl(IOCTL_HID_GET_REPORT_DESCRIPTOR, REPORT_DESCRIPTOR_LEN - 1, 0),
        IoctlAction::Complete(IoctlStatus::BufferTooSmall)
    );
    assert_eq!(
        plan_ioctl(IOCTL_HID_GET_DEVICE_ATTRIBUTES, 12, 0),
        IoctlAction::Reply(vec![12, 0, 0, 0, 0x5E, 0x04, 0x1B, 0x00, 0x00, 0x01, 0, 0])
    );
}

#[test]
fn read_write_and_custom_requests() {
    assert_eq!(
        plan_ioctl(IOCTL_HID_READ_REPORT, 11, 0),
        IoctlAction::Reply(vec![0, 0, 0, 0, 0, 0, 0, 0, 0, 0, 0xFF])
    );
    assert_eq!(plan_ioctl(IOCTL_HID_READ_REPORT, 10, 0), IoctlAction::Complete(IoctlStatus::BufferTooSmall));
    assert_eq!(plan_ioctl(IOCTL_HID_WRITE_REPORT, 0, 0), IoctlAction::Complete(IoctlStatus::InvalidParameter));
    assert_eq!(plan_ioctl(IOCTL_HID_WRITE_REPORT, 0, 3), IoctlAction::Accept(1));
    assert_eq!(plan_ioctl(IOCTL_HID_GET_FEATURE, 64, 64), IoctlAction::Complete(IoctlStatus::NotSupported));
    assert_eq!(plan_ioctl(IOCTL_HID_SET_FEATURE, 64, 64), IoctlAction::Complete(IoctlStatus::NotSupported));
    assert_eq!(plan_ioctl(IOCTL_SIDEBLINDER_UPDATE_INPUT, 0, 12), IoctlAction::Accept(12));
    assert_eq!(plan_ioctl(IOCTL_SIDEBLINDER_UPDATE_INPUT, 0, 11), IoctlAction::Complete(IoctlStatus::BufferTooSmall));
    assert_eq!(plan_ioctl(IOCTL_SIDEBLINDER_GET_FFB, 64, 0), IoctlAction::Complete(IoctlStatus::NoMoreEntries));
    assert_eq!(plan_ioctl(IOCTL_SIDEBLINDER_GET_FFB, 63, 0), IoctlAction::Complete(IoctlStatus::BufferTooSmall));
    assert_eq!(plan_ioctl(0x1234, 100, 100), IoctlAction::Complete(IoctlStatus::NotSupported));
    assert_eq!(IoctlStatus::BufferTooSmall.code(), 0xC000_0023);
    assert_eq!(IoctlStatus::Success.code(), 0);
    assert_eq!(IoctlStatus::NoMoreEntries.code(), 0x8000_001A);
    assert_eq!(IOCTL_HID_GET_REPORT_DESCRIPTOR, (0x0B << 16) | (1 << 2));
}
