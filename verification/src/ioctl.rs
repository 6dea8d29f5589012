//! Request dispatch of the virtual-device driver: for each internal device
//! control request, the status to complete it with and the bytes to hand
//! back.  The kernel calls that fetch the request buffers and complete the
//! request stay in the driver shell; every decision is made here.

use vstd::prelude::*;

use crate::driver_ipc::{IOCTL_SIDEBLINDER_GET_FFB, IOCTL_SIDEBLINDER_UPDATE_INPUT};
use crate::ffb_handler::MAX_FFB_REPORT_BYTES;
use crate::hid_descriptor::{class_descriptor, descriptor_bytes, report_descriptor, HidClassDescriptor, REPORT_DESCRIPTOR_LEN};
use crate::input_report::{snapshot_report, InputSnapshot, REPORT_LEN};

verus! {

// ── Control codes ─────────────────────────────────────────────────────────────

/// `IOCTL_HID_GET_DEVICE_DESCRIPTOR` (device type 0x0B, function 0).
pub const IOCTL_HID_GET_DEVICE_DESCRIPTOR: u32 = 0x000B_0000;
/// `IOCTL_HID_GET_REPORT_DESCRIPTOR` (function 1).
pub const IOCTL_HID_GET_REPORT_DESCRIPTOR: u32 = 0x000B_0004;
/// `IOCTL_HID_GET_DEVICE_ATTRIBUTES` (function 2).
pub const IOCTL_HID_GET_DEVICE_ATTRIBUTES: u32 = 0x000B_0008;
/// `IOCTL_HID_READ_REPORT` (function 3).
pub const IOCTL_HID_READ_REPORT: u32 = 0x000B_000C;
/// `IOCTL_HID_WRITE_REPORT` (function 4).
pub const IOCTL_HID_WRITE_REPORT: u32 = 0x000B_0010;
/// `IOCTL_HID_GET_FEATURE` (function 5).
pub const IOCTL_HID_GET_FEATURE: u32 = 0x000B_0014;
/// `IOCTL_HID_SET_FEATURE` (function 6).
pub const IOCTL_HID_SET_FEATURE: u32 = 0x000B_0018;

/// The HID class codes are `CTL_CODE(0x0B, function, METHOD_NEITHER... 0, 0)`
/// for functions 0–6, so no two of them, nor the custom codes, coincide.
pub proof fn lemma_hid_codes()
    ensures
        IOCTL_HID_GET_DEVICE_DESCRIPTOR == crate::driver_ipc::ctl_code(0x0B, 0, 0, 0),
        IOCTL_HID_GET_REPORT_DESCRIPTOR == crate::driver_ipc::ctl_code(0x0B, 0, 1, 0),
        IOCTL_HID_GET_DEVICE_ATTRIBUTES == crate::driver_ipc::ctl_code(0x0B, 0, 2, 0),
        IOCTL_HID_READ_REPORT == crate::driver_ipc::ctl_code(0x0B, 0, 3, 0),
        IOCTL_HID_WRITE_REPORT == crate::driver_ipc::ctl_code(0x0B, 0, 4, 0),
        IOCTL_HID_GET_FEATURE == crate::driver_ipc::ctl_code(0x0B, 0, 5, 0),
        IOCTL_HID_SET_FEATURE == crate::driver_ipc::ctl_code(0x0B, 0, 6, 0),
        IOCTL_SIDEBLINDER_UPDATE_INPUT != IOCTL_HID_GET_DEVICE_DESCRIPTOR,
        IOCTL_SIDEBLINDER_GET_FFB != IOCTL_HID_GET_DEVICE_DESCRIPTOR,
{
}

// ── Device identity ───────────────────────────────────────────────────────────

/// Vendor ID the virtual device reports (Microsoft).
pub const DEVICE_VID: u16 = 0x045E;
/// Product ID the virtual device reports (Sidewinder FF2).
pub const DEVICE_PID: u16 = 0x001B;
/// Version number the virtual device reports.
pub const DEVICE_VERSION: u16 = 0x0100;

/// Size of the device attributes block: a 32-bit size field and three 16-bit
/// fields, padded to 32-bit alignment.
pub const DEVICE_ATTRIBUTES_LEN: usize = 12;

/// Size of the input snapshot the service pushes: four axes, the button word
/// and the hat byte, padded to 16-bit alignment.
pub const INPUT_SNAPSHOT_LEN: usize = 12;

// ── Outcomes ──────────────────────────────────────────────────────────────────

/// How a request is completed.
#[derive(Debug, Clone, Copy, PartialEq, Eq, Structural)]
pub enum IoctlStatus {
    Success,
    BufferTooSmall,
    InvalidParameter,
    NotSupported,
    NoMoreEntries,
}

impl IoctlStatus {
    /// The NTSTATUS value of the outcome.
    pub fn code(self) -> (c: u32)
        ensures
            c == match self {
                IoctlStatus::Success => 0u32,
                IoctlStatus::BufferTooSmall => 0xC000_0023u32,
                IoctlStatus::InvalidParameter => 0xC000_000Du32,
                IoctlStatus::NotSupported => 0xC000_00BBu32,
                IoctlStatus::NoMoreEntries => 0x8000_001Au32,
            },
    {
        match self {
            IoctlStatus::Success => 0,
            IoctlStatus::BufferTooSmall => 0xC000_0023,
            IoctlStatus::InvalidParameter => 0xC000_000D,
            IoctlStatus::NotSupported => 0xC000_00BB,
            IoctlStatus::NoMoreEntries => 0x8000_001A,
        }
    }
}

/// What the driver does with one request.
#[derive(Debug, Clone, PartialEq, Eq)]
pub enum IoctlAction {
    /// Complete the request at once with this status.
    Complete(IoctlStatus),
    /// Copy these bytes to the output buffer, report their length, succeed.
    Reply(Vec<u8>),
    /// Take an input buffer of at least this many bytes and succeed.
    Accept(usize),
}

/// The attributes block: size, vendor, product, version (little-endian),
/// then two zero padding bytes.
pub open spec fn attributes_bytes() -> Seq<u8> {
    seq![12u8, 0u8, 0u8, 0u8, 0x5Eu8, 0x04u8, 0x1Bu8, 0x00u8, 0x00u8, 0x01u8, 0u8, 0u8]
}

/// The serialised class descriptor of the device.
pub open spec fn class_descriptor_bytes() -> Seq<u8> {
    let d = class_descriptor();
    seq![
        d.length,
        d.descriptor_type,
        crate::bytes::u16_lo(d.hid_cd),
        crate::bytes::u16_hi(d.hid_cd),
        d.country_code,
        d.num_descriptors,
        d.report_descriptor_type,
        crate::bytes::u16_lo(d.report_descriptor_length),
        crate::bytes::u16_hi(d.report_descriptor_length),
    ]
}

/// The report answered to a read: the centred, idle state (axes zero, no
/// buttons, hat null).
pub open spec fn idle_report() -> Seq<u8> {
    seq![0u8, 0u8, 0u8, 0u8, 0u8, 0u8, 0u8, 0u8, 0u8, 0u8, 0xFFu8]
}

/// Whether an action is a reply with exactly these bytes.
pub open spec fn replies(a: IoctlAction, bytes: Seq<u8>) -> bool {
    a matches IoctlAction::Reply(v) && v@ == bytes
}

/// The action for a request: the descriptor, report-descriptor, attribute
/// and read requests reply with their bytes when the output buffer is large
/// enough; writes need a non-empty input; the service's input push needs a
/// whole snapshot; the force-feedback pull has nothing queued yet; feature
/// requests and unknown codes are not supported.
pub open spec fn ioctl_outcome(code: u32, out_len: usize, in_len: usize, a: IoctlAction) -> bool {
    if code == IOCTL_HID_GET_DEVICE_DESCRIPTOR {
        if out_len < 9 { a == IoctlAction::Complete(IoctlStatus::BufferTooSmall) } else { replies(a, class_descriptor_bytes()) }
    } else if code == IOCTL_HID_GET_REPORT_DESCRIPTOR {
        if out_len < REPORT_DESCRIPTOR_LEN { a == IoctlAction::Complete(IoctlStatus::BufferTooSmall) } else { replies(a, descriptor_bytes()) }
    } else if code == IOCTL_HID_GET_DEVICE_ATTRIBUTES {
        if out_len < DEVICE_ATTRIBUTES_LEN { a == IoctlAction::Complete(IoctlStatus::BufferTooSmall) } else { replies(a, attributes_bytes()) }
    } else if code == IOCTL_HID_READ_REPORT {
        if out_len < REPORT_LEN { a == IoctlAction::Complete(IoctlStatus::BufferTooSmall) } else { replies(a, idle_report()) }
    } else if code == IOCTL_HID_WRITE_REPORT {
        if in_len == 0 { a == IoctlAction::Complete(IoctlStatus::InvalidParameter) } else { a == IoctlAction::Accept(1) }
    } else if code == IOCTL_HID_GET_FEATURE || code == IOCTL_HID_SET_FEATURE {
        a == IoctlAction::Complete(IoctlStatus::NotSupported)
    } else if code == IOCTL_SIDEBLINDER_UPDATE_INPUT {
        if in_len < INPUT_SNAPSHOT_LEN { a == IoctlAction::Complete(IoctlStatus::BufferTooSmall) } else { a == IoctlAction::Accept(INPUT_SNAPSHOT_LEN) }
    } else if code == IOCTL_SIDEBLINDER_GET_FFB {
        if out_len < MAX_FFB_REPORT_BYTES { a == IoctlAction::Complete(IoctlStatus::BufferTooSmall) } else { a == IoctlAction::Complete(IoctlStatus::NoMoreEntries) }
    } else {
        a == IoctlAction::Complete(IoctlStatus::NotSupported)
    }
}

/// The attributes block the driver answers.
fn attributes_reply() -> (v: Vec<u8>)
    ensures
        v@ == attributes_bytes(),
{
    let (vid0, vid1) = crate::bytes::u16_to_le(DEVICE_VID);
    let (pid0, pid1) = crate::bytes::u16_to_le(DEVICE_PID);
    let (ver0, ver1) = crate::bytes::u16_to_le(DEVICE_VERSION);
    let v = vec![12u8, 0, 0, 0, vid0, vid1, pid0, pid1, ver0, ver1, 0, 0];
    assert(v@ =~= attributes_bytes());
    v
}

/// Decide what to do with one internal device control request.
pub fn plan_ioctl(code: u32, out_len: usize, in_len: usize) -> (a: IoctlAction)
    ensures
        ioctl_outcome(code, out_len, in_len, a),
{
    if code == IOCTL_HID_GET_DEVICE_DESCRIPTOR {
        if out_len < 9 {
            IoctlAction::Complete(IoctlStatus::BufferTooSmall)
        } else {
            let b = HidClassDescriptor::new().to_bytes();
            let v = vec![b[0], b[1], b[2], b[3], b[4], b[5], b[6], b[7], b[8]];
            assert(v@ =~= class_descriptor_bytes());
            IoctlAction::Reply(v)
        }
    } else if code == IOCTL_HID_GET_REPORT_DESCRIPTOR {
        if out_len < REPORT_DESCRIPTOR_LEN {
            IoctlAction::Complete(IoctlStatus::BufferTooSmall)
        } else {
            IoctlAction::Reply(report_descriptor())
        }
    } else if code == IOCTL_HID_GET_DEVICE_ATTRIBUTES {
        if out_len < DEVICE_ATTRIBUTES_LEN {
            IoctlAction::Complete(IoctlStatus::BufferTooSmall)
        } else {
            IoctlAction::Reply(attributes_reply())
        }
    } else if code == IOCTL_HID_READ_REPORT {
        if out_len < REPORT_LEN {
            IoctlAction::Complete(IoctlStatus::BufferTooSmall)
        } else {
            let snap = InputSnapshot::default();
            let r = snap.to_report();
            assert(r@ =~= snapshot_report(snap));
            let v = vec![r[0], r[1], r[2], r[3], r[4], r[5], r[6], r[7], r[8], r[9], r[10]];
            assert(v@ =~= idle_report());
            IoctlAction::Reply(v)
        }
    } else if code == IOCTL_HID_WRITE_REPORT {
        if in_len == 0 {
            IoctlAction::Complete(IoctlStatus::InvalidParameter)
        } else {
            IoctlAction::Accept(1)
        }
    } else if code == IOCTL_HID_GET_FEATURE || code == IOCTL_HID_SET_FEATURE {
        IoctlAction::Complete(IoctlStatus::NotSupported)
    } else if code == IOCTL_SIDEBLINDER_UPDATE_INPUT {
        if in_len < INPUT_SNAPSHOT_LEN {
            IoctlAction::Complete(IoctlStatus::BufferTooSmall)
        } else {
            IoctlAction::Accept(INPUT_SNAPSHOT_LEN)
        }
    } else if code == IOCTL_SIDEBLINDER_GET_FFB {
        if out_len < MAX_FFB_REPORT_BYTES {
            IoctlAction::Complete(IoctlStatus::BufferTooSmall)
        } else {
            IoctlAction::Complete(IoctlStatus::NoMoreEntries)
        }
    } else {
        IoctlAction::Complete(IoctlStatus::NotSupported)
    }
}

} // verus!
