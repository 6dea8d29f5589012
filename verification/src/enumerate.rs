//! HID device discovery.
//!
//! Walking the HID device interface class needs the Windows HID API, which
//! this build does not have, so the device list is empty here.  What is
//! decided on a list (which entry is the Sidewinder) is here.

use vstd::prelude::*;

verus! {

/// USB Vendor ID of the Microsoft Sidewinder Force Feedback 2.
pub const SIDEWINDER_FF2_VID: u16 = 0x045E;
/// USB Product ID of the Microsoft Sidewinder Force Feedback 2.
pub const SIDEWINDER_FF2_PID: u16 = 0x001B;

/// A discovered HID device.
#[derive(Debug, Clone, PartialEq, Eq)]
pub struct HidDeviceInfo {
    /// The `\\?\HID#...` path that can be passed to `CreateFileW`.
    pub path: String,
    /// USB Vendor ID.
    pub vendor_id: u16,
    /// USB Product ID.
    pub product_id: u16,
}

/// Whether a device carries the Sidewinder Force Feedback 2 VID/PID pair.
pub open spec fn is_ff2(info: HidDeviceInfo) -> bool {
    info.vendor_id == SIDEWINDER_FF2_VID && info.product_id == SIDEWINDER_FF2_PID
}

impl HidDeviceInfo {
    /// Returns `true` if this device is a Sidewinder Force Feedback 2.
    pub fn is_sidewinder_ff2(&self) -> (b: bool)
        ensures
            b == is_ff2(*self),
    {
        self.vendor_id == SIDEWINDER_FF2_VID && self.product_id == SIDEWINDER_FF2_PID
    }
}

/// Return information about all HID devices currently attached, as far as
/// this build can see them: a host without the Windows HID class API sees
/// none, so the list is empty and enumeration never fails.
pub fn enumerate_hid_devices_impl() -> (r: Result<Vec<HidDeviceInfo>, String>)
    ensures
        r.is_ok() && r.unwrap()@.len() == 0,
{
    Ok(Vec::new())
}

/// Return information about all HID devices currently attached to the system.
pub fn enumerate_hid_devices() -> (r: Result<Vec<HidDeviceInfo>, String>)
    ensures
        r.is_ok() && r.unwrap()@.len() == 0,
{
    enumerate_hid_devices_impl()
}

/// The first Sidewinder Force Feedback 2 of a device list, if any.
pub open spec fn first_ff2(devices: Seq<HidDeviceInfo>) -> Option<HidDeviceInfo>
    decreases devices.len(),
{
    if devices.len() == 0 {
        None
    } else if is_ff2(devices[0]) {
        Some(devices[0])
    } else {
        first_ff2(devices.drop_first())
    }
}

/// Pick the first Sidewinder Force Feedback 2 out of an enumerated list.
pub fn select_sidewinder(devices: Vec<HidDeviceInfo>) -> (r: Option<HidDeviceInfo>)
    ensures
        r == first_ff2(devices@),
{
    let n = devices.len();
    let mut i: usize = 0;
    assert(devices@.skip(0) =~= devices@);
    while i < n
        invariant
            n == devices@.len(),
            i <= n,
            first_ff2(devices@.skip(i as int)) == first_ff2(devices@),
        decreases n - i,
    {
        proof {
            assert(devices@.skip(i as int).drop_first() =~= devices@.skip(i as int + 1));
        }
        if devices[i].is_sidewinder_ff2() {
            let mut devices = devices;
            return Some(devices.swap_remove(i));
        }
        i = i + 1;
    }
    proof {
        assert(devices@.skip(n as int) =~= Seq::<HidDeviceInfo>::empty());
    }
    None
}

/// Return the first Sidewinder Force Feedback 2 found, or `None`.  Fails
/// only when enumeration itself fails.
pub fn find_sidewinder() -> (r: Result<Option<HidDeviceInfo>, String>)
    ensures
        r == Ok::<Option<HidDeviceInfo>, String>(None),
{
    match enumerate_hid_devices() {
        Ok(devices) => Ok(select_sidewinder(devices)),
        Err(e) => Err(e),
    }
}

} // verus!
