//! The service's side of the driver IPC: the snapshot it pushes to the
//! virtual device, the custom control codes, and the IPC abstraction.

use vstd::prelude::*;

use crate::input::{pov_index, InputState};

verus! {

/// App → Driver: push a new input snapshot (device type 0x22, function
/// 0x800, buffered, write access).
pub const IOCTL_SIDEBLINDER_UPDATE_INPUT: u32 = 0x0022_A000;

/// App ← Driver: pop the next FFB output report (device type 0x22, function
/// 0x801, buffered, read access).
pub const IOCTL_SIDEBLINDER_GET_FFB: u32 = 0x0022_6004;

/// The control code `CTL_CODE(device_type, function, method, access)`.
pub open spec fn ctl_code(device_type: int, access: int, function: int, method: int) -> int {
    device_type * 0x1_0000 + access * 0x4000 + function * 4 + method
}

/// The custom codes are the control codes the driver decodes.
pub proof fn lemma_ioctl_codes()
    ensures
        IOCTL_SIDEBLINDER_UPDATE_INPUT == ctl_code(0x22, 2, 0x800, 0),
        IOCTL_SIDEBLINDER_GET_FFB == ctl_code(0x22, 1, 0x801, 0),
        IOCTL_SIDEBLINDER_UPDATE_INPUT != IOCTL_SIDEBLINDER_GET_FFB,
{
}

/// Errors from driver IPC operations.
#[derive(Debug, Clone, PartialEq, Eq)]
pub enum IpcError {
    /// Could not open a handle to the driver device.
    Open(String),
    /// A control request to the driver failed.
    Ioctl(String),
}

/// Joystick state transmitted to the driver.
///
/// `buttons` is a bitmask of virtual button indices (0-based); it is `u32` so
/// that up to 32 virtual buttons can be reported — physical buttons (0–8)
/// plus hat-as-buttons directions all fit within that range.
#[derive(Debug, Clone, Copy)]
pub struct InputSnapshot {
    pub axes: [i16; 4],
    pub buttons: u32,
    pub pov: u8,
}

impl Default for InputSnapshot {
    fn default() -> (s: Self)
        ensures
            s.axes@ == seq![0i16, 0, 0, 0],
            s.buttons == 0,
            s.pov == 0,
    {
        InputSnapshot { axes: [0i16; 4], buttons: 0, pov: 0 }
    }
}

impl InputSnapshot {
    /// Build from an [`InputState`]: the first four axes, the physical
    /// button word, and the hat direction index (0xFF when centred).
    pub fn from_input_state(state: &InputState) -> (s: Self)
        ensures
            s.axes@ == state.axes@.take(4),
            s.buttons == state.buttons,
            s.pov == pov_index(state.pov),
    {
        let s = Self {
            axes: [state.axes[0], state.axes[1], state.axes[2], state.axes[3]],
            buttons: state.buttons as u32,
            pov: state.pov.index(),
        };
        proof {
            assert(s.axes@ =~= state.axes@.take(4));
        }
        s
    }
}

/// Abstracts driver IPC so the bridge can be tested without a real driver.
pub trait DriverIpc {
    /// Push a new joystick snapshot to the virtual device.
    fn push_input(&mut self, snap: InputSnapshot) -> Result<(), IpcError>;

    /// Pull the next pending FFB report from the driver; `Ok(None)` when no
    /// report is queued.
    fn get_ffb(&mut self) -> Result<Option<Vec<u8>>, IpcError>;
}

/// Test double that records the last pushed snapshot and never has FFB data.
pub struct MockDriverIpc {
    pub last_input: Option<InputSnapshot>,
}

impl Default for MockDriverIpc {
    fn default() -> (m: Self)
        ensures
            m.last_input.is_none(),
    {
        MockDriverIpc { last_input: None }
    }
}

impl MockDriverIpc {
    /// Record `snap` as the last pushed snapshot.
    pub fn record(&mut self, snap: InputSnapshot)
        ensures
            final(self).last_input == Some(snap),
    {
        self.last_input = Some(snap);
    }
}

impl DriverIpc for MockDriverIpc {
    fn push_input(&mut self, snap: InputSnapshot) -> (r: Result<(), IpcError>)
        ensures
            r.is_ok(),
            final(self).last_input == Some(snap),
    {
        self.record(snap);
        Ok(())
    }

    fn get_ffb(&mut self) -> (r: Result<Option<Vec<u8>>, IpcError>)
        ensures
            r matches Ok(None),
            final(self).last_input == old(self).last_input,
    {
        Ok(None)
    }
}

} // verus!
