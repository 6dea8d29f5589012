//! Device handle and lifecycle management for connected joysticks.
//!
//! [`SideblinderDevice`] owns a [`HidTransport`] and exposes a clean interface
//! for polling input and sending force-feedback commands.

use vstd::prelude::*;

use crate::enumerate::find_sidewinder;
use crate::ffb::{
    build_effect_reports, build_operation_report, byte_rows, effect_encodable, effect_reports,
    operation_report, FfbEffect, FfbOperation,
};
use crate::hid_transport::{read_view, HidTransport, TransportError};
use crate::input::{parse_input_report, report_state_ok, InputParseError, InputState, MIN_REPORT_SIZE};

verus! {

// ── Error ─────────────────────────────────────────────────────────────────────

/// Error returned by [`SideblinderDevice`] operations.
#[derive(Debug, PartialEq, Eq)]
pub enum DeviceError {
    /// The underlying transport reported an error.
    Transport(TransportError),
    /// An input report could not be parsed.
    Parse(InputParseError),
}

/// What one poll yields for the outcome of one transport read: the read's
/// error, or the parse of the bytes read.
pub open spec fn poll_outcome(read: Result<Seq<u8>, TransportError>, r: Result<InputState, DeviceError>) -> bool {
    match read {
        Err(e) => r == Err::<InputState, DeviceError>(DeviceError::Transport(e)),
        Ok(bytes) => if bytes.len() < MIN_REPORT_SIZE {
            r == Err::<InputState, DeviceError>(
                DeviceError::Parse(InputParseError::TooShort { expected: MIN_REPORT_SIZE, got: bytes.len() as usize }),
            )
        } else {
            r.is_ok() && report_state_ok(bytes, r.unwrap())
        },
    }
}

/// Decode the outcome of one transport read into an input state.
pub fn decode_read(read: Result<Vec<u8>, TransportError>) -> (r: Result<InputState, DeviceError>)
    ensures
        poll_outcome(read_view(read), r),
{
    match read {
        Err(e) => Err(DeviceError::Transport(e)),
        Ok(bytes) => match parse_input_report(bytes.as_slice()) {
            Ok(s) => Ok(s),
            Err(e) => Err(DeviceError::Parse(e)),
        },
    }
}

// ── Device ────────────────────────────────────────────────────────────────────

/// High-level handle for a single connected Sidewinder Force Feedback 2.
pub struct SideblinderDevice<T: HidTransport> {
    transport: T,
}

impl<T: HidTransport> SideblinderDevice<T> {
    /// The transport this device reads from and writes to.
    pub closed spec fn spec_transport(&self) -> T {
        self.transport
    }

    /// Wrap an existing transport.  In tests use a `MockTransport`.
    pub fn from_transport(transport: T) -> (d: Self)
        ensures
            d.spec_transport() == transport,
    {
        SideblinderDevice { transport }
    }

    /// Open the first Sidewinder FF2 found on the system.
    ///
    /// Opening a device needs the Windows HID stack; this build has none, so
    /// no device is ever found and this always fails with
    /// [`DeviceError::Transport`]`(`[`TransportError::NotOpen`]`)`, which
    /// keeps callers compilable and testable everywhere.
    pub fn open() -> (r: Result<Self, DeviceError>)
        ensures
            r matches Err(DeviceError::Transport(TransportError::NotOpen)),
    {
        match find_sidewinder() {
            // A found device would be opened by its path with the platform
            // transport, which this build does not have.
            Ok(Some(_info)) => Err(DeviceError::Transport(TransportError::NotOpen)),
            Ok(None) | Err(_) => Err(DeviceError::Transport(TransportError::NotOpen)),
        }
    }

    /// Consume this device and return the underlying transport.
    pub fn into_transport(self) -> (t: T)
        ensures
            t == self.spec_transport(),
    {
        self.transport
    }

    /// Borrow the underlying transport.
    pub fn transport(&self) -> (t: &T)
        ensures
            *t == self.spec_transport(),
    {
        &self.transport
    }

    /// Block until one input report arrives and return the decoded state:
    /// one read of the transport, and no write.
    ///
    /// Fails with the transport's error as [`DeviceError::Transport`], or
    /// with [`DeviceError::Parse`] if the report is too short.
    pub fn poll(&mut self) -> (r: Result<InputState, DeviceError>)
        ensures
            poll_outcome(old(self).spec_transport().next_input(), r),
            final(self).spec_transport().written() == old(self).spec_transport().written(),
            forall|n: nat| #[trigger] final(self).spec_transport().write_outcome(n) == old(self).spec_transport().write_outcome(n),
    {
        let read = self.transport.read_input_report();
        decode_read(read)
    }

    /// Block until one input report arrives and return both the raw bytes and
    /// the decoded state.
    ///
    /// Fails like [`poll`](Self::poll); on success the bytes are those read
    /// and the state is their parse.
    pub fn poll_raw(&mut self) -> (r: Result<(Vec<u8>, InputState), DeviceError>)
        ensures
            match old(self).spec_transport().next_input() {
                Err(e) => r matches Err(DeviceError::Transport(x)) && x == e,
                Ok(bytes) => if bytes.len() < MIN_REPORT_SIZE {
                    r matches Err(DeviceError::Parse(InputParseError::TooShort { expected, got }))
                        && expected == MIN_REPORT_SIZE && got == bytes.len()
                } else {
                    r matches Ok((b, s)) && b@ == bytes && report_state_ok(bytes, s)
                },
            },
            final(self).spec_transport().written() == old(self).spec_transport().written(),
            forall|n: nat| #[trigger] final(self).spec_transport().write_outcome(n) == old(self).spec_transport().write_outcome(n),
    {
        let report = match self.transport.read_input_report() {
            Ok(b) => b,
            Err(e) => return Err(DeviceError::Transport(e)),
        };
        match parse_input_report(report.as_slice()) {
            Ok(state) => Ok((report, state)),
            Err(e) => Err(DeviceError::Parse(e)),
        }
    }

    /// Send a force-feedback effect to the device: writes every report of
    /// [`build_effect_reports`] in order with `write_output_report`, stopping
    /// at the first failed write.
    ///
    /// When every write succeeds the result is `Ok` and the transport has
    /// accepted all of the effect's reports, in order.  When write `k` is the
    /// first to fail, the result is that write's error as
    /// [`DeviceError::Transport`] and the transport has accepted the first
    /// `k` reports.
    pub fn send_ffb_effect(&mut self, effect: &FfbEffect) -> (r: Result<(), DeviceError>)
        requires
            effect_encodable(*effect),
        ensures
            (forall|j: nat| j < effect_reports(*effect).len() ==> (#[trigger] old(self).spec_transport().write_outcome(j)).is_ok())
                ==> r.is_ok(),
            r.is_ok() ==> final(self).spec_transport().written() == old(self).spec_transport().written()
                + effect_reports(*effect),
            r.is_err() ==> exists|k: nat|
                #![trigger old(self).spec_transport().write_outcome(k)]
                k < effect_reports(*effect).len()
                && (forall|j: nat| j < k ==> (#[trigger] old(self).spec_transport().write_outcome(j)).is_ok())
                && r == match old(self).spec_transport().write_outcome(k) {
                    Ok(()) => Ok::<(), DeviceError>(()),
                    Err(e) => Err(DeviceError::Transport(e)),
                }
                && final(self).spec_transport().written() == old(self).spec_transport().written()
                    + effect_reports(*effect).take(k as int),
    {
        let reports = build_effect_reports(effect);
        let ghost start = self.transport.written();
        let ghost t0 = self.transport;
        let ghost rows = byte_rows(reports@);
        let n = reports.len();
        let mut i: usize = 0;
        while i < n
            invariant
                n == reports.len(),
                i <= n,
                rows == byte_rows(reports@),
                rows == effect_reports(*effect),
                start == old(self).spec_transport().written(),
                t0 == old(self).spec_transport(),
                self.transport.written() == start + rows.take(i as int),
                forall|m: nat| #[trigger] self.transport.write_outcome(m) == t0.write_outcome((m + i) as nat),
                forall|j: nat| j < i ==> (#[trigger] t0.write_outcome(j)).is_ok(),
            decreases n - i,
        {
            assert(self.transport.write_outcome(0) == t0.write_outcome(i as nat));
            match self.transport.write_output_report(reports[i].as_slice()) {
                Ok(()) => {
                    assert(rows.take(i as int).push(reports@[i as int]@) =~= rows.take(i + 1));
                    assert forall|m: nat| #[trigger] self.transport.write_outcome(m) == t0.write_outcome(
                        (m + (i + 1)) as nat,
                    ) by {
                        assert(self.transport.write_outcome(m) == t0.write_outcome((m + 1 + i) as nat));
                    }
                },
                Err(e) => {
                    assert(self.transport.written() == start + effect_reports(*effect).take(i as int));
                    let ghost k: nat = i as nat;
                    assert(t0.write_outcome(k) == Err::<(), TransportError>(e));
                    return Err(DeviceError::Transport(e));
                },
            }
            i = i + 1;
        }
        assert(rows.take(n as int) =~= rows);
        Ok(())
    }

    /// Send a force-feedback operation command (start, stop, device gain, …):
    /// writes the report of [`build_operation_report`] with
    /// `write_output_report`.
    ///
    /// The result is that write's: `Ok` with the report accepted, or its
    /// error as [`DeviceError::Transport`] with nothing accepted.
    pub fn send_ffb_operation(&mut self, op: FfbOperation) -> (r: Result<(), DeviceError>)
        ensures
            r == match old(self).spec_transport().write_outcome(0) {
                Ok(()) => Ok::<(), DeviceError>(()),
                Err(e) => Err(DeviceError::Transport(e)),
            },
            r.is_ok() ==> final(self).spec_transport().written() == old(self).spec_transport().written().push(
                operation_report(op),
            ),
            r.is_err() ==> final(self).spec_transport().written() == old(self).spec_transport().written(),
    {
        let report = build_operation_report(op);
        match self.transport.write_output_report(report.as_slice()) {
            Ok(()) => Ok(()),
            Err(e) => Err(DeviceError::Transport(e)),
        }
    }
}

} // verus!
