//! Data source and labels of the settings GUI.
//!
//! The GUI renders [`GuiFrame`]s taken from a backend: either the bridge
//! service over the named pipe, or the joystick opened in-process.  The
//! in-process backend hands frames from the device reader to the render loop
//! through a small bounded queue; the render loop always shows the newest.

use std::collections::VecDeque;
use vstd::prelude::*;
use vstd::string::StringExecFns;

use crate::config::ResponseCurve;
use crate::gui_ipc::GuiFrame;

verus! {

/// Error type for backend operations.
#[derive(Debug, Clone, PartialEq, Eq)]
pub enum BackendError {
    /// The named pipe could not be connected to.
    PipeConnect(String),
    /// The physical device could not be opened.
    DeviceOpen(String),
    /// A background I/O thread failed to start.
    ThreadSpawn(String),
}

/// Abstracts the live-data source for the GUI render loop.
///
/// `poll` is called once per frame (~60 Hz) and must return without blocking.
pub trait GuiBackend {
    /// Return the latest live-state frame, or `None` if no new data has
    /// arrived since the last call.  Non-blocking.
    fn poll(&mut self) -> Option<GuiFrame>;

    /// Return `true` if the underlying data source is still alive.  When this
    /// returns `false` the GUI shows a "reconnecting…" indicator.
    fn is_alive(&self) -> bool;
}

/// Frames the device reader may queue ahead of the render loop; further
/// frames are dropped until the GUI catches up.
pub const EMBEDDED_QUEUE_CAPACITY: usize = 4;

/// Live-data backend that drives the physical joystick in-process.
pub struct EmbeddedBackend {
    frames: VecDeque<GuiFrame>,
    alive: bool,
}

impl EmbeddedBackend {
    /// The frames queued and not yet polled, oldest first.
    pub closed spec fn queued(&self) -> Seq<GuiFrame> {
        self.frames@
    }

    /// Whether the device reader is still running.
    pub closed spec fn spec_alive(&self) -> bool {
        self.alive
    }

    /// The queue never holds more than its capacity.
    pub closed spec fn wf(&self) -> bool {
        self.frames@.len() <= EMBEDDED_QUEUE_CAPACITY
    }

    /// Open the physical Sidewinder device and start streaming frames.
    ///
    /// Direct device access needs the Windows HID stack; this build has no
    /// such access, so it always fails with [`BackendError::DeviceOpen`] and
    /// the GUI falls through to [`disconnected`](Self::disconnected) mode.
    pub fn start(config_path: String) -> (r: Result<Self, BackendError>)
        ensures
            r matches Err(BackendError::DeviceOpen(msg)) && msg@ == "Direct device access is only supported on Windows"@,
    {
        start_impl(config_path)
    }

    /// A backend that immediately reports the disconnected state: nothing
    /// queued, reader not alive.
    pub fn disconnected() -> (b: Self)
        ensures
            b.wf(),
            b.queued().len() == 0,
            !b.spec_alive(),
    {
        EmbeddedBackend { frames: VecDeque::new(), alive: false }
    }

    /// A backend fed by a running device reader: nothing queued yet, alive.
    pub fn streaming() -> (b: Self)
        ensures
            b.wf(),
            b.queued().len() == 0,
            b.spec_alive(),
    {
        EmbeddedBackend { frames: VecDeque::new(), alive: true }
    }

    /// Hand one frame from the device reader to the render loop.  When the
    /// queue is full the frame is dropped and `false` is returned.
    pub fn push_frame(&mut self, frame: GuiFrame) -> (sent: bool)
        requires
            old(self).wf(),
        ensures
            final(self).wf(),
            sent == (old(self).queued().len() < EMBEDDED_QUEUE_CAPACITY),
            sent ==> final(self).queued() == old(self).queued().push(frame),
            !sent ==> final(self).queued() == old(self).queued(),
            final(self).spec_alive() == old(self).spec_alive(),
    {
        if self.frames.len() < EMBEDDED_QUEUE_CAPACITY {
            self.frames.push_back(frame);
            true
        } else {
            false
        }
    }

    /// The device reader stopped (the device failed); the GUI will show the
    /// reconnecting indicator.
    pub fn mark_stopped(&mut self)
        ensures
            !final(self).spec_alive(),
            final(self).queued() == old(self).queued(),
            old(self).wf() ==> final(self).wf(),
    {
        self.alive = false;
    }
}

impl GuiBackend for EmbeddedBackend {
    /// Drain all queued frames and return the latest; non-blocking.
    fn poll(&mut self) -> (r: Option<GuiFrame>)
        ensures
            old(self).queued().len() == 0 ==> r.is_none(),
            old(self).queued().len() > 0 ==> r == Some(old(self).queued().last()),
            final(self).queued().len() == 0,
            final(self).spec_alive() == old(self).spec_alive(),
            final(self).wf(),
    {
        let mut latest: Option<GuiFrame> = None;
        let ghost q0 = self.frames@;
        while self.frames.len() > 0
            invariant
                self.frames@.len() <= q0.len(),
                self.frames@ == q0.subrange(q0.len() - self.frames@.len(), q0.len() as int),
                self.frames@.len() == q0.len() ==> latest.is_none(),
                self.frames@.len() < q0.len() ==> latest == Some(q0[q0.len() - self.frames@.len() - 1]),
                self.alive == old(self).alive,
            decreases self.frames@.len(),
        {
            latest = self.frames.pop_front();
        }
        latest
    }

    fn is_alive(&self) -> (b: bool)
        ensures
            b == self.spec_alive(),
    {
        self.alive
    }
}

/// Open the joystick in-process: unavailable in this build.
fn start_impl(config_path: String) -> (r: Result<EmbeddedBackend, BackendError>)
    ensures
        r matches Err(BackendError::DeviceOpen(msg)) && msg@ == "Direct device access is only supported on Windows"@,
{
    let _ = config_path;
    Err(BackendError::DeviceOpen(String::from_str("Direct device access is only supported on Windows")))
}

// ── Labels ────────────────────────────────────────────────────────────────────

/// The dashboard label of a hat value: compass point for 0–7, a dash otherwise.
pub open spec fn pov_label_text(pov: u8) -> Seq<char> {
    if pov == 0 {
        "N"@
    } else if pov == 1 {
        "NE"@
    } else if pov == 2 {
        "E"@
    } else if pov == 3 {
        "SE"@
    } else if pov == 4 {
        "S"@
    } else if pov == 5 {
        "SW"@
    } else if pov == 6 {
        "W"@
    } else if pov == 7 {
        "NW"@
    } else {
        "\u{2014}"@
    }
}

/// The dashboard label of a hat value.
pub fn pov_label(pov: u8) -> (s: &'static str)
    ensures
        s@ == pov_label_text(pov),
{
    match pov {
        0 => "N",
        1 => "NE",
        2 => "E",
        3 => "SE",
        4 => "S",
        5 => "SW",
        6 => "W",
        7 => "NW",
        _ => "\u{2014}",
    }
}

/// The display name of a response curve.
pub open spec fn curve_label_text(curve: ResponseCurve) -> Seq<char> {
    match curve {
        ResponseCurve::Linear => "Linear"@,
        ResponseCurve::Quadratic => "Quadratic (x\u{b2})"@,
        ResponseCurve::Cubic => "Cubic (x\u{b3})"@,
        ResponseCurve::SCurve => "S-Curve"@,
    }
}

/// The display name of a response curve.
pub fn curve_label(curve: ResponseCurve) -> (s: &'static str)
    ensures
        s@ == curve_label_text(curve),
{
    match curve {
        ResponseCurve::Linear => "Linear",
        ResponseCurve::Quadratic => "Quadratic (x\u{b2})",
        ResponseCurve::Cubic => "Cubic (x\u{b3})",
        ResponseCurve::SCurve => "S-Curve",
    }
}

/// The config-file spelling of a response curve.
pub open spec fn curve_toml_text(curve: ResponseCurve) -> Seq<char> {
    match curve {
        ResponseCurve::Linear => "linear"@,
        ResponseCurve::Quadratic => "quadratic"@,
        ResponseCurve::Cubic => "cubic"@,
        ResponseCurve::SCurve => "s-curve"@,
    }
}

/// The config-file spelling of a response curve.
pub fn curve_toml_str(curve: ResponseCurve) -> (s: &'static str)
    ensures
        s@ == curve_toml_text(curve),
{
    match curve {
        ResponseCurve::Linear => "linear",
        ResponseCurve::Quadratic => "quadratic",
        ResponseCurve::Cubic => "cubic",
        ResponseCurve::SCurve => "s-curve",
    }
}

} // verus!
