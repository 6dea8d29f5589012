//! Decisions of the input and force-feedback bridge loops.
//!
//! The service polls the physical joystick, maps buttons and the hat through
//! the configuration, and pushes the result to the virtual device; in the
//! other direction it forwards force-feedback reports from the driver to the
//! joystick.  This module holds every decision of those loops; the loops
//! themselves (blocking reads, sleeps, channels) run in the service.

use vstd::prelude::*;

use crate::bits::{bit16, bit32, lemma_bit32_zero, set_bit32, u16_bit};
use crate::config::{hat_button, window_for, ButtonMapConfig, HatConfig, LayerConfig, smoothing_window, BUTTON_COUNT, BUTTON_COUNT_U8, VIRTUAL_BUTTON_COUNT};
use crate::ffb::{build_operation_report, operation_report, FfbOperation, REPORT_ID_DEVICE_GAIN};
use crate::gui_ipc::GuiFrame;
use crate::status::ConnectionStatus;
use crate::input::{pov_index, push_outcome, InputState, SmoothingBuffer};

verus! {

// ── GuiFrame helpers ──────────────────────────────────────────────────────────

/// Build a [`GuiFrame`] from a raw [`InputState`] and the config scalars.
pub fn gui_frame_from_input(state: &InputState, connected: bool, ffb_enabled: bool, ffb_gain: u8) -> (f: GuiFrame)
    ensures
        f.axes@ == state.axes@,
        f.buttons == state.buttons,
        f.pov == pov_index(state.pov),
        f.connected == if connected { 1u8 } else { 0u8 },
        f.ffb_enabled == if ffb_enabled { 1u8 } else { 0u8 },
        f.ffb_gain == ffb_gain,
{
    GuiFrame {
        axes: state.axes,
        buttons: state.buttons,
        pov: state.pov.index(),
        connected: if connected { 1 } else { 0 },
        ffb_enabled: if ffb_enabled { 1 } else { 0 },
        ffb_gain,
    }
}

/// Build the frame the GUI pipe sends: the latest input state, the
/// configured force-feedback scalars, and whether the joystick is connected.
pub fn build_gui_frame(state: &InputState, ffb_enabled: bool, ffb_gain: u8, status: ConnectionStatus) -> (f: GuiFrame)
    ensures
        f.axes@ == state.axes@,
        f.buttons == state.buttons,
        f.pov == pov_index(state.pov),
        f.connected == if status == ConnectionStatus::Connected { 1u8 } else { 0u8 },
        f.ffb_enabled == if ffb_enabled { 1u8 } else { 0u8 },
        f.ffb_gain == ffb_gain,
{
    let connected = match status {
        ConnectionStatus::Connected => true,
        ConnectionStatus::Disconnected => false,
    };
    gui_frame_from_input(state, connected, ffb_enabled, ffb_gain)
}

// ── Gain scaling ──────────────────────────────────────────────────────────────

/// Scale a raw HID Device Gain byte by the user-configured gain factor:
/// `packet_gain × ffb_gain / 255`, rounded down.
pub fn scale_gain(packet_gain: u8, ffb_gain: u8) -> (g: u8)
    ensures
        g == (packet_gain as int * ffb_gain as int) / 255,
{
    proof {
        assert((packet_gain as int * ffb_gain as int) / 255 <= 255) by (nonlinear_arith)
            requires
                0 <= packet_gain <= 255,
                0 <= ffb_gain <= 255,
        ;
    }
    ((packet_gain as u32 * ffb_gain as u32) / 255) as u8
}

/// Gain scaling never exceeds the byte range, silences everything when
/// either gain is zero, passes the packet gain through at full configured
/// gain, and never raises the packet gain.
pub proof fn lemma_scale_gain_laws(packet_gain: u8, ffb_gain: u8)
    ensures
        (packet_gain as int * ffb_gain as int) / 255 <= 255,
        (packet_gain as int * ffb_gain as int) / 255 <= packet_gain,
        ffb_gain == 0 ==> (packet_gain as int * ffb_gain as int) / 255 == 0,
        packet_gain == 0 ==> (packet_gain as int * ffb_gain as int) / 255 == 0,
        ffb_gain == 255 ==> (packet_gain as int * ffb_gain as int) / 255 == packet_gain,
{
    assert((packet_gain as int * ffb_gain as int) / 255 <= packet_gain) by (nonlinear_arith)
        requires
            0 <= packet_gain <= 255,
            0 <= ffb_gain <= 255,
    ;
    assert(ffb_gain == 255 ==> (packet_gain as int * ffb_gain as int) / 255 == packet_gain) by (nonlinear_arith)
        requires
            0 <= packet_gain <= 255,
    ;
    assert(ffb_gain == 0 ==> (packet_gain as int * ffb_gain as int) / 255 == 0) by (nonlinear_arith);
    assert(packet_gain == 0 ==> (packet_gain as int * ffb_gain as int) / 255 == 0) by (nonlinear_arith);
}

/// The report forwarded to the joystick for a report pulled from the driver:
/// nothing while force feedback is disabled; a Device Gain report with its
/// gain byte scaled by the configured gain; any other report unchanged (a
/// Device Gain report too short to carry a gain byte is forwarded raw).
pub open spec fn forwarded_report(report: Seq<u8>, ffb_enabled: bool, ffb_gain: u8) -> Option<Seq<u8>> {
    if !ffb_enabled {
        None
    } else if report.len() >= 2 && report[0] == REPORT_ID_DEVICE_GAIN {
        Some(report.update(1, ((report[1] as int * ffb_gain as int) / 255) as u8))
    } else {
        Some(report)
    }
}

/// Decide what to forward to the joystick for one report pulled from the driver.
pub fn forward_ffb_report(report: Vec<u8>, ffb_enabled: bool, ffb_gain: u8) -> (out: Option<Vec<u8>>)
    ensures
        match (out, forwarded_report(report@, ffb_enabled, ffb_gain)) {
            (Some(o), Some(e)) => o@ == e,
            (None, None) => true,
            _ => false,
        },
{
    if !ffb_enabled {
        return None;
    }
    let mut report = report;
    if report.len() >= 2 && report[0] == REPORT_ID_DEVICE_GAIN {
        let scaled = scale_gain(report[1], ffb_gain);
        report.set(1, scaled);
    }
    Some(report)
}

// ── Actuator enable state ─────────────────────────────────────────────────────

/// What the force-feedback loop last told the joystick about its actuators.
///
/// Starts as "enabled" (the configuration default).  When the enable flag in
/// the configuration differs from what was last sent, a Device Control report
/// is due; after a reconnect the command is sent again for the new handle.
pub struct ActuatorState {
    last_sent: bool,
}

impl ActuatorState {
    /// The enable state last confirmed as sent.
    pub closed spec fn sent(&self) -> bool {
        self.last_sent
    }

    /// Fresh state: actuators assumed enabled.
    pub fn new() -> (s: Self)
        ensures
            s.sent(),
    {
        ActuatorState { last_sent: true }
    }

    /// The joystick handle changed: force the current command to be resent.
    pub fn transport_changed(&mut self)
        ensures
            final(self).sent() == !old(self).sent(),
    {
        self.last_sent = !self.last_sent;
    }

    /// The Device Control report that is due for the configured enable flag, if any.
    pub fn pending_report(&self, ffb_enabled: bool) -> (r: Option<Vec<u8>>)
        ensures
            ffb_enabled == self.sent() ==> r.is_none(),
            ffb_enabled != self.sent() ==> r.is_some() && r.unwrap()@ == operation_report(
                FfbOperation::EnableActuators { enable: ffb_enabled },
            ),
    {
        if ffb_enabled != self.last_sent {
            Some(build_operation_report(FfbOperation::EnableActuators { enable: ffb_enabled }))
        } else {
            None
        }
    }

    /// Record that the command for `ffb_enabled` reached the joystick.  A
    /// failed write is not recorded, so the command is retried next time.
    pub fn confirm_sent(&mut self, ffb_enabled: bool)
        ensures
            final(self).sent() == ffb_enabled,
    {
        self.last_sent = ffb_enabled;
    }
}

// ── Button, layer and hat mapping ─────────────────────────────────────────────

/// Whether the layer shift button is held in a physical button word.
pub open spec fn shift_held(shift_button: u8, buttons: u16) -> bool {
    shift_button > 0 && shift_button - 1 < 16 && bit16(buttons, shift_button - 1)
}

/// Whether some pressed physical button below `k`, other than `skip`, maps
/// to virtual button `v` through `map`.
pub open spec fn mapped_press(map: ButtonMapConfig, buttons: u16, k: int, skip: Option<int>, v: int) -> bool
    decreases k,
{
    if k <= 0 {
        false
    } else {
        ||| (bit16(buttons, k - 1) && Some(k - 1) != skip && map.target((k - 1) as u8) == v)
        ||| mapped_press(map, buttons, k - 1, skip, v)
    }
}

/// Whether virtual button `v` is pressed after mapping: with the shift button
/// held, layer 2 applies and the shift button itself is consumed; otherwise
/// layer 1 applies.  In hat-as-buttons mode the hat direction's button fires
/// too.  Only virtual buttons 0–31 exist.
pub open spec fn virtual_pressed(buttons_cfg: ButtonMapConfig, layer: LayerConfig, hat: HatConfig, state: InputState, v: int) -> bool {
    let held = shift_held(layer.shift_button, state.buttons);
    let map = if held { layer.buttons } else { buttons_cfg };
    let skip = if held { Some(layer.shift_button - 1) } else { None::<int> };
    &&& 0 <= v < 32
    &&& mapped_press(map, state.buttons, BUTTON_COUNT as int, skip, v)
        || (hat.as_buttons && hat_button(hat, state.pov) == Some(v as u8))
}

/// The hat value reported to the virtual device: centred in hat-as-buttons
/// mode, else the direction index.
pub open spec fn mapped_pov(hat: HatConfig, state: InputState) -> u8 {
    if hat.as_buttons { 0xFF } else { pov_index(state.pov) }
}

/// Map the physical buttons and hat through the configuration: returns the
/// virtual button word and the hat value for the virtual device.
pub fn map_buttons(buttons_cfg: &ButtonMapConfig, layer: &LayerConfig, hat: &HatConfig, state: &InputState) -> (r: (u32, u8))
    ensures
        forall|v: int| #[trigger] bit32(r.0, v) == virtual_pressed(*buttons_cfg, *layer, *hat, *state, v),
        r.1 == mapped_pov(*hat, *state),
{
    let shift_idx: u8 = if layer.shift_button > 0 { layer.shift_button - 1 } else { 0 };
    let held = layer.shift_button > 0 && shift_idx < 16 && u16_bit(state.buttons, shift_idx);
    let map = if held { &layer.buttons } else { buttons_cfg };
    let ghost skip = if held { Some(layer.shift_button - 1) } else { None::<int> };
    let mut buttons: u32 = 0;
    let mut phys: u8 = 0;
    proof {
        lemma_bit32_zero();
    }
    while phys < BUTTON_COUNT_U8
        invariant
            phys <= BUTTON_COUNT_U8,
            held == shift_held(layer.shift_button, state.buttons),
            held ==> shift_idx == layer.shift_button - 1,
            skip == if held { Some(layer.shift_button - 1) } else { None::<int> },
            *map == if held { layer.buttons } else { *buttons_cfg },
            forall|v: int| #[trigger] bit32(buttons, v) == (0 <= v < 32 && mapped_press(*map, state.buttons, phys as int, skip, v)),
        decreases BUTTON_COUNT_U8 - phys,
    {
        let pressed = u16_bit(state.buttons, phys);
        if pressed && !(held && phys == shift_idx) {
            let virt = map.virtual_for(phys);
            if virt < VIRTUAL_BUTTON_COUNT {
                buttons = set_bit32(buttons, virt as u32);
            }
        }
        phys = phys + 1;
    }
    let pov = if hat.as_buttons {
        match hat.button_for(state.pov) {
            Some(btn) => {
                if btn < VIRTUAL_BUTTON_COUNT {
                    buttons = set_bit32(buttons, btn as u32);
                }
            },
            None => {},
        }
        0xFF
    } else {
        state.pov.index()
    };
    (buttons, pov)
}

// ── Per-axis smoothing ────────────────────────────────────────────────────────

/// Per-axis rolling-average smoothing buffers for the input loop.
pub struct AxisSmoothing {
    pub x: SmoothingBuffer,
    pub y: SmoothingBuffer,
    pub rz: SmoothingBuffer,
    pub slider: SmoothingBuffer,
}

impl AxisSmoothing {
    /// All four buffers are well formed with windows of at most `SMOOTHING_MAX`.
    pub open spec fn wf(&self) -> bool {
        &&& self.x.wf() && self.x.spec_window() <= 30
        &&& self.y.wf() && self.y.spec_window() <= 30
        &&& self.rz.wf() && self.rz.spec_window() <= 30
        &&& self.slider.wf() && self.slider.spec_window() <= 30
    }

    /// Fresh buffers for the configured smoothing of each axis (X, Y, Rz,
    /// Slider), each window clamped to `1..=SMOOTHING_MAX`.
    pub fn from_smoothing(x: u8, y: u8, rz: u8, slider: u8) -> (s: Self)
        ensures
            s.wf(),
            s.x.spec_window() == window_for(x) && s.x.samples().len() == 0,
            s.y.spec_window() == window_for(y) && s.y.samples().len() == 0,
            s.rz.spec_window() == window_for(rz) && s.rz.samples().len() == 0,
            s.slider.spec_window() == window_for(slider) && s.slider.samples().len() == 0,
    {
        AxisSmoothing {
            x: SmoothingBuffer::new(smoothing_window(x)),
            y: SmoothingBuffer::new(smoothing_window(y)),
            rz: SmoothingBuffer::new(smoothing_window(rz)),
            slider: SmoothingBuffer::new(smoothing_window(slider)),
        }
    }

    /// Whether the buffer windows equal the configured smoothing values as
    /// given (an out-of-range value never matches, so the buffers are rebuilt).
    pub fn smoothing_matches(&self, x: u8, y: u8, rz: u8, slider: u8) -> (b: bool)
        ensures
            b == (self.x.spec_window() == x && self.y.spec_window() == y && self.rz.spec_window() == rz && self.slider.spec_window() == slider),
    {
        self.x.window() == x as usize && self.y.window() == y as usize && self.rz.window() == rz as usize
            && self.slider.window() == slider as usize
    }

    /// Smooth the four device axes of a state (the other slots pass through).
    pub fn smooth(&mut self, state: InputState) -> (out: InputState)
        requires
            old(self).wf(),
        ensures
            final(self).wf(),
            out.buttons == state.buttons,
            out.pov == state.pov,
            forall|i: int| 4 <= i < 8 ==> #[trigger] out.axes@[i] == state.axes@[i],
            push_outcome(old(self).x, final(self).x, state.axes@[0], out.axes@[0]),
            push_outcome(old(self).y, final(self).y, state.axes@[1], out.axes@[1]),
            push_outcome(old(self).rz, final(self).rz, state.axes@[2], out.axes@[2]),
            push_outcome(old(self).slider, final(self).slider, state.axes@[3], out.axes@[3]),
            old(self).x.spec_window() == final(self).x.spec_window(),
            old(self).y.spec_window() == final(self).y.spec_window(),
            old(self).rz.spec_window() == final(self).rz.spec_window(),
            old(self).slider.spec_window() == final(self).slider.spec_window(),
    {
        let mut out = state;
        out.axes[0] = self.x.push(state.axes[0]);
        out.axes[1] = self.y.push(state.axes[1]);
        out.axes[2] = self.rz.push(state.axes[2]);
        out.axes[3] = self.slider.push(state.axes[3]);
        out
    }
}

} // verus!
