//! Logic of the diagnostic tool: the report text, the status line, the event
//! log, the demo report synthesis and the small view computations of the
//! terminal UI.  Terminal drawing, the clock and the device threads live in
//! the tool itself.

use std::collections::VecDeque;
use vstd::prelude::*;
use vstd::string::StringExecFns;

use crate::bits::bit16;
use crate::bytes::{i16_lo, i16_hi, u16_lo, u16_hi};
use crate::input::{pov_from_raw, report_state_ok, InputState, PovDirection};
use crate::text::{civil_date, civil_from_days, lemma_civil_date_bounds, lemma_padded_len, padded, pow10, push_padded};

verus! {

// ── Timestamp ─────────────────────────────────────────────────────────────────

/// `YYYY-MM-DD HH:MM:SS UTC` for a Unix time in seconds.
pub open spec fn timestamp_text(secs: nat) -> Seq<char> {
    let date = civil_date(secs / 86400);
    padded(date.0, 4) + "-"@ + padded(date.1, 2) + "-"@ + padded(date.2, 2) + " "@
        + padded((secs / 3600) % 24, 2) + ":"@ + padded((secs / 60) % 60, 2) + ":"@
        + padded(secs % 60, 2) + " UTC"@
}

/// Append the UTC timestamp of `secs`.
fn push_timestamp(out: &mut String, secs: u64)
    ensures
        final(out)@ == old(out)@ + timestamp_text(secs as nat),
{
    let ghost start = out@;
    let (year, month, day) = civil_from_days(secs / 86400);
    push_padded(out, year, 4);
    out.append("-");
    push_padded(out, month, 2);
    out.append("-");
    push_padded(out, day, 2);
    out.append(" ");
    push_padded(out, (secs / 3600) % 24, 2);
    out.append(":");
    push_padded(out, (secs / 60) % 60, 2);
    out.append(":");
    push_padded(out, secs % 60, 2);
    out.append(" UTC");
    assert(out@ =~= start + timestamp_text(secs as nat));
}

/// Up to year 9999 the timestamp has the fixed shape `YYYY-MM-DD HH:MM:SS UTC`:
/// 23 characters with the separators at fixed positions.
pub proof fn lemma_timestamp_shape(secs: nat)
    requires
        civil_date(secs / 86400).0 < 10000,
    ensures
        timestamp_text(secs).len() == 23,
        timestamp_text(secs)[4] == '-',
        timestamp_text(secs)[7] == '-',
        timestamp_text(secs)[10] == ' ',
        timestamp_text(secs)[13] == ':',
        timestamp_text(secs)[16] == ':',
        timestamp_text(secs).subrange(19, 23) == " UTC"@,
{
    let date = civil_date(secs / 86400);
    lemma_civil_date_bounds(secs / 86400);
    assert(pow10(4) == 10000 && pow10(2) == 100) by {
        reveal_with_fuel(pow10, 5);
    }
    lemma_padded_len(date.0, 4);
    lemma_padded_len(date.1, 2);
    lemma_padded_len(date.2, 2);
    lemma_padded_len((secs / 3600) % 24, 2);
    lemma_padded_len((secs / 60) % 60, 2);
    lemma_padded_len(secs % 60, 2);
    reveal_strlit("-");
    reveal_strlit(" ");
    reveal_strlit(":");
    reveal_strlit(" UTC");
    let t = timestamp_text(secs);
    assert(t.subrange(19, 23) =~= " UTC"@);
}

/// Format a Unix time (seconds since 1970-01-01 00:00:00 UTC) as a
/// human-readable UTC timestamp: `2026-04-10 14:22:33 UTC`.
pub fn human_timestamp(secs: u64) -> (s: String)
    ensures
        s@ == timestamp_text(secs as nat),
{
    let mut out = String::new();
    push_timestamp(&mut out, secs);
    out
}

// ── Diagnostic report ─────────────────────────────────────────────────────────

/// Friendly header that appears at the top of every diagnostic report.
pub open spec fn header_text() -> Seq<char> {
    "=== Sideblinder Diagnostic Report ===\nThis report helps diagnose connection problems.\nPlease copy everything below and paste it into your bug report.\n========================================="@
}

/// Friendly header that appears at the top of every diagnostic report.
pub fn report_header() -> (s: &'static str)
    ensures
        s@ == header_text(),
{
    "=== Sideblinder Diagnostic Report ===\nThis report helps diagnose connection problems.\nPlease copy everything below and paste it into your bug report.\n========================================="
}

/// The diagnostic report of a host without device access, written at Unix
/// time `secs` on `platform`.
pub open spec fn report_text(secs: nat, platform: Seq<char>) -> Seq<char> {
    header_text() + "\n"@ + "--- System Info ---\n"@ + "Timestamp: "@ + timestamp_text(secs) + "\n"@
        + "Platform:  "@ + platform + "\n"@ + "\n"@ + "--- Device Detection ---\n"@
        + "Device access requires Windows with the Sideblinder driver installed.\n"@
        + "Run this tool on Windows to capture full hardware diagnostics.\n"@ + "\n"@
        + "--- Driver Status ---\n"@ + "Driver detection requires Windows.\n"@
}

/// Build the diagnostic report of a host without device access: header,
/// system info (timestamp and platform), and the device and driver sections
/// explaining that detection needs Windows.
pub fn build_diagnostic_report(secs: u64, platform: &str) -> (r: String)
    ensures
        r@ == report_text(secs as nat, platform@),
{
    let mut out = String::new();
    out.append(report_header());
    out.append("\n");
    out.append("--- System Info ---\n");
    out.append("Timestamp: ");
    push_timestamp(&mut out, secs);
    out.append("\n");
    out.append("Platform:  ");
    out.append(platform);
    out.append("\n");
    out.append("\n");
    out.append("--- Device Detection ---\n");
    out.append("Device access requires Windows with the Sideblinder driver installed.\n");
    out.append("Run this tool on Windows to capture full hardware diagnostics.\n");
    out.append("\n");
    out.append("--- Driver Status ---\n");
    out.append("Driver detection requires Windows.\n");
    assert(out@ =~= report_text(secs as nat, platform@));
    out
}

/// A human-readable reason for the Win32 error codes most often seen while
/// probing the device; `"unknown error"` for the others.
pub open spec fn win32_error_text(code: u32) -> Seq<char> {
    if code == 0 {
        "success"@
    } else if code == 2 {
        "device not found"@
    } else if code == 3 {
        "path not found"@
    } else if code == 5 {
        "access denied (try running as administrator)"@
    } else if code == 6 {
        "invalid handle"@
    } else if code == 0x20 {
        "sharing violation (device already open by another process)"@
    } else if code == 0x6E {
        "broken pipe (device disconnected during read)"@
    } else if code == 0xE8 {
        "no data available (device not ready)"@
    } else {
        "unknown error"@
    }
}

/// Translate a Win32 error code into a human-readable reason.
pub fn translate_win32_error(code: u32) -> (s: &'static str)
    ensures
        s@ == win32_error_text(code),
{
    match code {
        0x0000_0000 => "success",
        0x0000_0002 => "device not found",
        0x0000_0003 => "path not found",
        0x0000_0005 => "access denied (try running as administrator)",
        0x0000_0006 => "invalid handle",
        0x0000_0020 => "sharing violation (device already open by another process)",
        0x0000_006E => "broken pipe (device disconnected during read)",
        0x0000_00E8 => "no data available (device not ready)",
        _ => "unknown error",
    }
}

// ── Shared state ──────────────────────────────────────────────────────────────

/// Maximum number of entries retained in the scrolling event log.
pub const EVENT_LOG_CAPACITY: usize = 200;

/// Live state shared between the polling thread and the render loop.
#[derive(Debug, Clone)]
pub struct DiagState {
    pub input: InputState,
    pub ffb_gain: u8,
    pub active_effects: Vec<u8>,
    pub error: Option<String>,
    /// Timestamp-tagged event log: `(elapsed_ms, description)`.
    pub event_log: VecDeque<(u64, String)>,
    /// VID:PID and report byte length, set at open time.
    pub device_info: Option<String>,
    /// Last raw HID report bytes (for the `raw` view).
    pub raw_bytes: Option<(u64, Vec<u8>)>,
}

impl Default for DiagState {
    fn default() -> (s: Self)
        ensures
            s.input.buttons == 0 && s.input.pov == PovDirection::Center,
            s.ffb_gain == 255,
            s.active_effects@.len() == 0,
            s.error.is_none(),
            s.event_log@.len() == 0,
            s.device_info.is_none(),
            s.raw_bytes.is_none(),
    {
        DiagState {
            input: InputState::default(),
            ffb_gain: 255,
            active_effects: Vec::new(),
            error: None,
            event_log: VecDeque::new(),
            device_info: None,
            raw_bytes: None,
        }
    }
}

/// The status bar text: the error when there is one, else the device info
/// (when known) and the mode.
pub open spec fn status_bar_text(error: Option<String>, device_info: Option<String>, mode: Seq<char>) -> Seq<char> {
    match error {
        Some(e) => " [ERROR: "@ + e@ + "]  q/Esc = quit"@,
        None => " "@ + match device_info {
            Some(info) => info@ + " | "@,
            None => Seq::empty(),
        } + mode + "   q/Esc = quit"@,
    }
}

/// Build the status bar text, prepending device info when available.
///
/// Format: `[VID:PID] InputReportByteLength=N | <mode>   q/Esc = quit`; an
/// error replaces everything.
pub fn build_status(s: &DiagState, mode: &str) -> (r: String)
    ensures
        r@ == status_bar_text(s.error, s.device_info, mode@),
{
    let mut out = String::new();
    match &s.error {
        Some(e) => {
            out.append(" [ERROR: ");
            out.append(e.as_str());
            out.append("]  q/Esc = quit");
        },
        None => {
            out.append(" ");
            match &s.device_info {
                Some(info) => {
                    out.append(info.as_str());
                    out.append(" | ");
                },
                None => {},
            }
            out.append(mode);
            out.append("   q/Esc = quit");
        },
    }
    assert(out@ =~= status_bar_text(s.error, s.device_info, mode@));
    out
}

// ── Event log ─────────────────────────────────────────────────────────────────

/// The log after appending an entry: the oldest entry leaves once the log is
/// at capacity.
pub open spec fn log_after_push(log: Seq<(u64, String)>, entry: (u64, String)) -> Seq<(u64, String)> {
    if log.len() >= EVENT_LOG_CAPACITY {
        log.drop_first().push(entry)
    } else {
        log.push(entry)
    }
}

/// Append an entry to the event log, capping the log at [`EVENT_LOG_CAPACITY`].
pub fn push_event(log: &mut VecDeque<(u64, String)>, elapsed_ms: u64, msg: String)
    ensures
        final(log)@ == log_after_push(old(log)@, (elapsed_ms, msg)),
        old(log)@.len() <= EVENT_LOG_CAPACITY ==> final(log)@.len() <= EVENT_LOG_CAPACITY,
        final(log)@.last() == (elapsed_ms, msg),
{
    if log.len() >= EVENT_LOG_CAPACITY {
        let _ = log.pop_front();
    }
    log.push_back((elapsed_ms, msg));
}

// ── Button and hat events ─────────────────────────────────────────────────────

/// Number of physical buttons the event log watches.
pub const WATCHED_BUTTONS: u8 = 9;

/// The button transitions between two button words, lowest button first:
/// `(index, pressed)` for every watched button whose bit differs.
pub open spec fn button_changes_spec(prev: u16, now: u16, k: int) -> Seq<(u8, bool)>
    decreases k,
{
    if k <= 0 {
        Seq::empty()
    } else if bit16(prev, k - 1) != bit16(now, k - 1) {
        button_changes_spec(prev, now, k - 1).push(((k - 1) as u8, bit16(now, k - 1)))
    } else {
        button_changes_spec(prev, now, k - 1)
    }
}

/// List the watched buttons whose state differs between `prev` and `now`,
/// with their new state.
pub fn button_changes(prev: u16, now: u16) -> (r: Vec<(u8, bool)>)
    ensures
        r@ == button_changes_spec(prev, now, WATCHED_BUTTONS as int),
{
    let mut r: Vec<(u8, bool)> = Vec::new();
    let mut bit: u8 = 0;
    while bit < WATCHED_BUTTONS
        invariant
            bit <= WATCHED_BUTTONS,
            r@ == button_changes_spec(prev, now, bit as int),
        decreases WATCHED_BUTTONS - bit,
    {
        let was = crate::bits::u16_bit(prev, bit);
        let is = crate::bits::u16_bit(now, bit);
        if was != is {
            r.push((bit, is));
        }
        bit = bit + 1;
    }
    r
}

// ── Demo report synthesis ─────────────────────────────────────────────────────

/// The hat nibble of a direction: 0 = North clockwise to 7 = North-West, and
/// the null value 0x0F for the centred state.
pub open spec fn nibble_of(pov: PovDirection) -> u8 {
    match pov {
        PovDirection::Center => 0x0F,
        PovDirection::North => 0x00,
        PovDirection::NorthEast => 0x01,
        PovDirection::East => 0x02,
        PovDirection::SouthEast => 0x03,
        PovDirection::South => 0x04,
        PovDirection::SouthWest => 0x05,
        PovDirection::West => 0x06,
        PovDirection::NorthWest => 0x07,
    }
}

/// Encode a [`PovDirection`] as the 4-bit value used in the HID report.
pub fn pov_to_nibble(pov: PovDirection) -> (n: u8)
    ensures
        n == nibble_of(pov),
        pov_from_raw(n) == pov,
{
    match pov {
        PovDirection::Center => 0x0F,
        PovDirection::North => 0x00,
        PovDirection::NorthEast => 0x01,
        PovDirection::East => 0x02,
        PovDirection::SouthEast => 0x03,
        PovDirection::South => 0x04,
        PovDirection::SouthWest => 0x05,
        PovDirection::West => 0x06,
        PovDirection::NorthWest => 0x07,
    }
}

/// The 11-byte report the demo synthesises for a state: the four device axes
/// and the button word little-endian, then the hat nibble.
pub open spec fn demo_report(s: InputState) -> Seq<u8> {
    seq![
        i16_lo(s.axes@[0]), i16_hi(s.axes@[0]),
        i16_lo(s.axes@[1]), i16_hi(s.axes@[1]),
        i16_lo(s.axes@[2]), i16_hi(s.axes@[2]),
        i16_lo(s.axes@[3]), i16_hi(s.axes@[3]),
        u16_lo(s.buttons), u16_hi(s.buttons),
        nibble_of(s.pov),
    ]
}

/// Build a synthetic 11-byte HID report from an input state, in the layout
/// the parser reads.
pub fn synthesize_demo_report(input: &InputState) -> (r: Vec<u8>)
    ensures
        r@ == demo_report(*input),
{
    let (x0, x1) = crate::bytes::i16_to_le(input.axes[0]);
    let (y0, y1) = crate::bytes::i16_to_le(input.axes[1]);
    let (r0, r1) = crate::bytes::i16_to_le(input.axes[2]);
    let (s0, s1) = crate::bytes::i16_to_le(input.axes[3]);
    let (b0, b1) = crate::bytes::u16_to_le(input.buttons);
    let buf = vec![x0, x1, y0, y1, r0, r1, s0, s1, b0, b1, pov_to_nibble(input.pov)];
    assert(buf@ =~= demo_report(*input));
    buf
}

/// A synthesised report parses back to the state it was made from, whenever
/// the state's unused axis slots are zero (as every parsed state's are).
pub proof fn lemma_demo_report_roundtrip(s: InputState)
    requires
        s.axes@[4] == 0 && s.axes@[5] == 0 && s.axes@[6] == 0 && s.axes@[7] == 0,
    ensures
        demo_report(s).len() == 11,
        report_state_ok(demo_report(s), s),
{
    let r = demo_report(s);
    assert forall|k: int| 0 <= k < 4 implies crate::bytes::i16_le(i16_lo(#[trigger] s.axes@[k]), i16_hi(s.axes@[k])) == s.axes@[k] by {
        let v = s.axes@[k];
        let b = crate::bytes::i16_bits(v);
        assert(0 <= b < 0x1_0000);
    }
    assert(crate::bytes::u16_le(u16_lo(s.buttons), u16_hi(s.buttons)) == s.buttons);
    assert(pov_from_raw(nibble_of(s.pov)) == s.pov);
}

// ── Terminal view computations ───────────────────────────────────────────────

/// The hat cells lit for a direction, in the order (NW, N, NE, W, Centre, E,
/// SW, S, SE): exactly the cell of the direction.
pub open spec fn pov_cell_index(pov: PovDirection) -> int {
    match pov {
        PovDirection::NorthWest => 0,
        PovDirection::North => 1,
        PovDirection::NorthEast => 2,
        PovDirection::West => 3,
        PovDirection::Center => 4,
        PovDirection::East => 5,
        PovDirection::SouthWest => 6,
        PovDirection::South => 7,
        PovDirection::SouthEast => 8,
    }
}

/// Returns (NW, N, NE, W, Centre, E, SW, S, SE) — true if that cell is lit.
pub fn pov_cells(pov: PovDirection) -> (c: (bool, bool, bool, bool, bool, bool, bool, bool, bool))
    ensures
        c.0 == (pov_cell_index(pov) == 0),
        c.1 == (pov_cell_index(pov) == 1),
        c.2 == (pov_cell_index(pov) == 2),
        c.3 == (pov_cell_index(pov) == 3),
        c.4 == (pov_cell_index(pov) == 4),
        c.5 == (pov_cell_index(pov) == 5),
        c.6 == (pov_cell_index(pov) == 6),
        c.7 == (pov_cell_index(pov) == 7),
        c.8 == (pov_cell_index(pov) == 8),
{
    match pov {
        PovDirection::Center => (false, false, false, false, true, false, false, false, false),
        PovDirection::North => (false, true, false, false, false, false, false, false, false),
        PovDirection::NorthEast => (false, false, true, false, false, false, false, false, false),
        PovDirection::East => (false, false, false, false, false, true, false, false, false),
        PovDirection::SouthEast => (false, false, false, false, false, false, false, false, true),
        PovDirection::South => (false, false, false, false, false, false, false, true, false),
        PovDirection::SouthWest => (false, false, false, false, false, false, true, false, false),
        PovDirection::West => (false, false, false, true, false, false, false, false, false),
        PovDirection::NorthWest => (true, false, false, false, false, false, false, false, false),
    }
}

/// Device gain as a percentage, rounded to the nearest percent.
pub fn gain_percent(gain: u8) -> (p: u16)
    ensures
        p == (gain as int * 100 + 127) / 255,
        p <= 100,
{
    (gain as u16 * 100 + 127) / 255
}

/// An axis reading as a gauge percentage: the reading shifted into
/// `0..=65535` and scaled onto `0..=100`, rounded down.
pub fn axis_percent(value: i16) -> (p: u16)
    ensures
        p == ((value as int + 32768) * 100) / 65535,
        p <= 100,
{
    let shifted: u32 = (value as i32 + 32768) as u32;
    ((shifted * 100) / 65535) as u16
}

} // verus!
