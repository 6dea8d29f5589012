//! Device-connection status types and the tray tooltip text.

use vstd::prelude::*;
use vstd::string::StrSliceExecFns;

verus! {

/// Whether the kernel driver IPC device was successfully opened at startup.
#[derive(Debug, Clone, Copy, PartialEq, Eq, Structural)]
pub enum DriverStatus {
    /// The driver device opened successfully: the full FFB bridge is running.
    Present,
    /// The driver device was not found; the app runs in input-only mode.
    Missing,
}

/// Aggregated result of the startup self-test performed before spawning the
/// bridge tasks.
#[derive(Debug, Clone, Copy, PartialEq, Eq, Structural)]
pub struct StartupStatus {
    /// Whether the driver IPC device was opened successfully.
    pub driver: DriverStatus,
    /// Whether axis calibration data has been recorded.
    pub calibration_set: bool,
}

/// Physical device connection state broadcast from the input loop to the tray.
#[derive(Debug, Clone, Copy, PartialEq, Eq, Structural)]
pub enum ConnectionStatus {
    /// Device is present and the input loop is running.
    Connected,
    /// Device was disconnected; the bridge is retrying.
    Disconnected,
}

/// The tooltip text for a connection + driver + calibration state.
pub open spec fn status_text(conn: ConnectionStatus, driver: DriverStatus, calibration_set: bool) -> Seq<char> {
    match (conn, driver) {
        (ConnectionStatus::Connected, DriverStatus::Present) => if !calibration_set {
            "Sidewinder FFB2 \u{2014} calibration not set (run Calibrate for accuracy)"@
        } else {
            "Sidewinder FFB2 \u{2014} connected"@
        },
        (ConnectionStatus::Connected, DriverStatus::Missing) =>
            "Driver not installed \u{2014} FFB unavailable. Right-click \u{2192} Install Driver."@,
        (ConnectionStatus::Disconnected, DriverStatus::Present) =>
            "Waiting for joystick\u{2026} (plug in your Sidewinder Force Feedback 2)"@,
        (ConnectionStatus::Disconnected, DriverStatus::Missing) =>
            "No joystick or driver found. Check connections and driver installation."@,
    }
}

/// Build the tray tooltip string for a connection + driver + calibration state.
pub fn status_label(conn: ConnectionStatus, driver: DriverStatus, calibration_set: bool) -> (s: &'static str)
    ensures
        s@ == status_text(conn, driver, calibration_set),
{
    match (conn, driver) {
        (ConnectionStatus::Connected, DriverStatus::Present) => if !calibration_set {
            "Sidewinder FFB2 \u{2014} calibration not set (run Calibrate for accuracy)"
        } else {
            "Sidewinder FFB2 \u{2014} connected"
        },
        (ConnectionStatus::Connected, DriverStatus::Missing) =>
            "Driver not installed \u{2014} FFB unavailable. Right-click \u{2192} Install Driver.",
        (ConnectionStatus::Disconnected, DriverStatus::Present) =>
            "Waiting for joystick\u{2026} (plug in your Sidewinder Force Feedback 2)",
        (ConnectionStatus::Disconnected, DriverStatus::Missing) =>
            "No joystick or driver found. Check connections and driver installation.",
    }
}

// ── Tooltip buffer ───────────────────────────────────────────────────────────

/// Length of the tooltip buffer, terminator included.
pub const TIP_LEN: usize = 128;

/// The UTF-16 code units of one character: the character itself below
/// U+10000, else a high/low surrogate pair.
pub open spec fn utf16_units(c: char) -> Seq<u16> {
    let v = c as u32;
    if v < 0x10000 {
        seq![v as u16]
    } else {
        seq![(0xD800 + ((v - 0x10000) as u32 >> 10u32)) as u16, (0xDC00 + ((v - 0x10000) as u32 & 0x3FFu32)) as u16]
    }
}

/// The UTF-16 encoding of a character sequence.
pub open spec fn utf16(s: Seq<char>) -> Seq<u16>
    decreases s.len(),
{
    if s.len() == 0 {
        Seq::empty()
    } else {
        utf16(s.drop_last()) + utf16_units(s.last())
    }
}

/// The tooltip buffer for a text: its first 127 UTF-16 units, then zeros up
/// to the end of the buffer (so the buffer is always terminated).
pub open spec fn tip_unit(text: Seq<char>, i: int) -> u16 {
    if i < 127 && i < utf16(text).len() {
        utf16(text)[i]
    } else {
        0
    }
}

/// Encoding a prefix yields a prefix of the encoding.
proof fn lemma_utf16_prefix(s: Seq<char>, i: int, j: int)
    requires
        0 <= i <= j <= s.len(),
    ensures
        utf16(s.take(i)).len() <= utf16(s.take(j)).len(),
        utf16(s.take(i)) == utf16(s.take(j)).take(utf16(s.take(i)).len() as int),
    decreases j - i,
{
    if i < j {
        lemma_utf16_prefix(s, i, j - 1);
        assert(s.take(j).drop_last() =~= s.take(j - 1));
        assert(utf16(s.take(j)) == utf16(s.take(j - 1)) + utf16_units(s[j - 1]));
        assert(utf16(s.take(i)) =~= utf16(s.take(j)).take(utf16(s.take(i)).len() as int));
    } else {
        assert(utf16(s.take(i)) =~= utf16(s.take(j)).take(utf16(s.take(i)).len() as int));
    }
}

/// The code units of one character.
fn char_units(c: char) -> (r: (u16, Option<u16>))
    ensures
        utf16_units(c) == match r.1 {
            None => seq![r.0],
            Some(lo) => seq![r.0, lo],
        },
{
    let v = c as u32;
    if v < 0x10000 {
        (v as u16, None)
    } else {
        let w = v - 0x10000;
        assert(w >> 10u32 <= 0x3FF && w & 0x3FFu32 <= 0x3FF) by (bit_vector)
            requires
                w <= 0x10FFFF - 0x10000,
        ;
        ((0xD800 + (w >> 10)) as u16, Some((0xDC00 + (w & 0x3FF)) as u16))
    }
}

/// Fill a tooltip buffer with the UTF-16 encoding of `text`, truncated to
/// 127 units and zero-terminated.
pub fn fill_tip(tip: &mut [u16; 128], text: &str)
    ensures
        forall|i: int| 0 <= i < 128 ==> #[trigger] final(tip)@[i] == tip_unit(text@, i),
{
    let mut k: usize = 0;
    while k < TIP_LEN
        invariant
            k <= TIP_LEN,
            tip@.len() == 128,
            forall|i: int| 0 <= i < k ==> #[trigger] tip@[i] == 0,
        decreases TIP_LEN - k,
    {
        tip[k] = 0;
        k = k + 1;
    }
    let n = text.unicode_len();
    let mut ci: usize = 0;
    let mut pos: usize = 0;
    while ci < n && pos < 127
        invariant
            n == text@.len(),
            ci <= n,
            tip@.len() == 128,
            pos <= 127,
            pos == if utf16(text@.take(ci as int)).len() < 127 { utf16(text@.take(ci as int)).len() } else { 127 },
            forall|i: int| 0 <= i < pos ==> #[trigger] tip@[i] == utf16(text@.take(ci as int))[i],
            forall|i: int| pos <= i < 128 ==> #[trigger] tip@[i] == 0,
        decreases n - ci,
    {
        let c = text.get_char(ci);
        let (hi, lo) = char_units(c);
        proof {
            assert(text@.take(ci + 1).drop_last() =~= text@.take(ci as int));
        }
        let ghost before = utf16(text@.take(ci as int));
        tip[pos] = hi;
        pos = pos + 1;
        match lo {
            Some(l) => {
                if pos < 127 {
                    tip[pos] = l;
                    pos = pos + 1;
                }
            },
            None => {},
        }
        ci = ci + 1;
        assert(utf16(text@.take(ci as int)) == before + utf16_units(c));
    }
    proof {
        let full = utf16(text@);
        let cur = utf16(text@.take(ci as int));
        assert(text@.take(n as int) =~= text@);
        lemma_utf16_prefix(text@, ci as int, n as int);
        assert forall|i: int| 0 <= i < 128 implies #[trigger] tip@[i] == tip_unit(text@, i) by {
            if i < pos {
                assert(cur[i] == full[i]);
            } else if ci == n {
                assert(cur == full);
            }
        }
    }
}

} // verus!
