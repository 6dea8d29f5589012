//! Input state types and HID report parsing for the Sidewinder Force Feedback 2.

use std::collections::VecDeque;
use vstd::prelude::*;

use crate::bits::bit16;
use crate::bytes::{i16_from_le, i16_le, u16_from_le, u16_le};

verus! {

// ── Smoothing ────────────────────────────────────────────────────────────────

/// Sum of a sequence of samples.
pub open spec fn sample_sum(s: Seq<i16>) -> int
    decreases s.len(),
{
    if s.len() == 0 {
        0
    } else {
        sample_sum(s.drop_last()) + s.last()
    }
}

/// Integer division rounding toward zero (the semantics of Rust's `/`).
pub open spec fn div_toward_zero(a: int, b: int) -> int {
    if a >= 0 {
        a / b
    } else {
        -((-a) / b)
    }
}

/// Integer average of a non-empty sample sequence, rounded toward zero.
pub open spec fn sample_average(s: Seq<i16>) -> int {
    div_toward_zero(sample_sum(s), s.len() as int)
}

/// Samples held after pushing `value` into a buffer of `window` slots that
/// held `samples`: the oldest sample leaves when the buffer is full.
pub open spec fn samples_after_push(samples: Seq<i16>, window: nat, value: i16) -> Seq<i16> {
    if samples.len() == window {
        samples.drop_first().push(value)
    } else {
        samples.push(value)
    }
}

/// The window size from which a sum of samples could leave `i64`.
pub open spec fn smoothing_window_limit() -> nat {
    0x1_0000_0000_0000
}

/// What one push does to a buffer: a window of 1 passes `value` through and
/// holds nothing; a wider window appends `value` (evicting the oldest sample
/// when full) and yields the average of what it then holds.
pub open spec fn push_outcome(before: SmoothingBuffer, after: SmoothingBuffer, value: i16, avg: i16) -> bool {
    &&& after.spec_window() == before.spec_window()
    &&& before.spec_window() == 1 ==> avg == value && after.samples() == before.samples()
    &&& before.spec_window() > 1 ==> {
        &&& after.samples() == samples_after_push(before.samples(), before.spec_window(), value)
        &&& avg == sample_average(after.samples())
    }
}

/// The samples a buffer with a window of `window` slots holds after the
/// values `vs` were pushed, in order, onto an empty buffer.
pub open spec fn samples_after_pushes(window: nat, vs: Seq<i16>) -> Seq<i16>
    decreases vs.len(),
{
    if vs.len() == 0 {
        Seq::empty()
    } else {
        samples_after_push(samples_after_pushes(window, vs.drop_last()), window, vs.last())
    }
}

/// The number of samples a window of `window` slots holds after `n` pushes.
pub open spec fn held_count(window: nat, n: nat) -> nat {
    if n < window {
        n
    } else {
        window
    }
}

/// A buffer fed from empty holds the latest values pushed: after pushing
/// `vs`, it holds the last `min(|vs|, window)` of them, oldest first, so each
/// push yields the average of the latest `min(n, window)` values.
pub proof fn lemma_window_holds_latest(window: nat, vs: Seq<i16>)
    requires
        window >= 1,
    ensures
        samples_after_pushes(window, vs) == vs.skip(vs.len() - held_count(window, vs.len())),
    decreases vs.len(),
{
    if vs.len() > 0 {
        let prev = vs.drop_last();
        lemma_window_holds_latest(window, prev);
        let held = samples_after_pushes(window, prev);
        if held.len() == window {
            assert(held.drop_first().push(vs.last()) =~= vs.skip(vs.len() - held_count(window, vs.len())));
        } else {
            assert(held.push(vs.last()) =~= vs.skip(vs.len() - held_count(window, vs.len())));
        }
    }
}

/// Samples between `lo` and `hi` sum to between `lo` and `hi` times their count.
proof fn lemma_sum_bounds(s: Seq<i16>, lo: int, hi: int)
    requires
        forall|i: int| 0 <= i < s.len() ==> lo <= #[trigger] s[i] <= hi,
    ensures
        lo * s.len() <= sample_sum(s) <= hi * s.len(),
    decreases s.len(),
{
    if s.len() > 0 {
        let t = s.drop_last();
        lemma_sum_bounds(t, lo, hi);
        assert(lo <= s[s.len() - 1] <= hi);
        assert(lo * t.len() + lo == lo * s.len()) by (nonlinear_arith)
            requires
                t.len() + 1 == s.len(),
        ;
        assert(hi * t.len() + hi == hi * s.len()) by (nonlinear_arith)
            requires
                t.len() + 1 == s.len(),
        ;
    }
}

/// The average of samples lies between their least and greatest: if every
/// sample is between `lo` and `hi`, so is the average.
pub proof fn lemma_average_between(s: Seq<i16>, lo: int, hi: int)
    requires
        s.len() >= 1,
        forall|i: int| 0 <= i < s.len() ==> lo <= #[trigger] s[i] <= hi,
    ensures
        lo <= sample_average(s) <= hi,
{
    lemma_sum_bounds(s, lo, hi);
    let a = sample_sum(s);
    let n = s.len() as int;
    if a >= 0 {
        assert(lo <= a / n <= hi) by (nonlinear_arith)
            requires
                n >= 1,
                a >= 0,
                lo * n <= a <= hi * n,
        ;
    } else {
        assert(lo <= -((-a) / n) <= hi) by (nonlinear_arith)
            requires
                n >= 1,
                a < 0,
                lo * n <= a <= hi * n,
        ;
    }
}

/// A buffer holding one repeated value averages to that value.
pub proof fn lemma_constant_average(s: Seq<i16>, v: i16)
    requires
        s.len() >= 1,
        forall|i: int| 0 <= i < s.len() ==> s[i] == v,
    ensures
        sample_average(s) == v,
{
    lemma_constant_sum(s, v);
    let n = s.len() as int;
    if v >= 0 {
        assert((n * v) / n == v) by (nonlinear_arith)
            requires
                n >= 1,
        ;
    } else {
        assert((-(n * v)) / n == -v) by (nonlinear_arith)
            requires
                n >= 1,
        ;
        assert(-(n * v) == n * (-v)) by (nonlinear_arith);
    }
}

/// The sum of `n` copies of `v` is `n * v`.
proof fn lemma_constant_sum(s: Seq<i16>, v: i16)
    requires
        forall|i: int| 0 <= i < s.len() ==> s[i] == v,
    ensures
        sample_sum(s) == s.len() * v,
    decreases s.len(),
{
    if s.len() > 0 {
        lemma_constant_sum(s.drop_last(), v);
        assert(sample_sum(s) == (s.len() - 1) * v + v);
        assert((s.len() - 1) * v + v == s.len() * v) by (nonlinear_arith);
    }
}

/// Rolling-average filter for a single axis.
///
/// Accumulates up to `window` samples and returns the integer average of the
/// buffer contents on each [`push`](SmoothingBuffer::push).  A window of 1
/// is a no-op — it always returns the value just pushed.
pub struct SmoothingBuffer {
    buf: VecDeque<i16>,
    window: usize,
}

impl SmoothingBuffer {
    /// The configured window size.
    pub closed spec fn spec_window(&self) -> nat {
        self.window as nat
    }

    /// The samples currently held, oldest first.
    pub closed spec fn samples(&self) -> Seq<i16> {
        self.buf@
    }

    /// The buffer never holds more samples than its window, and a window of 1
    /// holds none (it is bypassed).
    pub closed spec fn wf(&self) -> bool {
        &&& self.window >= 1
        &&& self.buf@.len() <= self.window
        &&& self.window == 1 ==> self.buf@.len() == 0
    }

    /// Create a new buffer with the given window size.
    ///
    /// `window` is clamped to 1 if zero is passed; a window of 1 acts as a
    /// pass-through.
    pub fn new(window: usize) -> (b: Self)
        ensures
            b.wf(),
            b.spec_window() == if window == 0 { 1 } else { window as nat },
            b.samples() == Seq::<i16>::empty(),
    {
        let window = if window < 1 { 1 } else { window };
        let buf = if window == 1 {
            VecDeque::new()
        } else {
            VecDeque::with_capacity(window)
        };
        Self { buf, window }
    }

    /// Return the configured window size.
    pub fn window(&self) -> (w: usize)
        ensures
            w == self.spec_window(),
    {
        self.window
    }

    /// Push a new sample and return the rolling average.
    ///
    /// If the buffer is full the oldest sample is evicted before inserting.
    /// The average is the sum of the held samples divided by their count,
    /// rounded toward zero.
    pub fn push(&mut self, value: i16) -> (avg: i16)
        requires
            old(self).wf(),
            old(self).spec_window() < smoothing_window_limit(),
        ensures
            final(self).wf(),
            final(self).spec_window() == old(self).spec_window(),
            old(self).spec_window() == 1 ==> avg == value && final(self).samples() == old(
                self,
            ).samples(),
            old(self).spec_window() > 1 ==> {
                &&& final(self).samples() == samples_after_push(
                    old(self).samples(),
                    old(self).spec_window(),
                    value,
                )
                &&& avg == sample_average(final(self).samples())
            },
    {
        if self.window == 1 {
            return value;
        }
        if self.buf.len() == self.window {
            let _ = self.buf.pop_front();
        }
        self.buf.push_back(value);
        let len = self.buf.len();
        let mut sum: i64 = 0;
        let mut i: usize = 0;
        while i < len
            invariant
                len == self.buf@.len(),
                1 <= len < smoothing_window_limit(),
                i <= len,
                sum == sample_sum(self.buf@.take(i as int)),
                -0x8000 * i <= sum <= 0x7fff * i,
            decreases len - i,
        {
            proof {
                lemma_sum_take_step(self.buf@, i as int);
            }
            sum = sum + self.buf[i] as i64;
            i = i + 1;
        }
        proof {
            assert(self.buf@.take(len as int) =~= self.buf@);
            lemma_average_in_range(sum as int, len as int);
        }
        let avg = if sum >= 0 {
            sum / (len as i64)
        } else {
            -((-sum) / (len as i64))
        };
        avg as i16
    }
}

/// Summing one more element of a prefix adds that element.
proof fn lemma_sum_take_step(s: Seq<i16>, i: int)
    requires
        0 <= i < s.len(),
    ensures
        sample_sum(s.take(i + 1)) == sample_sum(s.take(i)) + s[i],
{
    assert(s.take(i + 1).drop_last() =~= s.take(i));
}

/// The rounded average of values in the i16 range stays in the i16 range.
proof fn lemma_average_in_range(sum: int, len: int)
    requires
        len >= 1,
        -0x8000 * len <= sum <= 0x7fff * len,
    ensures
        -0x8000 <= div_toward_zero(sum, len) <= 0x7fff,
{
    if sum >= 0 {
        assert(sum / len <= 0x7fff) by (nonlinear_arith)
            requires
                len >= 1,
                0 <= sum <= 0x7fff * len,
        ;
        assert(sum / len >= 0) by (nonlinear_arith)
            requires
                len >= 1,
                0 <= sum,
        ;
    } else {
        assert((-sum) / len <= 0x8000) by (nonlinear_arith)
            requires
                len >= 1,
                0 < -sum <= 0x8000 * len,
        ;
        assert((-sum) / len >= 0) by (nonlinear_arith)
            requires
                len >= 1,
                0 < -sum,
        ;
    }
}

// ── Types ────────────────────────────────────────────────────────────────────

/// Direction reported by the POV hat switch.
#[derive(Debug, Clone, Copy, PartialEq, Eq, Structural)]
pub enum PovDirection {
    /// Hat centred / not pressed.
    Center,
    North,
    NorthEast,
    East,
    SouthEast,
    South,
    SouthWest,
    West,
    NorthWest,
}

/// The direction a raw hat value denotes: 0 = North, clockwise to 7 = North-West;
/// every other value is the centred (null) state.
pub open spec fn pov_from_raw(raw: u8) -> PovDirection {
    if raw == 0 {
        PovDirection::North
    } else if raw == 1 {
        PovDirection::NorthEast
    } else if raw == 2 {
        PovDirection::East
    } else if raw == 3 {
        PovDirection::SouthEast
    } else if raw == 4 {
        PovDirection::South
    } else if raw == 5 {
        PovDirection::SouthWest
    } else if raw == 6 {
        PovDirection::West
    } else if raw == 7 {
        PovDirection::NorthWest
    } else {
        PovDirection::Center
    }
}

/// Index of a direction, North = 0 clockwise to North-West = 7; the centred
/// state has the null value `0xFF`.
pub open spec fn pov_index(pov: PovDirection) -> u8 {
    match pov {
        PovDirection::North => 0,
        PovDirection::NorthEast => 1,
        PovDirection::East => 2,
        PovDirection::SouthEast => 3,
        PovDirection::South => 4,
        PovDirection::SouthWest => 5,
        PovDirection::West => 6,
        PovDirection::NorthWest => 7,
        PovDirection::Center => 0xFF,
    }
}

/// A direction survives the trip through its index: decoding the index of
/// any direction (the null value for the centre) gives the direction back.
pub proof fn lemma_pov_index_roundtrip(pov: PovDirection)
    ensures
        pov_from_raw(pov_index(pov)) == pov,
{
}

impl Default for PovDirection {
    fn default() -> (p: Self)
        ensures
            p == PovDirection::Center,
    {
        PovDirection::Center
    }
}

impl PovDirection {
    /// Convert from a raw HID hat-switch value.
    ///
    /// The Sidewinder FF2 encodes the hat as a nibble: 0 = North, 1 = NE, …,
    /// 7 = NW.  Any other value (including 0xFF / 0x0F null state) maps to
    /// [`PovDirection::Center`].
    pub fn from_hid_value(raw: u8) -> (p: Self)
        ensures
            p == pov_from_raw(raw),
    {
        match raw {
            0 => Self::North,
            1 => Self::NorthEast,
            2 => Self::East,
            3 => Self::SouthEast,
            4 => Self::South,
            5 => Self::SouthWest,
            6 => Self::West,
            7 => Self::NorthWest,
            _ => Self::Center,
        }
    }

    /// The direction index (North = 0 clockwise to North-West = 7), or `0xFF`
    /// for the centred state.
    pub fn index(self) -> (i: u8)
        ensures
            i == pov_index(self),
    {
        match self {
            Self::North => 0,
            Self::NorthEast => 1,
            Self::East => 2,
            Self::SouthEast => 3,
            Self::South => 4,
            Self::SouthWest => 5,
            Self::West => 6,
            Self::NorthWest => 7,
            Self::Center => 0xFF,
        }
    }
}

/// Snapshot of all joystick inputs at a single point in time.
///
/// Axes are in signed 16-bit range.  Buttons are a bitfield: bit *n*
/// corresponds to button *n + 1*.  The Sidewinder FF2 populates the first four
/// axis slots in the order X, Y, Rz (twist), Slider (throttle); slots 4–7 are
/// always zero for this device.
#[derive(Debug, Clone, Copy, PartialEq, Eq)]
pub struct InputState {
    /// Axes `[X, Y, Rz/twist, Slider/throttle, …]` (device populates indices 0–3).
    pub axes: [i16; 8],
    /// Buttons 1-9 packed into the low nine bits.
    pub buttons: u16,
    /// POV hat direction.
    pub pov: PovDirection,
}

impl Default for InputState {
    fn default() -> (s: Self)
        ensures
            s.axes@ == seq![0i16, 0, 0, 0, 0, 0, 0, 0],
            s.buttons == 0,
            s.pov == PovDirection::Center,
    {
        InputState { axes: [0i16; 8], buttons: 0, pov: PovDirection::Center }
    }
}

impl InputState {
    /// Returns `true` if button `index` (0-based) is currently pressed.
    pub fn is_button_pressed(self, index: u8) -> (b: bool)
        requires
            index < 16,
        ensures
            b == bit16(self.buttons, index as int),
    {
        crate::bits::u16_bit(self.buttons, index)
    }
}

// ── Report parsing ───────────────────────────────────────────────────────────

/// Error returned when a HID input report cannot be parsed.
#[derive(Debug, PartialEq, Eq, Structural)]
pub enum InputParseError {
    /// The report buffer is shorter than the minimum expected size.
    TooShort { expected: usize, got: usize },
}

/// Minimum valid report size for the Sidewinder FF2 (after report-ID strip):
/// 4 axes × 2 bytes + 2 button bytes + 1 POV byte.
pub const MIN_REPORT_SIZE: usize = 11;

/// The state a well-formed report denotes: little-endian axes at bytes 0–7,
/// the button word at bytes 8–9, the hat at byte 10, unused axes zero.
pub open spec fn report_state_ok(r: Seq<u8>, s: InputState) -> bool {
    &&& s.axes@[0] == i16_le(r[0], r[1])
    &&& s.axes@[1] == i16_le(r[2], r[3])
    &&& s.axes@[2] == i16_le(r[4], r[5])
    &&& s.axes@[3] == i16_le(r[6], r[7])
    &&& s.axes@[4] == 0 && s.axes@[5] == 0 && s.axes@[6] == 0 && s.axes@[7] == 0
    &&& s.buttons == u16_le(r[8], r[9])
    &&& s.pov == pov_from_raw(r[10])
}

/// Bytes past the eleventh do not matter: a report denotes the same state
/// with or without trailing bytes.
pub proof fn lemma_trailing_bytes_ignored(report: Seq<u8>, extra: Seq<u8>, s: InputState)
    requires
        report.len() >= MIN_REPORT_SIZE,
    ensures
        report_state_ok(report, s) <==> report_state_ok(report + extra, s),
{
    let long = report + extra;
    assert(forall|k: int| 0 <= k < 11 ==> long[k] == report[k]);
}

/// Parse a raw HID input report into an [`InputState`].
///
/// Layout (no report-ID prefix, little-endian): bytes 0-1 X, 2-3 Y,
/// 4-5 Rz/twist, 6-7 Slider/throttle, 8-9 buttons, 10 POV hat.  Bytes past
/// the eleventh are ignored.
///
/// Returns [`InputParseError::TooShort`] if `report` has fewer than 11 bytes.
pub fn parse_input_report(report: &[u8]) -> (res: Result<InputState, InputParseError>)
    ensures
        report@.len() < MIN_REPORT_SIZE ==> res == Err::<InputState, InputParseError>(
            InputParseError::TooShort { expected: MIN_REPORT_SIZE, got: report@.len() as usize },
        ),
        report@.len() >= MIN_REPORT_SIZE ==> res.is_ok() && report_state_ok(report@, res.unwrap()),
{
    if report.len() < MIN_REPORT_SIZE {
        return Err(InputParseError::TooShort { expected: MIN_REPORT_SIZE, got: report.len() });
    }
    let mut axes = [0i16; 8];
    axes[0] = i16_from_le(report[0], report[1]);
    axes[1] = i16_from_le(report[2], report[3]);
    axes[2] = i16_from_le(report[4], report[5]);
    axes[3] = i16_from_le(report[6], report[7]);
    let state = InputState {
        axes,
        buttons: u16_from_le(report[8], report[9]),
        pov: PovDirection::from_hid_value(report[10]),
    };
    Ok(state)
}

} // verus!
